use vstd::prelude::*;

verus! {

/// Where a visitor is sent once subscribed. With no redirect configured the
/// visitor goes back to the origin of the request.
#[derive(Debug)]
pub struct SubscribedSettings {
    pub redirect: Option<String>,
}

impl Clone for SubscribedSettings {
    fn clone(&self) -> (copy: Self)
        ensures
            copy == *self,
    {
        match &self.redirect {
            Some(url) => SubscribedSettings { redirect: Some(url.clone()) },
            None => SubscribedSettings { redirect: None },
        }
    }
}

impl Default for SubscribedSettings {
    fn default() -> (settings: Self)
        ensures
            settings.redirect is None,
    {
        SubscribedSettings { redirect: None }
    }
}

} // verus!
