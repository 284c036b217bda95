use vstd::prelude::*;

use crate::config::subscribed_settings::SubscribedSettings;

verus! {

/// Where the service listens, and what it does once a visitor subscribed.
#[derive(Debug)]
pub struct ApplicationSettings {
    pub port: u16,
    pub host: String,
    pub subscribed: SubscribedSettings,
}

impl Clone for ApplicationSettings {
    fn clone(&self) -> (copy: Self)
        ensures
            copy == *self,
    {
        ApplicationSettings {
            port: self.port,
            host: self.host.clone(),
            subscribed: self.subscribed.clone(),
        }
    }
}

impl Default for ApplicationSettings {
    fn default() -> (settings: Self)
        ensures
            settings.port == 0,
            settings.host@ == Seq::<char>::empty(),
            settings.subscribed.redirect is None,
    {
        ApplicationSettings { port: 0, host: String::new(), subscribed: SubscribedSettings::default() }
    }
}

} // verus!
