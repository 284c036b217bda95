use vstd::prelude::*;

verus! {

/// Where the relational backend is reached.
#[derive(Debug)]
pub struct DatabaseSettings {
    pub url: String,
}

impl Clone for DatabaseSettings {
    fn clone(&self) -> (copy: Self)
        ensures
            copy == *self,
    {
        DatabaseSettings { url: self.url.clone() }
    }
}

} // verus!
