use vstd::prelude::*;

verus! {

/// The administrator's credential. A token is always required: there is no
/// setting under which every request counts as authorized.
#[derive(Debug)]
pub struct AdminSettings {
    pub token: String,
}

impl Clone for AdminSettings {
    fn clone(&self) -> (copy: Self)
        ensures
            copy == *self,
    {
        AdminSettings { token: self.token.clone() }
    }
}

} // verus!
