use vstd::prelude::*;
use vstd::std_specs::cmp::PartialEqSpecImpl;
use vstd::std_specs::convert::FromSpecImpl;
use vstd::string::StringExecFns;

verus! {

/// An email address, kept exactly as it was given: nothing is normalized,
/// and two addresses are the same only if they agree character by character.
#[derive(Debug)]
pub struct Email(pub String);

impl View for Email {
    type V = Seq<char>;

    open spec fn view(&self) -> Seq<char> {
        self.0@
    }
}

impl PartialEq for Email {
    fn eq(&self, other: &Email) -> (same: bool) {
        self.0 == other.0
    }
}

impl PartialEqSpecImpl for Email {
    open spec fn obeys_eq_spec() -> bool {
        true
    }

    /// Exact, case-sensitive comparison of the characters.
    open spec fn eq_spec(&self, other: &Email) -> bool {
        self@ == other@
    }
}

impl Clone for Email {
    fn clone(&self) -> (copy: Self)
        ensures
            copy == *self,
    {
        Email(self.0.clone())
    }
}

impl From<String> for Email {
    fn from(email: String) -> (made: Self)
        ensures
            made@ == email@,
    {
        Email(email)
    }
}

impl FromSpecImpl<String> for Email {
    open spec fn obeys_from_spec() -> bool {
        true
    }

    open spec fn from_spec(email: String) -> Self {
        Email(email)
    }
}

impl<'a> From<&'a str> for Email {
    fn from(email: &'a str) -> (made: Self)
        ensures
            made@ == email@,
    {
        Email(String::from_str(email))
    }
}

impl<'a> FromSpecImpl<&'a str> for Email {
    /// An address built from a string slice is described by its view alone.
    open spec fn obeys_from_spec() -> bool {
        false
    }

    open spec fn from_spec(email: &'a str) -> Self {
        arbitrary()
    }
}

} // verus!
