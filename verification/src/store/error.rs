use vstd::prelude::*;
use vstd::string::StringExecFns;

verus! {

/// Why a store operation failed.
#[derive(Debug)]
pub enum StoreError {
    /// Every identifier the store can issue has been issued.
    IdentifiersExhausted,
    /// The backend reported a fault; the text is the backend's own.
    Backend(String),
}

/// The text reported for a store whose identifiers have run out.
pub open spec fn exhausted_text() -> Seq<char> {
    "subscriber identifiers exhausted"@
}

impl StoreError {
    /// The text of the error as it is shown to a caller.
    pub open spec fn text(self) -> Seq<char> {
        match self {
            StoreError::IdentifiersExhausted => exhausted_text(),
            StoreError::Backend(message) => message@,
        }
    }

    /// The error's text.
    pub fn message(&self) -> (text: String)
        ensures
            text@ == self.text(),
    {
        match self {
            StoreError::IdentifiersExhausted => String::from_str("subscriber identifiers exhausted"),
            StoreError::Backend(message) => message.clone(),
        }
    }
}

} // verus!
