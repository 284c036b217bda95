use vstd::prelude::*;

verus! {

/// The status of an answer.
#[derive(Clone, Copy, Debug, PartialEq, Eq, Structural)]
pub enum Status {
    Success,
    SeeOther,
    BadRequest,
    Unauthorized,
    InternalServerError,
}

impl Status {
    /// The status code as it goes on the wire.
    pub open spec fn spec_code(self) -> u16 {
        match self {
            Status::Success => 200,
            Status::SeeOther => 303,
            Status::BadRequest => 400,
            Status::Unauthorized => 401,
            Status::InternalServerError => 500,
        }
    }

    /// The status code as it goes on the wire.
    #[verifier::when_used_as_spec(spec_code)]
    pub fn code(self) -> (code: u16)
        ensures
            code == self.spec_code(),
    {
        match self {
            Status::Success => 200,
            Status::SeeOther => 303,
            Status::BadRequest => 400,
            Status::Unauthorized => 401,
            Status::InternalServerError => 500,
        }
    }
}

/// An answer that sends the visitor on to another address.
#[derive(Debug)]
pub struct Redirect {
    pub location: String,
}

impl Redirect {
    /// A redirect always answers with "see other".
    pub fn status(&self) -> (status: Status)
        ensures
            status == Status::SeeOther,
    {
        Status::SeeOther
    }
}

} // verus!
