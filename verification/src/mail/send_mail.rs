use vstd::prelude::*;

use crate::model::email::Email;

verus! {

/// Why a mail could not be handed over, in the delivery service's words.
#[derive(Debug)]
pub struct MailError {
    pub message: String,
}

/// Something that can deliver one body to a list of addresses. Delivery
/// happens outside the program, so nothing is promised of the outcome.
pub trait SendMail {
    fn send(&mut self, emails: Vec<Email>, body: &str) -> (result: Result<(), MailError>);
}

} // verus!
