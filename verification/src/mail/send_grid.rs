use vstd::prelude::*;

use crate::mail::send_mail::MailError;
use crate::mail::send_mail::SendMail;
use crate::model::email::Email;

verus! {

/// The SendGrid mailer. It accepts every mail and delivers none yet.
pub struct SendGridMail {
    pub token: String,
}

impl SendMail for SendGridMail {
    fn send(&mut self, _emails: Vec<Email>, _body: &str) -> (result: Result<(), MailError>)
        ensures
            result is Ok,
            *final(self) == *old(self),
    {
        Ok(())
    }
}

} // verus!
