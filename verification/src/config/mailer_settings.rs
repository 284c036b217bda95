use vstd::prelude::*;

use crate::mail::send_grid::SendGridMail;

verus! {

/// The mail services the service knows how to talk to.
#[derive(Clone, Copy, Debug, PartialEq, Eq, Structural)]
pub enum MailerProvider {
    SendGrid,
}

/// Which mail service to use, and the credential for it.
#[derive(Debug)]
pub struct MailerSettings {
    pub provider: MailerProvider,
    pub token: String,
}

impl Clone for MailerSettings {
    fn clone(&self) -> (copy: Self)
        ensures
            copy == *self,
    {
        MailerSettings { provider: self.provider, token: self.token.clone() }
    }
}

impl MailerSettings {
    /// The mailer for the configured provider, carrying the configured
    /// credential.
    pub fn get_send_mail(&self) -> (mailer: SendGridMail)
        ensures
            mailer.token == self.token,
    {
        match self.provider {
            MailerProvider::SendGrid => SendGridMail { token: self.token.clone() },
        }
    }
}

} // verus!
