//! Handing mail to a delivery service.

pub mod send_grid;
pub mod send_mail;

pub use send_grid::SendGridMail;
pub use send_mail::MailError;
pub use send_mail::SendMail;
