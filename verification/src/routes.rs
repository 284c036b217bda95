//! The request handlers: what each operation answers, given what the
//! request carried and what the store said.

pub mod response;
pub mod subscribers;

pub use response::Redirect;
pub use response::Status;
pub use subscribers::delete;
pub use subscribers::get_subscribers;
pub use subscribers::subscribe;
pub use subscribers::Delete;
