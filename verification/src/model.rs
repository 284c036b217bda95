//! Subscriber entity and value types.

pub mod email;
pub mod subscriber;

pub use email::Email;
pub use subscriber::NewSubscriber;
pub use subscriber::Subscriber;
pub use subscriber::SubscriberView;
