//! A mailing-list subscription service: subscriber values, the subscriber
//! store and the admin-gated request handlers that drive it.
//!
//! - [`model`]: the address, the subscriber and what a caller hands in to
//!   subscribe.
//! - [`store`]: the state a store stands for, the rules of create, list and
//!   delete over it, the laws that follow from them, and the in-process
//!   backend. Subscribers are deleted by identifier.
//! - [`auth`]: the check of a bearer credential against the admin token. A
//!   token is always required.
//! - [`routes`]: what each request is answered with.
//! - [`config`]: the settings the service is started with.
//! - [`mail`]: handing mail to a delivery service.

pub mod auth;
pub mod config;
pub mod mail;
pub mod model;
pub mod routes;
pub mod store;
