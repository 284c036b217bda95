//! The settings the service is started with, already read and parsed.

pub mod admin_settings;
pub mod application_settings;
pub mod database_settings;
pub mod environment;
pub mod mailer_settings;
pub mod settings;
pub mod subscribed_settings;

pub use admin_settings::AdminSettings;
pub use application_settings::ApplicationSettings;
pub use database_settings::DatabaseSettings;
pub use environment::Environment;
pub use mailer_settings::MailerProvider;
pub use mailer_settings::MailerSettings;
pub use settings::Settings;
pub use subscribed_settings::SubscribedSettings;
