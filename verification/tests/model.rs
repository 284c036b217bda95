use minimail::config::AdminSettings;
use minimail::config::ApplicationSettings;
use minimail::config::DatabaseSettings;
use minimail::config::MailerProvider;
use minimail::config::MailerSettings;
use minimail::config::Settings;
use minimail::config::SubscribedSettings;
use minimail::mail::SendGridMail;
use minimail::mail::SendMail;
use minimail::model::Email;
use minimail::model::NewSubscriber;
use minimail::model::Subscriber;

#[test]
fn email_from_str_and_string_keep_the_text() {
    assert_eq!("test@email.com", Email::from("test@email.com").0);
    assert_eq!("test@email.com", Email::from("test@email.com".to_string()).0);
    assert_eq!("", Email::from("").0);
}

#[test]
fn email_equality_is_exact_and_case_sensitive() {
    let email = Email::from("user@email.com");
    assert!(email == Email::from("user@email.com"));
    assert!(email != Email::from("User@email.com"));
    assert!(email != Email::from("user@email.com "));
}

#[test]
fn clones_keep_their_fields() {
    let subscriber = Subscriber { id: 7, email: Email::from("a@x") };
    let copy = subscriber.clone();
    assert_eq!(7, copy.id);
    assert_eq!("a@x", copy.email.0);
    let new_subscriber = NewSubscriber { email: Email::from("b@y") };
    assert_eq!("b@y", new_subscriber.clone().email.0);
}

#[test]
fn default_settings() {
    assert_eq!(None, SubscribedSettings::default().redirect);
    let application = ApplicationSettings::default();
    assert_eq!(0, application.port);
    assert_eq!("", application.host);
    assert_eq!(None, application.subscribed.redirect);
}

#[test]
fn settings_clone_keeps_every_field() {
    let settings = Settings {
        application: ApplicationSettings {
            port: 8000,
            host: "127.0.0.1".to_string(),
            subscribed: SubscribedSettings { redirect: Some("http://example.com".to_string()) },
        },
        database: DatabaseSettings { url: "postgres://localhost/minimail".to_string() },
        admin: AdminSettings { token: "admin".to_string() },
    };
    let copy = settings.clone();
    assert_eq!(8000, copy.application.port);
    assert_eq!("127.0.0.1", copy.application.host);
    assert_eq!(Some("http://example.com".to_string()), copy.application.subscribed.redirect);
    assert_eq!("postgres://localhost/minimail", copy.database.url);
    assert_eq!("admin", copy.admin.token);
}

#[test]
fn mailer_carries_the_configured_token() {
    let settings = MailerSettings { provider: MailerProvider::SendGrid, token: "key".to_string() };
    let mailer = settings.get_send_mail();
    assert_eq!("key", mailer.token);
    assert_eq!("key", settings.clone().token);
}

#[test]
fn send_grid_accepts_mail() {
    let mut mailer = SendGridMail { token: "key".to_string() };
    let sent = mailer.send(vec![Email::from("a@x"), Email::from("b@y")], "hello");
    assert!(sent.is_ok());
    assert_eq!("key", mailer.token);
}
