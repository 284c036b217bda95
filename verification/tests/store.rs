use minimail::model::Email;
use minimail::model::NewSubscriber;
use minimail::model::Subscriber;
use minimail::store::InMemorySubscriberStore;
use minimail::store::StoreError;
use minimail::store::SubscriberStore;

fn new_subscriber(email: &str) -> NewSubscriber {
    NewSubscriber { email: Email::from(email) }
}

fn ids(subscribers: &Vec<Subscriber>) -> Vec<i32> {
    subscribers.iter().map(|s| s.id).collect()
}

fn emails(subscribers: &Vec<Subscriber>) -> Vec<String> {
    subscribers.iter().map(|s| s.email.0.clone()).collect()
}

#[test]
fn create_returns_subscriber() {
    let mut store = InMemorySubscriberStore::default();
    let new_subscriber = NewSubscriber { email: Email::from("test@email.com") };

    let subscriber = store.create(new_subscriber).unwrap();

    assert_eq!("test@email.com", subscriber.email.0);
    assert_eq!(1, subscriber.id);
}

#[test]
fn create_does_not_duplicate() {
    let mut store = InMemorySubscriberStore::default();
    let new_subscriber = NewSubscriber { email: Email::from("test@email.com") };

    store.create(new_subscriber.clone()).unwrap();
    store.create(new_subscriber.clone()).unwrap();
    let subscribers = store.all().unwrap();

    assert_eq!(1, subscribers.len());
}

#[test]
fn subscriber_store_create_does_not_duplicate() {
    let mut store = InMemorySubscriberStore::default();
    let new_subscriber = NewSubscriber { email: Email::from("test@email.com") };

    let initial = store.create(new_subscriber.clone()).unwrap();
    let duplicate = store.create(new_subscriber.clone()).unwrap();

    assert_eq!(initial.id, duplicate.id);
    assert_eq!(initial.email.0, duplicate.email.0);
}

#[test]
fn delete_removes_subscriber() {
    let mut store = InMemorySubscriberStore::default();
    let new_subscriber = NewSubscriber { email: Email::from("test@email.com") };

    let subscriber = store.create(new_subscriber).unwrap();
    store.delete(subscriber.id).unwrap();
    let subscribers = store.all().unwrap();

    assert_eq!(0, subscribers.len());
}

#[test]
fn subscriber_store_delete_removes_subscriber() {
    let mut store = InMemorySubscriberStore::default();
    store.create(new_subscriber("other@email.com")).unwrap();
    let subscriber = store.create(new_subscriber("test@email.com")).unwrap();

    store.delete(subscriber.id).unwrap();

    assert!(!store.all().unwrap().iter().any(|s| s.id == subscriber.id));
    assert_eq!(vec!["other@email.com".to_string()], emails(&store.all().unwrap()));
}

#[test]
fn all_lists_subscribers() {
    let mut store = InMemorySubscriberStore::default();
    let first_subscriber = NewSubscriber { email: Email::from("test@email.com") };
    let second_subscriber = NewSubscriber { email: Email::from("another_test@email.com") };

    store.create(first_subscriber).unwrap();
    store.create(second_subscriber).unwrap();
    let subscribers = store.all().unwrap();

    assert_eq!(2, subscribers.len());
}

#[test]
fn subscriber_store_create_returns_subscriber() {
    let mut store = InMemorySubscriberStore::new();
    let new_subscriber = NewSubscriber { email: Email::from("test@email.com") };

    let subscriber = store.create(new_subscriber).unwrap();

    assert_eq!("test@email.com", subscriber.email.0);
}

#[test]
fn subscriber_store_all_lists_subscribers() {
    let mut store = InMemorySubscriberStore::new();
    let first_subscriber = NewSubscriber { email: Email::from("test@email.com") };
    let second_subscriber = NewSubscriber { email: Email::from("another_test@email.com") };

    store.create(first_subscriber).unwrap();
    store.create(second_subscriber).unwrap();
    let subscribers = store.all().unwrap();

    assert!(subscribers.len() == 2);
}

#[test]
fn all_lists_in_creation_order() {
    let mut store = InMemorySubscriberStore::new();
    store.create(new_subscriber("c@email.com")).unwrap();
    store.create(new_subscriber("a@email.com")).unwrap();
    store.create(new_subscriber("b@email.com")).unwrap();

    let subscribers = store.all().unwrap();

    assert_eq!(vec![1, 2, 3], ids(&subscribers));
    assert_eq!(
        vec!["c@email.com".to_string(), "a@email.com".to_string(), "b@email.com".to_string()],
        emails(&subscribers)
    );
}

#[test]
fn new_store_is_empty() {
    let store = InMemorySubscriberStore::new();
    assert_eq!(0, store.all().unwrap().len());
    assert!(!store.is_exhausted());
}

#[test]
fn repeated_listing_is_the_same() {
    let mut store = InMemorySubscriberStore::new();
    store.create(new_subscriber("a@email.com")).unwrap();
    store.create(new_subscriber("b@email.com")).unwrap();

    let first = store.all().unwrap();
    let second = store.all().unwrap();

    assert_eq!(ids(&first), ids(&second));
    assert_eq!(emails(&first), emails(&second));
}

#[test]
fn create_twice_keeps_one_entry_with_that_email() {
    let mut store = InMemorySubscriberStore::new();
    store.create(new_subscriber("first@email.com")).unwrap();
    let once = store.create(new_subscriber("e@email.com")).unwrap();
    let twice = store.create(new_subscriber("e@email.com")).unwrap();

    assert_eq!(2, once.id);
    assert_eq!(once.id, twice.id);
    assert_eq!("e@email.com", twice.email.0);
    let listed = store.all().unwrap();
    assert_eq!(1, listed.iter().filter(|s| s.email.0 == "e@email.com").count());
    assert_eq!(2, listed.len());
}

#[test]
fn duplicate_create_issues_no_identifier() {
    let mut store = InMemorySubscriberStore::new();
    store.create(new_subscriber("a@email.com")).unwrap();
    store.create(new_subscriber("a@email.com")).unwrap();
    let next = store.create(new_subscriber("b@email.com")).unwrap();

    assert_eq!(2, next.id);
}

#[test]
fn emails_are_compared_exactly() {
    let mut store = InMemorySubscriberStore::new();
    let lower = store.create(new_subscriber("user@email.com")).unwrap();
    let upper = store.create(new_subscriber("User@email.com")).unwrap();

    assert_eq!(1, lower.id);
    assert_eq!(2, upper.id);
    assert_eq!(2, store.all().unwrap().len());
}

#[test]
fn empty_email_is_stored_like_any_other() {
    let mut store = InMemorySubscriberStore::new();
    let first = store.create(new_subscriber("")).unwrap();
    let again = store.create(new_subscriber("")).unwrap();

    assert_eq!(1, first.id);
    assert_eq!(1, again.id);
    assert_eq!(1, store.all().unwrap().len());
}

#[test]
fn identifiers_increase_across_deletes() {
    let mut store = InMemorySubscriberStore::new();
    let a = store.create(new_subscriber("a@email.com")).unwrap();
    let b = store.create(new_subscriber("b@email.com")).unwrap();
    store.delete(b.id).unwrap();
    let c = store.create(new_subscriber("c@email.com")).unwrap();
    store.delete(a.id).unwrap();
    store.delete(c.id).unwrap();
    let d = store.create(new_subscriber("d@email.com")).unwrap();

    assert_eq!(vec![1, 2, 3, 4], vec![a.id, b.id, c.id, d.id]);
    assert_eq!(vec![4], ids(&store.all().unwrap()));
}

#[test]
fn deleted_email_can_be_created_again_under_a_new_identifier() {
    let mut store = InMemorySubscriberStore::new();
    let first = store.create(new_subscriber("a@email.com")).unwrap();
    store.delete(first.id).unwrap();
    let second = store.create(new_subscriber("a@email.com")).unwrap();

    assert_eq!(1, first.id);
    assert_eq!(2, second.id);
    assert_eq!(vec![2], ids(&store.all().unwrap()));
}

#[test]
fn delete_twice_changes_nothing_more() {
    let mut store = InMemorySubscriberStore::new();
    let a = store.create(new_subscriber("a@email.com")).unwrap();
    let b = store.create(new_subscriber("b@email.com")).unwrap();

    assert!(store.delete(a.id).is_ok());
    let after_first = store.all().unwrap();
    assert!(store.delete(a.id).is_ok());
    let after_second = store.all().unwrap();

    assert_eq!(vec![b.id], ids(&after_first));
    assert_eq!(ids(&after_first), ids(&after_second));
    assert_eq!(emails(&after_first), emails(&after_second));
}

#[test]
fn delete_of_unknown_identifier_is_no_error() {
    let mut store = InMemorySubscriberStore::new();
    store.create(new_subscriber("a@email.com")).unwrap();

    assert!(store.delete(42).is_ok());
    assert!(store.delete(-1).is_ok());
    assert!(store.delete(0).is_ok());

    assert_eq!(vec![1], ids(&store.all().unwrap()));
}

#[test]
fn delete_in_the_middle_keeps_the_order() {
    let mut store = InMemorySubscriberStore::new();
    store.create(new_subscriber("a@email.com")).unwrap();
    store.create(new_subscriber("b@email.com")).unwrap();
    store.create(new_subscriber("c@email.com")).unwrap();

    store.delete(2).unwrap();

    assert_eq!(vec![1, 3], ids(&store.all().unwrap()));
    assert_eq!(
        vec!["a@email.com".to_string(), "c@email.com".to_string()],
        emails(&store.all().unwrap())
    );
}

#[test]
fn store_resumes_after_an_identifier() {
    let mut store = InMemorySubscriberStore::starting_after(41);
    let subscriber = store.create(new_subscriber("a@email.com")).unwrap();

    assert_eq!(42, subscriber.id);
}

#[test]
fn create_fails_once_identifiers_are_exhausted() {
    let mut store = InMemorySubscriberStore::starting_after(i32::MAX - 1);
    assert!(!store.is_exhausted());
    let last = store.create(new_subscriber("last@email.com")).unwrap();
    assert_eq!(i32::MAX, last.id);
    assert!(store.is_exhausted());

    let refused = store.create(new_subscriber("late@email.com"));

    assert!(matches!(refused, Err(StoreError::IdentifiersExhausted)));
    assert_eq!(vec![i32::MAX], ids(&store.all().unwrap()));
}

#[test]
fn exhausted_store_still_returns_existing_subscribers() {
    let mut store = InMemorySubscriberStore::starting_after(i32::MAX - 1);
    store.create(new_subscriber("last@email.com")).unwrap();

    let again = store.create(new_subscriber("last@email.com")).unwrap();

    assert_eq!(i32::MAX, again.id);
}

#[test]
fn store_error_messages() {
    assert_eq!("subscriber identifiers exhausted", StoreError::IdentifiersExhausted.message());
    assert_eq!(
        "connection refused",
        StoreError::Backend("connection refused".to_string()).message()
    );
}
