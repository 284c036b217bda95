use vstd::prelude::*;
use vstd::string::StringExecFns;

use crate::auth::authorize;
use crate::auth::gate;
use crate::auth::presented;
use crate::auth::AuthError;
use crate::config::admin_settings::AdminSettings;
use crate::config::subscribed_settings::SubscribedSettings;
use crate::model::subscriber::NewSubscriber;
use crate::model::subscriber::Subscriber;
use crate::model::subscriber::SubscriberView;
use crate::routes::response::Redirect;
use crate::routes::response::Status;
use crate::store::error::exhausted_text;
use crate::store::error::StoreError;
use crate::store::views;
use crate::store::SubscriberStore;

verus! {

/// The body of the answer to a request that carried no credential.
pub open spec fn missing_text() -> Seq<char> {
    "Header of type `authorization` was missing"@
}

/// The body of the answer to a request that carried the wrong credential.
pub open spec fn unauthorized_text() -> Seq<char> {
    "Not authorized"@
}

/// The lines joined by a newline between each two, none after the last.
pub open spec fn joined(lines: Seq<Seq<char>>) -> Seq<char>
    decreases lines.len(),
{
    if lines.len() == 0 {
        Seq::empty()
    } else if lines.len() == 1 {
        lines[0]
    } else {
        joined(lines.drop_last()) + seq!['\n'] + lines.last()
    }
}

/// The addresses of the subscribers, in their order.
pub open spec fn emails_of(subscribers: Seq<SubscriberView>) -> Seq<Seq<char>> {
    Seq::new(subscribers.len(), |i: int| subscribers[i].email)
}

/// The listing as it is shown: one address per line, in the order given.
pub fn join_emails(subscribers: &Vec<Subscriber>) -> (body: String)
    ensures
        body@ == joined(emails_of(views(subscribers@))),
{
    let ghost lines = emails_of(views(subscribers@));
    let mut body = String::new();
    let mut i: usize = 0;
    while i < subscribers.len()
        invariant
            i <= subscribers.len(),
            lines == emails_of(views(subscribers@)),
            body@ == joined(lines.take(i as int)),
        decreases subscribers.len() - i,
    {
        let ghost before = body@;
        if i > 0 {
            body.append("\n");
        }
        body.append(subscribers[i].email.0.as_str());
        proof {
            reveal_strlit("\n");
            assert("\n"@ =~= seq!['\n']);
            let next = lines.take(i + 1);
            assert(next.drop_last() =~= lines.take(i as int));
            assert(next.last() == subscribers@[i as int].email@);
            if i == 0 {
                assert(before =~= Seq::<char>::empty());
                assert(body@ =~= next[0]);
            }
        }
        i += 1;
    }
    proof {
        assert(lines.take(i as int) =~= lines);
    }
    body
}

/// The answer to a request that was turned away for its credential.
pub fn rejection(error: AuthError) -> (answer: (Status, String))
    ensures
        match error {
            AuthError::Missing => answer.0 == Status::BadRequest && answer.1@ == missing_text(),
            AuthError::Invalid => answer.0 == Status::Unauthorized && answer.1@
                == unauthorized_text(),
        },
{
    match error {
        AuthError::Missing => (
            Status::BadRequest,
            String::from_str("Header of type `authorization` was missing"),
        ),
        AuthError::Invalid => (Status::Unauthorized, String::from_str("Not authorized")),
    }
}

/// What a list request is answered with, given what the store said.
pub open spec fn listed(outcome: Result<Vec<Subscriber>, StoreError>) -> Result<
    Seq<char>,
    (Status, Seq<char>),
> {
    match outcome {
        Ok(subscribers) => Ok(joined(emails_of(views(subscribers@)))),
        Err(error) => Err((Status::BadRequest, error.text())),
    }
}

/// The characters of an answer to a list request.
pub open spec fn answer_view(answer: Result<String, (Status, String)>) -> Result<
    Seq<char>,
    (Status, Seq<char>),
> {
    match answer {
        Ok(body) => Ok(body@),
        Err((status, text)) => Err((status, text@)),
    }
}

/// Answers an authorized list request: the addresses, one per line, in the
/// order in which the store listed them; or, where the store failed, a bad
/// request with the error's text.
pub fn list_response(outcome: Result<Vec<Subscriber>, StoreError>) -> (answer: Result<
    String,
    (Status, String),
>)
    ensures
        answer_view(answer) == listed(outcome),
{
    match outcome {
        Ok(subscribers) => Ok(join_emails(&subscribers)),
        Err(error) => Err((Status::BadRequest, error.message())),
    }
}

/// Where a visitor goes once subscribed: the configured address where one
/// is configured, whatever the origin; the origin of the request otherwise.
pub open spec fn target(subscribed: SubscribedSettings, origin: Seq<char>) -> Seq<char> {
    match subscribed.redirect {
        Some(url) => url@,
        None => origin,
    }
}

/// The address a visitor is sent to once subscribed.
pub fn redirect_target(subscribed: &SubscribedSettings, origin: &String) -> (location: String)
    ensures
        location@ == target(*subscribed, origin@),
{
    match &subscribed.redirect {
        Some(url) => url.clone(),
        None => origin.clone(),
    }
}

/// Answers a subscribe request, given what the store said: the redirect
/// where the address was stored, an internal error with the error's text
/// where it was not.
pub fn subscribe_response(
    outcome: Result<Subscriber, StoreError>,
    subscribed: &SubscribedSettings,
    origin: &String,
) -> (answer: Result<Redirect, (Status, String)>)
    ensures
        match outcome {
            Ok(_) => {
                &&& answer matches Ok(redirect)
                &&& redirect.location@ == target(*subscribed, origin@)
            },
            Err(error) => {
                &&& answer matches Err((status, text))
                &&& status == Status::InternalServerError
                &&& text@ == error.text()
            },
        },
{
    match outcome {
        Ok(_) => Ok(Redirect { location: redirect_target(subscribed, origin) }),
        Err(error) => Err((Status::InternalServerError, error.message())),
    }
}

/// Answers an authorized delete request, given what the store said.
pub fn delete_response(outcome: Result<(), StoreError>) -> (status: Status)
    ensures
        outcome is Ok ==> status == Status::Success,
        outcome is Err ==> status == Status::InternalServerError,
{
    match outcome {
        Ok(_) => Status::Success,
        Err(_) => Status::InternalServerError,
    }
}

/// What a delete request names: the identifier of the subscriber to remove.
#[derive(Clone, Copy, Debug, PartialEq, Eq, Structural)]
pub struct Delete {
    pub id: i32,
}

/// Lists the subscribers to the administrator. A request without a
/// credential is a bad request, one with the wrong credential is
/// unauthorized, and neither reaches the store.
pub fn get_subscribers<S: SubscriberStore>(
    store: &S,
    admin: &AdminSettings,
    authorization: &Option<String>,
) -> (answer: Result<String, (Status, String)>)
    requires
        store.inv(),
    ensures
        match gate(admin.token@, presented(*authorization)) {
            Err(AuthError::Missing) => answer_view(answer) == Err::<Seq<char>, _>(
                (Status::BadRequest, missing_text()),
            ),
            Err(AuthError::Invalid) => answer_view(answer) == Err::<Seq<char>, _>(
                (Status::Unauthorized, unauthorized_text()),
            ),
            Ok(_) => match answer {
                Ok(body) => exists|listing: Seq<SubscriberView>|
                    {
                        &&& #[trigger] store.state().lists(listing)
                        &&& body@ == joined(emails_of(listing))
                    },
                Err((status, _)) => status == Status::BadRequest && !store.dependable(),
            },
        },
{
    match authorize(admin, authorization) {
        Err(error) => Err(rejection(error)),
        Ok(_) => {
            let outcome = store.all();
            proof {
                if outcome is Ok {
                    assert(store.state().lists(views(outcome->Ok_0@)));
                }
            }
            list_response(outcome)
        },
    }
}

/// Subscribes an address and sends the visitor on. No credential is asked
/// for. Where the store fails the answer is an internal error and nothing
/// was stored.
pub fn subscribe<S: SubscriberStore>(
    store: &mut S,
    subscribed: &SubscribedSettings,
    origin: &String,
    new_subscriber: NewSubscriber,
) -> (answer: Result<Redirect, (Status, String)>)
    requires
        old(store).inv(),
    ensures
        final(store).inv(),
        final(store).dependable() == old(store).dependable(),
        old(store).dependable() ==> (answer is Ok <==> old(store).state().holds(new_subscriber@)
            || old(store).state().issued < i32::MAX),
        old(store).dependable() ==> (answer matches Err((_, text)) ==> text@ == exhausted_text()),
        match answer {
            Ok(redirect) => {
                &&& redirect.location@ == target(*subscribed, origin@)
                &&& exists|subscriber: SubscriberView| #[trigger]
                    old(store).state().creates(new_subscriber@, subscriber, final(store).state())
            },
            Err((status, _)) => {
                &&& status == Status::InternalServerError
                &&& final(store).state() == old(store).state()
            },
        },
{
    let outcome = store.create(new_subscriber);
    proof {
        if outcome is Ok {
            assert(old(store).state().creates(new_subscriber@, outcome->Ok_0@, store.state()));
        }
    }
    subscribe_response(outcome, subscribed, origin)
}

/// Removes a subscriber for the administrator. A request that is turned
/// away for its credential does not reach the store.
pub fn delete<S: SubscriberStore>(
    store: &mut S,
    admin: &AdminSettings,
    authorization: &Option<String>,
    query: Delete,
) -> (status: Status)
    requires
        old(store).inv(),
    ensures
        final(store).inv(),
        final(store).dependable() == old(store).dependable(),
        match gate(admin.token@, presented(*authorization)) {
            Err(AuthError::Missing) => {
                &&& status == Status::BadRequest
                &&& final(store).state() == old(store).state()
            },
            Err(AuthError::Invalid) => {
                &&& status == Status::Unauthorized
                &&& final(store).state() == old(store).state()
            },
            Ok(_) => if status == Status::Success {
                final(store).state() == old(store).state().delete(query.id as int)
            } else {
                &&& status == Status::InternalServerError
                &&& final(store).state() == old(store).state()
                &&& !old(store).dependable()
            },
        },
{
    match authorize(admin, authorization) {
        Err(error) => rejection(error).0,
        Ok(_) => {
            let outcome = store.delete(query.id);
            delete_response(outcome)
        },
    }
}

} // verus!
