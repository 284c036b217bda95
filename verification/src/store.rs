//! The subscriber store: its mathematical state, the capability every
//! backend offers, and the in-process backend.

use vstd::prelude::*;

pub mod error;
pub mod laws;
pub mod memory;
pub mod state;

pub use error::StoreError;
pub use memory::InMemorySubscriberStore;
pub use state::StoreState;

use crate::model::subscriber::NewSubscriber;
use crate::model::subscriber::Subscriber;
use crate::model::subscriber::SubscriberView;

verus! {

/// The mathematical values of a sequence of subscribers, in order.
pub open spec fn views(subscribers: Seq<Subscriber>) -> Seq<SubscriberView> {
    Seq::new(subscribers.len(), |i: int| subscribers[i]@)
}

/// What every backend offers: create, list and delete, with the same
/// meaning whatever keeps the data. Subscribers are removed by identifier.
pub trait SubscriberStore {
    /// The state the backend stands for.
    spec fn state(&self) -> StoreState;

    /// What the backend needs of itself between calls.
    spec fn inv(&self) -> bool;

    /// Whether the backend has no faults of its own, so that an operation
    /// fails only where no identifier is left to issue.
    spec fn dependable(&self) -> bool;

    /// A backend in good order stands for a well-formed state.
    proof fn lemma_state_wf(&self)
        requires
            self.inv(),
        ensures
            self.state().wf(),
    ;

    /// Subscribes an address. Where the address is already subscribed the
    /// existing subscriber comes back and nothing changes; otherwise the
    /// address joins under an identifier greater than any issued before.
    /// A failure leaves the state as it was. A dependable backend fails
    /// only where the address is new and no identifier is left.
    fn create(&mut self, new_subscriber: NewSubscriber) -> (result: Result<Subscriber, StoreError>)
        requires
            old(self).inv(),
        ensures
            final(self).inv(),
            final(self).dependable() == old(self).dependable(),
            match result {
                Ok(subscriber) => old(self).state().creates(
                    new_subscriber@,
                    subscriber@,
                    final(self).state(),
                ),
                Err(_) => final(self).state() == old(self).state(),
            },
            old(self).dependable() ==> (result is Ok <==> old(self).state().holds(new_subscriber@)
                || old(self).state().issued < i32::MAX),
            old(self).dependable() ==> (result matches Err(error) ==> error
                == StoreError::IdentifiersExhausted),
    ;

    /// Every live subscriber, each once.
    fn all(&self) -> (result: Result<Vec<Subscriber>, StoreError>)
        requires
            self.inv(),
        ensures
            match result {
                Ok(subscribers) => self.state().lists(views(subscribers@)),
                Err(_) => !self.dependable(),
            },
    ;

    /// Removes the subscriber with this identifier. Where no subscriber
    /// has it, nothing changes and the call still succeeds. A failure
    /// leaves the state as it was.
    fn delete(&mut self, id: i32) -> (result: Result<(), StoreError>)
        requires
            old(self).inv(),
        ensures
            final(self).inv(),
            final(self).dependable() == old(self).dependable(),
            match result {
                Ok(_) => final(self).state() == old(self).state().delete(id as int),
                Err(_) => final(self).state() == old(self).state() && !old(self).dependable(),
            },
    ;
}

} // verus!
