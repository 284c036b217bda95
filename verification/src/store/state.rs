use vstd::prelude::*;

use crate::model::subscriber::SubscriberView;

verus! {

/// The mathematical state of a subscriber store: the subscribers that are
/// live, and the greatest identifier the store has handed out so far.
pub ghost struct StoreState {
    pub live: Set<SubscriberView>,
    pub issued: int,
}

impl StoreState {
    /// A store that has never been written to.
    pub open spec fn empty() -> StoreState {
        StoreState { live: Set::empty(), issued: 0 }
    }

    /// No identifier above the high-water mark is live, and no identifier
    /// and no address belongs to two live subscribers.
    pub open spec fn wf(self) -> bool {
        &&& forall|a: SubscriberView| #[trigger] self.live.contains(a) ==> a.id <= self.issued
        &&& forall|a: SubscriberView, b: SubscriberView|
            #[trigger] self.live.contains(a) && #[trigger] self.live.contains(b) && a.id == b.id
                ==> a == b
        &&& forall|a: SubscriberView, b: SubscriberView|
            #[trigger] self.live.contains(a) && #[trigger] self.live.contains(b) && a.email
                == b.email ==> a == b
    }

    /// Some live subscriber has this address.
    pub open spec fn holds(self, email: Seq<char>) -> bool {
        exists|a: SubscriberView| #[trigger] self.live.contains(a) && a.email == email
    }

    /// The live subscriber with this address, where there is one.
    pub open spec fn holder(self, email: Seq<char>) -> SubscriberView {
        choose|a: SubscriberView| #[trigger] self.live.contains(a) && a.email == email
    }

    /// Some live subscriber has this identifier.
    pub open spec fn has_id(self, id: int) -> bool {
        exists|a: SubscriberView| #[trigger] self.live.contains(a) && a.id == id
    }

    /// The state once `sub` has joined under a newly issued identifier.
    pub open spec fn enrol(self, sub: SubscriberView) -> StoreState {
        StoreState { live: self.live.insert(sub), issued: sub.id }
    }

    /// What a create of `email` may do: hand back the live subscriber with
    /// that address and change nothing, or, where none has it, enrol the
    /// address under an identifier greater than any issued before.
    pub open spec fn creates(self, email: Seq<char>, sub: SubscriberView, post: StoreState) -> bool {
        if self.holds(email) {
            sub == self.holder(email) && post == self
        } else {
            sub.email == email && sub.id > self.issued && post == self.enrol(sub)
        }
    }

    /// The state once the subscriber with identifier `id`, if any, is gone.
    /// The high-water mark stays, so the identifier is never issued again.
    pub open spec fn delete(self, id: int) -> StoreState {
        StoreState {
            live: Set::new(|a: SubscriberView| self.live.contains(a) && a.id != id),
            issued: self.issued,
        }
    }

    /// `listing` names every live subscriber once and nothing else.
    pub open spec fn lists(self, listing: Seq<SubscriberView>) -> bool {
        &&& listing.no_duplicates()
        &&& forall|a: SubscriberView| #[trigger] listing.contains(a) <==> self.live.contains(a)
    }
}

} // verus!
