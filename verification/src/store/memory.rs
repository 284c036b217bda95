use vstd::prelude::*;

use crate::model::email::Email;
use crate::model::subscriber::NewSubscriber;
use crate::model::subscriber::Subscriber;
use crate::model::subscriber::SubscriberView;
use crate::store::error::StoreError;
use crate::store::state::StoreState;
use crate::store::views;
use crate::store::SubscriberStore;

verus! {

/// The in-process backend. Subscribers are kept in the order in which they
/// were created, which is the order of their identifiers; the counter is the
/// last identifier issued and never goes back.
#[derive(Debug)]
pub struct InMemorySubscriberStore {
    subscribers: Vec<Subscriber>,
    next_id: i32,
}

impl InMemorySubscriberStore {
    /// The subscribers in the order in which `all` lists them.
    pub closed spec fn listing(&self) -> Seq<SubscriberView> {
        views(self.subscribers@)
    }

    /// An empty store that has issued no identifier.
    pub fn new() -> (store: Self)
        ensures
            store.inv(),
            store.state() == StoreState::empty(),
            store.listing() == Seq::<SubscriberView>::empty(),
    {
        InMemorySubscriberStore::starting_after(0)
    }

    /// An empty store whose identifiers go on after `issued`, for taking up
    /// where an earlier store left off.
    pub fn starting_after(issued: i32) -> (store: Self)
        ensures
            store.inv(),
            store.state() == (StoreState { live: Set::empty(), issued: issued as int }),
            store.listing() == Seq::<SubscriberView>::empty(),
    {
        let store = InMemorySubscriberStore { subscribers: Vec::new(), next_id: issued };
        proof {
            assert(store.listing() =~= Seq::<SubscriberView>::empty());
            assert(store.state().live =~= Set::<SubscriberView>::empty());
        }
        store
    }

    /// Whether every identifier has been issued, so that only addresses
    /// already subscribed can still be created.
    pub fn is_exhausted(&self) -> (full: bool)
        ensures
            full == (self.state().issued == i32::MAX),
    {
        self.next_id == i32::MAX
    }

    /// Moves the counter on by one and hands out the new identifier.
    fn get_next_id(&mut self) -> (id: i32)
        requires
            old(self).next_id < i32::MAX,
        ensures
            id == old(self).next_id + 1,
            final(self).next_id == id,
            final(self).subscribers == old(self).subscribers,
    {
        self.next_id += 1;
        self.next_id
    }

    /// Stores `email` under the next identifier.
    fn insert_subscriber(&mut self, email: Email) -> (subscriber: Subscriber)
        requires
            old(self).inv(),
            !old(self).state().holds(email@),
            old(self).state().issued < i32::MAX,
        ensures
            final(self).inv(),
            subscriber@ == (SubscriberView { id: old(self).state().issued + 1, email: email@ }),
            final(self).state() == old(self).state().enrol(subscriber@),
            final(self).listing() == old(self).listing().push(subscriber@),
    {
        let id = self.get_next_id();
        let subscriber = Subscriber { id, email };
        self.subscribers.push(subscriber.clone());
        proof {
            let before = old(self).listing();
            let after = self.listing();
            assert(after =~= before.push(subscriber@));
            assert forall|k: int| 0 <= k < before.len() implies before[k].email != email@ by {
                assert(old(self).state().live.contains(before[k]));
            }
            assert(self.state().live =~= old(self).state().live.insert(subscriber@)) by {
                assert forall|a: SubscriberView|
                    self.state().live.contains(a) <==> old(self).state().live.insert(
                        subscriber@,
                    ).contains(a) by {
                    if self.state().live.contains(a) {
                        let k = choose|k: int| 0 <= k < after.len() && after[k] == a;
                        if k < before.len() {
                            assert(before[k] == a);
                        }
                    }
                    if old(self).state().live.contains(a) {
                        let k = choose|k: int| 0 <= k < before.len() && before[k] == a;
                        assert(after[k] == a);
                    }
                    if a == subscriber@ {
                        assert(after[before.len() as int] == a);
                    }
                }
            }
        }
        subscriber
    }
}

impl SubscriberStore for InMemorySubscriberStore {
    closed spec fn state(&self) -> StoreState {
        StoreState {
            live: Set::new(
                |a: SubscriberView|
                    exists|k: int| 0 <= k < self.listing().len() && self.listing()[k] == a,
            ),
            issued: self.next_id as int,
        }
    }

    closed spec fn inv(&self) -> bool {
        let listing = self.listing();
        &&& forall|k: int| 0 <= k < listing.len() ==> (#[trigger] listing[k]).id <= self.next_id
        &&& forall|j: int, k: int|
            0 <= j < k < listing.len() ==> (#[trigger] listing[j]).id < (#[trigger] listing[k]).id
        &&& forall|j: int, k: int|
            0 <= j < k < listing.len() ==> (#[trigger] listing[j]).email
                != (#[trigger] listing[k]).email
    }

    /// Nothing outside the program is involved, so the store is dependable.
    open spec fn dependable(&self) -> bool {
        true
    }

    proof fn lemma_state_wf(&self) {
        let listing = self.listing();
        let state = self.state();
        assert forall|a: SubscriberView, b: SubscriberView|
            #[trigger] state.live.contains(a) && #[trigger] state.live.contains(b) && (a.id == b.id
                || a.email == b.email) implies a == b by {
            let j = choose|k: int| 0 <= k < listing.len() && listing[k] == a;
            let k = choose|k: int| 0 <= k < listing.len() && listing[k] == b;
            if j < k {
                assert(listing[j].id < listing[k].id);
            } else if k < j {
                assert(listing[k].id < listing[j].id);
            }
        }
    }

    fn create(&mut self, new_subscriber: NewSubscriber) -> (result: Result<Subscriber, StoreError>)
        ensures
            match result {
                Ok(subscriber) => if old(self).state().holds(new_subscriber@) {
                    final(self).listing() == old(self).listing()
                } else {
                    &&& subscriber.id == old(self).state().issued + 1
                    &&& final(self).listing() == old(self).listing().push(subscriber@)
                },
                Err(_) => final(self).listing() == old(self).listing(),
            },
    {
        proof {
            self.lemma_state_wf();
        }
        let mut i: usize = 0;
        while i < self.subscribers.len()
            invariant
                i <= self.subscribers.len(),
                *self == *old(self),
                self.inv(),
                self.state().wf(),
                forall|k: int| 0 <= k < i ==> (#[trigger] self.listing()[k]).email != new_subscriber@,
            decreases self.subscribers.len() - i,
        {
            if self.subscribers[i].email == new_subscriber.email {
                let found = self.subscribers[i].clone();
                proof {
                    assert(self.listing()[i as int] == found@);
                    assert(self.state().live.contains(found@));
                    assert(self.state().holds(new_subscriber@));
                }
                return Ok(found);
            }
            i += 1;
        }
        proof {
            assert(!self.state().holds(new_subscriber@)) by {
                assert forall|a: SubscriberView| #[trigger]
                    self.state().live.contains(a) implies a.email != new_subscriber@ by {
                    let k = choose|k: int| 0 <= k < self.listing().len() && self.listing()[k] == a;
                    assert(self.listing()[k].email != new_subscriber@);
                }
            }
        }
        if self.next_id == i32::MAX {
            return Err(StoreError::IdentifiersExhausted);
        }
        Ok(self.insert_subscriber(new_subscriber.email))
    }

    fn all(&self) -> (result: Result<Vec<Subscriber>, StoreError>)
        ensures
            result matches Ok(subscribers) ==> views(subscribers@) == self.listing(),
    {
        let mut listed: Vec<Subscriber> = Vec::new();
        let mut i: usize = 0;
        while i < self.subscribers.len()
            invariant
                i <= self.subscribers.len(),
                listed@.len() == i,
                forall|k: int| 0 <= k < i ==> listed@[k] == self.subscribers@[k],
            decreases self.subscribers.len() - i,
        {
            listed.push(self.subscribers[i].clone());
            i += 1;
        }
        proof {
            assert(views(listed@) =~= self.listing());
            self.lemma_listing_lists();
        }
        Ok(listed)
    }

    fn delete(&mut self, id: i32) -> (result: Result<(), StoreError>)
        ensures
            if old(self).state().has_id(id as int) {
                exists|k: int|
                    0 <= k < old(self).listing().len() && (#[trigger] old(self).listing()[k]).id
                        == id && final(self).listing() == old(self).listing().remove(k)
            } else {
                final(self).listing() == old(self).listing()
            },
    {
        let mut i: usize = 0;
        while i < self.subscribers.len()
            invariant
                i <= self.subscribers.len(),
                *self == *old(self),
                self.inv(),
                forall|k: int| 0 <= k < i ==> (#[trigger] self.listing()[k]).id != id,
            decreases self.subscribers.len() - i,
        {
            if self.subscribers[i].id == id {
                self.subscribers.remove(i);
                proof {
                    let before = old(self).listing();
                    let after = self.listing();
                    old(self).subscribers@.remove_ensures(i as int);
                    assert(after =~= before.remove(i as int));
                    before.remove_ensures(i as int);
                    assert forall|a: SubscriberView|
                        self.state().live.contains(a) <==> old(self).state().delete(
                            id as int,
                        ).live.contains(a) by {
                        assert(before[i as int].id == id);
                        if self.state().live.contains(a) {
                            let k = choose|k: int| 0 <= k < after.len() && after[k] == a;
                            if k < i {
                                assert(before[k] == a);
                                assert(before[k].id < before[i as int].id);
                            } else {
                                assert(before[k + 1] == a);
                                assert(before[i as int].id < before[k + 1].id);
                            }
                            assert(old(self).state().live.contains(a));
                        }
                        if old(self).state().live.contains(a) && a.id != id {
                            let k = choose|k: int| 0 <= k < before.len() && before[k] == a;
                            if k < i {
                                assert(after[k] == a);
                            } else {
                                assert(k > i);
                                assert(after[k - 1] == a);
                            }
                            assert(self.state().live.contains(a));
                        }
                    }
                    assert(self.state().live =~= old(self).state().delete(id as int).live);
                    assert(old(self).state().live.contains(before[i as int]));
                }
                return Ok(());
            }
            i += 1;
        }
        proof {
            assert(self.state().live =~= old(self).state().delete(id as int).live);
            assert(!self.state().has_id(id as int)) by {
                assert forall|a: SubscriberView| #[trigger]
                    self.state().live.contains(a) implies a.id != id by {
                    let k = choose|k: int| 0 <= k < self.listing().len() && self.listing()[k] == a;
                    assert(self.listing()[k].id != id);
                }
            }
        }
        Ok(())
    }
}

impl InMemorySubscriberStore {
    /// The store's own order is a listing of its state.
    pub proof fn lemma_listing_lists(&self)
        requires
            self.inv(),
        ensures
            self.state().lists(self.listing()),
            forall|j: int, k: int|
                0 <= j < k < self.listing().len() ==> (#[trigger] self.listing()[j]).id < (
                #[trigger] self.listing()[k]).id,
    {
        let listing = self.listing();
        assert forall|j: int, k: int| 0 <= j < listing.len() && 0 <= k < listing.len() && j
            != k implies listing[j] != listing[k] by {
            if j < k {
                assert(listing[j].id < listing[k].id);
            } else {
                assert(listing[k].id < listing[j].id);
            }
        }
    }
}

impl Default for InMemorySubscriberStore {
    fn default() -> (store: Self)
        ensures
            store.inv(),
            store.state() == StoreState::empty(),
            store.listing() == Seq::<SubscriberView>::empty(),
    {
        InMemorySubscriberStore::new()
    }
}

} // verus!
