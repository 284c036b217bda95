use vstd::prelude::*;

use crate::model::email::Email;

verus! {

/// What a caller hands in to subscribe an address.
#[derive(Debug)]
pub struct NewSubscriber {
    pub email: Email,
}

/// One subscriber as the store keeps it: the identifier the store assigned
/// and the address that was subscribed.
#[derive(Debug)]
pub struct Subscriber {
    pub id: i32,
    pub email: Email,
}

/// The mathematical value of a [`Subscriber`].
pub ghost struct SubscriberView {
    pub id: int,
    pub email: Seq<char>,
}

impl View for NewSubscriber {
    type V = Seq<char>;

    open spec fn view(&self) -> Seq<char> {
        self.email@
    }
}

impl View for Subscriber {
    type V = SubscriberView;

    open spec fn view(&self) -> SubscriberView {
        SubscriberView { id: self.id as int, email: self.email@ }
    }
}

impl Clone for NewSubscriber {
    fn clone(&self) -> (copy: Self)
        ensures
            copy == *self,
    {
        NewSubscriber { email: self.email.clone() }
    }
}

impl Clone for Subscriber {
    fn clone(&self) -> (copy: Self)
        ensures
            copy == *self,
    {
        Subscriber { id: self.id, email: self.email.clone() }
    }
}

} // verus!
