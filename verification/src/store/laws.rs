use vstd::prelude::*;

use crate::model::subscriber::SubscriberView;
use crate::store::state::StoreState;

verus! {

/// A create keeps a well-formed state well-formed.
pub proof fn lemma_creates_keeps_wf(
    pre: StoreState,
    email: Seq<char>,
    sub: SubscriberView,
    post: StoreState,
)
    requires
        pre.wf(),
        pre.creates(email, sub, post),
    ensures
        post.wf(),
        post.live.contains(sub),
        sub.email == email,
        pre.issued <= post.issued,
        sub.id <= post.issued,
{
}

/// A delete keeps a well-formed state well-formed.
pub proof fn lemma_delete_keeps_wf(pre: StoreState, id: int)
    requires
        pre.wf(),
    ensures
        pre.delete(id).wf(),
{
}

/// Creating the same address twice gives the same subscriber both times,
/// the second call changes nothing, and every listing taken afterwards
/// names that subscriber and no other with the address.
pub proof fn law_create_is_idempotent(
    start: StoreState,
    email: Seq<char>,
    first: SubscriberView,
    between: StoreState,
    second: SubscriberView,
    end: StoreState,
    listing: Seq<SubscriberView>,
)
    requires
        start.wf(),
        start.creates(email, first, between),
        between.creates(email, second, end),
        end.lists(listing),
    ensures
        second == first,
        first.email == email,
        end == between,
        listing.contains(first),
        forall|j: int, k: int|
            0 <= j < listing.len() && 0 <= k < listing.len() && (#[trigger] listing[j]).email
                == email && (#[trigger] listing[k]).email == email ==> j == k,
{
    lemma_creates_keeps_wf(start, email, first, between);
    assert(between.holds(email));
    assert forall|j: int, k: int|
        0 <= j < listing.len() && 0 <= k < listing.len() && (#[trigger] listing[j]).email == email
            && (#[trigger] listing[k]).email == email implies j == k by {
        assert(listing.contains(listing[j]));
        assert(listing.contains(listing[k]));
    }
}

/// Once an identifier is deleted no live subscriber has it and no listing
/// names it; the high-water mark stays where it was, so the identifier is
/// not issued again; and deleting it once more changes nothing.
pub proof fn law_delete_is_final(pre: StoreState, id: int, listing: Seq<SubscriberView>)
    requires
        pre.delete(id).lists(listing),
    ensures
        !pre.delete(id).has_id(id),
        forall|k: int| 0 <= k < listing.len() ==> (#[trigger] listing[k]).id != id,
        pre.delete(id).issued == pre.issued,
        pre.delete(id).delete(id) == pre.delete(id),
        pre.delete(id).delete(id).lists(listing),
{
    assert forall|k: int| 0 <= k < listing.len() implies (#[trigger] listing[k]).id != id by {
        assert(listing.contains(listing[k]));
    }
    assert(pre.delete(id).delete(id).live =~= pre.delete(id).live);
}

/// Deleting an identifier that no live subscriber has changes nothing.
pub proof fn law_delete_absent_is_no_op(pre: StoreState, id: int)
    requires
        !pre.has_id(id),
    ensures
        pre.delete(id) == pre,
{
    assert(pre.delete(id).live =~= pre.live);
}

/// Deleting removes the subscriber with the identifier and leaves every
/// other subscriber live.
pub proof fn law_delete_removes_only_its_target(pre: StoreState, id: int, other: SubscriberView)
    requires
        other.id != id,
    ensures
        pre.delete(id).live.contains(other) == pre.live.contains(other),
{
}

/// Once a subscriber is deleted its address counts as new again: no live
/// subscriber has it, so the next create of it issues a new identifier.
pub proof fn law_deleted_email_is_new_again(pre: StoreState, gone: SubscriberView)
    requires
        pre.wf(),
        pre.live.contains(gone),
    ensures
        !pre.delete(gone.id).holds(gone.email),
{
}

/// A create never hands out the identifier of a subscriber that was
/// deleted before it.
pub proof fn law_deleted_identifier_is_not_reused(
    pre: StoreState,
    id: int,
    email: Seq<char>,
    sub: SubscriberView,
    post: StoreState,
)
    requires
        pre.wf(),
        pre.has_id(id),
        pre.delete(id).creates(email, sub, post),
    ensures
        sub.id != id,
{
    lemma_delete_keeps_wf(pre, id);
    lemma_creates_keeps_wf(pre.delete(id), email, sub, post);
    if pre.delete(id).holds(email) {
        assert(pre.delete(id).live.contains(sub));
    }
}

/// One call in the life of a store, with what a create returned.
pub ghost enum Call {
    Create { email: Seq<char>, returned: SubscriberView },
    Delete { id: int },
}

/// The state a call leaves behind.
pub open spec fn after(pre: StoreState, call: Call) -> StoreState {
    match call {
        Call::Create { email, returned } => if pre.holds(email) {
            pre
        } else {
            pre.enrol(returned)
        },
        Call::Delete { id } => pre.delete(id),
    }
}

/// What the call returned is what the store's contract allows in `pre`.
pub open spec fn honoured(pre: StoreState, call: Call) -> bool {
    match call {
        Call::Create { email, returned } => pre.creates(email, returned, after(pre, call)),
        Call::Delete { id } => true,
    }
}

/// The state after the first `n` of `calls`, made in order from `start`.
pub open spec fn state_after(start: StoreState, calls: Seq<Call>, n: int) -> StoreState
    decreases n,
{
    if n <= 0 {
        start
    } else {
        after(state_after(start, calls, n - 1), calls[n - 1])
    }
}

/// Every call of `calls`, made in order from `start`, returned what the
/// store's contract allows.
pub open spec fn is_history(start: StoreState, calls: Seq<Call>) -> bool {
    forall|n: int| 0 <= n < calls.len() ==> honoured(state_after(start, calls, n), #[trigger] calls[n])
}

/// No two creates among `calls` name the same address.
pub open spec fn creates_distinct(calls: Seq<Call>) -> bool {
    forall|m: int, n: int|
        0 <= m < n < calls.len() ==> match (#[trigger] calls[m], #[trigger] calls[n]) {
            (Call::Create { email: a, .. }, Call::Create { email: b, .. }) => a != b,
            _ => true,
        }
}

/// No create among `calls` names an address that is live in `start`.
pub open spec fn creates_new_to(start: StoreState, calls: Seq<Call>) -> bool {
    forall|n: int|
        0 <= n < calls.len() ==> match #[trigger] calls[n] {
            Call::Create { email, .. } => !start.holds(email),
            _ => true,
        }
}

/// After the first `n` calls of a history the state is well-formed and no
/// create among them returned an identifier above the high-water mark.
proof fn lemma_mark_bounds_returned(start: StoreState, calls: Seq<Call>, n: int)
    requires
        start.wf(),
        is_history(start, calls),
        0 <= n <= calls.len(),
    ensures
        state_after(start, calls, n).wf(),
        forall|m: int|
            0 <= m < n ==> match #[trigger] calls[m] {
                Call::Create { returned, .. } => returned.id <= state_after(start, calls, n).issued,
                _ => true,
            },
    decreases n,
{
    if n > 0 {
        lemma_mark_bounds_returned(start, calls, n - 1);
        let pre = state_after(start, calls, n - 1);
        let call = calls[n - 1];
        assert(honoured(pre, call));
        match call {
            Call::Create { email, returned } => {
                lemma_creates_keeps_wf(pre, email, returned, after(pre, call));
            },
            Call::Delete { id } => {
                lemma_delete_keeps_wf(pre, id);
            },
        }
    }
}

/// After the first `n` calls of a history every live address was live at
/// the start or was named by a create among those calls.
proof fn lemma_live_addresses_come_from(start: StoreState, calls: Seq<Call>, n: int)
    requires
        is_history(start, calls),
        0 <= n <= calls.len(),
    ensures
        forall|a: SubscriberView| #[trigger]
            state_after(start, calls, n).live.contains(a) ==> start.holds(a.email) || exists|m: int|
                0 <= m < n && #[trigger] calls[m] is Create && calls[m]->email == a.email,
    decreases n,
{
    if n > 0 {
        lemma_live_addresses_come_from(start, calls, n - 1);
        let pre = state_after(start, calls, n - 1);
        let call = calls[n - 1];
        let post = state_after(start, calls, n);
        assert(honoured(pre, call));
        assert forall|a: SubscriberView| #[trigger] post.live.contains(a) implies start.holds(
            a.email,
        ) || exists|m: int|
            0 <= m < n && #[trigger] calls[m] is Create && calls[m]->email == a.email by {
            if pre.live.contains(a) {
                if !start.holds(a.email) {
                    let m = choose|m: int|
                        0 <= m < n - 1 && #[trigger] calls[m] is Create && calls[m]->email
                            == a.email;
                    assert(0 <= m < n && calls[m] is Create && calls[m]->email == a.email);
                }
            } else {
                assert(calls[n - 1] is Create && calls[n - 1]->email == a.email);
            }
        }
    }
}

/// A new identifier is greater than every identifier returned before it.
/// In any history of creates and deletes, a create of an address that is
/// not live when it is made returns a greater identifier than every
/// earlier create did, whatever was deleted in between.
pub proof fn law_new_identifier_exceeds_earlier(
    start: StoreState,
    calls: Seq<Call>,
    i: int,
    j: int,
)
    requires
        start.wf(),
        is_history(start, calls),
        0 <= i < j < calls.len(),
        calls[i] is Create,
        calls[j] is Create,
        !state_after(start, calls, j).holds(calls[j]->email),
    ensures
        calls[i]->returned.id < calls[j]->returned.id,
{
    lemma_mark_bounds_returned(start, calls, j);
    assert(honoured(state_after(start, calls, j), calls[j]));
}

/// Identifiers only grow. In a history of creates and deletes in which the
/// creates name distinct addresses, none of them live at the start, a later
/// create returns a greater identifier than an earlier one, whatever was
/// deleted in between; so no identifier is returned twice.
pub proof fn law_identifiers_increase(start: StoreState, calls: Seq<Call>, i: int, j: int)
    requires
        start.wf(),
        is_history(start, calls),
        creates_distinct(calls),
        creates_new_to(start, calls),
        0 <= i < j < calls.len(),
        calls[i] is Create,
        calls[j] is Create,
    ensures
        calls[i]->returned.id < calls[j]->returned.id,
{
    lemma_live_addresses_come_from(start, calls, j);
    let pre = state_after(start, calls, j);
    let email = calls[j]->email;
    if pre.holds(email) {
        let held = pre.holder(email);
        assert(pre.live.contains(held) && held.email == email);
        assert(!start.holds(email));
        let m = choose|m: int|
            0 <= m < j && #[trigger] calls[m] is Create && calls[m]->email == held.email;
        assert(calls[m]->email != calls[j]->email);
    }
    law_new_identifier_exceeds_earlier(start, calls, i, j);
}

} // verus!
