//! Suspended handlers of long-running requests, each kept under the
//! identifier of its request until it is taken or its time has run out.

use crate::database::{lemma_ids_with_new, lemma_ids_without_first};
use crate::model::{
    first_index, lemma_first_index, lemma_first_index_is, lemma_first_index_none, views,
    without_first,
};
use crate::reconcile::{lemma_filter_keeps_distinct, lemma_filter_push};
use vstd::prelude::*;

verus! {

/// The identifier of a request.
#[derive(Debug)]
pub struct RequestGuid {
    pub guid: String,
}

impl View for RequestGuid {
    type V = Seq<char>;

    open spec fn view(&self) -> Seq<char> {
        self.guid@
    }
}

/// The kind of connection that a suspended handler serves.
#[derive(Clone, Copy, Debug, PartialEq, Eq, Structural)]
pub enum ContinuationKind {
    WebSocket,
    Rest,
}

/// A ticket for a handler that the caller keeps.
pub type RestHandler = u64;

/// A suspended handler.
#[derive(Clone, Copy, Debug, PartialEq, Eq, Structural)]
pub struct RpcContinuation {
    pub kind: ContinuationKind,
    pub handler: RestHandler,
    /// The time, in milliseconds on the caller's clock, from which on the
    /// handler can no longer be taken.
    pub expires_ms: u64,
}

impl RpcContinuation {
    /// Whether the handler's time has run out at `now_ms`.
    pub open spec fn timed_out(self, now_ms: u64) -> bool {
        now_ms >= self.expires_ms
    }

    /// Whether the handler's time has run out at `now_ms`.
    pub fn is_timed_out(&self, now_ms: u64) -> (out: bool)
        ensures
            out == self.timed_out(now_ms),
    {
        now_ms >= self.expires_ms
    }

    /// The handler, unless its time has run out.
    pub open spec fn handler_at(self, now_ms: u64) -> Option<RestHandler> {
        if self.timed_out(now_ms) {
            None
        } else {
            Some(self.handler)
        }
    }

    /// Gives the handler up, unless its time has run out.
    pub fn into_handler(self, now_ms: u64) -> (handler: Option<RestHandler>)
        ensures
            handler == self.handler_at(now_ms),
    {
        if self.is_timed_out(now_ms) {
            None
        } else {
            Some(self.handler)
        }
    }
}

/// A suspended handler under the identifier of its request.
#[derive(Debug)]
pub struct Suspended {
    pub guid: RequestGuid,
    pub continuation: RpcContinuation,
}

/// The mathematical value of a [`Suspended`].
pub struct SuspendedView {
    pub guid: Seq<char>,
    pub continuation: RpcContinuation,
}

impl View for Suspended {
    type V = SuspendedView;

    open spec fn view(&self) -> SuspendedView {
        SuspendedView { guid: self.guid@, continuation: self.continuation }
    }
}

/// The identifiers of a list of suspended handlers.
pub open spec fn guids_of(held: Seq<SuspendedView>) -> Seq<Seq<char>> {
    held.map_values(|s: SuspendedView| s.guid)
}

/// Whether no identifier stands twice in a list of suspended handlers, as
/// it is in every list that began empty and was worked on with [`insert`],
/// [`clean`] and [`take`] alone.
pub open spec fn distinct_guids(held: Seq<SuspendedView>) -> bool {
    guids_of(held).no_duplicates()
}

/// The handler kept under an identifier.
pub open spec fn lookup(held: Seq<SuspendedView>, guid: Seq<char>) -> Option<RpcContinuation> {
    match first_index(guids_of(held), guid) {
        Some(i) => Some(held[i].continuation),
        None => None,
    }
}

/// Whether a handler can still be taken at `now_ms`.
pub open spec fn alive(now_ms: u64) -> spec_fn(SuspendedView) -> bool {
    |s: SuspendedView| !s.continuation.timed_out(now_ms)
}

/// The handlers without those whose time has run out.
pub open spec fn cleaned(held: Seq<SuspendedView>, now_ms: u64) -> Seq<SuspendedView> {
    held.filter(alive(now_ms))
}

/// The handlers with one kept under an identifier: in the place of the one
/// that was kept under it, or behind the others.
pub open spec fn inserted(
    held: Seq<SuspendedView>,
    guid: Seq<char>,
    continuation: RpcContinuation,
) -> Seq<SuspendedView> {
    let s = SuspendedView { guid, continuation };
    match first_index(guids_of(held), guid) {
        Some(i) => held.update(i, s),
        None => held.push(s),
    }
}

/// The handlers without the one kept under an identifier.
pub open spec fn taken(held: Seq<SuspendedView>, guid: Seq<char>) -> Seq<SuspendedView> {
    without_first(held, first_index(guids_of(held), guid))
}

/// Dropping the handlers whose time has run out leaves no identifier twice
/// where none stood twice.
pub proof fn lemma_cleaned_distinct(held: Seq<SuspendedView>, now_ms: u64)
    ensures
        distinct_guids(held) ==> distinct_guids(cleaned(held, now_ms)),
{
    if distinct_guids(held) {
        let key = |s: SuspendedView| s.guid;
        assert(held.map_values(key) =~= guids_of(held));
        lemma_filter_keeps_distinct(held, key, alive(now_ms));
        assert(guids_of(cleaned(held, now_ms)) =~= cleaned(held, now_ms).map_values(key));
    }
}

/// After a handler has been kept under an identifier it is the one found
/// under it, and no identifier stands twice where none stood twice.
pub proof fn lemma_inserted(held: Seq<SuspendedView>, guid: Seq<char>, continuation: RpcContinuation)
    ensures
        lookup(inserted(held, guid, continuation), guid) == Some(continuation),
        distinct_guids(held) ==> distinct_guids(inserted(held, guid, continuation)),
{
    let after = inserted(held, guid, continuation);
    lemma_first_index(guids_of(held), guid);
    match first_index(guids_of(held), guid) {
        Some(i) => {
            assert(guids_of(after) =~= guids_of(held));
        },
        None => {
            lemma_ids_with_new(guids_of(held), guid);
            assert(guids_of(after) =~= guids_of(held).push(guid));
        },
    }
}

/// After the handler under an identifier has been taken out, none is found
/// under it in a list that held no identifier twice, and still none stands
/// twice: a handler that has been taken cannot be taken again.
pub proof fn lemma_taken(held: Seq<SuspendedView>, guid: Seq<char>)
    ensures
        distinct_guids(held) ==> distinct_guids(taken(held, guid)) && lookup(
            taken(held, guid),
            guid,
        ) is None,
{
    lemma_ids_without_first(guids_of(held), guid);
    lemma_first_index(guids_of(held), guid);
    match first_index(guids_of(held), guid) {
        Some(i) => {
            assert(guids_of(taken(held, guid)) =~= guids_of(held).remove(i));
        },
        None => {},
    }
}

/// Finds the handler kept under an identifier.
pub fn find(held: &Vec<Suspended>, guid: &RequestGuid) -> (at: Option<usize>)
    ensures
        match at {
            Some(i) => i < held@.len() && first_index(guids_of(views(held@)), guid@) == Some(
                i as int,
            ),
            None => first_index(guids_of(views(held@)), guid@) is None,
        },
{
    let mut i: usize = 0;
    while i < held.len()
        invariant
            i <= held@.len(),
            forall|j: int| 0 <= j < i ==> #[trigger] guids_of(views(held@))[j] != guid@,
        decreases held@.len() - i,
    {
        if held[i].guid.guid == guid.guid {
            proof {
                lemma_first_index_is(guids_of(views(held@)), guid@, i as int);
            }
            return Some(i);
        }
        i += 1;
    }
    proof {
        lemma_first_index_none(guids_of(views(held@)), guid@);
    }
    None
}

/// Drops the handlers whose time has run out at `now_ms`.
pub fn clean(held: &mut Vec<Suspended>, now_ms: u64)
    ensures
        views(final(held)@) == cleaned(views(old(held)@), now_ms),
        distinct_guids(views(old(held)@)) ==> distinct_guids(views(final(held)@)),
{
    proof {
        lemma_cleaned_distinct(views(held@), now_ms);
    }
    let ghost before = views(held@);
    let ghost keep = alive(now_ms);
    let ghost mut seen: int = 0;
    let mut i: usize = 0;
    assert(before.take(0) =~= Seq::<SuspendedView>::empty());
    assert(Seq::<SuspendedView>::empty().filter(keep) =~= Seq::<SuspendedView>::empty()) by {
        reveal(Seq::filter);
    }
    assert(before.skip(0) =~= before);
    while i < held.len()
        invariant
            0 <= seen <= before.len(),
            keep == alive(now_ms),
            views(held@) == before.take(seen).filter(keep) + before.skip(seen),
            i == before.take(seen).filter(keep).len(),
        decreases before.len() - seen,
    {
        let ghost kept = before.take(seen).filter(keep);
        let ghost current = views(held@);
        proof {
            assert(current.len() == kept.len() + before.skip(seen).len());
            assert(seen < before.len());
            assert(current[i as int] == before.skip(seen)[0]);
            assert(before.take(seen + 1) =~= before.take(seen).push(before[seen]));
            lemma_filter_push(before.take(seen), before[seen], keep);
        }
        if held[i].continuation.is_timed_out(now_ms) {
            held.remove(i);
            proof {
                assert(views(held@) =~= current.remove(i as int));
                assert(current.remove(i as int) =~= kept + before.skip(seen + 1));
                seen = seen + 1;
            }
        } else {
            i += 1;
            proof {
                assert(kept.push(before[seen]) + before.skip(seen + 1) =~= kept + before.skip(seen));
                seen = seen + 1;
            }
        }
    }
    proof {
        assert(seen == before.len()) by {
            assert(views(held@).len() == before.take(seen).filter(keep).len() + before.skip(
                seen,
            ).len());
        }
        assert(before.take(seen) =~= before);
        assert(before.filter(keep) + before.skip(seen) =~= before.filter(keep));
    }
}

/// Keeps a handler under an identifier, in the place of the one that is
/// kept under it, if there is one.
pub fn insert(held: &mut Vec<Suspended>, guid: RequestGuid, continuation: RpcContinuation)
    ensures
        views(final(held)@) == inserted(views(old(held)@), guid@, continuation),
        lookup(views(final(held)@), guid@) == Some(continuation),
        distinct_guids(views(old(held)@)) ==> distinct_guids(views(final(held)@)),
{
    proof {
        lemma_inserted(views(held@), guid@, continuation);
    }
    match find(held, &guid) {
        Some(i) => {
            held[i] = Suspended { guid, continuation };
            assert(views(held@) =~= views(old(held)@).update(
                i as int,
                SuspendedView { guid: guid@, continuation },
            ));
        },
        None => {
            held.push(Suspended { guid, continuation });
            assert(views(held@) =~= views(old(held)@).push(
                SuspendedView { guid: guid@, continuation },
            ));
        },
    }
}

/// Takes out the handler kept under an identifier.
pub fn take(held: &mut Vec<Suspended>, guid: &RequestGuid) -> (continuation: Option<RpcContinuation>)
    ensures
        continuation == lookup(views(old(held)@), guid@),
        views(final(held)@) == taken(views(old(held)@), guid@),
        distinct_guids(views(old(held)@)) ==> distinct_guids(views(final(held)@)) && lookup(
            views(final(held)@),
            guid@,
        ) is None,
{
    proof {
        lemma_taken(views(held@), guid@);
    }
    match find(held, guid) {
        Some(i) => {
            let s = held.remove(i);
            assert(views(held@) =~= views(old(held)@).remove(i as int));
            Some(s.continuation)
        },
        None => None,
    }
}

} // verus!
