//! The state space of the chunks of a data segment.
//!
//! A data segment hands out fixed-size chunks of shared memory.  At any time a
//! chunk is in exactly one of three states: free, loaned to a sample that has
//! not been sent yet, or in flight to the connected subscribers.  The segment
//! is the only component that transitions a chunk between these states; the
//! transition relations and the counting functions below are the vocabulary in
//! which the segment's contracts are written.

use vstd::prelude::*;

verus! {

/// The state of one fixed-size chunk of a data segment.
///
/// * `Free`: the chunk is owned by the pool and can be loaned.
/// * `Loaned`: the chunk backs exactly one sample that has not been sent;
///   it returns to `Free` when that sample is released unsent.
/// * `InFlight`: the chunk was sent to the connected subscribers; it is
///   reclaimed later by the receiver-side release protocol, which is not part
///   of this core.
#[derive(Clone, Copy, PartialEq, Eq, Structural, Debug)]
pub enum ChunkState {
    Free,
    Loaned,
    InFlight,
}

impl ChunkState {
    /// Whether this chunk is free.
    pub fn is_free(&self) -> (r: bool)
        ensures
            r == (*self is Free),
    {
        match self {
            ChunkState::Free => true,
            _ => false,
        }
    }

    /// Whether this chunk is loaned and unsent.
    pub fn is_loaned(&self) -> (r: bool)
        ensures
            r == (*self is Loaned),
    {
        match self {
            ChunkState::Loaned => true,
            _ => false,
        }
    }

    /// Whether this chunk is in flight to subscribers.
    pub fn is_in_flight(&self) -> (r: bool)
        ensures
            r == (*self is InFlight),
    {
        match self {
            ChunkState::InFlight => true,
            _ => false,
        }
    }
}

/// How many chunks of `s` are in state `st`.
pub open spec fn count_state(s: Seq<ChunkState>, st: ChunkState) -> int
    decreases s.len(),
{
    if s.len() == 0 {
        0
    } else {
        count_state(s.drop_last(), st) + if s.last() == st {
            1int
        } else {
            0int
        }
    }
}

/// How many chunks of `s` are free.
pub open spec fn free_count(s: Seq<ChunkState>) -> int {
    count_state(s, ChunkState::Free)
}

/// How many chunks of `s` are loaned and unsent.
pub open spec fn loaned_count(s: Seq<ChunkState>) -> int {
    count_state(s, ChunkState::Loaned)
}

/// How many chunks of `s` are in flight to subscribers.
pub open spec fn in_flight_count(s: Seq<ChunkState>) -> int {
    count_state(s, ChunkState::InFlight)
}

/// Loaning reserves one free chunk: the chunk at `off` goes from `Free` to
/// `Loaned` and every other chunk keeps its state.
pub open spec fn loan_step(pre: Seq<ChunkState>, post: Seq<ChunkState>, off: int) -> bool {
    &&& 0 <= off < pre.len()
    &&& pre[off] is Free
    &&& post == pre.update(off, ChunkState::Loaned)
}

/// Releasing an unsent sample returns its chunk: the chunk at `off` goes from
/// `Loaned` back to `Free` and every other chunk keeps its state.
pub open spec fn return_step(pre: Seq<ChunkState>, post: Seq<ChunkState>, off: int) -> bool {
    &&& 0 <= off < pre.len()
    &&& pre[off] is Loaned
    &&& post == pre.update(off, ChunkState::Free)
}

/// Sending hands the chunk to the subscribers: the chunk at `off` goes from
/// `Loaned` to `InFlight` and every other chunk keeps its state.
pub open spec fn send_step(pre: Seq<ChunkState>, post: Seq<ChunkState>, off: int) -> bool {
    &&& 0 <= off < pre.len()
    &&& pre[off] is Loaned
    &&& post == pre.update(off, ChunkState::InFlight)
}

/// A state count is between zero and the number of chunks.
pub proof fn lemma_count_bounds(s: Seq<ChunkState>, st: ChunkState)
    ensures
        0 <= count_state(s, st) <= s.len(),
    decreases s.len(),
{
    if s.len() != 0 {
        lemma_count_bounds(s.drop_last(), st);
    }
}

/// Extending a scanned prefix by one chunk extends its state count by one
/// exactly when that chunk is in the counted state.
pub proof fn lemma_count_take_step(s: Seq<ChunkState>, st: ChunkState, i: int)
    requires
        0 <= i < s.len(),
    ensures
        count_state(s.take(i + 1), st) == count_state(s.take(i), st) + if s[i] == st {
            1int
        } else {
            0int
        },
{
    assert(s.take(i + 1).drop_last() =~= s.take(i));
    assert(s.take(i + 1).last() == s[i]);
}

/// Scanning all chunks yields the state count of the whole segment.
pub proof fn lemma_count_take_all(s: Seq<ChunkState>, st: ChunkState)
    ensures
        count_state(s.take(s.len() as int), st) == count_state(s, st),
{
    assert(s.take(s.len() as int) =~= s);
}

/// Updating the chunk at `i` removes its old state from the count and adds
/// the new one.
pub proof fn lemma_count_update(s: Seq<ChunkState>, st: ChunkState, i: int, v: ChunkState)
    requires
        0 <= i < s.len(),
    ensures
        count_state(s.update(i, v), st) == count_state(s, st) - (if s[i] == st {
            1int
        } else {
            0int
        }) + (if v == st {
            1int
        } else {
            0int
        }),
    decreases s.len(),
{
    let t = s.update(i, v);
    if i == s.len() - 1 {
        assert(t.drop_last() =~= s.drop_last());
        assert(t.last() == v);
    } else {
        assert(t.drop_last() =~= s.drop_last().update(i, v));
        assert(t.last() == s.last());
        lemma_count_update(s.drop_last(), st, i, v);
    }
}

/// The state count is zero exactly when no chunk is in that state.
pub proof fn lemma_count_zero_iff_none(s: Seq<ChunkState>, st: ChunkState)
    ensures
        count_state(s, st) == 0 <==> (forall|i: int| 0 <= i < s.len() ==> s[i] != st),
    decreases s.len(),
{
    if s.len() != 0 {
        lemma_count_zero_iff_none(s.drop_last(), st);
        lemma_count_bounds(s.drop_last(), st);
        assert(forall|i: int| 0 <= i < s.len() - 1 ==> s.drop_last()[i] == s[i]);
        assert(s.last() == s[s.len() - 1]);
    }
}

/// Every chunk is in exactly one of the three states: the free, loaned and
/// in-flight counts always partition the pool.
pub proof fn lemma_counts_partition_pool(s: Seq<ChunkState>)
    ensures
        free_count(s) + loaned_count(s) + in_flight_count(s) == s.len(),
    decreases s.len(),
{
    if s.len() != 0 {
        lemma_counts_partition_pool(s.drop_last());
    }
}

/// Loaning a chunk and then releasing it unsent restores the segment exactly:
/// every chunk, the loaned one included, is back in its previous state, so in
/// particular the free-chunk count returns to its value before the loan.
pub proof fn lemma_loan_then_return_restores_pool(
    pre: Seq<ChunkState>,
    mid: Seq<ChunkState>,
    post: Seq<ChunkState>,
    off: int,
)
    requires
        loan_step(pre, mid, off),
        return_step(mid, post, off),
    ensures
        post == pre,
        free_count(post) == free_count(pre),
{
    assert(post =~= pre);
}

/// Loaning a chunk and then sending it moves exactly that one chunk to
/// in flight: the in-flight count grows by one, the free count shrinks by
/// one, and the loaned count is back to its value before the loan, so the
/// sent chunk is not double-counted as free.
pub proof fn lemma_loan_then_send_moves_one_chunk(
    pre: Seq<ChunkState>,
    mid: Seq<ChunkState>,
    post: Seq<ChunkState>,
    off: int,
)
    requires
        loan_step(pre, mid, off),
        send_step(mid, post, off),
    ensures
        in_flight_count(post) == in_flight_count(pre) + 1,
        free_count(post) == free_count(pre) - 1,
        loaned_count(post) == loaned_count(pre),
{
    lemma_count_update(pre, ChunkState::Free, off, ChunkState::Loaned);
    lemma_count_update(pre, ChunkState::Loaned, off, ChunkState::Loaned);
    lemma_count_update(pre, ChunkState::InFlight, off, ChunkState::Loaned);
    lemma_count_update(mid, ChunkState::Free, off, ChunkState::InFlight);
    lemma_count_update(mid, ChunkState::Loaned, off, ChunkState::InFlight);
    lemma_count_update(mid, ChunkState::InFlight, off, ChunkState::InFlight);
}

} // verus!
