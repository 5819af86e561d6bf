use vstd::prelude::*;
use crate::error::ErrorCode;

verus! {

/// The most distinct outcomes one tally can hold.
pub const MAX_OUTCOMES: usize = 50;

/// The first index at which `id` stands in `ids`, or -1 where it does not.
pub open spec fn first_index(ids: Seq<u32>, id: u32) -> int
    decreases ids.len(),
{
    if ids.len() == 0 {
        -1
    } else {
        let p = first_index(ids.drop_last(), id);
        if p >= 0 {
            p
        } else if ids.last() == id {
            ids.len() - 1
        } else {
            -1
        }
    }
}

/// The votes a tally of parallel arrays records for `id`: zero where it is absent.
pub open spec fn tally_of(ids: Seq<u32>, votes: Seq<u64>, id: u32) -> int {
    let i = first_index(ids, id);
    if i >= 0 {
        votes[i] as int
    } else {
        0
    }
}

/// Whether `qty` more votes for `id` fit in the tally, and which error comes where not.
pub open spec fn record_result(ids: Seq<u32>, votes: Seq<u64>, id: u32, qty: u64) -> Result<
    (),
    ErrorCode,
> {
    let i = first_index(ids, id);
    if i >= 0 {
        if votes[i] + qty > u64::MAX {
            Err(ErrorCode::ArithmeticOverflow)
        } else {
            Ok(())
        }
    } else if ids.len() >= MAX_OUTCOMES {
        Err(ErrorCode::TooManyOutcomes)
    } else {
        Ok(())
    }
}

/// The outcome codes after votes for `id`: a new code is appended.
pub open spec fn ids_after(ids: Seq<u32>, id: u32) -> Seq<u32> {
    if first_index(ids, id) >= 0 {
        ids
    } else {
        ids.push(id)
    }
}

/// The vote counts after `qty` votes for `id`: the count at its index grows, or a
/// new count of `qty` is appended.
pub open spec fn votes_after(ids: Seq<u32>, votes: Seq<u64>, id: u32, qty: u64) -> Seq<u64> {
    let i = first_index(ids, id);
    if i >= 0 {
        votes.update(i, (votes[i] + qty) as u64)
    } else {
        votes.push(qty)
    }
}

/// `w` is the plurality outcome: it holds the most votes, and no outcome with as many
/// votes has a lower code.
pub open spec fn is_plurality_winner(ids: Seq<u32>, votes: Seq<u64>, w: u32) -> bool {
    exists|i: int|
        0 <= i < ids.len() && ids[i] == w && #[trigger] beats_all(ids, votes, i)
}

/// The entry at `i` is ahead of or level with every entry, ranking by votes, then by
/// lower code.
pub open spec fn beats_all(ids: Seq<u32>, votes: Seq<u64>, i: int) -> bool {
    forall|j: int|
        0 <= j < ids.len() ==> #[trigger] votes[j] < votes[i] || (votes[j] == votes[i] && ids[j]
            >= ids[i])
}

/// The sum of all vote counts.
pub open spec fn votes_sum(votes: Seq<u64>) -> int
    decreases votes.len(),
{
    if votes.len() == 0 {
        0
    } else {
        votes_sum(votes.drop_last()) + votes.last()
    }
}

/// What `first_index` means: either `id` is absent, or it stands at the returned index
/// and nowhere before.
pub proof fn lemma_first_index(ids: Seq<u32>, id: u32)
    ensures
        -1 <= first_index(ids, id) < ids.len(),
        first_index(ids, id) == -1 ==> forall|j: int| 0 <= j < ids.len() ==> ids[j] != id,
        first_index(ids, id) >= 0 ==> ids[first_index(ids, id)] == id && forall|j: int|
            0 <= j < first_index(ids, id) ==> ids[j] != id,
    decreases ids.len(),
{
    if ids.len() > 0 {
        lemma_first_index(ids.drop_last(), id);
        assert forall|j: int| 0 <= j < ids.len() - 1 implies ids[j] == ids.drop_last()[j] by {}
    }
}

/// Only one outcome code can be the plurality winner.
pub proof fn lemma_winner_unique(ids: Seq<u32>, votes: Seq<u64>, w1: u32, w2: u32)
    requires
        ids.len() <= votes.len(),
        is_plurality_winner(ids, votes, w1),
        is_plurality_winner(ids, votes, w2),
    ensures
        w1 == w2,
{
    let i1 = choose|i: int| 0 <= i < ids.len() && ids[i] == w1 && #[trigger] beats_all(ids, votes, i);
    let i2 = choose|i: int| 0 <= i < ids.len() && ids[i] == w2 && #[trigger] beats_all(ids, votes, i);
    assert(votes[i2] < votes[i1] || (votes[i2] == votes[i1] && ids[i2] >= ids[i1]));
    assert(votes[i1] < votes[i2] || (votes[i1] == votes[i2] && ids[i1] >= ids[i2]));
}

/// Replacing one count changes the sum by the difference.
proof fn lemma_votes_sum_update(votes: Seq<u64>, i: int, v: u64)
    requires
        0 <= i < votes.len(),
    ensures
        votes_sum(votes.update(i, v)) == votes_sum(votes) - votes[i] + v,
    decreases votes.len(),
{
    let u = votes.update(i, v);
    if i == votes.len() - 1 {
        assert(u.drop_last() =~= votes.drop_last());
    } else {
        lemma_votes_sum_update(votes.drop_last(), i, v);
        assert(u.drop_last() =~= votes.drop_last().update(i, v));
    }
}

/// Recording votes keeps a consistent tally consistent: the arrays stay parallel, each
/// code appears once, the cap holds, and the sum grows by exactly the votes recorded.
pub proof fn lemma_record_keeps_consistency(ids: Seq<u32>, votes: Seq<u64>, id: u32, qty: u64)
    requires
        ids.len() == votes.len(),
        ids.no_duplicates(),
        ids.len() <= MAX_OUTCOMES,
        record_result(ids, votes, id, qty) is Ok,
    ensures
        ids_after(ids, id).len() == votes_after(ids, votes, id, qty).len(),
        ids_after(ids, id).no_duplicates(),
        ids_after(ids, id).len() <= MAX_OUTCOMES,
        votes_sum(votes_after(ids, votes, id, qty)) == votes_sum(votes) + qty,
{
    lemma_first_index(ids, id);
    let i = first_index(ids, id);
    if i >= 0 {
        lemma_votes_sum_update(votes, i, (votes[i] + qty) as u64);
    } else {
        assert(votes.push(qty).drop_last() =~= votes);
        let n = ids.push(id);
        assert forall|a: int, b: int| 0 <= a < n.len() && 0 <= b < n.len() && a != b implies n[a]
            != n[b] by {
            if a < ids.len() && b < ids.len() {
            } else if a < ids.len() {
                assert(ids[a] != id);
            } else {
                assert(ids[b] != id);
            }
        }
    }
}

/// Finds where `id` stands in the tally.
pub fn find_outcome(ids: &Vec<u32>, id: u32) -> (r: Option<usize>)
    ensures
        match r {
            Some(i) => i as int == first_index(ids@, id),
            None => first_index(ids@, id) == -1,
        },
{
    let mut i: usize = 0;
    while i < ids.len()
        invariant
            0 <= i <= ids@.len(),
            forall|j: int| 0 <= j < i ==> ids@[j] != id,
        decreases ids.len() - i,
    {
        if ids[i] == id {
            proof {
                lemma_first_index(ids@, id);
                let fi = first_index(ids@, id);
                if fi < i as int {
                    assert(fi == -1 ==> ids@[i as int] != id);
                    assert(fi >= 0 ==> ids@[fi] != id);
                } else if fi > i as int {
                    assert(ids@[i as int] != id);
                }
            }
            return Some(i);
        }
        i = i + 1;
    }
    proof {
        lemma_first_index(ids@, id);
    }
    None
}

/// Checks that `qty` more votes for `id` fit, and returns where they go: the index of
/// the existing count, or `None` for a new entry.
pub fn locate_votes(ids: &Vec<u32>, votes: &Vec<u64>, id: u32, qty: u64) -> (r: Result<
    Option<usize>,
    ErrorCode,
>)
    requires
        ids@.len() == votes@.len(),
    ensures
        r is Ok <==> record_result(ids@, votes@, id, qty) is Ok,
        r is Err ==> r->Err_0 == record_result(ids@, votes@, id, qty)->Err_0,
        r matches Ok(slot) ==> match slot {
            Some(i) => i as int == first_index(ids@, id),
            None => first_index(ids@, id) == -1,
        },
{
    proof {
        lemma_first_index(ids@, id);
    }
    match find_outcome(ids, id) {
        Some(i) => {
            if votes[i] > u64::MAX - qty {
                Err(ErrorCode::ArithmeticOverflow)
            } else {
                Ok(Some(i))
            }
        },
        None => {
            if ids.len() >= MAX_OUTCOMES {
                Err(ErrorCode::TooManyOutcomes)
            } else {
                Ok(None)
            }
        },
    }
}

/// Adds `qty` votes for `id` at the place `locate_votes` returned.
pub fn apply_votes(ids: &mut Vec<u32>, votes: &mut Vec<u64>, slot: Option<usize>, id: u32, qty: u64)
    requires
        old(ids)@.len() == old(votes)@.len(),
        record_result(old(ids)@, old(votes)@, id, qty) is Ok,
        match slot {
            Some(i) => i as int == first_index(old(ids)@, id),
            None => first_index(old(ids)@, id) == -1,
        },
    ensures
        final(ids)@ == ids_after(old(ids)@, id),
        final(votes)@ == votes_after(old(ids)@, old(votes)@, id, qty),
        final(ids)@.len() == final(votes)@.len(),
{
    proof {
        lemma_first_index(old(ids)@, id);
    }
    match slot {
        Some(i) => {
            let v = votes[i] + qty;
            votes.set(i, v);
        },
        None => {
            ids.push(id);
            votes.push(qty);
        },
    }
}

/// The plurality outcome of a tally, ties going to the lower code; `None` for an empty tally.
pub fn plurality_winner(ids: &Vec<u32>, votes: &Vec<u64>) -> (r: Option<u32>)
    requires
        ids@.len() == votes@.len(),
    ensures
        r is None <==> ids@.len() == 0,
        r matches Some(w) ==> is_plurality_winner(ids@, votes@, w),
{
    let mut winner: Option<u32> = None;
    let mut max_votes: u64 = 0;
    let mut best: usize = 0;
    let mut idx: usize = 0;
    while idx < votes.len()
        invariant
            ids@.len() == votes@.len(),
            0 <= idx <= votes@.len(),
            idx == 0 <==> winner is None,
            idx > 0 ==> best < idx && winner == Some(ids@[best as int]) && max_votes
                == votes@[best as int],
            idx > 0 ==> forall|j: int|
                0 <= j < idx ==> #[trigger] votes@[j] < votes@[best as int] || (votes@[j]
                    == votes@[best as int] && ids@[j] >= ids@[best as int]),
        decreases votes.len() - idx,
    {
        let v = votes[idx];
        let emoji_id = ids[idx];
        let take = match winner {
            None => true,
            Some(w) => v > max_votes || (v == max_votes && emoji_id < w),
        };
        if take {
            max_votes = v;
            winner = Some(emoji_id);
            best = idx;
        }
        idx = idx + 1;
    }
    proof {
        if idx > 0 {
            assert(beats_all(ids@, votes@, best as int));
        }
    }
    winner
}

} // verus!
