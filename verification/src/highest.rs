//! The highest bid among the bids on an auction.

use crate::entities::BidWithUsername;
use vstd::prelude::*;

verus! {

/// The bid at `i` is the highest: none is worth more, and of several that
/// are worth the same the one listed last wins.
pub open spec fn is_highest(bids: Seq<BidWithUsername>, i: int) -> bool {
    &&& 0 <= i < bids.len()
    &&& forall|j: int| 0 <= j < bids.len() ==> bids[j].value <= bids[i].value
    &&& forall|j: int| i < j < bids.len() ==> bids[j].value < bids[i].value
}

/// The place of the highest bid; `None` where there is no bid at all.
pub open spec fn highest(bids: Seq<BidWithUsername>) -> Option<int> {
    if bids.len() == 0 {
        None
    } else {
        Some(choose|i: int| is_highest(bids, i))
    }
}

/// There is only one highest bid.
pub proof fn lemma_highest_unique(bids: Seq<BidWithUsername>, i: int, k: int)
    requires
        is_highest(bids, i),
        is_highest(bids, k),
    ensures
        i == k,
{
    if i < k {
        assert(bids[k].value < bids[i].value);
        assert(bids[i].value <= bids[k].value);
    } else if k < i {
        assert(bids[i].value < bids[k].value);
        assert(bids[k].value <= bids[i].value);
    }
}

/// A bid that is the highest is the one that `highest` names.
pub proof fn lemma_highest_is(bids: Seq<BidWithUsername>, i: int)
    requires
        is_highest(bids, i),
    ensures
        highest(bids) == Some(i),
{
    let k = choose|k: int| is_highest(bids, k);
    lemma_highest_unique(bids, i, k);
}

/// Where there is a bid, there is a highest bid.
pub proof fn lemma_highest_exists(bids: Seq<BidWithUsername>) -> (top: int)
    requires
        bids.len() > 0,
    ensures
        is_highest(bids, top),
        highest(bids) == Some(top),
    decreases bids.len(),
{
    if bids.len() == 1 {
        assert(is_highest(bids, 0));
        lemma_highest_is(bids, 0);
        0
    } else {
        let shorter = bids.drop_last();
        let before = lemma_highest_exists(shorter);
        let last = bids.len() - 1;
        let top = if bids[last].value >= shorter[before].value {
            last
        } else {
            before
        };
        assert forall|j: int| 0 <= j < bids.len() implies bids[j].value <= bids[top].value by {
            if j < last {
                assert(shorter[j] == bids[j]);
            }
        }
        assert forall|j: int| top < j < bids.len() implies bids[j].value < bids[top].value by {
            if j < last {
                assert(shorter[j] == bids[j]);
            }
        }
        lemma_highest_is(bids, top);
        top
    }
}

/// Finds the highest bid.
pub fn highest_bid(bids: &Vec<BidWithUsername>) -> (r: Option<usize>)
    ensures
        r is None <==> bids@.len() == 0,
        r matches Some(i) ==> is_highest(bids@, i as int),
        r matches Some(i) ==> highest(bids@) == Some(i as int),
        r is None ==> highest(bids@) is None,
{
    if bids.len() == 0 {
        return None;
    }
    let mut best: usize = 0;
    let mut k: usize = 1;
    while k < bids.len()
        invariant
            1 <= k <= bids.len(),
            is_highest(bids@.take(k as int), best as int),
        decreases bids.len() - k,
    {
        if bids[k].value >= bids[best].value {
            best = k;
        }
        k += 1;
        proof {
            let shorter = bids@.take(k - 1);
            let longer = bids@.take(k as int);
            assert forall|j: int| 0 <= j < longer.len() implies longer[j].value
                <= longer[best as int].value by {
                if j < k - 1 {
                    assert(shorter[j] == longer[j]);
                }
            }
            assert forall|j: int| best < j < longer.len() implies longer[j].value
                < longer[best as int].value by {
                if j < k - 1 {
                    assert(shorter[j] == longer[j]);
                }
            }
        }
    }
    proof {
        assert(bids@.take(k as int) =~= bids@);
        lemma_highest_is(bids@, best as int);
    }
    Some(best)
}

} // verus!
