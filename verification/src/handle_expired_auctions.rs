//! The periodic sweep: every auction that has ended and settles by itself is
//! settled, each on its own.

use crate::clock::clock_millis;
use crate::entities::{Auction, AuctionStrategy};
use crate::error::AppError;
use crate::handle_expired_auction::HandleExpiredAuctionUseCase;
use crate::id::AuctionId;
use crate::store::{Step, StoreCall, StoreReply};
use vstd::prelude::*;

verus! {

/// The sweep settles an auction by itself when the auction has ended at
/// `now` and does not wait for its owner's approval.
pub open spec fn is_due(auction: Auction, now: i64) -> bool {
    auction.end_date <= now && auction.strategy == AuctionStrategy::Standard
}

/// The identifiers of the auctions that are due, in the order listed.
pub open spec fn due(auctions: Seq<Auction>, now: i64) -> Seq<AuctionId>
    decreases auctions.len(),
{
    if auctions.len() == 0 {
        Seq::empty()
    } else if is_due(auctions.last(), now) {
        due(auctions.drop_last(), now).push(auctions.last().id)
    } else {
        due(auctions.drop_last(), now)
    }
}

/// How many of the outcomes are successes.
pub open spec fn successes(outcomes: Seq<Result<(), AppError>>) -> nat
    decreases outcomes.len(),
{
    if outcomes.len() == 0 {
        0
    } else if outcomes.last() is Ok {
        successes(outcomes.drop_last()) + 1
    } else {
        successes(outcomes.drop_last())
    }
}

/// The sweep settles nothing but what is due: every identifier it picks
/// belongs to a listed auction that has ended and settles by itself.
pub proof fn law_sweep_picks_only_the_due(auctions: Seq<Auction>, now: i64, k: int)
    requires
        0 <= k < due(auctions, now).len(),
    ensures
        exists|i: int|
            0 <= i < auctions.len() && is_due(#[trigger] auctions[i], now) && auctions[i].id == due(
                auctions,
                now,
            )[k],
    decreases auctions.len(),
{
    let shorter = auctions.drop_last();
    if is_due(auctions.last(), now) && k == due(shorter, now).len() {
        assert(is_due(auctions[auctions.len() - 1], now));
    } else {
        law_sweep_picks_only_the_due(shorter, now, k);
        let i = choose|i: int|
            0 <= i < shorter.len() && is_due(#[trigger] shorter[i], now) && shorter[i].id == due(
                shorter,
                now,
            )[k];
        assert(auctions[i] == shorter[i]);
    }
}

/// The sweep leaves out nothing that is due: the identifier of every listed
/// auction that has ended and settles by itself is picked.
pub proof fn law_sweep_picks_all_the_due(auctions: Seq<Auction>, now: i64, i: int)
    requires
        0 <= i < auctions.len(),
        is_due(auctions[i], now),
    ensures
        due(auctions, now).contains(auctions[i].id),
    decreases auctions.len(),
{
    let shorter = auctions.drop_last();
    let picked = due(auctions, now);
    if i == auctions.len() - 1 {
        assert(picked[picked.len() - 1] == auctions[i].id);
    } else {
        law_sweep_picks_all_the_due(shorter, now, i);
        assert(shorter[i] == auctions[i]);
        let k = choose|k: int| 0 <= k < due(shorter, now).len() && due(shorter, now)[k] == auctions[i].id;
        assert(picked[k] == auctions[i].id);
    }
}

/// What one sweep did: how many auctions it settled and how many it had to
/// leave for the next sweep.
#[derive(Debug, Clone, Copy, PartialEq, Eq, Structural)]
pub struct SweepReport {
    pub settled: usize,
    pub failed: usize,
}

/// The sweep itself: it asks for the auctions that have ended, and settles
/// each one that is due independently of the others.
#[derive(Debug)]
pub enum HandleExpiredAuctionsUseCase {
    /// The auctions that have ended were asked for.
    AwaitingExpired,
}

impl HandleExpiredAuctionsUseCase {
    /// What the sweep does with the list of ended auctions at time `now`: it
    /// fails only where the store failed to list them.
    pub open spec fn targets(reply: StoreReply, now: i64) -> Result<Seq<AuctionId>, AppError> {
        match reply {
            StoreReply::Auctions(auctions) => Ok(due(auctions@, now)),
            _ => Err(AppError::StorageFailure),
        }
    }

    /// `r` is what the sweep picks from `reply` at time `now`.
    pub open spec fn picks(reply: StoreReply, now: i64, r: Result<Vec<AuctionId>, AppError>) -> bool {
        match Self::targets(reply, now) {
            Ok(ids) => r is Ok && r.unwrap()@ == ids,
            Err(e) => r == Err::<Vec<AuctionId>, AppError>(e),
        }
    }

    /// Starts a sweep.
    pub fn begin() -> (r: (Self, StoreCall))
        ensures
            r.0 == HandleExpiredAuctionsUseCase::AwaitingExpired,
            r.1 == StoreCall::FindExpiredAuctions,
    {
        (HandleExpiredAuctionsUseCase::AwaitingExpired, StoreCall::FindExpiredAuctions)
    }

    /// Picks, from the store's list of ended auctions, those to settle.
    pub fn resume(self, reply: StoreReply, now: i64) -> (r: Result<Vec<AuctionId>, AppError>)
        ensures
            Self::picks(reply, now, r),
    {
        match reply {
            StoreReply::Auctions(auctions) => {
                let mut ids: Vec<AuctionId> = Vec::new();
                let mut k: usize = 0;
                while k < auctions.len()
                    invariant
                        k <= auctions.len(),
                        ids@ == due(auctions@.take(k as int), now),
                    decreases auctions.len() - k,
                {
                    let auction = auctions[k];
                    proof {
                        let longer = auctions@.take(k + 1);
                        assert(longer.drop_last() =~= auctions@.take(k as int));
                        assert(longer.last() == auction);
                    }
                    if auction.end_date <= now && auction.strategy == AuctionStrategy::Standard {
                        ids.push(auction.id);
                    }
                    k += 1;
                }
                proof {
                    assert(auctions@.take(k as int) =~= auctions@);
                }
                Ok(ids)
            },
            _ => Err(AppError::StorageFailure),
        }
    }

    /// Picks the auctions to settle, reading the clock itself.
    pub fn execute(self, reply: StoreReply) -> (r: Result<Vec<AuctionId>, AppError>)
        ensures
            exists|now: i64| Self::picks(reply, now, r),
    {
        let now = clock_millis();
        self.resume(reply, now)
    }

    /// The first step of settling one of the auctions picked: the sweep
    /// settles with the sale confirmed.
    pub fn settle(auction_id: AuctionId) -> (r: Step<HandleExpiredAuctionUseCase, ()>)
        ensures
            r == HandleExpiredAuctionUseCase::first(Some(auction_id), true),
    {
        HandleExpiredAuctionUseCase::start(Some(auction_id), true)
    }

    /// Sums up a sweep. A failure on one auction fails neither the others
    /// nor the sweep: it is counted, and the auction is left for next time.
    pub fn report(outcomes: &Vec<Result<(), AppError>>) -> (r: SweepReport)
        ensures
            r.settled == successes(outcomes@),
            r.settled + r.failed == outcomes@.len(),
    {
        let mut settled: usize = 0;
        let mut failed: usize = 0;
        let mut k: usize = 0;
        while k < outcomes.len()
            invariant
                k <= outcomes.len(),
                settled == successes(outcomes@.take(k as int)),
                settled + failed == k,
            decreases outcomes.len() - k,
        {
            proof {
                let longer = outcomes@.take(k + 1);
                assert(longer.drop_last() =~= outcomes@.take(k as int));
                assert(longer.last() == outcomes@[k as int]);
            }
            match &outcomes[k] {
                Ok(_) => {
                    settled += 1;
                },
                Err(_) => {
                    failed += 1;
                },
            }
            k += 1;
        }
        proof {
            assert(outcomes@.take(k as int) =~= outcomes@);
        }
        SweepReport { settled, failed }
    }
}

} // verus!
