//! Listing the bids on an auction.

use crate::entities::BidWithUsername;
use crate::error::AppError;
use crate::id::{text_of_uuid, AuctionId, Id};
use crate::store::{Step, StoreCall, StoreReply};
use vstd::prelude::*;

verus! {

/// A bid as it is shown: identifiers by their text.
#[derive(Debug, Clone)]
pub struct BidDto {
    pub id: String,
    pub value: u64,
    pub auction_id: String,
    pub user_id: String,
    pub username: String,
}

/// The bids listed.
#[derive(Debug, Clone)]
pub struct GetAllDto {
    pub bids: Vec<BidDto>,
}

impl BidDto {
    /// This is `bid` as it is shown.
    pub open spec fn shows(self, bid: BidWithUsername) -> bool {
        &&& self.id@ == text_of_uuid(bid.id.value)
        &&& self.value == bid.value
        &&& self.auction_id@ == text_of_uuid(bid.auction_id.value)
        &&& self.user_id@ == text_of_uuid(bid.user_id.value)
        &&& self.username == bid.username
    }

    /// Shows a bid.
    pub fn of(bid: &BidWithUsername) -> (r: Self)
        ensures
            r.shows(*bid),
    {
        BidDto {
            id: bid.id.to_text(),
            value: bid.value,
            auction_id: bid.auction_id.to_text(),
            user_id: bid.user_id.to_text(),
            username: bid.username.clone(),
        }
    }

    /// Shows a bid.
    pub fn from(bid: BidWithUsername) -> (r: Self)
        ensures
            r.shows(bid),
    {
        BidDto::of(&bid)
    }
}

/// `shown` shows the bids of `bids`, one for one and in order.
pub open spec fn show_all(shown: Seq<BidDto>, bids: Seq<BidWithUsername>) -> bool {
    shown.len() == bids.len() && forall|k: int|
        0 <= k < shown.len() ==> (#[trigger] shown[k]).shows(bids[k])
}

/// The listing of the bids on an auction.
#[derive(Debug)]
pub enum GetBidsUseCase {
    /// The bids were asked for.
    AwaitingBids,
}

impl GetBidsUseCase {
    /// The first step, given what the auction identifier parsed to.
    pub open spec fn first(parsed: Option<AuctionId>) -> Step<Self, GetAllDto> {
        match parsed {
            Some(auction_id) => Step::Call(
                GetBidsUseCase::AwaitingBids,
                StoreCall::ListBids(auction_id),
            ),
            None => Step::Finish(Err(AppError::GetAuctionFailed)),
        }
    }

    /// `r` is the outcome on `reply`: the bids listed, each as it is shown.
    pub open spec fn last(reply: StoreReply, r: Step<Self, GetAllDto>) -> bool {
        match reply {
            StoreReply::Bids(bids) => r matches Step::Finish(Ok(listing)) && show_all(
                listing.bids@,
                bids@,
            ),
            _ => r == Step::<Self, GetAllDto>::Finish(Err(AppError::FailedToGetAuctions)),
        }
    }

    /// Starts the listing once the auction identifier has been parsed.
    pub fn start(parsed: Option<AuctionId>) -> (r: Step<Self, GetAllDto>)
        ensures
            r == Self::first(parsed),
    {
        match parsed {
            Some(auction_id) => Step::Call(
                GetBidsUseCase::AwaitingBids,
                StoreCall::ListBids(auction_id),
            ),
            None => Step::Finish(Err(AppError::GetAuctionFailed)),
        }
    }

    /// Starts the listing of the bids on the auction with the given textual
    /// identifier.
    pub fn begin(auction_id: &str) -> (r: Step<Self, GetAllDto>)
        ensures
            r == Self::first(AuctionId::of_text(auction_id@)),
    {
        let parsed: Option<AuctionId> = Id::try_from(auction_id);
        Self::start(parsed)
    }

    /// Decides the outcome from the store's reply.
    pub fn execute(self, reply: StoreReply) -> (r: Step<Self, GetAllDto>)
        ensures
            Self::last(reply, r),
    {
        match reply {
            StoreReply::Bids(bids) => {
                let mut shown: Vec<BidDto> = Vec::new();
                let mut k: usize = 0;
                while k < bids.len()
                    invariant
                        k <= bids.len(),
                        show_all(shown@, bids@.take(k as int)),
                    decreases bids.len() - k,
                {
                    shown.push(BidDto::of(&bids[k]));
                    k += 1;
                }
                proof {
                    assert(bids@.take(k as int) =~= bids@);
                }
                Step::Finish(Ok(GetAllDto { bids: shown }))
            },
            _ => Step::Finish(Err(AppError::FailedToGetAuctions)),
        }
    }
}

} // verus!
