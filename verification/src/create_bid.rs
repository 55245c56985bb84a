//! Bid intake: checking a bid against an ongoing auction and recording it.

use crate::clock::clock_millis;
use crate::entities::{Bid, User};
use crate::error::AppError;
use crate::highest::{highest, highest_bid};
use crate::id::{AuctionId, BidId, Id, UserId};
use crate::store::{Step, StoreCall, StoreReply};
use vstd::prelude::*;

verus! {

/// A bid as it comes in: the amount, and the auction by its textual
/// identifier.
#[derive(Debug, Clone)]
pub struct CreateBidRequest {
    pub value: u64,
    pub auction_id: String,
}

/// Where the intake of one bid stands.
#[derive(Debug)]
pub enum CreateBidUseCase {
    /// The ongoing auction was asked for.
    AwaitingAuction { bidder: UserId, auction_id: AuctionId, value: u64 },
    /// The bids so far were asked for.
    AwaitingBids { bidder: UserId, auction_id: AuctionId, value: u64, starting_price: u64 },
    /// The bid was handed to the store.
    AwaitingInsert,
}

impl CreateBidUseCase {
    /// The first step for a bid of `value` by `bidder`, given what the
    /// auction identifier parsed to.
    pub open spec fn first(bidder: UserId, auction_id: Option<AuctionId>, value: u64) -> Step<Self, ()> {
        match auction_id {
            None => Step::Finish(Err(AppError::AuctionNotFound)),
            Some(auction_id) => Step::Call(
                CreateBidUseCase::AwaitingAuction { bidder, auction_id, value },
                StoreCall::FindOngoingAuction(auction_id),
            ),
        }
    }

    /// The step that follows `reply`, at time `now`, with `fresh` at hand as
    /// the identifier of the bid to record.
    ///
    /// The checks come in a fixed order and the first that fails decides:
    /// the auction is there and ongoing, it has not ended at `now`, the
    /// bidder does not own the item, the bid reaches the starting price, and
    /// it exceeds the highest bid so far.
    pub open spec fn next(self, reply: StoreReply, now: i64, fresh: BidId) -> Step<Self, ()> {
        match self {
            CreateBidUseCase::AwaitingAuction { bidder, auction_id, value } => match reply {
                StoreReply::AuctionWithItem(Some(auction)) => if auction.end_date <= now {
                    Step::Finish(Err(AppError::AuctionExpired))
                } else if auction.user_id.value == bidder.value {
                    Step::Finish(Err(AppError::OwnerCannotBid))
                } else {
                    Step::Call(
                        CreateBidUseCase::AwaitingBids {
                            bidder,
                            auction_id,
                            value,
                            starting_price: auction.starting_price,
                        },
                        StoreCall::ListBids(auction_id),
                    )
                },
                StoreReply::AuctionWithItem(None) => Step::Finish(Err(AppError::AuctionNotFound)),
                _ => Step::Finish(Err(AppError::StorageFailure)),
            },
            CreateBidUseCase::AwaitingBids { bidder, auction_id, value, starting_price } => match reply {
                StoreReply::Bids(bids) => if value < starting_price {
                    Step::Finish(Err(AppError::BidBelowStartingPrice(value, starting_price)))
                } else if highest(bids@) is Some && value <= bids@[highest(bids@).unwrap()].value {
                    Step::Finish(
                        Err(
                            AppError::BidBelowHighestBid(
                                value,
                                bids@[highest(bids@).unwrap()].value,
                            ),
                        ),
                    )
                } else {
                    Step::Call(
                        CreateBidUseCase::AwaitingInsert,
                        StoreCall::InsertBid(
                            Bid { id: fresh, value, auction_id, user_id: bidder },
                        ),
                    )
                },
                _ => Step::Finish(Err(AppError::StorageFailure)),
            },
            CreateBidUseCase::AwaitingInsert => match reply {
                StoreReply::Bid(Some(_)) => Step::Finish(Ok(())),
                _ => Step::Finish(Err(AppError::StorageFailure)),
            },
        }
    }

    /// Starts the intake once the auction identifier has been parsed.
    pub fn start(bidder: UserId, auction_id: Option<AuctionId>, value: u64) -> (r: Step<Self, ()>)
        ensures
            r == Self::first(bidder, auction_id, value),
    {
        match auction_id {
            None => Step::Finish(Err(AppError::AuctionNotFound)),
            Some(auction_id) => Step::Call(
                CreateBidUseCase::AwaitingAuction { bidder, auction_id, value },
                StoreCall::FindOngoingAuction(auction_id),
            ),
        }
    }

    /// Starts the intake of a bid by `current_user`.
    pub fn begin(current_user: &User, request: &CreateBidRequest) -> (r: Step<Self, ()>)
        ensures
            r == Self::first(
                current_user.id,
                AuctionId::of_text(request.auction_id@),
                request.value,
            ),
    {
        let auction_id = Id::try_from(request.auction_id.as_str());
        Self::start(current_user.id, auction_id, request.value)
    }

    /// Takes the store's reply and decides the next step.
    pub fn resume(self, reply: StoreReply, now: i64, fresh: BidId) -> (r: Step<Self, ()>)
        ensures
            r == self.next(reply, now, fresh),
    {
        match self {
            CreateBidUseCase::AwaitingAuction { bidder, auction_id, value } => match reply {
                StoreReply::AuctionWithItem(Some(auction)) => {
                    if auction.end_date <= now {
                        Step::Finish(Err(AppError::AuctionExpired))
                    } else if auction.user_id.same(&bidder) {
                        Step::Finish(Err(AppError::OwnerCannotBid))
                    } else {
                        Step::Call(
                            CreateBidUseCase::AwaitingBids {
                                bidder,
                                auction_id,
                                value,
                                starting_price: auction.starting_price,
                            },
                            StoreCall::ListBids(auction_id),
                        )
                    }
                },
                StoreReply::AuctionWithItem(None) => Step::Finish(Err(AppError::AuctionNotFound)),
                _ => Step::Finish(Err(AppError::StorageFailure)),
            },
            CreateBidUseCase::AwaitingBids { bidder, auction_id, value, starting_price } => match reply {
                StoreReply::Bids(bids) => {
                    if value < starting_price {
                        return Step::Finish(
                            Err(AppError::BidBelowStartingPrice(value, starting_price)),
                        );
                    }
                    match highest_bid(&bids) {
                        Some(top) => {
                            if value <= bids[top].value {
                                return Step::Finish(
                                    Err(AppError::BidBelowHighestBid(value, bids[top].value)),
                                );
                            }
                        },
                        None => {},
                    }
                    Step::Call(
                        CreateBidUseCase::AwaitingInsert,
                        StoreCall::InsertBid(Bid::with_id(fresh, value, auction_id, bidder)),
                    )
                },
                _ => Step::Finish(Err(AppError::StorageFailure)),
            },
            CreateBidUseCase::AwaitingInsert => match reply {
                StoreReply::Bid(Some(_)) => Step::Finish(Ok(())),
                _ => Step::Finish(Err(AppError::StorageFailure)),
            },
        }
    }

    /// Takes the store's reply and decides the next step, reading the clock
    /// and drawing the identifier of the new bid itself.
    pub fn execute(self, reply: StoreReply) -> (r: Step<Self, ()>)
        ensures
            exists|now: i64, fresh: BidId| r == self.next(reply, now, fresh),
    {
        let now = clock_millis();
        let fresh: BidId = Id::gen();
        self.resume(reply, now, fresh)
    }
}

} // verus!
