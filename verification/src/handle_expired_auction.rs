//! Settling one auction: the highest bidder, if any, gets the item, then the
//! bids and the auction are removed.

use crate::error::AppError;
use crate::highest::{highest, highest_bid};
use crate::id::{AuctionId, Id, ItemId};
use crate::store::{Step, StoreCall, StoreReply};
use vstd::prelude::*;

verus! {

/// Where the settling of one auction stands.
#[derive(Debug)]
pub enum HandleExpiredAuctionUseCase {
    /// The auction was asked for.
    AwaitingAuction { auction_id: AuctionId, confirmed: bool },
    /// The bids on the auction were asked for.
    AwaitingBids { auction_id: AuctionId, item_id: ItemId, confirmed: bool },
    /// The item is being handed to the highest bidder.
    AwaitingTransfer { auction_id: AuctionId },
    /// The bids are being removed.
    AwaitingBidsRemoved { auction_id: AuctionId },
    /// The auction is being removed.
    AwaitingAuctionRemoved,
}

impl HandleExpiredAuctionUseCase {
    /// The first step, given what the auction identifier parsed to. With
    /// `confirmed` false the sale is declined: nothing changes hands, but the
    /// auction is closed all the same.
    pub open spec fn first(auction_id: Option<AuctionId>, confirmed: bool) -> Step<Self, ()> {
        match auction_id {
            None => Step::Finish(Err(AppError::AuctionNotFound)),
            Some(auction_id) => Step::Call(
                HandleExpiredAuctionUseCase::AwaitingAuction { auction_id, confirmed },
                StoreCall::FindAuction(auction_id),
            ),
        }
    }

    /// The step that follows `reply`: load the auction, list its bids, hand
    /// the item to the highest bidder where the sale is confirmed and there
    /// is a bid, remove the bids, remove the auction. A failure of the store
    /// ends the run at once.
    pub open spec fn next(self, reply: StoreReply) -> Step<Self, ()> {
        match self {
            HandleExpiredAuctionUseCase::AwaitingAuction { auction_id, confirmed } => match reply {
                StoreReply::AuctionWithItem(Some(auction)) => Step::Call(
                    HandleExpiredAuctionUseCase::AwaitingBids {
                        auction_id,
                        item_id: auction.item_id,
                        confirmed,
                    },
                    StoreCall::ListBids(auction_id),
                ),
                StoreReply::AuctionWithItem(None) => Step::Finish(Err(AppError::AuctionNotFound)),
                _ => Step::Finish(Err(AppError::StorageFailure)),
            },
            HandleExpiredAuctionUseCase::AwaitingBids { auction_id, item_id, confirmed } => match reply {
                StoreReply::Bids(bids) => if confirmed && highest(bids@) is Some {
                    Step::Call(
                        HandleExpiredAuctionUseCase::AwaitingTransfer { auction_id },
                        StoreCall::ChangeOwner(item_id, bids@[highest(bids@).unwrap()].user_id),
                    )
                } else {
                    Step::Call(
                        HandleExpiredAuctionUseCase::AwaitingBidsRemoved { auction_id },
                        StoreCall::DeleteBids(auction_id),
                    )
                },
                _ => Step::Finish(Err(AppError::StorageFailure)),
            },
            HandleExpiredAuctionUseCase::AwaitingTransfer { auction_id } => match reply {
                StoreReply::Item(_) => Step::Call(
                    HandleExpiredAuctionUseCase::AwaitingBidsRemoved { auction_id },
                    StoreCall::DeleteBids(auction_id),
                ),
                _ => Step::Finish(Err(AppError::StorageFailure)),
            },
            HandleExpiredAuctionUseCase::AwaitingBidsRemoved { auction_id } => match reply {
                StoreReply::Done => Step::Call(
                    HandleExpiredAuctionUseCase::AwaitingAuctionRemoved,
                    StoreCall::DeleteAuction(auction_id),
                ),
                _ => Step::Finish(Err(AppError::StorageFailure)),
            },
            HandleExpiredAuctionUseCase::AwaitingAuctionRemoved => match reply {
                StoreReply::Done => Step::Finish(Ok(())),
                _ => Step::Finish(Err(AppError::StorageFailure)),
            },
        }
    }

    /// Starts settling once the auction identifier has been parsed.
    pub fn start(auction_id: Option<AuctionId>, confirmed: bool) -> (r: Step<Self, ()>)
        ensures
            r == Self::first(auction_id, confirmed),
    {
        match auction_id {
            None => Step::Finish(Err(AppError::AuctionNotFound)),
            Some(auction_id) => Step::Call(
                HandleExpiredAuctionUseCase::AwaitingAuction { auction_id, confirmed },
                StoreCall::FindAuction(auction_id),
            ),
        }
    }

    /// Starts settling the auction with the given textual identifier, as the
    /// periodic sweep does: the sale counts as confirmed.
    pub fn begin(auction_id: &str) -> (r: Step<Self, ()>)
        ensures
            r == Self::first(AuctionId::of_text(auction_id@), true),
    {
        Self::start(Id::try_from(auction_id), true)
    }

    /// Takes the store's reply and decides the next step.
    pub fn execute(self, reply: StoreReply) -> (r: Step<Self, ()>)
        ensures
            r == self.next(reply),
    {
        match self {
            HandleExpiredAuctionUseCase::AwaitingAuction { auction_id, confirmed } => match reply {
                StoreReply::AuctionWithItem(Some(auction)) => Step::Call(
                    HandleExpiredAuctionUseCase::AwaitingBids {
                        auction_id,
                        item_id: auction.item_id,
                        confirmed,
                    },
                    StoreCall::ListBids(auction_id),
                ),
                StoreReply::AuctionWithItem(None) => Step::Finish(Err(AppError::AuctionNotFound)),
                _ => Step::Finish(Err(AppError::StorageFailure)),
            },
            HandleExpiredAuctionUseCase::AwaitingBids { auction_id, item_id, confirmed } => match reply {
                StoreReply::Bids(bids) => {
                    if confirmed {
                        match highest_bid(&bids) {
                            Some(top) => {
                                return Step::Call(
                                    HandleExpiredAuctionUseCase::AwaitingTransfer { auction_id },
                                    StoreCall::ChangeOwner(item_id, bids[top].user_id),
                                );
                            },
                            None => {},
                        }
                    }
                    Step::Call(
                        HandleExpiredAuctionUseCase::AwaitingBidsRemoved { auction_id },
                        StoreCall::DeleteBids(auction_id),
                    )
                },
                _ => Step::Finish(Err(AppError::StorageFailure)),
            },
            HandleExpiredAuctionUseCase::AwaitingTransfer { auction_id } => match reply {
                StoreReply::Item(_) => Step::Call(
                    HandleExpiredAuctionUseCase::AwaitingBidsRemoved { auction_id },
                    StoreCall::DeleteBids(auction_id),
                ),
                _ => Step::Finish(Err(AppError::StorageFailure)),
            },
            HandleExpiredAuctionUseCase::AwaitingBidsRemoved { auction_id } => match reply {
                StoreReply::Done => Step::Call(
                    HandleExpiredAuctionUseCase::AwaitingAuctionRemoved,
                    StoreCall::DeleteAuction(auction_id),
                ),
                _ => Step::Finish(Err(AppError::StorageFailure)),
            },
            HandleExpiredAuctionUseCase::AwaitingAuctionRemoved => match reply {
                StoreReply::Done => Step::Finish(Ok(())),
                _ => Step::Finish(Err(AppError::StorageFailure)),
            },
        }
    }
}

} // verus!
