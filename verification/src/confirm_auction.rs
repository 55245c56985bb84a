//! Manual confirmation: the owner accepts or declines the outcome of an
//! auction that asked for final approval.

use crate::clock::clock_millis;
use crate::entities::{AuctionStrategy, User};
use crate::error::AppError;
use crate::handle_expired_auction::HandleExpiredAuctionUseCase;
use crate::id::{AuctionId, Id, UserId};
use crate::store::{Step, StoreCall, StoreReply};
use vstd::prelude::*;

verus! {

/// The owner's decision on an auction that has ended.
#[derive(Debug, Clone, Copy)]
pub struct AuctionConfirmationRequest {
    pub is_confirmed: bool,
}

/// Where a confirmation stands.
#[derive(Debug)]
pub enum ConfirmAuctionUseCase {
    /// The auction was asked for.
    AwaitingAuction { user: UserId, auction_id: AuctionId, is_confirmed: bool },
    /// The checks passed and the auction is being settled.
    Settling(HandleExpiredAuctionUseCase),
}

impl ConfirmAuctionUseCase {
    /// A step of the settling, seen as a step of the confirmation.
    pub open spec fn lifted(step: Step<HandleExpiredAuctionUseCase, ()>) -> Step<Self, ()> {
        match step {
            Step::Call(state, call) => Step::Call(ConfirmAuctionUseCase::Settling(state), call),
            Step::Finish(outcome) => Step::Finish(outcome),
        }
    }

    /// The first step, given what the auction identifier parsed to.
    pub open spec fn first(user: UserId, auction_id: Option<AuctionId>, is_confirmed: bool) -> Step<Self, ()> {
        match auction_id {
            None => Step::Finish(Err(AppError::AuctionResolutionFailed)),
            Some(auction_id) => Step::Call(
                ConfirmAuctionUseCase::AwaitingAuction { user, auction_id, is_confirmed },
                StoreCall::FindAuction(auction_id),
            ),
        }
    }

    /// The step that follows `reply` at time `now`.
    ///
    /// The checks come in a fixed order and the first that fails decides:
    /// the auction exists, it has ended, it asks for final approval, and the
    /// acting user owns the item. Then the auction is settled, with the
    /// owner's decision as the confirmation.
    pub open spec fn next(self, reply: StoreReply, now: i64) -> Step<Self, ()> {
        match self {
            ConfirmAuctionUseCase::AwaitingAuction { user, auction_id, is_confirmed } => match reply {
                StoreReply::AuctionWithItem(Some(auction)) => if auction.end_date > now {
                    Step::Finish(Err(AppError::CannotConfirmBeforeExpiry))
                } else if auction.strategy != AuctionStrategy::RequestFinalApproval {
                    Step::Finish(Err(AppError::WrongStrategyForConfirmation))
                } else if auction.user_id.value != user.value {
                    Step::Finish(Err(AppError::NotOwner))
                } else {
                    Self::lifted(HandleExpiredAuctionUseCase::first(Some(auction_id), is_confirmed))
                },
                StoreReply::AuctionWithItem(None) => Step::Finish(
                    Err(AppError::AuctionResolutionFailed),
                ),
                _ => Step::Finish(Err(AppError::StorageFailure)),
            },
            ConfirmAuctionUseCase::Settling(settling) => Self::lifted(settling.next(reply)),
        }
    }

    /// Sees a step of the settling as a step of the confirmation.
    pub fn lift(step: Step<HandleExpiredAuctionUseCase, ()>) -> (r: Step<Self, ()>)
        ensures
            r == Self::lifted(step),
    {
        match step {
            Step::Call(state, call) => Step::Call(ConfirmAuctionUseCase::Settling(state), call),
            Step::Finish(outcome) => Step::Finish(outcome),
        }
    }

    /// Starts a confirmation once the auction identifier has been parsed.
    pub fn start(user: UserId, auction_id: Option<AuctionId>, is_confirmed: bool) -> (r: Step<Self, ()>)
        ensures
            r == Self::first(user, auction_id, is_confirmed),
    {
        match auction_id {
            None => Step::Finish(Err(AppError::AuctionResolutionFailed)),
            Some(auction_id) => Step::Call(
                ConfirmAuctionUseCase::AwaitingAuction { user, auction_id, is_confirmed },
                StoreCall::FindAuction(auction_id),
            ),
        }
    }

    /// Starts a confirmation by `current_user` of the auction with the given
    /// textual identifier.
    pub fn begin(current_user: &User, auction_id: &str, request: AuctionConfirmationRequest) -> (r:
        Step<Self, ()>)
        ensures
            r == Self::first(
                current_user.id,
                AuctionId::of_text(auction_id@),
                request.is_confirmed,
            ),
    {
        Self::start(current_user.id, Id::try_from(auction_id), request.is_confirmed)
    }

    /// Takes the store's reply and decides the next step.
    pub fn resume(self, reply: StoreReply, now: i64) -> (r: Step<Self, ()>)
        ensures
            r == self.next(reply, now),
    {
        match self {
            ConfirmAuctionUseCase::AwaitingAuction { user, auction_id, is_confirmed } => match reply {
                StoreReply::AuctionWithItem(Some(auction)) => {
                    if auction.end_date > now {
                        Step::Finish(Err(AppError::CannotConfirmBeforeExpiry))
                    } else if auction.strategy != AuctionStrategy::RequestFinalApproval {
                        Step::Finish(Err(AppError::WrongStrategyForConfirmation))
                    } else if !auction.user_id.same(&user) {
                        Step::Finish(Err(AppError::NotOwner))
                    } else {
                        Self::lift(
                            HandleExpiredAuctionUseCase::start(Some(auction_id), is_confirmed),
                        )
                    }
                },
                StoreReply::AuctionWithItem(None) => Step::Finish(
                    Err(AppError::AuctionResolutionFailed),
                ),
                _ => Step::Finish(Err(AppError::StorageFailure)),
            },
            ConfirmAuctionUseCase::Settling(settling) => Self::lift(settling.execute(reply)),
        }
    }

    /// Takes the store's reply and decides the next step, reading the clock
    /// itself.
    pub fn execute(self, reply: StoreReply) -> (r: Step<Self, ()>)
        ensures
            exists|now: i64| r == self.next(reply, now),
    {
        let now = clock_millis();
        self.resume(reply, now)
    }
}

} // verus!
