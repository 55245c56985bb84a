//! Opening an auction on an item.

use crate::clock::{a_minute_ahead, clock_millis, is_a_minute_ahead, is_date, names_a_date};
use crate::entities::{Auction, AuctionStrategy, User};
use crate::error::AppError;
use crate::id::{AuctionId, Id, ItemId, UserId};
use crate::store::{Step, StoreCall, StoreReply};
use vstd::prelude::*;

verus! {

/// An auction as it is asked for: the item by its textual identifier, the
/// starting price, the end as milliseconds since the epoch, and how the
/// auction is to be settled.
#[derive(Debug, Clone)]
pub struct CreateAuctionRequest {
    pub item_id: String,
    pub starting_price: u64,
    pub end_date: i64,
    pub strategy: AuctionStrategy,
}

/// Where the opening of an auction stands.
#[derive(Debug)]
pub enum CreateAuctionUseCase {
    /// The item was asked for.
    AwaitingItem {
        user: UserId,
        item_id: ItemId,
        starting_price: u64,
        end_date: i64,
        strategy: AuctionStrategy,
    },
    /// The ongoing auction on the item, if any, was asked for.
    AwaitingOngoing {
        item_id: ItemId,
        starting_price: u64,
        end_date: i64,
        strategy: AuctionStrategy,
    },
    /// The auction was handed to the store.
    AwaitingInsert,
}

/// An end date is accepted when it names a date and lies at least one minute
/// after `now`.
pub open spec fn end_date_accepted(end_is_date: bool, end_date: i64, now: i64) -> bool {
    end_is_date && a_minute_ahead(end_date, now)
}

/// What the check of an end date says: an end date that is not accepted is
/// refused with `InvalidEndDate`.
pub open spec fn end_date_verdict(end_is_date: bool, end_date: i64, now: i64) -> Result<
    (),
    AppError,
> {
    if end_date_accepted(end_is_date, end_date, now) {
        Ok(())
    } else {
        Err(AppError::InvalidEndDate)
    }
}

/// Checks an end date against the time `now`, given whether it names a date.
pub fn check_end_date(end_is_date: bool, end_date: i64, now: i64) -> (r: Result<(), AppError>)
    ensures
        r == end_date_verdict(end_is_date, end_date, now),
{
    if end_is_date && is_a_minute_ahead(end_date, now) {
        Ok(())
    } else {
        Err(AppError::InvalidEndDate)
    }
}

/// Checks an end date against the clock.
pub fn validate_end_date(end_date: i64) -> (r: Result<(), AppError>)
    ensures
        exists|now: i64| r == end_date_verdict(is_date(end_date), end_date, now),
{
    let end_is_date = names_a_date(end_date);
    let now = clock_millis();
    check_end_date(end_is_date, end_date, now)
}

impl CreateAuctionUseCase {
    /// The end date that the request asked for, while it still matters.
    pub open spec fn end_date(self) -> i64 {
        match self {
            CreateAuctionUseCase::AwaitingItem { end_date, .. } => end_date,
            CreateAuctionUseCase::AwaitingOngoing { end_date, .. } => end_date,
            CreateAuctionUseCase::AwaitingInsert => 0,
        }
    }

    /// The first step, given what the item identifier parsed to.
    pub open spec fn first(
        user: UserId,
        item_id: Option<ItemId>,
        starting_price: u64,
        end_date: i64,
        strategy: AuctionStrategy,
    ) -> Step<Self, ()> {
        match item_id {
            None => Step::Finish(Err(AppError::ItemNotFound)),
            Some(item_id) => Step::Call(
                CreateAuctionUseCase::AwaitingItem {
                    user,
                    item_id,
                    starting_price,
                    end_date,
                    strategy,
                },
                StoreCall::FindItem(item_id),
            ),
        }
    }

    /// The step that follows `reply`, at time `now`, with `fresh` at hand as
    /// the identifier of the auction to record; `end_is_date` tells whether
    /// the end date asked for names a date.
    ///
    /// The checks come in a fixed order and the first that fails decides:
    /// the item exists, the acting user owns it, it has no ongoing auction,
    /// and the end date is acceptable.
    pub open spec fn next(
        self,
        reply: StoreReply,
        now: i64,
        end_is_date: bool,
        fresh: AuctionId,
    ) -> Step<Self, ()> {
        match self {
            CreateAuctionUseCase::AwaitingItem {
                user,
                item_id,
                starting_price,
                end_date,
                strategy,
            } => match reply {
                StoreReply::Item(Some(item)) => if item.user_id.value != user.value {
                    Step::Finish(Err(AppError::NotItemOwner))
                } else {
                    Step::Call(
                        CreateAuctionUseCase::AwaitingOngoing {
                            item_id,
                            starting_price,
                            end_date,
                            strategy,
                        },
                        StoreCall::FindOngoingAuctionForItem(item_id),
                    )
                },
                StoreReply::Item(None) => Step::Finish(Err(AppError::ItemNotFound)),
                _ => Step::Finish(Err(AppError::StorageFailure)),
            },
            CreateAuctionUseCase::AwaitingOngoing {
                item_id,
                starting_price,
                end_date,
                strategy,
            } => match reply {
                StoreReply::Auction(Some(_)) => Step::Finish(Err(AppError::OngoingAuctionExists)),
                StoreReply::Auction(None) => if end_date_accepted(end_is_date, end_date, now) {
                    Step::Call(
                        CreateAuctionUseCase::AwaitingInsert,
                        StoreCall::InsertAuction(
                            Auction { id: fresh, item_id, starting_price, end_date, strategy },
                        ),
                    )
                } else {
                    Step::Finish(Err(AppError::InvalidEndDate))
                },
                _ => Step::Finish(Err(AppError::StorageFailure)),
            },
            CreateAuctionUseCase::AwaitingInsert => match reply {
                StoreReply::Auction(Some(_)) => Step::Finish(Ok(())),
                _ => Step::Finish(Err(AppError::StorageFailure)),
            },
        }
    }

    /// Starts the opening once the item identifier has been parsed.
    pub fn start(
        user: UserId,
        item_id: Option<ItemId>,
        starting_price: u64,
        end_date: i64,
        strategy: AuctionStrategy,
    ) -> (r: Step<Self, ()>)
        ensures
            r == Self::first(user, item_id, starting_price, end_date, strategy),
    {
        match item_id {
            None => Step::Finish(Err(AppError::ItemNotFound)),
            Some(item_id) => Step::Call(
                CreateAuctionUseCase::AwaitingItem {
                    user,
                    item_id,
                    starting_price,
                    end_date,
                    strategy,
                },
                StoreCall::FindItem(item_id),
            ),
        }
    }

    /// Starts the opening of an auction by `current_user`.
    pub fn begin(current_user: &User, request: &CreateAuctionRequest) -> (r: Step<Self, ()>)
        ensures
            r == Self::first(
                current_user.id,
                ItemId::of_text(request.item_id@),
                request.starting_price,
                request.end_date,
                request.strategy,
            ),
    {
        Self::start(
            current_user.id,
            Id::try_from(request.item_id.as_str()),
            request.starting_price,
            request.end_date,
            request.strategy,
        )
    }

    /// Takes the store's reply and decides the next step.
    pub fn resume(self, reply: StoreReply, now: i64, end_is_date: bool, fresh: AuctionId) -> (r:
        Step<Self, ()>)
        ensures
            r == self.next(reply, now, end_is_date, fresh),
    {
        match self {
            CreateAuctionUseCase::AwaitingItem {
                user,
                item_id,
                starting_price,
                end_date,
                strategy,
            } => match reply {
                StoreReply::Item(Some(item)) => {
                    if !item.user_id.same(&user) {
                        Step::Finish(Err(AppError::NotItemOwner))
                    } else {
                        Step::Call(
                            CreateAuctionUseCase::AwaitingOngoing {
                                item_id,
                                starting_price,
                                end_date,
                                strategy,
                            },
                            StoreCall::FindOngoingAuctionForItem(item_id),
                        )
                    }
                },
                StoreReply::Item(None) => Step::Finish(Err(AppError::ItemNotFound)),
                _ => Step::Finish(Err(AppError::StorageFailure)),
            },
            CreateAuctionUseCase::AwaitingOngoing {
                item_id,
                starting_price,
                end_date,
                strategy,
            } => match reply {
                StoreReply::Auction(Some(_)) => Step::Finish(Err(AppError::OngoingAuctionExists)),
                StoreReply::Auction(None) => match check_end_date(end_is_date, end_date, now) {
                    Ok(_) => Step::Call(
                        CreateAuctionUseCase::AwaitingInsert,
                        StoreCall::InsertAuction(
                            Auction::with_id(fresh, item_id, starting_price, end_date, strategy),
                        ),
                    ),
                    Err(refusal) => Step::Finish(Err(refusal)),
                },
                _ => Step::Finish(Err(AppError::StorageFailure)),
            },
            CreateAuctionUseCase::AwaitingInsert => match reply {
                StoreReply::Auction(Some(_)) => Step::Finish(Ok(())),
                _ => Step::Finish(Err(AppError::StorageFailure)),
            },
        }
    }

    /// The end date that the request asked for, while it still matters.
    pub fn pending_end_date(&self) -> (r: i64)
        ensures
            r == self.end_date(),
    {
        match self {
            CreateAuctionUseCase::AwaitingItem { end_date, .. } => *end_date,
            CreateAuctionUseCase::AwaitingOngoing { end_date, .. } => *end_date,
            CreateAuctionUseCase::AwaitingInsert => 0,
        }
    }

    /// Takes the store's reply and decides the next step, reading the clock
    /// and drawing the identifier of the new auction itself.
    pub fn execute(self, reply: StoreReply) -> (r: Step<Self, ()>)
        ensures
            exists|now: i64, fresh: AuctionId|
                r == self.next(reply, now, is_date(self.end_date()), fresh),
    {
        let end_is_date = names_a_date(self.pending_end_date());
        let now = clock_millis();
        let fresh: AuctionId = Id::gen();
        self.resume(reply, now, end_is_date, fresh)
    }
}

} // verus!
