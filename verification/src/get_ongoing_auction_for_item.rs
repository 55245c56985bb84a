//! Showing the ongoing auction on an item.

use crate::entities::Auction;
use crate::error::AppError;
use crate::id::{text_of_uuid, Id, ItemId};
use crate::store::{Step, StoreCall, StoreReply};
use vstd::prelude::*;

verus! {

/// An auction as it is shown: identifiers by their text.
#[derive(Debug, Clone)]
pub struct AuctionDto {
    pub id: String,
    pub item_id: String,
    pub starting_price: u64,
    pub end_date: i64,
}

/// The part of a request's path that names the item, if the path has one.
#[derive(Debug, Clone)]
pub struct PathParams {
    pub item_id: Option<String>,
}

impl PathParams {
    /// The textual identifier asked for; empty where the path names none.
    pub fn item_id(self) -> (r: String)
        ensures
            match self.item_id {
                Some(text) => r == text,
                None => r@ == Seq::<char>::empty(),
            },
    {
        match self.item_id {
            Some(text) => text,
            None => String::new(),
        }
    }
}

impl AuctionDto {
    /// This is `auction` as it is shown.
    pub open spec fn shows(self, auction: Auction) -> bool {
        &&& self.id@ == text_of_uuid(auction.id.value)
        &&& self.item_id@ == text_of_uuid(auction.item_id.value)
        &&& self.starting_price == auction.starting_price
        &&& self.end_date == auction.end_date
    }

    /// Shows an auction.
    pub fn from_auction(auction: Auction) -> (r: Self)
        ensures
            r.shows(auction),
    {
        AuctionDto {
            id: auction.id.to_text(),
            item_id: auction.item_id.to_text(),
            starting_price: auction.starting_price,
            end_date: auction.end_date,
        }
    }
}

/// The showing of the ongoing auction on an item.
#[derive(Debug)]
pub enum GetAuctionByItemIdUseCase {
    /// The ongoing auction was asked for.
    AwaitingAuction,
}

impl GetAuctionByItemIdUseCase {
    /// The first step, given what the item identifier parsed to.
    pub open spec fn first(parsed: Option<ItemId>) -> Step<Self, AuctionDto> {
        match parsed {
            Some(item_id) => Step::Call(
                GetAuctionByItemIdUseCase::AwaitingAuction,
                StoreCall::FindOngoingAuctionForItem(item_id),
            ),
            None => Step::Finish(Err(AppError::GetItemFailed)),
        }
    }

    /// `r` is the outcome on `reply`: the auction as it is shown, if the
    /// item has one that is ongoing.
    pub open spec fn last(reply: StoreReply, r: Step<Self, AuctionDto>) -> bool {
        match reply {
            StoreReply::Auction(Some(auction)) => r matches Step::Finish(Ok(shown)) && shown.shows(
                auction,
            ),
            _ => r == Step::<Self, AuctionDto>::Finish(Err(AppError::GetAuctionFailed)),
        }
    }

    /// Starts the showing once the item identifier has been parsed.
    pub fn start(parsed: Option<ItemId>) -> (r: Step<Self, AuctionDto>)
        ensures
            r == Self::first(parsed),
    {
        match parsed {
            Some(item_id) => Step::Call(
                GetAuctionByItemIdUseCase::AwaitingAuction,
                StoreCall::FindOngoingAuctionForItem(item_id),
            ),
            None => Step::Finish(Err(AppError::GetItemFailed)),
        }
    }

    /// Starts the showing of the ongoing auction on the item with the given
    /// textual identifier.
    pub fn begin(item_id: &str) -> (r: Step<Self, AuctionDto>)
        ensures
            r == Self::first(ItemId::of_text(item_id@)),
    {
        let parsed: Option<ItemId> = Id::try_from(item_id);
        Self::start(parsed)
    }

    /// Decides the outcome from the store's reply.
    pub fn execute(self, reply: StoreReply) -> (r: Step<Self, AuctionDto>)
        ensures
            Self::last(reply, r),
    {
        match reply {
            StoreReply::Auction(Some(auction)) => Step::Finish(Ok(AuctionDto::from_auction(auction))),
            _ => Step::Finish(Err(AppError::GetAuctionFailed)),
        }
    }
}

} // verus!
