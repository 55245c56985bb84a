//! Listing the auctions that are ongoing.

use crate::entities::{AuctionWithItem, Category};
use crate::error::AppError;
use crate::id::text_of_uuid;
use crate::store::{Step, StoreCall, StoreReply};
use vstd::prelude::*;

verus! {

/// An auction with its item as it is shown: identifiers and category by
/// their text, the end in whole seconds since the epoch.
#[derive(Debug, Clone)]
pub struct AuctionWithItemDto {
    pub id: String,
    pub item_id: String,
    pub starting_price: u64,
    pub end_date: i64,
    pub brief: String,
    pub description: String,
    pub category: String,
    pub user_id: String,
}

/// The auctions listed.
#[derive(Debug, Clone)]
pub struct GetAllDto {
    pub auctions: Vec<AuctionWithItemDto>,
}

/// The filter that a listing is asked with: the name of a category, or
/// none for all.
#[derive(Debug, Clone)]
pub struct QueryFilterParamDto {
    pub category: Option<String>,
}

impl QueryFilterParamDto {
    /// The category to list, if the filter names one.
    pub fn category(self) -> (r: Option<Category>)
        ensures
            match self.category {
                Some(name) => r == Some(Category::named(name@)),
                None => r is None,
            },
    {
        match self.category {
            Some(name) => Some(Category::from(name)),
            None => None,
        }
    }
}

/// The whole seconds in a count of milliseconds, rounded down.
pub open spec fn whole_seconds(millis: i64) -> int {
    millis as int / 1000
}

/// The whole seconds in a count of milliseconds, rounded down.
pub fn seconds_of(millis: i64) -> (r: i64)
    ensures
        r == whole_seconds(millis),
{
    if millis >= 0 {
        millis / 1000
    } else {
        let below: i64 = -(millis + 1);
        let whole: i64 = below / 1000;
        assert((millis as int) / 1000 == -(whole as int) - 1) by (nonlinear_arith)
            requires
                millis < 0,
                below == -(millis + 1),
                whole == below / 1000,
        ;
        -whole - 1
    }
}

impl AuctionWithItemDto {
    /// This is `auction` as it is shown.
    pub open spec fn shows(self, auction: AuctionWithItem) -> bool {
        &&& self.id@ == text_of_uuid(auction.id.value)
        &&& self.item_id@ == text_of_uuid(auction.item_id.value)
        &&& self.starting_price == auction.starting_price
        &&& self.end_date == whole_seconds(auction.end_date)
        &&& self.brief == auction.brief
        &&& self.description == auction.description
        &&& self.category@ == auction.category.name_spec()
        &&& self.user_id@ == text_of_uuid(auction.user_id.value)
    }

    /// Shows an auction with its item.
    pub fn from(auction: &AuctionWithItem) -> (r: Self)
        ensures
            r.shows(*auction),
    {
        AuctionWithItemDto {
            id: auction.id.to_text(),
            item_id: auction.item_id.to_text(),
            starting_price: auction.starting_price,
            end_date: seconds_of(auction.end_date),
            brief: auction.brief.clone(),
            description: auction.description.clone(),
            category: auction.category.name(),
            user_id: auction.user_id.to_text(),
        }
    }
}

/// `shown` shows the auctions of `auctions`, one for one and in order.
pub open spec fn show_all(shown: Seq<AuctionWithItemDto>, auctions: Seq<AuctionWithItem>) -> bool {
    shown.len() == auctions.len() && forall|k: int|
        0 <= k < shown.len() ==> (#[trigger] shown[k]).shows(auctions[k])
}

impl GetAllDto {
    /// Shows the auctions listed.
    pub fn from_auctions_and_items(auctions_and_items: Vec<AuctionWithItem>) -> (r: Self)
        ensures
            show_all(r.auctions@, auctions_and_items@),
    {
        let mut shown: Vec<AuctionWithItemDto> = Vec::new();
        let mut k: usize = 0;
        while k < auctions_and_items.len()
            invariant
                k <= auctions_and_items.len(),
                show_all(shown@, auctions_and_items@.take(k as int)),
            decreases auctions_and_items.len() - k,
        {
            shown.push(AuctionWithItemDto::from(&auctions_and_items[k]));
            k += 1;
        }
        proof {
            assert(auctions_and_items@.take(k as int) =~= auctions_and_items@);
        }
        GetAllDto { auctions: shown }
    }

    /// The empty listing.
    pub fn new_empty() -> (r: Self)
        ensures
            r.auctions@.len() == 0,
    {
        GetAllDto { auctions: Vec::new() }
    }
}

/// The listing of the ongoing auctions.
#[derive(Debug)]
pub enum GetAuctionsUseCase {
    /// The ongoing auctions were asked for.
    AwaitingAuctions,
}

impl GetAuctionsUseCase {
    /// `r` is the outcome on `reply`: the auctions listed, each as it is
    /// shown.
    pub open spec fn last(reply: StoreReply, r: Step<Self, GetAllDto>) -> bool {
        match reply {
            StoreReply::AuctionsWithItems(auctions) => r matches Step::Finish(Ok(listing))
                && show_all(listing.auctions@, auctions@),
            _ => r == Step::<Self, GetAllDto>::Finish(Err(AppError::FailedToGetAuctions)),
        }
    }

    /// Starts the listing of the ongoing auctions, of one category or of
    /// all.
    pub fn begin(category: Option<Category>) -> (r: Step<Self, GetAllDto>)
        ensures
            r == Step::<Self, GetAllDto>::Call(
                GetAuctionsUseCase::AwaitingAuctions,
                StoreCall::FindOngoingAuctions(category),
            ),
    {
        Step::Call(GetAuctionsUseCase::AwaitingAuctions, StoreCall::FindOngoingAuctions(category))
    }

    /// Decides the outcome from the store's reply.
    pub fn execute(self, reply: StoreReply) -> (r: Step<Self, GetAllDto>)
        ensures
            Self::last(reply, r),
    {
        match reply {
            StoreReply::AuctionsWithItems(auctions) => Step::Finish(
                Ok(GetAllDto::from_auctions_and_items(auctions)),
            ),
            _ => Step::Finish(Err(AppError::FailedToGetAuctions)),
        }
    }
}

} // verus!
