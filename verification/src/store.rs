//! The protocol between the use cases and the store behind them.
//!
//! A use case never performs storage work. It names the work as a
//! [`StoreCall`]; whoever drives it performs the call and hands the
//! [`StoreReply`] back.

use crate::entities::{Auction, AuctionWithItem, Bid, BidWithUsername, Category, Item, User};
use crate::error::AppError;
use crate::id::{AuctionId, ItemId, UserId};
use vstd::prelude::*;

verus! {

/// One piece of work for the store.
#[derive(Debug, Clone)]
pub enum StoreCall {
    /// Look an item up.
    FindItem(ItemId),
    /// Look up the auction on an item that has not ended yet.
    FindOngoingAuctionForItem(ItemId),
    /// Record a new auction.
    InsertAuction(Auction),
    /// Look an auction up, with its item, whether it has ended or not.
    FindAuction(AuctionId),
    /// Look an auction up, with its item, if it has not ended yet.
    FindOngoingAuction(AuctionId),
    /// List the auctions that have ended.
    FindExpiredAuctions,
    /// List the bids on an auction.
    ListBids(AuctionId),
    /// Record a new bid.
    InsertBid(Bid),
    /// Hand an item over to a new owner.
    ChangeOwner(ItemId, UserId),
    /// Remove every bid on an auction.
    DeleteBids(AuctionId),
    /// Remove an auction.
    DeleteAuction(AuctionId),
    /// List the auctions that have not ended, of one category or of all.
    FindOngoingAuctions(Option<Category>),
    /// Record a new item.
    InsertItem(Item),
    /// List the items of the user with this textual identifier, of one
    /// category or of all.
    ListItemsOfUser(String, Option<Category>),
    /// Look a user up.
    FindUser(UserId),
    /// Look a user up by e-mail address.
    FindUserByEmail(String),
    /// Look a user up by name.
    FindUserByUsername(String),
    /// Record a new user.
    InsertUser(User),
}

/// What the store answered.
#[derive(Debug, Clone)]
pub enum StoreReply {
    /// The store could not do the work.
    Failed,
    /// The item asked for or changed, if there is one.
    Item(Option<Item>),
    /// The auction asked for or recorded, if there is one.
    Auction(Option<Auction>),
    /// The auction asked for with its item, if there is one.
    AuctionWithItem(Option<AuctionWithItem>),
    /// The auctions asked for.
    Auctions(Vec<Auction>),
    /// The bids asked for.
    Bids(Vec<BidWithUsername>),
    /// The bid recorded, if the store handed it back.
    Bid(Option<Bid>),
    /// A removal went through.
    Done,
    /// The auctions asked for, each with its item.
    AuctionsWithItems(Vec<AuctionWithItem>),
    /// The items asked for.
    Items(Vec<Item>),
    /// The user asked for or recorded, if there is one.
    User(Option<User>),
}

/// What a use case wants next.
#[derive(Debug)]
pub enum Step<S, T> {
    /// Perform the call and resume the use case, now in state `S`, with the
    /// reply.
    Call(S, StoreCall),
    /// The use case is over, with this outcome.
    Finish(Result<T, AppError>),
}

} // verus!
