//! Auction lifecycle engine for a marketplace: opening auctions, taking bids,
//! and settling an auction once its end time has passed.
//!
//! Every use case is a small state machine. It never touches storage itself:
//! it hands out a [`store::StoreCall`] for the caller to perform and resumes
//! with the [`store::StoreReply`] that came back.

pub mod entities;
pub mod error;
pub mod id;
pub mod store;
pub mod validation;
pub mod clock;
pub mod create_bid;
pub mod highest;
pub mod confirm_auction;
pub mod create_auction;
pub mod handle_expired_auction;
pub mod handle_expired_auctions;
pub mod market;
pub mod guarantees;
pub mod get_user;
pub mod login;
pub mod password;
pub mod register;
pub mod items;
pub mod get_bids;
pub mod get_ongoing_auction_for_item;
pub mod get_ongoing_auctions;
