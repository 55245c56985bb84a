//! The records of the marketplace: users, items, auctions and bids.

use crate::id::{AuctionId, BidId, Id, ItemId, UserId};
use vstd::prelude::*;

verus! {

/// How an auction is settled once it has ended.
#[derive(Debug, Clone, Copy, PartialEq, Eq, Structural)]
pub enum AuctionStrategy {
    /// Settled by the periodic sweep without anyone's doing.
    Standard,
    /// Settled only when the owner confirms or declines the sale.
    RequestFinalApproval,
}

/// The kinds of goods on offer.
#[derive(Debug, Clone, Copy, PartialEq, Eq, Structural)]
pub enum Category {
    Art,
    Sport,
    Electronics,
    Services,
    Diverse,
}

impl AuctionStrategy {
    /// The strategy that a name stands for. Any name but that of final
    /// approval stands for the standard strategy.
    pub open spec fn named(name: Seq<char>) -> AuctionStrategy {
        if name == "request_final_approval"@ {
            AuctionStrategy::RequestFinalApproval
        } else {
            AuctionStrategy::Standard
        }
    }

    /// The name of the strategy.
    pub open spec fn name_spec(self) -> Seq<char> {
        match self {
            AuctionStrategy::Standard => "standard"@,
            AuctionStrategy::RequestFinalApproval => "request_final_approval"@,
        }
    }

    /// The strategy that a name stands for.
    pub fn from(strategy: String) -> (r: Self)
        ensures
            r == Self::named(strategy@),
    {
        if strategy == "request_final_approval".to_owned() {
            AuctionStrategy::RequestFinalApproval
        } else {
            AuctionStrategy::Standard
        }
    }

    /// The name of the strategy.
    pub fn name(&self) -> (r: String)
        ensures
            r@ == self.name_spec(),
    {
        match self {
            AuctionStrategy::Standard => "standard".to_owned(),
            AuctionStrategy::RequestFinalApproval => "request_final_approval".to_owned(),
        }
    }
}

impl Category {
    /// Whether a name is that of a category.
    pub open spec fn is_name(name: Seq<char>) -> bool {
        name == "art"@ || name == "sport"@ || name == "electronics"@ || name == "services"@ || name
            == "diverse"@
    }

    /// The category that a name stands for. A name that is none of the
    /// categories' stands for the diverse.
    pub open spec fn named(name: Seq<char>) -> Category {
        if name == "art"@ {
            Category::Art
        } else if name == "sport"@ {
            Category::Sport
        } else if name == "electronics"@ {
            Category::Electronics
        } else if name == "services"@ {
            Category::Services
        } else {
            Category::Diverse
        }
    }

    /// The name of the category.
    pub open spec fn name_spec(self) -> Seq<char> {
        match self {
            Category::Art => "art"@,
            Category::Sport => "sport"@,
            Category::Electronics => "electronics"@,
            Category::Services => "services"@,
            Category::Diverse => "diverse"@,
        }
    }

    /// The category that a name stands for.
    pub fn from(category: String) -> (r: Self)
        ensures
            r == Self::named(category@),
    {
        if category == "art".to_owned() {
            Category::Art
        } else if category == "sport".to_owned() {
            Category::Sport
        } else if category == "electronics".to_owned() {
            Category::Electronics
        } else if category == "services".to_owned() {
            Category::Services
        } else {
            Category::Diverse
        }
    }

    /// The name of the category.
    pub fn name(&self) -> (r: String)
        ensures
            r@ == self.name_spec(),
    {
        match self {
            Category::Art => "art".to_owned(),
            Category::Sport => "sport".to_owned(),
            Category::Electronics => "electronics".to_owned(),
            Category::Services => "services".to_owned(),
            Category::Diverse => "diverse".to_owned(),
        }
    }
}

/// What a token says of its bearer: the user by identifier and name, and
/// the second, counted from the epoch, at which the token runs out.
#[derive(Debug, Clone)]
pub struct TokenClaims {
    pub exp: usize,
    pub sub: String,
    pub username: String,
}

/// A registered user.
#[derive(Debug, Clone)]
pub struct User {
    pub id: UserId,
    pub name: String,
    pub email: String,
    pub password: String,
}

/// Something a user owns and may put up for auction.
#[derive(Debug, Clone)]
pub struct Item {
    pub id: ItemId,
    pub brief: String,
    pub description: String,
    pub picture: Vec<u8>,
    pub user_id: UserId,
    pub category: Category,
}

/// A time-boxed sale of one item. Prices are whole amounts of the smallest
/// unit in use; times are milliseconds since the Unix epoch.
#[derive(Debug, Clone, Copy)]
pub struct Auction {
    pub id: AuctionId,
    pub item_id: ItemId,
    pub starting_price: u64,
    pub end_date: i64,
    pub strategy: AuctionStrategy,
}

/// An auction together with the item it sells; `user_id` is the item's owner.
#[derive(Debug, Clone)]
pub struct AuctionWithItem {
    pub id: AuctionId,
    pub item_id: ItemId,
    pub starting_price: u64,
    pub end_date: i64,
    pub brief: String,
    pub description: String,
    pub category: Category,
    pub user_id: UserId,
    pub strategy: AuctionStrategy,
}

/// An offer on an auction.
#[derive(Debug, Clone, Copy)]
pub struct Bid {
    pub id: BidId,
    pub value: u64,
    pub auction_id: AuctionId,
    pub user_id: UserId,
}

/// A bid together with the name of the user who placed it.
#[derive(Debug, Clone)]
pub struct BidWithUsername {
    pub id: BidId,
    pub value: u64,
    pub auction_id: AuctionId,
    pub user_id: UserId,
    pub username: String,
}

impl User {
    /// A user with the given identifier.
    pub fn with_id(id: UserId, name: String, email: String, password: String) -> (r: Self)
        ensures
            r.id == id,
            r.name == name,
            r.email == email,
            r.password == password,
    {
        User { id, name, email, password }
    }

    /// A user with a fresh random identifier.
    pub fn new(name: String, email: String, password: String) -> (r: Self)
        ensures
            r.name == name,
            r.email == email,
            r.password == password,
    {
        User::with_id(Id::gen(), name, email, password)
    }
}

impl Item {
    /// An item with the given identifier.
    pub fn with_id(
        id: ItemId,
        brief: String,
        description: String,
        picture: Vec<u8>,
        user_id: UserId,
        category: Category,
    ) -> (r: Self)
        ensures
            r.id == id,
            r.brief == brief,
            r.description == description,
            r.picture == picture,
            r.user_id == user_id,
            r.category == category,
    {
        Item { id, brief, description, picture, user_id, category }
    }

    /// An item with a fresh random identifier.
    pub fn new(
        brief: String,
        description: String,
        picture: Vec<u8>,
        user_id: UserId,
        category: Category,
    ) -> (r: Self)
        ensures
            r.brief == brief,
            r.description == description,
            r.picture == picture,
            r.user_id == user_id,
            r.category == category,
    {
        Item::with_id(Id::gen(), brief, description, picture, user_id, category)
    }
}

impl Auction {
    /// An auction with the given identifier.
    pub fn with_id(
        id: AuctionId,
        item_id: ItemId,
        starting_price: u64,
        end_date: i64,
        strategy: AuctionStrategy,
    ) -> (r: Self)
        ensures
            r == (Auction { id, item_id, starting_price, end_date, strategy }),
    {
        Auction { id, item_id, starting_price, end_date, strategy }
    }

    /// An auction with a fresh random identifier.
    pub fn new(item_id: ItemId, starting_price: u64, end_date: i64, strategy: AuctionStrategy) -> (r:
        Self)
        ensures
            r == (Auction { id: r.id, item_id, starting_price, end_date, strategy }),
    {
        Auction::with_id(Id::gen(), item_id, starting_price, end_date, strategy)
    }

    /// Whether the auction still runs at `now`: its end lies strictly ahead.
    pub open spec fn ongoing_at(self, now: i64) -> bool {
        self.end_date > now
    }

    /// Whether the auction still runs at `now`.
    pub fn is_ongoing(&self, now: i64) -> (r: bool)
        ensures
            r == self.ongoing_at(now),
    {
        self.end_date > now
    }
}

impl AuctionWithItem {
    /// Puts the fields of an auction and of its item side by side.
    pub fn new(
        id: AuctionId,
        item_id: ItemId,
        starting_price: u64,
        end_date: i64,
        brief: String,
        description: String,
        category: Category,
        user_id: UserId,
        strategy: AuctionStrategy,
    ) -> (r: Self)
        ensures
            r.id == id,
            r.item_id == item_id,
            r.starting_price == starting_price,
            r.end_date == end_date,
            r.brief == brief,
            r.description == description,
            r.category == category,
            r.user_id == user_id,
            r.strategy == strategy,
    {
        AuctionWithItem {
            id,
            item_id,
            starting_price,
            end_date,
            brief,
            description,
            category,
            user_id,
            strategy,
        }
    }

    /// The auction alone, without the item's fields.
    pub open spec fn auction(self) -> Auction {
        Auction {
            id: self.id,
            item_id: self.item_id,
            starting_price: self.starting_price,
            end_date: self.end_date,
            strategy: self.strategy,
        }
    }
}

impl Bid {
    /// A bid with the given identifier.
    pub fn with_id(id: BidId, value: u64, auction_id: AuctionId, user_id: UserId) -> (r: Self)
        ensures
            r == (Bid { id, value, auction_id, user_id }),
    {
        Bid { id, value, auction_id, user_id }
    }

    /// A bid with a fresh random identifier.
    pub fn new(value: u64, auction_id: AuctionId, user_id: UserId) -> (r: Self)
        ensures
            r == (Bid { id: r.id, value, auction_id, user_id }),
    {
        Bid::with_id(Id::gen(), value, auction_id, user_id)
    }
}

impl BidWithUsername {
    /// The bid alone, without the bidder's name.
    pub open spec fn bid(self) -> Bid {
        Bid { id: self.id, value: self.value, auction_id: self.auction_id, user_id: self.user_id }
    }
}

} // verus!
