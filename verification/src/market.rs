//! A mathematical model of the store: who owns which item, which auctions
//! exist, and which bids each has taken. The laws of the engine are stated
//! over it.

use crate::entities::{Auction, Bid, BidWithUsername};
use crate::highest::{highest, is_highest, lemma_highest_exists};
use crate::store::{StoreCall, StoreReply};
use vstd::prelude::*;

verus! {

/// The state of the marketplace. Items, auctions and users go by the number
/// of their identifier.
pub struct Market {
    /// The owner of each item.
    pub owners: Map<u128, u128>,
    /// The auctions that exist.
    pub auctions: Map<u128, Auction>,
    /// The bids that each auction has taken, in the order recorded.
    pub bids: Map<u128, Seq<Bid>>,
}

/// Every bid listed is one of `recorded`, and every one of `recorded` is
/// listed. The order of the listing is left open.
#[verifier::opaque]
pub open spec fn lists_exactly(listed: Seq<BidWithUsername>, recorded: Seq<Bid>) -> bool {
    &&& forall|k: int|
        0 <= k < listed.len() ==> exists|i: int|
            0 <= i < recorded.len() && #[trigger] recorded[i] == (#[trigger] listed[k]).bid()
    &&& forall|i: int|
        0 <= i < recorded.len() ==> exists|k: int|
            0 <= k < listed.len() && (#[trigger] listed[k]).bid() == #[trigger] recorded[i]
}

/// The highest bid of a faithful listing is a recorded bid that no recorded
/// bid exceeds; the listing is empty exactly where nothing is recorded.
pub proof fn lemma_highest_listed(listed: Seq<BidWithUsername>, recorded: Seq<Bid>)
    requires
        lists_exactly(listed, recorded),
    ensures
        listed.len() == 0 <==> recorded.len() == 0,
        highest(listed) is None <==> listed.len() == 0,
        highest(listed) matches Some(top) ==> {
            &&& is_highest(listed, top)
            &&& forall|i: int|
                0 <= i < recorded.len() ==> (#[trigger] recorded[i]).value <= listed[top].value
            &&& exists|w: int| 0 <= w < recorded.len() && #[trigger] recorded[w] == listed[top].bid()
        },
{
    reveal(lists_exactly);
    if listed.len() > 0 {
        let top = lemma_highest_exists(listed);
        let w = choose|w: int| 0 <= w < recorded.len() && #[trigger] recorded[w] == listed[top].bid();
        assert forall|i: int| 0 <= i < recorded.len() implies (#[trigger] recorded[i]).value
            <= listed[top].value by {
            let k = choose|k: int| 0 <= k < listed.len() && (#[trigger] listed[k]).bid() == recorded[i];
            assert(listed[k].value <= listed[top].value);
        }
    } else if recorded.len() > 0 {
        let k = choose|k: int| 0 <= k < listed.len() && (#[trigger] listed[k]).bid() == recorded[0];
    }
}

impl Market {
    /// The bids that an auction has taken.
    pub open spec fn bids_of(self, auction: u128) -> Seq<Bid> {
        if self.bids.contains_key(auction) {
            self.bids[auction]
        } else {
            Seq::empty()
        }
    }

    /// Every auction is filed under its own identifier and sells an item
    /// that exists, and every bid is filed under its auction.
    pub open spec fn well_formed(self) -> bool {
        &&& forall|id: u128| #[trigger]
            self.auctions.contains_key(id) ==> self.auctions[id].id.value == id
                && self.owners.contains_key(self.auctions[id].item_id.value)
        &&& forall|id: u128, i: int|
            0 <= i < self.bids_of(id).len() ==> (#[trigger] self.bids_of(id)[i]).auction_id.value
                == id
    }

    /// The auction `id` exists and has not ended at `now`.
    pub open spec fn ongoing(self, id: u128, now: i64) -> bool {
        self.auctions.contains_key(id) && self.auctions[id].end_date > now
    }

    /// No item has two auctions that are ongoing at `now`.
    pub open spec fn one_ongoing_per_item(self, now: i64) -> bool {
        forall|a: u128, b: u128|
            #![trigger self.auctions.contains_key(a), self.auctions.contains_key(b)]
            self.ongoing(a, now) && self.ongoing(b, now) && self.auctions[a].item_id.value
                == self.auctions[b].item_id.value ==> a == b
    }

    /// On every auction, each bid is worth strictly more than every bid
    /// recorded before it.
    pub open spec fn bids_increase(self) -> bool {
        forall|id: u128, i: int, j: int|
            0 <= i < j < self.bids_of(id).len() ==> (#[trigger] self.bids_of(id)[i]).value < (
            #[trigger] self.bids_of(id)[j]).value
    }

    /// The market after the store has performed `call`.
    pub open spec fn after(self, call: StoreCall) -> Market {
        match call {
            StoreCall::InsertAuction(auction) => Market {
                auctions: self.auctions.insert(auction.id.value, auction),
                ..self
            },
            StoreCall::InsertBid(bid) => Market {
                bids: self.bids.insert(
                    bid.auction_id.value,
                    self.bids_of(bid.auction_id.value).push(bid),
                ),
                ..self
            },
            StoreCall::ChangeOwner(item, owner) => if self.owners.contains_key(item.value) {
                Market { owners: self.owners.insert(item.value, owner.value), ..self }
            } else {
                self
            },
            StoreCall::DeleteBids(auction) => Market {
                bids: self.bids.remove(auction.value),
                ..self
            },
            StoreCall::DeleteAuction(auction) => Market {
                auctions: self.auctions.remove(auction.value),
                ..self
            },
            StoreCall::InsertItem(item) => Market {
                owners: self.owners.insert(item.id.value, item.user_id.value),
                ..self
            },
            _ => self,
        }
    }

    /// `reply` is what a store in this state, working without fault, may
    /// answer to `call` at time `now`. The model holds neither users nor
    /// what an item is beyond its owner, so of calls about those it only
    /// fixes the kind of reply.
    pub open spec fn answers(self, call: StoreCall, now: i64, reply: StoreReply) -> bool {
        match call {
            StoreCall::FindItem(id) => match reply {
                StoreReply::Item(Some(item)) => self.owners.contains_key(id.value) && item.id.value
                    == id.value && item.user_id.value == self.owners[id.value],
                StoreReply::Item(None) => !self.owners.contains_key(id.value),
                _ => false,
            },
            StoreCall::FindOngoingAuctionForItem(item) => match reply {
                StoreReply::Auction(Some(auction)) => self.ongoing(auction.id.value, now)
                    && self.auctions[auction.id.value] == auction && auction.item_id.value
                    == item.value,
                StoreReply::Auction(None) => forall|id: u128|
                    !(#[trigger] self.ongoing(id, now) && self.auctions[id].item_id.value
                        == item.value),
                _ => false,
            },
            StoreCall::FindAuction(id) => match reply {
                StoreReply::AuctionWithItem(Some(found)) => self.auctions.contains_key(id.value)
                    && found.auction() == self.auctions[id.value] && self.owners.contains_key(
                    found.item_id.value,
                ) && found.user_id.value == self.owners[found.item_id.value],
                StoreReply::AuctionWithItem(None) => !self.auctions.contains_key(id.value),
                _ => false,
            },
            StoreCall::FindOngoingAuction(id) => match reply {
                StoreReply::AuctionWithItem(Some(found)) => self.ongoing(id.value, now)
                    && found.auction() == self.auctions[id.value] && self.owners.contains_key(
                    found.item_id.value,
                ) && found.user_id.value == self.owners[found.item_id.value],
                StoreReply::AuctionWithItem(None) => !self.ongoing(id.value, now),
                _ => false,
            },
            StoreCall::FindExpiredAuctions => match reply {
                StoreReply::Auctions(listed) => {
                    &&& forall|k: int|
                        0 <= k < listed@.len() ==> {
                            let auction = #[trigger] listed@[k];
                            self.auctions.contains_key(auction.id.value)
                                && self.auctions[auction.id.value] == auction && auction.end_date
                                <= now
                        }
                    &&& forall|id: u128|
                        #[trigger] self.auctions.contains_key(id) && self.auctions[id].end_date
                            <= now ==> listed@.contains(self.auctions[id])
                },
                _ => false,
            },
            StoreCall::ListBids(auction) => match reply {
                StoreReply::Bids(listed) => lists_exactly(listed@, self.bids_of(auction.value)),
                _ => false,
            },
            StoreCall::InsertAuction(auction) => reply == StoreReply::Auction(Some(auction)),
            StoreCall::InsertBid(bid) => reply == StoreReply::Bid(Some(bid)),
            StoreCall::ChangeOwner(_, _) => reply is Item,
            StoreCall::DeleteBids(_) => reply == StoreReply::Done,
            StoreCall::DeleteAuction(_) => reply == StoreReply::Done,
            StoreCall::FindOngoingAuctions(_) => reply is AuctionsWithItems,
            StoreCall::InsertItem(_) => reply is Item,
            StoreCall::ListItemsOfUser(_, _) => reply is Items,
            StoreCall::FindUser(_) => reply is User,
            StoreCall::FindUserByEmail(_) => reply is User,
            StoreCall::FindUserByUsername(_) => reply is User,
            StoreCall::InsertUser(_) => reply is User,
        }
    }
}

} // verus!
