//! What the engine guarantees of a marketplace whose store answers
//! truthfully, stated over the model of the store and proved of the use
//! cases as they are.

use crate::clock::a_minute_ahead;
use crate::confirm_auction::ConfirmAuctionUseCase;
use crate::create_auction::CreateAuctionUseCase;
use crate::create_bid::CreateBidUseCase;
use crate::entities::AuctionStrategy;
use crate::error::AppError;
use crate::handle_expired_auction::HandleExpiredAuctionUseCase;
use crate::handle_expired_auctions::{
    due, is_due, law_sweep_picks_only_the_due, HandleExpiredAuctionsUseCase,
};
use crate::id::{AuctionId, BidId, ItemId, UserId};
use crate::market::{lemma_highest_listed, Market};
use crate::store::{Step, StoreCall, StoreReply};
use vstd::prelude::*;

verus! {

/// Runs the settling of an auction from `step` against the market: each call
/// takes effect, and the next reply of `replies` is handed back. The result
/// is the market at the end and the step at which the replies ran out or
/// the use case finished.
pub open spec fn settling_run(
    market: Market,
    step: Step<HandleExpiredAuctionUseCase, ()>,
    replies: Seq<StoreReply>,
) -> (Market, Step<HandleExpiredAuctionUseCase, ()>)
    decreases replies.len(),
{
    match step {
        Step::Call(state, call) => if replies.len() == 0 {
            (market, step)
        } else {
            settling_run(market.after(call), state.next(replies[0]), replies.drop_first())
        },
        Step::Finish(_) => (market, step),
    }
}

/// Every reply used in such a run is one that the store, in the state it
/// was in when asked, may truthfully give.
pub open spec fn settling_is_truthful(
    market: Market,
    step: Step<HandleExpiredAuctionUseCase, ()>,
    replies: Seq<StoreReply>,
    now: i64,
) -> bool
    decreases replies.len(),
{
    match step {
        Step::Call(state, call) => replies.len() == 0 || (market.answers(call, now, replies[0])
            && settling_is_truthful(
            market.after(call),
            state.next(replies[0]),
            replies.drop_first(),
            now,
        )),
        Step::Finish(_) => true,
    }
}

/// An auction that has ended at one instant has ended at every later one:
/// if no item has two ongoing auctions now, none has two later.
pub proof fn law_one_ongoing_persists(market: Market, now: i64, later: i64)
    requires
        market.one_ongoing_per_item(now),
        now <= later,
    ensures
        market.one_ongoing_per_item(later),
{
    assert forall|a: u128, b: u128|
        #![trigger market.auctions.contains_key(a), market.auctions.contains_key(b)]
        market.ongoing(a, later) && market.ongoing(b, later) && market.auctions[a].item_id.value
            == market.auctions[b].item_id.value implies a == b by {
        assert(market.ongoing(a, now) && market.ongoing(b, now));
    }
}

/// Only the recording of a new auction can give an item a second ongoing
/// auction: every other call leaves at most one per item.
pub proof fn law_only_opening_adds_auctions(market: Market, call: StoreCall, now: i64)
    requires
        market.one_ongoing_per_item(now),
        !(call is InsertAuction),
    ensures
        market.after(call).one_ongoing_per_item(now),
{
    let next = market.after(call);
    assert forall|a: u128, b: u128|
        #![trigger next.auctions.contains_key(a), next.auctions.contains_key(b)]
        next.ongoing(a, now) && next.ongoing(b, now) && next.auctions[a].item_id.value
            == next.auctions[b].item_id.value implies a == b by {
        assert(market.ongoing(a, now) && market.ongoing(b, now));
    }
}

/// Opening an auction never gives an item a second ongoing auction. Against
/// a store that answers truthfully at time `now`, the use case records an
/// auction only for an item that the acting user owns and that has no
/// ongoing auction, and only one that ends a minute or more after `now`.
pub proof fn law_opening_keeps_one_ongoing(
    market: Market,
    user: UserId,
    item_id: ItemId,
    starting_price: u64,
    end_date: i64,
    strategy: AuctionStrategy,
    now: i64,
    end_is_date: bool,
    fresh: AuctionId,
    found_item: StoreReply,
    found_ongoing: StoreReply,
)
    requires
        market.well_formed(),
        market.one_ongoing_per_item(now),
        !market.auctions.contains_key(fresh.value),
        market.answers(StoreCall::FindItem(item_id), now, found_item),
        market.answers(StoreCall::FindOngoingAuctionForItem(item_id), now, found_ongoing),
    ensures
        ({
            let asked = CreateAuctionUseCase::AwaitingItem {
                user,
                item_id,
                starting_price,
                end_date,
                strategy,
            };
            &&& CreateAuctionUseCase::first(user, Some(item_id), starting_price, end_date, strategy)
                == Step::<CreateAuctionUseCase, ()>::Call(asked, StoreCall::FindItem(item_id))
            &&& asked.next(found_item, now, end_is_date, fresh) matches Step::Call(checked, second)
                ==> {
                &&& second == StoreCall::FindOngoingAuctionForItem(item_id)
                &&& market.owners[item_id.value] == user.value
                &&& checked.next(found_ongoing, now, end_is_date, fresh) matches Step::Call(
                    _,
                    third,
                ) ==> {
                    &&& third matches StoreCall::InsertAuction(auction) && auction.id == fresh
                        && auction.item_id == item_id && auction.end_date == end_date
                        && a_minute_ahead(end_date, now)
                    &&& market.after(third).one_ongoing_per_item(now)
                    &&& market.after(third).well_formed()
                }
            }
        }),
{
    let asked = CreateAuctionUseCase::AwaitingItem {
        user,
        item_id,
        starting_price,
        end_date,
        strategy,
    };
    match asked.next(found_item, now, end_is_date, fresh) {
        Step::Call(checked, second) => {
            match checked.next(found_ongoing, now, end_is_date, fresh) {
                Step::Call(_, third) => {
                    let next = market.after(third);
                    assert(found_ongoing == StoreReply::Auction(None));
                    assert forall|a: u128, b: u128|
                        #![trigger next.auctions.contains_key(a), next.auctions.contains_key(b)]
                        next.ongoing(a, now) && next.ongoing(b, now)
                            && next.auctions[a].item_id.value
                            == next.auctions[b].item_id.value implies a == b by {
                        if a != fresh.value && b != fresh.value {
                            assert(market.ongoing(a, now) && market.ongoing(b, now));
                        } else if a != fresh.value {
                            assert(market.ongoing(a, now));
                        } else if b != fresh.value {
                            assert(market.ongoing(b, now));
                        }
                    }
                    assert(next.well_formed()) by {
                        assert forall|id: u128, i: int| 0 <= i < next.bids_of(id).len() implies (
                        #[trigger] next.bids_of(id)[i]).auction_id.value == id by {
                            assert(next.bids_of(id) == market.bids_of(id));
                        }
                    }
                },
                Step::Finish(_) => {},
            }
        },
        Step::Finish(_) => {},
    }
}

/// An auction that would end less than a minute from now is never opened:
/// whatever the store answers, no auction is recorded and the use case does
/// not succeed; once the item, its owner and the absence of an ongoing
/// auction have been established, the refusal is `InvalidEndDate`. The
/// starting price plays no part.
pub proof fn law_short_auction_is_refused(
    state: CreateAuctionUseCase,
    reply: StoreReply,
    now: i64,
    end_is_date: bool,
    fresh: AuctionId,
)
    requires
        !(state is AwaitingInsert),
        !a_minute_ahead(state.end_date(), now),
    ensures
        state.next(reply, now, end_is_date, fresh) matches Step::Call(_, call) ==> !(call
            is InsertAuction),
        state.next(reply, now, end_is_date, fresh) matches Step::Finish(outcome) ==> outcome is Err,
        state is AwaitingOngoing && reply == StoreReply::Auction(None) ==> state.next(
            reply,
            now,
            end_is_date,
            fresh,
        ) == Step::<CreateAuctionUseCase, ()>::Finish(Err(AppError::InvalidEndDate)),
        state.next(reply, now, end_is_date, fresh) matches Step::Call(later, _) ==> later.end_date()
            == state.end_date() && !(later is AwaitingInsert),
{
}

/// Where nothing else stands in the way, an auction that would end less
/// than a minute from now is refused with `InvalidEndDate`: the item exists,
/// the acting user owns it, and it has no ongoing auction.
pub proof fn law_short_auction_gets_invalid_end_date(
    market: Market,
    user: UserId,
    item_id: ItemId,
    starting_price: u64,
    end_date: i64,
    strategy: AuctionStrategy,
    now: i64,
    end_is_date: bool,
    fresh: AuctionId,
    found_item: StoreReply,
    found_ongoing: StoreReply,
)
    requires
        !a_minute_ahead(end_date, now),
        market.owners.contains_key(item_id.value),
        market.owners[item_id.value] == user.value,
        forall|id: u128|
            !(#[trigger] market.ongoing(id, now) && market.auctions[id].item_id.value
                == item_id.value),
        market.answers(StoreCall::FindItem(item_id), now, found_item),
        market.answers(StoreCall::FindOngoingAuctionForItem(item_id), now, found_ongoing),
    ensures
        ({
            let asked = CreateAuctionUseCase::AwaitingItem {
                user,
                item_id,
                starting_price,
                end_date,
                strategy,
            };
            let checked = CreateAuctionUseCase::AwaitingOngoing {
                item_id,
                starting_price,
                end_date,
                strategy,
            };
            &&& asked.next(found_item, now, end_is_date, fresh) == Step::<
                CreateAuctionUseCase,
                (),
            >::Call(checked, StoreCall::FindOngoingAuctionForItem(item_id))
            &&& checked.next(found_ongoing, now, end_is_date, fresh) == Step::<
                CreateAuctionUseCase,
                (),
            >::Finish(Err(AppError::InvalidEndDate))
        }),
{
    match found_ongoing {
        StoreReply::Auction(Some(auction)) => {
            assert(market.ongoing(auction.id.value, now));
        },
        _ => {},
    }
}

/// Bids on an auction only ever go up. Against a store that answers
/// truthfully, the use case records a bid only if it is worth at least the
/// starting price and strictly more than every bid the auction has taken,
/// so each auction's bids stay strictly increasing in the order recorded.
pub proof fn law_bids_increase(
    market: Market,
    bidder: UserId,
    auction_id: AuctionId,
    value: u64,
    now: i64,
    fresh: BidId,
    found: StoreReply,
    listed: StoreReply,
)
    requires
        market.well_formed(),
        market.bids_increase(),
        market.answers(StoreCall::FindOngoingAuction(auction_id), now, found),
        market.answers(StoreCall::ListBids(auction_id), now, listed),
    ensures
        ({
            let asked = CreateBidUseCase::AwaitingAuction { bidder, auction_id, value };
            &&& CreateBidUseCase::first(bidder, Some(auction_id), value) == Step::<CreateBidUseCase, ()>::Call(
                asked,
                StoreCall::FindOngoingAuction(auction_id),
            )
            &&& asked.next(found, now, fresh) matches Step::Call(checked, second) ==> {
                &&& second == StoreCall::ListBids(auction_id)
                &&& market.ongoing(auction_id.value, now)
                &&& checked.next(listed, now, fresh) matches Step::Call(_, third) ==> {
                    &&& third matches StoreCall::InsertBid(bid) && bid.value == value
                        && bid.auction_id == auction_id && bid.user_id == bidder
                    &&& value >= market.auctions[auction_id.value].starting_price
                    &&& forall|i: int|
                        0 <= i < market.bids_of(auction_id.value).len() ==> (
                        #[trigger] market.bids_of(auction_id.value)[i]).value < value
                    &&& market.after(third).bids_increase()
                    &&& market.after(third).well_formed()
                }
            }
        }),
{
    let asked = CreateBidUseCase::AwaitingAuction { bidder, auction_id, value };
    match asked.next(found, now, fresh) {
        Step::Call(checked, second) => {
            match checked.next(listed, now, fresh) {
                Step::Call(_, third) => {
                    let before = market.bids_of(auction_id.value);
                    let next = market.after(third);
                    let shown = listed->Bids_0@;
                    lemma_highest_listed(shown, before);
                    assert forall|i: int| 0 <= i < before.len() implies (#[trigger] before[i]).value
                        < value by {
                        let top = crate::highest::highest(shown).unwrap();
                        assert(before[i].value <= shown[top].value);
                    }
                    assert forall|id: u128, i: int, j: int|
                        0 <= i < j < next.bids_of(id).len() implies (#[trigger] next.bids_of(
                        id,
                    )[i]).value < (#[trigger] next.bids_of(id)[j]).value by {
                        if id == auction_id.value {
                            assert(next.bids_of(id) == before.push(third->InsertBid_0));
                            if j < before.len() {
                                assert(market.bids_of(id)[i].value < market.bids_of(id)[j].value);
                            } else {
                                assert(before[i].value < value);
                            }
                        } else {
                            assert(next.bids_of(id) == market.bids_of(id));
                            assert(market.bids_of(id)[i].value < market.bids_of(id)[j].value);
                        }
                    }
                    assert forall|id: u128, i: int| 0 <= i < next.bids_of(id).len() implies (
                    #[trigger] next.bids_of(id)[i]).auction_id.value == id by {
                        if id == auction_id.value {
                            assert(next.bids_of(id) == before.push(third->InsertBid_0));
                            if i < before.len() {
                                assert(market.bids_of(id)[i].auction_id.value == id);
                            }
                        } else {
                            assert(next.bids_of(id) == market.bids_of(id));
                        }
                    }
                },
                Step::Finish(_) => {},
            }
        },
        Step::Finish(_) => {},
    }
}

/// Only the recording of a new bid adds to an auction's bids: every other
/// call leaves each auction's bids strictly increasing.
pub proof fn law_only_bidding_adds_bids(market: Market, call: StoreCall)
    requires
        market.bids_increase(),
        !(call is InsertBid),
    ensures
        market.after(call).bids_increase(),
{
    let next = market.after(call);
    assert forall|id: u128, i: int, j: int| 0 <= i < j < next.bids_of(id).len() implies (
    #[trigger] next.bids_of(id)[i]).value < (#[trigger] next.bids_of(id)[j]).value by {
        assert(next.bids_of(id) == market.bids_of(id));
        assert(market.bids_of(id)[i].value < market.bids_of(id)[j].value);
    }
}

/// Auctions are recorded by the opening of an auction alone, and bids by
/// the intake of a bid alone: bidding, confirming and settling never ask the
/// store to record an auction, and opening, confirming and settling never
/// ask it to record a bid.
pub proof fn law_who_records_what(
    opening: CreateAuctionUseCase,
    bidding: CreateBidUseCase,
    confirming: ConfirmAuctionUseCase,
    settling: HandleExpiredAuctionUseCase,
    reply: StoreReply,
    now: i64,
    end_is_date: bool,
    auction: AuctionId,
    bid: BidId,
)
    ensures
        bidding.next(reply, now, bid) matches Step::Call(_, call) ==> !(call is InsertAuction),
        confirming.next(reply, now) matches Step::Call(_, call) ==> !(call is InsertAuction) && !(call
            is InsertBid),
        settling.next(reply) matches Step::Call(_, call) ==> !(call is InsertAuction) && !(call
            is InsertBid),
        opening.next(reply, now, end_is_date, auction) matches Step::Call(_, call) ==> !(call
            is InsertBid),
{
}

/// The sweep settles only auctions of the market that have ended and settle
/// by themselves: what it picks from a truthful list of the ended auctions
/// are such auctions, each under its own identifier.
pub proof fn law_sweep_settles_the_due(market: Market, listed: StoreReply, now: i64, k: int)
    requires
        market.well_formed(),
        market.answers(StoreCall::FindExpiredAuctions, now, listed),
        HandleExpiredAuctionsUseCase::targets(listed, now) matches Ok(ids) && 0 <= k < ids.len(),
    ensures
        ({
            let id = HandleExpiredAuctionsUseCase::targets(listed, now).unwrap()[k];
            &&& market.auctions.contains_key(id.value)
            &&& market.auctions[id.value].id == id
            &&& market.auctions[id.value].end_date <= now
            &&& market.auctions[id.value].strategy == AuctionStrategy::Standard
        }),
{
    let auctions = listed->Auctions_0@;
    law_sweep_picks_only_the_due(auctions, now, k);
    let i = choose|i: int|
        0 <= i < auctions.len() && is_due(#[trigger] auctions[i], now) && auctions[i].id == due(
            auctions,
            now,
        )[k];
    assert(market.auctions[auctions[i].id.value] == auctions[i]);
}

/// The owner of an item cannot bid on it: on an ongoing auction the bid of
/// the owner is refused with `OwnerCannotBid` before the bids are even
/// looked at, whatever its value.
pub proof fn law_owner_cannot_bid(
    market: Market,
    bidder: UserId,
    auction_id: AuctionId,
    value: u64,
    now: i64,
    fresh: BidId,
    found: StoreReply,
)
    requires
        market.well_formed(),
        market.ongoing(auction_id.value, now),
        market.owners[market.auctions[auction_id.value].item_id.value] == bidder.value,
        market.answers(StoreCall::FindOngoingAuction(auction_id), now, found),
    ensures
        (CreateBidUseCase::AwaitingAuction { bidder, auction_id, value }).next(found, now, fresh)
            == Step::<CreateBidUseCase, ()>::Finish(Err(AppError::OwnerCannotBid)),
{
}

/// An auction that has not ended cannot be confirmed: the attempt is
/// refused with `CannotConfirmBeforeExpiry`, whoever makes it.
pub proof fn law_no_confirmation_before_expiry(
    market: Market,
    user: UserId,
    auction_id: AuctionId,
    is_confirmed: bool,
    now: i64,
    found: StoreReply,
)
    requires
        market.ongoing(auction_id.value, now),
        market.answers(StoreCall::FindAuction(auction_id), now, found),
    ensures
        (ConfirmAuctionUseCase::AwaitingAuction { user, auction_id, is_confirmed }).next(found, now)
            == Step::<ConfirmAuctionUseCase, ()>::Finish(Err(AppError::CannotConfirmBeforeExpiry)),
{
}

/// An auction that settles by itself takes no confirmation: once it has
/// ended, the attempt is refused with `WrongStrategyForConfirmation`.
pub proof fn law_standard_auction_takes_no_confirmation(
    market: Market,
    user: UserId,
    auction_id: AuctionId,
    is_confirmed: bool,
    now: i64,
    found: StoreReply,
)
    requires
        market.auctions.contains_key(auction_id.value),
        market.auctions[auction_id.value].end_date <= now,
        market.auctions[auction_id.value].strategy == AuctionStrategy::Standard,
        market.answers(StoreCall::FindAuction(auction_id), now, found),
    ensures
        (ConfirmAuctionUseCase::AwaitingAuction { user, auction_id, is_confirmed }).next(found, now)
            == Step::<ConfirmAuctionUseCase, ()>::Finish(
            Err(AppError::WrongStrategyForConfirmation),
        ),
{
}

/// What settling does. A run that the store answered truthfully to its end
/// succeeds and leaves neither the auction nor any of its bids. Where the
/// sale is confirmed and there was a bid, the item now belongs to a bidder
/// whose bid no other bid on the auction exceeded; otherwise every item
/// belongs to whom it belonged.
pub proof fn law_settling(
    market: Market,
    auction_id: AuctionId,
    confirmed: bool,
    replies: Seq<StoreReply>,
    now: i64,
)
    requires
        market.well_formed(),
        market.auctions.contains_key(auction_id.value),
        settling_is_truthful(
            market,
            HandleExpiredAuctionUseCase::first(Some(auction_id), confirmed),
            replies,
            now,
        ),
        settling_run(
            market,
            HandleExpiredAuctionUseCase::first(Some(auction_id), confirmed),
            replies,
        ).1 is Finish,
    ensures
        ({
            let (end, last) = settling_run(
                market,
                HandleExpiredAuctionUseCase::first(Some(auction_id), confirmed),
                replies,
            );
            let item = market.auctions[auction_id.value].item_id.value;
            let bids = market.bids_of(auction_id.value);
            &&& last == Step::<HandleExpiredAuctionUseCase, ()>::Finish(Ok(()))
            &&& !end.auctions.contains_key(auction_id.value)
            &&& end.bids_of(auction_id.value).len() == 0
            &&& end.auctions == market.auctions.remove(auction_id.value)
            &&& end.bids == market.bids.remove(auction_id.value)
            &&& if confirmed && bids.len() > 0 {
                exists|w: int|
                    0 <= w < bids.len() && (forall|i: int|
                        0 <= i < bids.len() ==> (#[trigger] bids[i]).value <= bids[w].value)
                        && end.owners == market.owners.insert(item, (#[trigger] bids[w]).user_id.value)
            } else {
                end.owners == market.owners
            }
        }),
{
    let id = auction_id.value;
    let bids = market.bids_of(id);
    let state0 = HandleExpiredAuctionUseCase::AwaitingAuction { auction_id, confirmed };
    let step0 = Step::<HandleExpiredAuctionUseCase, ()>::Call(state0, StoreCall::FindAuction(auction_id));
    assert(replies.len() > 0);
    let step1 = state0.next(replies[0]);
    let rest1 = replies.drop_first();
    assert(settling_run(market, step0, replies) == settling_run(market, step1, rest1));
    assert(settling_is_truthful(market, step1, rest1, now));
    let found = replies[0]->AuctionWithItem_0.unwrap();
    let item_id = found.item_id;
    assert(found.auction() == market.auctions[id]);
    let state1 = HandleExpiredAuctionUseCase::AwaitingBids { auction_id, item_id, confirmed };
    assert(step1 == Step::<HandleExpiredAuctionUseCase, ()>::Call(state1, StoreCall::ListBids(auction_id)));
    assert(rest1.len() > 0);
    let step2 = state1.next(rest1[0]);
    let rest2 = rest1.drop_first();
    assert(settling_run(market, step1, rest1) == settling_run(market, step2, rest2));
    assert(settling_is_truthful(market, step2, rest2, now));
    let shown = rest1[0]->Bids_0@;
    lemma_highest_listed(shown, bids);
    let removing = HandleExpiredAuctionUseCase::AwaitingBidsRemoved { auction_id };
    let step_remove = Step::<HandleExpiredAuctionUseCase, ()>::Call(removing, StoreCall::DeleteBids(auction_id));
    if confirmed && bids.len() > 0 {
        let top = crate::highest::highest(shown).unwrap();
        let winner = shown[top].user_id;
        let w = choose|w: int| 0 <= w < bids.len() && #[trigger] bids[w] == shown[top].bid();
        let handing = HandleExpiredAuctionUseCase::AwaitingTransfer { auction_id };
        let transfer = StoreCall::ChangeOwner(item_id, winner);
        assert(step2 == Step::<HandleExpiredAuctionUseCase, ()>::Call(handing, transfer));
        assert(rest2.len() > 0);
        let market3 = market.after(transfer);
        let step3 = handing.next(rest2[0]);
        let rest3 = rest2.drop_first();
        assert(settling_run(market, step2, rest2) == settling_run(market3, step3, rest3));
        assert(settling_is_truthful(market3, step3, rest3, now));
        assert(step3 == step_remove);
        assert(market3.owners == market.owners.insert(item_id.value, bids[w].user_id.value));
        assert forall|i: int| 0 <= i < bids.len() implies (#[trigger] bids[i]).value
            <= bids[w].value by {
            assert(bids[i].value <= shown[top].value);
        }
        lemma_settling_ends(market3, auction_id, rest3, now);
    } else {
        assert(step2 == step_remove);
        lemma_settling_ends(market, auction_id, rest2, now);
    }
}

/// The last two steps of settling: the bids go, then the auction.
proof fn lemma_settling_ends(market: Market, auction_id: AuctionId, replies: Seq<StoreReply>, now: i64)
    requires
        settling_is_truthful(
            market,
            Step::<HandleExpiredAuctionUseCase, ()>::Call(
                HandleExpiredAuctionUseCase::AwaitingBidsRemoved { auction_id },
                StoreCall::DeleteBids(auction_id),
            ),
            replies,
            now,
        ),
        settling_run(
            market,
            Step::<HandleExpiredAuctionUseCase, ()>::Call(
                HandleExpiredAuctionUseCase::AwaitingBidsRemoved { auction_id },
                StoreCall::DeleteBids(auction_id),
            ),
            replies,
        ).1 is Finish,
    ensures
        settling_run(
            market,
            Step::<HandleExpiredAuctionUseCase, ()>::Call(
                HandleExpiredAuctionUseCase::AwaitingBidsRemoved { auction_id },
                StoreCall::DeleteBids(auction_id),
            ),
            replies,
        ) == (
            Market {
                owners: market.owners,
                auctions: market.auctions.remove(auction_id.value),
                bids: market.bids.remove(auction_id.value),
            },
            Step::<HandleExpiredAuctionUseCase, ()>::Finish(Ok(())),
        ),
{
    let removing = HandleExpiredAuctionUseCase::AwaitingBidsRemoved { auction_id };
    let step0 = Step::<HandleExpiredAuctionUseCase, ()>::Call(removing, StoreCall::DeleteBids(auction_id));
    assert(replies.len() > 0);
    let market1 = market.after(StoreCall::DeleteBids(auction_id));
    let step1 = removing.next(replies[0]);
    let rest1 = replies.drop_first();
    assert(settling_run(market, step0, replies) == settling_run(market1, step1, rest1));
    assert(settling_is_truthful(market1, step1, rest1, now));
    let closing = HandleExpiredAuctionUseCase::AwaitingAuctionRemoved;
    assert(step1 == Step::<HandleExpiredAuctionUseCase, ()>::Call(closing, StoreCall::DeleteAuction(auction_id)));
    assert(rest1.len() > 0);
    let market2 = market1.after(StoreCall::DeleteAuction(auction_id));
    let step2 = closing.next(rest1[0]);
    let rest2 = rest1.drop_first();
    assert(settling_run(market1, step1, rest1) == settling_run(market2, step2, rest2));
    assert(step2 == Step::<HandleExpiredAuctionUseCase, ()>::Finish(Ok(())));
}

/// Settling twice settles once. After an auction has been settled, a second
/// attempt finds no auction and ends with `AuctionNotFound` on its first
/// reply: it asks for no change of owner.
pub proof fn law_settled_auction_is_gone(
    market: Market,
    auction_id: AuctionId,
    confirmed: bool,
    replies: Seq<StoreReply>,
    now: i64,
    again: bool,
    later: i64,
    found: StoreReply,
)
    requires
        market.well_formed(),
        market.auctions.contains_key(auction_id.value),
        settling_is_truthful(
            market,
            HandleExpiredAuctionUseCase::first(Some(auction_id), confirmed),
            replies,
            now,
        ),
        settling_run(
            market,
            HandleExpiredAuctionUseCase::first(Some(auction_id), confirmed),
            replies,
        ).1 is Finish,
        settling_run(
            market,
            HandleExpiredAuctionUseCase::first(Some(auction_id), confirmed),
            replies,
        ).0.answers(StoreCall::FindAuction(auction_id), later, found),
    ensures
        ({
            let settled = settling_run(
                market,
                HandleExpiredAuctionUseCase::first(Some(auction_id), confirmed),
                replies,
            ).0;
            settling_run(
                settled,
                HandleExpiredAuctionUseCase::first(Some(auction_id), again),
                seq![found],
            ) == (
                settled,
                Step::<HandleExpiredAuctionUseCase, ()>::Finish(Err(AppError::AuctionNotFound)),
            )
        }),
{
    law_settling(market, auction_id, confirmed, replies, now);
    let settled = settling_run(
        market,
        HandleExpiredAuctionUseCase::first(Some(auction_id), confirmed),
        replies,
    ).0;
    let one = seq![found];
    assert(one.len() == 1 && one[0] == found);
    let state = HandleExpiredAuctionUseCase::AwaitingAuction { auction_id, confirmed: again };
    let step = state.next(found);
    assert(step == Step::<HandleExpiredAuctionUseCase, ()>::Finish(Err(AppError::AuctionNotFound)));
    assert(settling_run(settled, Step::<HandleExpiredAuctionUseCase, ()>::Call(state, StoreCall::FindAuction(auction_id)), one)
        == settling_run(settled, step, one.drop_first()));
}

} // verus!
