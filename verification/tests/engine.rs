use auction_core::confirm_auction::{AuctionConfirmationRequest, ConfirmAuctionUseCase};
use auction_core::create_auction::{
    check_end_date, validate_end_date, CreateAuctionRequest, CreateAuctionUseCase,
};
use auction_core::create_bid::{CreateBidRequest, CreateBidUseCase};
use auction_core::entities::{
    Auction, AuctionStrategy, AuctionWithItem, Bid, BidWithUsername, Category, Item, User,
};
use auction_core::error::{AppError, ErrorKind};
use auction_core::handle_expired_auction::HandleExpiredAuctionUseCase;
use auction_core::handle_expired_auctions::{HandleExpiredAuctionsUseCase, SweepReport};
use auction_core::highest::highest_bid;
use auction_core::id::{AuctionId, Id, ItemId, UserId};
use auction_core::store::{Step, StoreCall, StoreReply};

const MINUTE: i64 = 60_000;
const NOW: i64 = 1_700_000_000_000;

fn uuid_text(n: u128) -> String {
    format!("00000000-0000-0000-0000-{:012x}", n)
}

fn user(n: u128) -> User {
    User::with_id(Id::new(n), format!("user{}", n), format!("u{}@example.org", n), "hash".to_string())
}

/// A store held in memory, for driving the use cases.
struct MemoryStore {
    now: i64,
    items: Vec<Item>,
    auctions: Vec<Auction>,
    bids: Vec<BidWithUsername>,
    log: Vec<String>,
    fail_on: Option<&'static str>,
}

impl MemoryStore {
    fn new(now: i64) -> Self {
        MemoryStore { now, items: vec![], auctions: vec![], bids: vec![], log: vec![], fail_on: None }
    }

    fn add_item(&mut self, id: u128, owner: u128) {
        self.items.push(Item::with_id(
            Id::new(id),
            "brief".to_string(),
            "description".to_string(),
            vec![1, 2, 3],
            Id::new(owner),
            Category::Art,
        ));
    }

    fn add_auction(&mut self, id: u128, item: u128, price: u64, end: i64, strategy: AuctionStrategy) {
        self.auctions.push(Auction::with_id(Id::new(id), Id::new(item), price, end, strategy));
    }

    fn add_bid(&mut self, id: u128, auction: u128, bidder: u128, value: u64) {
        self.bids.push(BidWithUsername {
            id: Id::new(id),
            value,
            auction_id: Id::new(auction),
            user_id: Id::new(bidder),
            username: format!("user{}", bidder),
        });
    }

    fn owner_of(&self, item: u128) -> u128 {
        self.items.iter().find(|i| i.id.value == item).unwrap().user_id.value
    }

    fn joined(&self, a: &Auction) -> Option<AuctionWithItem> {
        self.items.iter().find(|i| i.id.value == a.item_id.value).map(|i| {
            AuctionWithItem::new(
                a.id,
                a.item_id,
                a.starting_price,
                a.end_date,
                i.brief.clone(),
                i.description.clone(),
                i.category,
                i.user_id,
                a.strategy,
            )
        })
    }

    fn name_of(call: &StoreCall) -> &'static str {
        match call {
            StoreCall::FindItem(_) => "find_item",
            StoreCall::FindOngoingAuctionForItem(_) => "find_ongoing_for_item",
            StoreCall::InsertAuction(_) => "insert_auction",
            StoreCall::FindAuction(_) => "find_auction",
            StoreCall::FindOngoingAuction(_) => "find_ongoing_auction",
            StoreCall::FindExpiredAuctions => "find_expired",
            StoreCall::ListBids(_) => "list_bids",
            StoreCall::InsertBid(_) => "insert_bid",
            StoreCall::ChangeOwner(_, _) => "change_owner",
            StoreCall::DeleteBids(_) => "delete_bids",
            StoreCall::DeleteAuction(_) => "delete_auction",
            _ => "other",
        }
    }

    fn perform(&mut self, call: StoreCall) -> StoreReply {
        let name = Self::name_of(&call);
        self.log.push(name.to_string());
        if self.fail_on == Some(name) {
            return StoreReply::Failed;
        }
        let now = self.now;
        match call {
            StoreCall::FindItem(id) => {
                StoreReply::Item(self.items.iter().find(|i| i.id.value == id.value).cloned())
            }
            StoreCall::FindOngoingAuctionForItem(item) => StoreReply::Auction(
                self.auctions
                    .iter()
                    .find(|a| a.item_id.value == item.value && a.end_date > now)
                    .copied(),
            ),
            StoreCall::InsertAuction(a) => {
                self.auctions.push(a);
                StoreReply::Auction(Some(a))
            }
            StoreCall::FindAuction(id) => StoreReply::AuctionWithItem(
                self.auctions.iter().find(|a| a.id.value == id.value).and_then(|a| self.joined(a)),
            ),
            StoreCall::FindOngoingAuction(id) => StoreReply::AuctionWithItem(
                self.auctions
                    .iter()
                    .find(|a| a.id.value == id.value && a.end_date > now)
                    .and_then(|a| self.joined(a)),
            ),
            StoreCall::FindExpiredAuctions => StoreReply::Auctions(
                self.auctions.iter().filter(|a| a.end_date <= now).copied().collect(),
            ),
            StoreCall::ListBids(id) => StoreReply::Bids(
                self.bids.iter().filter(|b| b.auction_id.value == id.value).cloned().collect(),
            ),
            StoreCall::InsertBid(b) => {
                self.add_bid(b.id.value, b.auction_id.value, b.user_id.value, b.value);
                StoreReply::Bid(Some(b))
            }
            StoreCall::ChangeOwner(item, owner) => {
                for i in self.items.iter_mut() {
                    if i.id.value == item.value {
                        i.user_id = owner;
                    }
                }
                StoreReply::Item(self.items.iter().find(|i| i.id.value == item.value).cloned())
            }
            StoreCall::DeleteBids(id) => {
                self.bids.retain(|b| b.auction_id.value != id.value);
                StoreReply::Done
            }
            StoreCall::DeleteAuction(id) => {
                self.auctions.retain(|a| a.id.value != id.value);
                StoreReply::Done
            }
            _ => StoreReply::Failed,
        }
    }
}

fn open_auction(
    store: &mut MemoryStore,
    who: &User,
    item: &str,
    price: u64,
    end: i64,
    strategy: AuctionStrategy,
    fresh: u128,
) -> Result<(), AppError> {
    let request = CreateAuctionRequest { item_id: item.to_string(), starting_price: price, end_date: end, strategy };
    let mut step = CreateAuctionUseCase::begin(who, &request);
    loop {
        match step {
            Step::Finish(outcome) => return outcome,
            Step::Call(state, call) => {
                let reply = store.perform(call);
                step = state.resume(reply, store.now, true, Id::new(fresh));
            }
        }
    }
}

fn place_bid(store: &mut MemoryStore, who: &User, auction: &str, value: u64, fresh: u128) -> Result<(), AppError> {
    let request = CreateBidRequest { value, auction_id: auction.to_string() };
    let mut step = CreateBidUseCase::begin(who, &request);
    loop {
        match step {
            Step::Finish(outcome) => return outcome,
            Step::Call(state, call) => {
                let reply = store.perform(call);
                step = state.resume(reply, store.now, Id::new(fresh));
            }
        }
    }
}

fn drive_settling(store: &mut MemoryStore, mut step: Step<HandleExpiredAuctionUseCase, ()>) -> Result<(), AppError> {
    loop {
        match step {
            Step::Finish(outcome) => return outcome,
            Step::Call(state, call) => {
                let reply = store.perform(call);
                step = state.execute(reply);
            }
        }
    }
}

fn settle(store: &mut MemoryStore, auction: &str) -> Result<(), AppError> {
    drive_settling(store, HandleExpiredAuctionUseCase::begin(auction))
}

fn confirm(store: &mut MemoryStore, who: &User, auction: &str, is_confirmed: bool) -> Result<(), AppError> {
    let mut step = ConfirmAuctionUseCase::begin(who, auction, AuctionConfirmationRequest { is_confirmed });
    loop {
        match step {
            Step::Finish(outcome) => return outcome,
            Step::Call(state, call) => {
                let reply = store.perform(call);
                step = state.resume(reply, store.now);
            }
        }
    }
}

fn sweep(store: &mut MemoryStore) -> Result<SweepReport, AppError> {
    let (state, call) = HandleExpiredAuctionsUseCase::begin();
    let reply = store.perform(call);
    let targets = state.resume(reply, store.now)?;
    let mut outcomes = Vec::new();
    for id in targets {
        outcomes.push(drive_settling(store, HandleExpiredAuctionsUseCase::settle(id)));
    }
    Ok(HandleExpiredAuctionsUseCase::report(&outcomes))
}

#[test]
fn identifiers_parse_and_print() {
    let id: Option<AuctionId> = Id::try_from("00000000-0000-0000-0000-00000000002a");
    assert_eq!(id.unwrap().value, 42);
    let bad: Option<AuctionId> = Id::try_from("invalid_id");
    assert!(bad.is_none());
    let printed = Id::<auction_core::id::ItemKind>::new(42).to_text();
    assert_eq!(printed, "00000000-0000-0000-0000-00000000002a");
    let upper: Option<ItemId> = Id::try_from("550E8400-E29B-41D4-A716-446655440000");
    assert_eq!(upper.unwrap().to_text(), "550e8400-e29b-41d4-a716-446655440000");
}

#[test]
fn generated_identifiers_differ() {
    let a: UserId = Id::gen();
    let b: UserId = Id::gen();
    assert_ne!(a.value, b.value);
    for id in [a, b] {
        assert_eq!((id.value >> 76) & 0xf, 4);
        assert_eq!((id.value >> 62) & 0x3, 2);
        let text = id.to_text();
        assert_eq!(&text[14..15], "4");
        assert!(["8", "9", "a", "b"].contains(&&text[19..20]));
    }
    assert!(a.same(&a.clone()));
    assert!(!a.same(&b));
}

#[test]
fn highest_bid_is_the_last_of_the_largest() {
    let mut store = MemoryStore::new(NOW);
    assert_eq!(highest_bid(&store.bids), None);
    store.add_bid(1, 9, 2, 10);
    store.add_bid(2, 9, 3, 25);
    store.add_bid(3, 9, 4, 17);
    assert_eq!(highest_bid(&store.bids), Some(1));
    store.add_bid(4, 9, 5, 25);
    assert_eq!(highest_bid(&store.bids), Some(3));
}

#[test]
fn end_date_must_be_a_minute_ahead() {
    assert_eq!(check_end_date(true, NOW + MINUTE, NOW), Ok(()));
    assert_eq!(check_end_date(true, NOW + MINUTE - 1, NOW), Err(AppError::InvalidEndDate));
    assert_eq!(check_end_date(false, NOW + 5 * MINUTE, NOW), Err(AppError::InvalidEndDate));
    assert_eq!(check_end_date(true, i64::MAX, i64::MAX), Err(AppError::InvalidEndDate));
    assert_eq!(check_end_date(true, i64::MAX, i64::MAX - MINUTE), Ok(()));
}

#[test]
fn end_date_is_checked_against_the_clock() {
    assert_eq!(validate_end_date(0), Err(AppError::InvalidEndDate));
    assert_eq!(validate_end_date(i64::MAX), Err(AppError::InvalidEndDate));
    let far = chrono::Utc::now().timestamp_millis() + 10 * MINUTE;
    assert_eq!(validate_end_date(far), Ok(()));
}

#[test]
fn auction_is_opened_for_the_owner() {
    let mut store = MemoryStore::new(NOW);
    store.add_item(1, 100);
    let r = open_auction(&mut store, &user(100), &uuid_text(1), 10, NOW + 2 * MINUTE, AuctionStrategy::Standard, 7);
    assert_eq!(r, Ok(()));
    assert_eq!(store.auctions.len(), 1);
    let a = store.auctions[0];
    assert_eq!((a.id.value, a.item_id.value, a.starting_price, a.end_date), (7, 1, 10, NOW + 2 * MINUTE));
    assert_eq!(a.strategy, AuctionStrategy::Standard);
    assert_eq!(store.log, vec!["find_item", "find_ongoing_for_item", "insert_auction"]);
    assert_eq!(store.owner_of(1), 100);
}

#[test]
fn opening_checks_come_in_order() {
    let mut store = MemoryStore::new(NOW);
    store.add_item(1, 100);
    store.add_auction(5, 1, 10, NOW + 10 * MINUTE, AuctionStrategy::Standard);
    // a malformed or unknown item comes first
    assert_eq!(
        open_auction(&mut store, &user(200), "invalid_id", 10, NOW, AuctionStrategy::Standard, 7),
        Err(AppError::ItemNotFound)
    );
    assert!(store.log.is_empty());
    assert_eq!(
        open_auction(&mut store, &user(200), &uuid_text(2), 10, NOW, AuctionStrategy::Standard, 7),
        Err(AppError::ItemNotFound)
    );
    // then ownership, even with an ongoing auction and a bad end date
    assert_eq!(
        open_auction(&mut store, &user(200), &uuid_text(1), 10, NOW, AuctionStrategy::Standard, 7),
        Err(AppError::NotItemOwner)
    );
    // then the ongoing auction, even with a bad end date
    assert_eq!(
        open_auction(&mut store, &user(100), &uuid_text(1), 10, NOW, AuctionStrategy::Standard, 7),
        Err(AppError::OngoingAuctionExists)
    );
    assert_eq!(store.auctions.len(), 1);
}

#[test]
fn short_auction_is_refused_whatever_the_price() {
    for price in [0u64, 10, u64::MAX] {
        let mut store = MemoryStore::new(NOW);
        store.add_item(1, 100);
        let r = open_auction(&mut store, &user(100), &uuid_text(1), price, NOW + MINUTE - 1, AuctionStrategy::Standard, 7);
        assert_eq!(r, Err(AppError::InvalidEndDate));
        assert!(store.auctions.is_empty());
    }
}

#[test]
fn an_ended_auction_does_not_block_a_new_one() {
    let mut store = MemoryStore::new(NOW);
    store.add_item(1, 100);
    store.add_auction(5, 1, 10, NOW, AuctionStrategy::Standard);
    let r = open_auction(&mut store, &user(100), &uuid_text(1), 10, NOW + MINUTE, AuctionStrategy::RequestFinalApproval, 7);
    assert_eq!(r, Ok(()));
    let ongoing = store.auctions.iter().filter(|a| a.item_id.value == 1 && a.end_date > NOW).count();
    assert_eq!(ongoing, 1);
}

#[test]
fn store_failures_while_opening() {
    for call in ["find_item", "find_ongoing_for_item", "insert_auction"] {
        let mut store = MemoryStore::new(NOW);
        store.add_item(1, 100);
        store.fail_on = Some(call);
        let r = open_auction(&mut store, &user(100), &uuid_text(1), 10, NOW + 2 * MINUTE, AuctionStrategy::Standard, 7);
        assert_eq!(r, Err(AppError::StorageFailure));
        assert!(store.auctions.is_empty());
    }
}

#[test]
fn bids_must_go_up() {
    let mut store = MemoryStore::new(NOW);
    store.add_item(1, 100);
    store.add_auction(5, 1, 10, NOW + 2 * MINUTE, AuctionStrategy::Standard);
    let a = uuid_text(5);
    assert_eq!(place_bid(&mut store, &user(2), &a, 9, 50), Err(AppError::BidBelowStartingPrice(9, 10)));
    assert_eq!(place_bid(&mut store, &user(2), &a, 10, 51), Ok(()));
    assert_eq!(place_bid(&mut store, &user(3), &a, 10, 52), Err(AppError::BidBelowHighestBid(10, 10)));
    assert_eq!(place_bid(&mut store, &user(3), &a, 15, 53), Ok(()));
    assert_eq!(place_bid(&mut store, &user(2), &a, 12, 54), Err(AppError::BidBelowHighestBid(12, 15)));
    assert_eq!(place_bid(&mut store, &user(2), &a, 16, 55), Ok(()));
    let values: Vec<u64> = store.bids.iter().map(|b| b.value).collect();
    assert_eq!(values, vec![10, 15, 16]);
    let ids: Vec<u128> = store.bids.iter().map(|b| b.id.value).collect();
    assert_eq!(ids, vec![51, 53, 55]);
    assert!(store.bids.iter().all(|b| b.auction_id.value == 5));
}

#[test]
fn owner_cannot_bid_even_without_other_bids() {
    let mut store = MemoryStore::new(NOW);
    store.add_item(1, 100);
    store.add_auction(5, 1, 10, NOW + 2 * MINUTE, AuctionStrategy::Standard);
    assert_eq!(place_bid(&mut store, &user(100), &uuid_text(5), 1000, 50), Err(AppError::OwnerCannotBid));
    assert_eq!(store.log, vec!["find_ongoing_auction"]);
    assert!(store.bids.is_empty());
}

#[test]
fn bid_on_missing_or_ended_auction() {
    let mut store = MemoryStore::new(NOW);
    store.add_item(1, 100);
    store.add_auction(5, 1, 10, NOW, AuctionStrategy::Standard);
    assert_eq!(place_bid(&mut store, &user(2), "invalid_id", 20, 50), Err(AppError::AuctionNotFound));
    assert_eq!(place_bid(&mut store, &user(2), &uuid_text(6), 20, 50), Err(AppError::AuctionNotFound));
    // the store no longer counts it as ongoing
    assert_eq!(place_bid(&mut store, &user(2), &uuid_text(5), 20, 50), Err(AppError::AuctionNotFound));
    // the store found it ongoing, but it ended before the check
    let state = CreateBidUseCase::AwaitingAuction { bidder: Id::new(2), auction_id: Id::new(5), value: 20 };
    let found = store.joined(&store.auctions[0]).unwrap();
    let step = state.resume(StoreReply::AuctionWithItem(Some(found)), NOW, Id::new(50));
    assert!(matches!(step, Step::Finish(Err(AppError::AuctionExpired))));
}

#[test]
fn store_failures_while_bidding() {
    for call in ["find_ongoing_auction", "list_bids", "insert_bid"] {
        let mut store = MemoryStore::new(NOW);
        store.add_item(1, 100);
        store.add_auction(5, 1, 10, NOW + 2 * MINUTE, AuctionStrategy::Standard);
        store.fail_on = Some(call);
        assert_eq!(place_bid(&mut store, &user(2), &uuid_text(5), 20, 50), Err(AppError::StorageFailure));
        assert!(store.bids.is_empty());
    }
    let step = CreateBidUseCase::AwaitingInsert.resume(StoreReply::Bid(None), NOW, Id::new(1));
    assert!(matches!(step, Step::Finish(Err(AppError::StorageFailure))));
}

#[test]
fn settling_hands_the_item_to_the_highest_bidder() {
    let mut store = MemoryStore::new(NOW);
    store.add_item(1, 100);
    store.add_auction(5, 1, 10, NOW - 1, AuctionStrategy::Standard);
    store.add_bid(1, 5, 2, 10);
    store.add_bid(2, 5, 3, 25);
    store.add_bid(3, 5, 4, 17);
    assert_eq!(settle(&mut store, &uuid_text(5)), Ok(()));
    assert_eq!(store.owner_of(1), 3);
    assert!(store.auctions.is_empty());
    assert!(store.bids.is_empty());
    assert_eq!(store.log, vec!["find_auction", "list_bids", "change_owner", "delete_bids", "delete_auction"]);
}

#[test]
fn settling_without_bids_keeps_the_owner() {
    let mut store = MemoryStore::new(NOW);
    store.add_item(1, 100);
    store.add_auction(5, 1, 10, NOW - 1, AuctionStrategy::Standard);
    store.add_auction(6, 1, 10, NOW - 2, AuctionStrategy::Standard);
    store.add_bid(1, 6, 2, 30);
    assert_eq!(settle(&mut store, &uuid_text(5)), Ok(()));
    assert_eq!(store.owner_of(1), 100);
    assert_eq!(store.auctions.len(), 1);
    assert_eq!(store.auctions[0].id.value, 6);
    assert_eq!(store.bids.len(), 1);
    assert_eq!(store.log, vec!["find_auction", "list_bids", "delete_bids", "delete_auction"]);
}

#[test]
fn settling_twice_finds_nothing_the_second_time() {
    let mut store = MemoryStore::new(NOW);
    store.add_item(1, 100);
    store.add_auction(5, 1, 10, NOW - 1, AuctionStrategy::Standard);
    store.add_bid(1, 5, 2, 10);
    assert_eq!(sweep(&mut store), Ok(SweepReport { settled: 1, failed: 0 }));
    assert_eq!(store.owner_of(1), 2);
    store.log.clear();
    assert_eq!(settle(&mut store, &uuid_text(5)), Err(AppError::AuctionNotFound));
    assert_eq!(store.log, vec!["find_auction"]);
    assert_eq!(sweep(&mut store), Ok(SweepReport { settled: 0, failed: 0 }));
    assert_eq!(store.owner_of(1), 2);
    assert_eq!(settle(&mut store, "invalid_id"), Err(AppError::AuctionNotFound));
}

#[test]
fn store_failures_while_settling() {
    for call in ["find_auction", "list_bids", "change_owner", "delete_bids", "delete_auction"] {
        let mut store = MemoryStore::new(NOW);
        store.add_item(1, 100);
        store.add_auction(5, 1, 10, NOW - 1, AuctionStrategy::Standard);
        store.add_bid(1, 5, 2, 10);
        store.fail_on = Some(call);
        assert_eq!(settle(&mut store, &uuid_text(5)), Err(AppError::StorageFailure));
        assert_eq!(store.auctions.len(), 1);
    }
}

#[test]
fn sweep_settles_only_what_is_due() {
    let mut store = MemoryStore::new(NOW);
    store.add_item(1, 100);
    store.add_item(2, 100);
    store.add_item(3, 100);
    store.add_auction(5, 1, 10, NOW, AuctionStrategy::Standard);
    store.add_auction(6, 2, 10, NOW - 1, AuctionStrategy::RequestFinalApproval);
    store.add_auction(7, 3, 10, NOW + 1, AuctionStrategy::Standard);
    store.add_bid(1, 5, 2, 11);
    store.add_bid(2, 6, 3, 12);
    store.add_bid(3, 7, 4, 13);
    assert_eq!(sweep(&mut store), Ok(SweepReport { settled: 1, failed: 0 }));
    let left: Vec<u128> = store.auctions.iter().map(|a| a.id.value).collect();
    assert_eq!(left, vec![6, 7]);
    assert_eq!((store.owner_of(1), store.owner_of(2), store.owner_of(3)), (2, 100, 100));
    assert_eq!(store.bids.len(), 2);
}

#[test]
fn sweep_picks_in_order_and_needs_the_list() {
    let listed = vec![
        Auction::with_id(Id::new(1), Id::new(11), 5, NOW - 5, AuctionStrategy::Standard),
        Auction::with_id(Id::new(2), Id::new(12), 5, NOW + 5, AuctionStrategy::Standard),
        Auction::with_id(Id::new(3), Id::new(13), 5, NOW - 5, AuctionStrategy::RequestFinalApproval),
        Auction::with_id(Id::new(4), Id::new(14), 5, NOW, AuctionStrategy::Standard),
    ];
    let (state, call) = HandleExpiredAuctionsUseCase::begin();
    assert!(matches!(call, StoreCall::FindExpiredAuctions));
    let picked = state.resume(StoreReply::Auctions(listed), NOW).unwrap();
    let ids: Vec<u128> = picked.iter().map(|i| i.value).collect();
    assert_eq!(ids, vec![1, 4]);
    let (state, _) = HandleExpiredAuctionsUseCase::begin();
    assert_eq!(state.resume(StoreReply::Failed, NOW).err(), Some(AppError::StorageFailure));
    let (state, _) = HandleExpiredAuctionsUseCase::begin();
    assert_eq!(state.execute(StoreReply::Auctions(vec![])).unwrap().len(), 0);
}

#[test]
fn one_failure_does_not_fail_the_sweep() {
    let outcomes = vec![Ok(()), Err(AppError::StorageFailure), Ok(()), Err(AppError::AuctionNotFound)];
    assert_eq!(HandleExpiredAuctionsUseCase::report(&outcomes), SweepReport { settled: 2, failed: 2 });
    assert_eq!(HandleExpiredAuctionsUseCase::report(&vec![]), SweepReport { settled: 0, failed: 0 });
    let mut store = MemoryStore::new(NOW);
    store.add_item(1, 100);
    store.add_auction(5, 1, 10, NOW - 1, AuctionStrategy::Standard);
    store.add_auction(6, 1, 10, NOW - 1, AuctionStrategy::Standard);
    store.fail_on = Some("delete_auction");
    assert_eq!(sweep(&mut store), Ok(SweepReport { settled: 0, failed: 2 }));
    store.fail_on = Some("find_expired");
    assert_eq!(sweep(&mut store), Err(AppError::StorageFailure));
}

#[test]
fn confirmation_checks_come_in_order() {
    let mut store = MemoryStore::new(NOW);
    store.add_item(1, 100);
    store.add_item(2, 100);
    store.add_item(3, 100);
    store.add_auction(5, 1, 10, NOW + 1, AuctionStrategy::Standard);
    store.add_auction(6, 2, 10, NOW, AuctionStrategy::Standard);
    store.add_auction(7, 3, 10, NOW, AuctionStrategy::RequestFinalApproval);
    store.add_auction(8, 3, 10, NOW + 1, AuctionStrategy::RequestFinalApproval);
    assert_eq!(confirm(&mut store, &user(100), "invalid_id", true), Err(AppError::AuctionResolutionFailed));
    assert_eq!(confirm(&mut store, &user(100), &uuid_text(9), true), Err(AppError::AuctionResolutionFailed));
    // not ended: refused before the strategy and the owner are looked at
    assert_eq!(confirm(&mut store, &user(2), &uuid_text(5), true), Err(AppError::CannotConfirmBeforeExpiry));
    assert_eq!(confirm(&mut store, &user(100), &uuid_text(8), true), Err(AppError::CannotConfirmBeforeExpiry));
    // ended, but settles by itself
    assert_eq!(confirm(&mut store, &user(100), &uuid_text(6), true), Err(AppError::WrongStrategyForConfirmation));
    assert_eq!(confirm(&mut store, &user(2), &uuid_text(6), false), Err(AppError::WrongStrategyForConfirmation));
    // ended and awaiting approval, but not the owner
    assert_eq!(confirm(&mut store, &user(2), &uuid_text(7), true), Err(AppError::NotOwner));
    assert_eq!(store.auctions.len(), 4);
    store.fail_on = Some("find_auction");
    assert_eq!(confirm(&mut store, &user(100), &uuid_text(7), true), Err(AppError::StorageFailure));
}

#[test]
fn confirmed_sale_goes_through() {
    let mut store = MemoryStore::new(NOW);
    store.add_item(1, 100);
    store.add_auction(7, 1, 10, NOW, AuctionStrategy::RequestFinalApproval);
    store.add_bid(1, 7, 2, 11);
    store.add_bid(2, 7, 3, 12);
    assert_eq!(confirm(&mut store, &user(100), &uuid_text(7), true), Ok(()));
    assert_eq!(store.owner_of(1), 3);
    assert!(store.auctions.is_empty() && store.bids.is_empty());
}

#[test]
fn declined_sale_closes_the_listing() {
    let mut store = MemoryStore::new(NOW);
    store.add_item(1, 100);
    store.add_auction(7, 1, 10, NOW, AuctionStrategy::RequestFinalApproval);
    store.add_bid(1, 7, 2, 11);
    assert_eq!(confirm(&mut store, &user(100), &uuid_text(7), false), Ok(()));
    assert_eq!(store.owner_of(1), 100);
    assert!(store.auctions.is_empty() && store.bids.is_empty());
    assert!(!store.log.contains(&"change_owner".to_string()));
}

#[test]
fn a_whole_auction_from_opening_to_sweep() {
    let mut store = MemoryStore::new(NOW);
    store.add_item(1, 1);
    let (u1, u2, u3) = (user(1), user(2), user(3));
    assert_eq!(
        open_auction(&mut store, &u1, &uuid_text(1), 10, NOW + 2 * MINUTE, AuctionStrategy::Standard, 77),
        Ok(())
    );
    let a = uuid_text(77);
    assert_eq!(place_bid(&mut store, &u2, &a, 15, 201), Ok(()));
    assert_eq!(place_bid(&mut store, &u3, &a, 12, 202), Err(AppError::BidBelowHighestBid(12, 15)));
    assert_eq!(sweep(&mut store), Ok(SweepReport { settled: 0, failed: 0 }));
    assert_eq!(store.owner_of(1), 1);
    store.now = NOW + 2 * MINUTE;
    assert_eq!(place_bid(&mut store, &u3, &a, 20, 203), Err(AppError::AuctionNotFound));
    assert_eq!(sweep(&mut store), Ok(SweepReport { settled: 1, failed: 0 }));
    assert_eq!(store.owner_of(1), 2);
    assert!(store.auctions.is_empty());
    assert!(store.bids.is_empty());
}

#[test]
fn use_cases_read_the_clock_themselves() {
    let now = chrono::Utc::now().timestamp_millis();
    let mut store = MemoryStore::new(now);
    store.add_item(1, 100);
    store.add_auction(5, 1, 10, now + 10 * MINUTE, AuctionStrategy::RequestFinalApproval);
    let found = store.joined(&store.auctions[0]).unwrap();
    let state = ConfirmAuctionUseCase::AwaitingAuction { user: Id::new(100), auction_id: Id::new(5), is_confirmed: true };
    let step = state.execute(StoreReply::AuctionWithItem(Some(found.clone())));
    assert!(matches!(step, Step::Finish(Err(AppError::CannotConfirmBeforeExpiry))));
    let state = CreateBidUseCase::AwaitingAuction { bidder: Id::new(2), auction_id: Id::new(5), value: 20 };
    let step = state.execute(StoreReply::AuctionWithItem(Some(found)));
    assert!(matches!(step, Step::Call(CreateBidUseCase::AwaitingBids { .. }, StoreCall::ListBids(_))));
    let state = CreateAuctionUseCase::AwaitingOngoing {
        item_id: Id::new(1),
        starting_price: 1,
        end_date: now + 30_000,
        strategy: AuctionStrategy::Standard,
    };
    let step = state.execute(StoreReply::Auction(None));
    assert!(matches!(step, Step::Finish(Err(AppError::InvalidEndDate))));
    let state = CreateAuctionUseCase::AwaitingOngoing {
        item_id: Id::new(1),
        starting_price: 1,
        end_date: now + 10 * MINUTE,
        strategy: AuctionStrategy::Standard,
    };
    match state.execute(StoreReply::Auction(None)) {
        Step::Call(CreateAuctionUseCase::AwaitingInsert, StoreCall::InsertAuction(a)) => {
            assert_eq!((a.item_id.value, a.starting_price, a.end_date), (1, 1, now + 10 * MINUTE));
        }
        other => panic!("unexpected step: {:?}", other),
    }
}

#[test]
fn new_records_get_fresh_identifiers() {
    let a = Auction::new(Id::new(1), 10, NOW, AuctionStrategy::Standard);
    let b = Auction::new(Id::new(1), 10, NOW, AuctionStrategy::Standard);
    assert_ne!(a.id.value, b.id.value);
    assert_eq!((a.item_id.value, a.starting_price, a.end_date), (1, 10, NOW));
    assert!(a.is_ongoing(NOW - 1));
    assert!(!a.is_ongoing(NOW));
    let bid = Bid::new(5, Id::new(2), Id::new(3));
    assert_eq!((bid.value, bid.auction_id.value, bid.user_id.value), (5, 2, 3));
    let u = User::new("n".to_string(), "e".to_string(), "p".to_string());
    assert_eq!((u.name.as_str(), u.email.as_str(), u.password.as_str()), ("n", "e", "p"));
    let i = Item::new("b".to_string(), "d".to_string(), vec![9], u.id, Category::Sport);
    assert_eq!((i.brief.as_str(), i.description.as_str(), i.picture.clone(), i.user_id.value), ("b", "d", vec![9], u.id.value));
    assert_eq!(i.category, Category::Sport);
}

#[test]
fn errors_fall_into_kinds() {
    assert_eq!(AppError::InvalidEndDate.kind(), ErrorKind::Validation);
    assert_eq!(AppError::BidBelowHighestBid(1, 2).kind(), ErrorKind::Validation);
    assert_eq!(AppError::OwnerCannotBid.kind(), ErrorKind::Ownership);
    assert_eq!(AppError::WrongStrategyForConfirmation.kind(), ErrorKind::State);
    assert_eq!(AppError::AuctionNotFound.kind(), ErrorKind::NotFound);
    assert_eq!(AppError::StorageFailure.kind(), ErrorKind::Infrastructure);
    assert!(AppError::StorageFailure.is_retryable());
    assert!(!AppError::AuctionExpired.is_retryable());
}
