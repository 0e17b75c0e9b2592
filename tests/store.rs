use auction_ledger::auction::{AuctionError, Item};
use auction_ledger::clock::NANOS_PER_SECOND;
use auction_ledger::store::AuctionStore;
use candid::Principal;

const START: u64 = 1_700_000_000 * NANOS_PER_SECOND;

fn vase() -> Item {
    Item::new("Vase".to_string(), "A blue vase".to_string(), vec![137, 80, 78, 71])
}

fn user_a() -> Vec<u8> {
    Principal::from_slice(&[1, 2, 3]).as_slice().to_vec()
}

fn user_b() -> Vec<u8> {
    Principal::from_slice(&[9, 9]).as_slice().to_vec()
}

fn anonymous() -> Vec<u8> {
    Principal::anonymous().as_slice().to_vec()
}

fn store_with_vase() -> AuctionStore {
    let mut store = AuctionStore::new();
    assert_eq!(store.new_auction(vase(), 60, START), 0);
    store
}

#[test]
fn create_then_details() {
    let store = store_with_vase();
    let details = store.get_auction_details(0, START).unwrap();
    assert_eq!(details.remaining_time, 60);
    assert!(details.bid_history.is_empty());
    assert_eq!(details.item.title, "Vase");
    assert_eq!(details.item.image, vec![137, 80, 78, 71]);
}

#[test]
fn first_bid_accepted() {
    let mut store = store_with_vase();
    assert_eq!(store.make_bid(0, 10, user_a(), START + NANOS_PER_SECOND), Ok(()));
    let details = store.get_auction_details(0, START + NANOS_PER_SECOND).unwrap();
    assert_eq!(details.bid_history.len(), 1);
    assert_eq!(details.bid_history[0].price, 10);
    assert_eq!(details.bid_history[0].originator, user_a());
    assert_eq!(details.bid_history[0].time, 59);
}

#[test]
fn equal_price_too_low() {
    let mut store = store_with_vase();
    assert_eq!(store.make_bid(0, 10, user_a(), START), Ok(()));
    assert_eq!(store.make_bid(0, 10, user_b(), START), Err(AuctionError::PriceTooLow));
    assert_eq!(store.get_auction_details(0, START).unwrap().bid_history.len(), 1);
}

#[test]
fn higher_bid_accepted() {
    let mut store = store_with_vase();
    assert_eq!(store.make_bid(0, 10, user_a(), START), Ok(()));
    assert_eq!(store.make_bid(0, 11, user_b(), START), Ok(()));
    let history = store.get_auction_details(0, START).unwrap().bid_history;
    assert_eq!(history.len(), 2);
    assert_eq!((history[0].price, history[0].originator.clone()), (10, user_a()));
    assert_eq!((history[1].price, history[1].originator.clone()), (11, user_b()));
}

#[test]
fn anonymous_bid_refused() {
    let mut store = store_with_vase();
    assert_eq!(store.make_bid(0, 100, anonymous(), START), Err(AuctionError::Unauthenticated));
    assert_eq!(store.make_bid(999, 0, anonymous(), START), Err(AuctionError::Unauthenticated));
    assert!(store.get_auction_details(0, START).unwrap().bid_history.is_empty());
}

#[test]
fn closed_after_sixty_one_seconds() {
    let mut store = store_with_vase();
    assert_eq!(store.make_bid(0, 10, user_a(), START), Ok(()));
    assert_eq!(store.make_bid(0, 11, user_b(), START), Ok(()));
    let later = START + 61 * NANOS_PER_SECOND;
    assert_eq!(store.make_bid(0, 1000, user_a(), later), Err(AuctionError::AuctionClosed));
    let details = store.get_auction_details(0, later).unwrap();
    assert_eq!(details.remaining_time, 0);
    let winner = details.bid_history.last().unwrap();
    assert_eq!((winner.price, winner.originator.clone()), (11, user_b()));
}

#[test]
fn unknown_id_not_found() {
    let mut store = store_with_vase();
    assert!(matches!(store.get_auction_details(999, START), Err(AuctionError::NotFound)));
    assert_eq!(store.make_bid(999, 5, user_a(), START), Err(AuctionError::NotFound));
}

#[test]
fn ids_increase_from_zero() {
    let mut store = AuctionStore::new();
    assert_eq!(store.new_auction(vase(), 10, START), 0);
    assert_eq!(store.new_auction(vase(), 20, START), 1);
    assert_eq!(store.make_bid(0, 1, user_a(), START), Ok(()));
    assert_eq!(store.new_auction(vase(), 30, START), 2);
}

#[test]
fn overview_lists_open_and_closed() {
    let mut store = AuctionStore::new();
    store.new_auction(vase(), 0, START);
    let lamp = Item::new("Lamp".to_string(), String::new(), Vec::new());
    store.new_auction(lamp, 100, START);
    let list = store.get_overview_list();
    assert_eq!(list.len(), 2);
    assert_eq!((list[0].id, list[0].item.title.as_str()), (0, "Vase"));
    assert_eq!((list[1].id, list[1].item.title.as_str()), (1, "Lamp"));
    assert!(AuctionStore::new().get_overview_list().is_empty());
}

#[test]
fn low_price_refused_when_closed() {
    let mut store = store_with_vase();
    let later = START + 100 * NANOS_PER_SECOND;
    assert_eq!(store.make_bid(0, 0, user_a(), later), Err(AuctionError::PriceTooLow));
    assert_eq!(store.make_bid(0, 1, user_a(), later), Err(AuctionError::AuctionClosed));
}

#[test]
fn closing_instant_is_exclusive() {
    let mut store = store_with_vase();
    let closing = START + 60 * NANOS_PER_SECOND;
    assert_eq!(store.make_bid(0, 5, user_a(), closing - 1), Ok(()));
    assert_eq!(store.get_auction_details(0, closing - 1).unwrap().bid_history[0].time, 1);
    assert_eq!(store.make_bid(0, 6, user_a(), closing), Err(AuctionError::AuctionClosed));
}

#[test]
fn zero_duration_is_closed_at_once() {
    let mut store = AuctionStore::new();
    store.new_auction(vase(), 0, START);
    assert_eq!(store.get_auction_details(0, START).unwrap().remaining_time, 0);
    assert_eq!(store.make_bid(0, 1, user_a(), START), Err(AuctionError::AuctionClosed));
}

#[test]
fn largest_price_accepted_once() {
    let mut store = store_with_vase();
    assert_eq!(store.make_bid(0, u64::MAX, user_a(), START), Ok(()));
    assert_eq!(store.make_bid(0, u64::MAX, user_b(), START), Err(AuctionError::PriceTooLow));
}

#[test]
fn remaining_time_falls_as_clock_advances() {
    let store = store_with_vase();
    let mut last = u64::MAX;
    for step in 0..70u64 {
        let r = store.get_auction_details(0, START + step * NANOS_PER_SECOND / 2).unwrap().remaining_time;
        assert!(r <= last);
        last = r;
    }
    assert_eq!(last, 26);
}

#[test]
fn count_follows_creations() {
    let mut store = AuctionStore::new();
    assert_eq!(store.auction_count(), 0);
    store.new_auction(vase(), 5, START);
    store.new_auction(vase(), 5, START);
    assert_eq!(store.auction_count(), 2);
}
