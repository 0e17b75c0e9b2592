//! The auction store: it owns every auction and the id counter, and carries out
//! creation, listing, lookup and bidding with all of their checks.
use vstd::prelude::*;

use crate::auction::{
    bids_view, duplicate_bids, leading_price, prices_increasing, AuctionDetails, AuctionError,
    AuctionOverview, Bid, BidView, Item, ItemView,
};
use crate::clock::{closing_instant, closing_time, remaining_seconds, remaining_time};
use crate::identity::{anonymous_bytes, is_anonymous};

verus! {

/// One auction as the store keeps it.
pub struct Auction {
    id: u64,
    item: Item,
    bid_history: Vec<Bid>,
    /// Absolute instant, in nanoseconds, from which no bid is accepted; fixed at creation.
    closing_time: u64,
}

pub struct AuctionView {
    pub id: u64,
    pub item: ItemView,
    pub bids: Seq<BidView>,
    pub closing_time: int,
}

impl View for Auction {
    type V = AuctionView;

    closed spec fn view(&self) -> AuctionView {
        AuctionView {
            id: self.id,
            item: self.item@,
            bids: bids_view(self.bid_history@),
            closing_time: self.closing_time as int,
        }
    }
}

/// Every auction of the store, in order of creation, and the counter that
/// gives the next id.
pub struct AuctionStore {
    auctions: Vec<Auction>,
    id_counter: u64,
}

/// The auction created by `new_auction` at `now` for `duration_seconds`.
pub open spec fn fresh_auction(id: u64, item: ItemView, now: u64, duration_seconds: u64) -> AuctionView {
    AuctionView {
        id,
        item,
        bids: Seq::empty(),
        closing_time: closing_instant(now, duration_seconds),
    }
}

/// A creation took `pre` to `post` and handed out `id`.
pub open spec fn created(pre: Seq<AuctionView>, post: Seq<AuctionView>, id: u64) -> bool {
    &&& id == pre.len()
    &&& post.len() == pre.len() + 1
    &&& post.take(pre.len() as int) == pre
}

/// The outcome of a bid of `price` by `caller` on auction `id` at `now`; the
/// checks are made in this order.
pub open spec fn bid_outcome(
    auctions: Seq<AuctionView>,
    id: u64,
    price: u64,
    caller: Seq<u8>,
    now: u64,
) -> Result<(), AuctionError> {
    if caller == anonymous_bytes() {
        Err(AuctionError::Unauthenticated)
    } else if id >= auctions.len() {
        Err(AuctionError::NotFound)
    } else if price <= leading_price(auctions[id as int].bids) {
        Err(AuctionError::PriceTooLow)
    } else if now >= auctions[id as int].closing_time {
        Err(AuctionError::AuctionClosed)
    } else {
        Ok(())
    }
}

/// The bid recorded when `caller` bids `price` on `auction` at `now`.
pub open spec fn accepted_bid(auction: AuctionView, price: u64, caller: Seq<u8>, now: u64) -> BidView {
    BidView {
        price,
        time: remaining_seconds(auction.closing_time, now as int) as u64,
        originator: caller,
    }
}

/// `auction` with `bid` appended to its history.
pub open spec fn with_bid(auction: AuctionView, bid: BidView) -> AuctionView {
    AuctionView { bids: auction.bids.push(bid), ..auction }
}

impl View for AuctionStore {
    type V = Seq<AuctionView>;

    closed spec fn view(&self) -> Seq<AuctionView> {
        self.auctions@.map_values(|a: Auction| a@)
    }
}

impl AuctionStore {
    /// Ids are positions, the counter is the next position, bid prices rise,
    /// and no bid comes from the anonymous principal.
    pub closed spec fn wf(&self) -> bool {
        &&& self.id_counter == self@.len()
        &&& forall|i: int| 0 <= i < self@.len() ==> #[trigger] self@[i].id == i
        &&& forall|i: int| 0 <= i < self@.len() ==> prices_increasing(#[trigger] self@[i].bids)
        &&& forall|i: int, j: int|
            0 <= i < self@.len() && 0 <= j < self@[i].bids.len() ==> #[trigger] self@[i].bids[j].originator
                != anonymous_bytes()
    }

    /// An empty store; the first auction gets id 0.
    pub fn new() -> (r: AuctionStore)
        ensures
            r.wf(),
            r@ == Seq::<AuctionView>::empty(),
    {
        let r = AuctionStore { auctions: Vec::new(), id_counter: 0 };
        assert(r@ =~= Seq::<AuctionView>::empty());
        r
    }

    /// Number of auctions registered so far.
    pub fn auction_count(&self) -> (r: usize)
        ensures
            r == self@.len(),
    {
        self.auctions.len()
    }

    /// Hands out the counter's value and advances the counter.
    fn new_auction_id(&mut self) -> (r: u64)
        requires
            old(self).id_counter < u64::MAX,
        ensures
            r == old(self).id_counter,
            final(self).id_counter == r + 1,
            final(self).auctions == old(self).auctions,
    {
        let r = self.id_counter;
        self.id_counter = self.id_counter + 1;
        r
    }

    /// Registers an auction of `item` created at `now` that stays open for
    /// `duration_seconds`, and returns its id.
    pub fn new_auction(&mut self, item: Item, duration_seconds: u64, now: u64) -> (id: u64)
        requires
            old(self).wf(),
            old(self)@.len() < u64::MAX,
        ensures
            final(self).wf(),
            created(old(self)@, final(self)@, id),
            final(self)@ == old(self)@.push(fresh_auction(id, item@, now, duration_seconds)),
    {
        let id = self.new_auction_id();
        let closing = closing_time(now, duration_seconds);
        let auction = Auction { id, item, bid_history: Vec::new(), closing_time: closing };
        self.auctions.push(auction);
        proof {
            assert(bids_view(Seq::<Bid>::empty()) =~= Seq::<BidView>::empty());
            assert(self@ =~= old(self)@.push(fresh_auction(id, item@, now, duration_seconds)));
            assert(self@.take(old(self)@.len() as int) =~= old(self)@);
        }
        id
    }

    /// The id and item of every auction, open or closed, in ascending id order.
    pub fn get_overview_list(&self) -> (r: Vec<AuctionOverview>)
        requires
            self.wf(),
        ensures
            r@.len() == self@.len(),
            forall|i: int|
                0 <= i < r@.len() ==> (#[trigger] r@[i]).id == i && r@[i].item@ == self@[i].item,
    {
        let mut r: Vec<AuctionOverview> = Vec::new();
        let mut i: usize = 0;
        while i < self.auctions.len()
            invariant
                self.wf(),
                i <= self@.len(),
                r@.len() == i,
                forall|j: int| 0 <= j < i ==> (#[trigger] r@[j]).id == j && r@[j].item@ == self@[j].item,
            decreases self@.len() - i,
        {
            let auction = &self.auctions[i];
            assert(self@[i as int] == auction@);
            assert(self@[i as int].id == i);
            r.push(AuctionOverview { id: auction.id, item: auction.item.duplicate() });
            i = i + 1;
        }
        r
    }

    /// Bids `price` on auction `id` on behalf of `caller` at `now`. The caller
    /// must not be anonymous, the auction must exist, the price must exceed
    /// the leading bid and the auction must still be open, checked in that
    /// order; on success the bid is appended with the time left at `now`, and
    /// on failure nothing changes.
    pub fn make_bid(&mut self, id: u64, price: u64, caller: Vec<u8>, now: u64) -> (r: Result<(), AuctionError>)
        requires
            old(self).wf(),
        ensures
            final(self).wf(),
            r == bid_outcome(old(self)@, id, price, caller@, now),
            r is Ok ==> final(self)@ == old(self)@.update(
                id as int,
                with_bid(old(self)@[id as int], accepted_bid(old(self)@[id as int], price, caller@, now)),
            ),
            r is Err ==> final(self)@ == old(self)@,
    {
        if is_anonymous(&caller) {
            return Err(AuctionError::Unauthenticated);
        }
        if id >= self.auctions.len() as u64 {
            return Err(AuctionError::NotFound);
        }
        let index = id as usize;
        assert(self@[index as int] == self.auctions@[index as int]@);
        if (price as u128) < minimum_price(&self.auctions[index]) {
            return Err(AuctionError::PriceTooLow);
        }
        let closing = self.auctions[index].closing_time;
        if now >= closing {
            return Err(AuctionError::AuctionClosed);
        }
        let time = remaining_time(closing, now);
        let ghost caller_bytes = caller@;
        let bid = Bid { price, time, originator: caller };
        let ghost before = self.auctions@[index as int];
        self.auctions[index].bid_history.push(bid);
        proof {
            let after = self.auctions@[index as int];
            assert(bids_view(after.bid_history@) =~= bids_view(before.bid_history@).push(bid@));
            assert(self@ =~= old(self)@.update(
                id as int,
                with_bid(old(self)@[id as int], accepted_bid(old(self)@[id as int], price, caller_bytes, now)),
            ));
        }
        Ok(())
    }

    /// The item, bid history and remaining time at `now` of auction `id`.
    pub fn get_auction_details(&self, id: u64, now: u64) -> (r: Result<AuctionDetails, AuctionError>)
        requires
            self.wf(),
        ensures
            r is Err <==> id >= self@.len(),
            r is Err ==> r == Err::<AuctionDetails, AuctionError>(AuctionError::NotFound),
            r matches Ok(d) ==> {
                &&& d.item@ == self@[id as int].item
                &&& bids_view(d.bid_history@) == self@[id as int].bids
                &&& prices_increasing(bids_view(d.bid_history@))
                &&& d.remaining_time == remaining_seconds(self@[id as int].closing_time, now as int)
            },
    {
        if id >= self.auctions.len() as u64 {
            return Err(AuctionError::NotFound);
        }
        let auction = &self.auctions[id as usize];
        assert(self@[id as int] == auction@);
        assert(prices_increasing(self@[id as int].bids));
        Ok(AuctionDetails {
            item: auction.item.duplicate(),
            bid_history: duplicate_bids(&auction.bid_history),
            remaining_time: remaining_time(auction.closing_time, now),
        })
    }
}

/// The lowest price that a new bid on `auction` may offer: one above the
/// leading bid, or one while there is no bid.
fn minimum_price(auction: &Auction) -> (r: u128)
    ensures
        r == leading_price(auction@.bids) + 1,
{
    let n = auction.bid_history.len();
    if n == 0 {
        1
    } else {
        auction.bid_history[n - 1].price as u128 + 1
    }
}


/// Ids are handed out in strictly increasing order: an auction created after
/// another, with any operations in between that keep every auction, has a
/// larger id.
pub proof fn lemma_created_ids_increase(
    s0: Seq<AuctionView>,
    s1: Seq<AuctionView>,
    s2: Seq<AuctionView>,
    s3: Seq<AuctionView>,
    first: u64,
    second: u64,
)
    requires
        created(s0, s1, first),
        s1.len() <= s2.len(),
        created(s2, s3, second),
    ensures
        first < second,
{
}

/// In every auction of a well-formed store, each bid's price is above the
/// price of every earlier bid.
pub proof fn lemma_bid_prices_increase(store: &AuctionStore, id: int)
    requires
        store.wf(),
        0 <= id < store@.len(),
    ensures
        prices_increasing(store@[id].bids),
{
}

/// A bid from the anonymous principal is refused as unauthenticated, whatever
/// the auction, price and time.
pub proof fn lemma_anonymous_bid_refused(auctions: Seq<AuctionView>, id: u64, price: u64, now: u64)
    ensures
        bid_outcome(auctions, id, price, anonymous_bytes(), now) == Err::<(), AuctionError>(
            AuctionError::Unauthenticated,
        ),
{
}

/// A bid from an authenticated caller on an id that no auction has is refused
/// as not found.
pub proof fn lemma_unknown_auction_refused(
    auctions: Seq<AuctionView>,
    id: u64,
    price: u64,
    caller: Seq<u8>,
    now: u64,
)
    requires
        caller != anonymous_bytes(),
        id >= auctions.len(),
    ensures
        bid_outcome(auctions, id, price, caller, now) == Err::<(), AuctionError>(AuctionError::NotFound),
{
}

/// A bid from an authenticated caller that does not exceed the leading price
/// (zero without bids) is refused as too low, whether the auction is open or
/// closed.
pub proof fn lemma_low_price_refused(
    auctions: Seq<AuctionView>,
    id: u64,
    price: u64,
    caller: Seq<u8>,
    now: u64,
)
    requires
        caller != anonymous_bytes(),
        id < auctions.len(),
        price <= leading_price(auctions[id as int].bids),
    ensures
        bid_outcome(auctions, id, price, caller, now) == Err::<(), AuctionError>(
            AuctionError::PriceTooLow,
        ),
{
}

/// A bid from an authenticated caller with a price above the leading one, made
/// at or after the closing instant, is refused as closed.
pub proof fn lemma_closed_auction_refused(
    auctions: Seq<AuctionView>,
    id: u64,
    price: u64,
    caller: Seq<u8>,
    now: u64,
)
    requires
        caller != anonymous_bytes(),
        id < auctions.len(),
        price > leading_price(auctions[id as int].bids),
        now >= auctions[id as int].closing_time,
    ensures
        bid_outcome(auctions, id, price, caller, now) == Err::<(), AuctionError>(
            AuctionError::AuctionClosed,
        ),
{
}

} // verus!
