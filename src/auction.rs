//! Items, bids and the records that describe an auction to callers.
use vstd::prelude::*;

verus! {

/// What an auction sells: a title, a description and an image.
pub struct Item {
    pub title: String,
    pub description: String,
    /// Image bytes; PNG by convention, not checked here.
    pub image: Vec<u8>,
}

pub struct ItemView {
    pub title: Seq<char>,
    pub description: Seq<char>,
    pub image: Seq<u8>,
}

impl View for Item {
    type V = ItemView;

    open spec fn view(&self) -> ItemView {
        ItemView { title: self.title@, description: self.description@, image: self.image@ }
    }
}

impl Item {
    pub fn new(title: String, description: String, image: Vec<u8>) -> (r: Item)
        ensures
            r.title@ == title@,
            r.description@ == description@,
            r.image@ == image@,
    {
        Item { title, description, image }
    }

    /// An independent copy of the item.
    pub fn duplicate(&self) -> (r: Item)
        ensures
            r@ == self@,
    {
        let image = self.image.clone();
        assert(image@ =~= self.image@);
        Item { title: self.title.clone(), description: self.description.clone(), image }
    }
}

/// One accepted bid.
pub struct Bid {
    /// The offered price, in units of the currency.
    pub price: u64,
    /// Whole seconds that were left until the auction closed when the bid was accepted.
    pub time: u64,
    /// Bytes of the principal that made the bid; never the anonymous one.
    pub originator: Vec<u8>,
}

pub struct BidView {
    pub price: u64,
    pub time: u64,
    pub originator: Seq<u8>,
}

impl View for Bid {
    type V = BidView;

    open spec fn view(&self) -> BidView {
        BidView { price: self.price, time: self.time, originator: self.originator@ }
    }
}

impl Bid {
    /// An independent copy of the bid.
    pub fn duplicate(&self) -> (r: Bid)
        ensures
            r@ == self@,
    {
        let originator = self.originator.clone();
        assert(originator@ =~= self.originator@);
        Bid { price: self.price, time: self.time, originator }
    }
}

/// The views of a sequence of bids.
pub open spec fn bids_view(bids: Seq<Bid>) -> Seq<BidView> {
    bids.map_values(|b: Bid| b@)
}

/// Each bid's price is above the price of every bid before it.
pub open spec fn prices_increasing(bids: Seq<BidView>) -> bool {
    forall|i: int, j: int| 0 <= i < j < bids.len() ==> bids[i].price < bids[j].price
}

/// The price of the leading bid, or zero while there is none.
pub open spec fn leading_price(bids: Seq<BidView>) -> nat {
    if bids.len() == 0 {
        0
    } else {
        bids.last().price as nat
    }
}

/// Copies a bid history.
pub fn duplicate_bids(bids: &Vec<Bid>) -> (r: Vec<Bid>)
    ensures
        bids_view(r@) == bids_view(bids@),
{
    let mut r: Vec<Bid> = Vec::new();
    let mut i: usize = 0;
    while i < bids.len()
        invariant
            i <= bids@.len(),
            r@.len() == i,
            forall|j: int| 0 <= j < i ==> r@[j]@ == bids@[j]@,
        decreases bids@.len() - i,
    {
        r.push(bids[i].duplicate());
        i = i + 1;
    }
    assert(bids_view(r@) =~= bids_view(bids@));
    r
}

/// An auction's id with the item it sells.
pub struct AuctionOverview {
    pub id: u64,
    pub item: Item,
}

/// What a caller sees of one auction at one instant.
pub struct AuctionDetails {
    pub item: Item,
    /// Accepted bids in order of acceptance, which is also ascending price;
    /// the last one, if any, leads the auction and wins it once it closes.
    pub bid_history: Vec<Bid>,
    /// Whole seconds left until the auction closes; zero means closed.
    pub remaining_time: u64,
}

/// Why a request was turned down.
#[derive(Clone, Copy, Debug, PartialEq, Eq, Structural)]
pub enum AuctionError {
    /// No auction has the given id.
    NotFound,
    /// The caller is the anonymous principal.
    Unauthenticated,
    /// The price does not exceed the leading bid.
    PriceTooLow,
    /// The auction has reached its closing instant.
    AuctionClosed,
}

} // verus!
