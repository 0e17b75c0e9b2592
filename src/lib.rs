//! A ledger of timed auctions: auctions are registered with a closing instant,
//! bids are accepted only while an auction is open and only above the current
//! leading price, and every query recomputes the remaining time from the clock.

pub mod auction;
pub mod clock;
pub mod identity;
pub mod store;
