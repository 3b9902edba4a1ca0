use vstd::prelude::*;

use crate::error::QueryError;
use crate::msg::BidResp;
use crate::state::{Auction, Status};

verus! {

/// The leading bid as a response, or `NoBid` before the first bid.
pub open spec fn leading(a: Auction) -> Result<BidResp, QueryError> {
    match a.state.highest_bid {
        Some(b) => Ok(BidResp { address: b.0, amount: b.1 }),
        None => Err(QueryError::NoBid),
    }
}

/// What `address` has paid in and not taken back.
pub fn total_bid(a: &Auction, address: &String) -> (r: Result<u128, QueryError>)
    ensures
        r == if a.bids@.contains_key(address@) {
            Ok::<u128, QueryError>(a.bids@[address@])
        } else {
            Err(QueryError::NoBidFrom { address: *address })
        },
{
    match a.bids.get(address) {
        Some(amount) => Ok(amount),
        None => Err(QueryError::NoBidFrom { address: address.clone() }),
    }
}

/// The current leading bidder and their total.
pub fn highest_bid(a: &Auction) -> (r: Result<BidResp, QueryError>)
    ensures
        r == leading(*a),
{
    match &a.state.highest_bid {
        Some(b) => Ok(BidResp { address: b.0.clone(), amount: b.1 }),
        None => Err(QueryError::NoBid),
    }
}

/// Whether the auction has been closed.
pub fn is_closed(a: &Auction) -> (r: bool)
    ensures
        r == !a.is_open(),
{
    match a.state.current_status {
        Status::Closed => true,
        Status::Open => false,
    }
}

/// The winning bid, once the auction is closed.
pub fn winner(a: &Auction) -> (r: Result<BidResp, QueryError>)
    ensures
        r == if a.is_open() {
            Err(QueryError::StillOpen)
        } else {
            leading(*a)
        },
{
    if a.state.current_status == Status::Open {
        return Err(QueryError::StillOpen);
    }
    highest_bid(a)
}

} // verus!
