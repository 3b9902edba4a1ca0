use vstd::prelude::*;

use crate::ledger::Bids;

verus! {

/// Whether the auction still takes bids.
#[derive(Debug, Clone, Copy, PartialEq, Eq, Structural)]
pub enum Status {
    Open,
    Closed,
}

/// The auction's parameters, fixed when it is created.
#[derive(Debug, Clone, PartialEq, Eq)]
pub struct Config {
    /// Denomination of the token to bid with.
    pub denom: String,
    /// The address that may close the auction and may not bid.
    pub owner: String,
    /// Free text describing what is auctioned.
    pub description: String,
    /// Amount paid to the owner out of each accepted bid.
    pub commission: u128,
}

/// Where the auction stands.
#[derive(Debug, Clone, PartialEq, Eq)]
pub struct State {
    pub current_status: Status,
    /// The leading bidder and their total, once anyone has bid.
    pub highest_bid: Option<(String, u128)>,
}

/// An auction: its parameters, where it stands, and what each bidder has paid in.
pub struct Auction {
    pub config: Config,
    pub state: State,
    pub bids: Bids,
}

impl Auction {
    pub open spec fn is_open(self) -> bool {
        self.state.current_status == Status::Open
    }

    /// The leading total, zero before the first bid.
    pub open spec fn highest_amount(self) -> u128 {
        match self.state.highest_bid {
            Some(b) => b.1,
            None => 0,
        }
    }

    /// What `who` has paid in and not yet taken back, zero if nothing.
    pub open spec fn ledger_amount(self, who: Seq<char>) -> u128 {
        if self.bids@.contains_key(who) {
            self.bids@[who]
        } else {
            0
        }
    }

    /// The relations between the leading bid and the ledger that every
    /// sequence of actions from a new auction keeps.
    pub open spec fn consistent(self) -> bool {
        &&& forall|who: Seq<char>| #[trigger]
            self.bids@.contains_key(who) ==> 0 < self.bids@[who] <= self.highest_amount()
        &&& match self.state.highest_bid {
            Some(b) => if self.is_open() {
                self.bids@.contains_key(b.0@) && self.bids@[b.0@] == b.1
            } else {
                !self.bids@.contains_key(b.0@)
            },
            None => true,
        }
    }
}

} // verus!
