use vstd::prelude::*;

verus! {

/// Why an action on the auction was rejected. A rejected action changes nothing.
#[derive(Debug, Clone, PartialEq, Eq)]
pub enum ContractError {
    /// Only the owner may close the auction.
    Unauthorized { owner: String },
    /// The owner may not bid on their own auction.
    InvalidBid { owner: String },
    /// The auction is closed: no more bids, and it cannot be closed again.
    ClosedAcution,
    /// The attached amount does not cover the commission.
    InsufficientFundsForCommission { funds: u128, commission: u128 },
    /// No positive amount of the auction's denomination was attached.
    InsufficientFunds,
    /// The bidder's new total (`existing + funds = new_bid`) does not exceed `max_bid`.
    InsufficientBid { existing: u128, funds: u128, new_bid: u128, max_bid: u128 },
    /// Funds can only be retracted once the auction is closed.
    OpenAcution,
    /// The caller has nothing left to retract.
    InvalidRetract,
    /// A bidder's total would not fit in 128 bits.
    Overflow,
}

/// Why a query could not be answered.
#[derive(Debug, Clone, PartialEq, Eq)]
pub enum QueryError {
    /// The address has no bid in the ledger.
    NoBidFrom { address: String },
    /// Nobody has bid yet.
    NoBid,
    /// The winner is only known once the auction is closed.
    StillOpen,
}

impl QueryError {
    /// A human-readable description of the error.
    pub fn to_string(&self) -> (r: String)
        ensures
            r@ == match self {
                QueryError::NoBidFrom { .. } => "The address has not any bid"@,
                QueryError::NoBid => "The auction has not any bid"@,
                QueryError::StillOpen => "The auction is yet open"@,
            },
    {
        match self {
            QueryError::NoBidFrom { .. } => "The address has not any bid".to_owned(),
            QueryError::NoBid => "The auction has not any bid".to_owned(),
            QueryError::StillOpen => "The auction is yet open".to_owned(),
        }
    }
}

} // verus!
