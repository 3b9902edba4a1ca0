use vstd::prelude::*;

verus! {

/// Parameters of a new auction.
#[derive(Debug, Clone, PartialEq, Eq)]
pub struct InstantiateMsg {
    /// Denomination of the token that bids are made in.
    pub denom: String,
    /// Owner of the auction; the sender that creates it when absent.
    pub owner: Option<String>,
    /// Free text describing what is auctioned.
    pub description: String,
    /// Commission charged on each accepted bid; zero when absent.
    pub commission: Option<u128>,
}

/// The actions that change an auction.
#[derive(Debug, Clone, PartialEq, Eq)]
pub enum ExecuteMsg {
    Bid {},
    Close {},
    Retract { recipient: Option<String> },
}

/// The questions that can be asked of an auction.
#[derive(Debug, Clone, PartialEq, Eq)]
pub enum QueryMsg {
    TotalBid { address: String },
    HighestBid {},
    IsClosed {},
    Winner {},
}

/// A bidder and the amount of their bid.
#[derive(Debug, Clone, PartialEq, Eq)]
pub struct BidResp {
    pub address: String,
    pub amount: u128,
}

/// The answer to a [`QueryMsg`].
#[derive(Debug, Clone, PartialEq, Eq)]
pub enum QueryResp {
    TotalBid(u128),
    HighestBid(BidResp),
    IsClosed(bool),
    Winner(BidResp),
}

/// An amount of one denomination.
#[derive(Debug, Clone, PartialEq, Eq)]
pub struct Coin {
    pub denom: String,
    pub amount: u128,
}

/// An instruction to the host to send `amount` of `denom` to `to_address`.
#[derive(Debug, Clone, PartialEq, Eq)]
pub struct Transfer {
    pub to_address: String,
    pub denom: String,
    pub amount: u128,
}

/// A key/value pair recorded for an action, for observers.
#[derive(Debug, Clone, PartialEq, Eq)]
pub struct Attribute {
    pub key: String,
    pub value: String,
}

/// What a successful action hands back to the host: the transfers to
/// perform and the attributes to record.
#[derive(Debug, Clone, PartialEq, Eq)]
pub struct Response {
    pub messages: Vec<Transfer>,
    pub attributes: Vec<Attribute>,
}

impl Transfer {
    /// This transfer sends `amount` of `denom` to `to`.
    pub open spec fn sends(self, to: Seq<char>, amount: u128, denom: Seq<char>) -> bool {
        &&& self.to_address@ == to
        &&& self.amount == amount
        &&& self.denom@ == denom
    }
}

impl Response {
    /// The attributes as pairs of key and value.
    pub open spec fn attribute_pairs(self) -> Seq<(Seq<char>, Seq<char>)> {
        self.attributes@.map_values(|a: Attribute| (a.key@, a.value@))
    }
}

/// The decimal digit `d`, for `d < 10`.
pub open spec fn digit_char(d: nat) -> char {
    seq!['0', '1', '2', '3', '4', '5', '6', '7', '8', '9'][d as int]
}

/// The decimal representation of `n`, without leading zeros.
pub open spec fn decimal(n: nat) -> Seq<char>
    decreases n,
{
    if n < 10 {
        seq![digit_char(n)]
    } else {
        decimal(n / 10).push(digit_char(n % 10))
    }
}

/// Relies on `u128`'s `Display` (through `ToString`): an integer is written
/// in decimal, without sign or leading zeros.
#[verifier::external_body]
pub(crate) fn decimal_string(n: u128) -> (r: String)
    ensures
        r@ == decimal(n as nat),
{
    n.to_string()
}

/// An attribute with the given key and value.
pub(crate) fn attribute(key: &str, value: String) -> (r: Attribute)
    ensures
        r.key@ == key@,
        r.value@ == value@,
{
    Attribute { key: key.to_owned(), value }
}

} // verus!
