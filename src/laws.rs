use vstd::prelude::*;

use crate::error::ContractError;
use crate::exec::{
    attached_amount, bid_rejection, bid_response, bid_step, close_rejection, close_response,
    close_step, net_bid, new_total, retract_rejection,
};
use crate::msg::{Coin, Response};
use crate::state::{Auction, Config};

verus! {

/// An accepted bid raises the leading total.
pub proof fn lemma_accepted_bid_raises_highest(
    pre: Auction,
    sender: Seq<char>,
    funds: Seq<Coin>,
    post: Auction,
)
    requires
        bid_step(pre, sender, funds, post),
    ensures
        pre.highest_amount() < post.highest_amount(),
{
}

/// Along any run of accepted bids, the leading total strictly increases:
/// `runs[i + 1]` is `runs[i]` after the bid of `funds[i]` by `senders[i]`.
pub proof fn lemma_highest_strictly_increasing(
    runs: Seq<Auction>,
    senders: Seq<Seq<char>>,
    funds: Seq<Seq<Coin>>,
)
    requires
        runs.len() == senders.len() + 1,
        funds.len() == senders.len(),
        forall|i: int|
            0 <= i < senders.len() ==> #[trigger] bid_step(runs[i], senders[i], funds[i], runs[i + 1]),
    ensures
        forall|i: int, j: int|
            0 <= i < j < runs.len() ==> runs[i].highest_amount() < runs[j].highest_amount(),
{
    assert forall|i: int, j: int| 0 <= i < j < runs.len() implies runs[i].highest_amount()
        < runs[j].highest_amount() by {
        lemma_run_increases(runs, senders, funds, i, j);
    }
}

proof fn lemma_run_increases(
    runs: Seq<Auction>,
    senders: Seq<Seq<char>>,
    funds: Seq<Seq<Coin>>,
    i: int,
    j: int,
)
    requires
        runs.len() == senders.len() + 1,
        funds.len() == senders.len(),
        forall|k: int|
            0 <= k < senders.len() ==> #[trigger] bid_step(runs[k], senders[k], funds[k], runs[k + 1]),
        0 <= i < j < runs.len(),
    ensures
        runs[i].highest_amount() < runs[j].highest_amount(),
    decreases j - i,
{
    let k = j - 1;
    assert(bid_step(runs[k], senders[k], funds[k], runs[k + 1]));
    if k > i {
        lemma_run_increases(runs, senders, funds, i, k);
    }
}

/// On an open auction, for a bidder other than the owner who attaches a
/// positive amount of the auction's denomination covering the commission,
/// the bid is accepted exactly when the bidder's new total exceeds the
/// leading one, and is otherwise rejected as too low.
pub proof fn lemma_accepted_iff_exceeds(a: Auction, sender: Seq<char>, funds: Seq<Coin>)
    requires
        a.is_open(),
        sender != a.config.owner@,
        attached_amount(funds, a.config.denom@) > 0,
        attached_amount(funds, a.config.denom@) >= a.config.commission,
        new_total(a, sender, funds) <= u128::MAX,
    ensures
        bid_rejection(a, sender, funds) is None <==> new_total(a, sender, funds) > a.highest_amount(),
        new_total(a, sender, funds) <= a.highest_amount() ==> bid_rejection(a, sender, funds) == Some(
            ContractError::InsufficientBid {
                existing: a.ledger_amount(sender),
                funds: net_bid(a, funds) as u128,
                new_bid: new_total(a, sender, funds) as u128,
                max_bid: a.highest_amount(),
            },
        ),
{
}

/// An accepted bid pays the owner exactly the commission when there is one,
/// whatever the bid's size, and pays nobody anything when there is none.
pub proof fn lemma_commission_exact(r: Response, cfg: Config, sender: Seq<char>, total: u128)
    requires
        bid_response(r, cfg, sender, total),
    ensures
        cfg.commission > 0 ==> r.messages@.len() == 1 && r.messages@[0].sends(
            cfg.owner@,
            cfg.commission,
            cfg.denom@,
        ),
        cfg.commission == 0 ==> r.messages@.len() == 0,
{
}

/// The owner's bids are always rejected.
pub proof fn lemma_owner_cannot_bid(a: Auction, funds: Seq<Coin>)
    ensures
        bid_rejection(a, a.config.owner@, funds) is Some,
{
}

/// The owner can close an open auction, and once it is closed every further
/// attempt to close it is rejected as closed.
pub proof fn lemma_close_once(pre: Auction, sender: Seq<char>, post: Auction, again: Seq<char>)
    requires
        close_rejection(pre, sender) is None,
        close_step(pre, post),
    ensures
        pre.is_open(),
        sender == pre.config.owner@,
        close_rejection(post, again) == Some(ContractError::ClosedAcution),
{
}

/// Closing settles the winner: their entry leaves the ledger, the winning
/// amount goes to the owner, and the winner cannot retract.
pub proof fn lemma_close_settles_winner(
    pre: Auction,
    sender: Seq<char>,
    post: Auction,
    r: Response,
)
    requires
        close_rejection(pre, sender) is None,
        close_step(pre, post),
        close_response(r, pre.config, pre.state.highest_bid, sender),
        pre.state.highest_bid is Some,
    ensures
        ({
            let (winner, amount) = pre.state.highest_bid.unwrap();
            &&& !post.bids@.contains_key(winner@)
            &&& r.messages@.len() == 1
            &&& r.messages@[0].sends(pre.config.owner@, amount, pre.config.denom@)
            &&& retract_rejection(post, winner@) == Some(ContractError::InvalidRetract)
        }),
{
}

/// In every consistent closed auction the winner has nothing to retract.
pub proof fn lemma_winner_never_retracts(a: Auction)
    requires
        a.consistent(),
        !a.is_open(),
        a.state.highest_bid is Some,
    ensures
        retract_rejection(a, a.state.highest_bid.unwrap().0@) == Some(ContractError::InvalidRetract),
{
}

/// While the auction is open, retracting is always rejected.
pub proof fn lemma_no_retract_while_open(a: Auction, sender: Seq<char>)
    requires
        a.is_open(),
    ensures
        retract_rejection(a, sender) == Some(ContractError::OpenAcution),
{
}

} // verus!
