use vstd::prelude::*;

use crate::error::ContractError;
use crate::msg::{attribute, decimal, decimal_string, Coin, Response, Transfer};
use crate::state::{Auction, Config, Status};

verus! {

/// Amount of the first coin of `funds` in `denom`, zero if there is none.
pub open spec fn attached_amount(funds: Seq<Coin>, denom: Seq<char>) -> u128
    decreases funds.len(),
{
    if funds.len() == 0 {
        0
    } else if funds[0].denom@ == denom {
        funds[0].amount
    } else {
        attached_amount(funds.drop_first(), denom)
    }
}

/// What a bid of `funds` adds to the bidder's total: the attached amount
/// less the commission.
pub open spec fn net_bid(a: Auction, funds: Seq<Coin>) -> int {
    attached_amount(funds, a.config.denom@) - a.config.commission
}

/// The total of `sender` should a bid of `funds` be accepted.
pub open spec fn new_total(a: Auction, sender: Seq<char>, funds: Seq<Coin>) -> int {
    a.ledger_amount(sender) + net_bid(a, funds)
}

/// The error that a bid of `funds` by `sender` meets, if any.
pub open spec fn bid_rejection(a: Auction, sender: Seq<char>, funds: Seq<Coin>) -> Option<
    ContractError,
> {
    let gross = attached_amount(funds, a.config.denom@);
    let total = new_total(a, sender, funds);
    if !a.is_open() {
        Some(ContractError::ClosedAcution)
    } else if sender == a.config.owner@ {
        Some(ContractError::InvalidBid { owner: a.config.owner })
    } else if gross == 0 {
        Some(ContractError::InsufficientFunds)
    } else if a.config.commission > 0 && gross < a.config.commission {
        Some(ContractError::InsufficientFundsForCommission { funds: gross, commission: a.config.commission })
    } else if total > u128::MAX {
        Some(ContractError::Overflow)
    } else if total <= a.highest_amount() {
        Some(
            ContractError::InsufficientBid {
                existing: a.ledger_amount(sender),
                funds: net_bid(a, funds) as u128,
                new_bid: total as u128,
                max_bid: a.highest_amount(),
            },
        )
    } else {
        None
    }
}

/// `post` is `pre` once a bid of `funds` by `sender` has been accepted: the
/// sender leads with their new total, which the ledger records.
pub open spec fn bid_step(pre: Auction, sender: Seq<char>, funds: Seq<Coin>, post: Auction) -> bool {
    let total = new_total(pre, sender, funds);
    &&& bid_rejection(pre, sender, funds) is None
    &&& post.config == pre.config
    &&& post.state.current_status == pre.state.current_status
    &&& match post.state.highest_bid {
        Some(b) => b.0@ == sender && b.1 == total,
        None => false,
    }
    &&& post.bids@ == pre.bids@.insert(sender, total as u128)
}

/// `r` answers an accepted bid by `sender` that brought their total to
/// `total`: the commission, if any, goes to the owner.
pub open spec fn bid_response(r: Response, cfg: Config, sender: Seq<char>, total: u128) -> bool {
    let recorded = seq![
        ("action"@, "bid"@),
        ("sender"@, sender),
        ("current_highest_bid"@, decimal(total as nat)),
    ];
    if cfg.commission > 0 {
        &&& r.messages@.len() == 1
        &&& r.messages@[0].sends(cfg.owner@, cfg.commission, cfg.denom@)
        &&& r.attribute_pairs() == seq![("commission_payer"@, sender)] + recorded
    } else {
        &&& r.messages@.len() == 0
        &&& r.attribute_pairs() == recorded
    }
}

/// Amount of the first coin of `funds` in `denom`, zero if there is none.
fn attached(funds: &Vec<Coin>, denom: &String) -> (r: u128)
    ensures
        r == attached_amount(funds@, denom@),
{
    let mut i: usize = 0;
    assert(funds@.subrange(0, funds@.len() as int) =~= funds@);
    while i < funds.len()
        invariant
            i <= funds@.len(),
            attached_amount(funds@, denom@) == attached_amount(funds@.subrange(i as int, funds@.len() as int), denom@),
        decreases funds@.len() - i,
    {
        let ghost rest = funds@.subrange(i as int, funds@.len() as int);
        assert(rest.drop_first() =~= funds@.subrange(i + 1, funds@.len() as int));
        if funds[i].denom == *denom {
            return funds[i].amount;
        }
        i = i + 1;
    }
    assert(funds@.subrange(i as int, funds@.len() as int).len() == 0);
    0
}

/// Places a bid of the attached `funds` by `sender`.
///
/// The commission, if any, is taken from the attached amount and sent to the
/// owner; the rest is added to the sender's total, which must then exceed the
/// leading total.
pub fn bid(a: &mut Auction, sender: &String, funds: &Vec<Coin>) -> (r: Result<Response, ContractError>)
    ensures
        match bid_rejection(*old(a), sender@, funds@) {
            Some(e) => r == Err::<Response, ContractError>(e) && *final(a) == *old(a),
            None => match r {
                Ok(resp) => {
                    &&& bid_step(*old(a), sender@, funds@, *final(a))
                    &&& bid_response(resp, old(a).config, sender@, new_total(*old(a), sender@, funds@) as u128)
                },
                Err(_) => false,
            },
        },
        old(a).consistent() ==> final(a).consistent(),
{
    if a.state.current_status == Status::Closed {
        return Err(ContractError::ClosedAcution);
    }
    if a.config.owner == *sender {
        return Err(ContractError::InvalidBid { owner: a.config.owner.clone() });
    }
    let highest_amount: u128 = match &a.state.highest_bid {
        Some(b) => b.1,
        None => 0,
    };
    let funds_amount = attached(funds, &a.config.denom);
    if funds_amount == 0 {
        return Err(ContractError::InsufficientFunds);
    }
    let commission = a.config.commission;
    if commission > 0 && funds_amount < commission {
        return Err(ContractError::InsufficientFundsForCommission { funds: funds_amount, commission });
    }
    let net_bid = funds_amount - commission;
    let existing: u128 = match a.bids.get(sender) {
        Some(amount) => amount,
        None => 0,
    };
    let new_bid = match existing.checked_add(net_bid) {
        Some(total) => total,
        None => return Err(ContractError::Overflow),
    };
    if new_bid <= highest_amount {
        return Err(
            ContractError::InsufficientBid { existing, funds: net_bid, new_bid, max_bid: highest_amount },
        );
    }
    let mut messages: Vec<Transfer> = Vec::new();
    let mut attributes = Vec::new();
    if commission > 0 {
        messages.push(
            Transfer { to_address: a.config.owner.clone(), denom: a.config.denom.clone(), amount: commission },
        );
        attributes.push(attribute("commission_payer", sender.clone()));
    }
    let ghost pre = *a;
    a.bids.set(sender, new_bid);
    a.state.highest_bid = Some((sender.clone(), new_bid));
    attributes.push(attribute("action", "bid".to_owned()));
    attributes.push(attribute("sender", sender.clone()));
    attributes.push(attribute("current_highest_bid", decimal_string(new_bid)));
    let resp = Response { messages, attributes };
    assert(resp.attribute_pairs() =~= if commission > 0 {
        seq![("commission_payer"@, sender@)] + seq![
            ("action"@, "bid"@),
            ("sender"@, sender@),
            ("current_highest_bid"@, decimal(new_bid as nat)),
        ]
    } else {
        seq![
            ("action"@, "bid"@),
            ("sender"@, sender@),
            ("current_highest_bid"@, decimal(new_bid as nat)),
        ]
    });
    proof {
        if pre.consistent() {
            assert forall|who: Seq<char>| #[trigger] a.bids@.contains_key(who) implies 0 < a.bids@[who]
                <= a.highest_amount() by {
                if who != sender@ {
                    assert(pre.bids@.contains_key(who));
                }
            }
        }
    }
    Ok(resp)
}

/// The error that closing by `sender` meets, if any.
pub open spec fn close_rejection(a: Auction, sender: Seq<char>) -> Option<ContractError> {
    if !a.is_open() {
        Some(ContractError::ClosedAcution)
    } else if sender != a.config.owner@ {
        Some(ContractError::Unauthorized { owner: a.config.owner })
    } else {
        None
    }
}

/// `post` is `pre` once closed: the leading bid stands as the winner and its
/// entry leaves the ledger, the winning amount now being the owner's.
pub open spec fn close_step(pre: Auction, post: Auction) -> bool {
    &&& post.config == pre.config
    &&& post.state.current_status == Status::Closed
    &&& post.state.highest_bid == pre.state.highest_bid
    &&& post.bids@ == match pre.state.highest_bid {
        Some(b) => pre.bids@.remove(b.0@),
        None => pre.bids@,
    }
}

/// `r` answers the closing of an auction whose leading bid was `highest`:
/// the winning amount, if any, goes to the owner.
pub open spec fn close_response(
    r: Response,
    cfg: Config,
    highest: Option<(String, u128)>,
    sender: Seq<char>,
) -> bool {
    let recorded = seq![("action"@, "close"@), ("sender"@, sender)];
    match highest {
        Some(b) => {
            &&& r.messages@.len() == 1
            &&& r.messages@[0].sends(cfg.owner@, b.1, cfg.denom@)
            &&& r.attribute_pairs() == seq![("auction_collection"@, b.0@)] + recorded
        },
        None => {
            &&& r.messages@.len() == 0
            &&& r.attribute_pairs() == recorded
        },
    }
}

/// Closes the auction; only its owner may, and only once.
pub fn close(a: &mut Auction, sender: &String) -> (r: Result<Response, ContractError>)
    ensures
        match close_rejection(*old(a), sender@) {
            Some(e) => r == Err::<Response, ContractError>(e) && *final(a) == *old(a),
            None => match r {
                Ok(resp) => {
                    &&& close_step(*old(a), *final(a))
                    &&& close_response(resp, old(a).config, old(a).state.highest_bid, sender@)
                },
                Err(_) => false,
            },
        },
        old(a).consistent() ==> final(a).consistent(),
{
    if a.state.current_status == Status::Closed {
        return Err(ContractError::ClosedAcution);
    }
    if a.config.owner != *sender {
        return Err(ContractError::Unauthorized { owner: a.config.owner.clone() });
    }
    let ghost pre = *a;
    let mut messages: Vec<Transfer> = Vec::new();
    let mut attributes = Vec::new();
    match &a.state.highest_bid {
        Some(b) => {
            messages.push(
                Transfer { to_address: a.config.owner.clone(), denom: a.config.denom.clone(), amount: b.1 },
            );
            attributes.push(attribute("auction_collection", b.0.clone()));
            a.bids.remove(&b.0);
        },
        None => {},
    }
    a.state.current_status = Status::Closed;
    attributes.push(attribute("action", "close".to_owned()));
    attributes.push(attribute("sender", sender.clone()));
    let resp = Response { messages, attributes };
    proof {
        let recorded = seq![("action"@, "close"@), ("sender"@, sender@)];
        match pre.state.highest_bid {
            Some(b) => {
                assert(resp.attribute_pairs() =~= seq![("auction_collection"@, b.0@)] + recorded);
            },
            None => {
                assert(resp.attribute_pairs() =~= recorded);
            },
        }
        if pre.consistent() {
            assert forall|who: Seq<char>| #[trigger] a.bids@.contains_key(who) implies 0 < a.bids@[who]
                <= a.highest_amount() by {
                assert(pre.bids@.contains_key(who));
            }
        }
    }
    Ok(resp)
}

/// The error that retracting by `sender` meets, if any.
pub open spec fn retract_rejection(a: Auction, sender: Seq<char>) -> Option<ContractError> {
    if a.is_open() {
        Some(ContractError::OpenAcution)
    } else if !a.bids@.contains_key(sender) {
        Some(ContractError::InvalidRetract)
    } else {
        None
    }
}

/// Where retracted funds go: to `recipient` if given, else back to `sender`.
pub open spec fn retract_target(sender: Seq<char>, recipient: Option<String>) -> Seq<char> {
    match recipient {
        Some(to) => to@,
        None => sender,
    }
}

/// `post` is `pre` once `sender` has taken back what they paid in.
pub open spec fn retract_step(pre: Auction, sender: Seq<char>, post: Auction) -> bool {
    &&& post.config == pre.config
    &&& post.state == pre.state
    &&& post.bids@ == pre.bids@.remove(sender)
}

/// `r` answers a retraction by `sender` of `amount`, sent to `target`.
pub open spec fn retract_response(
    r: Response,
    cfg: Config,
    sender: Seq<char>,
    target: Seq<char>,
    amount: u128,
) -> bool {
    &&& r.messages@.len() == 1
    &&& r.messages@[0].sends(target, amount, cfg.denom@)
    &&& r.attribute_pairs() == seq![
        ("retracting_recipient"@, target),
        ("action"@, "retract"@),
        ("sender"@, sender),
    ]
}

/// After the auction has closed, hands a losing bidder back what they paid
/// in, to `recipient` if given, else to the bidder, and clears their entry.
pub fn retract(a: &mut Auction, sender: &String, recipient: Option<String>) -> (r: Result<
    Response,
    ContractError,
>)
    ensures
        match retract_rejection(*old(a), sender@) {
            Some(e) => r == Err::<Response, ContractError>(e) && *final(a) == *old(a),
            None => match r {
                Ok(resp) => {
                    &&& retract_step(*old(a), sender@, *final(a))
                    &&& retract_response(
                        resp,
                        old(a).config,
                        sender@,
                        retract_target(sender@, recipient),
                        old(a).bids@[sender@],
                    )
                },
                Err(_) => false,
            },
        },
        old(a).consistent() ==> final(a).consistent(),
{
    if a.state.current_status == Status::Open {
        return Err(ContractError::OpenAcution);
    }
    let amount = match a.bids.get(sender) {
        Some(amount) => amount,
        None => return Err(ContractError::InvalidRetract),
    };
    let target = match recipient {
        Some(to) => to,
        None => sender.clone(),
    };
    let ghost pre = *a;
    let messages = vec![Transfer { to_address: target.clone(), denom: a.config.denom.clone(), amount }];
    a.bids.remove(sender);
    let mut attributes = Vec::new();
    attributes.push(attribute("retracting_recipient", target));
    attributes.push(attribute("action", "retract".to_owned()));
    attributes.push(attribute("sender", sender.clone()));
    let resp = Response { messages, attributes };
    proof {
        assert(resp.attribute_pairs() =~= seq![
            ("retracting_recipient"@, retract_target(sender@, recipient)),
            ("action"@, "retract"@),
            ("sender"@, sender@),
        ]);
        if pre.consistent() {
            assert forall|who: Seq<char>| #[trigger] a.bids@.contains_key(who) implies 0 < a.bids@[who]
                <= a.highest_amount() by {
                assert(pre.bids@.contains_key(who));
            }
        }
    }
    Ok(resp)
}

} // verus!
