use vstd::prelude::*;

use crate::error::{ContractError, QueryError};
use crate::exec::{
    bid, bid_rejection, bid_response, bid_step, close, close_rejection, close_response, close_step,
    new_total, retract, retract_rejection, retract_response, retract_step, retract_target,
};
use crate::ledger::Bids;
use crate::msg::{Coin, ExecuteMsg, InstantiateMsg, QueryMsg, QueryResp, Response};
use crate::query::{highest_bid, is_closed, leading, total_bid, winner};
use crate::state::{Auction, Config, State, Status};

verus! {

/// Opens an auction created by `sender`: the owner is the one named in `msg`,
/// else `sender`; the commission is zero unless given.
pub fn instantiate(sender: &String, msg: InstantiateMsg) -> (a: Auction)
    ensures
        a.config.denom == msg.denom,
        a.config.owner == match msg.owner {
            Some(owner) => owner,
            None => *sender,
        },
        a.config.description == msg.description,
        a.config.commission == match msg.commission {
            Some(c) => c,
            None => 0,
        },
        a.state == (State { current_status: Status::Open, highest_bid: None }),
        a.bids@ == Map::<Seq<char>, u128>::empty(),
        a.consistent(),
{
    let owner = match msg.owner {
        Some(owner) => owner,
        None => sender.clone(),
    };
    let commission: u128 = match msg.commission {
        Some(c) => c,
        None => 0,
    };
    Auction {
        config: Config { denom: msg.denom, owner, description: msg.description, commission },
        state: State { current_status: Status::Open, highest_bid: None },
        bids: Bids::new(),
    }
}

/// Carries out `msg`, sent by `sender` with `funds` attached.
pub fn execute(a: &mut Auction, sender: &String, funds: &Vec<Coin>, msg: ExecuteMsg) -> (r: Result<
    Response,
    ContractError,
>)
    ensures
        match msg {
            ExecuteMsg::Bid {  } => match bid_rejection(*old(a), sender@, funds@) {
                Some(e) => r == Err::<Response, ContractError>(e) && *final(a) == *old(a),
                None => match r {
                    Ok(resp) => {
                        &&& bid_step(*old(a), sender@, funds@, *final(a))
                        &&& bid_response(
                            resp,
                            old(a).config,
                            sender@,
                            new_total(*old(a), sender@, funds@) as u128,
                        )
                    },
                    Err(_) => false,
                },
            },
            ExecuteMsg::Close {  } => match close_rejection(*old(a), sender@) {
                Some(e) => r == Err::<Response, ContractError>(e) && *final(a) == *old(a),
                None => match r {
                    Ok(resp) => {
                        &&& close_step(*old(a), *final(a))
                        &&& close_response(resp, old(a).config, old(a).state.highest_bid, sender@)
                    },
                    Err(_) => false,
                },
            },
            ExecuteMsg::Retract { recipient } => match retract_rejection(*old(a), sender@) {
                Some(e) => r == Err::<Response, ContractError>(e) && *final(a) == *old(a),
                None => match r {
                    Ok(resp) => {
                        &&& retract_step(*old(a), sender@, *final(a))
                        &&& retract_response(
                            resp,
                            old(a).config,
                            sender@,
                            retract_target(sender@, recipient),
                            old(a).bids@[sender@],
                        )
                    },
                    Err(_) => false,
                },
            },
        },
        old(a).consistent() ==> final(a).consistent(),
{
    match msg {
        ExecuteMsg::Bid {  } => bid(a, sender, funds),
        ExecuteMsg::Close {  } => close(a, sender),
        ExecuteMsg::Retract { recipient } => retract(a, sender, recipient),
    }
}

/// Answers `msg` about the auction.
pub fn query(a: &Auction, msg: QueryMsg) -> (r: Result<QueryResp, QueryError>)
    ensures
        r == match msg {
            QueryMsg::TotalBid { address } => if a.bids@.contains_key(address@) {
                Ok(QueryResp::TotalBid(a.bids@[address@]))
            } else {
                Err(QueryError::NoBidFrom { address })
            },
            QueryMsg::HighestBid {  } => match leading(*a) {
                Ok(b) => Ok(QueryResp::HighestBid(b)),
                Err(e) => Err(e),
            },
            QueryMsg::IsClosed {  } => Ok(QueryResp::IsClosed(!a.is_open())),
            QueryMsg::Winner {  } => if a.is_open() {
                Err(QueryError::StillOpen)
            } else {
                match leading(*a) {
                    Ok(b) => Ok(QueryResp::Winner(b)),
                    Err(e) => Err(e),
                }
            },
        },
{
    match msg {
        QueryMsg::TotalBid { address } => match total_bid(a, &address) {
            Ok(amount) => Ok(QueryResp::TotalBid(amount)),
            Err(e) => Err(e),
        },
        QueryMsg::HighestBid {  } => match highest_bid(a) {
            Ok(b) => Ok(QueryResp::HighestBid(b)),
            Err(e) => Err(e),
        },
        QueryMsg::IsClosed {  } => Ok(QueryResp::IsClosed(is_closed(a))),
        QueryMsg::Winner {  } => match winner(a) {
            Ok(b) => Ok(QueryResp::Winner(b)),
            Err(e) => Err(e),
        },
    }
}

} // verus!
