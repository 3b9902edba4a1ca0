use bidwasm::contract::{execute, instantiate, query};
use bidwasm::error::QueryError;
use bidwasm::exec::{bid, close, retract};
use bidwasm::msg::{Attribute, Coin, ExecuteMsg, InstantiateMsg, QueryMsg, QueryResp, Response, Transfer};
use bidwasm::query::{highest_bid, is_closed, total_bid, winner};
use bidwasm::state::{Auction, Status};
use bidwasm::ContractError;

fn s(text: &str) -> String {
    text.to_string()
}

fn coins(amount: u128, denom: &str) -> Vec<Coin> {
    vec![Coin { denom: s(denom), amount }]
}

fn auction(commission: Option<u128>) -> Auction {
    instantiate(
        &s("owner"),
        InstantiateMsg { denom: s("uatom"), owner: None, description: s("an item"), commission },
    )
}

fn attr(key: &str, value: &str) -> Attribute {
    Attribute { key: s(key), value: s(value) }
}

fn send(to: &str, amount: u128) -> Transfer {
    Transfer { to_address: s(to), denom: s("uatom"), amount }
}

#[test]
fn scenario_two_bidders_close_and_retract() {
    let mut a = auction(Some(500_000));

    let r = bid(&mut a, &s("A"), &coins(4_500_000, "uatom")).unwrap();
    assert_eq!(a.bids.get(&s("A")), Some(4_000_000));
    assert_eq!(r.messages, vec![send("owner", 500_000)]);

    bid(&mut a, &s("B"), &coins(7_500_000, "uatom")).unwrap();
    assert_eq!(a.state.highest_bid, Some((s("B"), 7_000_000)));

    let r = close(&mut a, &s("owner")).unwrap();
    assert_eq!(r.messages, vec![send("owner", 7_000_000)]);
    assert_eq!(a.bids.get(&s("B")), None);

    let r = retract(&mut a, &s("A"), None).unwrap();
    assert_eq!(r.messages, vec![send("A", 4_000_000)]);
    assert_eq!(a.bids.get(&s("A")), None);

    assert_eq!(retract(&mut a, &s("A"), None).unwrap_err(), ContractError::InvalidRetract);
}

#[test]
fn bid_of_exactly_the_commission_is_too_low() {
    let mut a = auction(Some(500_000));
    let err = bid(&mut a, &s("A"), &coins(500_000, "uatom")).unwrap_err();
    assert_eq!(err, ContractError::InsufficientBid { existing: 0, funds: 0, new_bid: 0, max_bid: 0 });
    assert_eq!(a.state.highest_bid, None);
    assert_eq!(a.bids.get(&s("A")), None);
}

#[test]
fn highest_bid_strictly_increases() {
    let mut a = auction(Some(0));
    let mut last = 0;
    for (who, amount) in [("A", 10u128), ("B", 11), ("A", 2), ("C", 40), ("B", 30)] {
        bid(&mut a, &s(who), &coins(amount, "uatom")).unwrap();
        let now = a.state.highest_bid.clone().unwrap().1;
        assert!(now > last);
        last = now;
    }
    assert_eq!(a.state.highest_bid, Some((s("B"), 41)));
}

#[test]
fn tie_is_rejected_and_changes_nothing() {
    let mut a = auction(Some(0));
    bid(&mut a, &s("A"), &coins(100, "uatom")).unwrap();
    let err = bid(&mut a, &s("B"), &coins(100, "uatom")).unwrap_err();
    assert_eq!(err, ContractError::InsufficientBid { existing: 0, funds: 100, new_bid: 100, max_bid: 100 });
    assert_eq!(a.state.highest_bid, Some((s("A"), 100)));
    assert_eq!(a.bids.get(&s("B")), None);
    // one more unit wins
    bid(&mut a, &s("B"), &coins(101, "uatom")).unwrap();
    assert_eq!(a.state.highest_bid, Some((s("B"), 101)));
}

#[test]
fn too_low_reports_net_and_new_total() {
    let mut a = auction(Some(5));
    bid(&mut a, &s("A"), &coins(105, "uatom")).unwrap();
    bid(&mut a, &s("B"), &coins(60, "uatom")).unwrap_err();
    bid(&mut a, &s("B"), &coins(205, "uatom")).unwrap();
    let err = bid(&mut a, &s("A"), &coins(55, "uatom")).unwrap_err();
    assert_eq!(err, ContractError::InsufficientBid { existing: 100, funds: 50, new_bid: 150, max_bid: 200 });
}

#[test]
fn commission_is_the_same_whatever_the_bid() {
    let mut a = auction(Some(7));
    let small = bid(&mut a, &s("A"), &coins(8, "uatom")).unwrap();
    let large = bid(&mut a, &s("B"), &coins(1_000_000, "uatom")).unwrap();
    assert_eq!(small.messages, vec![send("owner", 7)]);
    assert_eq!(large.messages, vec![send("owner", 7)]);

    let mut free = auction(None);
    let r = bid(&mut free, &s("A"), &coins(8, "uatom")).unwrap();
    assert!(r.messages.is_empty());
}

#[test]
fn bid_attributes_name_action_sender_and_total() {
    let mut a = auction(Some(500_000));
    let r = bid(&mut a, &s("A"), &coins(4_500_000, "uatom")).unwrap();
    assert_eq!(
        r.attributes,
        vec![
            attr("commission_payer", "A"),
            attr("action", "bid"),
            attr("sender", "A"),
            attr("current_highest_bid", "4000000"),
        ]
    );

    let mut free = auction(None);
    let r = bid(&mut free, &s("A"), &coins(90, "uatom")).unwrap();
    assert_eq!(
        r.attributes,
        vec![attr("action", "bid"), attr("sender", "A"), attr("current_highest_bid", "90")]
    );
}

#[test]
fn owner_cannot_bid_open_or_closed() {
    let mut a = auction(Some(0));
    assert_eq!(
        bid(&mut a, &s("owner"), &coins(10, "uatom")).unwrap_err(),
        ContractError::InvalidBid { owner: s("owner") }
    );
    close(&mut a, &s("owner")).unwrap();
    assert!(bid(&mut a, &s("owner"), &coins(10, "uatom")).is_err());
}

#[test]
fn no_funds_of_the_denomination() {
    let mut a = auction(Some(0));
    assert_eq!(bid(&mut a, &s("A"), &coins(10, "uosmo")).unwrap_err(), ContractError::InsufficientFunds);
    assert_eq!(bid(&mut a, &s("A"), &Vec::new()).unwrap_err(), ContractError::InsufficientFunds);
    assert_eq!(bid(&mut a, &s("A"), &coins(0, "uatom")).unwrap_err(), ContractError::InsufficientFunds);
    // the first coin of the denomination counts
    let funds = vec![Coin { denom: s("uosmo"), amount: 3 }, Coin { denom: s("uatom"), amount: 9 }];
    bid(&mut a, &s("A"), &funds).unwrap();
    assert_eq!(a.bids.get(&s("A")), Some(9));
}

#[test]
fn total_that_does_not_fit_overflows() {
    let mut a = auction(Some(0));
    bid(&mut a, &s("A"), &coins(10, "uatom")).unwrap();
    bid(&mut a, &s("B"), &coins(20, "uatom")).unwrap();
    let err = bid(&mut a, &s("A"), &coins(u128::MAX, "uatom")).unwrap_err();
    assert_eq!(err, ContractError::Overflow);
    assert_eq!(a.bids.get(&s("A")), Some(10));
}

#[test]
fn close_succeeds_once() {
    let mut a = auction(Some(0));
    bid(&mut a, &s("A"), &coins(10, "uatom")).unwrap();
    let r = close(&mut a, &s("owner")).unwrap();
    assert_eq!(r.attributes, vec![attr("auction_collection", "A"), attr("action", "close"), attr("sender", "owner")]);
    assert_eq!(close(&mut a, &s("owner")).unwrap_err(), ContractError::ClosedAcution);
    assert_eq!(a.state.current_status, Status::Closed);
    assert_eq!(a.state.highest_bid, Some((s("A"), 10)));
}

#[test]
fn close_without_bids_sends_nothing() {
    let mut a = auction(Some(3));
    let r = close(&mut a, &s("owner")).unwrap();
    assert!(r.messages.is_empty());
    assert_eq!(r.attributes, vec![attr("action", "close"), attr("sender", "owner")]);
}

#[test]
fn retract_while_open_is_rejected() {
    let mut a = auction(Some(0));
    assert_eq!(retract(&mut a, &s("A"), None).unwrap_err(), ContractError::OpenAcution);
    bid(&mut a, &s("A"), &coins(10, "uatom")).unwrap();
    assert_eq!(retract(&mut a, &s("A"), None).unwrap_err(), ContractError::OpenAcution);
    assert_eq!(a.bids.get(&s("A")), Some(10));
}

#[test]
fn retract_to_recipient_clears_the_callers_entry() {
    let mut a = auction(Some(0));
    bid(&mut a, &s("A"), &coins(10, "uatom")).unwrap();
    bid(&mut a, &s("B"), &coins(20, "uatom")).unwrap();
    close(&mut a, &s("owner")).unwrap();
    let r = retract(&mut a, &s("A"), Some(s("friend"))).unwrap();
    assert_eq!(r.messages, vec![send("friend", 10)]);
    assert_eq!(
        r.attributes,
        vec![attr("retracting_recipient", "friend"), attr("action", "retract"), attr("sender", "A")]
    );
    assert_eq!(a.bids.get(&s("A")), None);
    assert_eq!(
        retract(&mut a, &s("A"), Some(s("someone_else"))).unwrap_err(),
        ContractError::InvalidRetract
    );
}

#[test]
fn winner_cannot_retract_after_others_did() {
    let mut a = auction(Some(0));
    bid(&mut a, &s("A"), &coins(10, "uatom")).unwrap();
    bid(&mut a, &s("B"), &coins(20, "uatom")).unwrap();
    close(&mut a, &s("owner")).unwrap();
    retract(&mut a, &s("A"), None).unwrap();
    assert_eq!(retract(&mut a, &s("B"), None).unwrap_err(), ContractError::InvalidRetract);
}

#[test]
fn queries_answer_from_the_state() {
    let mut a = auction(Some(1));
    assert_eq!(total_bid(&a, &s("A")).unwrap_err(), QueryError::NoBidFrom { address: s("A") });
    assert_eq!(highest_bid(&a).unwrap_err(), QueryError::NoBid);
    assert_eq!(winner(&a).unwrap_err(), QueryError::StillOpen);
    assert!(!is_closed(&a));

    bid(&mut a, &s("A"), &coins(11, "uatom")).unwrap();
    assert_eq!(query(&a, QueryMsg::TotalBid { address: s("A") }).unwrap(), QueryResp::TotalBid(10));
    close(&mut a, &s("owner")).unwrap();
    assert!(is_closed(&a));
    assert_eq!(query(&a, QueryMsg::IsClosed {}).unwrap(), QueryResp::IsClosed(true));
    let w = query(&a, QueryMsg::Winner {}).unwrap();
    assert_eq!(w, QueryResp::Winner(bidwasm::msg::BidResp { address: s("A"), amount: 10 }));
    assert_eq!(QueryError::StillOpen.to_string(), "The auction is yet open");
}

#[test]
fn execute_dispatches_each_action() {
    let mut a = auction(Some(0));
    let r: Response = execute(&mut a, &s("A"), &coins(5, "uatom"), ExecuteMsg::Bid {}).unwrap();
    assert!(r.messages.is_empty());
    let err = execute(&mut a, &s("A"), &Vec::new(), ExecuteMsg::Close {}).unwrap_err();
    assert_eq!(err, ContractError::Unauthorized { owner: s("owner") });
    execute(&mut a, &s("owner"), &Vec::new(), ExecuteMsg::Close {}).unwrap();
    let err = execute(&mut a, &s("A"), &Vec::new(), ExecuteMsg::Retract { recipient: None }).unwrap_err();
    assert_eq!(err, ContractError::InvalidRetract);
}
