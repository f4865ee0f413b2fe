use cw20_allowances::allowance_store::AllowanceResponse;
use cw20_allowances::allowance_store::AllowanceStore;
use cw20_allowances::allowances::execute_decrease_allowance;
use cw20_allowances::allowances::execute_increase_allowance;
use cw20_allowances::allowances::query_allowance;
use cw20_allowances::balances::BalanceLedger;
use cw20_allowances::errors::ContractError;
use cw20_allowances::expiration::BlockInfo;
use cw20_allowances::expiration::Env;
use cw20_allowances::expiration::Expiration;
use cw20_allowances::responses::Attribute;
use cw20_allowances::responses::ReceiveNotification;
use cw20_allowances::spend::execute_burn_from;
use cw20_allowances::spend::execute_send_from;
use cw20_allowances::spend::execute_transfer_from;

/// The logical clock every test starts from.
fn mock_env() -> Env {
    Env { block: BlockInfo { height: 12_345, time: 1_571_797_419_879_305_533 } }
}

fn at_seconds(s: u64) -> u64 {
    s * 1_000_000_000
}

fn attr(key: &str, value: &str) -> Attribute {
    Attribute { key: key.to_string(), value: value.to_string() }
}

/// Sets up the owner's starting balance, as instantiation would.
fn do_instantiate(balances: &mut BalanceLedger, addr: &String, amount: u128) {
    balances.credit(addr, amount).unwrap();
}

#[test]
fn increase_decrease_allowances() {
    let mut store = AllowanceStore::new();
    let mut balances = BalanceLedger::new();

    let owner = "addr0001".to_string();
    let spender = "addr0002".to_string();
    let env = mock_env();
    do_instantiate(&mut balances, &owner, 12340000);

    // no allowance to start
    let allowance = query_allowance(&store, &owner, &spender);
    assert_eq!(allowance, AllowanceResponse::default());

    // set allowance with height expiration
    let allow1: u128 = 7777;
    let expires = Expiration::AtHeight(123_456);
    execute_increase_allowance(&mut store, &env, &owner, &spender, allow1, Some(expires)).unwrap();

    // ensure it looks good
    let allowance = query_allowance(&store, &owner, &spender);
    assert_eq!(allowance, AllowanceResponse { allowance: allow1, expires });

    // decrease it a bit with no expire set - stays the same
    let lower: u128 = 4444;
    let allow2 = allow1 - lower;
    execute_decrease_allowance(&mut store, &env, &owner, &spender, lower, None).unwrap();
    let allowance = query_allowance(&store, &owner, &spender);
    assert_eq!(allowance, AllowanceResponse { allowance: allow2, expires });

    // increase it some more and override the expires
    let raise: u128 = 87654;
    let allow3 = allow2 + raise;
    let new_expire = Expiration::AtTime(at_seconds(8888888888));
    execute_increase_allowance(&mut store, &env, &owner, &spender, raise, Some(new_expire)).unwrap();
    let allowance = query_allowance(&store, &owner, &spender);
    assert_eq!(allowance, AllowanceResponse { allowance: allow3, expires: new_expire });

    // decrease it below 0
    execute_decrease_allowance(&mut store, &env, &owner, &spender, 99988647623876347, None).unwrap();
    let allowance = query_allowance(&store, &owner, &spender);
    assert_eq!(allowance, AllowanceResponse::default());
}

#[test]
fn allowances_independent() {
    let mut store = AllowanceStore::new();
    let mut balances = BalanceLedger::new();

    let owner = "addr0001".to_string();
    let spender = "addr0002".to_string();
    let spender2 = "addr0003".to_string();
    let env = mock_env();
    do_instantiate(&mut balances, &owner, 12340000);

    // no allowance to start
    assert_eq!(query_allowance(&store, &owner, &spender), AllowanceResponse::default());
    assert_eq!(query_allowance(&store, &owner, &spender2), AllowanceResponse::default());
    assert_eq!(query_allowance(&store, &spender, &spender2), AllowanceResponse::default());

    // set allowance with height expiration
    let allow1: u128 = 7777;
    let expires = Expiration::AtHeight(123_456);
    execute_increase_allowance(&mut store, &env, &owner, &spender, allow1, Some(expires)).unwrap();

    // set other allowance with no expiration
    let allow2: u128 = 87654;
    execute_increase_allowance(&mut store, &env, &owner, &spender2, allow2, None).unwrap();

    // check they are proper
    let expect_one = AllowanceResponse { allowance: allow1, expires };
    let expect_two = AllowanceResponse { allowance: allow2, expires: Expiration::Never };
    assert_eq!(query_allowance(&store, &owner, &spender), expect_one);
    assert_eq!(query_allowance(&store, &owner, &spender2), expect_two);
    assert_eq!(query_allowance(&store, &spender, &spender2), AllowanceResponse::default());

    // also allow spender -> spender2 with no interference
    let allow3: u128 = 1821;
    let expires3 = Expiration::AtTime(at_seconds(3767626296));
    execute_increase_allowance(&mut store, &env, &spender, &spender2, allow3, Some(expires3))
        .unwrap();
    let expect_three = AllowanceResponse { allowance: allow3, expires: expires3 };
    assert_eq!(query_allowance(&store, &owner, &spender), expect_one);
    assert_eq!(query_allowance(&store, &owner, &spender2), expect_two);
    assert_eq!(query_allowance(&store, &spender, &spender2), expect_three);
}

#[test]
fn no_self_allowance() {
    let mut store = AllowanceStore::new();
    let mut balances = BalanceLedger::new();

    let owner = "addr0001".to_string();
    let env = mock_env();
    do_instantiate(&mut balances, &owner, 12340000);

    // self-allowance
    let err =
        execute_increase_allowance(&mut store, &env, &owner, &owner, 7777, None).unwrap_err();
    assert_eq!(err, ContractError::CannotSetOwnAccount);

    // decrease self-allowance
    let err =
        execute_decrease_allowance(&mut store, &env, &owner, &owner, 7777, None).unwrap_err();
    assert_eq!(err, ContractError::CannotSetOwnAccount);
}

#[test]
fn transfer_from_respects_limits() {
    let mut store = AllowanceStore::new();
    let mut balances = BalanceLedger::new();
    let owner = "addr0001".to_string();
    let spender = "addr0002".to_string();
    let rcpt = "addr0003".to_string();

    let start: u128 = 999999;
    do_instantiate(&mut balances, &owner, start);

    // provide an allowance
    let allow1: u128 = 77777;
    let env = mock_env();
    execute_increase_allowance(&mut store, &env, &owner, &spender, allow1, None).unwrap();

    // valid transfer of part of the allowance
    let transfer: u128 = 44444;
    let res = execute_transfer_from(&mut store, &mut balances, &env, &spender, &owner, &rcpt, transfer)
        .unwrap();
    assert_eq!(res.attributes[0], attr("action", "transfer_from"));

    // make sure money arrived
    assert_eq!(balances.query_balance(&owner), start - transfer);
    assert_eq!(balances.query_balance(&rcpt), transfer);

    // ensure it looks good
    let allowance = query_allowance(&store, &owner, &spender);
    let expect = AllowanceResponse { allowance: allow1 - transfer, expires: Expiration::Never };
    assert_eq!(expect, allowance);

    // cannot send more than the allowance
    let err = execute_transfer_from(&mut store, &mut balances, &env, &spender, &owner, &rcpt, 33443)
        .unwrap_err();
    assert_eq!(err, ContractError::Overflow);

    // let us increase limit, but set the expiration to expire in the next block
    let mut env = mock_env();
    execute_increase_allowance(
        &mut store,
        &env,
        &owner,
        &spender,
        1000,
        Some(Expiration::AtHeight(env.block.height + 1)),
    )
    .unwrap();

    env.block.height += 1;

    // we should now get the expiration error
    let err = execute_transfer_from(&mut store, &mut balances, &env, &spender, &owner, &rcpt, 33443)
        .unwrap_err();
    assert_eq!(err, ContractError::Expired);
}

#[test]
fn burn_from_respects_limits() {
    let mut store = AllowanceStore::new();
    let mut balances = BalanceLedger::new();
    let owner = "addr0001".to_string();
    let spender = "addr0002".to_string();

    let start: u128 = 999999;
    do_instantiate(&mut balances, &owner, start);

    // provide an allowance
    let allow1: u128 = 77777;
    let env = mock_env();
    execute_increase_allowance(&mut store, &env, &owner, &spender, allow1, None).unwrap();

    // valid burn of part of the allowance
    let transfer: u128 = 44444;
    let res =
        execute_burn_from(&mut store, &mut balances, &env, &spender, &owner, transfer).unwrap();
    assert_eq!(res.attributes[0], attr("action", "burn_from"));

    // make sure money burnt
    assert_eq!(balances.query_balance(&owner), start - transfer);

    // ensure it looks good
    let allowance = query_allowance(&store, &owner, &spender);
    let expect = AllowanceResponse { allowance: allow1 - transfer, expires: Expiration::Never };
    assert_eq!(expect, allowance);

    // cannot burn more than the allowance
    let err = execute_burn_from(&mut store, &mut balances, &env, &spender, &owner, 33443)
        .unwrap_err();
    assert_eq!(err, ContractError::Overflow);

    // let us increase limit, but set the expiration to expire in the next block
    let mut env = mock_env();
    execute_increase_allowance(
        &mut store,
        &env,
        &owner,
        &spender,
        1000,
        Some(Expiration::AtHeight(env.block.height + 1)),
    )
    .unwrap();

    // increase block height, so the limit is expired now
    env.block.height += 1;

    // we should now get the expiration error
    let err = execute_burn_from(&mut store, &mut balances, &env, &spender, &owner, 33443)
        .unwrap_err();
    assert_eq!(err, ContractError::Expired);
}

#[test]
fn send_from_respects_limits() {
    let mut store = AllowanceStore::new();
    let mut balances = BalanceLedger::new();
    let owner = "addr0001".to_string();
    let spender = "addr0002".to_string();
    let contract = "addr0003".to_string();
    let send_msg: Vec<u8> = r#"{"some":123}"#.as_bytes().to_vec();

    let start: u128 = 999999;
    do_instantiate(&mut balances, &owner, start);

    // provide an allowance
    let allow1: u128 = 77777;
    let env = mock_env();
    execute_increase_allowance(&mut store, &env, &owner, &spender, allow1, None).unwrap();

    // valid send of part of the allowance
    let transfer: u128 = 44444;
    let res = execute_send_from(
        &mut store,
        &mut balances,
        &env,
        &spender,
        &owner,
        &contract,
        transfer,
        send_msg.clone(),
    )
    .unwrap();
    assert_eq!(res.attributes[0], attr("action", "send_from"));
    assert_eq!(1, res.messages.len());

    // we record this as sent by the one who requested, not the one who was paying
    assert_eq!(
        res.messages[0],
        ReceiveNotification {
            contract: contract.clone(),
            sender: spender.clone(),
            amount: transfer,
            msg: send_msg.clone(),
        }
    );

    // make sure money sent
    assert_eq!(balances.query_balance(&owner), start - transfer);
    assert_eq!(balances.query_balance(&contract), transfer);

    // ensure it looks good
    let allowance = query_allowance(&store, &owner, &spender);
    let expect = AllowanceResponse { allowance: allow1 - transfer, expires: Expiration::Never };
    assert_eq!(expect, allowance);

    // cannot send more than the allowance
    let err = execute_send_from(
        &mut store,
        &mut balances,
        &env,
        &spender,
        &owner,
        &contract,
        33443,
        send_msg.clone(),
    )
    .unwrap_err();
    assert_eq!(err, ContractError::Overflow);

    // let us increase limit, but set the expiration to the next block
    let mut env = mock_env();
    execute_increase_allowance(
        &mut store,
        &env,
        &owner,
        &spender,
        1000,
        Some(Expiration::AtHeight(env.block.height + 1)),
    )
    .unwrap();

    // increase block height, so the limit is expired now
    env.block.height += 1;

    // we should now get the expiration error
    let err = execute_send_from(
        &mut store,
        &mut balances,
        &env,
        &spender,
        &owner,
        &contract,
        33443,
        send_msg,
    )
    .unwrap_err();
    assert_eq!(err, ContractError::Expired);
}

#[test]
fn no_past_expiration() {
    let mut store = AllowanceStore::new();
    let mut balances = BalanceLedger::new();

    let owner = "addr0001".to_string();
    let spender = "addr0002".to_string();
    let env = mock_env();
    do_instantiate(&mut balances, &owner, 12340000);

    // set allowance with height expiration at current block height
    let expires = Expiration::AtHeight(env.block.height);

    // ensure it is rejected
    assert_eq!(
        Err(ContractError::InvalidExpiration),
        execute_increase_allowance(&mut store, &env, &owner, &spender, 7777, Some(expires))
    );

    // set allowance with time expiration in the past
    let expires = Expiration::AtTime(env.block.time - at_seconds(1));

    // ensure it is rejected
    assert_eq!(
        Err(ContractError::InvalidExpiration),
        execute_increase_allowance(&mut store, &env, &owner, &spender, 7777, Some(expires))
    );

    // set allowance with height expiration at next block height
    let expires = Expiration::AtHeight(env.block.height + 1);
    let allow: u128 = 7777;
    execute_increase_allowance(&mut store, &env, &owner, &spender, allow, Some(expires)).unwrap();

    // ensure it looks good
    let allowance = query_allowance(&store, &owner, &spender);
    assert_eq!(allowance, AllowanceResponse { allowance: allow, expires });

    // set allowance with time expiration in the future
    let expires = Expiration::AtTime(env.block.time + at_seconds(10));
    execute_increase_allowance(&mut store, &env, &owner, &spender, allow, Some(expires)).unwrap();

    // ensure it looks good
    let allowance = query_allowance(&store, &owner, &spender);
    // we increased twice
    assert_eq!(allowance, AllowanceResponse { allowance: allow + allow, expires });

    // decrease with height expiration at current block height
    let expires = Expiration::AtHeight(env.block.height);

    // ensure it is rejected
    assert_eq!(
        Err(ContractError::InvalidExpiration),
        execute_increase_allowance(&mut store, &env, &owner, &spender, allow, Some(expires))
    );

    // decrease with height expiration at next block height
    let expires = Expiration::AtHeight(env.block.height + 1);
    execute_decrease_allowance(&mut store, &env, &owner, &spender, allow, Some(expires)).unwrap();

    // ensure it looks good
    let allowance = query_allowance(&store, &owner, &spender);
    assert_eq!(allowance, AllowanceResponse { allowance: allow, expires });
}
