use cw20_allowances::allowance_store::AllowanceResponse;
use cw20_allowances::allowance_store::AllowanceStore;
use cw20_allowances::allowances::execute_increase_allowance;
use cw20_allowances::allowances::query_allowance;
use cw20_allowances::balances::BalanceLedger;
use cw20_allowances::errors::ContractError;
use cw20_allowances::expiration::BlockInfo;
use cw20_allowances::expiration::Env;
use cw20_allowances::expiration::Expiration;
use cw20_allowances::responses::Attribute;
use cw20_allowances::spend::execute_transfer_from;

fn mock_env() -> Env {
    Env { block: BlockInfo { height: 12_345, time: 1_571_797_419_879_305_533 } }
}

fn attr(key: &str, value: &str) -> Attribute {
    Attribute { key: key.to_string(), value: value.to_string() }
}

#[test]
fn debit_fails_closed_on_underflow() {
    let mut balances = BalanceLedger::new();
    let holder = "addr0001".to_string();
    balances.credit(&holder, 1000).unwrap();

    // a debit past the balance is rejected outright, not floored
    let err = balances.debit(&holder, 1001).unwrap_err();
    assert_eq!(err, ContractError::Overflow);
    assert_eq!(balances.query_balance(&holder), 1000);

    balances.debit(&holder, 1000).unwrap();
    assert_eq!(balances.query_balance(&holder), 0);
}

#[test]
fn credit_fails_closed_on_overflow() {
    let mut balances = BalanceLedger::new();
    let holder = "addr0001".to_string();
    balances.credit(&holder, u128::MAX - 5).unwrap();

    let err = balances.credit(&holder, 6).unwrap_err();
    assert_eq!(err, ContractError::Overflow);
    assert_eq!(balances.query_balance(&holder), u128::MAX - 5);

    balances.credit(&holder, 5).unwrap();
    assert_eq!(balances.query_balance(&holder), u128::MAX);
}

#[test]
fn increase_allowance_overflow_is_rejected() {
    let mut store = AllowanceStore::new();
    let owner = "addr0001".to_string();
    let spender = "addr0002".to_string();
    let env = mock_env();

    execute_increase_allowance(&mut store, &env, &owner, &spender, u128::MAX - 1, None).unwrap();
    let err = execute_increase_allowance(&mut store, &env, &owner, &spender, 2, None).unwrap_err();
    assert_eq!(err, ContractError::Overflow);

    // the stored record is untouched by the failed call
    let allowance = query_allowance(&store, &owner, &spender);
    assert_eq!(allowance, AllowanceResponse { allowance: u128::MAX - 1, expires: Expiration::Never });
}

#[test]
fn failed_spend_leaves_all_state_unchanged() {
    let mut store = AllowanceStore::new();
    let mut balances = BalanceLedger::new();
    let owner = "addr0001".to_string();
    let spender = "addr0002".to_string();
    let rcpt = "addr0003".to_string();
    let env = mock_env();

    balances.credit(&owner, 500).unwrap();
    execute_increase_allowance(&mut store, &env, &owner, &spender, 10_000, None).unwrap();

    // the allowance covers it, but the owner's balance does not
    let err = execute_transfer_from(&mut store, &mut balances, &env, &spender, &owner, &rcpt, 501)
        .unwrap_err();
    assert_eq!(err, ContractError::Overflow);
    assert_eq!(balances.query_balance(&owner), 500);
    assert_eq!(balances.query_balance(&rcpt), 0);
    assert_eq!(
        query_allowance(&store, &owner, &spender),
        AllowanceResponse { allowance: 10_000, expires: Expiration::Never }
    );
}

#[test]
fn attributes_report_the_full_operation() {
    let mut store = AllowanceStore::new();
    let mut balances = BalanceLedger::new();
    let owner = "addr0001".to_string();
    let spender = "addr0002".to_string();
    let rcpt = "addr0003".to_string();
    let env = mock_env();

    balances.credit(&owner, 999999).unwrap();
    let res =
        execute_increase_allowance(&mut store, &env, &owner, &spender, 99988647623876347, None)
            .unwrap();
    assert_eq!(
        res.attributes,
        vec![
            attr("action", "increase_allowance"),
            attr("owner", "addr0001"),
            attr("spender", "addr0002"),
            attr("amount", "99988647623876347"),
        ]
    );
    assert_eq!(res.messages.len(), 0);

    let res = execute_transfer_from(&mut store, &mut balances, &env, &spender, &owner, &rcpt, 44444)
        .unwrap();
    assert_eq!(
        res.attributes,
        vec![
            attr("action", "transfer_from"),
            attr("from", "addr0001"),
            attr("to", "addr0003"),
            attr("by", "addr0002"),
            attr("amount", "44444"),
        ]
    );
}

#[test]
fn expiration_outranks_missing_funds() {
    let mut store = AllowanceStore::new();
    let mut balances = BalanceLedger::new();
    let owner = "addr0001".to_string();
    let spender = "addr0002".to_string();
    let rcpt = "addr0003".to_string();
    let mut env = mock_env();

    // a generous allowance that expires next block, over a balance that
    // could never cover the spend
    balances.credit(&owner, 10).unwrap();
    execute_increase_allowance(
        &mut store,
        &env,
        &owner,
        &spender,
        50_000,
        Some(Expiration::AtHeight(env.block.height + 1)),
    )
    .unwrap();
    env.block.height += 1;

    // the reached expiration is reported, not the short balance
    let err = execute_transfer_from(&mut store, &mut balances, &env, &spender, &owner, &rcpt, 500)
        .unwrap_err();
    assert_eq!(err, ContractError::Expired);
    assert_eq!(balances.query_balance(&owner), 10);
}

#[test]
fn transfer_back_to_owner_keeps_balance() {
    let mut store = AllowanceStore::new();
    let mut balances = BalanceLedger::new();
    let owner = "addr0001".to_string();
    let spender = "addr0002".to_string();
    let env = mock_env();

    balances.credit(&owner, 1000).unwrap();
    execute_increase_allowance(&mut store, &env, &owner, &spender, 300, None).unwrap();

    // moving funds from the owner to the owner consumes the allowance
    // but leaves every balance as it was
    execute_transfer_from(&mut store, &mut balances, &env, &spender, &owner, &owner, 200).unwrap();
    assert_eq!(balances.query_balance(&owner), 1000);
    assert_eq!(
        query_allowance(&store, &owner, &spender),
        AllowanceResponse { allowance: 100, expires: Expiration::Never }
    );
}

#[test]
fn zero_increase_on_fresh_pair_stores_nothing() {
    let mut store = AllowanceStore::new();
    let owner = "addr0001".to_string();
    let spender = "addr0002".to_string();
    let env = mock_env();

    // a zero grant succeeds but leaves the pair at the default, even
    // with an expiration supplied: a zero record is never stored
    let res = execute_increase_allowance(
        &mut store,
        &env,
        &owner,
        &spender,
        0,
        Some(Expiration::AtHeight(env.block.height + 5)),
    )
    .unwrap();
    assert_eq!(res.attributes[3], attr("amount", "0"));
    assert_eq!(query_allowance(&store, &owner, &spender), AllowanceResponse::default());
}
