//! Delegated spends: transfer, burn and send against another account's
//! allowance. Each first authorizes through the allowance (the single
//! `deduct_allowance` path), then moves funds in the ledger; a failure
//! anywhere leaves both stores exactly as they were — no allowance is
//! ever consumed for a move that did not happen.

use vstd::prelude::*;
use vstd::string::StringExecFns;
use crate::allowance_store::{AllowanceResponse, AllowanceStore};
use crate::allowances::{deduct_allowance, spend_error};
use crate::balances::BalanceLedger;
use crate::decimal::{decimal_string, spec_decimal};
use crate::errors::ContractError;
use crate::expiration::Env;
use crate::responses::{attr, attr_is, Attribute, ReceiveNotification, Response};

verus! {

/// The ledger cannot carry the move: the owner holds too little, or the
/// credited side would pass the integer width.
pub open spec fn ledger_move_rejected(
    balances: BalanceLedger,
    owner: Seq<char>,
    recipient: Seq<char>,
    amount: u128,
) -> bool {
    ||| balances.balance_of(owner) < amount
    ||| (recipient != owner && balances.balance_of(recipient) + amount > u128::MAX)
}

/// The owner holds too little for a burn, which credits nobody.
pub open spec fn ledger_burn_rejected(balances: BalanceLedger, owner: Seq<char>, amount: u128) -> bool {
    balances.balance_of(owner) < amount
}

/// Each balance after a move of `amount` from `owner` to `recipient`;
/// a move to oneself changes nothing.
pub open spec fn balance_after_move(
    prior: BalanceLedger,
    owner: Seq<char>,
    recipient: Seq<char>,
    amount: u128,
    a: Seq<char>,
) -> int {
    if a == owner && a == recipient {
        prior.balance_of(a) as int
    } else if a == owner {
        prior.balance_of(a) - amount
    } else if a == recipient {
        prior.balance_of(a) + amount
    } else {
        prior.balance_of(a) as int
    }
}

/// The allowance record left after a successful spend: the remainder,
/// or the default once drained to zero.
pub open spec fn allowance_after_spend(prior: AllowanceResponse, amount: u128) -> AllowanceResponse {
    if prior.allowance - amount > 0 {
        AllowanceResponse { allowance: (prior.allowance - amount) as u128, expires: prior.expires }
    } else {
        AllowanceResponse::spec_default()
    }
}

/// The error a delegated spend ends with: the authorization's own
/// error first, else the arithmetic class for a ledger that cannot
/// carry the move.
pub open spec fn spend_outcome_error(
    auth: Option<ContractError>,
    ledger_bad: bool,
    e: ContractError,
) -> bool {
    match auth {
        Some(ae) => e == ae,
        None => ledger_bad && e == ContractError::Overflow,
    }
}

/// Moves `amount` from `owner` to `recipient` on the strength of the
/// (owner, sender) allowance.
pub fn execute_transfer_from(
    allowances: &mut AllowanceStore,
    balances: &mut BalanceLedger,
    env: &Env,
    sender: &String,
    owner: &String,
    recipient: &String,
    amount: u128,
) -> (r: Result<Response, ContractError>)
    requires
        old(allowances).wf(),
        old(balances).wf(),
    ensures
        final(allowances).wf(),
        final(balances).wf(),
        ({
            let prior = old(allowances).allowance_of(owner@, sender@);
            let auth = spend_error(prior, amount, *env);
            let ledger_bad = ledger_move_rejected(*old(balances), owner@, recipient@, amount);
            match r {
                Err(e) => {
                    &&& *final(allowances) == *old(allowances)
                    &&& *final(balances) == *old(balances)
                    &&& spend_outcome_error(auth, ledger_bad, e)
                    &&& (auth is Some || ledger_bad)
                },
                Ok(resp) => {
                    &&& auth is None
                    &&& !ledger_bad
                    &&& final(allowances).allowance_of(owner@, sender@) == allowance_after_spend(
                        prior,
                        amount,
                    )
                    &&& forall|o: Seq<char>, s: Seq<char>|
                        !(o == owner@ && s == sender@)
                            ==> #[trigger] final(allowances).allowance_of(o, s) == old(
                            allowances,
                        ).allowance_of(o, s)
                    &&& forall|a: Seq<char>|
                        #[trigger] final(balances).balance_of(a) == balance_after_move(
                            *old(balances),
                            owner@,
                            recipient@,
                            amount,
                            a,
                        )
                    &&& resp.messages@.len() == 0
                    &&& resp.attributes@.len() == 5
                    &&& attr_is(resp.attributes@[0], "action"@, "transfer_from"@)
                    &&& attr_is(resp.attributes@[1], "from"@, owner@)
                    &&& attr_is(resp.attributes@[2], "to"@, recipient@)
                    &&& attr_is(resp.attributes@[3], "by"@, sender@)
                    &&& attr_is(resp.attributes@[4], "amount"@, spec_decimal(amount as nat))
                },
            }
        }),
{
    let prior = allowances.get(owner, sender);
    let owner_bal = balances.query_balance(owner);
    let ledger_ok = if owner_bal < amount {
        false
    } else if *recipient == *owner {
        true
    } else {
        let recipient_bal = balances.query_balance(recipient);
        recipient_bal <= u128::MAX - amount
    };
    if !ledger_ok {
        if prior.expires.is_expired(env) {
            return Err(ContractError::Expired);
        }
        return Err(ContractError::Overflow);
    }
    match deduct_allowance(allowances, env, owner, sender, amount) {
        Ok(_) => {}
        Err(e) => {
            return Err(e);
        }
    }
    balances.sub_from(owner, amount);
    balances.add_to(recipient, amount);
    let mut attributes: Vec<Attribute> = Vec::new();
    attributes.push(attr("action", String::from_str("transfer_from")));
    attributes.push(attr("from", owner.clone()));
    attributes.push(attr("to", recipient.clone()));
    attributes.push(attr("by", sender.clone()));
    attributes.push(attr("amount", decimal_string(amount)));
    Ok(Response { attributes, messages: Vec::new() })
}

/// Burns `amount` of `owner`'s funds on the strength of the (owner,
/// sender) allowance: the owner is debited and nobody is credited.
pub fn execute_burn_from(
    allowances: &mut AllowanceStore,
    balances: &mut BalanceLedger,
    env: &Env,
    sender: &String,
    owner: &String,
    amount: u128,
) -> (r: Result<Response, ContractError>)
    requires
        old(allowances).wf(),
        old(balances).wf(),
    ensures
        final(allowances).wf(),
        final(balances).wf(),
        ({
            let prior = old(allowances).allowance_of(owner@, sender@);
            let auth = spend_error(prior, amount, *env);
            let ledger_bad = ledger_burn_rejected(*old(balances), owner@, amount);
            match r {
                Err(e) => {
                    &&& *final(allowances) == *old(allowances)
                    &&& *final(balances) == *old(balances)
                    &&& spend_outcome_error(auth, ledger_bad, e)
                    &&& (auth is Some || ledger_bad)
                },
                Ok(resp) => {
                    &&& auth is None
                    &&& !ledger_bad
                    &&& final(allowances).allowance_of(owner@, sender@) == allowance_after_spend(
                        prior,
                        amount,
                    )
                    &&& forall|o: Seq<char>, s: Seq<char>|
                        !(o == owner@ && s == sender@)
                            ==> #[trigger] final(allowances).allowance_of(o, s) == old(
                            allowances,
                        ).allowance_of(o, s)
                    &&& final(balances).balance_of(owner@) == old(balances).balance_of(owner@)
                        - amount
                    &&& forall|a: Seq<char>|
                        a != owner@ ==> #[trigger] final(balances).balance_of(a) == old(
                            balances,
                        ).balance_of(a)
                    &&& resp.messages@.len() == 0
                    &&& resp.attributes@.len() == 4
                    &&& attr_is(resp.attributes@[0], "action"@, "burn_from"@)
                    &&& attr_is(resp.attributes@[1], "from"@, owner@)
                    &&& attr_is(resp.attributes@[2], "by"@, sender@)
                    &&& attr_is(resp.attributes@[3], "amount"@, spec_decimal(amount as nat))
                },
            }
        }),
{
    let prior = allowances.get(owner, sender);
    let owner_bal = balances.query_balance(owner);
    if owner_bal < amount {
        if prior.expires.is_expired(env) {
            return Err(ContractError::Expired);
        }
        return Err(ContractError::Overflow);
    }
    match deduct_allowance(allowances, env, owner, sender, amount) {
        Ok(_) => {}
        Err(e) => {
            return Err(e);
        }
    }
    balances.sub_from(owner, amount);
    let mut attributes: Vec<Attribute> = Vec::new();
    attributes.push(attr("action", String::from_str("burn_from")));
    attributes.push(attr("from", owner.clone()));
    attributes.push(attr("by", sender.clone()));
    attributes.push(attr("amount", decimal_string(amount)));
    Ok(Response { attributes, messages: Vec::new() })
}

/// Moves `amount` from `owner` to the named contract on the strength of
/// the (owner, sender) allowance, and emits the downstream notification
/// for that contract. Its `sender` field names the delegated caller —
/// who authorized the move — never the owner whose balance changed.
pub fn execute_send_from(
    allowances: &mut AllowanceStore,
    balances: &mut BalanceLedger,
    env: &Env,
    sender: &String,
    owner: &String,
    contract: &String,
    amount: u128,
    msg: Vec<u8>,
) -> (r: Result<Response, ContractError>)
    requires
        old(allowances).wf(),
        old(balances).wf(),
    ensures
        final(allowances).wf(),
        final(balances).wf(),
        ({
            let prior = old(allowances).allowance_of(owner@, sender@);
            let auth = spend_error(prior, amount, *env);
            let ledger_bad = ledger_move_rejected(*old(balances), owner@, contract@, amount);
            match r {
                Err(e) => {
                    &&& *final(allowances) == *old(allowances)
                    &&& *final(balances) == *old(balances)
                    &&& spend_outcome_error(auth, ledger_bad, e)
                    &&& (auth is Some || ledger_bad)
                },
                Ok(resp) => {
                    &&& auth is None
                    &&& !ledger_bad
                    &&& final(allowances).allowance_of(owner@, sender@) == allowance_after_spend(
                        prior,
                        amount,
                    )
                    &&& forall|o: Seq<char>, s: Seq<char>|
                        !(o == owner@ && s == sender@)
                            ==> #[trigger] final(allowances).allowance_of(o, s) == old(
                            allowances,
                        ).allowance_of(o, s)
                    &&& forall|a: Seq<char>|
                        #[trigger] final(balances).balance_of(a) == balance_after_move(
                            *old(balances),
                            owner@,
                            contract@,
                            amount,
                            a,
                        )
                    &&& resp.messages@.len() == 1
                    &&& resp.messages@[0].contract@ == contract@
                    &&& resp.messages@[0].sender@ == sender@
                    &&& resp.messages@[0].amount == amount
                    &&& resp.messages@[0].msg@ == msg@
                    &&& resp.attributes@.len() == 5
                    &&& attr_is(resp.attributes@[0], "action"@, "send_from"@)
                    &&& attr_is(resp.attributes@[1], "from"@, owner@)
                    &&& attr_is(resp.attributes@[2], "to"@, contract@)
                    &&& attr_is(resp.attributes@[3], "by"@, sender@)
                    &&& attr_is(resp.attributes@[4], "amount"@, spec_decimal(amount as nat))
                },
            }
        }),
{
    let prior = allowances.get(owner, sender);
    let owner_bal = balances.query_balance(owner);
    let ledger_ok = if owner_bal < amount {
        false
    } else if *contract == *owner {
        true
    } else {
        let contract_bal = balances.query_balance(contract);
        contract_bal <= u128::MAX - amount
    };
    if !ledger_ok {
        if prior.expires.is_expired(env) {
            return Err(ContractError::Expired);
        }
        return Err(ContractError::Overflow);
    }
    match deduct_allowance(allowances, env, owner, sender, amount) {
        Ok(_) => {}
        Err(e) => {
            return Err(e);
        }
    }
    balances.sub_from(owner, amount);
    balances.add_to(contract, amount);
    let mut attributes: Vec<Attribute> = Vec::new();
    attributes.push(attr("action", String::from_str("send_from")));
    attributes.push(attr("from", owner.clone()));
    attributes.push(attr("to", contract.clone()));
    attributes.push(attr("by", sender.clone()));
    attributes.push(attr("amount", decimal_string(amount)));
    let notification = ReceiveNotification {
        contract: contract.clone(),
        sender: sender.clone(),
        amount,
        msg,
    };
    let mut messages: Vec<ReceiveNotification> = Vec::new();
    messages.push(notification);
    Ok(Response { attributes, messages })
}

} // verus!
