//! Granting, shrinking, querying and consuming allowances. Every
//! operation validates its inputs before any mutation; a failure leaves
//! the store exactly as it was.

use vstd::prelude::*;
use vstd::string::StringExecFns;
use crate::allowance_store::{AllowanceResponse, AllowanceStore};
use crate::decimal::{decimal_string, spec_decimal};
use crate::errors::ContractError;
use crate::expiration::{Env, Expiration};
use crate::responses::{attr, attr_is, Attribute, Response};

verus! {

/// A supplied expiration must be strictly in the future; a call that
/// supplies none keeps whatever was stored.
pub open spec fn expiration_rejected(expires: Option<Expiration>, env: Env) -> bool {
    match expires {
        Some(e) => !e.spec_is_future(env),
        None => false,
    }
}

/// The expiration a mutated record ends up with: the supplied one, or
/// the prior one where none is supplied.
pub open spec fn kept_expiration(expires: Option<Expiration>, prior: AllowanceResponse) -> Expiration {
    match expires {
        Some(e) => e,
        None => prior.expires,
    }
}

/// Exactly when, and with what, an increase fails.
pub open spec fn increase_error(
    prior: AllowanceResponse,
    sender: Seq<char>,
    spender: Seq<char>,
    amount: u128,
    expires: Option<Expiration>,
    env: Env,
) -> Option<ContractError> {
    if sender == spender {
        Some(ContractError::CannotSetOwnAccount)
    } else if expiration_rejected(expires, env) {
        Some(ContractError::InvalidExpiration)
    } else if prior.allowance + amount > u128::MAX {
        Some(ContractError::Overflow)
    } else {
        None
    }
}

/// Exactly when, and with what, a decrease fails. Shrinking below zero
/// is not a failure: the record floors to deleted instead.
pub open spec fn decrease_error(
    sender: Seq<char>,
    spender: Seq<char>,
    expires: Option<Expiration>,
    env: Env,
) -> Option<ContractError> {
    if sender == spender {
        Some(ContractError::CannotSetOwnAccount)
    } else if expiration_rejected(expires, env) {
        Some(ContractError::InvalidExpiration)
    } else {
        None
    }
}

/// Exactly when, and with what, consuming an allowance for a spend
/// fails: a reached expiration first, regardless of the remaining
/// amount, then a spend past what remains.
pub open spec fn spend_error(prior: AllowanceResponse, amount: u128, env: Env) -> Option<ContractError> {
    if prior.expires.spec_is_expired(env) {
        Some(ContractError::Expired)
    } else if prior.allowance < amount {
        Some(ContractError::Overflow)
    } else {
        None
    }
}

/// Total query: the stored record, or the zero / `Never` default —
/// never an error.
pub fn query_allowance(store: &AllowanceStore, owner: &String, spender: &String) -> (r: AllowanceResponse)
    ensures
        r == store.allowance_of(owner@, spender@),
{
    store.get(owner, spender)
}

/// Grants `spender` a further `amount` of `sender`'s funds, optionally
/// replacing the expiration. Rejects a self-grant, an expiration not
/// strictly in the future, and a total past the integer width.
pub fn execute_increase_allowance(
    store: &mut AllowanceStore,
    env: &Env,
    sender: &String,
    spender: &String,
    amount: u128,
    expires: Option<Expiration>,
) -> (r: Result<Response, ContractError>)
    requires
        old(store).wf(),
    ensures
        final(store).wf(),
        ({
            let prior = old(store).allowance_of(sender@, spender@);
            match r {
                Err(e) => {
                    &&& Some(e) == increase_error(prior, sender@, spender@, amount, expires, *env)
                    &&& *final(store) == *old(store)
                },
                Ok(resp) => {
                    &&& increase_error(prior, sender@, spender@, amount, expires, *env) is None
                    &&& prior.allowance + amount > 0 ==> final(store).allowance_of(sender@, spender@)
                        == (AllowanceResponse {
                        allowance: (prior.allowance + amount) as u128,
                        expires: kept_expiration(expires, prior),
                    })
                    &&& prior.allowance + amount == 0 ==> *final(store) == *old(store)
                    &&& forall|o: Seq<char>, s: Seq<char>|
                        !(o == sender@ && s == spender@)
                            ==> #[trigger] final(store).allowance_of(o, s) == old(
                            store,
                        ).allowance_of(o, s)
                    &&& resp.messages@.len() == 0
                    &&& resp.attributes@.len() == 4
                    &&& attr_is(resp.attributes@[0], "action"@, "increase_allowance"@)
                    &&& attr_is(resp.attributes@[1], "owner"@, sender@)
                    &&& attr_is(resp.attributes@[2], "spender"@, spender@)
                    &&& attr_is(resp.attributes@[3], "amount"@, spec_decimal(amount as nat))
                },
            }
        }),
{
    if *sender == *spender {
        return Err(ContractError::CannotSetOwnAccount);
    }
    if let Some(exp) = &expires {
        if !exp.is_future(env) {
            return Err(ContractError::InvalidExpiration);
        }
    }
    let prior = store.get(sender, spender);
    let new_amount = match prior.allowance.checked_add(amount) {
        Some(v) => v,
        None => {
            return Err(ContractError::Overflow);
        }
    };
    let new_expires = match expires {
        Some(e) => e,
        None => prior.expires,
    };
    if new_amount > 0 {
        store.set(sender, spender, AllowanceResponse { allowance: new_amount, expires: new_expires });
    }
    let mut attributes: Vec<Attribute> = Vec::new();
    attributes.push(attr("action", String::from_str("increase_allowance")));
    attributes.push(attr("owner", sender.clone()));
    attributes.push(attr("spender", spender.clone()));
    attributes.push(attr("amount", decimal_string(amount)));
    Ok(Response { attributes, messages: Vec::new() })
}

/// Takes back up to `amount` of the grant, optionally replacing the
/// expiration. Shrinking to zero or below deletes the record outright,
/// whatever expiration was supplied.
pub fn execute_decrease_allowance(
    store: &mut AllowanceStore,
    env: &Env,
    sender: &String,
    spender: &String,
    amount: u128,
    expires: Option<Expiration>,
) -> (r: Result<Response, ContractError>)
    requires
        old(store).wf(),
    ensures
        final(store).wf(),
        ({
            let prior = old(store).allowance_of(sender@, spender@);
            match r {
                Err(e) => {
                    &&& Some(e) == decrease_error(sender@, spender@, expires, *env)
                    &&& *final(store) == *old(store)
                },
                Ok(resp) => {
                    &&& decrease_error(sender@, spender@, expires, *env) is None
                    &&& prior.allowance > amount ==> final(store).allowance_of(sender@, spender@)
                        == (AllowanceResponse {
                        allowance: (prior.allowance - amount) as u128,
                        expires: kept_expiration(expires, prior),
                    })
                    &&& prior.allowance <= amount ==> final(store).allowance_of(sender@, spender@)
                        == AllowanceResponse::spec_default()
                    &&& forall|o: Seq<char>, s: Seq<char>|
                        !(o == sender@ && s == spender@)
                            ==> #[trigger] final(store).allowance_of(o, s) == old(
                            store,
                        ).allowance_of(o, s)
                    &&& resp.messages@.len() == 0
                    &&& resp.attributes@.len() == 4
                    &&& attr_is(resp.attributes@[0], "action"@, "decrease_allowance"@)
                    &&& attr_is(resp.attributes@[1], "owner"@, sender@)
                    &&& attr_is(resp.attributes@[2], "spender"@, spender@)
                    &&& attr_is(resp.attributes@[3], "amount"@, spec_decimal(amount as nat))
                },
            }
        }),
{
    if *sender == *spender {
        return Err(ContractError::CannotSetOwnAccount);
    }
    if let Some(exp) = &expires {
        if !exp.is_future(env) {
            return Err(ContractError::InvalidExpiration);
        }
    }
    let prior = store.get(sender, spender);
    let new_amount = prior.allowance.saturating_sub(amount);
    if new_amount > 0 {
        let new_expires = match expires {
            Some(e) => e,
            None => prior.expires,
        };
        store.set(sender, spender, AllowanceResponse { allowance: new_amount, expires: new_expires });
    } else {
        store.remove_key(sender, spender);
    }
    let mut attributes: Vec<Attribute> = Vec::new();
    attributes.push(attr("action", String::from_str("decrease_allowance")));
    attributes.push(attr("owner", sender.clone()));
    attributes.push(attr("spender", spender.clone()));
    attributes.push(attr("amount", decimal_string(amount)));
    Ok(Response { attributes, messages: Vec::new() })
}

/// The single path through which every delegated spend authorizes
/// itself: consumes `amount` of the (owner, spender) grant, deleting a
/// record drained to zero. Fails `Expired` once the stored threshold is
/// reached, whatever remains; fails on a spend past what remains; on
/// failure nothing changes.
pub fn deduct_allowance(
    store: &mut AllowanceStore,
    env: &Env,
    owner: &String,
    spender: &String,
    amount: u128,
) -> (r: Result<AllowanceResponse, ContractError>)
    requires
        old(store).wf(),
    ensures
        final(store).wf(),
        ({
            let prior = old(store).allowance_of(owner@, spender@);
            match r {
                Err(e) => {
                    &&& Some(e) == spend_error(prior, amount, *env)
                    &&& *final(store) == *old(store)
                },
                Ok(updated) => {
                    &&& spend_error(prior, amount, *env) is None
                    &&& updated == (AllowanceResponse {
                        allowance: (prior.allowance - amount) as u128,
                        expires: prior.expires,
                    })
                    &&& final(store).allowance_of(owner@, spender@) == (if prior.allowance - amount
                        > 0 {
                        updated
                    } else {
                        AllowanceResponse::spec_default()
                    })
                    &&& forall|o: Seq<char>, s: Seq<char>|
                        !(o == owner@ && s == spender@)
                            ==> #[trigger] final(store).allowance_of(o, s) == old(
                            store,
                        ).allowance_of(o, s)
                },
            }
        }),
{
    let prior = store.get(owner, spender);
    if prior.expires.is_expired(env) {
        return Err(ContractError::Expired);
    }
    let new_amount = match prior.allowance.checked_sub(amount) {
        Some(v) => v,
        None => {
            return Err(ContractError::Overflow);
        }
    };
    let updated = AllowanceResponse { allowance: new_amount, expires: prior.expires };
    if new_amount > 0 {
        store.set(owner, spender, updated);
    } else {
        store.remove_key(owner, spender);
    }
    Ok(updated)
}

} // verus!
