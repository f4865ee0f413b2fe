//! The mint authority: the single address, if any, permitted to create
//! new supply, optionally bounded by a cap fixed at token creation.
//! Only the current holder may hand the authority on or clear it, and a
//! cleared authority is gone for good — nobody is left to grant it
//! again.

use vstd::prelude::*;
use vstd::string::StringExecFns;
use crate::errors::ContractError;
use crate::responses::{attr, attr_is, Attribute, Response};

verus! {

/// Who may mint, and up to how much in total (`None`: no cap).
#[derive(Clone, Debug, PartialEq, Eq)]
pub struct MinterData {
    pub minter: String,
    pub cap: Option<u128>,
}

/// The token configuration the core keeps: the mint authority record,
/// absent once minting is disabled.
#[derive(Clone, Debug, PartialEq, Eq)]
pub struct TokenInfo {
    pub mint: Option<MinterData>,
}

/// The caller currently holds the mint authority.
pub open spec fn minter_is(config: TokenInfo, sender: Seq<char>) -> bool {
    match config.mint {
        Some(m) => m.minter@ == sender,
        None => false,
    }
}

/// Hands the mint authority to `new_minter`, or clears it when none is
/// named. Only the current holder may do either; the cap, fixed at
/// creation, is carried over unchanged. Clearing is irreversible: with
/// no holder left, every further update fails `Unauthorized`.
pub fn execute_update_minter(
    config: &mut TokenInfo,
    sender: &String,
    new_minter: Option<String>,
) -> (r: Result<Response, ContractError>)
    ensures
        match r {
            Err(e) => {
                &&& e == ContractError::Unauthorized
                &&& !minter_is(*old(config), sender@)
                &&& *final(config) == *old(config)
            },
            Ok(resp) => {
                &&& minter_is(*old(config), sender@)
                &&& (match new_minter {
                    Some(nm) => final(config).mint matches Some(m) && m.minter@ == nm@ && m.cap
                        == old(config).mint->Some_0.cap,
                    None => final(config).mint is None,
                })
                &&& resp.messages@.len() == 0
                &&& resp.attributes@.len() == 2
                &&& attr_is(resp.attributes@[0], "action"@, "update_minter"@)
                &&& (match new_minter {
                    Some(nm) => attr_is(resp.attributes@[1], "new_minter"@, nm@),
                    None => attr_is(resp.attributes@[1], "new_minter"@, "None"@),
                })
            },
        },
{
    let cap = match &config.mint {
        Some(m) => {
            if !(m.minter == *sender) {
                return Err(ContractError::Unauthorized);
            }
            m.cap
        }
        None => {
            return Err(ContractError::Unauthorized);
        }
    };
    let mut attributes: Vec<Attribute> = Vec::new();
    attributes.push(attr("action", String::from_str("update_minter")));
    match new_minter {
        Some(nm) => {
            attributes.push(attr("new_minter", nm.clone()));
            config.mint = Some(MinterData { minter: nm, cap });
        }
        None => {
            attributes.push(attr("new_minter", String::from_str("None")));
            config.mint = None;
        }
    }
    Ok(Response { attributes, messages: Vec::new() })
}

} // verus!
