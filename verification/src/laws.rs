//! Properties that cut across the operations, stated once and proved.
//! Most cross-cutting guarantees — independence of pairs, exact error
//! conditions, untouched state on failure — are written directly into
//! the operations' contracts; what stands here is what is best said of
//! the state alone.

use vstd::prelude::*;
use crate::allowance_store::{lemma_lookup_absent, AllowanceResponse, AllowanceStore};
use crate::minting::{minter_is, TokenInfo};

verus! {

/// A pair with no stored record — in particular any pair with no prior
/// interaction — reads back as `{remaining: 0, expiration: Never}`.
pub proof fn lemma_untouched_pair_reads_default(
    store: AllowanceStore,
    owner: Seq<char>,
    spender: Seq<char>,
)
    requires
        !store.contains(owner, spender),
    ensures
        store.allowance_of(owner, spender) == AllowanceResponse::spec_default(),
{
    lemma_lookup_absent(store.entries@, owner, spender);
}

/// A cleared mint authority is an absorbing state: no caller holds it,
/// so by `execute_update_minter`'s contract every further update fails
/// `Unauthorized` and leaves it cleared — minting cannot be re-enabled.
pub proof fn lemma_cleared_authority_is_absorbing(config: TokenInfo, sender: Seq<char>)
    requires
        config.mint is None,
    ensures
        !minter_is(config, sender),
{
}

} // verus!
