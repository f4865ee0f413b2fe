//! Every failure a call can end with. Each operation's contract states
//! exactly which of these it returns and on which inputs; any failure
//! leaves every store exactly as it was before the call.

use vstd::prelude::*;

verus! {

#[derive(Clone, Copy, Debug, PartialEq, Eq, Structural)]
pub enum ContractError {
    /// The caller lacks the role the operation demands.
    Unauthorized,
    /// Owner and spender are the same account on an allowance mutation.
    CannotSetOwnAccount,
    /// A supplied expiration is not strictly in the future.
    InvalidExpiration,
    /// The allowance's stored expiration has been reached.
    Expired,
    /// Checked arithmetic failed: an increase past the integer width, a
    /// spend past the remaining allowance, or a ledger move past a
    /// balance bound.
    Overflow,
}

} // verus!
