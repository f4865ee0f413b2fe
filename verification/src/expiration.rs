//! When a delegated grant stops being honored, relative to the logical
//! clock (block height and block time) of the current call.

use vstd::prelude::*;

verus! {

/// A threshold beyond which an allowance is no longer honored: never, at
/// a block height, or at a block time (nanoseconds since the epoch).
#[derive(Clone, Copy, Debug, PartialEq, Eq, Structural)]
pub enum Expiration {
    Never,
    AtHeight(u64),
    AtTime(u64),
}

/// The logical clock of the current call, supplied by the host.
#[derive(Clone, Copy, Debug, PartialEq, Eq, Structural)]
pub struct BlockInfo {
    pub height: u64,
    pub time: u64,
}

/// Read-only execution context: the block the call runs in.
#[derive(Clone, Copy, Debug, PartialEq, Eq, Structural)]
pub struct Env {
    pub block: BlockInfo,
}

impl Expiration {
    /// A threshold already reached by `env`'s clock. `Never` never is.
    pub open spec fn spec_is_expired(self, env: Env) -> bool {
        match self {
            Expiration::Never => false,
            Expiration::AtHeight(h) => env.block.height >= h,
            Expiration::AtTime(t) => env.block.time >= t,
        }
    }

    /// Strictly in the future relative to `env`; the complement of
    /// `spec_is_expired`, used when an expiration is first set.
    pub open spec fn spec_is_future(self, env: Env) -> bool {
        match self {
            Expiration::Never => true,
            Expiration::AtHeight(h) => env.block.height < h,
            Expiration::AtTime(t) => env.block.time < t,
        }
    }

    pub fn is_expired(&self, env: &Env) -> (r: bool)
        ensures
            r == self.spec_is_expired(*env),
    {
        match self {
            Expiration::Never => false,
            Expiration::AtHeight(h) => env.block.height >= *h,
            Expiration::AtTime(t) => env.block.time >= *t,
        }
    }

    pub fn is_future(&self, env: &Env) -> (r: bool)
        ensures
            r == self.spec_is_future(*env),
    {
        match self {
            Expiration::Never => true,
            Expiration::AtHeight(h) => env.block.height < *h,
            Expiration::AtTime(t) => env.block.time < *t,
        }
    }
}

} // verus!
