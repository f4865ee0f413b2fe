//! The structured result of a successful mutating operation: key/value
//! attributes, and for a delegated send the downstream notification that
//! the host delivers to the receiving contract.

use vstd::prelude::*;
use vstd::string::StringExecFns;

verus! {

/// One key/value pair reported with a successful operation.
#[derive(Clone, Debug, PartialEq, Eq)]
pub struct Attribute {
    pub key: String,
    pub value: String,
}

/// The downstream call a delegated send emits: the named contract is
/// told who authorized the move (`sender`, the delegated caller), how
/// much arrived, and the opaque payload.
#[derive(Clone, Debug, PartialEq, Eq)]
pub struct ReceiveNotification {
    pub contract: String,
    pub sender: String,
    pub amount: u128,
    pub msg: Vec<u8>,
}

/// What a successful mutating operation reports back to the host.
#[derive(Clone, Debug, PartialEq, Eq)]
pub struct Response {
    pub attributes: Vec<Attribute>,
    pub messages: Vec<ReceiveNotification>,
}

/// `a` carries exactly this key and this value.
pub open spec fn attr_is(a: Attribute, key: Seq<char>, value: Seq<char>) -> bool {
    a.key@ == key && a.value@ == value
}

/// Builds one attribute from a literal key and an owned value.
pub fn attr(key: &str, value: String) -> (a: Attribute)
    ensures
        a.key@ == key@,
        a.value@ == value@,
{
    Attribute { key: String::from_str(key), value }
}

} // verus!
