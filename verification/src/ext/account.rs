//! The account actor.

use vstd::prelude::*;

use crate::types::MethodNum;

verus! {

/// Public key account actor method.
pub const PUBKEY_ADDRESS_METHOD: MethodNum = 2;

} // verus!
