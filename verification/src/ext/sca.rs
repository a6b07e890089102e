//! The subnet coordinator actor of the parent chain, which registers subnets,
//! holds their collateral and takes their checkpoints.

use vstd::prelude::*;

use crate::types::{ActorID, MethodNum};

verus! {

/// SCA Actor address
pub const SCA_ACTOR_ADDR: ActorID = 64;

/// The methods of the coordinator that the subnet actor calls.
#[derive(Clone, Copy, Debug, PartialEq, Eq, Structural)]
pub enum Method {
    Register,
    AddStake,
    ReleaseStake,
    Kill,
    CommitChildCheckpoint,
}

impl Method {
    /// The number of the method.
    pub open spec fn number(self) -> MethodNum {
        match self {
            Method::Register => 2,
            Method::AddStake => 3,
            Method::ReleaseStake => 4,
            Method::Kill => 5,
            Method::CommitChildCheckpoint => 6,
        }
    }

    /// The number of the method.
    pub fn as_u64(self) -> (n: MethodNum)
        ensures
            n == self.number(),
    {
        match self {
            Method::Register => 2,
            Method::AddStake => 3,
            Method::ReleaseStake => 4,
            Method::Kill => 5,
            Method::CommitChildCheckpoint => 6,
        }
    }
}

} // verus!
