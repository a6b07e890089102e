//! Governance logic of a hierarchical-consensus subnet actor: the collateral
//! ledger, the validator set, the subnet's status machine and the checkpoint
//! voting protocol, as functions from a state and a message to the next state
//! and the messages to send.

pub mod actor;
pub mod amount;
pub mod checkpoints;
pub mod error;
pub mod ext;
pub mod laws;
pub mod ledger;
pub mod rules;
pub mod state;
pub mod sums;
pub mod types;
pub mod utils;

pub use crate::actor::{Actor, Message, Method, MethodParams, SubnetActor};
pub use crate::error::{ActorError, ExitCode, StateError};
pub use crate::state::State;
pub use crate::types::{
    Address, ChainEpoch, Checkpoint, Cid, ConsensusType, ConstructParams, JoinParams, Status,
    SubnetID, Validator, Votes, DEFAULT_CHECKPOINT_PERIOD, MIN_COLLATERAL_AMOUNT,
};
pub use crate::utils::{CrossActorPayload, ExpectedSend, SendParams};
