//! What each method of the actor does to the state, and which messages it has
//! the host send: the rules of the actor, over the state as the contracts see it.

use vstd::prelude::*;

use crate::error::{failure, ErrorView, ExitCode};
use crate::ext::sca::Method as ScaMethod;
use crate::state::StateView;
use crate::types::{
    ActorID, Address, CheckpointView, MethodNum, Status, MIN_COLLATERAL_AMOUNT,
};
use crate::utils::{SendParamsView, SendView};

verus! {

/// The number of the method that only transfers funds.
pub const METHOD_SEND: MethodNum = 0;

/// The number of the method that constructs an actor.
pub const METHOD_CONSTRUCTOR: MethodNum = 1;

/// The ID of the init actor of the system, which alone constructs actors.
pub const INIT_ACTOR_ID: ActorID = 1;

/// What the host tells of the message that is being handled, as the
/// contracts see it.
pub struct MessageView {
    pub caller: Address,
    pub caller_is_account: bool,
    pub receiver: Address,
    pub value_received: int,
}

/// The error with which construction is refused: only the init actor may
/// construct the actor.
pub open spec fn constructor_refusal(msg: MessageView) -> Option<ErrorView> {
    if msg.caller != (Address { id: INIT_ACTOR_ID }) {
        Some(failure(ExitCode::USR_FORBIDDEN, "caller is not the init actor"))
    } else {
        None
    }
}

impl StateView {
    /// The message to the coordinator with the given method and value, and no parameters.
    pub open spec fn to_gateway(self, method: ScaMethod, value: int) -> SendView {
        SendView {
            to: self.ipc_gateway_addr,
            method: method.number(),
            params: SendParamsView::Empty,
            value,
        }
    }

    /// The state after `caller` joined with `amount` of collateral.
    pub open spec fn join(self, caller: Address, net_addr: Seq<char>, amount: int) -> StateView {
        self.add_stake(caller, net_addr, amount).mutate_state()
    }

    /// The message that a join has the host send: a subnet that is not yet
    /// registered registers with all its stake once that reaches the minimum
    /// collateral, and sends nothing before; any other subnet adds the new stake.
    pub open spec fn join_message(self, amount: int) -> Option<SendView> {
        let total = self.total_stake + amount;
        if self.status == Status::Instantiated {
            if total >= MIN_COLLATERAL_AMOUNT {
                Some(self.to_gateway(ScaMethod::Register, total))
            } else {
                None
            }
        } else {
            Some(self.to_gateway(ScaMethod::AddStake, amount))
        }
    }

    /// The error with which a join is refused: the call has to bring
    /// collateral, whoever calls, and the caller has to be an account.
    pub open spec fn join_refusal(self, msg: MessageView) -> Option<ErrorView> {
        if msg.value_received <= 0 {
            Some(
                failure(
                    ExitCode::USR_ILLEGAL_ARGUMENT,
                    "a minimum collateral is required to join the subnet",
                ),
            )
        } else if !msg.caller_is_account {
            Some(failure(ExitCode::USR_FORBIDDEN, "caller not account actor type"))
        } else {
            None
        }
    }

    /// The error with which a leave is refused: the caller has to be an
    /// account, and to have stake in the subnet.
    pub open spec fn leave_refusal(self, msg: MessageView) -> Option<ErrorView> {
        if !msg.caller_is_account {
            Some(failure(ExitCode::USR_FORBIDDEN, "caller not account actor type"))
        } else if self.stake_of(msg.caller) <= 0 {
            Some(failure(ExitCode::USR_ILLEGAL_STATE, "caller has no stake in subnet"))
        } else {
            None
        }
    }

    /// The error with which a kill is refused: the subnet must not be
    /// terminating or killed already, and all validators have to have left.
    pub open spec fn kill_refusal(self) -> Option<ErrorView> {
        if self.status == Status::Terminating || self.status == Status::Killed {
            Some(
                failure(
                    ExitCode::USR_ILLEGAL_STATE,
                    "the subnet is already in a killed or terminating state",
                ),
            )
        } else if self.validator_set.len() != 0 {
            Some(
                failure(
                    ExitCode::USR_ILLEGAL_STATE,
                    "this subnet can only be killed when all validators have left",
                ),
            )
        } else {
            None
        }
    }

    /// The error with which a checkpoint is refused: the caller has to
    /// be an account, the checkpoint has to pass verification, and the caller
    /// must not have voted for it before.
    pub open spec fn submit_refusal(
        self,
        msg: MessageView,
        ch: CheckpointView,
        signature_valid: bool,
    ) -> Option<ErrorView> {
        if !msg.caller_is_account {
            Some(failure(ExitCode::USR_FORBIDDEN, "caller not account actor type"))
        } else if !self.accepts(ch, msg.caller, msg.receiver, signature_valid) {
            Some(failure(ExitCode::USR_ILLEGAL_STATE, "checkpoint does not pass verification"))
        } else if self.has_voted(ch.cid, msg.caller) {
            Some(failure(ExitCode::USR_ILLEGAL_STATE, "miner has already voted the checkpoint"))
        } else {
            None
        }
    }

    /// The state after `caller` left with all its stake.
    pub open spec fn leave(self, caller: Address) -> StateView {
        self.rm_stake(caller, self.stake_of(caller)).mutate_state()
    }

    /// The messages that a leave has the host send, in their order: the
    /// release of the stake by the coordinator, unless the subnet is
    /// terminating, and the transfer of the stake to the caller.
    pub open spec fn leave_messages(self, caller: Address) -> Seq<SendView> {
        self.release_messages(caller, self.stake_of(caller))
    }

    /// The messages that release `stake` to `caller`.
    pub open spec fn release_messages(self, caller: Address, stake: int) -> Seq<SendView> {
        let refund = SendView {
            to: caller,
            method: METHOD_SEND,
            params: SendParamsView::Empty,
            value: stake,
        };
        if self.status != Status::Terminating {
            seq![
                SendView {
                    to: self.ipc_gateway_addr,
                    method: ScaMethod::ReleaseStake.number(),
                    params: SendParamsView::Fund { value: stake },
                    value: 0,
                },
                refund,
            ]
        } else {
            seq![refund]
        }
    }

    /// Whether the subnet can be killed: it is not terminating or killed
    /// already, and all validators have left.
    pub open spec fn can_kill(self) -> bool {
        &&& self.status != Status::Terminating
        &&& self.status != Status::Killed
        &&& self.validator_set.len() == 0
    }

    /// The state after the subnet was killed.
    pub open spec fn kill(self) -> StateView {
        (StateView { status: Status::Terminating, ..self }).mutate_state()
    }

    /// The message that commits a checkpoint to the coordinator.
    pub open spec fn commit_message(self, ch: CheckpointView) -> SendView {
        SendView {
            to: self.ipc_gateway_addr,
            method: ScaMethod::CommitChildCheckpoint.number(),
            params: SendParamsView::Checkpoint(ch),
            value: 0,
        }
    }

    /// Whether `caller` has voted for the checkpoint with the given content address.
    pub open spec fn has_voted(self, cid: Seq<u8>, caller: Address) -> bool {
        self.votes_for(cid).contains(caller)
    }

    /// The message that a vote has the host send: the commitment of the
    /// checkpoint, where the vote makes the majority.
    pub open spec fn vote_message(self, ch: CheckpointView, caller: Address) -> Option<SendView> {
        if self.has_majority(self.votes_for(ch.cid).push(caller)) {
            Some(self.commit_message(ch))
        } else {
            None
        }
    }
}

} // verus!
