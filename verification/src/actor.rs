//! The methods of the subnet actor. Each takes the state and what the host
//! tells of the message, checks its guards, changes the state and returns the
//! messages for the host to send once the call has gone through. Where a
//! method fails the host discards the state.

use fvm_shared::econ::TokenAmount;
use vstd::prelude::*;

use crate::amount::{amount_from_atto, amount_lt, atto};
use crate::checkpoints::row_get_rejects;
use crate::error::{failure, store_failure, ActorError, ErrorView, ExitCode, StateError};
use crate::ext::sca::Method as ScaMethod;
use crate::laws::{
    law_initial_valid, law_join_complete, law_join_valid, law_kill_valid, law_leave_complete,
    law_leave_valid, law_vote_valid, lemma_status_keeps_complete,
};
use crate::rules::{constructor_refusal, MessageView, INIT_ACTOR_ID, METHOD_SEND};
use crate::state::{State, StateView};
use crate::types::{
    Address, ChainEpoch, Checkpoint, CheckpointView, Cid, ConstructParams, JoinParams,
    MethodNum, Status, MIN_COLLATERAL_AMOUNT,
};
use crate::utils::{send_views, CrossActorPayload, SendParams, SendView};

verus! {

/// The methods of the subnet actor.
#[derive(Clone, Copy, Debug, PartialEq, Eq, Structural)]
pub enum Method {
    Constructor,
    Join,
    Leave,
    Kill,
    SubmitCheckpoint,
}

impl Method {
    /// The number by which the method is called.
    pub open spec fn number(self) -> MethodNum {
        match self {
            Method::Constructor => 1,
            Method::Join => 2,
            Method::Leave => 3,
            Method::Kill => 4,
            Method::SubmitCheckpoint => 5,
        }
    }

    /// The method that a number calls, if it calls one.
    pub open spec fn of(n: MethodNum) -> Option<Method> {
        if n == 1 {
            Some(Method::Constructor)
        } else if n == 2 {
            Some(Method::Join)
        } else if n == 3 {
            Some(Method::Leave)
        } else if n == 4 {
            Some(Method::Kill)
        } else if n == 5 {
            Some(Method::SubmitCheckpoint)
        } else {
            None
        }
    }

    /// The number by which the method is called.
    pub fn as_u64(self) -> (n: MethodNum)
        ensures
            n == self.number(),
            Method::of(n) == Some(self),
    {
        match self {
            Method::Constructor => 1,
            Method::Join => 2,
            Method::Leave => 3,
            Method::Kill => 4,
            Method::SubmitCheckpoint => 5,
        }
    }

    /// The method that a number calls, if it calls one.
    pub fn from_u64(n: MethodNum) -> (r: Option<Method>)
        ensures
            r == Method::of(n),
            r matches Some(m) ==> m.number() == n,
            r is None ==> n == 0 || n > 5,
    {
        if n == 1 {
            Some(Method::Constructor)
        } else if n == 2 {
            Some(Method::Join)
        } else if n == 3 {
            Some(Method::Leave)
        } else if n == 4 {
            Some(Method::Kill)
        } else if n == 5 {
            Some(Method::SubmitCheckpoint)
        } else {
            None
        }
    }
}

/// What the host tells of the message that is being handled: the caller, in
/// its resolved form, whether the caller is an account, the actor that
/// receives the message, and the funds that come with it.
#[derive(Clone, Debug)]
pub struct Message {
    pub caller: Address,
    pub caller_is_account: bool,
    pub receiver: Address,
    pub value_received: TokenAmount,
}

impl View for Message {
    type V = MessageView;

    open spec fn view(&self) -> MessageView {
        MessageView {
            caller: self.caller,
            caller_is_account: self.caller_is_account,
            receiver: self.receiver,
            value_received: atto(self.value_received),
        }
    }
}

/// The message that a call has the host send, if any, as the contracts see it.
pub open spec fn sent_view(sent: Option<CrossActorPayload>) -> Option<SendView> {
    match sent {
        Some(p) => Some(p@),
        None => None,
    }
}

/// The messages that a call which sends at most one has the host send.
pub open spec fn sent_list(sent: Option<SendView>) -> Seq<SendView> {
    match sent {
        Some(m) => seq![m],
        None => Seq::empty(),
    }
}

/// The state with everything but its stake table as in `before`.
pub open spec fn only_stake_differs(after: StateView, before: StateView) -> bool {
    after == (StateView { stake: after.stake, ..before })
}

/// SubnetActor trait. Custom subnet actors need to implement this trait
/// in order to be used as part of hierarchical consensus.
///
/// Subnet actors are responsible for the governing policies of HC subnets.
pub trait SubnetActor {
    /// Deploys subnet actor with the corresponding parameters.
    fn constructor(msg: &Message, params: ConstructParams) -> Result<State, ActorError>;

    /// Logic for new peers to join a subnet.
    fn join(st: &mut State, msg: &Message, params: JoinParams) -> Result<
        Option<CrossActorPayload>,
        ActorError,
    >;

    /// Called by peers to leave a subnet.
    fn leave(st: &mut State, msg: &Message) -> Result<Vec<CrossActorPayload>, ActorError>;

    /// Sends a kill signal for the subnet to the SCA.
    fn kill(st: &mut State, msg: &Message) -> Result<CrossActorPayload, ActorError>;

    /// Submits a new checkpoint for the subnet.
    fn submit_checkpoint(
        st: &mut State,
        msg: &Message,
        checkpoint: Checkpoint,
        signature_valid: bool,
    ) -> Result<Option<CrossActorPayload>, ActorError>;
}

/// The subnet actor of hierarchical consensus.
pub struct Actor;

impl Actor {
    /// The message to the coordinator with the given method and value, and no parameters.
    fn to_gateway(st: &State, method: ScaMethod, value: TokenAmount) -> (p: CrossActorPayload)
        ensures
            p@ == st@.to_gateway(method, atto(value)),
    {
        CrossActorPayload::new(st.ipc_gateway_addr, method.as_u64(), SendParams::Empty, value)
    }

    /// The message that a join has the host send, once the stake is added.
    /// `amount` is what the caller sent.
    pub fn join_message(st: &State, amount: &TokenAmount) -> (sent: Option<CrossActorPayload>)
        ensures
            sent_view(sent) == (StateView {
                total_stake: st@.total_stake - atto(*amount),
                ..st@
            }).join_message(atto(*amount)),
    {
        if st.status == Status::Instantiated {
            if !amount_lt(&st.total_stake, &amount_from_atto(MIN_COLLATERAL_AMOUNT)) {
                Some(Self::to_gateway(st, ScaMethod::Register, st.total_stake.clone()))
            } else {
                None
            }
        } else {
            Some(Self::to_gateway(st, ScaMethod::AddStake, amount.clone()))
        }
    }

    /// The messages that a leave has the host send. `stake` is what the
    /// caller leaves with.
    pub fn leave_messages(st: &State, caller: &Address, stake: &TokenAmount) -> (sent: Vec<
        CrossActorPayload,
    >)
        ensures
            send_views(sent@) == st@.release_messages(*caller, atto(*stake)),
    {
        let mut sent: Vec<CrossActorPayload> = Vec::new();
        // release from SCA
        if st.status != Status::Terminating {
            sent.push(
                CrossActorPayload::new(
                    st.ipc_gateway_addr,
                    ScaMethod::ReleaseStake.as_u64(),
                    SendParams::Fund { value: stake.clone() },
                    amount_from_atto(0),
                ),
            );
        }
        // send back to owner
        sent.push(CrossActorPayload::new(*caller, METHOD_SEND, SendParams::Empty, stake.clone()));
        assert(send_views(sent@) =~= st@.release_messages(*caller, atto(*stake)));
        sent
    }
}

impl State {
    /// The error with which a join fails, if it fails: the refusal of the
    /// join, or the failure of the stake table where it refuses the lookup or
    /// the write of the caller's stake.
    pub open spec fn join_failure(&self, msg: MessageView) -> Option<ErrorView> {
        if self@.join_refusal(msg) is Some {
            self@.join_refusal(msg)
        } else if self.read_rejected(msg.caller) || self.write_rejected(msg.caller) {
            Some(store_failure())
        } else {
            None
        }
    }

    /// The error with which a leave fails, if it fails: the caller is no
    /// account, the stake table refuses the lookup of the caller's stake, the
    /// caller has no stake, or the stake table refuses the write.
    pub open spec fn leave_failure(&self, msg: MessageView) -> Option<ErrorView> {
        if !msg.caller_is_account {
            self@.leave_refusal(msg)
        } else if self.read_rejected(msg.caller) {
            Some(store_failure())
        } else if self@.leave_refusal(msg) is Some {
            self@.leave_refusal(msg)
        } else if self.write_rejected(msg.caller) {
            Some(store_failure())
        } else {
            None
        }
    }

    /// Whether a failed leave leaves the state as it was: it does unless the
    /// stake table refused the write.
    pub open spec fn leave_undone(&self, msg: MessageView) -> bool {
        self@.leave_refusal(msg) is Some || self.read_rejected(msg.caller)
    }

    /// The error with which the vote for a checkpoint fails, if it fails.
    /// The caller has to be an account and the checkpoint has to pass
    /// verification; the votes that the checkpoint has are looked up, and the
    /// caller must not be among them; the stakes of the voters are looked up
    /// and the votes are booked. Where a table refuses on the way the error
    /// is the failure of the store.
    pub open spec fn submit_failure(
        &self,
        msg: MessageView,
        ch: CheckpointView,
        signature_valid: bool,
    ) -> Option<ErrorView> {
        let fault = self.checkpoint_fault(ch, msg.caller, msg.receiver, signature_valid);
        if !msg.caller_is_account {
            self@.submit_refusal(msg, ch, signature_valid)
        } else if fault == Some(StateError::Store) {
            Some(store_failure())
        } else if fault is Some {
            Some(failure(ExitCode::USR_ILLEGAL_STATE, "checkpoint does not pass verification"))
        } else if row_get_rejects(self.window_checks, ch.cid) {
            Some(store_failure())
        } else if self@.submit_refusal(msg, ch, signature_valid) is Some {
            self@.submit_refusal(msg, ch, signature_valid)
        } else if self.submit_unbooked(msg, ch) {
            Some(store_failure())
        } else {
            None
        }
    }

    /// Whether the votes for a checkpoint, with that of the caller, cannot be
    /// counted or booked: the stake table refuses the lookup of a voter, or a
    /// table of the checkpoint protocol refuses the write.
    pub open spec fn submit_unbooked(&self, msg: MessageView, ch: CheckpointView) -> bool {
        let votes = self@.votes_for(ch.cid).push(msg.caller);
        self.count_rejected(votes) || self.booking_rejected(ch, self@.has_majority(votes))
    }

    /// Whether a failed vote leaves the state as it was: it does unless a
    /// table refused while the votes were booked.
    pub open spec fn submit_undone(
        &self,
        msg: MessageView,
        ch: CheckpointView,
        signature_valid: bool,
    ) -> bool {
        let votes = self@.votes_for(ch.cid).push(msg.caller);
        !msg.caller_is_account || self.checkpoint_fault(
            ch,
            msg.caller,
            msg.receiver,
            signature_valid,
        ) is Some || row_get_rejects(self.window_checks, ch.cid) || self@.submit_refusal(
            msg,
            ch,
            signature_valid,
        ) is Some || self.count_rejected(votes)
    }
}

/// Where the table of checkpoints refuses nothing, no lookup on the way to
/// the checkpoint committed last before an epoch is refused.
pub proof fn lemma_prev_not_rejected(st: State, epoch: int)
    requires
        st.checkpoints.accepts_all(),
    ensures
        !st.prev_rejected(epoch),
    decreases epoch,
{
    let prev = epoch - st.check_period;
    if st.check_period > 0 && prev >= 0 && !st@.checkpoints.contains_key(prev as ChainEpoch) {
        lemma_prev_not_rejected(st, prev);
    }
}

/// Where the tables of a state refuse nothing, the rules alone decide: a
/// join, a leave and a vote for a checkpoint fail exactly where the rules
/// refuse them, with the error of the refusal, and a checkpoint passes
/// verification exactly where the state accepts it.
pub proof fn law_rules_decide(
    st: State,
    msg: MessageView,
    ch: CheckpointView,
    signature_valid: bool,
)
    requires
        st.tables_accept_all(),
    ensures
        st.join_failure(msg) == st@.join_refusal(msg),
        st.leave_failure(msg) == st@.leave_refusal(msg),
        st.submit_failure(msg, ch, signature_valid) == st@.submit_refusal(
            msg,
            ch,
            signature_valid,
        ),
        st.checkpoint_fault(ch, msg.caller, msg.receiver, signature_valid) is None
            <==> st@.accepts(ch, msg.caller, msg.receiver, signature_valid),
        st.checkpoint_fault(ch, msg.caller, msg.receiver, signature_valid)
            != Some(StateError::Store),
{
    lemma_prev_not_rejected(st, ch.epoch as int);
}

impl SubnetActor for Actor {
    /// The constructor populates the initial state. Only the init actor of
    /// the system may call it.
    fn constructor(msg: &Message, params: ConstructParams) -> (r: Result<State, ActorError>)
        ensures
            match r {
                Ok(st) => constructor_refusal(msg@) is None && st@ == StateView::initial(params@)
                    && st@.valid() && st@.settled() && st@.complete() && st.tables_accept_all(),
                Err(e) => constructor_refusal(msg@) == Some(e@),
            },
    {
        if msg.caller != Address::new_id(INIT_ACTOR_ID) {
            return Err(ActorError::forbidden("caller is not the init actor"));
        }
        proof {
            law_initial_valid(params@);
        }
        Ok(State::new(params))
    }

    /// Called by peers looking to join a subnet.
    ///
    /// It implements the basic logic to onboard new peers to the subnet. The
    /// call is refused, with the state unchanged, where it brings no
    /// collateral, whoever calls, and where the caller is no account.
    /// Otherwise it succeeds unless the stake table fails.
    fn join(st: &mut State, msg: &Message, params: JoinParams) -> (r: Result<
        Option<CrossActorPayload>,
        ActorError,
    >)
        ensures
            match r {
                Ok(sent) => {
                    &&& old(st).join_failure(msg@) is None
                    &&& final(st)@ == old(st)@.join(
                        msg.caller,
                        params.validator_net_addr@,
                        atto(msg.value_received),
                    )
                    &&& sent_view(sent) == old(st)@.join_message(atto(msg.value_received))
                    &&& old(st)@.valid() ==> final(st)@.valid()
                    &&& old(st)@.valid() && old(st)@.status != Status::Killed
                        ==> final(st)@.settled()
                    &&& old(st)@.valid() && old(st)@.complete() ==> final(st)@.complete()
                },
                Err(e) => {
                    &&& old(st).join_failure(msg@) == Some(e@)
                    &&& only_stake_differs(final(st)@, old(st)@)
                    &&& old(st)@.join_refusal(msg@) is Some || old(st).read_rejected(msg.caller)
                        ==> *final(st) == *old(st)
                },
            },
    {
        let zero = amount_from_atto(0);
        if !amount_lt(&zero, &msg.value_received) {
            return Err(
                ActorError::illegal_argument("a minimum collateral is required to join the subnet"),
            );
        }
        if !msg.caller_is_account {
            return Err(ActorError::forbidden("caller not account actor type"));
        }
        // increase collateral
        match st.add_stake(&msg.caller, params.validator_net_addr.as_str(), &msg.value_received) {
            Ok(()) => {},
            Err(_) => {
                return Err(ActorError::illegal_state("failed to load subnet"));
            },
        }
        let sent = Self::join_message(st, &msg.value_received);
        st.mutate_state();
        proof {
            let before = old(st)@;
            let amount = atto(msg.value_received);
            let added = before.add_stake(msg.caller, params.validator_net_addr@, amount);
            assert((StateView { total_stake: added.total_stake - amount, ..added }).join_message(
                amount,
            ) == before.join_message(amount));
            if before.valid() {
                law_join_valid(before, msg.caller, params.validator_net_addr@, amount);
                if before.complete() {
                    law_join_complete(before, msg.caller, params.validator_net_addr@, amount);
                }
            }
        }
        Ok(sent)
    }

    /// Called by peers looking to leave a subnet, with all their stake. The
    /// call is refused, with the state unchanged, where the caller is no
    /// account or has no stake. Otherwise it succeeds unless the stake table
    /// fails.
    fn leave(st: &mut State, msg: &Message) -> (r: Result<Vec<CrossActorPayload>, ActorError>)
        ensures
            match r {
                Ok(sent) => {
                    &&& old(st).leave_failure(msg@) is None
                    &&& final(st)@ == old(st)@.leave(msg.caller)
                    &&& send_views(sent@) == old(st)@.leave_messages(msg.caller)
                    &&& old(st)@.valid() ==> final(st)@.valid()
                    &&& old(st)@.valid() && old(st)@.settled() ==> final(st)@.settled()
                    &&& old(st)@.valid() && old(st)@.complete() ==> final(st)@.complete()
                },
                Err(e) => {
                    &&& old(st).leave_failure(msg@) == Some(e@)
                    &&& only_stake_differs(final(st)@, old(st)@)
                    &&& old(st).leave_undone(msg@) ==> *final(st) == *old(st)
                },
            },
    {
        if !msg.caller_is_account {
            return Err(ActorError::forbidden("caller not account actor type"));
        }
        // get stake to know how much to release
        let found = match st.get_stake(&msg.caller) {
            Ok(found) => found,
            Err(_) => {
                return Err(ActorError::illegal_state("failed to load subnet"));
            },
        };
        let stake = State::stake_or_zero(found);
        if !amount_lt(&amount_from_atto(0), &stake) {
            return Err(ActorError::illegal_state("caller has no stake in subnet"));
        }
        let sent = Self::leave_messages(st, &msg.caller, &stake);
        // remove stake from balance table
        match st.rm_stake(&msg.caller, &stake) {
            Ok(()) => {},
            Err(_) => {
                return Err(ActorError::illegal_state("failed to load subnet"));
            },
        }
        st.mutate_state();
        proof {
            if old(st)@.valid() {
                law_leave_valid(old(st)@, msg.caller);
                if old(st)@.complete() {
                    law_leave_complete(old(st)@, msg.caller);
                }
            }
        }
        Ok(sent)
    }

    /// Sends a kill signal for the subnet to the coordinator. The subnet
    /// can only be killed when all validators have left, and only once.
    fn kill(st: &mut State, msg: &Message) -> (r: Result<CrossActorPayload, ActorError>)
        ensures
            match r {
                Ok(sent) => {
                    &&& old(st)@.kill_refusal() is None
                    &&& final(st)@ == old(st)@.kill()
                    &&& sent@ == old(st)@.to_gateway(ScaMethod::Kill, 0)
                    &&& old(st)@.valid() ==> final(st)@.valid() && final(st)@.settled()
                    &&& old(st)@.complete() ==> final(st)@.complete()
                },
                Err(e) => old(st)@.kill_refusal() == Some(e@) && *final(st) == *old(st),
            },
    {
        if st.status == Status::Terminating || st.status == Status::Killed {
            return Err(
                ActorError::illegal_state("the subnet is already in a killed or terminating state"),
            );
        }
        if st.validator_set.len() != 0 {
            return Err(
                ActorError::illegal_state(
                    "this subnet can only be killed when all validators have left",
                ),
            );
        }
        // move to terminating state
        st.status = Status::Terminating;
        // unregister subnet
        let sent = Self::to_gateway(st, ScaMethod::Kill, amount_from_atto(0));
        st.mutate_state();
        proof {
            assert(st@ =~= old(st)@.kill());
            if old(st)@.valid() {
                law_kill_valid(old(st)@);
            }
            if old(st)@.complete() {
                lemma_status_keeps_complete(old(st)@, st@);
            }
        }
        Ok(sent)
    }

    /// Accepts the vote of a validator for a signed checkpoint.
    ///
    /// The checkpoint is verified before it is counted. Once the validators
    /// that have voted for it hold two thirds of the stake it is committed
    /// and sent to the coordinator. `signature_valid` says whether the
    /// signature of the checkpoint holds under the caller's public key. The
    /// call succeeds where the checkpoint is not refused, unless a table
    /// fails. Where the call fails the state is unchanged, unless a table
    /// refused while the votes were booked: then only the tables of the
    /// checkpoint protocol may differ.
    fn submit_checkpoint(
        st: &mut State,
        msg: &Message,
        checkpoint: Checkpoint,
        signature_valid: bool,
    ) -> (r: Result<Option<CrossActorPayload>, ActorError>)
        ensures
            match r {
                Ok(sent) => {
                    &&& old(st).submit_failure(msg@, checkpoint@, signature_valid) is None
                    &&& final(st)@ == old(st)@.vote(checkpoint@, msg.caller)
                    &&& sent_view(sent) == old(st)@.vote_message(checkpoint@, msg.caller)
                    &&& old(st)@.valid() ==> final(st)@.valid()
                    &&& old(st)@.valid() && old(st)@.settled() ==> final(st)@.settled()
                    &&& old(st)@.complete() ==> final(st)@.complete()
                },
                Err(e) => {
                    &&& old(st).submit_failure(msg@, checkpoint@, signature_valid) == Some(e@)
                    &&& old(st).submit_undone(msg@, checkpoint@, signature_valid) ==> *final(st)
                        == *old(st)
                },
            },
            final(st).as_but_checkpoints(*old(st)),
    {
        if !msg.caller_is_account {
            return Err(ActorError::forbidden("caller not account actor type"));
        }
        // verify checkpoint
        match st.verify_checkpoint(&checkpoint, &msg.caller, &msg.receiver, signature_valid) {
            Ok(()) => {},
            Err(StateError::Store) => {
                return Err(ActorError::illegal_state("failed to load subnet"));
            },
            Err(_) => {
                return Err(ActorError::illegal_state("checkpoint does not pass verification"));
            },
        }
        // get votes for committed checkpoint
        let mut votes = match st.votes_for(&checkpoint.cid) {
            Ok(votes) => votes,
            Err(_) => {
                return Err(ActorError::illegal_state("failed to load subnet"));
            },
        };
        if votes.contains(&msg.caller) {
            return Err(ActorError::illegal_state("miner has already voted the checkpoint"));
        }
        // add miner vote
        votes.push(msg.caller);
        // if has majority
        let majority = match st.has_majority_vote(&votes) {
            Ok(majority) => majority,
            Err(_) => {
                return Err(ActorError::illegal_state("failed to load subnet"));
            },
        };
        let sent = if majority {
            // propagate to sca
            Some(
                CrossActorPayload::new(
                    st.ipc_gateway_addr,
                    ScaMethod::CommitChildCheckpoint.as_u64(),
                    SendParams::Checkpoint(checkpoint.copy()),
                    amount_from_atto(0),
                ),
            )
        } else {
            None
        };
        match st.apply_vote(&checkpoint, votes, majority) {
            Ok(()) => {},
            Err(_) => {
                return Err(ActorError::illegal_state("failed to load subnet"));
            },
        }
        proof {
            assert(st@ =~= old(st)@.vote(checkpoint@, msg.caller));
            if old(st)@.valid() {
                law_vote_valid(old(st)@, checkpoint@, msg.caller);
            }
            if old(st)@.complete() {
                lemma_status_keeps_complete(old(st)@, st@);
            }
        }
        Ok(sent)
    }
}

/// The parameters of a call, as the host has decoded them.
#[derive(Clone, Debug)]
pub enum MethodParams {
    /// No parameters: those of a leave and of a kill.
    Empty,
    /// The parameters of construction.
    Constructor(ConstructParams),
    /// The parameters of a join.
    Join(JoinParams),
    /// A checkpoint, and whether its signature holds under the public key
    /// of the caller.
    SubmitCheckpoint { checkpoint: Checkpoint, signature_valid: bool },
}

impl MethodParams {
    /// Whether the parameters are those of the method.
    pub open spec fn fit(self, method: Method) -> bool {
        match method {
            Method::Constructor => self is Constructor,
            Method::Join => self is Join,
            Method::Leave => self is Empty,
            Method::Kill => self is Empty,
            Method::SubmitCheckpoint => self is SubmitCheckpoint,
        }
    }
}

/// The error with which a call is refused before a method is carried out:
/// the method number has to be one of the actor's, the parameters have to be
/// those of the method, construction happens once and every other method
/// needs the constructed state.
pub open spec fn dispatch_refusal(
    state: Option<State>,
    method: MethodNum,
    params: MethodParams,
) -> Option<ErrorView> {
    match Method::of(method) {
        None => Some(failure(ExitCode::USR_UNHANDLED_MESSAGE, "Invalid method")),
        Some(m) => if !params.fit(m) {
            Some(
                failure(
                    ExitCode::USR_SERIALIZATION,
                    "the parameters are not those of the method",
                ),
            )
        } else if m != Method::Constructor && state is None {
            Some(failure(ExitCode::USR_ILLEGAL_STATE, "the actor is not constructed"))
        } else {
            None
        },
    }
}

/// The error with which a call fails, if it fails: the refusal before the
/// method, or the error of the method. A construction that its guard lets
/// pass fails where the actor is constructed already.
pub open spec fn invoke_failure(
    state: Option<State>,
    msg: MessageView,
    method: MethodNum,
    params: MethodParams,
) -> Option<ErrorView> {
    if dispatch_refusal(state, method, params) is Some {
        dispatch_refusal(state, method, params)
    } else {
        match (Method::of(method), state) {
            (Some(Method::Constructor), None) => constructor_refusal(msg),
            (Some(Method::Constructor), Some(_)) => if constructor_refusal(msg) is Some {
                constructor_refusal(msg)
            } else {
                Some(failure(ExitCode::USR_ILLEGAL_STATE, "the actor is constructed already"))
            },
            (Some(Method::Join), Some(st)) => st.join_failure(msg),
            (Some(Method::Leave), Some(st)) => st.leave_failure(msg),
            (Some(Method::Kill), Some(st)) => st@.kill_refusal(),
            (Some(Method::SubmitCheckpoint), Some(st)) => st.submit_failure(
                msg,
                params->checkpoint@,
                params->signature_valid,
            ),
            _ => None,
        }
    }
}

/// Whether a failed call leaves the state of the actor as it was: it does
/// unless the stake table refused the write of a join or of a leave, or a
/// table refused while the votes for a checkpoint were booked.
pub open spec fn invoke_undone(
    state: Option<State>,
    msg: MessageView,
    method: MethodNum,
    params: MethodParams,
) -> bool {
    dispatch_refusal(state, method, params) is Some || match (Method::of(method), state) {
        (Some(Method::Join), Some(st)) => st@.join_refusal(msg) is Some || st.read_rejected(
            msg.caller,
        ),
        (Some(Method::Leave), Some(st)) => st.leave_undone(msg),
        (Some(Method::SubmitCheckpoint), Some(st)) => st.submit_undone(
            msg,
            params->checkpoint@,
            params->signature_valid,
        ),
        _ => true,
    }
}

/// The state that a call leaves, and the messages that it has the host
/// send, where the call does not fail.
pub open spec fn invoke_outcome(
    state: Option<State>,
    msg: MessageView,
    method: MethodNum,
    params: MethodParams,
) -> (StateView, Seq<SendView>) {
    match (Method::of(method), state, params) {
        (Some(Method::Constructor), _, MethodParams::Constructor(p)) => (
            StateView::initial(p@),
            Seq::empty(),
        ),
        (Some(Method::Join), Some(st), MethodParams::Join(p)) => (
            st@.join(msg.caller, p.validator_net_addr@, msg.value_received),
            sent_list(st@.join_message(msg.value_received)),
        ),
        (Some(Method::Leave), Some(st), _) => (
            st@.leave(msg.caller),
            st@.leave_messages(msg.caller),
        ),
        (Some(Method::Kill), Some(st), _) => (
            st@.kill(),
            seq![st@.to_gateway(ScaMethod::Kill, 0)],
        ),
        (
            Some(Method::SubmitCheckpoint),
            Some(st),
            MethodParams::SubmitCheckpoint { checkpoint, signature_valid },
        ) => (
            st@.vote(checkpoint@, msg.caller),
            sent_list(st@.vote_message(checkpoint@, msg.caller)),
        ),
        _ => arbitrary(),
    }
}

/// The addresses whose entry of the stake table a call of the method may
/// change: the caller of a join or a leave, and nobody else.
pub open spec fn touched_stakes(method: MethodNum, caller: Address) -> Seq<Address> {
    if Method::of(method) == Some(Method::Join) || Method::of(method) == Some(Method::Leave) {
        seq![caller]
    } else {
        Seq::empty()
    }
}

/// Whether two stake tables hold the same for every address but the listed ones.
pub open spec fn same_stakes_but(
    after: Map<Address, int>,
    before: Map<Address, int>,
    touched: Seq<Address>,
) -> bool {
    forall|a: Address|
        !touched.contains(a) ==> (#[trigger] after.contains_key(a) == before.contains_key(a)
            && (before.contains_key(a) ==> after[a] == before[a]))
}

/// Writing the entry of one address leaves those of the others as they were.
pub proof fn lemma_one_stake_written(before: Map<Address, int>, a: Address, v: int)
    ensures
        same_stakes_but(before.insert(a, v), before, seq![a]),
{
    assert(seq![a][0] == a);
}

/// Whether a call has left every entry of the stake table but the listed
/// ones as it was. A call that constructs the actor has no table to keep.
pub open spec fn stakes_kept(
    before: Option<State>,
    after: Option<State>,
    touched: Seq<Address>,
) -> bool {
    match (before, after) {
        (Some(b), Some(a)) => same_stakes_but(a@.stake, b@.stake, touched),
        _ => true,
    }
}

/// The checkpoint whose entries of the tables of the checkpoint protocol a
/// call may change, by its epoch and its content address: the checkpoint
/// that is voted for, and no other.
pub open spec fn touched_checkpoint(method: MethodNum, params: MethodParams) -> Option<
    (ChainEpoch, Seq<u8>),
> {
    if Method::of(method) == Some(Method::SubmitCheckpoint) && params is SubmitCheckpoint {
        Some((params->checkpoint.epoch, params->checkpoint.cid@))
    } else {
        None
    }
}

/// Whether two tables hold the same for every key but the given one.
pub open spec fn same_but<K, V>(after: Map<K, V>, before: Map<K, V>, key: Option<K>) -> bool {
    forall|k: K|
        key != Some(k) ==> (#[trigger] after.contains_key(k) == before.contains_key(k) && (
        before.contains_key(k) ==> after[k] == before[k]))
}

/// Whether a call has left the committed checkpoints of every epoch, and
/// the votes for every content address, as they were, but those of the
/// given checkpoint. A call that constructs the actor has no table to keep.
pub open spec fn checkpoints_kept(
    before: Option<State>,
    after: Option<State>,
    touched: Option<(ChainEpoch, Seq<u8>)>,
) -> bool {
    match (before, after, touched) {
        (Some(b), Some(a), Some((epoch, cid))) => same_but(
            a@.checkpoints,
            b@.checkpoints,
            Some(epoch),
        ) && same_but(a@.window_checks, b@.window_checks, Some(cid)),
        (Some(b), Some(a), None) => a@.checkpoints == b@.checkpoints && a@.window_checks
            == b@.window_checks,
        _ => true,
    }
}

/// Whether the actor has a state whose tables refuse nothing, as those of a
/// newly constructed actor do.
pub open spec fn newly_made(state: Option<State>) -> bool {
    match state {
        Some(st) => st.tables_accept_all(),
        None => false,
    }
}

/// Whether the state of the actor is as it was but for what its three
/// tables hold.
pub open spec fn only_tables_differ(before: Option<State>, after: Option<State>) -> bool {
    match (before, after) {
        (Some(b), Some(a)) => a@ == (StateView {
            stake: a@.stake,
            checkpoints: a@.checkpoints,
            window_checks: a@.window_checks,
            ..b@
        }),
        (None, None) => true,
        _ => false,
    }
}

impl Actor {
    /// The messages of a call that sends at most one.
    fn at_most_one(sent: Option<CrossActorPayload>) -> (list: Vec<CrossActorPayload>)
        ensures
            send_views(list@) == sent_list(sent_view(sent)),
    {
        let mut list: Vec<CrossActorPayload> = Vec::new();
        match sent {
            Some(p) => {
                list.push(p);
                assert(send_views(list@) =~= seq![p@]);
            },
            None => {
                assert(send_views(list@) =~= Seq::<SendView>::empty());
            },
        }
        list
    }

    /// The addresses whose entry of the stake table a call of the method may
    /// change.
    pub fn touched_stakes(method: MethodNum, msg: &Message) -> (list: Vec<Address>)
        ensures
            list@ == touched_stakes(method, msg.caller),
    {
        let mut list: Vec<Address> = Vec::new();
        match Method::from_u64(method) {
            Some(Method::Join) => {
                list.push(msg.caller);
            },
            Some(Method::Leave) => {
                list.push(msg.caller);
            },
            _ => {},
        }
        assert(list@ =~= touched_stakes(method, msg.caller));
        list
    }

    /// The checkpoint whose entries of the tables of the checkpoint protocol
    /// a call may change, by its epoch and its content address.
    pub fn touched_checkpoint(method: MethodNum, params: &MethodParams) -> (r: Option<
        (ChainEpoch, Cid),
    >)
        ensures
            match r {
                Some((epoch, cid)) => touched_checkpoint(method, *params) == Some((epoch, cid@)),
                None => touched_checkpoint(method, *params) is None,
            },
    {
        match (Method::from_u64(method), params) {
            (Some(Method::SubmitCheckpoint), MethodParams::SubmitCheckpoint { checkpoint, .. }) => {
                Some((checkpoint.epoch, checkpoint.cid()))
            },
            _ => None,
        }
    }

    /// Carries out the method that a number calls, on the state of the actor,
    /// which is `None` until the actor is constructed.
    ///
    /// The call succeeds unless it is refused or a table fails. Construction
    /// and kill do not use the tables: they succeed unless they are refused.
    /// Where the call fails the state is unchanged, unless a table refused a
    /// write: then only the tables may differ, and the host discards the
    /// state. A call that succeeds changes no entry of the stake table but
    /// those of `touched_stakes`, and no entry of the two tables of the
    /// checkpoint protocol but those of `touched_checkpoint`. The tables of a newly constructed actor
    /// refuse nothing.
    pub fn invoke_method(
        state: &mut Option<State>,
        msg: &Message,
        method: MethodNum,
        params: MethodParams,
    ) -> (r: Result<Vec<CrossActorPayload>, ActorError>)
        ensures
            match r {
                Ok(sent) => {
                    &&& invoke_failure(*old(state), msg@, method, params) is None
                    &&& *final(state) matches Some(st) && (st@, send_views(sent@))
                        == invoke_outcome(*old(state), msg@, method, params)
                    &&& stakes_kept(
                        *old(state),
                        *final(state),
                        touched_stakes(method, msg.caller),
                    )
                    &&& checkpoints_kept(
                        *old(state),
                        *final(state),
                        touched_checkpoint(method, params),
                    )
                    &&& Method::of(method) == Some(Method::Constructor) ==> newly_made(
                        *final(state),
                    )
                },
                Err(e) => {
                    &&& invoke_failure(*old(state), msg@, method, params) == Some(e@)
                    &&& invoke_undone(*old(state), msg@, method, params) ==> *final(state)
                        == *old(state)
                    &&& only_tables_differ(*old(state), *final(state))
                },
            },
    {
        let m = match Method::from_u64(method) {
            Some(m) => m,
            None => {
                return Err(ActorError::unhandled_message("Invalid method"));
            },
        };
        match (m, params) {
            (Method::Constructor, MethodParams::Constructor(p)) => {
                let st = Self::constructor(msg, p)?;
                if state.is_some() {
                    return Err(ActorError::illegal_state("the actor is constructed already"));
                }
                *state = Some(st);
                Ok(Vec::new())
            },
            (Method::Join, MethodParams::Join(p)) => match state {
                Some(st) => {
                    let ghost before = st@;
                    let sent = Self::join(st, msg, p)?;
                    proof {
                        lemma_one_stake_written(
                            before.stake,
                            msg.caller,
                            before.stake_of(msg.caller) + atto(msg.value_received),
                        );
                    }
                    Ok(Self::at_most_one(sent))
                },
                None => Err(ActorError::illegal_state("the actor is not constructed")),
            },
            (Method::Leave, MethodParams::Empty) => match state {
                Some(st) => {
                    let ghost before = st@;
                    let sent = Self::leave(st, msg)?;
                    proof {
                        lemma_one_stake_written(
                            before.stake,
                            msg.caller,
                            before.stake_left(msg.caller, before.stake_of(msg.caller)),
                        );
                    }
                    Ok(sent)
                },
                None => Err(ActorError::illegal_state("the actor is not constructed")),
            },
            (Method::Kill, MethodParams::Empty) => match state {
                Some(st) => {
                    let sent = Self::kill(st, msg)?;
                    Ok(Self::at_most_one(Some(sent)))
                },
                None => Err(ActorError::illegal_state("the actor is not constructed")),
            },
            (
                Method::SubmitCheckpoint,
                MethodParams::SubmitCheckpoint { checkpoint, signature_valid },
            ) => match state {
                Some(st) => {
                    let sent = Self::submit_checkpoint(st, msg, checkpoint, signature_valid)?;
                    Ok(Self::at_most_one(sent))
                },
                None => Err(ActorError::illegal_state("the actor is not constructed")),
            },
            _ => Err(ActorError::serialization("the parameters are not those of the method")),
        }
    }
}

} // verus!
