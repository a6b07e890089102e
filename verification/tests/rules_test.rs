use fvm_shared::econ::TokenAmount;
use ipc_subnet_actor::checkpoints::{Checkpoints, WindowChecks};
use ipc_subnet_actor::ext::{account, sca};
use ipc_subnet_actor::rules::{INIT_ACTOR_ID, METHOD_CONSTRUCTOR, METHOD_SEND};
use ipc_subnet_actor::state::is_multiple;
use ipc_subnet_actor::types::{bytes_equal, copy_bytes, LEAVING_COEFF};
use ipc_subnet_actor::{
    Actor, ActorError, Address, Checkpoint, Cid, ConsensusType, ConstructParams,
    CrossActorPayload, ExitCode, ExpectedSend, JoinParams, Message, Method, MethodParams,
    SendParams, State, StateError, Status, SubnetActor, SubnetID, Votes,
    DEFAULT_CHECKPOINT_PERIOD, MIN_COLLATERAL_AMOUNT,
};
use num_traits::Zero;

const GATEWAY: u64 = 64;
const SELF_ID: u64 = 9999;

fn atto(n: u64) -> TokenAmount {
    TokenAmount::from_atto(n)
}

fn params(consensus: ConsensusType) -> ConstructParams {
    ConstructParams {
        parent: SubnetID::default(),
        name: "subnet".to_string(),
        ipc_gateway_addr: GATEWAY,
        consensus,
        min_validator_stake: atto(MIN_COLLATERAL_AMOUNT),
        min_validators: 0,
        finality_threshold: 5,
        check_period: 10,
        genesis: vec![1, 2, 3],
    }
}

fn message(caller: u64, value: u64) -> Message {
    Message {
        caller: Address::new_id(caller),
        caller_is_account: true,
        receiver: Address::new_id(SELF_ID),
        value_received: atto(value),
    }
}

fn join_params() -> JoinParams {
    JoinParams { validator_net_addr: "/ip4/127.0.0.1/tcp/1347".to_string() }
}

fn new_state(consensus: ConsensusType) -> State {
    State::new(params(consensus))
}

fn join(st: &mut State, caller: u64, value: u64) -> Option<CrossActorPayload> {
    Actor::join(st, &message(caller, value), join_params()).unwrap()
}

fn checkpoint(epoch: i64, prev: &Cid, tag: u8) -> Checkpoint {
    Checkpoint {
        source: SubnetID::new(&SubnetID::default(), Address::new_id(SELF_ID)),
        epoch,
        prev_check: prev.copy(),
        payload: vec![tag],
        cid: Cid::new(vec![1, 113, 160, 228, 2, 2, tag, epoch as u8]),
        signature: vec![7; 65],
    }
}

fn three_validators() -> State {
    let mut st = new_state(ConsensusType::PoW);
    join(&mut st, 100, MIN_COLLATERAL_AMOUNT);
    join(&mut st, 101, MIN_COLLATERAL_AMOUNT);
    join(&mut st, 102, MIN_COLLATERAL_AMOUNT);
    assert_eq!(st.validator_set.len(), 3);
    assert_eq!(st.status, Status::Active);
    st
}

fn submit(
    st: &mut State,
    caller: u64,
    ch: &Checkpoint,
) -> Result<Option<CrossActorPayload>, ActorError> {
    Actor::submit_checkpoint(st, &message(caller, 0), ch.copy(), true)
}

fn sent_is(sent: &CrossActorPayload, to: u64, method: u64, params: SendParams, value: u64) {
    let expected = ExpectedSend { to: Address::new_id(to), method, params, value: atto(value) };
    assert!(expected.matches(sent), "sent {:?}, expected {:?}", sent, expected);
}

// ---- construction

#[test]
fn constructor_from_other_than_init_is_forbidden() {
    let mut msg = message(INIT_ACTOR_ID + 1, 0);
    let r = Actor::constructor(&msg, params(ConsensusType::PoW));
    assert_eq!(r.err().unwrap().exit_code(), ExitCode::USR_FORBIDDEN);

    msg.caller = Address::new_id(0);
    let mut state: Option<State> = None;
    let r = Actor::invoke_method(
        &mut state,
        &msg,
        Method::Constructor.as_u64(),
        MethodParams::Constructor(params(ConsensusType::PoW)),
    );
    assert_eq!(r.unwrap_err().exit_code(), ExitCode::USR_FORBIDDEN);
    assert!(state.is_none());
}

#[test]
fn constructor_sets_the_state() {
    let msg = message(INIT_ACTOR_ID, 0);
    let st = Actor::constructor(&msg, params(ConsensusType::Mir)).unwrap();
    assert_eq!(st.name, "subnet");
    assert_eq!(st.parent_id, SubnetID::default());
    assert_eq!(st.ipc_gateway_addr, Address::new_id(GATEWAY));
    assert_eq!(st.consensus, ConsensusType::Mir);
    assert_eq!(st.min_validator_stake, atto(MIN_COLLATERAL_AMOUNT));
    assert_eq!(st.total_stake, TokenAmount::zero());
    assert_eq!(st.status, Status::Instantiated);
    assert_eq!(st.genesis, vec![1, 2, 3]);
    assert_eq!(st.finality_threshold, 5);
    assert_eq!(st.check_period, 10);
    assert_eq!(st.min_validators, 0);
    assert_eq!(st.validator_set.len(), 0);
    assert_eq!(st.checkpoints.get(0), Ok(None));
    assert_eq!(st.checkpoints.get(10), Ok(None));
    assert_eq!(st.window_checks.get(&Cid::default()), Ok(None));
    assert_eq!(st.get_stake(&Address::new_id(100)).unwrap(), None);
}

#[test]
fn construction_raises_low_stake_and_period() {
    let mut p = params(ConsensusType::PoW);
    p.min_validator_stake = atto(5);
    p.check_period = 3;
    let st = State::new(p);
    assert_eq!(st.min_validator_stake, atto(MIN_COLLATERAL_AMOUNT));
    assert_eq!(st.check_period, DEFAULT_CHECKPOINT_PERIOD);

    let mut p = params(ConsensusType::PoW);
    p.min_validator_stake = atto(MIN_COLLATERAL_AMOUNT) * 3u64;
    p.check_period = 25;
    let st = State::new(p);
    assert_eq!(st.min_validator_stake, atto(MIN_COLLATERAL_AMOUNT) * 3u64);
    assert_eq!(st.check_period, 25);

    let mut p = params(ConsensusType::PoW);
    p.check_period = -50;
    assert_eq!(State::new(p).check_period, 10);
}

#[test]
fn constructing_twice_is_an_illegal_state() {
    let msg = message(INIT_ACTOR_ID, 0);
    let mut state: Option<State> = None;
    Actor::invoke_method(
        &mut state,
        &msg,
        METHOD_CONSTRUCTOR,
        MethodParams::Constructor(params(ConsensusType::PoW)),
    )
    .unwrap();
    let r = Actor::invoke_method(
        &mut state,
        &msg,
        METHOD_CONSTRUCTOR,
        MethodParams::Constructor(params(ConsensusType::Dummy)),
    );
    assert_eq!(r.unwrap_err().exit_code(), ExitCode::USR_ILLEGAL_STATE);
    assert_eq!(state.unwrap().consensus, ConsensusType::PoW);
}

#[test]
fn default_state() {
    let st = State::default();
    assert_eq!(st.name, "");
    assert_eq!(st.parent_id, SubnetID::default());
    assert_eq!(st.ipc_gateway_addr, Address::new_id(0));
    assert_eq!(st.consensus, ConsensusType::Delegated);
    assert_eq!(st.min_validator_stake, atto(MIN_COLLATERAL_AMOUNT));
    assert_eq!(st.total_stake, TokenAmount::zero());
    assert_eq!(st.finality_threshold, 5);
    assert_eq!(st.check_period, 10);
    assert!(st.genesis.is_empty());
    assert_eq!(st.status, Status::Instantiated);
    assert!(st.validator_set.is_empty());
    assert_eq!(st.min_validators, 0);
}

// ---- dispatch

#[test]
fn unknown_method_is_unhandled() {
    let mut state = Some(new_state(ConsensusType::PoW));
    for method in [0u64, 6, 99, u64::MAX] {
        let r = Actor::invoke_method(&mut state, &message(100, 1), method, MethodParams::Empty);
        assert_eq!(r.unwrap_err().exit_code(), ExitCode::USR_UNHANDLED_MESSAGE);
    }
    assert_eq!(state.unwrap().total_stake, TokenAmount::zero());
}

#[test]
fn wrong_parameters_are_a_serialization_error() {
    let mut state = Some(new_state(ConsensusType::PoW));
    let r = Actor::invoke_method(
        &mut state,
        &message(100, 1),
        Method::Join.as_u64(),
        MethodParams::Empty,
    );
    assert_eq!(r.unwrap_err().exit_code(), ExitCode::USR_SERIALIZATION);
    let r = Actor::invoke_method(
        &mut state,
        &message(100, 1),
        Method::Leave.as_u64(),
        MethodParams::Join(join_params()),
    );
    assert_eq!(r.unwrap_err().exit_code(), ExitCode::USR_SERIALIZATION);
    let r = Actor::invoke_method(
        &mut state,
        &message(100, 1),
        Method::SubmitCheckpoint.as_u64(),
        MethodParams::Empty,
    );
    assert_eq!(r.unwrap_err().exit_code(), ExitCode::USR_SERIALIZATION);
}

#[test]
fn methods_need_the_constructed_state() {
    let mut state: Option<State> = None;
    let r = Actor::invoke_method(
        &mut state,
        &message(100, 1),
        Method::Join.as_u64(),
        MethodParams::Join(join_params()),
    );
    assert_eq!(r.unwrap_err().exit_code(), ExitCode::USR_ILLEGAL_STATE);
    let r =
        Actor::invoke_method(&mut state, &message(100, 1), Method::Kill.as_u64(), MethodParams::Empty);
    assert_eq!(r.unwrap_err().exit_code(), ExitCode::USR_ILLEGAL_STATE);
    assert!(state.is_none());
}

#[test]
fn method_numbers() {
    assert_eq!(Method::Constructor.as_u64(), 1);
    assert_eq!(Method::Join.as_u64(), 2);
    assert_eq!(Method::Leave.as_u64(), 3);
    assert_eq!(Method::Kill.as_u64(), 4);
    assert_eq!(Method::SubmitCheckpoint.as_u64(), 5);
    assert_eq!(Method::from_u64(1), Some(Method::Constructor));
    assert_eq!(Method::from_u64(2), Some(Method::Join));
    assert_eq!(Method::from_u64(3), Some(Method::Leave));
    assert_eq!(Method::from_u64(4), Some(Method::Kill));
    assert_eq!(Method::from_u64(5), Some(Method::SubmitCheckpoint));
    assert_eq!(Method::from_u64(0), None);
    assert_eq!(Method::from_u64(6), None);
    assert_eq!(METHOD_CONSTRUCTOR, fvm_shared::METHOD_CONSTRUCTOR);
    assert_eq!(METHOD_SEND, fvm_shared::METHOD_SEND);
    assert_eq!(sca::Method::Register.as_u64(), 2);
    assert_eq!(sca::Method::AddStake.as_u64(), 3);
    assert_eq!(sca::Method::ReleaseStake.as_u64(), 4);
    assert_eq!(sca::Method::Kill.as_u64(), 5);
    assert_eq!(sca::Method::CommitChildCheckpoint.as_u64(), 6);
    assert_eq!(sca::SCA_ACTOR_ADDR, 64);
    assert_eq!(account::PUBKEY_ADDRESS_METHOD, 2);
    assert_eq!(LEAVING_COEFF, 1);
}

#[test]
fn ordinals_of_the_enumerations() {
    let kinds = [
        ConsensusType::Delegated,
        ConsensusType::PoW,
        ConsensusType::Tendermint,
        ConsensusType::Mir,
        ConsensusType::FilecoinEC,
        ConsensusType::Dummy,
    ];
    for (i, k) in kinds.iter().enumerate() {
        assert_eq!(k.to_u64(), i as u64);
        assert_eq!(ConsensusType::from_u64(i as u64), Some(*k));
    }
    assert_eq!(ConsensusType::from_u64(6), None);
    let stages = [
        Status::Instantiated,
        Status::Active,
        Status::Inactive,
        Status::Terminating,
        Status::Killed,
    ];
    for (i, s) in stages.iter().enumerate() {
        assert_eq!(s.to_i32(), i as i32);
        assert_eq!(Status::from_i32(i as i32), Some(*s));
    }
    assert_eq!(Status::from_i32(5), None);
    assert_eq!(Status::from_i32(-1), None);
}

#[test]
fn exit_codes_are_those_of_the_host() {
    assert_eq!(ExitCode::OK.value(), fvm_shared::error::ExitCode::OK.value());
    assert_eq!(ExitCode::USR_ILLEGAL_ARGUMENT.value(), fvm_shared::error::ExitCode::USR_ILLEGAL_ARGUMENT.value());
    assert_eq!(ExitCode::USR_FORBIDDEN.value(), fvm_shared::error::ExitCode::USR_FORBIDDEN.value());
    assert_eq!(ExitCode::USR_ILLEGAL_STATE.value(), fvm_shared::error::ExitCode::USR_ILLEGAL_STATE.value());
    assert_eq!(ExitCode::USR_SERIALIZATION.value(), fvm_shared::error::ExitCode::USR_SERIALIZATION.value());
    assert_eq!(ExitCode::USR_UNHANDLED_MESSAGE.value(), fvm_shared::error::ExitCode::USR_UNHANDLED_MESSAGE.value());
    assert_eq!(ExitCode::from_value(18), Some(ExitCode::USR_FORBIDDEN));
    assert_eq!(ExitCode::from_value(20), Some(ExitCode::USR_ILLEGAL_STATE));
    assert_eq!(ExitCode::from_value(17), None);
    let e = ActorError::new(ExitCode::USR_SERIALIZATION, "bad bytes");
    assert_eq!(e.exit_code(), ExitCode::USR_SERIALIZATION);
    assert_eq!(e.msg(), "bad bytes");
    assert_eq!(ActorError::unhandled_message("x").exit_code(), ExitCode::USR_UNHANDLED_MESSAGE);
    assert_eq!(ActorError::serialization("x").exit_code(), ExitCode::USR_SERIALIZATION);
    assert_eq!(ActorError::forbidden("x").exit_code(), ExitCode::USR_FORBIDDEN);
    assert_eq!(ActorError::illegal_state("x").exit_code(), ExitCode::USR_ILLEGAL_STATE);
    assert_eq!(ActorError::illegal_argument("x").exit_code(), ExitCode::USR_ILLEGAL_ARGUMENT);
}

// ---- join

#[test]
fn join_without_value_is_an_illegal_argument_and_changes_nothing() {
    let mut st = new_state(ConsensusType::PoW);
    join(&mut st, 100, 7);
    let r = Actor::join(&mut st, &message(101, 0), join_params());
    assert_eq!(r.unwrap_err().exit_code(), ExitCode::USR_ILLEGAL_ARGUMENT);
    assert_eq!(st.total_stake, atto(7));
    assert_eq!(st.status, Status::Instantiated);
    assert_eq!(st.validator_set.len(), 0);
    assert_eq!(st.get_stake(&Address::new_id(101)).unwrap(), None);
    assert_eq!(st.get_stake(&Address::new_id(100)).unwrap(), Some(atto(7)));

    // a negative value is no collateral either
    let mut msg = message(101, 0);
    msg.value_received = TokenAmount::from_atto(-5);
    let r = Actor::join(&mut st, &msg, join_params());
    assert_eq!(r.unwrap_err().exit_code(), ExitCode::USR_ILLEGAL_ARGUMENT);
    assert_eq!(st.total_stake, atto(7));
}

#[test]
fn join_of_other_than_an_account_is_forbidden() {
    let mut st = new_state(ConsensusType::PoW);
    let mut msg = message(100, MIN_COLLATERAL_AMOUNT);
    msg.caller_is_account = false;
    let r = Actor::join(&mut st, &msg, join_params());
    assert_eq!(r.unwrap_err().exit_code(), ExitCode::USR_FORBIDDEN);
    assert_eq!(st.total_stake, TokenAmount::zero());
    let r = Actor::leave(&mut st, &msg);
    assert_eq!(r.unwrap_err().exit_code(), ExitCode::USR_FORBIDDEN);
    let r = Actor::submit_checkpoint(&mut st, &msg, checkpoint(10, &Cid::default(), 1), true);
    assert_eq!(r.unwrap_err().exit_code(), ExitCode::USR_FORBIDDEN);
}

#[test]
fn join_without_value_is_refused_whoever_calls() {
    let text = "a minimum collateral is required to join the subnet";
    let mut st = new_state(ConsensusType::PoW);
    join(&mut st, 100, 7);

    // the init actor is no account: without value it is the value that is
    // found wanting, not the caller
    let mut msg = message(INIT_ACTOR_ID, 0);
    msg.caller_is_account = false;
    let r = Actor::join(&mut st, &msg, join_params());
    assert_eq!(r.unwrap_err(), ActorError::illegal_argument(text));
    assert_eq!(st.total_stake, atto(7));
    assert_eq!(st.status, Status::Instantiated);
    assert_eq!(st.validator_set.len(), 0);
    assert_eq!(st.get_stake(&Address::new_id(INIT_ACTOR_ID)).unwrap(), None);
    assert_eq!(st.get_stake(&Address::new_id(100)).unwrap(), Some(atto(7)));

    msg.value_received = TokenAmount::from_atto(-1);
    let r = Actor::join(&mut st, &msg, join_params());
    assert_eq!(r.unwrap_err(), ActorError::illegal_argument(text));

    // with value, the same caller is turned away for what it is
    msg.value_received = atto(1);
    let r = Actor::join(&mut st, &msg, join_params());
    assert_eq!(r.unwrap_err(), ActorError::forbidden("caller not account actor type"));
    assert_eq!(st.total_stake, atto(7));
    assert_eq!(st.get_stake(&Address::new_id(INIT_ACTOR_ID)).unwrap(), None);

    // and so through the dispatcher
    let mut state = Some(st);
    msg.value_received = atto(0);
    let r = Actor::invoke_method(&mut state, &msg, 2, MethodParams::Join(join_params()));
    assert_eq!(r.unwrap_err(), ActorError::illegal_argument(text));
    msg.value_received = atto(MIN_COLLATERAL_AMOUNT);
    let r = Actor::invoke_method(&mut state, &msg, 2, MethodParams::Join(join_params()));
    assert_eq!(r.unwrap_err().exit_code(), ExitCode::USR_FORBIDDEN);
    let st = state.unwrap();
    assert_eq!(st.total_stake, atto(7));
    assert_eq!(st.status, Status::Instantiated);
}

#[test]
fn join_below_the_threshold() {
    let mut st = new_state(ConsensusType::Delegated);
    let value = 5u64.pow(18);
    assert_eq!(value, 3_814_697_265_625);
    let sent = join(&mut st, 100, value);
    assert!(sent.is_none());
    assert_eq!(st.status, Status::Instantiated);
    assert!(st.validator_set.is_empty());
    assert_eq!(st.get_stake(&Address::new_id(100)).unwrap(), Some(atto(value)));
    assert_eq!(st.total_stake, atto(value));
}

#[test]
fn join_to_activation_registers_with_all_the_stake() {
    let mut st = new_state(ConsensusType::Delegated);
    let first = 5u64.pow(18);
    join(&mut st, 100, first);
    let sent = join(&mut st, 100, MIN_COLLATERAL_AMOUNT - first).unwrap();
    sent_is(&sent, GATEWAY, 2, SendParams::Empty, MIN_COLLATERAL_AMOUNT);
    assert_eq!(st.status, Status::Active);
    assert_eq!(st.validator_set.len(), 1);
    assert_eq!(st.validator_set[0].addr, Address::new_id(100));
    assert_eq!(st.validator_set[0].net_addr, "/ip4/127.0.0.1/tcp/1347");
    assert_eq!(st.total_stake, atto(MIN_COLLATERAL_AMOUNT));
}

#[test]
fn second_validator_under_delegated_and_other_consensus() {
    for (consensus, validators) in [(ConsensusType::Delegated, 1), (ConsensusType::PoW, 2)] {
        let mut st = new_state(consensus);
        join(&mut st, 100, MIN_COLLATERAL_AMOUNT);
        let sent = join(&mut st, 101, MIN_COLLATERAL_AMOUNT).unwrap();
        sent_is(&sent, GATEWAY, 3, SendParams::Empty, MIN_COLLATERAL_AMOUNT);
        assert_eq!(st.validator_set.len(), validators);
        assert_eq!(st.total_stake, atto(MIN_COLLATERAL_AMOUNT) * 2u64);
        assert_eq!(st.validator_set[0].addr, Address::new_id(100));
    }
}

#[test]
fn a_validator_is_listed_once() {
    let mut st = new_state(ConsensusType::PoW);
    join(&mut st, 100, MIN_COLLATERAL_AMOUNT);
    join(&mut st, 100, 5);
    join(&mut st, 100, MIN_COLLATERAL_AMOUNT);
    assert_eq!(st.validator_set.len(), 1);
    assert_eq!(
        st.get_stake(&Address::new_id(100)).unwrap(),
        Some(atto(MIN_COLLATERAL_AMOUNT) * 2u64 + atto(5))
    );
    assert!(st.is_validator(&Address::new_id(100)));
    assert!(!st.is_validator(&Address::new_id(101)));
}

#[test]
fn a_validator_needs_the_minimum_stake_of_the_subnet() {
    let mut p = params(ConsensusType::PoW);
    p.min_validator_stake = atto(MIN_COLLATERAL_AMOUNT) * 2u64;
    let mut st = State::new(p);
    join(&mut st, 100, MIN_COLLATERAL_AMOUNT);
    assert_eq!(st.status, Status::Active);
    assert_eq!(st.validator_set.len(), 0);
    join(&mut st, 100, MIN_COLLATERAL_AMOUNT - 1);
    assert_eq!(st.validator_set.len(), 0);
    join(&mut st, 100, 1);
    assert_eq!(st.validator_set.len(), 1);
}

#[test]
fn stake_beyond_sixty_four_bits() {
    let mut st = new_state(ConsensusType::PoW);
    for _ in 0..40 {
        join(&mut st, 100, u64::MAX);
    }
    let expected = TokenAmount::from_atto(u64::MAX) * 40u64;
    assert_eq!(st.total_stake, expected);
    assert_eq!(st.get_stake(&Address::new_id(100)).unwrap(), Some(expected.clone()));
    let sent = Actor::leave(&mut st, &message(100, 0)).unwrap();
    assert_eq!(sent[1].value, expected);
    assert_eq!(st.total_stake, TokenAmount::zero());
}

// ---- stake ledger

#[test]
fn add_stake_and_rm_stake() {
    let mut st = new_state(ConsensusType::PoW);
    let a = Address::new_id(100);
    let b = Address::new_id(101);
    st.add_stake(&a, "a", &atto(30)).unwrap();
    st.add_stake(&b, "b", &atto(12)).unwrap();
    st.add_stake(&a, "a", &atto(5)).unwrap();
    assert_eq!(st.get_stake(&a).unwrap(), Some(atto(35)));
    assert_eq!(st.get_stake(&b).unwrap(), Some(atto(12)));
    assert_eq!(st.total_stake, atto(47));

    // more than the address holds: refused, nothing changes
    assert_eq!(st.rm_stake(&a, &atto(36)), Err(StateError::InsufficientStake));
    assert_eq!(st.rm_stake(&Address::new_id(102), &atto(1)), Err(StateError::InsufficientStake));
    assert_eq!(st.get_stake(&a).unwrap(), Some(atto(35)));
    assert_eq!(st.total_stake, atto(47));

    st.rm_stake(&a, &atto(20)).unwrap();
    assert_eq!(st.get_stake(&a).unwrap(), Some(atto(15)));
    assert_eq!(st.get_stake(&b).unwrap(), Some(atto(12)));
    assert_eq!(st.total_stake, atto(27));
    st.rm_stake(&a, &atto(15)).unwrap();
    assert_eq!(st.get_stake(&a).unwrap(), Some(TokenAmount::zero()));
    assert_eq!(st.total_stake, atto(12));
}

#[test]
fn rm_stake_takes_the_validator_out() {
    let mut st = new_state(ConsensusType::PoW);
    join(&mut st, 100, MIN_COLLATERAL_AMOUNT);
    join(&mut st, 101, MIN_COLLATERAL_AMOUNT);
    join(&mut st, 102, MIN_COLLATERAL_AMOUNT);
    st.rm_stake(&Address::new_id(101), &atto(1)).unwrap();
    let left: Vec<u64> = st.validator_set.iter().map(|v| v.addr.id()).collect();
    assert_eq!(left, vec![100, 102]);
    assert_eq!(
        st.get_stake(&Address::new_id(101)).unwrap(),
        Some(atto(MIN_COLLATERAL_AMOUNT - 1))
    );
}

#[test]
fn missing_stake_reads_as_zero() {
    assert_eq!(State::stake_or_zero(None), TokenAmount::zero());
    assert_eq!(State::stake_or_zero(Some(atto(9))), atto(9));
}

#[test]
fn leaving_stake_is_the_quotient_rounded_down() {
    assert_eq!(State::leaving_stake(&atto(10), 1), atto(10));
    assert_eq!(State::leaving_stake(&atto(10), 3), atto(3));
    assert_eq!(State::leaving_stake(&atto(11), 4), atto(2));
    assert_eq!(State::leaving_stake(&atto(3), 4), TokenAmount::zero());
    assert_eq!(State::leaving_stake(&TokenAmount::from_atto(-7), 2), TokenAmount::from_atto(-4));
    assert_eq!(
        State::leaving_stake(&(atto(u64::MAX) * 6u64), 3),
        atto(u64::MAX) * 2u64
    );
}

#[test]
fn credit_and_debit() {
    let mut st = new_state(ConsensusType::Delegated);
    let a = Address::new_id(100);
    st.credit(&a, "a", &atto(10), &atto(MIN_COLLATERAL_AMOUNT - 1));
    assert_eq!(st.total_stake, atto(10));
    assert_eq!(st.validator_set.len(), 0);
    st.credit(&a, "a", &atto(10), &atto(MIN_COLLATERAL_AMOUNT));
    assert_eq!(st.total_stake, atto(20));
    assert_eq!(st.validator_set.len(), 1);
    st.credit(&Address::new_id(101), "b", &atto(1), &atto(MIN_COLLATERAL_AMOUNT));
    assert_eq!(st.validator_set.len(), 1);
    st.debit(&Address::new_id(101), &atto(1));
    assert_eq!(st.validator_set.len(), 1);
    assert_eq!(st.total_stake, atto(20));
    st.debit(&a, &atto(20));
    assert_eq!(st.validator_set.len(), 0);
    assert_eq!(st.total_stake, TokenAmount::zero());
}

// ---- status

#[test]
fn status_follows_the_stake() {
    let mut st = new_state(ConsensusType::PoW);
    st.mutate_state();
    assert_eq!(st.status, Status::Instantiated);
    st.total_stake = atto(MIN_COLLATERAL_AMOUNT - 1);
    st.mutate_state();
    assert_eq!(st.status, Status::Instantiated);
    st.total_stake = atto(MIN_COLLATERAL_AMOUNT);
    st.mutate_state();
    assert_eq!(st.status, Status::Active);
    st.mutate_state();
    assert_eq!(st.status, Status::Active);
    st.total_stake = atto(MIN_COLLATERAL_AMOUNT - 1);
    st.mutate_state();
    assert_eq!(st.status, Status::Inactive);
    st.mutate_state();
    assert_eq!(st.status, Status::Inactive);
    st.total_stake = atto(MIN_COLLATERAL_AMOUNT);
    st.mutate_state();
    assert_eq!(st.status, Status::Active);
    st.status = Status::Terminating;
    st.mutate_state();
    assert_eq!(st.status, Status::Terminating);
    st.total_stake = atto(1);
    st.mutate_state();
    assert_eq!(st.status, Status::Terminating);
    st.total_stake = TokenAmount::zero();
    st.mutate_state();
    assert_eq!(st.status, Status::Killed);
    st.total_stake = atto(MIN_COLLATERAL_AMOUNT);
    st.mutate_state();
    assert_eq!(st.status, Status::Killed);
}

// ---- leave and kill

#[test]
fn join_then_leave_restores_the_subnet() {
    for value in [1u64, 5u64.pow(18), MIN_COLLATERAL_AMOUNT, MIN_COLLATERAL_AMOUNT + 3] {
        let mut st = new_state(ConsensusType::PoW);
        join(&mut st, 100, value);
        Actor::leave(&mut st, &message(100, 0)).unwrap();
        assert_eq!(st.total_stake, TokenAmount::zero());
        assert!(st.validator_set.is_empty());
        assert_eq!(st.get_stake(&Address::new_id(100)).unwrap(), Some(TokenAmount::zero()));
    }
}

#[test]
fn leave_without_stake_is_an_illegal_state() {
    let mut st = new_state(ConsensusType::PoW);
    join(&mut st, 100, MIN_COLLATERAL_AMOUNT);
    let r = Actor::leave(&mut st, &message(101, 0));
    assert_eq!(r.unwrap_err().exit_code(), ExitCode::USR_ILLEGAL_STATE);
    Actor::leave(&mut st, &message(100, 0)).unwrap();
    // the stake is gone: a second leave is refused
    let r = Actor::leave(&mut st, &message(100, 0));
    assert_eq!(r.unwrap_err().exit_code(), ExitCode::USR_ILLEGAL_STATE);
    assert_eq!(st.total_stake, TokenAmount::zero());
}

#[test]
fn leave_and_the_status() {
    let mut st = new_state(ConsensusType::PoW);
    join(&mut st, 100, MIN_COLLATERAL_AMOUNT);
    join(&mut st, 101, MIN_COLLATERAL_AMOUNT);

    let sent = Actor::leave(&mut st, &message(100, 0)).unwrap();
    assert_eq!(sent.len(), 2);
    sent_is(
        &sent[0],
        GATEWAY,
        4,
        SendParams::Fund { value: atto(MIN_COLLATERAL_AMOUNT) },
        0,
    );
    sent_is(&sent[1], 100, 0, SendParams::Empty, MIN_COLLATERAL_AMOUNT);
    assert_eq!(st.get_stake(&Address::new_id(100)).unwrap(), Some(TokenAmount::zero()));
    assert_eq!(st.validator_set.len(), 1);
    assert_eq!(st.validator_set[0].addr, Address::new_id(101));
    assert_eq!(st.status, Status::Active);

    Actor::leave(&mut st, &message(101, 0)).unwrap();
    assert!(st.validator_set.is_empty());
    assert_eq!(st.status, Status::Inactive);
}

#[test]
fn kill_with_validators_is_an_illegal_state() {
    let mut st = new_state(ConsensusType::PoW);
    join(&mut st, 100, MIN_COLLATERAL_AMOUNT);
    let r = Actor::kill(&mut st, &message(100, 0));
    assert_eq!(r.unwrap_err().exit_code(), ExitCode::USR_ILLEGAL_STATE);
    assert_eq!(st.status, Status::Active);
    assert_eq!(st.validator_set.len(), 1);
}

#[test]
fn kill_of_an_empty_subnet() {
    let mut st = new_state(ConsensusType::PoW);
    join(&mut st, 100, MIN_COLLATERAL_AMOUNT);
    Actor::leave(&mut st, &message(100, 0)).unwrap();
    assert_eq!(st.status, Status::Inactive);
    let sent = Actor::kill(&mut st, &message(555, 0)).unwrap();
    sent_is(&sent, GATEWAY, 5, SendParams::Empty, 0);
    assert_eq!(st.status, Status::Killed);
    // a killed subnet is not killed again
    let r = Actor::kill(&mut st, &message(555, 0));
    assert_eq!(r.unwrap_err().exit_code(), ExitCode::USR_ILLEGAL_STATE);
    assert_eq!(st.status, Status::Killed);
}

#[test]
fn kill_with_stake_left_terminates() {
    let mut st = new_state(ConsensusType::PoW);
    join(&mut st, 100, 50);
    join(&mut st, 101, 70);
    Actor::kill(&mut st, &message(100, 0)).unwrap();
    assert_eq!(st.status, Status::Terminating);
    let r = Actor::kill(&mut st, &message(100, 0));
    assert_eq!(r.unwrap_err().exit_code(), ExitCode::USR_ILLEGAL_STATE);

    // a terminating subnet refunds without asking the coordinator
    let sent = Actor::leave(&mut st, &message(100, 0)).unwrap();
    assert_eq!(sent.len(), 1);
    sent_is(&sent[0], 100, 0, SendParams::Empty, 50);
    assert_eq!(st.status, Status::Terminating);
    Actor::leave(&mut st, &message(101, 0)).unwrap();
    assert_eq!(st.status, Status::Killed);
    assert_eq!(st.total_stake, TokenAmount::zero());
    assert!(st.validator_set.is_empty());
}

// ---- checkpoints

#[test]
fn checkpoint_quorum() {
    let mut st = three_validators();
    let ch = checkpoint(10, &Cid::default(), 1);

    // first vote: recorded, nothing committed
    let sent = submit(&mut st, 100, &ch).unwrap();
    assert!(sent.is_none());
    assert_eq!(st.votes_for(&ch.cid).unwrap().validators, vec![Address::new_id(100)]);
    assert_eq!(st.checkpoints.get(10), Ok(None));
    assert_eq!(
        st.window_checks.get(&ch.cid),
        Ok(Some(Votes { validators: vec![Address::new_id(100)] }))
    );

    // second vote: two thirds, the checkpoint is committed
    let sent = submit(&mut st, 101, &ch).unwrap().unwrap();
    sent_is(&sent, GATEWAY, 6, SendParams::Checkpoint(ch.copy()), 0);
    assert_eq!(st.checkpoints.get(10), Ok(Some(ch.copy())));
    assert_eq!(st.checkpoints.get(20), Ok(None));
    assert_eq!(st.window_checks.get(&ch.cid), Ok(None));

    // third vote: the epoch is committed
    let r = submit(&mut st, 102, &ch);
    assert_eq!(r.unwrap_err().exit_code(), ExitCode::USR_ILLEGAL_STATE);
    assert_eq!(st.checkpoints.get(10), Ok(Some(ch.copy())));
    assert_eq!(st.window_checks.get(&ch.cid), Ok(None));
}

#[test]
fn checkpoint_from_a_non_validator_is_rejected() {
    let mut st = three_validators();
    join(&mut st, 103, 5);
    let ch = checkpoint(10, &Cid::default(), 1);
    for caller in [103u64, 104] {
        let r = submit(&mut st, caller, &ch);
        assert_eq!(r.unwrap_err().exit_code(), ExitCode::USR_ILLEGAL_STATE);
    }
    assert_eq!(st.window_checks.get(&ch.cid), Ok(None));
    assert_eq!(
        st.verify_checkpoint(&ch, &Address::new_id(103), &Address::new_id(SELF_ID), true),
        Err(StateError::InvalidCheckpoint)
    );
    assert_eq!(
        st.verify_checkpoint(&ch, &Address::new_id(100), &Address::new_id(SELF_ID), true),
        Ok(())
    );
}

#[test]
fn duplicate_vote_is_rejected_and_changes_nothing() {
    let mut st = three_validators();
    let ch = checkpoint(10, &Cid::default(), 1);
    submit(&mut st, 100, &ch).unwrap();
    let r = submit(&mut st, 100, &ch);
    assert_eq!(r.unwrap_err().exit_code(), ExitCode::USR_ILLEGAL_STATE);
    assert_eq!(st.votes_for(&ch.cid).unwrap().validators, vec![Address::new_id(100)]);
    assert_eq!(st.checkpoints.get(10), Ok(None));
}

#[test]
fn checkpoint_verification() {
    let mut st = three_validators();
    let me = Address::new_id(SELF_ID);
    let v = Address::new_id(100);
    let good = checkpoint(10, &Cid::default(), 1);
    assert_eq!(st.verify_checkpoint(&good, &v, &me, true), Ok(()));

    // the signature does not hold
    assert_eq!(st.verify_checkpoint(&good, &v, &me, false), Err(StateError::InvalidCheckpoint));
    // the epoch is no multiple of the period
    for epoch in [11i64, 9, 1, -3] {
        let ch = checkpoint(epoch, &Cid::default(), 1);
        assert_eq!(st.verify_checkpoint(&ch, &v, &me, true), Err(StateError::InvalidCheckpoint));
    }
    // another subnet
    let mut ch = checkpoint(10, &Cid::default(), 1);
    ch.source = SubnetID::new(&SubnetID::default(), Address::new_id(SELF_ID + 1));
    assert_eq!(st.verify_checkpoint(&ch, &v, &me, true), Err(StateError::InvalidCheckpoint));
    assert_eq!(
        st.verify_checkpoint(&good, &v, &Address::new_id(1), true),
        Err(StateError::InvalidCheckpoint)
    );
    ch.source = SubnetID::default();
    assert_eq!(st.verify_checkpoint(&ch, &v, &me, true), Err(StateError::InvalidCheckpoint));
    // a previous checkpoint that was never committed
    let ch = checkpoint(10, &Cid::new(vec![1, 2, 3]), 1);
    assert_eq!(st.verify_checkpoint(&ch, &v, &me, true), Err(StateError::InvalidCheckpoint));
    // a subnet that is not active
    st.status = Status::Inactive;
    assert_eq!(st.verify_checkpoint(&good, &v, &me, true), Err(StateError::InvalidCheckpoint));
    st.status = Status::Active;
    // a period that is not positive
    st.check_period = 0;
    assert_eq!(st.verify_checkpoint(&good, &v, &me, true), Err(StateError::InvalidCheckpoint));
}

#[test]
fn checkpoints_chain_by_their_content_address() {
    let mut st = three_validators();
    let first = checkpoint(10, &Cid::default(), 1);
    submit(&mut st, 100, &first).unwrap();
    submit(&mut st, 101, &first).unwrap();
    assert_eq!(st.prev_checkpoint_cid(10), Ok(Cid::default()));
    assert_eq!(st.prev_checkpoint_cid(20), Ok(first.cid.copy()));
    assert_eq!(st.prev_checkpoint_cid(40), Ok(first.cid.copy()));
    assert_eq!(st.prev_checkpoint_cid(19), Ok(Cid::default()));
    assert_eq!(st.prev_checkpoint_cid(0), Ok(Cid::default()));
    assert_eq!(st.prev_checkpoint_cid(-10), Ok(Cid::default()));
    assert_eq!(st.prev_checkpoint_cid(i64::MIN), Ok(Cid::default()));

    // the next checkpoint has to name the first one
    let wrong = checkpoint(20, &Cid::default(), 2);
    let r = submit(&mut st, 100, &wrong);
    assert_eq!(r.unwrap_err().exit_code(), ExitCode::USR_ILLEGAL_STATE);
    // an epoch may be skipped
    let third = checkpoint(30, &first.cid, 3);
    assert!(submit(&mut st, 100, &third).unwrap().is_none());
    assert!(submit(&mut st, 102, &third).unwrap().is_some());
    assert_eq!(st.prev_checkpoint_cid(40), Ok(third.cid.copy()));
    assert_eq!(st.prev_checkpoint_cid(30), Ok(first.cid.copy()));
    // and is then committed after the later one, naming the one before it
    let second = checkpoint(20, &first.cid, 2);
    submit(&mut st, 100, &second).unwrap();
    submit(&mut st, 101, &second).unwrap();
    assert_eq!(st.checkpoints.get(10), Ok(Some(first.copy())));
    assert_eq!(st.checkpoints.get(20), Ok(Some(second.copy())));
    assert_eq!(st.checkpoints.get(30), Ok(Some(third.copy())));
    assert_eq!(st.prev_checkpoint_cid(30), Ok(second.cid.copy()));
}

#[test]
fn competing_checkpoints_of_an_epoch() {
    let mut st = three_validators();
    let one = checkpoint(10, &Cid::default(), 1);
    let two = checkpoint(10, &Cid::default(), 2);
    submit(&mut st, 100, &one).unwrap();
    submit(&mut st, 101, &two).unwrap();
    assert_eq!(st.votes_for(&one.cid).unwrap().validators, vec![Address::new_id(100)]);
    assert_eq!(st.votes_for(&two.cid).unwrap().validators, vec![Address::new_id(101)]);
    assert!(submit(&mut st, 102, &two).unwrap().is_some());
    assert_eq!(st.checkpoints.get(10), Ok(Some(two.copy())));
    assert_eq!(st.window_checks.get(&two.cid), Ok(None));
    assert_eq!(st.votes_for(&one.cid).unwrap().validators, vec![Address::new_id(100)]);
}

#[test]
fn majority_is_two_thirds_of_the_stake() {
    let mut st = new_state(ConsensusType::PoW);
    let a = Address::new_id(100);
    let b = Address::new_id(101);
    let c = Address::new_id(102);
    st.add_stake(&a, "a", &atto(2)).unwrap();
    st.add_stake(&b, "b", &atto(1)).unwrap();
    let votes = |list: &[Address]| Votes { validators: list.to_vec() };
    // 2 of 3
    assert_eq!(st.has_majority_vote(&votes(&[a])), Ok(true));
    // 1 of 3
    assert_eq!(st.has_majority_vote(&votes(&[b])), Ok(false));
    assert_eq!(st.has_majority_vote(&votes(&[])), Ok(false));
    assert_eq!(st.has_majority_vote(&votes(&[c])), Ok(false));
    assert_eq!(st.has_majority_vote(&votes(&[a, b])), Ok(true));
    // 200 of 301 is less than two thirds, 201 of 301 is more
    st.add_stake(&a, "a", &atto(198)).unwrap();
    st.add_stake(&b, "b", &atto(100)).unwrap();
    assert_eq!(st.total_stake, atto(301));
    assert_eq!(st.has_majority_vote(&votes(&[a])), Ok(false));
    st.add_stake(&a, "a", &atto(1)).unwrap();
    st.rm_stake(&b, &atto(1)).unwrap();
    assert_eq!(st.total_stake, atto(301));
    assert_eq!(st.has_majority_vote(&votes(&[a])), Ok(true));
    // without stake everybody has the majority
    let empty = new_state(ConsensusType::PoW);
    assert_eq!(empty.has_majority_vote(&votes(&[])), Ok(true));
}

#[test]
fn single_validator_commits_at_once() {
    let mut st = new_state(ConsensusType::Delegated);
    join(&mut st, 100, MIN_COLLATERAL_AMOUNT);
    let ch = checkpoint(0, &Cid::default(), 1);
    let sent = submit(&mut st, 100, &ch).unwrap().unwrap();
    sent_is(&sent, GATEWAY, 6, SendParams::Checkpoint(ch.copy()), 0);
    assert_eq!(st.checkpoints.get(0), Ok(Some(ch.copy())));
    assert_eq!(st.checkpoints.get(10), Ok(None));
    assert_eq!(st.window_checks.get(&ch.cid), Ok(None));
    assert_eq!(st.prev_checkpoint_cid(10), Ok(ch.cid.copy()));
}

#[test]
fn apply_vote_and_flush_checkpoint() {
    let mut st = new_state(ConsensusType::PoW);
    let ch = checkpoint(10, &Cid::default(), 1);
    let votes = Votes { validators: vec![Address::new_id(100)] };
    assert_eq!(st.apply_vote(&ch, votes.copy(), false), Ok(()));
    assert_eq!(st.votes_for(&ch.cid), Ok(votes.copy()));
    assert_eq!(st.window_checks.get(&ch.cid), Ok(Some(votes.copy())));
    assert_eq!(st.checkpoints.get(10), Ok(None));
    assert_eq!(st.apply_vote(&ch, votes, true), Ok(()));
    assert_eq!(st.votes_for(&ch.cid), Ok(Votes::new()));
    assert_eq!(st.window_checks.get(&ch.cid), Ok(None));
    assert_eq!(st.checkpoints.get(10), Ok(Some(ch.copy())));
    let other = checkpoint(10, &Cid::default(), 2);
    assert_eq!(st.flush_checkpoint(&other), Ok(()));
    assert_eq!(st.checkpoints.get(10), Ok(Some(other.copy())));
    // a majority without a row of votes commits as well
    let late = checkpoint(20, &other.cid, 3);
    assert_eq!(st.apply_vote(&late, Votes::new(), true), Ok(()));
    assert_eq!(st.checkpoints.get(20), Ok(Some(late)));
    assert_eq!(st.checkpoints.get(10), Ok(Some(other)));
}

#[test]
fn multiples_of_a_period() {
    assert!(is_multiple(0, 10));
    assert!(is_multiple(10, 10));
    assert!(is_multiple(-10, 10));
    assert!(is_multiple(-20, 10));
    assert!(!is_multiple(-11, 10));
    assert!(!is_multiple(-1, 10));
    assert!(!is_multiple(15, 10));
    assert!(is_multiple(i64::MIN, 2));
    assert!(!is_multiple(i64::MIN, 10));
    assert!(is_multiple(i64::MIN, 1));
    assert!(!is_multiple(i64::MAX, 2));
    assert!(is_multiple(i64::MAX, i64::MAX));
    assert!(!is_multiple(i64::MIN, i64::MAX));
}

// ---- tables and values

#[test]
fn table_of_checkpoints() {
    let mut t = Checkpoints::new();
    assert_eq!(t.get(10), Ok(None));
    let a = checkpoint(10, &Cid::default(), 1);
    let b = checkpoint(20, &a.cid, 2);
    assert_eq!(t.insert(a.copy()), Ok(()));
    assert_eq!(t.insert(b.copy()), Ok(()));
    assert_eq!(t.get(10), Ok(Some(a.copy())));
    assert_eq!(t.get(20), Ok(Some(b.copy())));
    assert_eq!(t.get(30), Ok(None));
    assert_eq!(t.get(-10), Ok(None));
    let c = checkpoint(10, &Cid::default(), 3);
    assert_eq!(t.insert(c.copy()), Ok(()));
    assert_eq!(t.get(10), Ok(Some(c)));
    assert_eq!(t.get(20), Ok(Some(b)));
    // every field of a checkpoint comes back as it went in
    let full = Checkpoint {
        source: SubnetID::new(&SubnetID::new(&SubnetID::default(), Address::new_id(7)), Address::new_id(8)),
        epoch: -30,
        prev_check: Cid::new(vec![1, 2]),
        payload: vec![3, 4, 5],
        cid: Cid::new(vec![6]),
        signature: vec![7, 8, 9, 10],
    };
    assert_eq!(t.insert(full.copy()), Ok(()));
    assert_eq!(t.get(-30), Ok(Some(full)));
    // many entries, so that the table grows beyond one node
    for e in 100i64..400 {
        assert_eq!(t.insert(checkpoint(e, &Cid::default(), 1)), Ok(()));
    }
    for e in 100i64..400 {
        assert_eq!(t.get(e), Ok(Some(checkpoint(e, &Cid::default(), 1))));
    }
    assert_eq!(t.get(400), Ok(None));
}

#[test]
fn table_of_votes() {
    let mut t = WindowChecks::new();
    let one = Cid::new(vec![1]);
    let two = Cid::new(vec![2]);
    let three = Cid::new(vec![3]);
    let votes = |ids: &[u64]| Votes { validators: ids.iter().map(|i| Address::new_id(*i)).collect() };
    assert_eq!(t.get(&one), Ok(None));
    assert_eq!(t.set(&one, votes(&[1])), Ok(()));
    assert_eq!(t.set(&two, votes(&[2, 3])), Ok(()));
    assert_eq!(t.set(&three, votes(&[4])), Ok(()));
    assert_eq!(t.get(&two), Ok(Some(votes(&[2, 3]))));
    assert_eq!(t.set(&two, votes(&[3, 2, 5])), Ok(()));
    assert_eq!(t.get(&two), Ok(Some(votes(&[3, 2, 5]))));
    assert_eq!(t.delete(&one), Ok(()));
    assert_eq!(t.get(&one), Ok(None));
    assert_eq!(t.get(&two), Ok(Some(votes(&[3, 2, 5]))));
    assert_eq!(t.get(&three), Ok(Some(votes(&[4]))));
    // taking out what is not there changes nothing
    assert_eq!(t.delete(&one), Ok(()));
    assert_eq!(t.delete(&Cid::default()), Ok(()));
    assert_eq!(t.get(&two), Ok(Some(votes(&[3, 2, 5]))));
    assert_eq!(t.get(&three), Ok(Some(votes(&[4]))));
    // many rows, so that the table grows beyond one node
    for i in 0u8..200 {
        assert_eq!(t.set(&Cid::new(vec![9, i]), votes(&[i as u64])), Ok(()));
    }
    for i in 0u8..200 {
        assert_eq!(t.get(&Cid::new(vec![9, i])), Ok(Some(votes(&[i as u64]))));
    }
    for i in 0u8..200 {
        assert_eq!(t.delete(&Cid::new(vec![9, i])), Ok(()));
    }
    for i in 0u8..200 {
        assert_eq!(t.get(&Cid::new(vec![9, i])), Ok(None));
    }
    assert_eq!(t.get(&three), Ok(Some(votes(&[4]))));
}

#[test]
fn empty_content_address_is_that_of_the_host() {
    assert_eq!(Cid::default().to_bytes(), cid::Cid::default().to_bytes());
    assert_eq!(Cid::default().bytes, vec![1, 0, 0, 0]);
    let c = Cid::new(vec![1, 2, 3]);
    assert!(c.same(&c.copy()));
    assert!(!c.same(&Cid::default()));
    assert!(!c.same(&Cid::new(vec![1, 2])));
    assert!(!c.same(&Cid::new(vec![1, 2, 4])));
    assert!(bytes_equal(&vec![], &vec![]));
    assert!(!bytes_equal(&vec![0], &vec![]));
    assert_eq!(copy_bytes(&vec![9, 8, 7]), vec![9, 8, 7]);
}

#[test]
fn join_parameters_survive_their_encoding() {
    let text = "/ip4/127.0.0.1/tcp/1347".to_string();
    let bytes = fvm_ipld_encoding::to_vec(&(text.clone(),)).unwrap();
    let (back,): (String,) = fvm_ipld_encoding::from_slice(&bytes).unwrap();
    assert_eq!(back, text);
    assert_ne!(bytes, text.as_bytes().to_vec());

    let mut state = Some(new_state(ConsensusType::PoW));
    let params = MethodParams::Join(JoinParams { validator_net_addr: back });
    let sent =
        Actor::invoke_method(&mut state, &message(100, MIN_COLLATERAL_AMOUNT), 2, params).unwrap();
    assert_eq!(sent.len(), 1);
    let st = state.unwrap();
    assert_eq!(st.validator_set.len(), 1);
    assert_eq!(st.validator_set[0].addr, Address::new_id(100));
    assert_eq!(st.validator_set[0].net_addr, text);
}

#[test]
fn checkpoint_survives_its_encoding() {
    let ch = checkpoint(10, &Cid::default(), 1);
    let route: Vec<u64> = ch.source.route.iter().map(|a| a.id()).collect();
    let fields = (
        route,
        ch.epoch,
        ch.prev_check.to_bytes(),
        ch.payload.clone(),
        ch.cid.to_bytes(),
        ch.signature.clone(),
    );
    let bytes = fvm_ipld_encoding::to_vec(&fields).unwrap();
    let back: (Vec<u64>, i64, Vec<u8>, Vec<u8>, Vec<u8>, Vec<u8>) =
        fvm_ipld_encoding::from_slice(&bytes).unwrap();
    assert_eq!(back, fields);
    let decoded = Checkpoint {
        source: SubnetID { route: back.0.iter().map(|id| Address::new_id(*id)).collect() },
        epoch: back.1,
        prev_check: Cid::new(back.2),
        payload: back.3,
        cid: Cid::new(back.4),
        signature: back.5,
    };
    assert_eq!(decoded, ch);

    // the decoded checkpoint is voted for and committed as the first was
    let mut state = Some(three_validators());
    let vote = |state: &mut Option<State>, caller: u64, ch: &Checkpoint| {
        let params = MethodParams::SubmitCheckpoint { checkpoint: ch.copy(), signature_valid: true };
        Actor::invoke_method(state, &message(caller, 0), 5, params)
    };
    assert!(vote(&mut state, 100, &ch).unwrap().is_empty());
    let sent = vote(&mut state, 101, &decoded).unwrap();
    assert_eq!(sent.len(), 1);
    sent_is(&sent[0], GATEWAY, 6, SendParams::Checkpoint(ch.copy()), 0);
    assert_eq!(state.unwrap().checkpoints.get(10), Ok(Some(ch)));
}

#[test]
fn subnet_identifiers() {
    let root = SubnetID::default();
    assert!(root.route.is_empty());
    let child = SubnetID::new(&root, Address::new_id(5));
    let grandchild = SubnetID::new(&child, Address::new_id(6));
    assert_eq!(child.route, vec![Address::new_id(5)]);
    assert_eq!(grandchild.route, vec![Address::new_id(5), Address::new_id(6)]);
    assert!(child.same(&child.copy()));
    assert!(!child.same(&root));
    assert!(!child.same(&grandchild));
    assert!(!child.same(&SubnetID::new(&root, Address::new_id(6))));
    assert_eq!(Address::new_id(7).id(), 7);
}

#[test]
fn votes_and_messages() {
    let mut votes = Votes::new();
    assert!(!votes.contains(&Address::new_id(1)));
    votes.push(Address::new_id(1));
    votes.push(Address::new_id(2));
    assert!(votes.contains(&Address::new_id(2)));
    assert!(!votes.contains(&Address::new_id(3)));
    assert_eq!(votes.copy(), votes);

    let p = CrossActorPayload::new(Address::new_id(1), 4, SendParams::Fund { value: atto(9) }, atto(3));
    assert_eq!(p.to, Address::new_id(1));
    assert_eq!(p.method, 4);
    assert_eq!(p.value, atto(3));
    let same = |params: SendParams, value: u64, to: u64, method: u64| {
        ExpectedSend { to: Address::new_id(to), method, params, value: atto(value) }.matches(&p)
    };
    assert!(same(SendParams::Fund { value: atto(9) }, 3, 1, 4));
    assert!(!same(SendParams::Fund { value: atto(8) }, 3, 1, 4));
    assert!(!same(SendParams::Empty, 3, 1, 4));
    assert!(!same(SendParams::Fund { value: atto(9) }, 2, 1, 4));
    assert!(!same(SendParams::Fund { value: atto(9) }, 3, 2, 4));
    assert!(!same(SendParams::Fund { value: atto(9) }, 3, 1, 5));
    let a = checkpoint(10, &Cid::default(), 1);
    assert!(SendParams::Checkpoint(a.copy()).same(&SendParams::Checkpoint(a.copy())));
    assert!(!SendParams::Checkpoint(a.copy())
        .same(&SendParams::Checkpoint(checkpoint(10, &Cid::default(), 2))));
    let mut b = a.copy();
    b.signature = vec![];
    assert!(!a.same(&b));
    assert_eq!(a.epoch(), 10);
    assert_eq!(a.cid(), a.cid);
}

#[test]
fn join_and_leave_messages() {
    let mut st = new_state(ConsensusType::PoW);
    st.total_stake = atto(MIN_COLLATERAL_AMOUNT - 1);
    assert!(Actor::join_message(&st, &atto(5)).is_none());
    st.total_stake = atto(MIN_COLLATERAL_AMOUNT);
    sent_is(
        &Actor::join_message(&st, &atto(5)).unwrap(),
        GATEWAY,
        2,
        SendParams::Empty,
        MIN_COLLATERAL_AMOUNT,
    );
    for status in [Status::Active, Status::Inactive, Status::Terminating, Status::Killed] {
        st.status = status;
        sent_is(&Actor::join_message(&st, &atto(5)).unwrap(), GATEWAY, 3, SendParams::Empty, 5);
    }
    let mut st = new_state(ConsensusType::PoW);
    join(&mut st, 100, 8);
    let sent = Actor::leave_messages(&st, &Address::new_id(100), &atto(8));
    assert_eq!(sent.len(), 2);
    sent_is(&sent[0], GATEWAY, 4, SendParams::Fund { value: atto(8) }, 0);
    sent_is(&sent[1], 100, 0, SendParams::Empty, 8);
}

// ---- when a call succeeds, and with which error it fails

#[test]
fn kill_through_the_dispatcher() {
    // a subnet that all have left is killed at once
    let mut state = Some(new_state(ConsensusType::PoW));
    for id in [10u64, 20, 30] {
        let msg = message(id, MIN_COLLATERAL_AMOUNT);
        Actor::invoke_method(&mut state, &msg, 2, MethodParams::Join(join_params())).unwrap();
    }
    for id in [10u64, 20, 30] {
        Actor::invoke_method(&mut state, &message(id, 0), 3, MethodParams::Empty).unwrap();
    }
    assert_eq!(state.as_ref().unwrap().status, Status::Inactive);
    let sent = Actor::invoke_method(&mut state, &message(77, 0), 4, MethodParams::Empty).unwrap();
    assert_eq!(sent.len(), 1);
    sent_is(&sent[0], GATEWAY, 5, SendParams::Empty, 0);
    let st = state.unwrap();
    assert_eq!(st.total_stake, TokenAmount::zero());
    assert_eq!(st.status, Status::Killed);

    // and so is a subnet that nobody has joined
    let mut state = Some(State::default());
    Actor::invoke_method(&mut state, &message(77, 0), 4, MethodParams::Empty).unwrap();
    assert_eq!(state.unwrap().status, Status::Killed);
}

#[test]
fn calls_succeed_where_they_are_not_refused() {
    let init = message(INIT_ACTOR_ID, 0);
    let mut state: Option<State> = None;
    let sent = Actor::invoke_method(
        &mut state,
        &init,
        1,
        MethodParams::Constructor(params(ConsensusType::PoW)),
    )
    .unwrap();
    assert!(sent.is_empty());
    assert!(state.is_some());
    let st = state.as_mut().unwrap();
    assert_eq!(st.add_stake(&Address::new_id(100), "a", &atto(4)), Ok(()));
    assert_eq!(st.get_stake(&Address::new_id(100)), Ok(Some(atto(4))));
    assert_eq!(st.get_stake(&Address::new_id(101)), Ok(None));
    assert_eq!(st.rm_stake(&Address::new_id(100), &atto(4)), Ok(()));
    assert_eq!(st.has_majority_vote(&Votes::new()), Ok(true));
    assert_eq!(
        st.has_majority_vote(&Votes { validators: vec![Address::new_id(100), Address::new_id(5)] }),
        Ok(true)
    );
    assert_eq!(st.stake.set(&Address::new_id(7), atto(1)), Ok(()));
    assert_eq!(st.stake.get(&Address::new_id(7)), Ok(Some(atto(1))));
    // many entries, so that the table grows beyond one node
    for id in 1000u64..1400 {
        assert_eq!(st.stake.set(&Address::new_id(id), atto(id)), Ok(()));
    }
    for id in 1000u64..1400 {
        assert_eq!(st.stake.get(&Address::new_id(id)), Ok(Some(atto(id))));
    }
    assert_eq!(st.stake.get(&Address::new_id(1400)), Ok(None));
}

#[test]
fn refusals_carry_their_messages() {
    let text = |r: Result<Vec<CrossActorPayload>, ActorError>| {
        let e = r.unwrap_err();
        (e.exit_code(), e.msg().to_string())
    };
    let forbidden = ExitCode::USR_FORBIDDEN;
    let illegal = ExitCode::USR_ILLEGAL_STATE;
    let mut outsider = message(100, 5);
    outsider.caller_is_account = false;

    let mut state: Option<State> = None;
    assert_eq!(
        text(Actor::invoke_method(&mut state, &message(100, 0), 9, MethodParams::Empty)),
        (ExitCode::USR_UNHANDLED_MESSAGE, "Invalid method".to_string())
    );
    assert_eq!(
        text(Actor::invoke_method(&mut state, &message(100, 0), 2, MethodParams::Empty)),
        (ExitCode::USR_SERIALIZATION, "the parameters are not those of the method".to_string())
    );
    assert_eq!(
        text(Actor::invoke_method(&mut state, &message(100, 0), 3, MethodParams::Empty)),
        (illegal, "the actor is not constructed".to_string())
    );
    assert_eq!(
        text(Actor::invoke_method(
            &mut state,
            &message(100, 0),
            1,
            MethodParams::Constructor(params(ConsensusType::PoW)),
        )),
        (forbidden, "caller is not the init actor".to_string())
    );
    state = Some(new_state(ConsensusType::PoW));
    assert_eq!(
        text(Actor::invoke_method(
            &mut state,
            &message(INIT_ACTOR_ID, 0),
            1,
            MethodParams::Constructor(params(ConsensusType::PoW)),
        )),
        (illegal, "the actor is constructed already".to_string())
    );
    let join = |state: &mut Option<State>, msg: &Message| {
        Actor::invoke_method(state, msg, 2, MethodParams::Join(join_params()))
    };
    assert_eq!(
        text(join(&mut state, &outsider)),
        (forbidden, "caller not account actor type".to_string())
    );
    assert_eq!(
        text(join(&mut state, &message(100, 0))),
        (
            ExitCode::USR_ILLEGAL_ARGUMENT,
            "a minimum collateral is required to join the subnet".to_string()
        )
    );
    let mut empty_handed = message(100, 0);
    empty_handed.caller_is_account = false;
    assert_eq!(
        text(join(&mut state, &empty_handed)),
        (
            ExitCode::USR_ILLEGAL_ARGUMENT,
            "a minimum collateral is required to join the subnet".to_string()
        )
    );
    assert_eq!(
        text(Actor::invoke_method(&mut state, &outsider, 3, MethodParams::Empty)),
        (forbidden, "caller not account actor type".to_string())
    );
    assert_eq!(
        text(Actor::invoke_method(&mut state, &message(100, 0), 3, MethodParams::Empty)),
        (illegal, "caller has no stake in subnet".to_string())
    );
    join(&mut state, &message(100, MIN_COLLATERAL_AMOUNT)).unwrap();
    assert_eq!(
        text(Actor::invoke_method(&mut state, &message(100, 0), 4, MethodParams::Empty)),
        (illegal, "this subnet can only be killed when all validators have left".to_string())
    );
    let submit = |state: &mut Option<State>, msg: &Message, ch: &Checkpoint| {
        let params = MethodParams::SubmitCheckpoint { checkpoint: ch.copy(), signature_valid: true };
        Actor::invoke_method(state, msg, 5, params)
    };
    let ch = checkpoint(10, &Cid::default(), 1);
    assert_eq!(
        text(submit(&mut state, &outsider, &ch)),
        (forbidden, "caller not account actor type".to_string())
    );
    assert_eq!(
        text(submit(&mut state, &message(101, 0), &ch)),
        (illegal, "checkpoint does not pass verification".to_string())
    );
    join(&mut state, &message(101, MIN_COLLATERAL_AMOUNT)).unwrap();
    submit(&mut state, &message(100, 0), &ch).unwrap();
    assert_eq!(
        text(submit(&mut state, &message(100, 0), &ch)),
        (illegal, "miner has already voted the checkpoint".to_string())
    );
    Actor::invoke_method(&mut state, &message(100, 0), 3, MethodParams::Empty).unwrap();
    Actor::invoke_method(&mut state, &message(101, 0), 3, MethodParams::Empty).unwrap();
    Actor::invoke_method(&mut state, &message(1, 0), 4, MethodParams::Empty).unwrap();
    assert_eq!(
        text(Actor::invoke_method(&mut state, &message(1, 0), 4, MethodParams::Empty)),
        (illegal, "the subnet is already in a killed or terminating state".to_string())
    );
}

#[test]
fn a_call_touches_the_stake_of_its_caller_at_most() {
    let msg = message(100, 5);
    assert_eq!(Actor::touched_stakes(2, &msg), vec![Address::new_id(100)]);
    assert_eq!(Actor::touched_stakes(3, &msg), vec![Address::new_id(100)]);
    for method in [0u64, 1, 4, 5, 6] {
        assert!(Actor::touched_stakes(method, &msg).is_empty());
    }
    let mut state = Some(new_state(ConsensusType::PoW));
    let join = MethodParams::Join(join_params());
    Actor::invoke_method(&mut state, &message(101, 9), 2, join.clone()).unwrap();
    Actor::invoke_method(&mut state, &msg, 2, join).unwrap();
    let st = state.as_ref().unwrap();
    assert_eq!(st.get_stake(&Address::new_id(101)), Ok(Some(atto(9))));
    assert_eq!(st.get_stake(&Address::new_id(100)), Ok(Some(atto(5))));
    Actor::invoke_method(&mut state, &msg, 3, MethodParams::Empty).unwrap();
    let st = state.as_ref().unwrap();
    assert_eq!(st.get_stake(&Address::new_id(101)), Ok(Some(atto(9))));
    assert_eq!(st.get_stake(&Address::new_id(100)), Ok(Some(TokenAmount::zero())));
}

#[test]
fn a_call_touches_the_entries_of_its_checkpoint_at_most() {
    let ch = checkpoint(20, &Cid::default(), 4);
    let vote = MethodParams::SubmitCheckpoint { checkpoint: ch.copy(), signature_valid: false };
    assert_eq!(Actor::touched_checkpoint(5, &vote), Some((20, ch.cid.copy())));
    for method in [0u64, 1, 2, 3, 4, 6] {
        assert_eq!(Actor::touched_checkpoint(method, &vote), None);
    }
    assert_eq!(Actor::touched_checkpoint(5, &MethodParams::Empty), None);
    assert_eq!(Actor::touched_checkpoint(5, &MethodParams::Join(join_params())), None);

    // a vote for one checkpoint leaves the entries of the others
    let mut state = Some(three_validators());
    let one = checkpoint(10, &Cid::default(), 1);
    let two = checkpoint(10, &Cid::default(), 2);
    let submit = |state: &mut Option<State>, caller: u64, ch: &Checkpoint| {
        let params = MethodParams::SubmitCheckpoint { checkpoint: ch.copy(), signature_valid: true };
        Actor::invoke_method(state, &message(caller, 0), 5, params).unwrap()
    };
    submit(&mut state, 100, &one);
    submit(&mut state, 101, &two);
    let st = state.as_ref().unwrap();
    assert_eq!(st.votes_for(&one.cid).unwrap().validators, vec![Address::new_id(100)]);
    assert_eq!(st.votes_for(&two.cid).unwrap().validators, vec![Address::new_id(101)]);
    submit(&mut state, 102, &one);
    let st = state.as_ref().unwrap();
    assert_eq!(st.checkpoints.get(10), Ok(Some(one.copy())));
    assert_eq!(st.window_checks.get(&one.cid), Ok(None));
    assert_eq!(st.votes_for(&two.cid).unwrap().validators, vec![Address::new_id(101)]);
    // a join and a leave leave both tables
    Actor::invoke_method(&mut state, &message(103, 9), 2, MethodParams::Join(join_params()))
        .unwrap();
    Actor::invoke_method(&mut state, &message(103, 0), 3, MethodParams::Empty).unwrap();
    let st = state.as_ref().unwrap();
    assert_eq!(st.checkpoints.get(10), Ok(Some(one)));
    assert_eq!(st.votes_for(&two.cid).unwrap().validators, vec![Address::new_id(101)]);
}

#[test]
fn staked_addresses_are_validators_unless_delegated() {
    let mut st = new_state(ConsensusType::PoW);
    let staked_are_validators = |st: &State, known: &[u64]| {
        known.iter().all(|id| {
            let a = Address::new_id(*id);
            let stake = st.get_stake(&a).unwrap().unwrap_or_default();
            stake < st.min_validator_stake || st.is_validator(&a)
        })
    };
    let known = [100u64, 101, 102];
    join(&mut st, 100, MIN_COLLATERAL_AMOUNT);
    join(&mut st, 101, 7);
    join(&mut st, 102, MIN_COLLATERAL_AMOUNT + 1);
    assert!(staked_are_validators(&st, &known));
    join(&mut st, 101, MIN_COLLATERAL_AMOUNT);
    assert!(staked_are_validators(&st, &known));
    Actor::leave(&mut st, &message(100, 0)).unwrap();
    assert!(staked_are_validators(&st, &known));
    assert_eq!(st.validator_set.len(), 2);
    // taking part of a stake takes the validator out, whatever is left
    st.rm_stake(&Address::new_id(102), &atto(1)).unwrap();
    assert!(!staked_are_validators(&st, &known));
}

// ---- what holds after every call

fn assert_valid(st: &State, known: &[u64], cids: &[Cid]) {
    // the total is the sum of the stakes
    let mut sum = TokenAmount::zero();
    for id in known {
        let stake = st.get_stake(&Address::new_id(*id)).unwrap().unwrap_or_default();
        assert!(stake >= TokenAmount::zero());
        sum += stake;
    }
    assert_eq!(sum, st.total_stake);
    // validators hold the minimum, once each, one at most when delegated
    assert!(st.min_validator_stake >= atto(MIN_COLLATERAL_AMOUNT));
    for (i, v) in st.validator_set.iter().enumerate() {
        assert!(st.get_stake(&v.addr).unwrap().unwrap() >= st.min_validator_stake);
        assert!(st.validator_set[..i].iter().all(|w| w.addr != v.addr));
    }
    if st.consensus == ConsensusType::Delegated {
        assert!(st.validator_set.len() <= 1);
    }
    // a killed subnet is empty
    if st.status == Status::Killed {
        assert_eq!(st.total_stake, TokenAmount::zero());
        assert!(st.validator_set.is_empty());
    }
    // checkpoints stand at multiples of the period, under their own epoch
    assert!(st.check_period >= DEFAULT_CHECKPOINT_PERIOD);
    for epoch in -5i64..45 {
        if let Some(ch) = st.checkpoints.get(epoch).unwrap() {
            assert_eq!(epoch % st.check_period, 0);
            assert_eq!(ch.epoch, epoch);
        }
    }
    // nobody is counted twice
    for cid in cids {
        let votes = st.votes_for(cid).unwrap().validators;
        for (i, v) in votes.iter().enumerate() {
            assert!(!votes[..i].contains(v));
        }
    }
}

#[test]
fn invariants_hold_along_the_life_of_a_subnet() {
    for consensus in [ConsensusType::Delegated, ConsensusType::PoW] {
        let known = [100u64, 101, 102, 103];
        let first = checkpoint(10, &Cid::default(), 1);
        let second = checkpoint(20, &first.cid, 2);
        let cids = [first.cid.copy(), second.cid.copy()];
        let mut st = new_state(consensus);
        assert_valid(&st, &known, &cids);
        join(&mut st, 100, 5u64.pow(18));
        assert_valid(&st, &known, &cids);
        join(&mut st, 100, MIN_COLLATERAL_AMOUNT - 5u64.pow(18));
        assert_valid(&st, &known, &cids);
        join(&mut st, 101, MIN_COLLATERAL_AMOUNT + 7);
        assert_valid(&st, &known, &cids);
        join(&mut st, 102, MIN_COLLATERAL_AMOUNT);
        assert_valid(&st, &known, &cids);
        join(&mut st, 103, 9);
        assert_valid(&st, &known, &cids);
        assert!(Actor::join(&mut st, &message(103, 0), join_params()).is_err());
        assert_valid(&st, &known, &cids);

        for voter in [100u64, 101, 102, 100, 103] {
            let _ = submit(&mut st, voter, &first);
            assert_valid(&st, &known, &cids);
        }
        for voter in [100u64, 101, 102] {
            let _ = submit(&mut st, voter, &second);
            assert_valid(&st, &known, &cids);
        }

        assert!(Actor::kill(&mut st, &message(100, 0)).is_err());
        assert_valid(&st, &known, &cids);
        for leaver in [101u64, 100, 100, 102] {
            let _ = Actor::leave(&mut st, &message(leaver, 0));
            assert_valid(&st, &known, &cids);
        }
        assert_eq!(st.status, Status::Inactive);
        Actor::kill(&mut st, &message(1, 0)).unwrap();
        assert_eq!(st.status, Status::Terminating);
        assert_valid(&st, &known, &cids);
        Actor::leave(&mut st, &message(103, 0)).unwrap();
        assert_eq!(st.status, Status::Killed);
        assert_valid(&st, &known, &cids);
    }
}
