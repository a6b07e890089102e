//! What holds of every state that the actor can reach, and of its rules
//! taken together.

use vstd::prelude::*;

use crate::state::{next_status, StateView};
use crate::sums::{
    lemma_stake_at_most_total, lemma_total_empty, lemma_total_insert, non_negative, total_of,
};
use crate::types::{
    Address, ChainEpoch, CheckpointView, ConsensusType, ConstructParamsView, Status,
    ValidatorView, DEFAULT_CHECKPOINT_PERIOD, MIN_COLLATERAL_AMOUNT,
};

verus! {

/// Whether no two validators of a list have the same address.
pub open spec fn distinct_validators(vs: Seq<ValidatorView>) -> bool {
    forall|i: int, j: int| 0 <= i < j < vs.len() ==> vs[i].addr != vs[j].addr
}

impl StateView {
    /// Whether every validator holds at least the minimum stake of a validator.
    pub open spec fn validators_staked(self) -> bool {
        forall|i: int|
            0 <= i < self.validator_set.len() ==> self.stake_of(
                (#[trigger] self.validator_set[i]).addr,
            ) >= self.min_validator_stake
    }

    /// What holds of the state after every call:
    /// - the stake table has finitely many entries, none of them negative,
    ///   and the total stake is their sum;
    /// - the minimum stake of a validator is at least the minimum collateral,
    ///   and the checkpoint period at least the default one;
    /// - every validator holds the minimum stake, no address is a validator
    ///   twice, and delegated consensus has at most one validator;
    /// - every committed checkpoint stands under its own epoch, which is a
    ///   multiple of the checkpoint period;
    /// - no validator is listed twice among the votes for a checkpoint.
    pub open spec fn valid(self) -> bool {
        &&& self.stake.dom().finite()
        &&& non_negative(self.stake)
        &&& self.total_stake == total_of(self.stake)
        &&& self.min_validator_stake >= MIN_COLLATERAL_AMOUNT
        &&& self.check_period >= DEFAULT_CHECKPOINT_PERIOD
        &&& self.validators_staked()
        &&& distinct_validators(self.validator_set)
        &&& self.consensus == ConsensusType::Delegated ==> self.validator_set.len() <= 1
        &&& forall|e: ChainEpoch| #[trigger]
            self.checkpoints.contains_key(e) ==> e % self.check_period == 0
                && self.checkpoints[e].epoch == e
        &&& forall|c: Seq<u8>| #[trigger]
            self.window_checks.contains_key(c) ==> self.window_checks[c].no_duplicates()
    }

    /// Under consensus other than delegated, every address that holds the
    /// minimum stake of a validator is a validator. This holds as long as
    /// stake is withdrawn in full.
    pub open spec fn complete(self) -> bool {
        self.consensus != ConsensusType::Delegated ==> forall|a: Address|
            #[trigger] self.stake_of(a) >= self.min_validator_stake ==> self.is_validator(a)
    }

    /// A killed subnet holds no stake and has no validators.
    pub open spec fn settled(self) -> bool {
        self.status == Status::Killed ==> self.total_stake == 0 && self.validator_set.len() == 0
    }
}

/// Taking the validators of one address out of a list leaves validators of
/// the list, none of them of that address, and no address twice if the list
/// had none twice.
pub proof fn lemma_without_address(vs: Seq<ValidatorView>, addr: Address)
    ensures
        ({
            let kept = vs.filter(|v: ValidatorView| v.addr != addr);
            &&& kept.len() <= vs.len()
            &&& forall|k: int| 0 <= k < kept.len() ==> vs.contains(#[trigger] kept[k])
            &&& forall|k: int| 0 <= k < kept.len() ==> (#[trigger] kept[k]).addr != addr
            &&& distinct_validators(vs) ==> distinct_validators(kept)
        }),
    decreases vs.len(),
{
    reveal(Seq::filter);
    let keep = |v: ValidatorView| v.addr != addr;
    let kept = vs.filter(keep);
    if vs.len() > 0 {
        let front = vs.drop_last();
        let kept_front = front.filter(keep);
        lemma_without_address(front, addr);
        assert forall|k: int| 0 <= k < kept.len() implies vs.contains(#[trigger] kept[k]) by {
            if k < kept_front.len() {
                assert(front.contains(kept_front[k]));
                let i = choose|i: int| 0 <= i < front.len() && front[i] == kept_front[k];
                assert(vs[i] == kept[k]);
            } else {
                assert(vs[vs.len() - 1] == kept[k]);
            }
        }
        if distinct_validators(vs) {
            assert(distinct_validators(front));
            assert forall|i: int, j: int| 0 <= i < j < kept.len() implies kept[i].addr
                != kept[j].addr by {
                if j < kept_front.len() {
                    assert(kept_front[i].addr != kept_front[j].addr);
                } else {
                    assert(front.contains(kept_front[i]));
                    let a = choose|a: int| 0 <= a < front.len() && front[a] == kept_front[i];
                    assert(vs[a].addr != vs[vs.len() - 1].addr);
                }
            }
        }
    }
}

/// A new subnet is in a valid state, and has all the validators it is to have.
pub proof fn law_initial_valid(params: ConstructParamsView)
    ensures
        StateView::initial(params).valid(),
        StateView::initial(params).settled(),
        StateView::initial(params).complete(),
{
    lemma_total_empty();
}

/// After stake was added, every address that holds the minimum is a
/// validator, under consensus other than delegated, if that was so before.
pub proof fn law_add_stake_complete(
    s: StateView,
    addr: Address,
    net_addr: Seq<char>,
    amount: int,
)
    requires
        s.complete(),
    ensures
        s.add_stake(addr, net_addr, amount).complete(),
{
    let t = s.add_stake(addr, net_addr, amount);
    if t.consensus != ConsensusType::Delegated {
        assert forall|a: Address| #[trigger]
            t.stake_of(a) >= t.min_validator_stake implies t.is_validator(a) by {
            if a == addr {
                if s.is_validator(a) {
                    let i = choose|i: int|
                        0 <= i < s.validator_set.len() && s.validator_set[i].addr == a;
                    assert(t.validator_set[i].addr == a);
                } else {
                    assert(s.admits(addr, s.stake_of(addr) + amount));
                    assert(t.validator_set[s.validator_set.len() as int].addr == a);
                }
            } else {
                assert(s.stake_of(a) >= s.min_validator_stake);
                let i = choose|i: int|
                    0 <= i < s.validator_set.len() && s.validator_set[i].addr == a;
                assert(t.validator_set[i].addr == a);
            }
        }
    }
}

/// After stake was taken from an address, so that less than the minimum is
/// left, every address that holds the minimum is a validator, under
/// consensus other than delegated, if that was so before.
pub proof fn law_rm_stake_complete(s: StateView, addr: Address, amount: int)
    requires
        s.complete(),
        s.stake_left(addr, amount) < s.min_validator_stake,
    ensures
        s.rm_stake(addr, amount).complete(),
{
    let t = s.rm_stake(addr, amount);
    let keep = |v: ValidatorView| v.addr != addr;
    if t.consensus != ConsensusType::Delegated {
        assert forall|a: Address| #[trigger]
            t.stake_of(a) >= t.min_validator_stake implies t.is_validator(a) by {
            assert(a != addr);
            assert(s.stake_of(a) >= s.min_validator_stake);
            let i = choose|i: int| 0 <= i < s.validator_set.len() && s.validator_set[i].addr == a;
            s.validator_set.lemma_filter_contains(keep, i);
            let k = choose|k: int|
                0 <= k < t.validator_set.len() && t.validator_set[k] == s.validator_set[i];
            assert(t.validator_set[k].addr == a);
        }
    }
}

/// A join keeps every address that holds the minimum among the validators.
pub proof fn law_join_complete(s: StateView, caller: Address, net_addr: Seq<char>, amount: int)
    requires
        s.complete(),
    ensures
        s.join(caller, net_addr, amount).complete(),
{
    law_add_stake_complete(s, caller, net_addr, amount);
    let added = s.add_stake(caller, net_addr, amount);
    lemma_status_keeps_complete(added, s.join(caller, net_addr, amount));
}

/// A leave keeps every address that holds the minimum among the validators.
pub proof fn law_leave_complete(s: StateView, caller: Address)
    requires
        s.valid(),
        s.complete(),
    ensures
        s.leave(caller).complete(),
{
    law_rm_stake_complete(s, caller, s.stake_of(caller));
    let removed = s.rm_stake(caller, s.stake_of(caller));
    lemma_status_keeps_complete(removed, s.leave(caller));
}

/// Whether every staked address is a validator depends on the stake table,
/// the validator set, the minimum stake and the consensus alone.
pub proof fn lemma_status_keeps_complete(s: StateView, t: StateView)
    requires
        s.complete(),
        t.stake == s.stake,
        t.validator_set == s.validator_set,
        t.min_validator_stake == s.min_validator_stake,
        t.consensus == s.consensus,
    ensures
        t.complete(),
{
    if t.consensus != ConsensusType::Delegated {
        assert forall|a: Address| #[trigger]
            t.stake_of(a) >= t.min_validator_stake implies t.is_validator(a) by {
            assert(s.stake_of(a) >= s.min_validator_stake);
            let i = choose|i: int| 0 <= i < s.validator_set.len() && s.validator_set[i].addr == a;
            assert(t.validator_set[i].addr == a);
        }
    }
}

/// Adding stake keeps the state valid.
pub proof fn law_add_stake_valid(s: StateView, addr: Address, net_addr: Seq<char>, amount: int)
    requires
        s.valid(),
        amount >= 0,
    ensures
        s.add_stake(addr, net_addr, amount).valid(),
{
    let t = s.add_stake(addr, net_addr, amount);
    let updated = s.stake_of(addr) + amount;
    lemma_total_insert(s.stake, addr, updated);
    assert(t.validators_staked()) by {
        assert forall|i: int| 0 <= i < t.validator_set.len() implies t.stake_of(
            (#[trigger] t.validator_set[i]).addr,
        ) >= t.min_validator_stake by {
            if i < s.validator_set.len() {
                assert(s.stake_of(s.validator_set[i].addr) >= s.min_validator_stake);
            }
        }
    }
    assert(distinct_validators(t.validator_set)) by {
        assert forall|i: int, j: int| 0 <= i < j < t.validator_set.len() implies t.validator_set[i].addr
            != t.validator_set[j].addr by {
            if j < s.validator_set.len() {
                assert(s.validator_set[i].addr != s.validator_set[j].addr);
            }
        }
    }
}

/// Taking stake that the address holds keeps the state valid.
pub proof fn law_rm_stake_valid(s: StateView, addr: Address, amount: int)
    requires
        s.valid(),
        s.stake_left(addr, amount) >= 0,
    ensures
        s.rm_stake(addr, amount).valid(),
{
    let t = s.rm_stake(addr, amount);
    lemma_total_insert(s.stake, addr, s.stake_left(addr, amount));
    lemma_without_address(s.validator_set, addr);
    assert(t.validators_staked()) by {
        assert forall|i: int| 0 <= i < t.validator_set.len() implies t.stake_of(
            (#[trigger] t.validator_set[i]).addr,
        ) >= t.min_validator_stake by {
            let v = t.validator_set[i];
            assert(s.validator_set.contains(v));
            let k = choose|k: int| 0 <= k < s.validator_set.len() && s.validator_set[k] == v;
            assert(s.stake_of(s.validator_set[k].addr) >= s.min_validator_stake);
        }
    }
}

/// Bringing the status in line with the stake keeps the state valid, and a
/// subnet that it kills holds no stake and has no validators.
pub proof fn law_mutate_state_valid(s: StateView)
    requires
        s.valid(),
    ensures
        s.mutate_state().valid(),
        s.settled() ==> s.mutate_state().settled(),
{
    law_no_stake_no_validators(s);
}

/// Where the total stake is zero, nobody holds stake and nobody is a validator.
pub proof fn law_no_stake_no_validators(s: StateView)
    requires
        s.valid(),
    ensures
        s.total_stake == 0 ==> s.validator_set.len() == 0,
        forall|a: Address| 0 <= #[trigger] s.stake_of(a) <= s.total_stake,
{
    assert forall|a: Address| 0 <= #[trigger] s.stake_of(a) <= s.total_stake by {
        lemma_stake_at_most_total(s.stake, a);
    }
    if s.total_stake == 0 && s.validator_set.len() > 0 {
        assert(s.stake_of(s.validator_set[0].addr) >= s.min_validator_stake);
    }
}

/// A join with collateral keeps the state valid; and a subnet that is not
/// killed stays settled.
pub proof fn law_join_valid(s: StateView, caller: Address, net_addr: Seq<char>, amount: int)
    requires
        s.valid(),
        amount > 0,
    ensures
        s.join(caller, net_addr, amount).valid(),
        s.status != Status::Killed ==> s.join(caller, net_addr, amount).settled(),
{
    law_add_stake_valid(s, caller, net_addr, amount);
    law_mutate_state_valid(s.add_stake(caller, net_addr, amount));
}

/// A leave keeps the state valid and settled.
pub proof fn law_leave_valid(s: StateView, caller: Address)
    requires
        s.valid(),
    ensures
        s.leave(caller).valid(),
        s.settled() && s.stake_of(caller) > 0 ==> s.leave(caller).settled(),
{
    law_no_stake_no_validators(s);
    law_rm_stake_valid(s, caller, s.stake_of(caller));
    law_mutate_state_valid(s.rm_stake(caller, s.stake_of(caller)));
}

/// A kill keeps the state valid and settled.
pub proof fn law_kill_valid(s: StateView)
    requires
        s.valid(),
        s.can_kill(),
    ensures
        s.kill().valid(),
        s.kill().settled(),
{
    let t = StateView { status: Status::Terminating, ..s };
    assert(t.valid());
    law_mutate_state_valid(t);
}

/// A first vote of a validator for a checkpoint of a signing epoch keeps the
/// state valid and settled.
pub proof fn law_vote_valid(s: StateView, ch: CheckpointView, caller: Address)
    requires
        s.valid(),
        ch.epoch % s.check_period == 0,
        !s.has_voted(ch.cid, caller),
    ensures
        s.vote(ch, caller).valid(),
        s.settled() ==> s.vote(ch, caller).settled(),
{
    let votes = s.votes_for(ch.cid).push(caller);
    let t = s.vote(ch, caller);
    assert(votes.no_duplicates()) by {
        let before = s.votes_for(ch.cid);
        if s.window_checks.contains_key(ch.cid) {
            assert(before.no_duplicates());
        }
        assert forall|i: int, j: int|
            0 <= i < votes.len() && 0 <= j < votes.len() && i != j implies votes[i]
            != votes[j] by {
            if i < before.len() && j < before.len() {
                assert(before[i] != before[j]);
            } else if i < before.len() {
                assert(before.contains(before[i]));
            } else {
                assert(before.contains(before[j]));
            }
        }
    }
    assert forall|c: Seq<u8>| #[trigger] t.window_checks.contains_key(c) implies t.window_checks[c].no_duplicates() by {
        if c != ch.cid {
            assert(s.window_checks.contains_key(c));
        }
    }
    assert forall|e: ChainEpoch| #[trigger] t.checkpoints.contains_key(e) implies e
        % t.check_period == 0 && t.checkpoints[e].epoch == e by {
        if e != ch.epoch {
            assert(s.checkpoints.contains_key(e));
        }
    }
}

/// Once a checkpoint is committed it stands under its epoch, and no votes
/// are left for its content address.
pub proof fn law_commit_clears_votes(s: StateView, ch: CheckpointView, caller: Address)
    requires
        s.has_majority(s.votes_for(ch.cid).push(caller)),
    ensures
        s.vote(ch, caller).checkpoints.contains_key(ch.epoch),
        s.vote(ch, caller).checkpoints[ch.epoch] == ch,
        !s.vote(ch, caller).window_checks.contains_key(ch.cid),
{
}

/// Without a majority the vote is recorded after those cast before, and
/// nothing is committed.
pub proof fn law_vote_recorded(s: StateView, ch: CheckpointView, caller: Address)
    requires
        !s.has_majority(s.votes_for(ch.cid).push(caller)),
    ensures
        s.vote(ch, caller).votes_for(ch.cid) == s.votes_for(ch.cid).push(caller),
        s.vote(ch, caller).checkpoints == s.checkpoints,
{
}

/// A join followed by a leave of the same address, on a subnet that held no
/// stake and had no validators, leaves the total stake and the validator set
/// as they were, and the address without stake.
pub proof fn law_join_then_leave(s: StateView, caller: Address, net_addr: Seq<char>, amount: int)
    requires
        s.valid(),
        s.total_stake == 0,
        s.validator_set.len() == 0,
        amount > 0,
    ensures
        ({
            let t = s.join(caller, net_addr, amount).leave(caller);
            &&& t.total_stake == s.total_stake
            &&& t.validator_set == s.validator_set
            &&& t.stake_of(caller) == 0
        }),
{
    law_no_stake_no_validators(s);
    let j = s.join(caller, net_addr, amount);
    assert(j.stake_of(caller) == amount);
    let t = j.leave(caller);
    lemma_without_address(j.validator_set, caller);
    let kept = j.validator_set.filter(|v: ValidatorView| v.addr != caller);
    if kept.len() > 0 {
        assert(j.validator_set.contains(kept[0]));
        assert(kept[0].addr != caller);
    }
    assert(t.validator_set =~= s.validator_set);
}

/// The status only changes as the life of a subnet allows: a new subnet
/// becomes active, an active one inactive and back, a terminating one killed,
/// and a killed one stays killed.
pub proof fn law_status_steps(status: Status, total: int)
    ensures
        ({
            let next = next_status(status, total);
            match status {
                Status::Instantiated => next == Status::Instantiated || next == Status::Active,
                Status::Active => next == Status::Active || next == Status::Inactive,
                Status::Inactive => next == Status::Inactive || next == Status::Active,
                Status::Terminating => next == Status::Terminating || next == Status::Killed,
                Status::Killed => next == Status::Killed,
            }
        }),
{
}

} // verus!
