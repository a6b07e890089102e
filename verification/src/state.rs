//! The state of the subnet actor and the operations that change it: the stake
//! ledger, the validator set, the status machine and the checkpoint rules.

use fvm_shared::econ::TokenAmount;
use vstd::arithmetic::div_mod::{
    lemma_fundamental_div_mod, lemma_fundamental_div_mod_converse, lemma_mod_pos_bound,
};
use vstd::prelude::*;

use crate::amount::{amount_add, amount_div_floor, amount_from_atto, amount_lt, amount_sub, atto};
use crate::checkpoints::{
    commit_rejects, lookup_rejects, row_delete_rejects, row_get_rejects, row_set_rejects,
    Checkpoints, WindowChecks,
};
use crate::error::StateError;
use crate::ledger::{accepts_all, get_rejects, set_rejects, StakeTable};
use crate::sums::stake_in;
use crate::types::{
    Address, ChainEpoch, Checkpoint, CheckpointView, Cid, ConsensusType, ConstructParams,
    ConstructParamsView, Status, SubnetID, Validator, ValidatorView, Votes,
    DEFAULT_CHECKPOINT_PERIOD, LEAVING_COEFF, MIN_COLLATERAL_AMOUNT,
};

verus! {

/// The state of the subnet actor.
pub struct State {
    pub name: String,
    pub parent_id: SubnetID,
    pub ipc_gateway_addr: Address,
    pub consensus: ConsensusType,
    pub min_validator_stake: TokenAmount,
    pub total_stake: TokenAmount,
    pub stake: StakeTable,
    pub status: Status,
    pub genesis: Vec<u8>,
    pub finality_threshold: ChainEpoch,
    pub check_period: ChainEpoch,
    pub checkpoints: Checkpoints,
    pub window_checks: WindowChecks,
    pub validator_set: Vec<Validator>,
    pub min_validators: u64,
}

/// What the state is to the contracts: amounts as integers, tables as maps,
/// lists as sequences.
#[verifier::ext_equal]
pub struct StateView {
    pub name: Seq<char>,
    pub parent_id: Seq<Address>,
    pub ipc_gateway_addr: Address,
    pub consensus: ConsensusType,
    pub min_validator_stake: int,
    pub total_stake: int,
    pub stake: Map<Address, int>,
    pub status: Status,
    pub genesis: Seq<u8>,
    pub finality_threshold: ChainEpoch,
    pub check_period: ChainEpoch,
    pub checkpoints: Map<ChainEpoch, CheckpointView>,
    pub window_checks: Map<Seq<u8>, Seq<Address>>,
    pub validator_set: Seq<ValidatorView>,
    pub min_validators: u64,
}

/// The validators of a list, as the contracts see them.
pub open spec fn validator_views(vs: Seq<Validator>) -> Seq<ValidatorView> {
    vs.map_values(|v: Validator| v@)
}

impl View for State {
    type V = StateView;

    open spec fn view(&self) -> StateView {
        StateView {
            name: self.name@,
            parent_id: self.parent_id@,
            ipc_gateway_addr: self.ipc_gateway_addr,
            consensus: self.consensus,
            min_validator_stake: atto(self.min_validator_stake),
            total_stake: atto(self.total_stake),
            stake: self.stake@,
            status: self.status,
            genesis: self.genesis@,
            finality_threshold: self.finality_threshold,
            check_period: self.check_period,
            checkpoints: self.checkpoints@,
            window_checks: self.window_checks@,
            validator_set: validator_views(self.validator_set@),
            min_validators: self.min_validators,
        }
    }
}

/// The status that follows `status` once the total stake is `total`.
pub open spec fn next_status(status: Status, total: int) -> Status {
    match status {
        Status::Instantiated => if total >= MIN_COLLATERAL_AMOUNT {
            Status::Active
        } else {
            Status::Instantiated
        },
        Status::Active => if total < MIN_COLLATERAL_AMOUNT {
            Status::Inactive
        } else {
            Status::Active
        },
        Status::Inactive => if total >= MIN_COLLATERAL_AMOUNT {
            Status::Active
        } else {
            Status::Inactive
        },
        Status::Terminating => if total == 0 {
            Status::Killed
        } else {
            Status::Terminating
        },
        Status::Killed => Status::Killed,
    }
}

/// The stake that the listed voters hold together. A voter counts as often as
/// it is listed.
pub open spec fn votes_weight(stake: Map<Address, int>, votes: Seq<Address>) -> int
    decreases votes.len(),
{
    if votes.len() == 0 {
        0
    } else {
        votes_weight(stake, votes.drop_last()) + stake_in(stake, votes.last())
    }
}

/// Whether an epoch is a multiple of a period.
pub fn is_multiple(epoch: ChainEpoch, period: ChainEpoch) -> (r: bool)
    requires
        period > 0,
    ensures
        r == (epoch % period == 0),
{
    if epoch >= 0 {
        epoch % period == 0
    } else {
        // the remainder of a negative epoch is taken from its successor's
        // opposite, which every epoch below zero has
        let m = -(epoch + 1);
        proof {
            lemma_negative_multiple(epoch as int, period as int);
        }
        m % period == period - 1
    }
}

/// A negative number is a multiple of `p` where the opposite of its successor
/// leaves the remainder `p - 1`.
proof fn lemma_negative_multiple(e: int, p: int)
    requires
        e < 0,
        p > 0,
    ensures
        (e % p == 0) <==> ((-(e + 1)) % p == p - 1),
{
    let m = -(e + 1);
    let q = m / p;
    let r = m % p;
    lemma_fundamental_div_mod(m, p);
    lemma_mod_pos_bound(m, p);
    assert(e == (-(q + 1)) * p + (p - r - 1)) by (nonlinear_arith)
        requires
            m == p * q + r,
            e == -(m + 1),
    ;
    lemma_fundamental_div_mod_converse(e, p, -(q + 1), p - r - 1);
}

impl StateView {
    /// The state that construction with the given parameters leaves.
    pub open spec fn initial(params: ConstructParamsView) -> StateView {
        StateView {
            name: params.name,
            parent_id: params.parent,
            ipc_gateway_addr: Address { id: params.ipc_gateway_addr },
            consensus: params.consensus,
            min_validator_stake: if params.min_validator_stake < MIN_COLLATERAL_AMOUNT {
                MIN_COLLATERAL_AMOUNT as int
            } else {
                params.min_validator_stake
            },
            total_stake: 0,
            stake: Map::empty(),
            status: Status::Instantiated,
            genesis: params.genesis,
            finality_threshold: params.finality_threshold,
            check_period: if params.check_period < DEFAULT_CHECKPOINT_PERIOD {
                DEFAULT_CHECKPOINT_PERIOD
            } else {
                params.check_period
            },
            checkpoints: Map::empty(),
            window_checks: Map::empty(),
            validator_set: Seq::empty(),
            min_validators: params.min_validators,
        }
    }

    /// What the address has at stake: an address without an entry has nothing.
    pub open spec fn stake_of(self, addr: Address) -> int {
        stake_in(self.stake, addr)
    }

    /// Whether the address is in the validator set.
    pub open spec fn is_validator(self, addr: Address) -> bool {
        exists|i: int| 0 <= i < self.validator_set.len() && self.validator_set[i].addr == addr
    }

    /// Whether an address that holds `stake` is to be added to the validator
    /// set: it holds the minimum, it is not yet in the set, and under delegated
    /// consensus the set is empty.
    pub open spec fn admits(self, addr: Address, stake: int) -> bool {
        &&& stake >= self.min_validator_stake
        &&& self.consensus != ConsensusType::Delegated || self.validator_set.len() == 0
        &&& !self.is_validator(addr)
    }

    /// The state after `amount` was added to the stake of `addr`.
    pub open spec fn add_stake(self, addr: Address, net_addr: Seq<char>, amount: int) -> StateView {
        let updated = self.stake_of(addr) + amount;
        StateView {
            stake: self.stake.insert(addr, updated),
            total_stake: self.total_stake + amount,
            validator_set: if self.admits(addr, updated) {
                self.validator_set.push(ValidatorView { addr, net_addr })
            } else {
                self.validator_set
            },
            ..self
        }
    }

    /// What is left of the stake of `addr` when `amount` is taken from it.
    pub open spec fn stake_left(self, addr: Address, amount: int) -> int {
        self.stake_of(addr) / (LEAVING_COEFF as int) - amount
    }

    /// The state after `amount` was taken from the stake of `addr`.
    pub open spec fn rm_stake(self, addr: Address, amount: int) -> StateView {
        StateView {
            stake: self.stake.insert(addr, self.stake_left(addr, amount)),
            total_stake: self.total_stake - amount,
            validator_set: self.validator_set.filter(|v: ValidatorView| v.addr != addr),
            ..self
        }
    }

    /// The state after the status was brought in line with the total stake.
    pub open spec fn mutate_state(self) -> StateView {
        StateView { status: next_status(self.status, self.total_stake), ..self }
    }

    /// Whether the listed voters hold at least two thirds of the total stake.
    pub open spec fn has_majority(self, votes: Seq<Address>) -> bool {
        votes_weight(self.stake, votes) * 3 >= self.total_stake * 2
    }

    /// The content address of the checkpoint committed last before `epoch`:
    /// that of the nearest epoch below, in steps of the checkpoint period, that
    /// has a checkpoint; the empty content address if there is none, or if the
    /// period is not positive.
    pub open spec fn prev_checkpoint_cid(self, epoch: int) -> Seq<u8>
        decreases epoch,
    {
        let prev = epoch - self.check_period;
        if self.check_period <= 0 || prev < 0 {
            Cid::empty()
        } else if self.checkpoints.contains_key(prev as ChainEpoch) {
            self.checkpoints[prev as ChainEpoch].cid
        } else {
            self.prev_checkpoint_cid(prev)
        }
    }

    /// The votes that a checkpoint has: none where it has no row.
    pub open spec fn votes_for(self, cid: Seq<u8>) -> Seq<Address> {
        if self.window_checks.contains_key(cid) {
            self.window_checks[cid]
        } else {
            Seq::empty()
        }
    }

    /// Whether a checkpoint that `caller` submits to the actor `receiver` is
    /// accepted: the subnet is active, the epoch has no checkpoint and is a
    /// multiple of the period, which is positive, the source is this subnet,
    /// the checkpoint names the one committed before it, the signature holds
    /// and the caller is a validator.
    pub open spec fn accepts(
        self,
        ch: CheckpointView,
        caller: Address,
        receiver: Address,
        signature_valid: bool,
    ) -> bool {
        &&& self.status == Status::Active
        &&& self.check_period > 0
        &&& !self.checkpoints.contains_key(ch.epoch)
        &&& ch.epoch % self.check_period == 0
        &&& ch.source == self.parent_id.push(receiver)
        &&& ch.prev_check == self.prev_checkpoint_cid(ch.epoch as int)
        &&& signature_valid
        &&& self.is_validator(caller)
    }

    /// The state after `caller` voted for the checkpoint: with a majority the
    /// checkpoint is committed and its votes are dropped, without one the vote
    /// is recorded.
    pub open spec fn vote(self, ch: CheckpointView, caller: Address) -> StateView {
        let votes = self.votes_for(ch.cid).push(caller);
        if self.has_majority(votes) {
            StateView {
                checkpoints: self.checkpoints.insert(ch.epoch, ch),
                window_checks: self.window_checks.remove(ch.cid),
                ..self
            }
        } else {
            StateView { window_checks: self.window_checks.insert(ch.cid, votes), ..self }
        }
    }
}

impl State {
    /// The state of a new subnet. The minimum stake of a validator is raised
    /// to the minimum collateral and the checkpoint period to the default one,
    /// where the parameters ask for less.
    pub fn new(params: ConstructParams) -> (st: State)
        ensures
            st@ == StateView::initial(params@),
            st.tables_accept_all(),
    {
        let min_stake = amount_from_atto(MIN_COLLATERAL_AMOUNT);
        let state = State {
            name: params.name,
            parent_id: params.parent,
            ipc_gateway_addr: Address::new_id(params.ipc_gateway_addr),
            consensus: params.consensus,
            total_stake: amount_from_atto(0),
            min_validator_stake: if amount_lt(&params.min_validator_stake, &min_stake) {
                min_stake
            } else {
                params.min_validator_stake
            },
            min_validators: params.min_validators,
            finality_threshold: params.finality_threshold,
            check_period: if params.check_period < DEFAULT_CHECKPOINT_PERIOD {
                DEFAULT_CHECKPOINT_PERIOD
            } else {
                params.check_period
            },
            genesis: params.genesis,
            status: Status::Instantiated,
            checkpoints: Checkpoints::new(),
            stake: StakeTable::new(),
            window_checks: WindowChecks::new(),
            validator_set: Vec::new(),
        };
        assert(state@.validator_set =~= Seq::<ValidatorView>::empty());
        assert(state@ =~= StateView::initial(params@));
        state
    }

    /// Whether the stake table refuses to look up the address.
    pub open spec fn read_rejected(&self, addr: Address) -> bool {
        get_rejects(self.stake, addr)
    }

    /// Whether the stake table refuses to write an entry for the address.
    pub open spec fn write_rejected(&self, addr: Address) -> bool {
        set_rejects(self.stake, addr)
    }

    /// Whether the stake table refuses to look up one of the voters.
    pub open spec fn count_rejected(&self, votes: Seq<Address>) -> bool {
        exists|i: int| 0 <= i < votes.len() && get_rejects(self.stake, #[trigger] votes[i])
    }

    /// Whether none of the three tables of the state refuses anything, as
    /// those of a new state do.
    pub open spec fn tables_accept_all(&self) -> bool {
        accepts_all(self.stake) && self.checkpoints.accepts_all()
            && self.window_checks.accepts_all()
    }

    /// Whether the state is as `before` but for what its tables of
    /// checkpoints and of votes hold.
    pub open spec fn as_but_checkpoints(&self, before: State) -> bool {
        *self == (State {
            checkpoints: self.checkpoints,
            window_checks: self.window_checks,
            ..before
        })
    }

    /// Whether the table of checkpoints refuses a lookup on the way to the
    /// checkpoint committed last before `epoch`: the way goes down from
    /// `epoch` in steps of the period and ends at the first epoch that has a
    /// checkpoint.
    pub open spec fn prev_rejected(&self, epoch: int) -> bool
        decreases epoch,
    {
        let prev = epoch - self.check_period;
        if self.check_period <= 0 || prev < 0 {
            false
        } else if lookup_rejects(self.checkpoints, prev as ChainEpoch) {
            true
        } else if self@.checkpoints.contains_key(prev as ChainEpoch) {
            false
        } else {
            self.prev_rejected(prev)
        }
    }

    /// The error with which the verification of a checkpoint fails, if it
    /// fails. The checks come in this order: the subnet is active and its
    /// period positive; the epoch has no checkpoint, for which the table is
    /// asked; the epoch is a multiple of the period and the source is this
    /// subnet; the checkpoint names the one committed before it, for which
    /// the table is asked again; the signature holds and the caller is a
    /// validator. Where the table refuses a lookup the error is that of the
    /// store, elsewhere the checkpoint is invalid.
    pub open spec fn checkpoint_fault(
        &self,
        ch: CheckpointView,
        caller: Address,
        receiver: Address,
        signature_valid: bool,
    ) -> Option<StateError> {
        if self.status != Status::Active || self.check_period <= 0 {
            Some(StateError::InvalidCheckpoint)
        } else if lookup_rejects(self.checkpoints, ch.epoch) {
            Some(StateError::Store)
        } else if self@.checkpoints.contains_key(ch.epoch) || ch.epoch % self.check_period != 0
            || ch.source != self@.parent_id.push(receiver) {
            Some(StateError::InvalidCheckpoint)
        } else if self.prev_rejected(ch.epoch as int) {
            Some(StateError::Store)
        } else if !self@.accepts(ch, caller, receiver, signature_valid) {
            Some(StateError::InvalidCheckpoint)
        } else {
            None
        }
    }

    /// Whether a table refuses to book the votes for a checkpoint: with a
    /// majority the write of the checkpoint or the removal of its votes,
    /// without one the write of the votes.
    pub open spec fn booking_rejected(&self, ch: CheckpointView, majority: bool) -> bool {
        if majority {
            commit_rejects(self.checkpoints, ch.epoch) || row_delete_rejects(
                self.window_checks,
                ch.cid,
            )
        } else {
            row_set_rejects(self.window_checks, ch.cid)
        }
    }

    /// Get the stake of an address: `None` where the address has no entry.
    /// Fails where the stake table refuses the lookup, and nowhere else.
    pub fn get_stake(&self, addr: &Address) -> (r: Result<Option<TokenAmount>, StateError>)
        ensures
            match r {
                Ok(Some(v)) => self@.stake.contains_key(*addr) && atto(v) == self@.stake[*addr],
                Ok(None) => !self@.stake.contains_key(*addr),
                Err(e) => e == StateError::Store,
            },
            r is Err <==> self.read_rejected(*addr),
    {
        self.stake.get(addr)
    }

    /// Brings the status in line with the total stake.
    pub fn mutate_state(&mut self)
        ensures
            final(self)@ == old(self)@.mutate_state(),
    {
        let min = amount_from_atto(MIN_COLLATERAL_AMOUNT);
        match self.status {
            Status::Instantiated => {
                if !amount_lt(&self.total_stake, &min) {
                    self.status = Status::Active
                }
            },
            Status::Active => {
                if amount_lt(&self.total_stake, &min) {
                    self.status = Status::Inactive
                }
            },
            Status::Inactive => {
                if !amount_lt(&self.total_stake, &min) {
                    self.status = Status::Active
                }
            },
            Status::Terminating => {
                let zero = amount_from_atto(0);
                if !amount_lt(&self.total_stake, &zero) && !amount_lt(&zero, &self.total_stake) {
                    self.status = Status::Killed
                }
            },
            _ => {},
        }
        assert(self@ =~= old(self)@.mutate_state());
    }
}

impl State {
    /// The amount that a lookup in the stake table stands for: nothing where
    /// the table has no entry.
    pub fn stake_or_zero(found: Option<TokenAmount>) -> (r: TokenAmount)
        ensures
            atto(r) == match found {
                Some(v) => atto(v),
                None => 0,
            },
    {
        match found {
            Some(v) => v,
            None => amount_from_atto(0),
        }
    }

    /// What of a stake is released to its owner under a leaving
    /// coefficient: the stake divided by the coefficient, rounded down.
    pub fn leaving_stake(stake: &TokenAmount, coeff: u64) -> (r: TokenAmount)
        requires
            coeff > 0,
        ensures
            atto(r) == atto(*stake) / (coeff as int),
    {
        amount_div_floor(stake, coeff)
    }

    /// Whether the address is in the validator set.
    pub fn is_validator(&self, addr: &Address) -> (r: bool)
        ensures
            r == self@.is_validator(*addr),
    {
        let mut i: usize = 0;
        while i < self.validator_set.len()
            invariant
                i <= self.validator_set.len(),
                forall|j: int| 0 <= j < i ==> self.validator_set@[j].addr != *addr,
            decreases self.validator_set.len() - i,
        {
            if self.validator_set[i].addr == *addr {
                assert(self@.validator_set[i as int].addr == *addr);
                return true;
            }
            i += 1;
        }
        assert forall|j: int| 0 <= j < self@.validator_set.len() implies self@.validator_set[j].addr
            != *addr by {
            assert(self@.validator_set[j].addr == self.validator_set@[j].addr);
        }
        false
    }

    /// Books a deposit that the stake table already holds: raises the total
    /// by `amount` and admits `addr` to the validator set where its stake,
    /// now `updated_stake`, entitles it.
    pub fn credit(
        &mut self,
        addr: &Address,
        net_addr: &str,
        amount: &TokenAmount,
        updated_stake: &TokenAmount,
    )
        ensures
            final(self)@ == (StateView {
                total_stake: old(self)@.total_stake + atto(*amount),
                validator_set: if old(self)@.admits(*addr, atto(*updated_stake)) {
                    old(self)@.validator_set.push(
                        ValidatorView { addr: *addr, net_addr: net_addr@ },
                    )
                } else {
                    old(self)@.validator_set
                },
                ..old(self)@
            }),
    {
        // update total collateral
        self.total_stake = amount_add(&self.total_stake, amount);
        // check if the miner has collateral to become a validator
        if !amount_lt(updated_stake, &self.min_validator_stake) && (self.consensus
            != ConsensusType::Delegated || self.validator_set.len() == 0) && !self.is_validator(
            addr,
        ) {
            let validator = Validator { addr: *addr, net_addr: net_addr.to_string() };
            self.validator_set.push(validator);
            assert(validator_views(self.validator_set@) =~= validator_views(
                old(self).validator_set@,
            ).push(validator@));
        }
        assert(old(self)@.validator_set.len() == old(self).validator_set@.len());
        assert(self@ =~= (StateView {
            total_stake: old(self)@.total_stake + atto(*amount),
            validator_set: if old(self)@.admits(*addr, atto(*updated_stake)) {
                old(self)@.validator_set.push(ValidatorView { addr: *addr, net_addr: net_addr@ })
            } else {
                old(self)@.validator_set
            },
            ..old(self)@
        }));
    }

    /// Adds stake from a validator: a missing entry of the stake table counts
    /// as zero. Succeeds unless the stake table refuses the lookup or the
    /// write of the address. Where the lookup is refused nothing changes;
    /// where the write is refused only the table may have changed.
    pub fn add_stake(&mut self, addr: &Address, net_addr: &str, amount: &TokenAmount) -> (r:
        Result<(), StateError>)
        ensures
            r is Ok <==> !old(self).read_rejected(*addr) && !old(self).write_rejected(*addr),
            match r {
                Ok(()) => final(self)@ == old(self)@.add_stake(*addr, net_addr@, atto(*amount)),
                Err(e) => e == StateError::Store && final(self)@ == (StateView {
                    stake: final(self)@.stake,
                    ..old(self)@
                }),
            },
            r is Err && old(self).read_rejected(*addr) ==> *final(self) == *old(self),
    {
        // update miner stake
        let found = match self.stake.get(addr) {
            Ok(found) => found,
            Err(_) => {
                assert(self@ =~= (StateView { stake: self@.stake, ..old(self)@ }));
                return Err(StateError::Store);
            },
        };
        let stake = Self::stake_or_zero(found);
        let updated_stake = amount_add(&stake, amount);
        match self.stake.set(addr, updated_stake.clone()) {
            Ok(()) => {},
            Err(_) => {
                assert(self@ =~= (StateView { stake: self@.stake, ..old(self)@ }));
                return Err(StateError::Store);
            },
        }
        self.credit(addr, net_addr, amount, &updated_stake);
        assert(self@ =~= old(self)@.add_stake(*addr, net_addr@, atto(*amount)));
        Ok(())
    }

    /// Books a withdrawal that the stake table already holds: lowers the
    /// total by `amount` and takes `addr` out of the validator set.
    pub fn debit(&mut self, addr: &Address, amount: &TokenAmount)
        ensures
            final(self)@ == (StateView {
                total_stake: old(self)@.total_stake - atto(*amount),
                validator_set: old(self)@.validator_set.filter(|v: ValidatorView| v.addr != *addr),
                ..old(self)@
            }),
    {
        // update total collateral
        self.total_stake = amount_sub(&self.total_stake, amount);
        // remove miner from list of validators
        let ghost keep = |v: ValidatorView| v.addr != *addr;
        let ghost before = old(self)@.validator_set;
        let mut kept: Vec<Validator> = Vec::new();
        let mut i: usize = 0;
        proof {
            reveal(Seq::filter);
            assert(before.take(0) =~= Seq::<ValidatorView>::empty());
            assert(validator_views(kept@) =~= before.take(0).filter(keep));
        }
        while i < self.validator_set.len()
            invariant
                i <= self.validator_set.len(),
                self.validator_set == old(self).validator_set,
                before == validator_views(self.validator_set@),
                keep == |v: ValidatorView| v.addr != *addr,
                validator_views(kept@) == before.take(i as int).filter(keep),
            decreases self.validator_set.len() - i,
        {
            let ghost prefix = before.take(i as int);
            proof {
                assert(before.take(i + 1) =~= prefix.push(before[i as int]));
                prefix.lemma_filter_push(before[i as int], keep);
            }
            if self.validator_set[i].addr != *addr {
                let validator = Validator {
                    addr: self.validator_set[i].addr,
                    net_addr: self.validator_set[i].net_addr.clone(),
                };
                assert(validator@ == before[i as int]);
                kept.push(validator);
                assert(validator_views(kept@) =~= prefix.filter(keep).push(before[i as int]));
            }
            i += 1;
        }
        assert(before.take(before.len() as int) =~= before);
        self.validator_set = kept;
        assert(self@ =~= (StateView {
            total_stake: old(self)@.total_stake - atto(*amount),
            validator_set: old(self)@.validator_set.filter(|v: ValidatorView| v.addr != *addr),
            ..old(self)@
        }));
    }

    /// Takes `amount` from the stake of an address, and the address out of
    /// the validator set. Succeeds where the address holds as much, unless
    /// the stake table refuses the lookup or the write of the address. Where
    /// the lookup is refused or the address holds less, nothing changes;
    /// where the write is refused only the table may have changed.
    pub fn rm_stake(&mut self, addr: &Address, amount: &TokenAmount) -> (r: Result<
        (),
        StateError,
    >)
        ensures
            r is Ok <==> !old(self).read_rejected(*addr) && old(self)@.stake_left(
                *addr,
                atto(*amount),
            ) >= 0 && !old(self).write_rejected(*addr),
            r == Err::<(), StateError>(StateError::InsufficientStake) <==> !old(
                self,
            ).read_rejected(*addr) && old(self)@.stake_left(*addr, atto(*amount)) < 0,
            r is Err && (old(self).read_rejected(*addr) || old(self)@.stake_left(
                *addr,
                atto(*amount),
            ) < 0) ==> *final(self) == *old(self),
            match r {
                Ok(()) => old(self)@.stake_left(*addr, atto(*amount)) >= 0 && final(self)@ == old(
                    self,
                )@.rm_stake(*addr, atto(*amount)),
                Err(StateError::InsufficientStake) => old(self)@.stake_left(*addr, atto(*amount))
                    < 0 && *final(self) == *old(self),
                Err(e) => e == StateError::Store && final(self)@ == (StateView {
                    stake: final(self)@.stake,
                    ..old(self)@
                }),
            },
    {
        // update miner stake
        let found = match self.stake.get(addr) {
            Ok(found) => found,
            Err(_) => {
                assert(self@ =~= (StateView { stake: self@.stake, ..old(self)@ }));
                return Err(StateError::Store);
            },
        };
        let stake = Self::leaving_stake(&Self::stake_or_zero(found), LEAVING_COEFF);
        if amount_lt(&stake, amount) {
            return Err(StateError::InsufficientStake);
        }
        match self.stake.set(addr, amount_sub(&stake, amount)) {
            Ok(()) => {},
            Err(_) => {
                assert(self@ =~= (StateView { stake: self@.stake, ..old(self)@ }));
                return Err(StateError::Store);
            },
        }
        self.debit(addr, amount);
        assert(self@ =~= old(self)@.rm_stake(*addr, atto(*amount)));
        Ok(())
    }
}

impl State {
    /// Whether the listed voters hold at least two thirds of the total
    /// stake: three times their stake is compared with twice the total.
    /// Fails where the stake table refuses the lookup of a voter, and
    /// nowhere else.
    pub fn has_majority_vote(&self, votes: &Votes) -> (r: Result<bool, StateError>)
        ensures
            r is Err <==> self.count_rejected(votes@),
            match r {
                Ok(b) => b == self@.has_majority(votes@),
                Err(e) => e == StateError::Store,
            },
    {
        let mut sum = amount_from_atto(0);
        let mut i: usize = 0;
        while i < votes.validators.len()
            invariant
                i <= votes.validators.len(),
                atto(sum) == votes_weight(self@.stake, votes@.take(i as int)),
                forall|j: int| 0 <= j < i ==> !get_rejects(self.stake, #[trigger] votes@[j]),
            decreases votes.validators.len() - i,
        {
            let found = match self.stake.get(&votes.validators[i]) {
                Ok(found) => found,
                Err(_) => {
                    return Err(StateError::Store);
                },
            };
            let stake = Self::stake_or_zero(found);
            proof {
                assert(votes@.take(i + 1).drop_last() =~= votes@.take(i as int));
            }
            sum = amount_add(&sum, &stake);
            i += 1;
        }
        assert(votes@.take(votes@.len() as int) =~= votes@);
        let weight = amount_add(&amount_add(&sum, &sum), &sum);
        let bar = amount_add(&self.total_stake, &self.total_stake);
        Ok(!amount_lt(&weight, &bar))
    }

    /// The content address of the checkpoint committed last before `epoch`,
    /// or the empty content address. Fails where the table of checkpoints
    /// refuses a lookup on the way, and nowhere else.
    pub fn prev_checkpoint_cid(&self, epoch: ChainEpoch) -> (r: Result<Cid, StateError>)
        ensures
            match r {
                Ok(c) => c@ == self@.prev_checkpoint_cid(epoch as int),
                Err(e) => e == StateError::Store,
            },
            r is Err <==> self.prev_rejected(epoch as int),
    {
        if self.check_period <= 0 {
            return Ok(Cid::default());
        }
        let mut e = epoch;
        while e >= self.check_period
            invariant
                self.check_period > 0,
                self@.prev_checkpoint_cid(e as int) == self@.prev_checkpoint_cid(epoch as int),
                self.prev_rejected(e as int) == self.prev_rejected(epoch as int),
            decreases e,
        {
            let prev = e - self.check_period;
            match self.checkpoints.get(prev) {
                Ok(Some(ch)) => {
                    return Ok(ch.cid());
                },
                Ok(None) => {
                    e = prev;
                },
                Err(_) => {
                    return Err(StateError::Store);
                },
            }
        }
        Ok(Cid::default())
    }

    /// Verifies a checkpoint that `caller` submits to the actor `receiver`.
    /// `signature_valid` says whether the checkpoint's signature over its
    /// content address holds under the caller's public key. Unless the table
    /// of checkpoints refuses a lookup, the checkpoint passes exactly where
    /// the state accepts it.
    pub fn verify_checkpoint(
        &self,
        ch: &Checkpoint,
        caller: &Address,
        receiver: &Address,
        signature_valid: bool,
    ) -> (r: Result<(), StateError>)
        ensures
            r is Ok <==> self.checkpoint_fault(ch@, *caller, *receiver, signature_valid) is None,
            r matches Err(e) ==> self.checkpoint_fault(ch@, *caller, *receiver, signature_valid)
                == Some(e),
            r is Ok ==> self@.accepts(ch@, *caller, *receiver, signature_valid),
    {
        // check that subnet is active
        if self.status != Status::Active {
            return Err(StateError::InvalidCheckpoint);
        }
        if self.check_period <= 0 {
            return Err(StateError::InvalidCheckpoint);
        }
        // check that a checkpoint for the epoch doesn't exist already
        match self.checkpoints.get(ch.epoch) {
            Ok(None) => {},
            Ok(Some(_)) => {
                return Err(StateError::InvalidCheckpoint);
            },
            Err(_) => {
                return Err(StateError::Store);
            },
        }
        // check that the epoch is correct
        if !is_multiple(ch.epoch, self.check_period) {
            return Err(StateError::InvalidCheckpoint);
        }
        // check the source is correct
        if !ch.source.same(&SubnetID::new(&self.parent_id, *receiver)) {
            return Err(StateError::InvalidCheckpoint);
        }
        // check previous checkpoint
        let prev = match self.prev_checkpoint_cid(ch.epoch) {
            Ok(prev) => prev,
            Err(_) => {
                return Err(StateError::Store);
            },
        };
        if !prev.same(&ch.prev_check) {
            return Err(StateError::InvalidCheckpoint);
        }
        // check signature
        if !signature_valid {
            return Err(StateError::InvalidCheckpoint);
        }
        // verify that signer is a validator
        if !self.is_validator(caller) {
            return Err(StateError::InvalidCheckpoint);
        }
        Ok(())
    }

    /// The votes that a checkpoint has: none where it has no row. Fails
    /// where the table of votes refuses the lookup, and nowhere else.
    pub fn votes_for(&self, cid: &Cid) -> (r: Result<Votes, StateError>)
        ensures
            match r {
                Ok(v) => v@ == self@.votes_for(cid@),
                Err(e) => e == StateError::Store,
            },
            r is Err <==> row_get_rejects(self.window_checks, cid@),
    {
        match self.window_checks.get(cid) {
            Ok(Some(votes)) => Ok(votes),
            Ok(None) => Ok(Votes::new()),
            Err(_) => Err(StateError::Store),
        }
    }

    /// Books the votes for a checkpoint, which include a new one: with a
    /// majority the checkpoint is committed and its votes are dropped,
    /// without one the votes are recorded. Fails where a table refuses, and
    /// nowhere else; then nothing but the two tables of the checkpoint
    /// protocol may differ.
    pub fn apply_vote(&mut self, ch: &Checkpoint, votes: Votes, majority: bool) -> (r: Result<
        (),
        StateError,
    >)
        ensures
            r is Err <==> old(self).booking_rejected(ch@, majority),
            match r {
                Ok(()) => final(self)@ == (if majority {
                    StateView {
                        checkpoints: old(self)@.checkpoints.insert(ch.epoch, ch@),
                        window_checks: old(self)@.window_checks.remove(ch.cid@),
                        ..old(self)@
                    }
                } else {
                    StateView {
                        window_checks: old(self)@.window_checks.insert(ch.cid@, votes@),
                        ..old(self)@
                    }
                }),
                Err(e) => e == StateError::Store,
            },
            final(self).as_but_checkpoints(*old(self)),
    {
        if majority {
            // commit checkpoint
            self.flush_checkpoint(ch)?;
            // remove votes used for commitment
            self.window_checks.delete(&ch.cid)?;
            assert(self@ =~= (StateView {
                checkpoints: old(self)@.checkpoints.insert(ch.epoch, ch@),
                window_checks: old(self)@.window_checks.remove(ch.cid@),
                ..old(self)@
            }));
        } else {
            // if no majority store vote and return
            self.window_checks.set(&ch.cid, votes)?;
            assert(self@ =~= (StateView {
                window_checks: old(self)@.window_checks.insert(ch.cid@, votes@),
                ..old(self)@
            }));
        }
        Ok(())
    }

    /// Commits a checkpoint for its epoch. Fails where the table of
    /// checkpoints refuses the write, and nowhere else; then nothing but
    /// that table may differ.
    pub fn flush_checkpoint(&mut self, ch: &Checkpoint) -> (r: Result<(), StateError>)
        ensures
            r is Err <==> commit_rejects(old(self).checkpoints, ch.epoch),
            match r {
                Ok(()) => final(self)@ == (StateView {
                    checkpoints: old(self)@.checkpoints.insert(ch.epoch, ch@),
                    ..old(self)@
                }),
                Err(e) => e == StateError::Store,
            },
            *final(self) == (State { checkpoints: final(self).checkpoints, ..*old(self) }),
    {
        self.checkpoints.insert(ch.copy())?;
        assert(self@ =~= (StateView {
            checkpoints: old(self)@.checkpoints.insert(ch.epoch, ch@),
            ..old(self)@
        }));
        Ok(())
    }
}

impl Default for State {
    /// The state of a subnet of the root network under delegated consensus,
    /// with the least collateral and the default checkpoint period.
    fn default() -> (st: State)
        ensures
            st@.name == Seq::<char>::empty(),
            st@.parent_id == Seq::<Address>::empty(),
            st@.ipc_gateway_addr == (Address { id: 0 }),
            st@.consensus == ConsensusType::Delegated,
            st@.min_validator_stake == MIN_COLLATERAL_AMOUNT,
            st@.total_stake == 0,
            st@.stake == Map::<Address, int>::empty(),
            st@.status == Status::Instantiated,
            st@.genesis == Seq::<u8>::empty(),
            st@.finality_threshold == 5,
            st@.check_period == 10,
            st@.checkpoints == Map::<ChainEpoch, CheckpointView>::empty(),
            st@.window_checks == Map::<Seq<u8>, Seq<Address>>::empty(),
            st@.validator_set == Seq::<ValidatorView>::empty(),
            st@.min_validators == 0,
            st.tables_accept_all(),
    {
        let st = State {
            name: String::new(),
            parent_id: SubnetID::default(),
            ipc_gateway_addr: Address::new_id(0),
            consensus: ConsensusType::Delegated,
            min_validator_stake: amount_from_atto(MIN_COLLATERAL_AMOUNT),
            total_stake: amount_from_atto(0),
            finality_threshold: 5,
            check_period: 10,
            genesis: Vec::new(),
            status: Status::Instantiated,
            checkpoints: Checkpoints::new(),
            stake: StakeTable::new(),
            window_checks: WindowChecks::new(),
            validator_set: Vec::new(),
            min_validators: 0,
        };
        assert(st@.validator_set =~= Seq::<ValidatorView>::empty());
        st
    }
}

} // verus!
