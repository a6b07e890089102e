//! The value types of the subnet actor: addresses, subnet identifiers, content
//! identifiers, the enumerations of consensus kind and subnet status, and the
//! parameters of the actor's methods.

use fvm_shared::econ::TokenAmount;
use vstd::prelude::*;

use crate::amount::atto;

verus! {

/// A count of protocol blocks.
pub type ChainEpoch = i64;

/// The number by which the host knows an actor.
pub type ActorID = u64;

/// The number of a method of an actor.
pub type MethodNum = u64;

/// Coefficient by which the stake of a leaving validator is divided before it
/// is released: a hook for penalties, which are not charged for now.
pub const LEAVING_COEFF: u64 = 1;

/// The ID that stands for the init actor where the actor is tried out.
pub const TESTING_ID: u64 = 339;

/// The collateral, in indivisible units, below which a subnet is not active.
pub const MIN_COLLATERAL_AMOUNT: u64 = 1_000_000_000_000_000_000;

/// The checkpoint period that a subnet gets when it asks for a shorter one.
pub const DEFAULT_CHECKPOINT_PERIOD: ChainEpoch = 10;

/// The shortest checkpoint period.
pub const MIN_CHECKPOINT_PERIOD: ChainEpoch = 10;

/// The identity of an actor, in its resolved form: the actor's ID.
#[derive(Clone, Copy, Debug, PartialEq, Eq, Hash, Structural)]
pub struct Address {
    pub id: ActorID,
}

impl Address {
    /// The address of the actor with the given ID.
    pub fn new_id(id: ActorID) -> (a: Address)
        ensures
            a == (Address { id }),
    {
        Address { id }
    }

    /// The ID of the actor.
    pub fn id(&self) -> (id: ActorID)
        ensures
            id == self.id,
    {
        self.id
    }
}

/// Whether two byte strings hold the same bytes.
pub fn bytes_equal(a: &Vec<u8>, b: &Vec<u8>) -> (r: bool)
    ensures
        r == (a@ == b@),
{
    if a.len() != b.len() {
        return false;
    }
    let mut i: usize = 0;
    while i < a.len()
        invariant
            a.len() == b.len(),
            i <= a.len(),
            forall|j: int| 0 <= j < i ==> a@[j] == b@[j],
        decreases a.len() - i,
    {
        if a[i] != b[i] {
            return false;
        }
        i += 1;
    }
    assert(a@ =~= b@);
    true
}

/// A copy of a byte string.
pub fn copy_bytes(a: &Vec<u8>) -> (r: Vec<u8>)
    ensures
        r@ == a@,
{
    let mut r: Vec<u8> = Vec::new();
    let mut i: usize = 0;
    while i < a.len()
        invariant
            i <= a.len(),
            r@ == a@.subrange(0, i as int),
        decreases a.len() - i,
    {
        r.push(a[i]);
        assert(r@ =~= a@.subrange(0, i + 1));
        i += 1;
    }
    assert(a@.subrange(0, a.len() as int) =~= a@);
    r
}

/// The content address of a block, as its bytes.
#[derive(Clone, Debug, PartialEq, Eq, Hash)]
pub struct Cid {
    pub bytes: Vec<u8>,
}

impl View for Cid {
    type V = Seq<u8>;

    open spec fn view(&self) -> Seq<u8> {
        self.bytes@
    }
}

impl Cid {
    /// The bytes of the empty content address, which stands for "no block":
    /// version one, codec zero, and an identity hash of no bytes.
    pub open spec fn empty() -> Seq<u8> {
        seq![1u8, 0u8, 0u8, 0u8]
    }

    /// The content address with the given bytes.
    pub fn new(bytes: Vec<u8>) -> (c: Cid)
        ensures
            c@ == bytes@,
    {
        Cid { bytes }
    }

    /// The bytes of the content address.
    pub fn to_bytes(&self) -> (b: Vec<u8>)
        ensures
            b@ == self@,
    {
        copy_bytes(&self.bytes)
    }

    /// Whether two content addresses are the same.
    pub fn same(&self, other: &Cid) -> (r: bool)
        ensures
            r == (self@ == other@),
    {
        bytes_equal(&self.bytes, &other.bytes)
    }

    /// A copy of the content address.
    pub fn copy(&self) -> (c: Cid)
        ensures
            c@ == self@,
    {
        Cid { bytes: copy_bytes(&self.bytes) }
    }
}

impl Default for Cid {
    /// The empty content address.
    fn default() -> (c: Cid)
        ensures
            c@ == Cid::empty(),
    {
        let mut bytes: Vec<u8> = Vec::new();
        bytes.push(1);
        bytes.push(0);
        bytes.push(0);
        bytes.push(0);
        assert(bytes@ =~= Cid::empty());
        Cid { bytes }
    }
}

/// The identifier of a subnet: the path of subnet actors that leads to it from
/// the root network. The root network has the empty path.
#[derive(Clone, Debug, PartialEq, Eq, Hash)]
pub struct SubnetID {
    pub route: Vec<Address>,
}

impl View for SubnetID {
    type V = Seq<Address>;

    open spec fn view(&self) -> Seq<Address> {
        self.route@
    }
}

impl SubnetID {
    /// The identifier of the subnet that the actor `subnet_act` governs in `parent`.
    pub fn new(parent: &SubnetID, subnet_act: Address) -> (id: SubnetID)
        ensures
            id@ == parent@.push(subnet_act),
    {
        let mut route = parent.copy().route;
        route.push(subnet_act);
        SubnetID { route }
    }

    /// Whether two identifiers name the same subnet.
    pub fn same(&self, other: &SubnetID) -> (r: bool)
        ensures
            r == (self@ == other@),
    {
        if self.route.len() != other.route.len() {
            return false;
        }
        let mut i: usize = 0;
        while i < self.route.len()
            invariant
                self.route.len() == other.route.len(),
                i <= self.route.len(),
                forall|j: int| 0 <= j < i ==> self.route@[j] == other.route@[j],
            decreases self.route.len() - i,
        {
            if self.route[i] != other.route[i] {
                return false;
            }
            i += 1;
        }
        assert(self@ =~= other@);
        true
    }

    /// A copy of the identifier.
    pub fn copy(&self) -> (id: SubnetID)
        ensures
            id@ == self@,
    {
        let mut route: Vec<Address> = Vec::new();
        let mut i: usize = 0;
        while i < self.route.len()
            invariant
                i <= self.route.len(),
                route@ == self.route@.subrange(0, i as int),
            decreases self.route.len() - i,
        {
            route.push(self.route[i]);
            assert(route@ =~= self.route@.subrange(0, i + 1));
            i += 1;
        }
        assert(self.route@.subrange(0, self.route.len() as int) =~= self.route@);
        SubnetID { route }
    }
}

impl Default for SubnetID {
    /// The identifier of the root network.
    fn default() -> (id: SubnetID)
        ensures
            id@ == Seq::<Address>::empty(),
    {
        SubnetID { route: Vec::new() }
    }
}

/// A validator of the subnet: its address, and where its node can be reached.
#[derive(Clone, Debug, PartialEq)]
pub struct Validator {
    pub addr: Address,
    pub net_addr: String,
}

/// What a validator is to the contracts.
pub struct ValidatorView {
    pub addr: Address,
    pub net_addr: Seq<char>,
}

impl View for Validator {
    type V = ValidatorView;

    open spec fn view(&self) -> ValidatorView {
        ValidatorView { addr: self.addr, net_addr: self.net_addr@ }
    }
}

/// The validators that have voted for one checkpoint, in the order of their votes.
#[derive(Clone, Debug, PartialEq)]
pub struct Votes {
    pub validators: Vec<Address>,
}

impl View for Votes {
    type V = Seq<Address>;

    open spec fn view(&self) -> Seq<Address> {
        self.validators@
    }
}

impl Votes {
    /// The list without votes.
    pub fn new() -> (v: Votes)
        ensures
            v@ == Seq::<Address>::empty(),
    {
        Votes { validators: Vec::new() }
    }

    /// Whether the address has voted.
    pub fn contains(&self, addr: &Address) -> (r: bool)
        ensures
            r == self@.contains(*addr),
    {
        let mut i: usize = 0;
        while i < self.validators.len()
            invariant
                i <= self.validators.len(),
                forall|j: int| 0 <= j < i ==> self.validators@[j] != *addr,
            decreases self.validators.len() - i,
        {
            if self.validators[i] == *addr {
                return true;
            }
            i += 1;
        }
        false
    }

    /// A copy of the list.
    pub fn copy(&self) -> (v: Votes)
        ensures
            v@ == self@,
    {
        let mut validators: Vec<Address> = Vec::new();
        let mut i: usize = 0;
        while i < self.validators.len()
            invariant
                i <= self.validators.len(),
                validators@ == self.validators@.subrange(0, i as int),
            decreases self.validators.len() - i,
        {
            validators.push(self.validators[i]);
            assert(validators@ =~= self.validators@.subrange(0, i + 1));
            i += 1;
        }
        assert(self.validators@.subrange(0, self.validators.len() as int) =~= self.validators@);
        Votes { validators }
    }

    /// Adds the vote of an address after those cast before.
    pub fn push(&mut self, addr: Address)
        ensures
            final(self)@ == old(self)@.push(addr),
    {
        self.validators.push(addr);
    }
}

/// Consensus types supported by hierarchical consensus.
#[derive(PartialEq, Eq, Clone, Copy, Debug, Structural)]
pub enum ConsensusType {
    Delegated,
    PoW,
    Tendermint,
    Mir,
    FilecoinEC,
    Dummy,
}

impl ConsensusType {
    /// The number that stands for the consensus type on the wire.
    pub open spec fn ordinal(self) -> u64 {
        match self {
            ConsensusType::Delegated => 0,
            ConsensusType::PoW => 1,
            ConsensusType::Tendermint => 2,
            ConsensusType::Mir => 3,
            ConsensusType::FilecoinEC => 4,
            ConsensusType::Dummy => 5,
        }
    }

    /// The consensus type that a number stands for on the wire, if there is one.
    pub open spec fn of_ordinal(n: u64) -> Option<ConsensusType> {
        if n == 0 {
            Some(ConsensusType::Delegated)
        } else if n == 1 {
            Some(ConsensusType::PoW)
        } else if n == 2 {
            Some(ConsensusType::Tendermint)
        } else if n == 3 {
            Some(ConsensusType::Mir)
        } else if n == 4 {
            Some(ConsensusType::FilecoinEC)
        } else if n == 5 {
            Some(ConsensusType::Dummy)
        } else {
            None
        }
    }

    /// The number that stands for the consensus type on the wire. The number
    /// stands for no other consensus type.
    pub fn to_u64(self) -> (n: u64)
        ensures
            n == self.ordinal(),
            ConsensusType::of_ordinal(n) == Some(self),
    {
        match self {
            ConsensusType::Delegated => 0,
            ConsensusType::PoW => 1,
            ConsensusType::Tendermint => 2,
            ConsensusType::Mir => 3,
            ConsensusType::FilecoinEC => 4,
            ConsensusType::Dummy => 5,
        }
    }

    /// The consensus type that a number stands for, if there is one.
    pub fn from_u64(n: u64) -> (r: Option<ConsensusType>)
        ensures
            r == ConsensusType::of_ordinal(n),
            match r {
                Some(c) => c.ordinal() == n,
                None => n > 5,
            },
    {
        if n == 0 {
            Some(ConsensusType::Delegated)
        } else if n == 1 {
            Some(ConsensusType::PoW)
        } else if n == 2 {
            Some(ConsensusType::Tendermint)
        } else if n == 3 {
            Some(ConsensusType::Mir)
        } else if n == 4 {
            Some(ConsensusType::FilecoinEC)
        } else if n == 5 {
            Some(ConsensusType::Dummy)
        } else {
            None
        }
    }
}

/// The stages of a subnet's life.
#[derive(PartialEq, Eq, Clone, Copy, Debug, Structural)]
pub enum Status {
    Instantiated,
    Active,
    Inactive,
    Terminating,
    Killed,
}

impl Status {
    /// The number that stands for the status on the wire.
    pub open spec fn ordinal(self) -> i32 {
        match self {
            Status::Instantiated => 0,
            Status::Active => 1,
            Status::Inactive => 2,
            Status::Terminating => 3,
            Status::Killed => 4,
        }
    }

    /// The status that a number stands for on the wire, if there is one.
    pub open spec fn of_ordinal(n: i32) -> Option<Status> {
        if n == 0 {
            Some(Status::Instantiated)
        } else if n == 1 {
            Some(Status::Active)
        } else if n == 2 {
            Some(Status::Inactive)
        } else if n == 3 {
            Some(Status::Terminating)
        } else if n == 4 {
            Some(Status::Killed)
        } else {
            None
        }
    }

    /// The number that stands for the status on the wire. The number stands
    /// for no other status.
    pub fn to_i32(self) -> (n: i32)
        ensures
            n == self.ordinal(),
            Status::of_ordinal(n) == Some(self),
    {
        match self {
            Status::Instantiated => 0,
            Status::Active => 1,
            Status::Inactive => 2,
            Status::Terminating => 3,
            Status::Killed => 4,
        }
    }

    /// The status that a number stands for, if there is one.
    pub fn from_i32(n: i32) -> (r: Option<Status>)
        ensures
            r == Status::of_ordinal(n),
            match r {
                Some(s) => s.ordinal() == n,
                None => n < 0 || n > 4,
            },
    {
        if n == 0 {
            Some(Status::Instantiated)
        } else if n == 1 {
            Some(Status::Active)
        } else if n == 2 {
            Some(Status::Inactive)
        } else if n == 3 {
            Some(Status::Terminating)
        } else if n == 4 {
            Some(Status::Killed)
        } else {
            None
        }
    }
}

/// The parameters from which a subnet actor is constructed.
#[derive(Clone, Debug, PartialEq)]
pub struct ConstructParams {
    pub parent: SubnetID,
    pub name: String,
    pub ipc_gateway_addr: u64,
    pub consensus: ConsensusType,
    pub min_validator_stake: TokenAmount,
    pub min_validators: u64,
    pub finality_threshold: ChainEpoch,
    pub check_period: ChainEpoch,
    // genesis is not generated by the actor: it is accepted as a parameter
    pub genesis: Vec<u8>,
}

/// What the construction parameters are to the contracts.
pub struct ConstructParamsView {
    pub parent: Seq<Address>,
    pub name: Seq<char>,
    pub ipc_gateway_addr: u64,
    pub consensus: ConsensusType,
    pub min_validator_stake: int,
    pub min_validators: u64,
    pub finality_threshold: ChainEpoch,
    pub check_period: ChainEpoch,
    pub genesis: Seq<u8>,
}

impl View for ConstructParams {
    type V = ConstructParamsView;

    open spec fn view(&self) -> ConstructParamsView {
        ConstructParamsView {
            parent: self.parent@,
            name: self.name@,
            ipc_gateway_addr: self.ipc_gateway_addr,
            consensus: self.consensus,
            min_validator_stake: atto(self.min_validator_stake),
            min_validators: self.min_validators,
            finality_threshold: self.finality_threshold,
            check_period: self.check_period,
            genesis: self.genesis@,
        }
    }
}

/// The parameters of a call to join the subnet.
#[derive(Clone, Debug, PartialEq)]
pub struct JoinParams {
    pub validator_net_addr: String,
}

/// A signed commitment of the subnet's state at an epoch, for the parent chain.
///
/// `cid` is the content address of the unsigned portion, which the host
/// computes when it decodes the checkpoint; `payload` is the rest of that
/// portion, which this library carries and does not read.
#[derive(Clone, Debug, PartialEq)]
pub struct Checkpoint {
    pub source: SubnetID,
    pub epoch: ChainEpoch,
    pub prev_check: Cid,
    pub payload: Vec<u8>,
    pub cid: Cid,
    pub signature: Vec<u8>,
}

/// What a checkpoint is to the contracts.
pub struct CheckpointView {
    pub source: Seq<Address>,
    pub epoch: ChainEpoch,
    pub prev_check: Seq<u8>,
    pub payload: Seq<u8>,
    pub cid: Seq<u8>,
    pub signature: Seq<u8>,
}

impl View for Checkpoint {
    type V = CheckpointView;

    open spec fn view(&self) -> CheckpointView {
        CheckpointView {
            source: self.source@,
            epoch: self.epoch,
            prev_check: self.prev_check@,
            payload: self.payload@,
            cid: self.cid@,
            signature: self.signature@,
        }
    }
}

impl Checkpoint {
    /// The epoch that the checkpoint commits.
    pub fn epoch(&self) -> (e: ChainEpoch)
        ensures
            e == self.epoch,
    {
        self.epoch
    }

    /// The content address of the checkpoint.
    pub fn cid(&self) -> (c: Cid)
        ensures
            c@ == self.cid@,
    {
        self.cid.copy()
    }

    /// Whether two checkpoints are the same.
    pub fn same(&self, other: &Checkpoint) -> (r: bool)
        ensures
            r == (self@ == other@),
    {
        self.source.same(&other.source) && self.epoch == other.epoch && self.prev_check.same(
            &other.prev_check,
        ) && bytes_equal(&self.payload, &other.payload) && self.cid.same(&other.cid)
            && bytes_equal(&self.signature, &other.signature)
    }

    /// A copy of the checkpoint.
    pub fn copy(&self) -> (c: Checkpoint)
        ensures
            c@ == self@,
    {
        Checkpoint {
            source: self.source.copy(),
            epoch: self.epoch,
            prev_check: self.prev_check.copy(),
            payload: copy_bytes(&self.payload),
            cid: self.cid.copy(),
            signature: copy_bytes(&self.signature),
        }
    }
}

} // verus!
