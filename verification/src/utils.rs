//! The messages that the actor has the host send to other actors.

use fvm_shared::econ::TokenAmount;
use vstd::prelude::*;

use crate::amount::{amount_lt, atto};
use crate::types::{Address, Checkpoint, CheckpointView, MethodNum};

verus! {

/// The parameters that go with a message. The host encodes them when it
/// sends the message.
#[derive(Clone, Debug, PartialEq)]
pub enum SendParams {
    /// No parameters.
    Empty,
    /// An amount of funds, for the coordinator to release.
    Fund { value: TokenAmount },
    /// A checkpoint, for the coordinator to commit.
    Checkpoint(Checkpoint),
}

/// What the parameters of a message are to the contracts.
pub enum SendParamsView {
    Empty,
    Fund { value: int },
    Checkpoint(CheckpointView),
}

impl View for SendParams {
    type V = SendParamsView;

    open spec fn view(&self) -> SendParamsView {
        match self {
            SendParams::Empty => SendParamsView::Empty,
            SendParams::Fund { value } => SendParamsView::Fund { value: atto(*value) },
            SendParams::Checkpoint(ch) => SendParamsView::Checkpoint(ch@),
        }
    }
}

/// What a message is to the contracts.
pub struct SendView {
    pub to: Address,
    pub method: MethodNum,
    pub params: SendParamsView,
    pub value: int,
}

/// A message that a test expects the actor to send.
#[derive(Clone, Debug)]
pub struct ExpectedSend {
    pub to: Address,
    pub method: MethodNum,
    pub params: SendParams,
    pub value: TokenAmount,
}

impl View for ExpectedSend {
    type V = SendView;

    open spec fn view(&self) -> SendView {
        SendView { to: self.to, method: self.method, params: self.params@, value: atto(self.value) }
    }
}

/// A message for the host to send to another actor, once the call that
/// produced it has gone through.
#[derive(Clone, Debug)]
pub struct CrossActorPayload {
    pub to: Address,
    pub method: MethodNum,
    pub params: SendParams,
    pub value: TokenAmount,
}

impl View for CrossActorPayload {
    type V = SendView;

    open spec fn view(&self) -> SendView {
        SendView { to: self.to, method: self.method, params: self.params@, value: atto(self.value) }
    }
}

/// The messages of a list, as the contracts see them.
pub open spec fn send_views(msgs: Seq<CrossActorPayload>) -> Seq<SendView> {
    msgs.map_values(|m: CrossActorPayload| m@)
}

/// Whether two amounts are of the same number of units.
pub fn same_amount(a: &TokenAmount, b: &TokenAmount) -> (r: bool)
    ensures
        r == (atto(*a) == atto(*b)),
{
    !amount_lt(a, b) && !amount_lt(b, a)
}

impl SendParams {
    /// Whether two sets of parameters are the same.
    pub fn same(&self, other: &SendParams) -> (r: bool)
        ensures
            r == (self@ == other@),
    {
        match (self, other) {
            (SendParams::Empty, SendParams::Empty) => true,
            (SendParams::Fund { value: a }, SendParams::Fund { value: b }) => same_amount(a, b),
            (SendParams::Checkpoint(a), SendParams::Checkpoint(b)) => a.same(b),
            _ => false,
        }
    }
}

impl CrossActorPayload {
    pub fn new(to: Address, method: MethodNum, params: SendParams, value: TokenAmount) -> (p: Self)
        ensures
            p@ == (SendView { to, method, params: params@, value: atto(value) }),
    {
        Self { to, method, params, value }
    }
}

impl ExpectedSend {
    /// Whether a message is the expected one.
    pub fn matches(&self, msg: &CrossActorPayload) -> (r: bool)
        ensures
            r == (self@ == msg@),
    {
        self.to == msg.to && self.method == msg.method && self.params.same(&msg.params)
            && same_amount(&self.value, &msg.value)
    }
}

} // verus!
