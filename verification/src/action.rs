//! Actions of a trace: a call, a contract creation, a self-destruction or a
//! reward, in both schemas, and the conversions between them.
use vstd::prelude::*;
use crate::convert::{ToEthers, ToReth};
use crate::primitives::{Address, Bytes, U256};

verus! {

// ----- ethers schema -----

/// The kind of a call (`ethers`). `Unset` is the call type of actions that
/// are not calls.
#[derive(Clone, Copy, Debug, PartialEq, Eq)]
pub enum EthersCallType {
    Unset,
    Call,
    CallCode,
    DelegateCall,
    StaticCall,
}

/// The kind of a reward (`ethers`).
#[derive(Clone, Copy, Debug, PartialEq, Eq)]
pub enum EthersRewardType {
    Block,
    Uncle,
    EmptyStep,
    External,
}

/// The kind of an action (`ethers`), carried beside the action in a trace.
#[derive(Clone, Copy, Debug, PartialEq, Eq)]
pub enum EthersActionType {
    Call,
    Create,
    Suicide,
    Reward,
}

/// A call (`ethers`).
#[derive(Clone, Debug, PartialEq, Eq)]
pub struct EthersCall {
    pub from: Address,
    pub to: Address,
    pub value: U256,
    pub gas: U256,
    pub input: Bytes,
    pub call_type: EthersCallType,
}

/// A contract creation (`ethers`).
#[derive(Clone, Debug, PartialEq, Eq)]
pub struct EthersCreate {
    pub from: Address,
    pub value: U256,
    pub gas: U256,
    pub init: Bytes,
}

/// A self-destruction (`ethers`).
#[derive(Clone, Copy, Debug, PartialEq, Eq)]
pub struct EthersSuicide {
    pub address: Address,
    pub refund_address: Address,
    pub balance: U256,
}

/// A reward (`ethers`).
#[derive(Clone, Copy, Debug, PartialEq, Eq)]
pub struct EthersReward {
    pub author: Address,
    pub value: U256,
    pub reward_type: EthersRewardType,
}

/// An action (`ethers`).
#[derive(Clone, Debug, PartialEq, Eq)]
pub enum EthersAction {
    Call(EthersCall),
    Create(EthersCreate),
    Suicide(EthersSuicide),
    Reward(EthersReward),
}

/// The view of an [`EthersCall`].
pub struct SpecEthersCall {
    pub from: Address,
    pub to: Address,
    pub value: U256,
    pub gas: U256,
    pub input: Seq<u8>,
    pub call_type: EthersCallType,
}

/// The view of an [`EthersCreate`].
pub struct SpecEthersCreate {
    pub from: Address,
    pub value: U256,
    pub gas: U256,
    pub init: Seq<u8>,
}

/// The view of an [`EthersAction`].
pub enum SpecEthersAction {
    Call(SpecEthersCall),
    Create(SpecEthersCreate),
    Suicide(EthersSuicide),
    Reward(EthersReward),
}

// ----- reth schema -----

/// The kind of a call (`reth`).
#[derive(Clone, Copy, Debug, PartialEq, Eq)]
pub enum CallType {
    Unset,
    Call,
    CallCode,
    DelegateCall,
    StaticCall,
}

/// The kind of a reward (`reth`).
#[derive(Clone, Copy, Debug, PartialEq, Eq)]
pub enum RewardType {
    Block,
    Uncle,
}

/// A call (`reth`).
#[derive(Clone, Debug, PartialEq, Eq)]
pub struct CallAction {
    pub from: Address,
    pub to: Address,
    pub value: U256,
    pub gas: U256,
    pub input: Bytes,
    pub call_type: CallType,
}

/// A contract creation (`reth`).
#[derive(Clone, Debug, PartialEq, Eq)]
pub struct CreateAction {
    pub from: Address,
    pub value: U256,
    pub gas: U256,
    pub init: Bytes,
}

/// A self-destruction (`reth`).
#[derive(Clone, Copy, Debug, PartialEq, Eq)]
pub struct SelfdestructAction {
    pub address: Address,
    pub refund_address: Address,
    pub balance: U256,
}

/// A reward (`reth`).
#[derive(Clone, Copy, Debug, PartialEq, Eq)]
pub struct RewardAction {
    pub author: Address,
    pub value: U256,
    pub reward_type: RewardType,
}

/// An action (`reth`).
#[derive(Clone, Debug, PartialEq, Eq)]
pub enum Action {
    Call(CallAction),
    Create(CreateAction),
    Selfdestruct(SelfdestructAction),
    Reward(RewardAction),
}

/// The view of a [`CallAction`].
pub struct SpecCallAction {
    pub from: Address,
    pub to: Address,
    pub value: U256,
    pub gas: U256,
    pub input: Seq<u8>,
    pub call_type: CallType,
}

/// The view of a [`CreateAction`].
pub struct SpecCreateAction {
    pub from: Address,
    pub value: U256,
    pub gas: U256,
    pub init: Seq<u8>,
}

/// The view of an [`Action`].
pub enum SpecAction {
    Call(SpecCallAction),
    Create(SpecCreateAction),
    Selfdestruct(SelfdestructAction),
    Reward(RewardAction),
}

// ----- views -----

impl View for EthersCallType {
    type V = EthersCallType;

    open spec fn view(&self) -> EthersCallType {
        *self
    }
}

impl View for EthersActionType {
    type V = EthersActionType;

    open spec fn view(&self) -> EthersActionType {
        *self
    }
}

impl View for CallType {
    type V = CallType;

    open spec fn view(&self) -> CallType {
        *self
    }
}

impl View for EthersAction {
    type V = SpecEthersAction;

    open spec fn view(&self) -> SpecEthersAction {
        match self {
            EthersAction::Call(c) => SpecEthersAction::Call(
                SpecEthersCall {
                    from: c.from,
                    to: c.to,
                    value: c.value,
                    gas: c.gas,
                    input: c.input@,
                    call_type: c.call_type,
                },
            ),
            EthersAction::Create(c) => SpecEthersAction::Create(
                SpecEthersCreate { from: c.from, value: c.value, gas: c.gas, init: c.init@ },
            ),
            EthersAction::Suicide(s) => SpecEthersAction::Suicide(*s),
            EthersAction::Reward(r) => SpecEthersAction::Reward(*r),
        }
    }
}

impl View for Action {
    type V = SpecAction;

    open spec fn view(&self) -> SpecAction {
        match self {
            Action::Call(c) => SpecAction::Call(
                SpecCallAction {
                    from: c.from,
                    to: c.to,
                    value: c.value,
                    gas: c.gas,
                    input: c.input@,
                    call_type: c.call_type,
                },
            ),
            Action::Create(c) => SpecAction::Create(
                SpecCreateAction { from: c.from, value: c.value, gas: c.gas, init: c.init@ },
            ),
            Action::Selfdestruct(s) => SpecAction::Selfdestruct(*s),
            Action::Reward(r) => SpecAction::Reward(*r),
        }
    }
}

// ----- specifications -----

/// The call type of `reth` that has the same name.
pub open spec fn call_type_to_reth(t: EthersCallType) -> CallType {
    match t {
        EthersCallType::Unset => CallType::Unset,
        EthersCallType::Call => CallType::Call,
        EthersCallType::CallCode => CallType::CallCode,
        EthersCallType::DelegateCall => CallType::DelegateCall,
        EthersCallType::StaticCall => CallType::StaticCall,
    }
}

/// The call type of `ethers` that has the same name.
pub open spec fn call_type_to_ethers(t: CallType) -> EthersCallType {
    match t {
        CallType::Unset => EthersCallType::Unset,
        CallType::Call => EthersCallType::Call,
        CallType::CallCode => EthersCallType::CallCode,
        CallType::DelegateCall => EthersCallType::DelegateCall,
        CallType::StaticCall => EthersCallType::StaticCall,
    }
}

/// `reth` knows only block and uncle rewards: an uncle reward stays one, every
/// other kind becomes a block reward.
pub open spec fn reward_type_to_reth(t: EthersRewardType) -> RewardType {
    match t {
        EthersRewardType::Uncle => RewardType::Uncle,
        _ => RewardType::Block,
    }
}

/// The reward type of `ethers` that has the same name.
pub open spec fn reward_type_to_ethers(t: RewardType) -> EthersRewardType {
    match t {
        RewardType::Block => EthersRewardType::Block,
        RewardType::Uncle => EthersRewardType::Uncle,
    }
}

/// The `reth` action with the same addresses, amounts and data; a suicide
/// becomes a self-destruction.
pub open spec fn action_to_reth(a: SpecEthersAction) -> SpecAction {
    match a {
        SpecEthersAction::Call(c) => SpecAction::Call(
            SpecCallAction {
                from: c.from,
                to: c.to,
                value: c.value,
                gas: c.gas,
                input: c.input,
                call_type: call_type_to_reth(c.call_type),
            },
        ),
        SpecEthersAction::Create(c) => SpecAction::Create(
            SpecCreateAction { from: c.from, value: c.value, gas: c.gas, init: c.init },
        ),
        SpecEthersAction::Suicide(s) => SpecAction::Selfdestruct(
            SelfdestructAction {
                address: s.address,
                refund_address: s.refund_address,
                balance: s.balance,
            },
        ),
        SpecEthersAction::Reward(r) => SpecAction::Reward(
            RewardAction {
                author: r.author,
                value: r.value,
                reward_type: reward_type_to_reth(r.reward_type),
            },
        ),
    }
}

/// The `ethers` action with the same addresses, amounts and data; a
/// self-destruction becomes a suicide.
pub open spec fn action_to_ethers(a: SpecAction) -> SpecEthersAction {
    match a {
        SpecAction::Call(c) => SpecEthersAction::Call(
            SpecEthersCall {
                from: c.from,
                to: c.to,
                value: c.value,
                gas: c.gas,
                input: c.input,
                call_type: call_type_to_ethers(c.call_type),
            },
        ),
        SpecAction::Create(c) => SpecEthersAction::Create(
            SpecEthersCreate { from: c.from, value: c.value, gas: c.gas, init: c.init },
        ),
        SpecAction::Selfdestruct(s) => SpecEthersAction::Suicide(
            EthersSuicide {
                address: s.address,
                refund_address: s.refund_address,
                balance: s.balance,
            },
        ),
        SpecAction::Reward(r) => SpecEthersAction::Reward(
            EthersReward {
                author: r.author,
                value: r.value,
                reward_type: reward_type_to_ethers(r.reward_type),
            },
        ),
    }
}

/// The kind of an `ethers` action.
pub open spec fn action_type_of(a: SpecEthersAction) -> EthersActionType {
    match a {
        SpecEthersAction::Call(_) => EthersActionType::Call,
        SpecEthersAction::Create(_) => EthersActionType::Create,
        SpecEthersAction::Suicide(_) => EthersActionType::Suicide,
        SpecEthersAction::Reward(_) => EthersActionType::Reward,
    }
}

/// An `ethers` action that `reth` can represent: anything but a reward of a
/// kind other than block or uncle.
pub open spec fn action_representable(a: SpecEthersAction) -> bool {
    match a {
        SpecEthersAction::Reward(r) => r.reward_type == EthersRewardType::Block
            || r.reward_type == EthersRewardType::Uncle,
        _ => true,
    }
}

// ----- conversions -----

/// CallType (ethers) -> (reth)
impl ToReth<CallType> for EthersCallType {
    open spec fn into_reth_defined(v: EthersCallType) -> bool {
        true
    }

    open spec fn spec_into_reth(v: EthersCallType) -> CallType {
        call_type_to_reth(v)
    }

    fn into_reth(self) -> (r: CallType) {
        match self {
            EthersCallType::Unset => CallType::Unset,
            EthersCallType::Call => CallType::Call,
            EthersCallType::CallCode => CallType::CallCode,
            EthersCallType::DelegateCall => CallType::DelegateCall,
            EthersCallType::StaticCall => CallType::StaticCall,
        }
    }
}

/// CallType (reth) -> (ethers)
impl ToEthers<EthersCallType> for CallType {
    open spec fn into_ethers_defined(v: CallType) -> bool {
        true
    }

    open spec fn spec_into_ethers(v: CallType) -> EthersCallType {
        call_type_to_ethers(v)
    }

    fn into_ethers(self) -> (r: EthersCallType) {
        match self {
            CallType::Unset => EthersCallType::Unset,
            CallType::Call => EthersCallType::Call,
            CallType::CallCode => EthersCallType::CallCode,
            CallType::DelegateCall => EthersCallType::DelegateCall,
            CallType::StaticCall => EthersCallType::StaticCall,
        }
    }
}

/// Action (ethers) -> (reth)
impl ToReth<Action> for EthersAction {
    open spec fn into_reth_defined(v: SpecEthersAction) -> bool {
        true
    }

    open spec fn spec_into_reth(v: SpecEthersAction) -> SpecAction {
        action_to_reth(v)
    }

    fn into_reth(self) -> (r: Action) {
        match self {
            EthersAction::Call(a) => Action::Call(
                CallAction {
                    from: a.from,
                    to: a.to,
                    value: a.value,
                    gas: a.gas,
                    input: a.input,
                    call_type: a.call_type.into_reth(),
                },
            ),
            EthersAction::Create(a) => Action::Create(
                CreateAction { from: a.from, value: a.value, gas: a.gas, init: a.init },
            ),
            EthersAction::Suicide(a) => Action::Selfdestruct(
                SelfdestructAction {
                    address: a.address,
                    refund_address: a.refund_address,
                    balance: a.balance,
                },
            ),
            EthersAction::Reward(a) => Action::Reward(
                RewardAction {
                    author: a.author,
                    value: a.value,
                    reward_type: match a.reward_type {
                        EthersRewardType::Uncle => RewardType::Uncle,
                        _ => RewardType::Block,
                    },
                },
            ),
        }
    }
}

/// Action (reth) -> (ethers)
impl ToEthers<EthersAction> for Action {
    open spec fn into_ethers_defined(v: SpecAction) -> bool {
        true
    }

    open spec fn spec_into_ethers(v: SpecAction) -> SpecEthersAction {
        action_to_ethers(v)
    }

    fn into_ethers(self) -> (r: EthersAction) {
        match self {
            Action::Call(a) => EthersAction::Call(
                EthersCall {
                    from: a.from,
                    to: a.to,
                    value: a.value,
                    gas: a.gas,
                    input: a.input,
                    call_type: a.call_type.into_ethers(),
                },
            ),
            Action::Create(a) => EthersAction::Create(
                EthersCreate { from: a.from, value: a.value, gas: a.gas, init: a.init },
            ),
            Action::Selfdestruct(a) => EthersAction::Suicide(
                EthersSuicide {
                    address: a.address,
                    refund_address: a.refund_address,
                    balance: a.balance,
                },
            ),
            Action::Reward(a) => EthersAction::Reward(
                EthersReward {
                    author: a.author,
                    value: a.value,
                    reward_type: match a.reward_type {
                        RewardType::Block => EthersRewardType::Block,
                        RewardType::Uncle => EthersRewardType::Uncle,
                    },
                },
            ),
        }
    }
}

impl EthersAction {
    /// The kind of this action.
    pub fn action_type(&self) -> (t: EthersActionType)
        ensures
            t == action_type_of(self@),
    {
        match self {
            EthersAction::Call(_) => EthersActionType::Call,
            EthersAction::Create(_) => EthersActionType::Create,
            EthersAction::Suicide(_) => EthersActionType::Suicide,
            EthersAction::Reward(_) => EthersActionType::Reward,
        }
    }
}

// ----- laws -----

/// A call type converted to `reth` and back is the call type it was.
pub proof fn lemma_call_type_round_trip_ethers(t: EthersCallType)
    ensures
        call_type_to_ethers(call_type_to_reth(t)) == t,
{
}

/// A call type converted to `ethers` and back is the call type it was.
pub proof fn lemma_call_type_round_trip_reth(t: CallType)
    ensures
        call_type_to_reth(call_type_to_ethers(t)) == t,
{
}

/// A `reth` action converted to `ethers` and back is the action it was.
pub proof fn lemma_action_round_trip_reth(a: SpecAction)
    ensures
        action_to_reth(action_to_ethers(a)) == a,
{
}

/// An `ethers` action converted to `reth` and back is the action it was
/// exactly when `reth` can represent it; a reward of any kind but block or
/// uncle comes back as a block reward.
pub proof fn lemma_action_round_trip_ethers(a: SpecEthersAction)
    ensures
        action_to_ethers(action_to_reth(a)) == a <==> action_representable(a),
        a matches SpecEthersAction::Reward(r) ==> action_to_ethers(action_to_reth(a))
            == SpecEthersAction::Reward(
            EthersReward {
                reward_type: if r.reward_type == EthersRewardType::Uncle {
                    EthersRewardType::Uncle
                } else {
                    EthersRewardType::Block
                },
                ..r
            },
        ),
{
}

/// The kind of an action is kept by both conversions.
pub proof fn lemma_action_kind_kept(a: SpecAction)
    ensures
        action_type_of(action_to_ethers(a)) == match a {
            SpecAction::Call(_) => EthersActionType::Call,
            SpecAction::Create(_) => EthersActionType::Create,
            SpecAction::Selfdestruct(_) => EthersActionType::Suicide,
            SpecAction::Reward(_) => EthersActionType::Reward,
        },
{
}


/// Every call type converts to the call type of the same name, both ways.
pub proof fn lemma_call_type_names_kept()
    ensures
        <EthersCallType as ToReth<CallType>>::spec_into_reth(EthersCallType::Unset) == CallType::Unset,
        <EthersCallType as ToReth<CallType>>::spec_into_reth(EthersCallType::Call) == CallType::Call,
        <EthersCallType as ToReth<CallType>>::spec_into_reth(EthersCallType::CallCode)
            == CallType::CallCode,
        <EthersCallType as ToReth<CallType>>::spec_into_reth(EthersCallType::DelegateCall)
            == CallType::DelegateCall,
        <EthersCallType as ToReth<CallType>>::spec_into_reth(EthersCallType::StaticCall)
            == CallType::StaticCall,
        <CallType as ToEthers<EthersCallType>>::spec_into_ethers(CallType::Unset)
            == EthersCallType::Unset,
        <CallType as ToEthers<EthersCallType>>::spec_into_ethers(CallType::Call) == EthersCallType::Call,
        <CallType as ToEthers<EthersCallType>>::spec_into_ethers(CallType::CallCode)
            == EthersCallType::CallCode,
        <CallType as ToEthers<EthersCallType>>::spec_into_ethers(CallType::DelegateCall)
            == EthersCallType::DelegateCall,
        <CallType as ToEthers<EthersCallType>>::spec_into_ethers(CallType::StaticCall)
            == EthersCallType::StaticCall,
{
}

/// An action converted to `reth` is the same action: a call stays a call
/// between the same accounts, with the same value, gas and input and a call
/// type of the same name; a creation keeps its creator, value, gas and init
/// code; a suicide becomes the self-destruction of the same account with the
/// same refund address and balance; a reward keeps its author and value and
/// is an uncle reward exactly when it was one.
pub proof fn lemma_action_into_reth_keeps(a: SpecEthersAction)
    ensures
        ({
            let r = <EthersAction as ToReth<Action>>::spec_into_reth(a);
            &&& (a matches SpecEthersAction::Call(c) ==> (r matches SpecAction::Call(rc) && rc.from
                == c.from && rc.to == c.to && rc.value == c.value && rc.gas == c.gas && rc.input
                == c.input && rc.call_type == <EthersCallType as ToReth<CallType>>::spec_into_reth(
                c.call_type,
            )))
            &&& (a matches SpecEthersAction::Create(c) ==> (r matches SpecAction::Create(rc)
                && rc.from == c.from && rc.value == c.value && rc.gas == c.gas && rc.init
                == c.init))
            &&& (a matches SpecEthersAction::Suicide(s) ==> (r matches SpecAction::Selfdestruct(rs)
                && rs.address == s.address && rs.refund_address == s.refund_address && rs.balance
                == s.balance))
            &&& (a matches SpecEthersAction::Reward(w) ==> (r matches SpecAction::Reward(rw)
                && rw.author == w.author && rw.value == w.value && (rw.reward_type
                == RewardType::Uncle <==> w.reward_type == EthersRewardType::Uncle)))
        }),
{
}

/// An action converted to `ethers` is the same action: a call stays a call
/// between the same accounts, with the same value, gas and input and a call
/// type of the same name; a creation keeps its creator, value, gas and init
/// code; a self-destruction becomes the suicide of the same account with the
/// same refund address and balance; a reward keeps its author, value and
/// kind.
pub proof fn lemma_action_into_ethers_keeps(a: SpecAction)
    ensures
        ({
            let e = <Action as ToEthers<EthersAction>>::spec_into_ethers(a);
            &&& (a matches SpecAction::Call(c) ==> (e matches SpecEthersAction::Call(ec) && ec.from
                == c.from && ec.to == c.to && ec.value == c.value && ec.gas == c.gas && ec.input
                == c.input && ec.call_type == <CallType as ToEthers<
                EthersCallType,
            >>::spec_into_ethers(c.call_type)))
            &&& (a matches SpecAction::Create(c) ==> (e matches SpecEthersAction::Create(ec)
                && ec.from == c.from && ec.value == c.value && ec.gas == c.gas && ec.init
                == c.init))
            &&& (a matches SpecAction::Selfdestruct(s) ==> (e matches SpecEthersAction::Suicide(es)
                && es.address == s.address && es.refund_address == s.refund_address && es.balance
                == s.balance))
            &&& (a matches SpecAction::Reward(w) ==> (e matches SpecEthersAction::Reward(ew)
                && ew.author == w.author && ew.value == w.value && (ew.reward_type
                == EthersRewardType::Uncle <==> w.reward_type == RewardType::Uncle) && (
            ew.reward_type == EthersRewardType::Block <==> w.reward_type == RewardType::Block)))
        }),
{
}

/// The kind that `ethers` carries beside an action is the kind of that
/// action.
pub proof fn lemma_action_type_names_action(a: SpecEthersAction)
    ensures
        a is Call <==> action_type_of(a) == EthersActionType::Call,
        a is Create <==> action_type_of(a) == EthersActionType::Create,
        a is Suicide <==> action_type_of(a) == EthersActionType::Suicide,
        a is Reward <==> action_type_of(a) == EthersActionType::Reward,
{
}

} // verus!
