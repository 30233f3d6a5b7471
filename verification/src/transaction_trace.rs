//! Traces of single actions of a transaction: `Trace` and `TransactionTrace`
//! of `ethers`; `TransactionTrace` and `LocalizedTransactionTrace` of `reth`.
use vstd::prelude::*;
use crate::action::{
    action_representable, action_to_ethers, action_to_reth, action_type_of, Action,
    EthersAction, EthersActionType, SpecAction, SpecEthersAction,
};
use crate::convert::{ToEthers, ToReth};
use crate::output::{
    opt_output_view, opt_res_view, output_to_ethers, res_to_reth, EthersRes, SpecEthersRes,
    SpecTraceOutput, TraceOutput,
};
use crate::primitives::H256;

verus! {

/// A trace of one action, placed in its block and transaction (`ethers`).
#[derive(Clone, Debug, PartialEq, Eq)]
pub struct EthersTrace {
    pub action: EthersAction,
    pub result: Option<EthersRes>,
    pub trace_address: Vec<usize>,
    pub subtraces: usize,
    pub transaction_position: Option<usize>,
    pub transaction_hash: Option<H256>,
    pub block_number: u64,
    pub block_hash: H256,
    pub action_type: EthersActionType,
    pub error: Option<String>,
}

/// A trace of one action of a transaction (`ethers`).
#[derive(Clone, Debug, PartialEq, Eq)]
pub struct EthersTransactionTrace {
    pub trace_address: Vec<usize>,
    pub subtraces: usize,
    pub action: EthersAction,
    pub action_type: EthersActionType,
    pub result: Option<EthersRes>,
    pub error: Option<String>,
}

/// A trace of one action of a transaction (`reth`).
#[derive(Clone, Debug, PartialEq, Eq)]
pub struct TransactionTrace {
    pub action: Action,
    pub error: Option<String>,
    pub result: Option<TraceOutput>,
    pub subtraces: usize,
    pub trace_address: Vec<usize>,
}

/// A trace of one action, placed in its block and transaction (`reth`).
#[derive(Clone, Debug, PartialEq, Eq)]
pub struct LocalizedTransactionTrace {
    pub trace: TransactionTrace,
    pub block_hash: Option<H256>,
    pub block_number: Option<u64>,
    pub transaction_hash: Option<H256>,
    pub transaction_position: Option<u64>,
}

/// The view of an [`EthersTrace`].
pub struct SpecEthersTrace {
    pub action: SpecEthersAction,
    pub result: Option<SpecEthersRes>,
    pub trace_address: Seq<usize>,
    pub subtraces: usize,
    pub transaction_position: Option<usize>,
    pub transaction_hash: Option<H256>,
    pub block_number: u64,
    pub block_hash: H256,
    pub action_type: EthersActionType,
    pub error: Option<Seq<char>>,
}

/// The view of an [`EthersTransactionTrace`].
pub struct SpecEthersTransactionTrace {
    pub trace_address: Seq<usize>,
    pub subtraces: usize,
    pub action: SpecEthersAction,
    pub action_type: EthersActionType,
    pub result: Option<SpecEthersRes>,
    pub error: Option<Seq<char>>,
}

/// The view of a [`TransactionTrace`].
pub struct SpecTransactionTrace {
    pub action: SpecAction,
    pub error: Option<Seq<char>>,
    pub result: Option<SpecTraceOutput>,
    pub subtraces: usize,
    pub trace_address: Seq<usize>,
}

/// The view of a [`LocalizedTransactionTrace`].
pub struct SpecLocalizedTransactionTrace {
    pub trace: SpecTransactionTrace,
    pub block_hash: Option<H256>,
    pub block_number: Option<u64>,
    pub transaction_hash: Option<H256>,
    pub transaction_position: Option<u64>,
}

/// The view of an optional string.
pub open spec fn opt_string_view(s: Option<String>) -> Option<Seq<char>> {
    match s {
        Some(x) => Some(x@),
        None => None,
    }
}

impl View for EthersTrace {
    type V = SpecEthersTrace;

    open spec fn view(&self) -> SpecEthersTrace {
        SpecEthersTrace {
            action: self.action@,
            result: opt_res_view(self.result),
            trace_address: self.trace_address@,
            subtraces: self.subtraces,
            transaction_position: self.transaction_position,
            transaction_hash: self.transaction_hash,
            block_number: self.block_number,
            block_hash: self.block_hash,
            action_type: self.action_type,
            error: opt_string_view(self.error),
        }
    }
}

impl View for EthersTransactionTrace {
    type V = SpecEthersTransactionTrace;

    open spec fn view(&self) -> SpecEthersTransactionTrace {
        SpecEthersTransactionTrace {
            trace_address: self.trace_address@,
            subtraces: self.subtraces,
            action: self.action@,
            action_type: self.action_type,
            result: opt_res_view(self.result),
            error: opt_string_view(self.error),
        }
    }
}

impl View for TransactionTrace {
    type V = SpecTransactionTrace;

    open spec fn view(&self) -> SpecTransactionTrace {
        SpecTransactionTrace {
            action: self.action@,
            error: opt_string_view(self.error),
            result: opt_output_view(self.result),
            subtraces: self.subtraces,
            trace_address: self.trace_address@,
        }
    }
}

impl View for LocalizedTransactionTrace {
    type V = SpecLocalizedTransactionTrace;

    open spec fn view(&self) -> SpecLocalizedTransactionTrace {
        SpecLocalizedTransactionTrace {
            trace: self.trace@,
            block_hash: self.block_hash,
            block_number: self.block_number,
            transaction_hash: self.transaction_hash,
            transaction_position: self.transaction_position,
        }
    }
}

// ----- specifications -----

/// The `reth` result of an optional `ethers` result: an absent result, like a
/// missing one, has none.
pub open spec fn result_to_reth(r: Option<SpecEthersRes>) -> Option<SpecTraceOutput> {
    match r {
        Some(x) => res_to_reth(x),
        None => None,
    }
}

/// The `ethers` result of an optional `reth` output.
pub open spec fn result_to_ethers(o: Option<SpecTraceOutput>) -> Option<SpecEthersRes> {
    match o {
        Some(x) => Some(output_to_ethers(x)),
        None => None,
    }
}

/// An `ethers` trace as a `reth` transaction trace: its placement and the
/// kind of action it carries are dropped.
pub open spec fn trace_to_reth(e: SpecEthersTrace) -> SpecTransactionTrace {
    SpecTransactionTrace {
        action: action_to_reth(e.action),
        error: e.error,
        result: result_to_reth(e.result),
        subtraces: e.subtraces,
        trace_address: e.trace_address,
    }
}

/// A transaction position as `reth` carries it.
pub open spec fn position_to_reth(p: Option<usize>) -> Option<u64> {
    match p {
        Some(x) => Some(x as u64),
        None => None,
    }
}

/// A transaction position as `ethers` carries it.
pub open spec fn position_to_ethers(p: Option<u64>) -> Option<usize> {
    match p {
        Some(x) => Some(x as usize),
        None => None,
    }
}

/// An `ethers` trace as a localized `reth` trace: the block number and hash
/// are always present.
pub open spec fn trace_to_localized(e: SpecEthersTrace) -> SpecLocalizedTransactionTrace {
    SpecLocalizedTransactionTrace {
        trace: trace_to_reth(e),
        block_hash: Some(e.block_hash),
        block_number: Some(e.block_number),
        transaction_hash: e.transaction_hash,
        transaction_position: position_to_reth(e.transaction_position),
    }
}

/// A localized `reth` trace can be given to `ethers` only with its block
/// number and block hash.
pub open spec fn localized_placed(l: SpecLocalizedTransactionTrace) -> bool {
    l.block_number is Some && l.block_hash is Some
}

/// A localized `reth` trace as an `ethers` trace; the kind of action is the
/// kind of the converted action.
pub open spec fn localized_to_ethers(l: SpecLocalizedTransactionTrace) -> SpecEthersTrace {
    SpecEthersTrace {
        action: action_to_ethers(l.trace.action),
        result: result_to_ethers(l.trace.result),
        trace_address: l.trace.trace_address,
        subtraces: l.trace.subtraces,
        transaction_position: position_to_ethers(l.transaction_position),
        transaction_hash: l.transaction_hash,
        block_number: l.block_number->0,
        block_hash: l.block_hash->0,
        action_type: action_type_of(action_to_ethers(l.trace.action)),
        error: l.trace.error,
    }
}

/// An `ethers` transaction trace as a `reth` one.
pub open spec fn transaction_trace_to_reth(e: SpecEthersTransactionTrace) -> SpecTransactionTrace {
    SpecTransactionTrace {
        action: action_to_reth(e.action),
        error: e.error,
        result: result_to_reth(e.result),
        subtraces: e.subtraces,
        trace_address: e.trace_address,
    }
}

/// A `reth` transaction trace as an `ethers` one; the kind of action is the
/// kind of the converted action.
pub open spec fn transaction_trace_to_ethers(t: SpecTransactionTrace) -> SpecEthersTransactionTrace {
    SpecEthersTransactionTrace {
        trace_address: t.trace_address,
        subtraces: t.subtraces,
        action: action_to_ethers(t.action),
        action_type: action_type_of(action_to_ethers(t.action)),
        result: result_to_ethers(t.result),
        error: t.error,
    }
}

/// An `ethers` trace that comes back unchanged from `reth`: its kind of action
/// is that of its action, `reth` can represent its action, and its result is
/// not present-but-absent.
pub open spec fn ethers_trace_faithful(
    action: SpecEthersAction,
    action_type: EthersActionType,
    result: Option<SpecEthersRes>,
) -> bool {
    &&& action_type == action_type_of(action)
    &&& action_representable(action)
    &&& result != Some(SpecEthersRes::Absent)
}

// ----- conversions -----

/// The `reth` result of an optional `ethers` result.
fn result_into_reth(r: Option<EthersRes>) -> (o: Option<TraceOutput>)
    ensures
        opt_output_view(o) == result_to_reth(opt_res_view(r)),
{
    match r {
        Some(x) => x.into_reth(),
        None => None,
    }
}

/// The `ethers` result of an optional `reth` output.
fn result_into_ethers(o: Option<TraceOutput>) -> (r: Option<EthersRes>)
    ensures
        opt_res_view(r) == result_to_ethers(opt_output_view(o)),
{
    match o {
        Some(x) => Some(x.into_ethers()),
        None => None,
    }
}

/// EthersTrace (ethers) -> TransactionTrace (reth)
impl ToReth<TransactionTrace> for EthersTrace {
    open spec fn into_reth_defined(v: SpecEthersTrace) -> bool {
        true
    }

    open spec fn spec_into_reth(v: SpecEthersTrace) -> SpecTransactionTrace {
        trace_to_reth(v)
    }

    fn into_reth(self) -> (r: TransactionTrace) {
        TransactionTrace {
            trace_address: self.trace_address,
            subtraces: self.subtraces,
            action: self.action.into_reth(),
            result: result_into_reth(self.result),
            error: self.error,
        }
    }
}

/// EthersTrace (ethers) -> LocalizedTransactionTrace (reth)
impl ToReth<LocalizedTransactionTrace> for EthersTrace {
    open spec fn into_reth_defined(v: SpecEthersTrace) -> bool {
        true
    }

    open spec fn spec_into_reth(v: SpecEthersTrace) -> SpecLocalizedTransactionTrace {
        trace_to_localized(v)
    }

    fn into_reth(self) -> (r: LocalizedTransactionTrace) {
        let transaction_position = match self.transaction_position {
            Some(x) => Some(x as u64),
            None => None,
        };
        let transaction_hash = self.transaction_hash;
        let block_number = self.block_number;
        let block_hash = self.block_hash;
        let trace: TransactionTrace = self.into_reth();
        LocalizedTransactionTrace {
            trace,
            transaction_position,
            transaction_hash,
            block_number: Some(block_number),
            block_hash: Some(block_hash),
        }
    }
}

/// LocalizedTransactionTrace (reth) -> EthersTrace (ethers)
impl ToEthers<EthersTrace> for LocalizedTransactionTrace {
    open spec fn into_ethers_defined(v: SpecLocalizedTransactionTrace) -> bool {
        localized_placed(v)
    }

    open spec fn spec_into_ethers(v: SpecLocalizedTransactionTrace) -> SpecEthersTrace {
        localized_to_ethers(v)
    }

    fn into_ethers(self) -> (r: EthersTrace) {
        let action = self.trace.action.into_ethers();
        let action_type = action.action_type();
        EthersTrace {
            action,
            result: result_into_ethers(self.trace.result),
            trace_address: self.trace.trace_address,
            subtraces: self.trace.subtraces,
            transaction_position: match self.transaction_position {
                Some(x) => Some(x as usize),
                None => None,
            },
            transaction_hash: self.transaction_hash,
            block_number: self.block_number.unwrap(),
            block_hash: self.block_hash.unwrap(),
            action_type,
            error: self.trace.error,
        }
    }
}

/// TransactionTrace (ethers) -> (reth)
impl ToReth<TransactionTrace> for EthersTransactionTrace {
    open spec fn into_reth_defined(v: SpecEthersTransactionTrace) -> bool {
        true
    }

    open spec fn spec_into_reth(v: SpecEthersTransactionTrace) -> SpecTransactionTrace {
        transaction_trace_to_reth(v)
    }

    fn into_reth(self) -> (r: TransactionTrace) {
        TransactionTrace {
            trace_address: self.trace_address,
            subtraces: self.subtraces,
            action: self.action.into_reth(),
            result: result_into_reth(self.result),
            error: self.error,
        }
    }
}

/// TransactionTrace (reth) -> (ethers)
impl ToEthers<EthersTransactionTrace> for TransactionTrace {
    open spec fn into_ethers_defined(v: SpecTransactionTrace) -> bool {
        true
    }

    open spec fn spec_into_ethers(v: SpecTransactionTrace) -> SpecEthersTransactionTrace {
        transaction_trace_to_ethers(v)
    }

    fn into_ethers(self) -> (r: EthersTransactionTrace) {
        let action = self.action.into_ethers();
        let action_type = action.action_type();
        EthersTransactionTrace {
            trace_address: self.trace_address,
            subtraces: self.subtraces,
            action,
            result: result_into_ethers(self.result),
            action_type,
            error: self.error,
        }
    }
}

// ----- laws -----

/// A `reth` transaction trace converted to `ethers` and back is the trace it
/// was.
pub proof fn lemma_transaction_trace_round_trip_reth(t: SpecTransactionTrace)
    ensures
        transaction_trace_to_reth(transaction_trace_to_ethers(t)) == t,
{
    crate::action::lemma_action_round_trip_reth(t.action);
}

/// An `ethers` transaction trace converted to `reth` and back is the trace it
/// was exactly when its kind of action matches its action, `reth` can
/// represent the action, and its result is not present-but-absent.
pub proof fn lemma_transaction_trace_round_trip_ethers(e: SpecEthersTransactionTrace)
    ensures
        transaction_trace_to_ethers(transaction_trace_to_reth(e)) == e <==> ethers_trace_faithful(
            e.action,
            e.action_type,
            e.result,
        ),
{
    crate::action::lemma_action_round_trip_ethers(e.action);
}

/// A placed `reth` trace whose transaction position fits a `usize`,
/// converted to `ethers` and back, is the trace it was.
pub proof fn lemma_localized_round_trip_reth(l: SpecLocalizedTransactionTrace)
    requires
        localized_placed(l),
        l.transaction_position matches Some(p) ==> p <= usize::MAX,
    ensures
        trace_to_localized(localized_to_ethers(l)) == l,
{
    crate::action::lemma_action_round_trip_reth(l.trace.action);
}

/// An `ethers` trace converted to `reth` and back is the trace it was exactly
/// when its kind of action matches its action, `reth` can represent the
/// action, and its result is not present-but-absent.
pub proof fn lemma_trace_round_trip_ethers(e: SpecEthersTrace)
    ensures
        localized_to_ethers(trace_to_localized(e)) == e <==> ethers_trace_faithful(
            e.action,
            e.action_type,
            e.result,
        ),
{
    crate::action::lemma_action_round_trip_ethers(e.action);
}


/// The result that `reth` carries for an optional `ethers` result: the
/// converted result where there is one, and none for a missing or absent
/// one.
pub open spec fn result_kept_in_reth(e: Option<SpecEthersRes>, r: Option<SpecTraceOutput>) -> bool {
    match e {
        Some(x) => r == res_to_reth(x),
        None => r is None,
    }
}

/// The result that `ethers` carries for an optional `reth` output: the
/// converted output where there is one, and none otherwise.
pub open spec fn result_kept_in_ethers(o: Option<SpecTraceOutput>, e: Option<SpecEthersRes>) -> bool {
    match o {
        Some(x) => e == Some(<TraceOutput as ToEthers<EthersRes>>::spec_into_ethers(x)),
        None => e is None,
    }
}

/// A trace converted to `reth` keeps its trace address, its number of
/// subtraces and its error; its action is the converted action and its
/// result the converted result. The localized conversion carries that same
/// trace, and places it in the same block and transaction.
pub proof fn lemma_trace_into_reth_keeps(e: SpecEthersTrace)
    ensures
        ({
            let t = <EthersTrace as ToReth<TransactionTrace>>::spec_into_reth(e);
            &&& t.trace_address == e.trace_address
            &&& t.subtraces == e.subtraces
            &&& t.error == e.error
            &&& t.action == <EthersAction as ToReth<Action>>::spec_into_reth(e.action)
            &&& result_kept_in_reth(e.result, t.result)
        }),
        ({
            let l = <EthersTrace as ToReth<LocalizedTransactionTrace>>::spec_into_reth(e);
            &&& l.trace == <EthersTrace as ToReth<TransactionTrace>>::spec_into_reth(e)
            &&& l.block_number == Some(e.block_number)
            &&& l.block_hash == Some(e.block_hash)
            &&& l.transaction_hash == e.transaction_hash
            &&& (l.transaction_position is Some <==> e.transaction_position is Some)
            &&& (e.transaction_position matches Some(p) ==> l.transaction_position->0 == p)
        }),
{
}

/// A placed `reth` trace converted to `ethers` keeps its trace address,
/// number of subtraces, error, block number and hash and transaction hash;
/// its action is the converted action, its kind of action is the kind of
/// that action, and its result is the converted result. Its transaction
/// position is kept where it fits a `usize`.
pub proof fn lemma_localized_into_ethers_keeps(l: SpecLocalizedTransactionTrace)
    requires
        localized_placed(l),
    ensures
        ({
            let e = <LocalizedTransactionTrace as ToEthers<EthersTrace>>::spec_into_ethers(l);
            &&& e.trace_address == l.trace.trace_address
            &&& e.subtraces == l.trace.subtraces
            &&& e.error == l.trace.error
            &&& e.action == <Action as ToEthers<EthersAction>>::spec_into_ethers(l.trace.action)
            &&& e.action_type == action_type_of(e.action)
            &&& result_kept_in_ethers(l.trace.result, e.result)
            &&& Some(e.block_number) == l.block_number
            &&& Some(e.block_hash) == l.block_hash
            &&& e.transaction_hash == l.transaction_hash
            &&& (e.transaction_position is Some <==> l.transaction_position is Some)
            &&& (l.transaction_position matches Some(p) ==> p <= usize::MAX ==> e.transaction_position->0
                == p)
        }),
{
}

/// A transaction trace converted to `reth` keeps its trace address, number
/// of subtraces and error; its action is the converted action and its result
/// the converted result.
pub proof fn lemma_transaction_trace_into_reth_keeps(e: SpecEthersTransactionTrace)
    ensures
        ({
            let t = <EthersTransactionTrace as ToReth<TransactionTrace>>::spec_into_reth(e);
            &&& t.trace_address == e.trace_address
            &&& t.subtraces == e.subtraces
            &&& t.error == e.error
            &&& t.action == <EthersAction as ToReth<Action>>::spec_into_reth(e.action)
            &&& result_kept_in_reth(e.result, t.result)
        }),
{
}

/// A transaction trace converted to `ethers` keeps its trace address, number
/// of subtraces and error; its action is the converted action, its kind of
/// action is the kind of that action, and its result is the converted
/// result.
pub proof fn lemma_transaction_trace_into_ethers_keeps(t: SpecTransactionTrace)
    ensures
        ({
            let e = <TransactionTrace as ToEthers<EthersTransactionTrace>>::spec_into_ethers(t);
            &&& e.trace_address == t.trace_address
            &&& e.subtraces == t.subtraces
            &&& e.error == t.error
            &&& e.action == <Action as ToEthers<EthersAction>>::spec_into_ethers(t.action)
            &&& e.action_type == action_type_of(e.action)
            &&& result_kept_in_ethers(t.result, e.result)
        }),
{
}

} // verus!
