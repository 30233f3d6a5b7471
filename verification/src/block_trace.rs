//! Traces of whole transactions: the kinds of trace one can ask for, and the
//! result of a trace request (`BlockTrace` of `ethers`; `TraceResults` and
//! `TraceResultsWithTransactionHash` of `reth`).
use vstd::prelude::*;
use crate::convert::{all_into_ethers, all_into_reth, ToEthers, ToReth};
use crate::primitives::{Address, Bytes, H256};
use crate::state_diff::{
    ethers_state_diff_ordered, lemma_state_diff_keys_kept_ethers, lemma_state_diff_keys_kept_reth,
    lemma_state_diff_round_trip_ethers, lemma_state_diff_round_trip_reth, state_diff_ordered,
    state_diff_to_ethers,
    state_diff_to_reth, EthersStateDiff, SpecAccountDiff, SpecEthersAccountDiff, StateDiff,
};
use crate::transaction_trace::{
    ethers_trace_faithful, lemma_transaction_trace_round_trip_ethers,
    lemma_transaction_trace_round_trip_reth, transaction_trace_to_ethers,
    transaction_trace_to_reth, EthersTransactionTrace, SpecEthersTransactionTrace,
    SpecTransactionTrace, TransactionTrace,
};
use crate::vm_trace::{
    ethers_vm_trace_faithful, ethers_vm_trace_pushes, lemma_vm_trace_pushes_kept_ethers,
    lemma_vm_trace_pushes_kept_reth, lemma_vm_trace_round_trip_ethers,
    lemma_vm_trace_round_trip_reth, vm_trace_pushes, vm_trace_to_ethers, vm_trace_to_reth,
    EthersVMTrace, SpecEthersVMTrace, SpecVmTrace, VmTrace,
};

verus! {

/// A kind of trace to ask for (`ethers`).
#[derive(Clone, Copy, Debug, PartialEq, Eq)]
pub enum EthersTraceType {
    Trace,
    VmTrace,
    StateDiff,
}

/// A kind of trace to ask for (`reth`).
#[derive(Clone, Copy, Debug, PartialEq, Eq)]
pub enum TraceType {
    Trace,
    VmTrace,
    StateDiff,
}

/// The traces of one transaction (`ethers`): a missing list of action traces
/// stands for none.
#[derive(Clone, Debug, PartialEq, Eq)]
pub struct EthersBlockTrace {
    pub output: Bytes,
    pub trace: Option<Vec<EthersTransactionTrace>>,
    pub vm_trace: Option<EthersVMTrace>,
    pub state_diff: Option<EthersStateDiff>,
    pub transaction_hash: Option<H256>,
}

/// The traces of one transaction (`reth`): an empty list of action traces
/// stands for none.
#[derive(Clone, Debug, PartialEq, Eq)]
pub struct TraceResults {
    pub output: Bytes,
    pub trace: Vec<TransactionTrace>,
    pub vm_trace: Option<VmTrace>,
    pub state_diff: Option<StateDiff>,
}

/// The traces of one transaction with the transaction's hash (`reth`).
#[derive(Clone, Debug, PartialEq, Eq)]
pub struct TraceResultsWithTransactionHash {
    pub full_trace: TraceResults,
    pub transaction_hash: H256,
}

/// The view of an [`EthersBlockTrace`].
pub struct SpecEthersBlockTrace {
    pub output: Seq<u8>,
    pub trace: Option<Seq<SpecEthersTransactionTrace>>,
    pub vm_trace: Option<SpecEthersVMTrace>,
    pub state_diff: Option<Seq<(Address, SpecEthersAccountDiff)>>,
    pub transaction_hash: Option<H256>,
}

/// The view of a [`TraceResults`].
pub struct SpecTraceResults {
    pub output: Seq<u8>,
    pub trace: Seq<SpecTransactionTrace>,
    pub vm_trace: Option<SpecVmTrace>,
    pub state_diff: Option<Seq<(Address, SpecAccountDiff)>>,
}

/// The view of a [`TraceResultsWithTransactionHash`].
pub struct SpecTraceResultsWithTransactionHash {
    pub full_trace: SpecTraceResults,
    pub transaction_hash: H256,
}

impl View for EthersTraceType {
    type V = EthersTraceType;

    open spec fn view(&self) -> EthersTraceType {
        *self
    }
}

impl View for TraceType {
    type V = TraceType;

    open spec fn view(&self) -> TraceType {
        *self
    }
}

impl View for EthersBlockTrace {
    type V = SpecEthersBlockTrace;

    open spec fn view(&self) -> SpecEthersBlockTrace {
        SpecEthersBlockTrace {
            output: self.output@,
            trace: match self.trace {
                Some(ts) => Some(ts@.map_values(|t: EthersTransactionTrace| t@)),
                None => None,
            },
            vm_trace: match self.vm_trace {
                Some(t) => Some(t@),
                None => None,
            },
            state_diff: match self.state_diff {
                Some(d) => Some(d@),
                None => None,
            },
            transaction_hash: self.transaction_hash,
        }
    }
}

impl View for TraceResults {
    type V = SpecTraceResults;

    open spec fn view(&self) -> SpecTraceResults {
        SpecTraceResults {
            output: self.output@,
            trace: self.trace@.map_values(|t: TransactionTrace| t@),
            vm_trace: match self.vm_trace {
                Some(t) => Some(t@),
                None => None,
            },
            state_diff: match self.state_diff {
                Some(d) => Some(d@),
                None => None,
            },
        }
    }
}

impl View for TraceResultsWithTransactionHash {
    type V = SpecTraceResultsWithTransactionHash;

    open spec fn view(&self) -> SpecTraceResultsWithTransactionHash {
        SpecTraceResultsWithTransactionHash {
            full_trace: self.full_trace@,
            transaction_hash: self.transaction_hash,
        }
    }
}

// ----- specifications -----

/// The trace kind of `reth` that has the same name.
pub open spec fn trace_type_to_reth(t: EthersTraceType) -> TraceType {
    match t {
        EthersTraceType::Trace => TraceType::Trace,
        EthersTraceType::VmTrace => TraceType::VmTrace,
        EthersTraceType::StateDiff => TraceType::StateDiff,
    }
}

/// The trace kind of `ethers` that has the same name.
pub open spec fn trace_type_to_ethers(t: TraceType) -> EthersTraceType {
    match t {
        TraceType::Trace => EthersTraceType::Trace,
        TraceType::VmTrace => EthersTraceType::VmTrace,
        TraceType::StateDiff => EthersTraceType::StateDiff,
    }
}

/// The `ethers` traces of one transaction can be given to `reth` when every
/// executed operation of its machine trace pushed a word and its state
/// change is ordered as a map.
pub open spec fn block_trace_convertible(b: SpecEthersBlockTrace) -> bool {
    &&& (b.vm_trace matches Some(t) ==> ethers_vm_trace_pushes(t))
    &&& (b.state_diff matches Some(d) ==> ethers_state_diff_ordered(d))
}

/// The `reth` traces of one transaction can be given to `ethers` when every
/// executed operation of its machine trace has a pushed word and its state
/// change is ordered as a map.
pub open spec fn trace_results_convertible(r: SpecTraceResults) -> bool {
    &&& (r.vm_trace matches Some(t) ==> vm_trace_pushes(t))
    &&& (r.state_diff matches Some(d) ==> state_diff_ordered(d))
}

/// The `ethers` traces of one transaction as `reth` carries them: a missing
/// list of action traces becomes an empty one; the transaction hash is
/// dropped.
pub open spec fn block_trace_to_reth(b: SpecEthersBlockTrace) -> SpecTraceResults {
    SpecTraceResults {
        output: b.output,
        trace: match b.trace {
            Some(ts) => ts.map_values(|t: SpecEthersTransactionTrace| transaction_trace_to_reth(t)),
            None => Seq::empty(),
        },
        vm_trace: match b.vm_trace {
            Some(t) => Some(vm_trace_to_reth(t)),
            None => None,
        },
        state_diff: match b.state_diff {
            Some(d) => Some(state_diff_to_reth(d)),
            None => None,
        },
    }
}

/// The `reth` traces of one transaction as `ethers` carries them, with the
/// given transaction hash: an empty list of action traces becomes a missing
/// one.
pub open spec fn trace_results_to_ethers(r: SpecTraceResults, hash: Option<H256>) -> SpecEthersBlockTrace {
    SpecEthersBlockTrace {
        output: r.output,
        trace: if r.trace.len() == 0 {
            None
        } else {
            Some(r.trace.map_values(|t: SpecTransactionTrace| transaction_trace_to_ethers(t)))
        },
        vm_trace: match r.vm_trace {
            Some(t) => Some(vm_trace_to_ethers(t)),
            None => None,
        },
        state_diff: match r.state_diff {
            Some(d) => Some(state_diff_to_ethers(d)),
            None => None,
        },
        transaction_hash: hash,
    }
}

/// The `ethers` traces of one transaction, and its hash, as `reth` carries
/// them.
pub open spec fn block_trace_to_reth_with_hash(b: SpecEthersBlockTrace) -> SpecTraceResultsWithTransactionHash {
    SpecTraceResultsWithTransactionHash {
        full_trace: block_trace_to_reth(b),
        transaction_hash: b.transaction_hash->0,
    }
}

/// The `ethers` traces of one transaction that come back unchanged from
/// `reth`, up to the transaction hash: a present list of action traces is
/// not empty and each of its traces comes back unchanged, and so does the
/// machine trace.
pub open spec fn block_trace_faithful(b: SpecEthersBlockTrace) -> bool {
    &&& (b.trace matches Some(ts) ==> {
        &&& ts.len() > 0
        &&& forall|k: int|
            0 <= k < ts.len() ==> ethers_trace_faithful(
                #[trigger] ts[k].action,
                ts[k].action_type,
                ts[k].result,
            )
    })
    &&& (b.vm_trace matches Some(t) ==> ethers_vm_trace_faithful(t))
}

// ----- conversions -----

/// TraceType (ethers) -> (reth)
impl ToReth<TraceType> for EthersTraceType {
    open spec fn into_reth_defined(v: EthersTraceType) -> bool {
        true
    }

    open spec fn spec_into_reth(v: EthersTraceType) -> TraceType {
        trace_type_to_reth(v)
    }

    fn into_reth(self) -> (r: TraceType) {
        match self {
            EthersTraceType::Trace => TraceType::Trace,
            EthersTraceType::VmTrace => TraceType::VmTrace,
            EthersTraceType::StateDiff => TraceType::StateDiff,
        }
    }
}

/// TraceType (reth) -> (ethers)
impl ToEthers<EthersTraceType> for TraceType {
    open spec fn into_ethers_defined(v: TraceType) -> bool {
        true
    }

    open spec fn spec_into_ethers(v: TraceType) -> EthersTraceType {
        trace_type_to_ethers(v)
    }

    fn into_ethers(self) -> (r: EthersTraceType) {
        match self {
            TraceType::Trace => EthersTraceType::Trace,
            TraceType::VmTrace => EthersTraceType::VmTrace,
            TraceType::StateDiff => EthersTraceType::StateDiff,
        }
    }
}

/// The action traces, machine trace and state change of the `ethers` traces
/// of one transaction, converted to `reth`.
fn block_trace_parts_into_reth(b: EthersBlockTrace) -> (r: TraceResults)
    requires
        block_trace_convertible(b@),
    ensures
        r@ == block_trace_to_reth(b@),
{
    let ghost b0 = b@;
    let trace = match b.trace {
        Some(ts) => all_into_reth(ts),
        None => Vec::new(),
    };
    let r = TraceResults {
        output: b.output,
        trace,
        vm_trace: match b.vm_trace {
            Some(t) => Some(t.into_reth()),
            None => None,
        },
        state_diff: match b.state_diff {
            Some(d) => Some(d.into_reth()),
            None => None,
        },
    };
    assert(r@.trace =~= block_trace_to_reth(b0).trace);
    r
}

/// The `reth` traces of one transaction converted to `ethers`, with the
/// given transaction hash.
fn trace_results_parts_into_ethers(r: TraceResults, hash: Option<H256>) -> (b: EthersBlockTrace)
    requires
        trace_results_convertible(r@),
    ensures
        b@ == trace_results_to_ethers(r@, hash),
{
    let ghost r0 = r@;
    let trace = if r.trace.len() == 0 {
        None
    } else {
        Some(all_into_ethers(r.trace))
    };
    let b = EthersBlockTrace {
        output: r.output,
        trace,
        vm_trace: match r.vm_trace {
            Some(t) => Some(t.into_ethers()),
            None => None,
        },
        state_diff: match r.state_diff {
            Some(d) => Some(d.into_ethers()),
            None => None,
        },
        transaction_hash: hash,
    };
    assert(b@.trace =~= trace_results_to_ethers(r0, hash).trace) by {
        if r0.trace.len() != 0 {
            assert(b@.trace->0 =~= trace_results_to_ethers(r0, hash).trace->0);
        }
    };
    b
}

/// EthersBlockTrace (ethers) -> TraceResults (reth)
impl ToReth<TraceResults> for EthersBlockTrace {
    /// Every executed operation of the machine trace must have pushed a word,
    /// and the state change must be ordered as a map.
    open spec fn into_reth_defined(v: SpecEthersBlockTrace) -> bool {
        block_trace_convertible(v)
    }

    open spec fn spec_into_reth(v: SpecEthersBlockTrace) -> SpecTraceResults {
        block_trace_to_reth(v)
    }

    fn into_reth(self) -> (r: TraceResults) {
        block_trace_parts_into_reth(self)
    }
}

/// TraceResults (reth) -> EthersBlockTrace (ethers)
impl ToEthers<EthersBlockTrace> for TraceResults {
    /// Every executed operation of the machine trace must have a pushed word,
    /// and the state change must be ordered as a map.
    open spec fn into_ethers_defined(v: SpecTraceResults) -> bool {
        trace_results_convertible(v)
    }

    open spec fn spec_into_ethers(v: SpecTraceResults) -> SpecEthersBlockTrace {
        trace_results_to_ethers(v, None)
    }

    fn into_ethers(self) -> (r: EthersBlockTrace) {
        trace_results_parts_into_ethers(self, None)
    }
}

/// EthersBlockTrace (ethers) -> TraceResultsWithTransactionHash (reth)
impl ToReth<TraceResultsWithTransactionHash> for EthersBlockTrace {
    /// The transaction hash must be present, every executed operation of the
    /// machine trace must have pushed a word, and the state change must be
    /// ordered as a map.
    open spec fn into_reth_defined(v: SpecEthersBlockTrace) -> bool {
        &&& v.transaction_hash is Some
        &&& block_trace_convertible(v)
    }

    open spec fn spec_into_reth(v: SpecEthersBlockTrace) -> SpecTraceResultsWithTransactionHash {
        block_trace_to_reth_with_hash(v)
    }

    fn into_reth(self) -> (r: TraceResultsWithTransactionHash) {
        let transaction_hash = self.transaction_hash.unwrap();
        TraceResultsWithTransactionHash {
            full_trace: block_trace_parts_into_reth(self),
            transaction_hash,
        }
    }
}

/// TraceResultsWithTransactionHash (reth) -> EthersBlockTrace (ethers)
impl ToEthers<EthersBlockTrace> for TraceResultsWithTransactionHash {
    /// Every executed operation of the machine trace must have a pushed word,
    /// and the state change must be ordered as a map.
    open spec fn into_ethers_defined(v: SpecTraceResultsWithTransactionHash) -> bool {
        trace_results_convertible(v.full_trace)
    }

    open spec fn spec_into_ethers(v: SpecTraceResultsWithTransactionHash) -> SpecEthersBlockTrace {
        trace_results_to_ethers(v.full_trace, Some(v.transaction_hash))
    }

    fn into_ethers(self) -> (r: EthersBlockTrace) {
        trace_results_parts_into_ethers(self.full_trace, Some(self.transaction_hash))
    }
}

// ----- laws -----

/// A trace kind converted to `reth` and back is the kind it was.
pub proof fn lemma_trace_type_round_trip_ethers(t: EthersTraceType)
    ensures
        trace_type_to_ethers(trace_type_to_reth(t)) == t,
{
}

/// A trace kind converted to `ethers` and back is the kind it was.
pub proof fn lemma_trace_type_round_trip_reth(t: TraceType)
    ensures
        trace_type_to_reth(trace_type_to_ethers(t)) == t,
{
}

/// The `reth` traces of one transaction, converted to `ethers` with any
/// transaction hash and back, are the traces they were.
pub proof fn lemma_trace_results_round_trip_reth(r: SpecTraceResults, hash: Option<H256>)
    requires
        trace_results_convertible(r),
    ensures
        block_trace_to_reth(trace_results_to_ethers(r, hash)) == r,
{
    let back = block_trace_to_reth(trace_results_to_ethers(r, hash));
    assert forall|k: int| 0 <= k < r.trace.len() implies #[trigger] back.trace[k] == r.trace[k] by {
        lemma_transaction_trace_round_trip_reth(r.trace[k]);
    }
    assert(back.trace =~= r.trace);
    if let Some(t) = r.vm_trace {
        lemma_vm_trace_round_trip_reth(t);
    }
    if let Some(d) = r.state_diff {
        lemma_state_diff_round_trip_reth(d);
    }
}

/// The `reth` traces of one transaction with its hash, converted to `ethers`
/// and back, are the traces and hash they were.
pub proof fn lemma_trace_results_with_hash_round_trip_reth(r: SpecTraceResultsWithTransactionHash)
    requires
        trace_results_convertible(r.full_trace),
    ensures
        block_trace_to_reth_with_hash(
            trace_results_to_ethers(r.full_trace, Some(r.transaction_hash)),
        ) == r,
{
    lemma_trace_results_round_trip_reth(r.full_trace, Some(r.transaction_hash));
}

/// The `ethers` traces of one transaction, converted to `reth` and back with
/// the transaction hash they carried, are the traces they were exactly when
/// they are faithful: a present list of action traces is not empty and each
/// of its traces, and the machine trace, comes back unchanged.
pub proof fn lemma_block_trace_round_trip_ethers(b: SpecEthersBlockTrace)
    requires
        block_trace_convertible(b),
    ensures
        trace_results_to_ethers(block_trace_to_reth(b), b.transaction_hash) == b
            <==> block_trace_faithful(b),
{
    let back = trace_results_to_ethers(block_trace_to_reth(b), b.transaction_hash);
    if let Some(ts) = b.trace {
        let rs = block_trace_to_reth(b).trace;
        assert forall|k: int| 0 <= k < ts.len() implies transaction_trace_to_ethers(
            #[trigger] rs[k],
        ) == ts[k] <==> ethers_trace_faithful(ts[k].action, ts[k].action_type, ts[k].result) by {
            lemma_transaction_trace_round_trip_ethers(ts[k]);
        }
        if ts.len() > 0 {
            let bt = back.trace->0;
            if block_trace_faithful(b) {
                assert forall|k: int| 0 <= k < ts.len() implies #[trigger] bt[k] == ts[k] by {
                    assert(ethers_trace_faithful(ts[k].action, ts[k].action_type, ts[k].result));
                }
                assert(bt =~= ts);
            }
            if back == b {
                assert forall|k: int| 0 <= k < ts.len() implies ethers_trace_faithful(
                    #[trigger] ts[k].action,
                    ts[k].action_type,
                    ts[k].result,
                ) by {
                    assert(bt[k] == ts[k]);
                    assert(bt[k] == transaction_trace_to_ethers(rs[k]));
                }
            }
        }
    }
    if let Some(t) = b.vm_trace {
        lemma_vm_trace_round_trip_ethers(t);
    }
    if let Some(d) = b.state_diff {
        lemma_state_diff_round_trip_ethers(d);
    }
}

/// The `ethers` traces of one transaction that carry its hash, converted to
/// `reth` with the hash and back, are the traces they were exactly when they
/// are faithful; without a hash, the round trip through [`TraceResults`]
/// gives them back exactly when they are faithful.
pub proof fn lemma_block_trace_with_hash_round_trip_ethers(b: SpecEthersBlockTrace)
    requires
        block_trace_convertible(b),
    ensures
        b.transaction_hash is Some ==> (trace_results_to_ethers(
            block_trace_to_reth_with_hash(b).full_trace,
            Some(block_trace_to_reth_with_hash(b).transaction_hash),
        ) == b <==> block_trace_faithful(b)),
        b.transaction_hash is None ==> (trace_results_to_ethers(block_trace_to_reth(b), None) == b
            <==> block_trace_faithful(b)),
{
    lemma_block_trace_round_trip_ethers(b);
}

/// The `reth` traces converted from `ethers` ones can be given back to
/// `ethers`, and the `ethers` traces converted from `reth` ones can be given
/// back to `reth`: each conversion lands in the domain of the other.
pub proof fn lemma_convertible_kept(b: SpecEthersBlockTrace, r: SpecTraceResults, hash: Option<H256>)
    ensures
        block_trace_convertible(b) ==> trace_results_convertible(block_trace_to_reth(b)),
        trace_results_convertible(r) ==> block_trace_convertible(trace_results_to_ethers(r, hash)),
{
    if let Some(t) = b.vm_trace {
        lemma_vm_trace_pushes_kept_ethers(t);
    }
    if let Some(d) = b.state_diff {
        lemma_state_diff_keys_kept_ethers(d);
    }
    if let Some(t) = r.vm_trace {
        lemma_vm_trace_pushes_kept_reth(t);
    }
    if let Some(d) = r.state_diff {
        lemma_state_diff_keys_kept_reth(d);
    }
}


/// Every trace kind converts to the kind of the same name, both ways.
pub proof fn lemma_trace_type_names_kept()
    ensures
        <EthersTraceType as ToReth<TraceType>>::spec_into_reth(EthersTraceType::Trace) == TraceType::Trace,
        <EthersTraceType as ToReth<TraceType>>::spec_into_reth(EthersTraceType::VmTrace)
            == TraceType::VmTrace,
        <EthersTraceType as ToReth<TraceType>>::spec_into_reth(EthersTraceType::StateDiff)
            == TraceType::StateDiff,
        <TraceType as ToEthers<EthersTraceType>>::spec_into_ethers(TraceType::Trace)
            == EthersTraceType::Trace,
        <TraceType as ToEthers<EthersTraceType>>::spec_into_ethers(TraceType::VmTrace)
            == EthersTraceType::VmTrace,
        <TraceType as ToEthers<EthersTraceType>>::spec_into_ethers(TraceType::StateDiff)
            == EthersTraceType::StateDiff,
{
}

/// The traces of a transaction converted to `reth` keep the output and the
/// action traces, in order, each converted (none when `ethers` has no list);
/// the machine trace and state change are the converted ones. With the hash,
/// the same traces come with the transaction hash `ethers` carried.
pub proof fn lemma_block_trace_into_reth_keeps(b: SpecEthersBlockTrace)
    ensures
        ({
            let r = <EthersBlockTrace as ToReth<TraceResults>>::spec_into_reth(b);
            &&& r.output == b.output
            &&& (b.trace is None ==> r.trace.len() == 0)
            &&& (b.trace matches Some(ts) ==> {
                &&& r.trace.len() == ts.len()
                &&& forall|k: int|
                    0 <= k < ts.len() ==> #[trigger] r.trace[k] == <EthersTransactionTrace as ToReth<
                        TransactionTrace,
                    >>::spec_into_reth(ts[k])
            })
            &&& (r.vm_trace is Some <==> b.vm_trace is Some)
            &&& (b.vm_trace matches Some(t) ==> r.vm_trace->0 == <EthersVMTrace as ToReth<
                VmTrace,
            >>::spec_into_reth(t))
            &&& (r.state_diff is Some <==> b.state_diff is Some)
            &&& (b.state_diff matches Some(d) ==> r.state_diff->0 == <EthersStateDiff as ToReth<
                StateDiff,
            >>::spec_into_reth(d))
        }),
        ({
            let w = <EthersBlockTrace as ToReth<TraceResultsWithTransactionHash>>::spec_into_reth(b);
            &&& w.full_trace == <EthersBlockTrace as ToReth<TraceResults>>::spec_into_reth(b)
            &&& (b.transaction_hash matches Some(h) ==> w.transaction_hash == h)
        }),
{
}

/// The traces of a transaction converted to `ethers` keep the output and the
/// action traces, in order, each converted (no list when there are none);
/// the machine trace and state change are the converted ones. Without a
/// hash there is no transaction hash; with one, it is carried.
pub proof fn lemma_trace_results_into_ethers_keeps(r: SpecTraceResults, h: H256)
    ensures
        ({
            let b = <TraceResults as ToEthers<EthersBlockTrace>>::spec_into_ethers(r);
            &&& b.output == r.output
            &&& (b.trace is None <==> r.trace.len() == 0)
            &&& (b.trace matches Some(ts) ==> {
                &&& ts.len() == r.trace.len()
                &&& forall|k: int|
                    0 <= k < r.trace.len() ==> #[trigger] ts[k] == <TransactionTrace as ToEthers<
                        EthersTransactionTrace,
                    >>::spec_into_ethers(r.trace[k])
            })
            &&& (b.vm_trace is Some <==> r.vm_trace is Some)
            &&& (r.vm_trace matches Some(t) ==> b.vm_trace->0 == <VmTrace as ToEthers<
                EthersVMTrace,
            >>::spec_into_ethers(t))
            &&& (b.state_diff is Some <==> r.state_diff is Some)
            &&& (r.state_diff matches Some(d) ==> b.state_diff->0 == <StateDiff as ToEthers<
                EthersStateDiff,
            >>::spec_into_ethers(d))
            &&& b.transaction_hash is None
        }),
        ({
            let w = SpecTraceResultsWithTransactionHash { full_trace: r, transaction_hash: h };
            let b = <TraceResultsWithTransactionHash as ToEthers<
                EthersBlockTrace,
            >>::spec_into_ethers(w);
            &&& b == SpecEthersBlockTrace {
                transaction_hash: Some(h),
                ..<TraceResults as ToEthers<EthersBlockTrace>>::spec_into_ethers(r)
            }
        }),
{
}

} // verus!
