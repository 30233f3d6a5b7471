//! Virtual-machine traces: the instructions that a transaction executed, each
//! with what it pushed, wrote to memory and stored, and the traces of the
//! calls it made, nested to any depth.
use vstd::prelude::*;
use crate::convert::{ToEthers, ToReth};
use crate::primitives::{Bytes, U256};

verus! {

/// The opcode of the invalid instruction, which `ethers` takes as the
/// default executed instruction.
pub const INVALID_OPCODE: u8 = 0xfe;

// ----- ethers schema -----

/// An executed instruction (`ethers`): a known opcode, or the name of an
/// unknown one.
#[derive(Clone, Debug, PartialEq, Eq)]
pub enum EthersExecutedInstruction {
    Known(u8),
    Unknown(String),
}

/// A write to memory (`ethers`).
#[derive(Clone, Debug, PartialEq, Eq)]
pub struct EthersMemoryDiff {
    pub off: usize,
    pub data: Bytes,
}

/// A write to storage (`ethers`).
#[derive(Clone, Copy, Debug, PartialEq, Eq)]
pub struct EthersStorageDiff {
    pub key: U256,
    pub val: U256,
}

/// What an executed instruction did (`ethers`).
#[derive(Clone, Debug, PartialEq, Eq)]
pub struct EthersVMExecutedOperation {
    pub used: u64,
    pub push: Vec<U256>,
    pub mem: Option<EthersMemoryDiff>,
    pub store: Option<EthersStorageDiff>,
}

/// One instruction of a trace (`ethers`).
#[derive(Debug, PartialEq, Eq)]
pub struct EthersVMOperation {
    pub pc: usize,
    pub cost: u64,
    pub ex: Option<EthersVMExecutedOperation>,
    pub sub: Option<EthersVMTrace>,
    pub op: EthersExecutedInstruction,
}

/// The trace of the code run by one call (`ethers`).
#[derive(Debug, PartialEq, Eq)]
pub struct EthersVMTrace {
    pub code: Bytes,
    pub ops: Vec<EthersVMOperation>,
}

// ----- reth schema -----

/// A write to memory (`reth`).
#[derive(Clone, Debug, PartialEq, Eq)]
pub struct MemoryDelta {
    pub off: usize,
    pub data: Bytes,
}

/// A write to storage (`reth`).
#[derive(Clone, Copy, Debug, PartialEq, Eq)]
pub struct StorageDelta {
    pub key: U256,
    pub val: U256,
}

/// What an executed instruction did (`reth`): at most one pushed word.
#[derive(Clone, Debug, PartialEq, Eq)]
pub struct VmExecutedOperation {
    pub used: u64,
    pub push: Option<U256>,
    pub mem: Option<MemoryDelta>,
    pub store: Option<StorageDelta>,
}

/// One instruction of a trace (`reth`).
#[derive(Debug, PartialEq, Eq)]
pub struct VmInstruction {
    pub pc: usize,
    pub cost: u64,
    pub ex: Option<VmExecutedOperation>,
    pub sub: Option<VmTrace>,
}

/// The trace of the code run by one call (`reth`).
#[derive(Debug, PartialEq, Eq)]
pub struct VmTrace {
    pub code: Bytes,
    pub ops: Vec<VmInstruction>,
}

// ----- views -----

/// The view of an executed instruction.
pub enum SpecExecutedInstruction {
    Known(u8),
    Unknown(Seq<char>),
}

/// The view of a memory write in either schema.
pub struct SpecMemoryDiff {
    pub off: usize,
    pub data: Seq<u8>,
}

/// The view of an [`EthersVMExecutedOperation`].
pub struct SpecEthersVMExecutedOperation {
    pub used: u64,
    pub push: Seq<U256>,
    pub mem: Option<SpecMemoryDiff>,
    pub store: Option<EthersStorageDiff>,
}

/// The view of an [`EthersVMOperation`].
pub struct SpecEthersVMOperation {
    pub pc: usize,
    pub cost: u64,
    pub ex: Option<SpecEthersVMExecutedOperation>,
    pub sub: Option<SpecEthersVMTrace>,
    pub op: SpecExecutedInstruction,
}

/// The view of an [`EthersVMTrace`].
pub struct SpecEthersVMTrace {
    pub code: Seq<u8>,
    pub ops: Seq<SpecEthersVMOperation>,
}

/// The view of a [`VmExecutedOperation`].
pub struct SpecVmExecutedOperation {
    pub used: u64,
    pub push: Option<U256>,
    pub mem: Option<SpecMemoryDiff>,
    pub store: Option<StorageDelta>,
}

/// The view of a [`VmInstruction`].
pub struct SpecVmInstruction {
    pub pc: usize,
    pub cost: u64,
    pub ex: Option<SpecVmExecutedOperation>,
    pub sub: Option<SpecVmTrace>,
}

/// The view of a [`VmTrace`].
pub struct SpecVmTrace {
    pub code: Seq<u8>,
    pub ops: Seq<SpecVmInstruction>,
}

impl View for EthersExecutedInstruction {
    type V = SpecExecutedInstruction;

    open spec fn view(&self) -> SpecExecutedInstruction {
        match self {
            EthersExecutedInstruction::Known(op) => SpecExecutedInstruction::Known(*op),
            EthersExecutedInstruction::Unknown(name) => SpecExecutedInstruction::Unknown(name@),
        }
    }
}

impl View for EthersMemoryDiff {
    type V = SpecMemoryDiff;

    open spec fn view(&self) -> SpecMemoryDiff {
        SpecMemoryDiff { off: self.off, data: self.data@ }
    }
}

impl View for MemoryDelta {
    type V = SpecMemoryDiff;

    open spec fn view(&self) -> SpecMemoryDiff {
        SpecMemoryDiff { off: self.off, data: self.data@ }
    }
}

impl View for EthersStorageDiff {
    type V = EthersStorageDiff;

    open spec fn view(&self) -> EthersStorageDiff {
        *self
    }
}

impl View for StorageDelta {
    type V = StorageDelta;

    open spec fn view(&self) -> StorageDelta {
        *self
    }
}

/// The view of an optional `ethers` memory write.
pub open spec fn opt_memory_diff_view(m: Option<EthersMemoryDiff>) -> Option<SpecMemoryDiff> {
    match m {
        Some(x) => Some(x@),
        None => None,
    }
}

/// The view of an optional `reth` memory write.
pub open spec fn opt_memory_delta_view(m: Option<MemoryDelta>) -> Option<SpecMemoryDiff> {
    match m {
        Some(x) => Some(x@),
        None => None,
    }
}

impl View for EthersVMExecutedOperation {
    type V = SpecEthersVMExecutedOperation;

    open spec fn view(&self) -> SpecEthersVMExecutedOperation {
        SpecEthersVMExecutedOperation {
            used: self.used,
            push: self.push@,
            mem: opt_memory_diff_view(self.mem),
            store: self.store,
        }
    }
}

impl View for VmExecutedOperation {
    type V = SpecVmExecutedOperation;

    open spec fn view(&self) -> SpecVmExecutedOperation {
        SpecVmExecutedOperation {
            used: self.used,
            push: self.push,
            mem: opt_memory_delta_view(self.mem),
            store: self.store,
        }
    }
}

/// The view of an optional `ethers` executed operation.
pub open spec fn opt_ethers_executed_view(x: Option<EthersVMExecutedOperation>) -> Option<
    SpecEthersVMExecutedOperation,
> {
    match x {
        Some(e) => Some(e@),
        None => None,
    }
}

/// The view of an optional `reth` executed operation.
pub open spec fn opt_executed_view(x: Option<VmExecutedOperation>) -> Option<
    SpecVmExecutedOperation,
> {
    match x {
        Some(e) => Some(e@),
        None => None,
    }
}

/// The view of an `ethers` trace.
pub open spec fn ethers_vm_trace_view(t: EthersVMTrace) -> SpecEthersVMTrace
    decreases t,
{
    SpecEthersVMTrace { code: t.code@, ops: ethers_vm_ops_view(t.ops@) }
}

/// The views of a sequence of `ethers` instructions.
pub open spec fn ethers_vm_ops_view(ops: Seq<EthersVMOperation>) -> Seq<SpecEthersVMOperation>
    decreases ops,
{
    if ops.len() == 0 {
        Seq::empty()
    } else {
        ethers_vm_ops_view(ops.drop_last()).push(ethers_vm_op_view(ops.last()))
    }
}

/// The view of an `ethers` instruction.
pub open spec fn ethers_vm_op_view(o: EthersVMOperation) -> SpecEthersVMOperation
    decreases o,
{
    SpecEthersVMOperation {
        pc: o.pc,
        cost: o.cost,
        ex: opt_ethers_executed_view(o.ex),
        sub: match o.sub {
            Some(s) => Some(ethers_vm_trace_view(s)),
            None => None,
        },
        op: o.op@,
    }
}

/// The view of a `reth` trace.
pub open spec fn vm_trace_view(t: VmTrace) -> SpecVmTrace
    decreases t,
{
    SpecVmTrace { code: t.code@, ops: vm_ops_view(t.ops@) }
}

/// The views of a sequence of `reth` instructions.
pub open spec fn vm_ops_view(ops: Seq<VmInstruction>) -> Seq<SpecVmInstruction>
    decreases ops,
{
    if ops.len() == 0 {
        Seq::empty()
    } else {
        vm_ops_view(ops.drop_last()).push(vm_op_view(ops.last()))
    }
}

/// The view of a `reth` instruction.
pub open spec fn vm_op_view(o: VmInstruction) -> SpecVmInstruction
    decreases o,
{
    SpecVmInstruction {
        pc: o.pc,
        cost: o.cost,
        ex: opt_executed_view(o.ex),
        sub: match o.sub {
            Some(s) => Some(vm_trace_view(s)),
            None => None,
        },
    }
}

impl View for EthersVMOperation {
    type V = SpecEthersVMOperation;

    open spec fn view(&self) -> SpecEthersVMOperation {
        ethers_vm_op_view(*self)
    }
}

impl View for EthersVMTrace {
    type V = SpecEthersVMTrace;

    open spec fn view(&self) -> SpecEthersVMTrace {
        ethers_vm_trace_view(*self)
    }
}

impl View for VmInstruction {
    type V = SpecVmInstruction;

    open spec fn view(&self) -> SpecVmInstruction {
        vm_op_view(*self)
    }
}

impl View for VmTrace {
    type V = SpecVmTrace;

    open spec fn view(&self) -> SpecVmTrace {
        vm_trace_view(*self)
    }
}

// ----- specifications -----

/// A `reth` storage write with the same slot and value.
pub open spec fn storage_to_reth(s: EthersStorageDiff) -> StorageDelta {
    StorageDelta { key: s.key, val: s.val }
}

/// An `ethers` storage write with the same slot and value.
pub open spec fn storage_to_ethers(s: StorageDelta) -> EthersStorageDiff {
    EthersStorageDiff { key: s.key, val: s.val }
}

/// An executed operation as `reth` carries it: only the first pushed word is
/// kept.
pub open spec fn executed_to_reth(x: SpecEthersVMExecutedOperation) -> SpecVmExecutedOperation {
    SpecVmExecutedOperation {
        used: x.used,
        push: Some(x.push[0]),
        mem: x.mem,
        store: match x.store {
            Some(st) => Some(storage_to_reth(st)),
            None => None,
        },
    }
}

/// An executed operation as `ethers` carries it: the pushed word alone.
pub open spec fn executed_to_ethers(x: SpecVmExecutedOperation) -> SpecEthersVMExecutedOperation {
    SpecEthersVMExecutedOperation {
        used: x.used,
        push: seq![x.push->0],
        mem: x.mem,
        store: match x.store {
            Some(st) => Some(storage_to_ethers(st)),
            None => None,
        },
    }
}

/// An `ethers` trace as `reth` carries it.
pub open spec fn vm_trace_to_reth(t: SpecEthersVMTrace) -> SpecVmTrace
    decreases t,
{
    SpecVmTrace { code: t.code, ops: vm_ops_to_reth(t.ops) }
}

/// A sequence of `ethers` instructions as `reth` carries it.
pub open spec fn vm_ops_to_reth(ops: Seq<SpecEthersVMOperation>) -> Seq<SpecVmInstruction>
    decreases ops,
{
    if ops.len() == 0 {
        Seq::empty()
    } else {
        vm_ops_to_reth(ops.drop_last()).push(vm_op_to_reth(ops.last()))
    }
}

/// An `ethers` instruction as `reth` carries it: its opcode is dropped.
pub open spec fn vm_op_to_reth(o: SpecEthersVMOperation) -> SpecVmInstruction
    decreases o,
{
    SpecVmInstruction {
        pc: o.pc,
        cost: o.cost,
        ex: match o.ex {
            Some(x) => Some(executed_to_reth(x)),
            None => None,
        },
        sub: match o.sub {
            Some(s) => Some(vm_trace_to_reth(s)),
            None => None,
        },
    }
}

/// A `reth` trace as `ethers` carries it.
pub open spec fn vm_trace_to_ethers(t: SpecVmTrace) -> SpecEthersVMTrace
    decreases t,
{
    SpecEthersVMTrace { code: t.code, ops: vm_ops_to_ethers(t.ops) }
}

/// A sequence of `reth` instructions as `ethers` carries it.
pub open spec fn vm_ops_to_ethers(ops: Seq<SpecVmInstruction>) -> Seq<SpecEthersVMOperation>
    decreases ops,
{
    if ops.len() == 0 {
        Seq::empty()
    } else {
        vm_ops_to_ethers(ops.drop_last()).push(vm_op_to_ethers(ops.last()))
    }
}

/// A `reth` instruction as `ethers` carries it: its opcode is the default
/// one, the invalid instruction.
pub open spec fn vm_op_to_ethers(o: SpecVmInstruction) -> SpecEthersVMOperation
    decreases o,
{
    SpecEthersVMOperation {
        pc: o.pc,
        cost: o.cost,
        ex: match o.ex {
            Some(x) => Some(executed_to_ethers(x)),
            None => None,
        },
        sub: match o.sub {
            Some(s) => Some(vm_trace_to_ethers(s)),
            None => None,
        },
        op: SpecExecutedInstruction::Known(INVALID_OPCODE),
    }
}

/// Every executed operation of an `ethers` trace, at any depth, pushed at
/// least one word.
pub open spec fn ethers_vm_trace_pushes(t: SpecEthersVMTrace) -> bool
    decreases t,
{
    ethers_vm_ops_push(t.ops)
}

/// Every executed operation of these `ethers` instructions, at any depth,
/// pushed at least one word.
pub open spec fn ethers_vm_ops_push(ops: Seq<SpecEthersVMOperation>) -> bool
    decreases ops,
{
    ops.len() == 0 || (ethers_vm_ops_push(ops.drop_last()) && ethers_vm_op_pushes(ops.last()))
}

/// Every executed operation of this `ethers` instruction, at any depth,
/// pushed at least one word.
pub open spec fn ethers_vm_op_pushes(o: SpecEthersVMOperation) -> bool
    decreases o,
{
    &&& (o.ex matches Some(x) ==> x.push.len() > 0)
    &&& (o.sub matches Some(s) ==> ethers_vm_trace_pushes(s))
}

/// Every executed operation of a `reth` trace, at any depth, has a pushed
/// word.
pub open spec fn vm_trace_pushes(t: SpecVmTrace) -> bool
    decreases t,
{
    vm_ops_push(t.ops)
}

/// Every executed operation of these `reth` instructions, at any depth, has
/// a pushed word.
pub open spec fn vm_ops_push(ops: Seq<SpecVmInstruction>) -> bool
    decreases ops,
{
    ops.len() == 0 || (vm_ops_push(ops.drop_last()) && vm_op_pushes(ops.last()))
}

/// Every executed operation of this `reth` instruction, at any depth, has a
/// pushed word.
pub open spec fn vm_op_pushes(o: SpecVmInstruction) -> bool
    decreases o,
{
    &&& (o.ex matches Some(x) ==> x.push is Some)
    &&& (o.sub matches Some(s) ==> vm_trace_pushes(s))
}

/// An `ethers` trace that comes back unchanged from `reth`: at any depth,
/// every executed operation pushed exactly one word and every instruction is
/// the default one.
pub open spec fn ethers_vm_trace_faithful(t: SpecEthersVMTrace) -> bool
    decreases t,
{
    ethers_vm_ops_faithful(t.ops)
}

/// Every one of these `ethers` instructions comes back unchanged from `reth`.
pub open spec fn ethers_vm_ops_faithful(ops: Seq<SpecEthersVMOperation>) -> bool
    decreases ops,
{
    ops.len() == 0 || (ethers_vm_ops_faithful(ops.drop_last()) && ethers_vm_op_faithful(
        ops.last(),
    ))
}

/// This `ethers` instruction comes back unchanged from `reth`.
pub open spec fn ethers_vm_op_faithful(o: SpecEthersVMOperation) -> bool
    decreases o,
{
    &&& (o.ex matches Some(x) ==> x.push.len() == 1)
    &&& o.op == SpecExecutedInstruction::Known(INVALID_OPCODE)
    &&& (o.sub matches Some(s) ==> ethers_vm_trace_faithful(s))
}

// ----- element-wise facts about the sequence functions -----

proof fn lemma_ethers_vm_ops_view(ops: Seq<EthersVMOperation>)
    ensures
        ethers_vm_ops_view(ops).len() == ops.len(),
        forall|k: int|
            0 <= k < ops.len() ==> #[trigger] ethers_vm_ops_view(ops)[k] == ethers_vm_op_view(
                ops[k],
            ),
    decreases ops.len(),
{
    if ops.len() > 0 {
        lemma_ethers_vm_ops_view(ops.drop_last());
    }
}

proof fn lemma_vm_ops_view(ops: Seq<VmInstruction>)
    ensures
        vm_ops_view(ops).len() == ops.len(),
        forall|k: int| 0 <= k < ops.len() ==> #[trigger] vm_ops_view(ops)[k] == vm_op_view(ops[k]),
    decreases ops.len(),
{
    if ops.len() > 0 {
        lemma_vm_ops_view(ops.drop_last());
    }
}

proof fn lemma_vm_ops_to_reth(ops: Seq<SpecEthersVMOperation>)
    ensures
        vm_ops_to_reth(ops).len() == ops.len(),
        forall|k: int|
            0 <= k < ops.len() ==> #[trigger] vm_ops_to_reth(ops)[k] == vm_op_to_reth(ops[k]),
    decreases ops.len(),
{
    if ops.len() > 0 {
        lemma_vm_ops_to_reth(ops.drop_last());
    }
}

proof fn lemma_vm_ops_to_ethers(ops: Seq<SpecVmInstruction>)
    ensures
        vm_ops_to_ethers(ops).len() == ops.len(),
        forall|k: int|
            0 <= k < ops.len() ==> #[trigger] vm_ops_to_ethers(ops)[k] == vm_op_to_ethers(ops[k]),
    decreases ops.len(),
{
    if ops.len() > 0 {
        lemma_vm_ops_to_ethers(ops.drop_last());
    }
}

proof fn lemma_ethers_vm_ops_push(ops: Seq<SpecEthersVMOperation>)
    ensures
        ethers_vm_ops_push(ops) <==> forall|k: int|
            0 <= k < ops.len() ==> #[trigger] ethers_vm_op_pushes(ops[k]),
    decreases ops.len(),
{
    if ops.len() > 0 {
        let d = ops.drop_last();
        lemma_ethers_vm_ops_push(d);
        if ethers_vm_ops_push(ops) {
            assert forall|k: int| 0 <= k < ops.len() implies #[trigger] ethers_vm_op_pushes(ops[k]) by {
                if k < ops.len() - 1 {
                    assert(d[k] == ops[k]);
                    assert(ethers_vm_op_pushes(d[k]));
                }
            }
        }
        if forall|k: int| 0 <= k < ops.len() ==> #[trigger] ethers_vm_op_pushes(ops[k]) {
            assert forall|k: int| 0 <= k < d.len() implies #[trigger] ethers_vm_op_pushes(d[k]) by {
                assert(d[k] == ops[k]);
            }
            assert(ethers_vm_op_pushes(ops[ops.len() - 1]));
        }
    }
}

proof fn lemma_vm_ops_push(ops: Seq<SpecVmInstruction>)
    ensures
        vm_ops_push(ops) <==> forall|k: int| 0 <= k < ops.len() ==> #[trigger] vm_op_pushes(ops[k]),
    decreases ops.len(),
{
    if ops.len() > 0 {
        let d = ops.drop_last();
        lemma_vm_ops_push(d);
        if vm_ops_push(ops) {
            assert forall|k: int| 0 <= k < ops.len() implies #[trigger] vm_op_pushes(ops[k]) by {
                if k < ops.len() - 1 {
                    assert(d[k] == ops[k]);
                    assert(vm_op_pushes(d[k]));
                }
            }
        }
        if forall|k: int| 0 <= k < ops.len() ==> #[trigger] vm_op_pushes(ops[k]) {
            assert forall|k: int| 0 <= k < d.len() implies #[trigger] vm_op_pushes(d[k]) by {
                assert(d[k] == ops[k]);
            }
            assert(vm_op_pushes(ops[ops.len() - 1]));
        }
    }
}

// ----- conversions -----

/// EthersMemoryDiff (ethers) -> MemoryDelta (reth)
impl ToReth<MemoryDelta> for EthersMemoryDiff {
    open spec fn into_reth_defined(v: SpecMemoryDiff) -> bool {
        true
    }

    open spec fn spec_into_reth(v: SpecMemoryDiff) -> SpecMemoryDiff {
        v
    }

    fn into_reth(self) -> (r: MemoryDelta) {
        MemoryDelta { off: self.off, data: self.data }
    }
}

/// MemoryDelta (reth) -> EthersMemoryDiff (ethers)
impl ToEthers<EthersMemoryDiff> for MemoryDelta {
    open spec fn into_ethers_defined(v: SpecMemoryDiff) -> bool {
        true
    }

    open spec fn spec_into_ethers(v: SpecMemoryDiff) -> SpecMemoryDiff {
        v
    }

    fn into_ethers(self) -> (r: EthersMemoryDiff) {
        EthersMemoryDiff { off: self.off, data: self.data }
    }
}

/// EthersStorageDiff (ethers) -> StorageDelta (reth)
impl ToReth<StorageDelta> for EthersStorageDiff {
    open spec fn into_reth_defined(v: EthersStorageDiff) -> bool {
        true
    }

    open spec fn spec_into_reth(v: EthersStorageDiff) -> StorageDelta {
        storage_to_reth(v)
    }

    fn into_reth(self) -> (r: StorageDelta) {
        StorageDelta { key: self.key, val: self.val }
    }
}

/// StorageDelta (reth) -> EthersStorageDiff (ethers)
impl ToEthers<EthersStorageDiff> for StorageDelta {
    open spec fn into_ethers_defined(v: StorageDelta) -> bool {
        true
    }

    open spec fn spec_into_ethers(v: StorageDelta) -> EthersStorageDiff {
        storage_to_ethers(v)
    }

    fn into_ethers(self) -> (r: EthersStorageDiff) {
        EthersStorageDiff { key: self.key, val: self.val }
    }
}

/// VmExecutedOperation (ethers) -> (reth)
impl ToReth<VmExecutedOperation> for EthersVMExecutedOperation {
    /// The operation must have pushed a word.
    open spec fn into_reth_defined(v: SpecEthersVMExecutedOperation) -> bool {
        v.push.len() > 0
    }

    open spec fn spec_into_reth(v: SpecEthersVMExecutedOperation) -> SpecVmExecutedOperation {
        executed_to_reth(v)
    }

    fn into_reth(self) -> (r: VmExecutedOperation) {
        VmExecutedOperation {
            used: self.used,
            push: Some(self.push[0]),
            mem: match self.mem {
                Some(m) => Some(m.into_reth()),
                None => None,
            },
            store: match self.store {
                Some(st) => Some(st.into_reth()),
                None => None,
            },
        }
    }
}

/// VmExecutedOperation (reth) -> (ethers)
impl ToEthers<EthersVMExecutedOperation> for VmExecutedOperation {
    /// The operation must have a pushed word.
    open spec fn into_ethers_defined(v: SpecVmExecutedOperation) -> bool {
        v.push is Some
    }

    open spec fn spec_into_ethers(v: SpecVmExecutedOperation) -> SpecEthersVMExecutedOperation {
        executed_to_ethers(v)
    }

    fn into_ethers(self) -> (r: EthersVMExecutedOperation) {
        let mut push: Vec<U256> = Vec::new();
        push.push(self.push.unwrap());
        proof {
            assert(push@ =~= seq![self.push->0]);
        }
        EthersVMExecutedOperation {
            used: self.used,
            push,
            mem: match self.mem {
                Some(m) => Some(m.into_ethers()),
                None => None,
            },
            store: match self.store {
                Some(st) => Some(st.into_ethers()),
                None => None,
            },
        }
    }
}

/// Converts an `ethers` trace and all the traces nested in it.
fn vm_trace_into_reth(t: EthersVMTrace) -> (r: VmTrace)
    requires
        ethers_vm_trace_pushes(t@),
    ensures
        r@ == vm_trace_to_reth(t@),
    decreases t,
{
    let ghost t0 = t;
    let EthersVMTrace { code, ops } = t;
    let ghost n = ops@.len();
    proof {
        lemma_ethers_vm_ops_view(ops@);
        lemma_ethers_vm_ops_push(ethers_vm_ops_view(ops@));
    }
    let mut ops = ops;
    let mut rev: Vec<EthersVMOperation> = Vec::new();
    while ops.len() > 0
        invariant
            ops@ + rev@.reverse() == t0.ops@,
            ops.len() + rev.len() == n,
            n == t0.ops@.len(),
        decreases ops.len(),
    {
        let o = ops.pop().unwrap();
        rev.push(o);
        assert(ops@ + rev@.reverse() =~= t0.ops@);
    }
    assert(rev@.reverse() == t0.ops@);
    assert forall|k: int| 0 <= k < rev.len() implies #[trigger] rev@[k] == t0.ops@[n - 1 - k] by {
        assert(rev@.reverse()[n - 1 - k] == rev@[k]);
    }
    assert(ethers_vm_ops_push(ethers_vm_ops_view(t0.ops@))) by {
        assert(t0@ == ethers_vm_trace_view(t0));
    };
    assert forall|k: int| 0 <= k < n implies ethers_vm_op_pushes(#[trigger] t0.ops@[k]@) by {
        assert(ethers_vm_ops_view(t0.ops@)[k] == ethers_vm_op_view(t0.ops@[k]));
    }
    let mut out: Vec<VmInstruction> = Vec::new();
    while rev.len() > 0
        invariant
            t0 == t,
            n == t0.ops@.len(),
            rev.len() + out.len() == n,
            forall|k: int| 0 <= k < rev.len() ==> #[trigger] rev@[k] == t0.ops@[n - 1 - k],
            forall|k: int| 0 <= k < n ==> ethers_vm_op_pushes(#[trigger] t0.ops@[k]@),
            forall|j: int| 0 <= j < out.len() ==> #[trigger] out@[j]@ == vm_op_to_reth(t0.ops@[j]@),
        decreases rev.len(),
    {
        let ghost k = out.len() as int;
        let ghost old_rev = rev@;
        let o = rev.pop().unwrap();
        assert(forall|j: int| 0 <= j < rev.len() ==> rev@[j] == old_rev[j]);
        assert(o == t0.ops@[k]);
        assert(decreases_to!(t => o)) by {
            assert(decreases_to!(t0 => t0.ops));
            assert(decreases_to!(t0.ops => t0.ops@));
            assert(decreases_to!(t0.ops@ => t0.ops@[k]));
        };
        let ro = vm_op_into_reth(o);
        out.push(ro);
    }
    proof {
        lemma_vm_ops_view(out@);
        lemma_ethers_vm_ops_view(t0.ops@);
        lemma_vm_ops_to_reth(ethers_vm_ops_view(t0.ops@));
        assert forall|j: int| 0 <= j < n implies #[trigger] vm_ops_view(out@)[j] == vm_ops_to_reth(
            ethers_vm_ops_view(t0.ops@),
        )[j] by {
            assert(out@[j]@ == vm_op_to_reth(t0.ops@[j]@));
            assert(ethers_vm_ops_view(t0.ops@)[j] == t0.ops@[j]@);
        }
        assert(vm_ops_view(out@) =~= vm_ops_to_reth(ethers_vm_ops_view(t0.ops@)));
    }
    VmTrace { code, ops: out }
}

/// Converts an `ethers` instruction and all the traces nested in it.
fn vm_op_into_reth(o: EthersVMOperation) -> (r: VmInstruction)
    requires
        ethers_vm_op_pushes(o@),
    ensures
        r@ == vm_op_to_reth(o@),
    decreases o,
{
    let ghost o0 = o;
    let EthersVMOperation { pc, cost, ex, sub, op: _ } = o;
    let ex = match ex {
        Some(x) => Some(x.into_reth()),
        None => None,
    };
    let sub = match sub {
        Some(s) => {
            assert(decreases_to!(o => s)) by {
                assert(decreases_to!(o0 => o0.sub));
            };
            Some(vm_trace_into_reth(s))
        },
        None => None,
    };
    VmInstruction { pc, cost, ex, sub }
}

/// Converts a `reth` trace and all the traces nested in it.
fn vm_trace_into_ethers(t: VmTrace) -> (r: EthersVMTrace)
    requires
        vm_trace_pushes(t@),
    ensures
        r@ == vm_trace_to_ethers(t@),
    decreases t,
{
    let ghost t0 = t;
    let VmTrace { code, ops } = t;
    let ghost n = ops@.len();
    proof {
        lemma_vm_ops_view(ops@);
        lemma_vm_ops_push(vm_ops_view(ops@));
    }
    let mut ops = ops;
    let mut rev: Vec<VmInstruction> = Vec::new();
    while ops.len() > 0
        invariant
            ops@ + rev@.reverse() == t0.ops@,
            ops.len() + rev.len() == n,
            n == t0.ops@.len(),
        decreases ops.len(),
    {
        let o = ops.pop().unwrap();
        rev.push(o);
        assert(ops@ + rev@.reverse() =~= t0.ops@);
    }
    assert(rev@.reverse() == t0.ops@);
    assert forall|k: int| 0 <= k < rev.len() implies #[trigger] rev@[k] == t0.ops@[n - 1 - k] by {
        assert(rev@.reverse()[n - 1 - k] == rev@[k]);
    }
    assert(vm_ops_push(vm_ops_view(t0.ops@))) by {
        assert(t0@ == vm_trace_view(t0));
    };
    assert forall|k: int| 0 <= k < n implies vm_op_pushes(#[trigger] t0.ops@[k]@) by {
        assert(vm_ops_view(t0.ops@)[k] == vm_op_view(t0.ops@[k]));
    }
    let mut out: Vec<EthersVMOperation> = Vec::new();
    while rev.len() > 0
        invariant
            t0 == t,
            n == t0.ops@.len(),
            rev.len() + out.len() == n,
            forall|k: int| 0 <= k < rev.len() ==> #[trigger] rev@[k] == t0.ops@[n - 1 - k],
            forall|k: int| 0 <= k < n ==> vm_op_pushes(#[trigger] t0.ops@[k]@),
            forall|j: int|
                0 <= j < out.len() ==> #[trigger] out@[j]@ == vm_op_to_ethers(t0.ops@[j]@),
        decreases rev.len(),
    {
        let ghost k = out.len() as int;
        let ghost old_rev = rev@;
        let o = rev.pop().unwrap();
        assert(forall|j: int| 0 <= j < rev.len() ==> rev@[j] == old_rev[j]);
        assert(o == t0.ops@[k]);
        assert(decreases_to!(t => o)) by {
            assert(decreases_to!(t0 => t0.ops));
            assert(decreases_to!(t0.ops => t0.ops@));
            assert(decreases_to!(t0.ops@ => t0.ops@[k]));
        };
        let eo = vm_op_into_ethers(o);
        out.push(eo);
    }
    proof {
        lemma_ethers_vm_ops_view(out@);
        lemma_vm_ops_view(t0.ops@);
        lemma_vm_ops_to_ethers(vm_ops_view(t0.ops@));
        assert forall|j: int| 0 <= j < n implies #[trigger] ethers_vm_ops_view(out@)[j]
            == vm_ops_to_ethers(vm_ops_view(t0.ops@))[j] by {
            assert(out@[j]@ == vm_op_to_ethers(t0.ops@[j]@));
            assert(vm_ops_view(t0.ops@)[j] == t0.ops@[j]@);
        }
        assert(ethers_vm_ops_view(out@) =~= vm_ops_to_ethers(vm_ops_view(t0.ops@)));
    }
    EthersVMTrace { code, ops: out }
}

/// Converts a `reth` instruction and all the traces nested in it.
fn vm_op_into_ethers(o: VmInstruction) -> (r: EthersVMOperation)
    requires
        vm_op_pushes(o@),
    ensures
        r@ == vm_op_to_ethers(o@),
    decreases o,
{
    let ghost o0 = o;
    let VmInstruction { pc, cost, ex, sub } = o;
    let ex = match ex {
        Some(x) => Some(x.into_ethers()),
        None => None,
    };
    let sub = match sub {
        Some(s) => {
            assert(decreases_to!(o => s)) by {
                assert(decreases_to!(o0 => o0.sub));
            };
            Some(vm_trace_into_ethers(s))
        },
        None => None,
    };
    EthersVMOperation { pc, cost, ex, sub, op: EthersExecutedInstruction::Known(INVALID_OPCODE) }
}

/// VMTrace (ethers) -> (reth)
impl ToReth<VmTrace> for EthersVMTrace {
    /// Every executed operation, at any depth, must have pushed a word.
    open spec fn into_reth_defined(v: SpecEthersVMTrace) -> bool {
        ethers_vm_trace_pushes(v)
    }

    open spec fn spec_into_reth(v: SpecEthersVMTrace) -> SpecVmTrace {
        vm_trace_to_reth(v)
    }

    fn into_reth(self) -> (r: VmTrace) {
        vm_trace_into_reth(self)
    }
}

/// VMTrace (reth) -> (ethers)
impl ToEthers<EthersVMTrace> for VmTrace {
    /// Every executed operation, at any depth, must have a pushed word.
    open spec fn into_ethers_defined(v: SpecVmTrace) -> bool {
        vm_trace_pushes(v)
    }

    open spec fn spec_into_ethers(v: SpecVmTrace) -> SpecEthersVMTrace {
        vm_trace_to_ethers(v)
    }

    fn into_ethers(self) -> (r: EthersVMTrace) {
        vm_trace_into_ethers(self)
    }
}

/// EthersVMOperation (ethers) -> VmInstruction (reth)
impl ToReth<VmInstruction> for EthersVMOperation {
    /// Every executed operation, at any depth, must have pushed a word.
    open spec fn into_reth_defined(v: SpecEthersVMOperation) -> bool {
        ethers_vm_op_pushes(v)
    }

    open spec fn spec_into_reth(v: SpecEthersVMOperation) -> SpecVmInstruction {
        vm_op_to_reth(v)
    }

    fn into_reth(self) -> (r: VmInstruction) {
        vm_op_into_reth(self)
    }
}

/// VmInstruction (reth) -> EthersVMOperation (ethers)
impl ToEthers<EthersVMOperation> for VmInstruction {
    /// Every executed operation, at any depth, must have a pushed word.
    open spec fn into_ethers_defined(v: SpecVmInstruction) -> bool {
        vm_op_pushes(v)
    }

    open spec fn spec_into_ethers(v: SpecVmInstruction) -> SpecEthersVMOperation {
        vm_op_to_ethers(v)
    }

    fn into_ethers(self) -> (r: EthersVMOperation) {
        vm_op_into_ethers(self)
    }
}

// ----- laws -----

/// A `reth` trace whose executed operations all have a pushed word,
/// converted to `ethers` and back, is the trace it was, at every depth.
pub proof fn lemma_vm_trace_round_trip_reth(t: SpecVmTrace)
    requires
        vm_trace_pushes(t),
    ensures
        vm_trace_to_reth(vm_trace_to_ethers(t)) == t,
    decreases t,
{
    lemma_vm_ops_round_trip_reth(t.ops);
}

/// The round trip of [`lemma_vm_trace_round_trip_reth`] on a sequence of
/// instructions.
pub proof fn lemma_vm_ops_round_trip_reth(ops: Seq<SpecVmInstruction>)
    requires
        vm_ops_push(ops),
    ensures
        vm_ops_to_reth(vm_ops_to_ethers(ops)) == ops,
    decreases ops,
{
    if ops.len() > 0 {
        let d = ops.drop_last();
        let l = ops.last();
        lemma_vm_ops_round_trip_reth(d);
        lemma_vm_op_round_trip_reth(l);
        let e = vm_ops_to_ethers(ops);
        assert(e.drop_last() =~= vm_ops_to_ethers(d));
        assert(e.last() == vm_op_to_ethers(l));
        assert(vm_ops_to_reth(e) =~= ops);
    }
}

/// The round trip of [`lemma_vm_trace_round_trip_reth`] on one instruction.
pub proof fn lemma_vm_op_round_trip_reth(o: SpecVmInstruction)
    requires
        vm_op_pushes(o),
    ensures
        vm_op_to_reth(vm_op_to_ethers(o)) == o,
    decreases o,
{
    if let Some(s) = o.sub {
        lemma_vm_trace_round_trip_reth(s);
    }
}

/// An `ethers` trace whose executed operations all pushed a word, converted
/// to `reth` and back, is the trace it was exactly when, at every depth,
/// every executed operation pushed exactly one word and every instruction is
/// the default one: `reth` keeps only the first pushed word and no opcode.
pub proof fn lemma_vm_trace_round_trip_ethers(t: SpecEthersVMTrace)
    requires
        ethers_vm_trace_pushes(t),
    ensures
        vm_trace_to_ethers(vm_trace_to_reth(t)) == t <==> ethers_vm_trace_faithful(t),
    decreases t,
{
    lemma_vm_ops_round_trip_ethers(t.ops);
}

/// The round trip of [`lemma_vm_trace_round_trip_ethers`] on a sequence of
/// instructions.
pub proof fn lemma_vm_ops_round_trip_ethers(ops: Seq<SpecEthersVMOperation>)
    requires
        ethers_vm_ops_push(ops),
    ensures
        vm_ops_to_ethers(vm_ops_to_reth(ops)) == ops <==> ethers_vm_ops_faithful(ops),
    decreases ops,
{
    if ops.len() > 0 {
        let d = ops.drop_last();
        let l = ops.last();
        lemma_vm_ops_round_trip_ethers(d);
        lemma_vm_op_round_trip_ethers(l);
        let r = vm_ops_to_reth(ops);
        assert(r.drop_last() =~= vm_ops_to_reth(d));
        assert(r.last() == vm_op_to_reth(l));
        let back = vm_ops_to_ethers(r);
        assert(back.drop_last() =~= vm_ops_to_ethers(vm_ops_to_reth(d)));
        assert(back.last() == vm_op_to_ethers(vm_op_to_reth(l)));
        if back == ops {
            assert(back.drop_last() == d);
            assert(back.last() == l);
        }
        if ethers_vm_ops_faithful(ops) {
            assert(back =~= ops);
        }
    } else {
        assert(vm_ops_to_ethers(vm_ops_to_reth(ops)) =~= ops);
    }
}

/// The round trip of [`lemma_vm_trace_round_trip_ethers`] on one instruction.
pub proof fn lemma_vm_op_round_trip_ethers(o: SpecEthersVMOperation)
    requires
        ethers_vm_op_pushes(o),
    ensures
        vm_op_to_ethers(vm_op_to_reth(o)) == o <==> ethers_vm_op_faithful(o),
    decreases o,
{
    if let Some(s) = o.sub {
        lemma_vm_trace_round_trip_ethers(s);
    }
    if let Some(x) = o.ex {
        let back = executed_to_ethers(executed_to_reth(x));
        if x.push.len() == 1 {
            assert(back.push =~= x.push);
        } else {
            assert(back.push.len() != x.push.len());
        }
    }
}

/// A converted `ethers` trace has a pushed word wherever the trace it came
/// from pushed one, so it can be converted back.
pub proof fn lemma_vm_trace_pushes_kept_ethers(t: SpecEthersVMTrace)
    ensures
        ethers_vm_trace_pushes(t) ==> vm_trace_pushes(vm_trace_to_reth(t)),
    decreases t,
{
    lemma_vm_ops_pushes_kept_ethers(t.ops);
}

/// [`lemma_vm_trace_pushes_kept_ethers`] on a sequence of instructions.
pub proof fn lemma_vm_ops_pushes_kept_ethers(ops: Seq<SpecEthersVMOperation>)
    ensures
        ethers_vm_ops_push(ops) ==> vm_ops_push(vm_ops_to_reth(ops)),
    decreases ops,
{
    if ops.len() > 0 {
        let d = ops.drop_last();
        lemma_vm_ops_pushes_kept_ethers(d);
        lemma_vm_op_pushes_kept_ethers(ops.last());
        let r = vm_ops_to_reth(ops);
        assert(r.drop_last() =~= vm_ops_to_reth(d));
    }
}

/// [`lemma_vm_trace_pushes_kept_ethers`] on one instruction.
pub proof fn lemma_vm_op_pushes_kept_ethers(o: SpecEthersVMOperation)
    ensures
        ethers_vm_op_pushes(o) ==> vm_op_pushes(vm_op_to_reth(o)),
    decreases o,
{
    if let Some(s) = o.sub {
        lemma_vm_trace_pushes_kept_ethers(s);
    }
}

/// A converted `reth` trace pushed a word wherever the trace it came from
/// had one, so it can be converted back.
pub proof fn lemma_vm_trace_pushes_kept_reth(t: SpecVmTrace)
    ensures
        vm_trace_pushes(t) ==> ethers_vm_trace_pushes(vm_trace_to_ethers(t)),
    decreases t,
{
    lemma_vm_ops_pushes_kept_reth(t.ops);
}

/// [`lemma_vm_trace_pushes_kept_reth`] on a sequence of instructions.
pub proof fn lemma_vm_ops_pushes_kept_reth(ops: Seq<SpecVmInstruction>)
    ensures
        vm_ops_push(ops) ==> ethers_vm_ops_push(vm_ops_to_ethers(ops)),
    decreases ops,
{
    if ops.len() > 0 {
        let d = ops.drop_last();
        lemma_vm_ops_pushes_kept_reth(d);
        lemma_vm_op_pushes_kept_reth(ops.last());
        let e = vm_ops_to_ethers(ops);
        assert(e.drop_last() =~= vm_ops_to_ethers(d));
    }
}

/// [`lemma_vm_trace_pushes_kept_reth`] on one instruction.
pub proof fn lemma_vm_op_pushes_kept_reth(o: SpecVmInstruction)
    ensures
        vm_op_pushes(o) ==> ethers_vm_op_pushes(vm_op_to_ethers(o)),
    decreases o,
{
    if let Some(s) = o.sub {
        lemma_vm_trace_pushes_kept_reth(s);
    }
}

// ----- copies -----

/// A copy of a byte string.
fn copy_bytes(b: &Bytes) -> (r: Bytes)
    ensures
        r@ == b@,
{
    let mut r: Bytes = Vec::new();
    let n = b.len();
    for i in 0..n
        invariant
            n == b@.len(),
            r@ == b@.take(i as int),
    {
        r.push(b[i]);
        assert(r@ =~= b@.take(i + 1));
    }
    assert(b@.take(n as int) =~= b@);
    r
}

/// A copy of a sequence of pushed words.
fn copy_words(w: &Vec<U256>) -> (r: Vec<U256>)
    ensures
        r@ == w@,
{
    let mut r: Vec<U256> = Vec::new();
    let n = w.len();
    for i in 0..n
        invariant
            n == w@.len(),
            r@ == w@.take(i as int),
    {
        r.push(w[i]);
        assert(r@ =~= w@.take(i + 1));
    }
    assert(w@.take(n as int) =~= w@);
    r
}

/// A copy of an executed instruction.
fn copy_instruction(i: &EthersExecutedInstruction) -> (r: EthersExecutedInstruction)
    ensures
        r@ == i@,
{
    match i {
        EthersExecutedInstruction::Known(op) => EthersExecutedInstruction::Known(*op),
        EthersExecutedInstruction::Unknown(name) => EthersExecutedInstruction::Unknown(name.clone()),
    }
}

/// A copy of an `ethers` executed operation.
fn copy_ethers_executed(x: &EthersVMExecutedOperation) -> (r: EthersVMExecutedOperation)
    ensures
        r@ == x@,
{
    EthersVMExecutedOperation {
        used: x.used,
        push: copy_words(&x.push),
        mem: match &x.mem {
            Some(m) => Some(EthersMemoryDiff { off: m.off, data: copy_bytes(&m.data) }),
            None => None,
        },
        store: x.store,
    }
}

/// A copy of a `reth` executed operation.
fn copy_executed(x: &VmExecutedOperation) -> (r: VmExecutedOperation)
    ensures
        r@ == x@,
{
    VmExecutedOperation {
        used: x.used,
        push: x.push,
        mem: match &x.mem {
            Some(m) => Some(MemoryDelta { off: m.off, data: copy_bytes(&m.data) }),
            None => None,
        },
        store: x.store,
    }
}

/// A copy of an `ethers` trace and all the traces nested in it.
fn copy_ethers_vm_trace(t: &EthersVMTrace) -> (r: EthersVMTrace)
    ensures
        r@ == t@,
    decreases t,
{
    let n = t.ops.len();
    let mut ops: Vec<EthersVMOperation> = Vec::new();
    for i in 0..n
        invariant
            n == t.ops@.len(),
            ops@.len() == i,
            forall|j: int| 0 <= j < i ==> #[trigger] ops@[j]@ == t.ops@[j]@,
    {
        assert(decreases_to!(t => t.ops@[i as int])) by {
            assert(decreases_to!(t => t.ops));
            assert(decreases_to!(t.ops => t.ops@));
        };
        let o = copy_ethers_vm_op(&t.ops[i]);
        ops.push(o);
    }
    proof {
        lemma_ethers_vm_ops_view(ops@);
        lemma_ethers_vm_ops_view(t.ops@);
        assert forall|j: int| 0 <= j < n implies #[trigger] ethers_vm_ops_view(ops@)[j]
            == ethers_vm_ops_view(t.ops@)[j] by {
            assert(ops@[j]@ == t.ops@[j]@);
        }
        assert(ethers_vm_ops_view(ops@) =~= ethers_vm_ops_view(t.ops@));
    }
    EthersVMTrace { code: copy_bytes(&t.code), ops }
}

/// A copy of an `ethers` instruction and all the traces nested in it.
fn copy_ethers_vm_op(o: &EthersVMOperation) -> (r: EthersVMOperation)
    ensures
        r@ == o@,
    decreases o,
{
    EthersVMOperation {
        pc: o.pc,
        cost: o.cost,
        ex: match &o.ex {
            Some(x) => Some(copy_ethers_executed(x)),
            None => None,
        },
        sub: match &o.sub {
            Some(s) => {
                assert(decreases_to!(o => *s)) by {
                    assert(decreases_to!(o => o.sub));
                };
                Some(copy_ethers_vm_trace(s))
            },
            None => None,
        },
        op: copy_instruction(&o.op),
    }
}

/// A copy of a `reth` trace and all the traces nested in it.
fn copy_vm_trace(t: &VmTrace) -> (r: VmTrace)
    ensures
        r@ == t@,
    decreases t,
{
    let n = t.ops.len();
    let mut ops: Vec<VmInstruction> = Vec::new();
    for i in 0..n
        invariant
            n == t.ops@.len(),
            ops@.len() == i,
            forall|j: int| 0 <= j < i ==> #[trigger] ops@[j]@ == t.ops@[j]@,
    {
        assert(decreases_to!(t => t.ops@[i as int])) by {
            assert(decreases_to!(t => t.ops));
            assert(decreases_to!(t.ops => t.ops@));
        };
        let o = copy_vm_op(&t.ops[i]);
        ops.push(o);
    }
    proof {
        lemma_vm_ops_view(ops@);
        lemma_vm_ops_view(t.ops@);
        assert forall|j: int| 0 <= j < n implies #[trigger] vm_ops_view(ops@)[j] == vm_ops_view(
            t.ops@,
        )[j] by {
            assert(ops@[j]@ == t.ops@[j]@);
        }
        assert(vm_ops_view(ops@) =~= vm_ops_view(t.ops@));
    }
    VmTrace { code: copy_bytes(&t.code), ops }
}

/// A copy of a `reth` instruction and all the traces nested in it.
fn copy_vm_op(o: &VmInstruction) -> (r: VmInstruction)
    ensures
        r@ == o@,
    decreases o,
{
    VmInstruction {
        pc: o.pc,
        cost: o.cost,
        ex: match &o.ex {
            Some(x) => Some(copy_executed(x)),
            None => None,
        },
        sub: match &o.sub {
            Some(s) => {
                assert(decreases_to!(o => *s)) by {
                    assert(decreases_to!(o => o.sub));
                };
                Some(copy_vm_trace(s))
            },
            None => None,
        },
    }
}

impl Clone for EthersVMTrace {
    fn clone(&self) -> (r: Self)
        ensures
            r@ == self@,
    {
        copy_ethers_vm_trace(self)
    }
}

impl Clone for EthersVMOperation {
    fn clone(&self) -> (r: Self)
        ensures
            r@ == self@,
    {
        copy_ethers_vm_op(self)
    }
}

impl Clone for VmTrace {
    fn clone(&self) -> (r: Self)
        ensures
            r@ == self@,
    {
        copy_vm_trace(self)
    }
}

impl Clone for VmInstruction {
    fn clone(&self) -> (r: Self)
        ensures
            r@ == self@,
    {
        copy_vm_op(self)
    }
}


/// A memory write converted either way writes the same bytes at the same
/// offset; a storage write converted either way writes the same value to the
/// same slot.
pub proof fn lemma_writes_kept(m: SpecMemoryDiff, s: EthersStorageDiff, d: StorageDelta)
    ensures
        ({
            let r = <EthersMemoryDiff as ToReth<MemoryDelta>>::spec_into_reth(m);
            r.off == m.off && r.data == m.data
        }),
        ({
            let e = <MemoryDelta as ToEthers<EthersMemoryDiff>>::spec_into_ethers(m);
            e.off == m.off && e.data == m.data
        }),
        ({
            let r = <EthersStorageDiff as ToReth<StorageDelta>>::spec_into_reth(s);
            r.key == s.key && r.val == s.val
        }),
        ({
            let e = <StorageDelta as ToEthers<EthersStorageDiff>>::spec_into_ethers(d);
            e.key == d.key && e.val == d.val
        }),
{
}

/// An executed operation converted to `reth` keeps the gas it used, its
/// memory write and its storage write, and carries the first word it pushed.
pub proof fn lemma_executed_into_reth_keeps(x: SpecEthersVMExecutedOperation)
    requires
        x.push.len() > 0,
    ensures
        ({
            let r = <EthersVMExecutedOperation as ToReth<VmExecutedOperation>>::spec_into_reth(x);
            &&& r.used == x.used
            &&& r.push == Some(x.push[0])
            &&& r.mem == x.mem
            &&& (r.store is Some <==> x.store is Some)
            &&& (x.store matches Some(s) ==> r.store->0.key == s.key && r.store->0.val == s.val)
        }),
{
}

/// An executed operation converted to `ethers` keeps the gas it used, its
/// memory write and its storage write, and pushes exactly its pushed word.
pub proof fn lemma_executed_into_ethers_keeps(x: SpecVmExecutedOperation)
    requires
        x.push is Some,
    ensures
        ({
            let e = <VmExecutedOperation as ToEthers<EthersVMExecutedOperation>>::spec_into_ethers(x);
            &&& e.used == x.used
            &&& e.push.len() == 1
            &&& e.push[0] == x.push->0
            &&& e.mem == x.mem
            &&& (e.store is Some <==> x.store is Some)
            &&& (x.store matches Some(s) ==> e.store->0.key == s.key && e.store->0.val == s.val)
        }),
{
}

/// An instruction converted to `reth` keeps its program counter and cost;
/// its executed operation and nested trace are the converted ones. A trace
/// converted to `reth` keeps its code and its instructions, in order, each
/// converted.
pub proof fn lemma_vm_trace_into_reth_keeps(t: SpecEthersVMTrace, o: SpecEthersVMOperation)
    ensures
        ({
            let r = <EthersVMOperation as ToReth<VmInstruction>>::spec_into_reth(o);
            &&& r.pc == o.pc
            &&& r.cost == o.cost
            &&& (r.ex is Some <==> o.ex is Some)
            &&& (o.ex matches Some(x) ==> r.ex->0 == <EthersVMExecutedOperation as ToReth<
                VmExecutedOperation,
            >>::spec_into_reth(x))
            &&& (r.sub is Some <==> o.sub is Some)
            &&& (o.sub matches Some(s) ==> r.sub->0 == <EthersVMTrace as ToReth<
                VmTrace,
            >>::spec_into_reth(s))
        }),
        ({
            let r = <EthersVMTrace as ToReth<VmTrace>>::spec_into_reth(t);
            &&& r.code == t.code
            &&& r.ops.len() == t.ops.len()
            &&& forall|k: int|
                0 <= k < t.ops.len() ==> #[trigger] r.ops[k] == <EthersVMOperation as ToReth<
                    VmInstruction,
                >>::spec_into_reth(t.ops[k])
        }),
{
    lemma_vm_ops_to_reth(t.ops);
}

/// An instruction converted to `ethers` keeps its program counter and cost
/// and gets the default opcode; its executed operation and nested trace are
/// the converted ones. A trace converted to `ethers` keeps its code and its
/// instructions, in order, each converted.
pub proof fn lemma_vm_trace_into_ethers_keeps(t: SpecVmTrace, o: SpecVmInstruction)
    ensures
        ({
            let e = <VmInstruction as ToEthers<EthersVMOperation>>::spec_into_ethers(o);
            &&& e.pc == o.pc
            &&& e.cost == o.cost
            &&& e.op == SpecExecutedInstruction::Known(INVALID_OPCODE)
            &&& (e.ex is Some <==> o.ex is Some)
            &&& (o.ex matches Some(x) ==> e.ex->0 == <VmExecutedOperation as ToEthers<
                EthersVMExecutedOperation,
            >>::spec_into_ethers(x))
            &&& (e.sub is Some <==> o.sub is Some)
            &&& (o.sub matches Some(s) ==> e.sub->0 == <VmTrace as ToEthers<
                EthersVMTrace,
            >>::spec_into_ethers(s))
        }),
        ({
            let e = <VmTrace as ToEthers<EthersVMTrace>>::spec_into_ethers(t);
            &&& e.code == t.code
            &&& e.ops.len() == t.ops.len()
            &&& forall|k: int|
                0 <= k < t.ops.len() ==> #[trigger] e.ops[k] == <VmInstruction as ToEthers<
                    EthersVMOperation,
                >>::spec_into_ethers(t.ops[k])
        }),
{
    lemma_vm_ops_to_ethers(t.ops);
}

} // verus!
