//! Results of a traced call or contract creation, in both schemas.
use vstd::prelude::*;
use crate::convert::{ToEthers, ToReth};
use crate::primitives::{Address, Bytes, U256};

verus! {

/// The result of a call (`ethers`).
#[derive(Clone, Debug, PartialEq, Eq)]
pub struct EthersCallResult {
    pub gas_used: U256,
    pub output: Bytes,
}

/// The result of a contract creation (`ethers`).
#[derive(Clone, Debug, PartialEq, Eq)]
pub struct EthersCreateResult {
    pub gas_used: U256,
    pub code: Bytes,
    pub address: Address,
}

/// The result of an action (`ethers`); `Absent` is the result of an action
/// that has none.
#[derive(Clone, Debug, PartialEq, Eq)]
pub enum EthersRes {
    Call(EthersCallResult),
    Create(EthersCreateResult),
    Absent,
}

/// The result of a call (`reth`).
#[derive(Clone, Debug, PartialEq, Eq)]
pub struct CallOutput {
    pub gas_used: U256,
    pub output: Bytes,
}

/// The result of a contract creation (`reth`).
#[derive(Clone, Debug, PartialEq, Eq)]
pub struct CreateOutput {
    pub gas_used: U256,
    pub code: Bytes,
    pub address: Address,
}

/// The result of an action (`reth`); an action without a result has no
/// `TraceOutput` at all.
#[derive(Clone, Debug, PartialEq, Eq)]
pub enum TraceOutput {
    Call(CallOutput),
    Create(CreateOutput),
}

/// The view of a call result in either schema.
pub struct SpecCallResult {
    pub gas_used: U256,
    pub output: Seq<u8>,
}

/// The view of a creation result in either schema.
pub struct SpecCreateResult {
    pub gas_used: U256,
    pub code: Seq<u8>,
    pub address: Address,
}

/// The view of an [`EthersRes`].
pub enum SpecEthersRes {
    Call(SpecCallResult),
    Create(SpecCreateResult),
    Absent,
}

/// The view of a [`TraceOutput`].
pub enum SpecTraceOutput {
    Call(SpecCallResult),
    Create(SpecCreateResult),
}

impl View for EthersCallResult {
    type V = SpecCallResult;

    open spec fn view(&self) -> SpecCallResult {
        SpecCallResult { gas_used: self.gas_used, output: self.output@ }
    }
}

impl View for CallOutput {
    type V = SpecCallResult;

    open spec fn view(&self) -> SpecCallResult {
        SpecCallResult { gas_used: self.gas_used, output: self.output@ }
    }
}

impl View for EthersCreateResult {
    type V = SpecCreateResult;

    open spec fn view(&self) -> SpecCreateResult {
        SpecCreateResult { gas_used: self.gas_used, code: self.code@, address: self.address }
    }
}

impl View for CreateOutput {
    type V = SpecCreateResult;

    open spec fn view(&self) -> SpecCreateResult {
        SpecCreateResult { gas_used: self.gas_used, code: self.code@, address: self.address }
    }
}

impl View for EthersRes {
    type V = SpecEthersRes;

    open spec fn view(&self) -> SpecEthersRes {
        match self {
            EthersRes::Call(c) => SpecEthersRes::Call(c@),
            EthersRes::Create(c) => SpecEthersRes::Create(c@),
            EthersRes::Absent => SpecEthersRes::Absent,
        }
    }
}

impl View for TraceOutput {
    type V = SpecTraceOutput;

    open spec fn view(&self) -> SpecTraceOutput {
        match self {
            TraceOutput::Call(c) => SpecTraceOutput::Call(c@),
            TraceOutput::Create(c) => SpecTraceOutput::Create(c@),
        }
    }
}

/// An `ethers` result as a `reth` output: the same call or creation result,
/// and none for an absent result.
pub open spec fn res_to_reth(r: SpecEthersRes) -> Option<SpecTraceOutput> {
    match r {
        SpecEthersRes::Call(c) => Some(SpecTraceOutput::Call(c)),
        SpecEthersRes::Create(c) => Some(SpecTraceOutput::Create(c)),
        SpecEthersRes::Absent => None,
    }
}

/// A `reth` output as an `ethers` result: the same call or creation result.
pub open spec fn output_to_ethers(o: SpecTraceOutput) -> SpecEthersRes {
    match o {
        SpecTraceOutput::Call(c) => SpecEthersRes::Call(c),
        SpecTraceOutput::Create(c) => SpecEthersRes::Create(c),
    }
}

impl ToReth<CallOutput> for EthersCallResult {
    open spec fn into_reth_defined(v: SpecCallResult) -> bool {
        true
    }

    open spec fn spec_into_reth(v: SpecCallResult) -> SpecCallResult {
        v
    }

    fn into_reth(self) -> (r: CallOutput) {
        CallOutput { gas_used: self.gas_used, output: self.output }
    }
}

impl ToEthers<EthersCallResult> for CallOutput {
    open spec fn into_ethers_defined(v: SpecCallResult) -> bool {
        true
    }

    open spec fn spec_into_ethers(v: SpecCallResult) -> SpecCallResult {
        v
    }

    fn into_ethers(self) -> (r: EthersCallResult) {
        EthersCallResult { gas_used: self.gas_used, output: self.output }
    }
}

impl ToReth<CreateOutput> for EthersCreateResult {
    open spec fn into_reth_defined(v: SpecCreateResult) -> bool {
        true
    }

    open spec fn spec_into_reth(v: SpecCreateResult) -> SpecCreateResult {
        v
    }

    fn into_reth(self) -> (r: CreateOutput) {
        CreateOutput { gas_used: self.gas_used, code: self.code, address: self.address }
    }
}

impl ToEthers<EthersCreateResult> for CreateOutput {
    open spec fn into_ethers_defined(v: SpecCreateResult) -> bool {
        true
    }

    open spec fn spec_into_ethers(v: SpecCreateResult) -> SpecCreateResult {
        v
    }

    fn into_ethers(self) -> (r: EthersCreateResult) {
        EthersCreateResult { gas_used: self.gas_used, code: self.code, address: self.address }
    }
}

/// The view of an optional `reth` output.
pub open spec fn opt_output_view(o: Option<TraceOutput>) -> Option<SpecTraceOutput> {
    match o {
        Some(x) => Some(x@),
        None => None,
    }
}

/// The view of an optional `ethers` result.
pub open spec fn opt_res_view(r: Option<EthersRes>) -> Option<SpecEthersRes> {
    match r {
        Some(x) => Some(x@),
        None => None,
    }
}

impl EthersRes {
    /// Res (ethers) -> Option<TraceOutput> (reth)
    pub fn into_reth(self) -> (r: Option<TraceOutput>)
        ensures
            opt_output_view(r) == res_to_reth(self@),
    {
        match self {
            EthersRes::Call(result) => Some(TraceOutput::Call(result.into_reth())),
            EthersRes::Create(result) => Some(TraceOutput::Create(result.into_reth())),
            EthersRes::Absent => None,
        }
    }
}

impl ToEthers<EthersRes> for TraceOutput {
    open spec fn into_ethers_defined(v: SpecTraceOutput) -> bool {
        true
    }

    open spec fn spec_into_ethers(v: SpecTraceOutput) -> SpecEthersRes {
        output_to_ethers(v)
    }

    fn into_ethers(self) -> (r: EthersRes) {
        match self {
            TraceOutput::Call(result) => EthersRes::Call(result.into_ethers()),
            TraceOutput::Create(result) => EthersRes::Create(result.into_ethers()),
        }
    }
}

/// A `reth` output converted to `ethers` and back is the output it was.
pub proof fn lemma_output_round_trip_reth(o: SpecTraceOutput)
    ensures
        res_to_reth(output_to_ethers(o)) == Some(o),
{
}

/// An `ethers` result has a `reth` output exactly when it is not absent, and
/// that output converted back is the result it was.
pub proof fn lemma_res_round_trip_ethers(r: SpecEthersRes)
    ensures
        res_to_reth(r) is Some <==> !(r is Absent),
        res_to_reth(r) matches Some(o) ==> output_to_ethers(o) == r,
{
}


/// A call or creation result converted to `reth` keeps the gas used, the
/// returned output or deployed code, and the created address; an `ethers`
/// result that is absent has no `reth` output.
pub proof fn lemma_res_into_reth_keeps(r: SpecEthersRes, c: SpecCallResult, d: SpecCreateResult)
    ensures
        ({
            let rc = <EthersCallResult as ToReth<CallOutput>>::spec_into_reth(c);
            rc.gas_used == c.gas_used && rc.output == c.output
        }),
        ({
            let rd = <EthersCreateResult as ToReth<CreateOutput>>::spec_into_reth(d);
            rd.gas_used == d.gas_used && rd.code == d.code && rd.address == d.address
        }),
        r matches SpecEthersRes::Call(x) ==> (res_to_reth(r) matches Some(SpecTraceOutput::Call(o))
            && o.gas_used == x.gas_used && o.output == x.output),
        r matches SpecEthersRes::Create(x) ==> (res_to_reth(r) matches Some(
            SpecTraceOutput::Create(o),
        ) && o.gas_used == x.gas_used && o.code == x.code && o.address == x.address),
        r is Absent ==> res_to_reth(r) is None,
{
}

/// A call or creation output converted to `ethers` keeps the gas used, the
/// returned output or deployed code, and the created address.
pub proof fn lemma_output_into_ethers_keeps(o: SpecTraceOutput, c: SpecCallResult, d: SpecCreateResult)
    ensures
        ({
            let ec = <CallOutput as ToEthers<EthersCallResult>>::spec_into_ethers(c);
            ec.gas_used == c.gas_used && ec.output == c.output
        }),
        ({
            let ed = <CreateOutput as ToEthers<EthersCreateResult>>::spec_into_ethers(d);
            ed.gas_used == d.gas_used && ed.code == d.code && ed.address == d.address
        }),
        o matches SpecTraceOutput::Call(x) ==> (<TraceOutput as ToEthers<
            EthersRes,
        >>::spec_into_ethers(o) matches SpecEthersRes::Call(e) && e.gas_used == x.gas_used
            && e.output == x.output),
        o matches SpecTraceOutput::Create(x) ==> (<TraceOutput as ToEthers<
            EthersRes,
        >>::spec_into_ethers(o) matches SpecEthersRes::Create(e) && e.gas_used == x.gas_used
            && e.code == x.code && e.address == x.address),
{
}

} // verus!
