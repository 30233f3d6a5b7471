//! Geth-style debug tracing: the options of a trace request and the traces
//! that come back. JSON payloads (tracer configurations, state and block
//! overrides, tracer frames) are carried as JSON text.
use vstd::prelude::*;
use crate::convert::{ToEthers, ToReth};

verus! {

/// A built-in tracer of the node.
#[derive(Clone, Copy, Debug, PartialEq, Eq)]
pub enum BuiltInTracer {
    FourByteTracer,
    CallTracer,
    PreStateTracer,
    NoopTracer,
}

/// The tracer to run: a built-in one, or JavaScript code.
#[derive(Clone, Debug, PartialEq, Eq)]
pub enum GethDebugTracerType {
    BuiltInTracer(BuiltInTracer),
    JsTracer(String),
}

/// The view of a [`GethDebugTracerType`].
pub enum SpecGethDebugTracerType {
    BuiltInTracer(BuiltInTracer),
    JsTracer(Seq<char>),
}

// ----- ethers schema -----

/// The options of a debug trace request (`ethers`).
#[derive(Clone, Debug, PartialEq, Eq)]
pub struct EthersDebugTracingOptions {
    pub disable_storage: Option<bool>,
    pub disable_stack: Option<bool>,
    pub enable_memory: Option<bool>,
    pub enable_return_data: Option<bool>,
    pub tracer: Option<GethDebugTracerType>,
    /// The tracer's configuration, as JSON text.
    pub tracer_config: Option<String>,
    pub timeout: Option<String>,
}

/// The options of a debug trace request for a call (`ethers`).
#[derive(Clone, Debug, PartialEq, Eq)]
pub struct EthersDebugTracingCallOptions {
    pub tracing_options: EthersDebugTracingOptions,
    /// The state overrides, as JSON text.
    pub state_overrides: Option<String>,
    /// The block overrides, as JSON text.
    pub block_overrides: Option<String>,
}

/// The kind of a known trace frame (`ethers`). A frame of this library always
/// holds the default contents of its kind (for `PreStateTracer`, the default
/// pre-state mode).
#[derive(Clone, Copy, Debug, PartialEq, Eq)]
pub enum EthersGethTraceFrame {
    Default,
    NoopTracer,
    FourByteTracer,
    CallTracer,
    PreStateTracer,
}

/// A debug trace (`ethers`): a known frame, or unknown JSON text.
#[derive(Clone, Debug, PartialEq, Eq)]
pub enum EthersGethTrace {
    Known(EthersGethTraceFrame),
    Unknown(String),
}

/// The view of an [`EthersDebugTracingOptions`].
pub struct SpecEthersDebugTracingOptions {
    pub disable_storage: Option<bool>,
    pub disable_stack: Option<bool>,
    pub enable_memory: Option<bool>,
    pub enable_return_data: Option<bool>,
    pub tracer: Option<SpecGethDebugTracerType>,
    pub tracer_config: Option<Seq<char>>,
    pub timeout: Option<Seq<char>>,
}

/// The view of an [`EthersDebugTracingCallOptions`].
pub struct SpecEthersDebugTracingCallOptions {
    pub tracing_options: SpecEthersDebugTracingOptions,
    pub state_overrides: Option<Seq<char>>,
    pub block_overrides: Option<Seq<char>>,
}

/// The view of an [`EthersGethTrace`].
pub enum SpecEthersGethTrace {
    Known(EthersGethTraceFrame),
    Unknown(Seq<char>),
}

// ----- reth schema -----

/// The switches of the default struct-log tracer (`reth`).
#[derive(Clone, Copy, Debug, PartialEq, Eq)]
pub struct GethDefaultTracingOptions {
    pub enable_memory: Option<bool>,
    pub disable_memory: Option<bool>,
    pub disable_stack: Option<bool>,
    pub disable_storage: Option<bool>,
    pub enable_return_data: Option<bool>,
    pub disable_return_data: Option<bool>,
    pub debug: Option<bool>,
    pub limit: Option<u64>,
}

/// The tracer's configuration (`reth`), as JSON text.
#[derive(Clone, Debug, PartialEq, Eq)]
pub struct GethDebugTracerConfig(pub String);

/// The options of a debug trace request (`reth`).
#[derive(Clone, Debug, PartialEq, Eq)]
pub struct GethDebugTracingOptions {
    pub config: GethDefaultTracingOptions,
    pub tracer: Option<GethDebugTracerType>,
    pub tracer_config: GethDebugTracerConfig,
    pub timeout: Option<String>,
}

/// The options of a debug trace request for a call (`reth`).
#[derive(Clone, Debug, PartialEq, Eq)]
pub struct GethDebugTracingCallOptions {
    pub tracing_options: GethDebugTracingOptions,
    /// The state overrides, as JSON text.
    pub state_overrides: Option<String>,
    /// The block overrides, as JSON text.
    pub block_overrides: Option<String>,
}

/// A debug trace (`reth`): the frame of the tracer that ran, as JSON text.
#[derive(Clone, Debug, PartialEq, Eq)]
pub enum GethTrace {
    Default(String),
    CallTracer(String),
    FourByteTracer(String),
    PreStateTracer(String),
    NoopTracer(String),
    JS(String),
}

/// The view of a [`GethDebugTracingOptions`].
pub struct SpecGethDebugTracingOptions {
    pub config: GethDefaultTracingOptions,
    pub tracer: Option<SpecGethDebugTracerType>,
    pub tracer_config: Seq<char>,
    pub timeout: Option<Seq<char>>,
}

/// The view of a [`GethDebugTracingCallOptions`].
pub struct SpecGethDebugTracingCallOptions {
    pub tracing_options: SpecGethDebugTracingOptions,
    pub state_overrides: Option<Seq<char>>,
    pub block_overrides: Option<Seq<char>>,
}

/// The view of a [`GethTrace`].
pub enum SpecGethTrace {
    Default(Seq<char>),
    CallTracer(Seq<char>),
    FourByteTracer(Seq<char>),
    PreStateTracer(Seq<char>),
    NoopTracer(Seq<char>),
    JS(Seq<char>),
}

// ----- views -----

/// The view of an optional string.
pub open spec fn opt_text_view(s: Option<String>) -> Option<Seq<char>> {
    match s {
        Some(x) => Some(x@),
        None => None,
    }
}

/// The view of an optional tracer.
pub open spec fn opt_tracer_view(t: Option<GethDebugTracerType>) -> Option<SpecGethDebugTracerType> {
    match t {
        Some(x) => Some(x@),
        None => None,
    }
}

impl View for GethDebugTracerType {
    type V = SpecGethDebugTracerType;

    open spec fn view(&self) -> SpecGethDebugTracerType {
        match self {
            GethDebugTracerType::BuiltInTracer(b) => SpecGethDebugTracerType::BuiltInTracer(*b),
            GethDebugTracerType::JsTracer(code) => SpecGethDebugTracerType::JsTracer(code@),
        }
    }
}

impl View for EthersDebugTracingOptions {
    type V = SpecEthersDebugTracingOptions;

    open spec fn view(&self) -> SpecEthersDebugTracingOptions {
        SpecEthersDebugTracingOptions {
            disable_storage: self.disable_storage,
            disable_stack: self.disable_stack,
            enable_memory: self.enable_memory,
            enable_return_data: self.enable_return_data,
            tracer: opt_tracer_view(self.tracer),
            tracer_config: opt_text_view(self.tracer_config),
            timeout: opt_text_view(self.timeout),
        }
    }
}

impl View for EthersDebugTracingCallOptions {
    type V = SpecEthersDebugTracingCallOptions;

    open spec fn view(&self) -> SpecEthersDebugTracingCallOptions {
        SpecEthersDebugTracingCallOptions {
            tracing_options: self.tracing_options@,
            state_overrides: opt_text_view(self.state_overrides),
            block_overrides: opt_text_view(self.block_overrides),
        }
    }
}

impl View for EthersGethTrace {
    type V = SpecEthersGethTrace;

    open spec fn view(&self) -> SpecEthersGethTrace {
        match self {
            EthersGethTrace::Known(f) => SpecEthersGethTrace::Known(*f),
            EthersGethTrace::Unknown(v) => SpecEthersGethTrace::Unknown(v@),
        }
    }
}

impl View for GethDebugTracingOptions {
    type V = SpecGethDebugTracingOptions;

    open spec fn view(&self) -> SpecGethDebugTracingOptions {
        SpecGethDebugTracingOptions {
            config: self.config,
            tracer: opt_tracer_view(self.tracer),
            tracer_config: self.tracer_config.0@,
            timeout: opt_text_view(self.timeout),
        }
    }
}

impl View for GethDebugTracingCallOptions {
    type V = SpecGethDebugTracingCallOptions;

    open spec fn view(&self) -> SpecGethDebugTracingCallOptions {
        SpecGethDebugTracingCallOptions {
            tracing_options: self.tracing_options@,
            state_overrides: opt_text_view(self.state_overrides),
            block_overrides: opt_text_view(self.block_overrides),
        }
    }
}

impl View for GethTrace {
    type V = SpecGethTrace;

    open spec fn view(&self) -> SpecGethTrace {
        match self {
            GethTrace::Default(f) => SpecGethTrace::Default(f@),
            GethTrace::CallTracer(f) => SpecGethTrace::CallTracer(f@),
            GethTrace::FourByteTracer(f) => SpecGethTrace::FourByteTracer(f@),
            GethTrace::PreStateTracer(f) => SpecGethTrace::PreStateTracer(f@),
            GethTrace::NoopTracer(f) => SpecGethTrace::NoopTracer(f@),
            GethTrace::JS(v) => SpecGethTrace::JS(v@),
        }
    }
}

// ----- defaults -----

/// The default switches: none is set.
pub open spec fn default_tracing_switches() -> GethDefaultTracingOptions {
    GethDefaultTracingOptions {
        enable_memory: None,
        disable_memory: None,
        disable_stack: None,
        disable_storage: None,
        enable_return_data: None,
        disable_return_data: None,
        debug: None,
        limit: None,
    }
}

/// The default tracer configuration: JSON `null`.
pub open spec fn default_tracer_config() -> Seq<char> {
    "null"@
}

/// The default options of a debug trace request: no switch, no tracer, a
/// `null` tracer configuration and no timeout.
pub open spec fn default_tracing_options() -> SpecGethDebugTracingOptions {
    SpecGethDebugTracingOptions {
        config: default_tracing_switches(),
        tracer: None,
        tracer_config: default_tracer_config(),
        timeout: None,
    }
}

impl Default for GethDefaultTracingOptions {
    fn default() -> (r: GethDefaultTracingOptions)
        ensures
            r == default_tracing_switches(),
    {
        GethDefaultTracingOptions {
            enable_memory: None,
            disable_memory: None,
            disable_stack: None,
            disable_storage: None,
            enable_return_data: None,
            disable_return_data: None,
            debug: None,
            limit: None,
        }
    }
}

impl Default for GethDebugTracerConfig {
    fn default() -> (r: GethDebugTracerConfig)
        ensures
            r.0@ == default_tracer_config(),
    {
        GethDebugTracerConfig("null".to_owned())
    }
}

impl Default for GethDebugTracingOptions {
    fn default() -> (r: GethDebugTracingOptions)
        ensures
            r@ == default_tracing_options(),
    {
        GethDebugTracingOptions {
            config: GethDefaultTracingOptions::default(),
            tracer: None,
            tracer_config: GethDebugTracerConfig::default(),
            timeout: None,
        }
    }
}

// ----- specifications -----

/// A `reth` debug trace as `ethers` carries it: a frame of a built-in tracer
/// becomes a known frame of the same kind, with default contents; the JSON
/// of a JavaScript tracer becomes an unknown trace with the same text.
pub open spec fn geth_trace_to_ethers(t: SpecGethTrace) -> SpecEthersGethTrace {
    match t {
        SpecGethTrace::Default(_) => SpecEthersGethTrace::Known(EthersGethTraceFrame::Default),
        SpecGethTrace::CallTracer(_) => SpecEthersGethTrace::Known(EthersGethTraceFrame::CallTracer),
        SpecGethTrace::FourByteTracer(_) => SpecEthersGethTrace::Known(
            EthersGethTraceFrame::FourByteTracer,
        ),
        SpecGethTrace::PreStateTracer(_) => SpecEthersGethTrace::Known(
            EthersGethTraceFrame::PreStateTracer,
        ),
        SpecGethTrace::NoopTracer(_) => SpecEthersGethTrace::Known(EthersGethTraceFrame::NoopTracer),
        SpecGethTrace::JS(v) => SpecEthersGethTrace::Unknown(v),
    }
}

/// The `reth` call options for any `ethers` call options: the default
/// tracing options and no overrides.
pub open spec fn call_options_to_reth() -> SpecGethDebugTracingCallOptions {
    SpecGethDebugTracingCallOptions {
        tracing_options: default_tracing_options(),
        state_overrides: None,
        block_overrides: None,
    }
}

// ----- conversions -----

/// GethDebugTracingCallOptions (ethers) -> (reth)
impl ToReth<GethDebugTracingCallOptions> for EthersDebugTracingCallOptions {
    open spec fn into_reth_defined(v: SpecEthersDebugTracingCallOptions) -> bool {
        true
    }

    open spec fn spec_into_reth(v: SpecEthersDebugTracingCallOptions) -> SpecGethDebugTracingCallOptions {
        call_options_to_reth()
    }

    fn into_reth(self) -> (r: GethDebugTracingCallOptions) {
        GethDebugTracingCallOptions {
            tracing_options: GethDebugTracingOptions::default(),
            state_overrides: None,
            block_overrides: None,
        }
    }
}

/// GethDebugTracingOptions (ethers) -> (reth)
impl ToReth<GethDebugTracingOptions> for EthersDebugTracingOptions {
    open spec fn into_reth_defined(v: SpecEthersDebugTracingOptions) -> bool {
        true
    }

    open spec fn spec_into_reth(v: SpecEthersDebugTracingOptions) -> SpecGethDebugTracingOptions {
        default_tracing_options()
    }

    fn into_reth(self) -> (r: GethDebugTracingOptions) {
        GethDebugTracingOptions {
            config: GethDefaultTracingOptions::default(),
            tracer: None,
            tracer_config: GethDebugTracerConfig::default(),
            timeout: None,
        }
    }
}

/// GethTrace (reth) -> (ethers)
impl ToEthers<EthersGethTrace> for GethTrace {
    open spec fn into_ethers_defined(v: SpecGethTrace) -> bool {
        true
    }

    open spec fn spec_into_ethers(v: SpecGethTrace) -> SpecEthersGethTrace {
        geth_trace_to_ethers(v)
    }

    fn into_ethers(self) -> (r: EthersGethTrace) {
        match self {
            GethTrace::Default(_) => EthersGethTrace::Known(EthersGethTraceFrame::Default),
            GethTrace::CallTracer(_) => EthersGethTrace::Known(EthersGethTraceFrame::CallTracer),
            GethTrace::FourByteTracer(_) => EthersGethTrace::Known(
                EthersGethTraceFrame::FourByteTracer,
            ),
            GethTrace::PreStateTracer(_) => EthersGethTrace::Known(
                EthersGethTraceFrame::PreStateTracer,
            ),
            GethTrace::NoopTracer(_) => EthersGethTrace::Known(EthersGethTraceFrame::NoopTracer),
            GethTrace::JS(value) => EthersGethTrace::Unknown(value),
        }
    }
}

// ----- laws -----

/// The options of an `ethers` trace request do not reach `reth`: any two
/// requests convert to the same options, the default ones.
pub proof fn lemma_tracing_options_discarded(
    a: SpecEthersDebugTracingOptions,
    b: SpecEthersDebugTracingOptions,
)
    ensures
        <EthersDebugTracingOptions as ToReth<GethDebugTracingOptions>>::spec_into_reth(a)
            == <EthersDebugTracingOptions as ToReth<GethDebugTracingOptions>>::spec_into_reth(b),
        <EthersDebugTracingOptions as ToReth<GethDebugTracingOptions>>::spec_into_reth(a)
            == default_tracing_options(),
{
}

/// The call options of an `ethers` trace request do not reach `reth`: any
/// two requests convert to the same options, the default ones with no
/// overrides.
pub proof fn lemma_call_options_discarded(
    a: SpecEthersDebugTracingCallOptions,
    b: SpecEthersDebugTracingCallOptions,
)
    ensures
        <EthersDebugTracingCallOptions as ToReth<GethDebugTracingCallOptions>>::spec_into_reth(a)
            == <EthersDebugTracingCallOptions as ToReth<
            GethDebugTracingCallOptions,
        >>::spec_into_reth(b),
        <EthersDebugTracingCallOptions as ToReth<GethDebugTracingCallOptions>>::spec_into_reth(a)
            == call_options_to_reth(),
{
}

/// Only the JSON of a JavaScript tracer reaches `ethers` unchanged; a frame
/// of a built-in tracer keeps only its kind.
pub proof fn lemma_geth_trace_kind_kept(t: SpecGethTrace)
    ensures
        geth_trace_to_ethers(t) is Unknown <==> t is JS,
        t matches SpecGethTrace::JS(v) ==> geth_trace_to_ethers(t) == SpecEthersGethTrace::Unknown(
            v,
        ),
{
}


/// A `reth` debug trace converted to `ethers`: the frame of each built-in
/// tracer becomes a known frame of the same tracer, and the JSON of a
/// JavaScript tracer becomes an unknown trace with the same text.
pub proof fn lemma_geth_trace_into_ethers_keeps(t: SpecGethTrace)
    ensures
        ({
            let e = <GethTrace as ToEthers<EthersGethTrace>>::spec_into_ethers(t);
            &&& (t is Default <==> e == SpecEthersGethTrace::Known(EthersGethTraceFrame::Default))
            &&& (t is CallTracer <==> e == SpecEthersGethTrace::Known(
                EthersGethTraceFrame::CallTracer,
            ))
            &&& (t is FourByteTracer <==> e == SpecEthersGethTrace::Known(
                EthersGethTraceFrame::FourByteTracer,
            ))
            &&& (t is PreStateTracer <==> e == SpecEthersGethTrace::Known(
                EthersGethTraceFrame::PreStateTracer,
            ))
            &&& (t is NoopTracer <==> e == SpecEthersGethTrace::Known(
                EthersGethTraceFrame::NoopTracer,
            ))
            &&& (t is JS <==> e is Unknown)
            &&& (t matches SpecGethTrace::JS(v) ==> e == SpecEthersGethTrace::Unknown(v))
        }),
{
}

} // verus!
