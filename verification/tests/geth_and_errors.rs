use reth_middleware::convert::{ToEthers, ToReth};
use reth_middleware::error::{RethMiddlewareError, RpcErrorObject};
use reth_middleware::geth::{
    BuiltInTracer, EthersDebugTracingCallOptions, EthersDebugTracingOptions, EthersGethTrace,
    EthersGethTraceFrame, GethDebugTracerConfig, GethDebugTracerType, GethDebugTracingCallOptions,
    GethDebugTracingOptions, GethDefaultTracingOptions, GethTrace,
};

fn ethers_options() -> EthersDebugTracingOptions {
    EthersDebugTracingOptions {
        disable_storage: Some(true),
        disable_stack: Some(false),
        enable_memory: Some(true),
        enable_return_data: None,
        tracer: Some(GethDebugTracerType::BuiltInTracer(BuiltInTracer::CallTracer)),
        tracer_config: Some("{\"onlyTopCall\":true}".to_string()),
        timeout: Some("10s".to_string()),
    }
}

fn default_options() -> GethDebugTracingOptions {
    GethDebugTracingOptions {
        config: GethDefaultTracingOptions {
            enable_memory: None,
            disable_memory: None,
            disable_stack: None,
            disable_storage: None,
            enable_return_data: None,
            disable_return_data: None,
            debug: None,
            limit: None,
        },
        tracer: None,
        tracer_config: GethDebugTracerConfig("null".to_string()),
        timeout: None,
    }
}

#[test]
fn tracing_options_become_the_defaults() {
    let r: GethDebugTracingOptions = ethers_options().into_reth();
    assert_eq!(r, default_options());
    assert_eq!(GethDebugTracingOptions::default(), default_options());
}

#[test]
fn call_options_become_the_defaults_without_overrides() {
    let o = EthersDebugTracingCallOptions {
        tracing_options: ethers_options(),
        state_overrides: Some("{}".to_string()),
        block_overrides: Some("{\"number\":\"0x1\"}".to_string()),
    };
    let r: GethDebugTracingCallOptions = o.into_reth();
    assert_eq!(
        r,
        GethDebugTracingCallOptions {
            tracing_options: default_options(),
            state_overrides: None,
            block_overrides: None,
        }
    );
}

#[test]
fn built_in_frames_keep_their_kind() {
    let cases = vec![
        (GethTrace::Default("{}".to_string()), EthersGethTraceFrame::Default),
        (GethTrace::CallTracer("{}".to_string()), EthersGethTraceFrame::CallTracer),
        (GethTrace::FourByteTracer("{}".to_string()), EthersGethTraceFrame::FourByteTracer),
        (GethTrace::PreStateTracer("{}".to_string()), EthersGethTraceFrame::PreStateTracer),
        (GethTrace::NoopTracer("{}".to_string()), EthersGethTraceFrame::NoopTracer),
    ];
    for (t, kind) in cases {
        let e: EthersGethTrace = t.into_ethers();
        assert_eq!(e, EthersGethTrace::Known(kind));
    }
}

#[test]
fn javascript_trace_keeps_its_json() {
    let t = GethTrace::JS("{\"result\":[1,2]}".to_string());
    let e: EthersGethTrace = t.into_ethers();
    assert_eq!(e, EthersGethTrace::Unknown("{\"result\":[1,2]}".to_string()));
}

#[test]
fn inner_error_is_found_again() {
    let e: RethMiddlewareError<String> = RethMiddlewareError::from_err("connection reset".to_string());
    assert_eq!(e.as_inner(), Some(&"connection reset".to_string()));
    assert!(matches!(e, RethMiddlewareError::MiddlewareError(_)));
}

#[test]
fn api_error_has_no_inner_error() {
    let api = RpcErrorObject { code: -32000, message: "header not found".to_string(), data: None };
    let e: RethMiddlewareError<String> = RethMiddlewareError::from(api.clone());
    assert_eq!(e.as_inner(), None);
    assert_eq!(e, RethMiddlewareError::RethApiError(api));
}
