use reth_middleware::action::{Action, CallAction, CallType};
use reth_middleware::block_trace::{
    EthersBlockTrace, EthersTraceType, TraceResults, TraceResultsWithTransactionHash, TraceType,
};
use reth_middleware::convert::{ToEthers, ToReth};
use reth_middleware::diff::{ChangedType, Delta, EthersChangedType, EthersDiff};
use reth_middleware::primitives::{Address, H256, U256};
use reth_middleware::state_diff::{AccountDiff, EthersAccountDiff, EthersStateDiff, StateDiff};
use reth_middleware::transaction_trace::TransactionTrace;

fn word(n: u64) -> U256 {
    U256([n, 0, 0, 0])
}

fn account(seed: u64) -> EthersAccountDiff {
    EthersAccountDiff {
        balance: EthersDiff::Changed(EthersChangedType { from: word(seed), to: word(seed + 1) }),
        nonce: EthersDiff::Same,
        code: EthersDiff::Born(vec![0x60]),
        storage: vec![
            (H256([1; 32]), EthersDiff::Died(H256([2; 32]))),
            (H256([3; 32]), EthersDiff::Same),
        ],
    }
}

fn state() -> EthersStateDiff {
    EthersStateDiff(vec![(Address([4; 20]), account(1)), (Address([9; 20]), account(7))])
}

fn reth_trace() -> TransactionTrace {
    TransactionTrace {
        action: Action::Call(CallAction {
            from: Address([1; 20]),
            to: Address([2; 20]),
            value: word(0),
            gas: word(1),
            input: vec![],
            call_type: CallType::StaticCall,
        }),
        error: None,
        result: None,
        subtraces: 0,
        trace_address: vec![],
    }
}

#[test]
fn trace_types_keep_their_names() {
    for (e, r) in [
        (EthersTraceType::Trace, TraceType::Trace),
        (EthersTraceType::VmTrace, TraceType::VmTrace),
        (EthersTraceType::StateDiff, TraceType::StateDiff),
    ] {
        let to_reth: TraceType = e.into_reth();
        assert_eq!(to_reth, r);
        let to_ethers: EthersTraceType = r.into_ethers();
        assert_eq!(to_ethers, e);
    }
}

#[test]
fn account_diff_converts_change_by_change() {
    let r: AccountDiff = account(1).into_reth();
    assert_eq!(
        r,
        AccountDiff {
            balance: Delta::Changed(ChangedType { from: word(1), to: word(2) }),
            code: Delta::Added(vec![0x60]),
            nonce: Delta::Unchanged,
            storage: vec![
                (H256([1; 32]), Delta::Removed(H256([2; 32]))),
                (H256([3; 32]), Delta::Unchanged),
            ],
        }
    );
}

#[test]
fn state_diff_keeps_accounts_in_order_and_round_trips() {
    let r: StateDiff = state().into_reth();
    let keys: Vec<Address> = r.0.iter().map(|e| e.0).collect();
    assert_eq!(keys, vec![Address([4; 20]), Address([9; 20])]);
    let back: EthersStateDiff = r.into_ethers();
    assert_eq!(back, state());
}

#[test]
fn missing_action_traces_become_empty() {
    let b = EthersBlockTrace {
        output: vec![1, 2],
        trace: None,
        vm_trace: None,
        state_diff: None,
        transaction_hash: None,
    };
    let r: TraceResults = b.into_reth();
    assert_eq!(r, TraceResults { output: vec![1, 2], trace: vec![], vm_trace: None, state_diff: None });
}

#[test]
fn empty_action_traces_become_missing() {
    let r = TraceResults { output: vec![], trace: vec![], vm_trace: None, state_diff: None };
    let b: EthersBlockTrace = r.into_ethers();
    assert_eq!(b.trace, None);
    assert_eq!(b.transaction_hash, None);
}

#[test]
fn present_empty_list_does_not_come_back() {
    let b = EthersBlockTrace {
        output: vec![],
        trace: Some(vec![]),
        vm_trace: None,
        state_diff: None,
        transaction_hash: None,
    };
    let r: TraceResults = b.into_reth();
    let back: EthersBlockTrace = r.into_ethers();
    assert_eq!(back.trace, None);
}

#[test]
fn trace_results_round_trip_from_reth() {
    let sd: StateDiff = state().into_reth();
    let r = TraceResults { output: vec![5], trace: vec![reth_trace()], vm_trace: None, state_diff: Some(sd) };
    let b: EthersBlockTrace = r.into_ethers();
    assert_eq!(b.trace.as_ref().map(|t| t.len()), Some(1));
    assert_eq!(b.state_diff, Some(state()));
    let back: TraceResults = b.into_reth();
    let sd2: StateDiff = state().into_reth();
    assert_eq!(
        back,
        TraceResults { output: vec![5], trace: vec![reth_trace()], vm_trace: None, state_diff: Some(sd2) }
    );
}

#[test]
fn transaction_hash_travels_with_the_traces() {
    let with_hash = TraceResultsWithTransactionHash {
        full_trace: TraceResults { output: vec![], trace: vec![reth_trace()], vm_trace: None, state_diff: None },
        transaction_hash: H256([0x11; 32]),
    };
    let b: EthersBlockTrace = with_hash.into_ethers();
    assert_eq!(b.transaction_hash, Some(H256([0x11; 32])));
    let back: TraceResultsWithTransactionHash = b.into_reth();
    assert_eq!(back.transaction_hash, H256([0x11; 32]));
    assert_eq!(back.full_trace.trace, vec![reth_trace()]);
}

#[test]
fn block_trace_clones_equal() {
    let b = EthersBlockTrace {
        output: vec![3],
        trace: Some(vec![]),
        vm_trace: None,
        state_diff: Some(state()),
        transaction_hash: Some(H256([2; 32])),
    };
    assert_eq!(b.clone(), b);
}
