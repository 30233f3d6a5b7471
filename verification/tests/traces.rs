use reth_middleware::action::{
    Action, CallAction, CallType, EthersAction, EthersActionType, EthersCall, EthersCallType,
    EthersReward, EthersRewardType, RewardAction, RewardType,
};
use reth_middleware::convert::{ToEthers, ToReth};
use reth_middleware::output::{CallOutput, EthersCallResult, EthersRes, TraceOutput};
use reth_middleware::primitives::{Address, H256, U256};
use reth_middleware::transaction_trace::{
    EthersTrace, EthersTransactionTrace, LocalizedTransactionTrace, TransactionTrace,
};

fn addr(b: u8) -> Address {
    Address([b; 20])
}

fn hash(b: u8) -> H256 {
    H256([b; 32])
}

fn word(n: u64) -> U256 {
    U256([n, 0, 0, 0])
}

fn ethers_call() -> EthersAction {
    EthersAction::Call(EthersCall {
        from: addr(1),
        to: addr(2),
        value: word(10),
        gas: word(30000),
        input: vec![0xa9, 0x05, 0x9c, 0xbb],
        call_type: EthersCallType::Call,
    })
}

fn reth_call() -> Action {
    Action::Call(CallAction {
        from: addr(1),
        to: addr(2),
        value: word(10),
        gas: word(30000),
        input: vec![0xa9, 0x05, 0x9c, 0xbb],
        call_type: CallType::Call,
    })
}

fn ethers_trace(result: Option<EthersRes>) -> EthersTrace {
    EthersTrace {
        action: ethers_call(),
        result,
        trace_address: vec![0, 2],
        subtraces: 1,
        transaction_position: Some(4),
        transaction_hash: Some(hash(0xaa)),
        block_number: 17_000_000,
        block_hash: hash(0xbb),
        action_type: EthersActionType::Call,
        error: None,
    }
}

#[test]
fn trace_drops_its_placement() {
    let call_result = EthersRes::Call(EthersCallResult { gas_used: word(21), output: vec![1] });
    let t: TransactionTrace = ethers_trace(Some(call_result)).into_reth();
    assert_eq!(
        t,
        TransactionTrace {
            action: reth_call(),
            error: None,
            result: Some(TraceOutput::Call(CallOutput { gas_used: word(21), output: vec![1] })),
            subtraces: 1,
            trace_address: vec![0, 2],
        }
    );
}

#[test]
fn absent_and_missing_results_give_none() {
    let absent: TransactionTrace = ethers_trace(Some(EthersRes::Absent)).into_reth();
    assert_eq!(absent.result, None);
    let missing: TransactionTrace = ethers_trace(None).into_reth();
    assert_eq!(missing.result, None);
}

#[test]
fn localized_trace_keeps_its_placement() {
    let l: LocalizedTransactionTrace = ethers_trace(None).into_reth();
    assert_eq!(l.block_number, Some(17_000_000));
    assert_eq!(l.block_hash, Some(hash(0xbb)));
    assert_eq!(l.transaction_hash, Some(hash(0xaa)));
    assert_eq!(l.transaction_position, Some(4));
    let plain: TransactionTrace = ethers_trace(None).into_reth();
    assert_eq!(l.trace, plain);
}

#[test]
fn localized_trace_round_trips() {
    let original = ethers_trace(Some(EthersRes::Call(EthersCallResult {
        gas_used: word(3),
        output: vec![],
    })));
    let l: LocalizedTransactionTrace = original.clone().into_reth();
    let back: EthersTrace = l.into_ethers();
    assert_eq!(back, original);
}

#[test]
fn localized_to_ethers_derives_the_action_type() {
    let l = LocalizedTransactionTrace {
        trace: TransactionTrace {
            action: Action::Reward(RewardAction {
                author: addr(5),
                value: word(2),
                reward_type: RewardType::Uncle,
            }),
            error: Some("out of gas".to_string()),
            result: None,
            subtraces: 0,
            trace_address: vec![],
        },
        block_hash: Some(hash(3)),
        block_number: Some(12),
        transaction_hash: None,
        transaction_position: None,
    };
    let e: EthersTrace = l.into_ethers();
    assert_eq!(e.action_type, EthersActionType::Reward);
    assert_eq!(
        e.action,
        EthersAction::Reward(EthersReward {
            author: addr(5),
            value: word(2),
            reward_type: EthersRewardType::Uncle,
        })
    );
    assert_eq!(e.block_number, 12);
    assert_eq!(e.block_hash, hash(3));
    assert_eq!(e.error, Some("out of gas".to_string()));
    assert_eq!(e.result, None);
    assert_eq!(e.transaction_position, None);
}

#[test]
fn transaction_trace_round_trips_from_reth() {
    let t = TransactionTrace {
        action: reth_call(),
        error: None,
        result: Some(TraceOutput::Call(CallOutput { gas_used: word(8), output: vec![9, 9] })),
        subtraces: 2,
        trace_address: vec![1],
    };
    let e: EthersTransactionTrace = t.clone().into_ethers();
    assert_eq!(e.action_type, EthersActionType::Call);
    assert_eq!(e.result, Some(EthersRes::Call(EthersCallResult { gas_used: word(8), output: vec![9, 9] })));
    let back: TransactionTrace = e.into_reth();
    assert_eq!(back, t);
}

#[test]
fn transaction_trace_with_mismatched_kind_comes_back_corrected() {
    let e = EthersTransactionTrace {
        trace_address: vec![],
        subtraces: 0,
        action: ethers_call(),
        action_type: EthersActionType::Create,
        result: None,
        error: None,
    };
    let r: TransactionTrace = e.into_reth();
    let back: EthersTransactionTrace = r.into_ethers();
    assert_eq!(back.action_type, EthersActionType::Call);
}
