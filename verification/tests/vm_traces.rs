use reth_middleware::convert::{ToEthers, ToReth};
use reth_middleware::primitives::U256;
use reth_middleware::vm_trace::{
    EthersExecutedInstruction, EthersMemoryDiff, EthersStorageDiff, EthersVMExecutedOperation,
    EthersVMOperation, EthersVMTrace, MemoryDelta, StorageDelta, VmExecutedOperation,
    VmInstruction, VmTrace, INVALID_OPCODE,
};

fn word(n: u64) -> U256 {
    U256([n, 0, 0, 0])
}

fn ethers_leaf_trace() -> EthersVMTrace {
    EthersVMTrace {
        code: vec![0x60, 0x00],
        ops: vec![EthersVMOperation {
            pc: 0,
            cost: 3,
            ex: Some(EthersVMExecutedOperation {
                used: 97,
                push: vec![word(0)],
                mem: None,
                store: None,
            }),
            sub: None,
            op: EthersExecutedInstruction::Known(INVALID_OPCODE),
        }],
    }
}

fn ethers_nested_trace() -> EthersVMTrace {
    EthersVMTrace {
        code: vec![0xf1],
        ops: vec![
            EthersVMOperation {
                pc: 0,
                cost: 700,
                ex: Some(EthersVMExecutedOperation {
                    used: 1000,
                    push: vec![word(1)],
                    mem: Some(EthersMemoryDiff { off: 32, data: vec![7; 4] }),
                    store: Some(EthersStorageDiff { key: word(5), val: word(6) }),
                }),
                sub: Some(ethers_leaf_trace()),
                op: EthersExecutedInstruction::Known(INVALID_OPCODE),
            },
            EthersVMOperation {
                pc: 1,
                cost: 0,
                ex: None,
                sub: None,
                op: EthersExecutedInstruction::Known(INVALID_OPCODE),
            },
        ],
    }
}

#[test]
fn executed_operation_keeps_the_first_push() {
    let x = EthersVMExecutedOperation {
        used: 5,
        push: vec![word(1), word(2), word(3)],
        mem: Some(EthersMemoryDiff { off: 0, data: vec![1] }),
        store: Some(EthersStorageDiff { key: word(9), val: word(8) }),
    };
    let r: VmExecutedOperation = x.into_reth();
    assert_eq!(
        r,
        VmExecutedOperation {
            used: 5,
            push: Some(word(1)),
            mem: Some(MemoryDelta { off: 0, data: vec![1] }),
            store: Some(StorageDelta { key: word(9), val: word(8) }),
        }
    );
}

#[test]
fn executed_operation_pushes_one_word_to_ethers() {
    let x = VmExecutedOperation { used: 2, push: Some(word(4)), mem: None, store: None };
    let e: EthersVMExecutedOperation = x.into_ethers();
    assert_eq!(e.push, vec![word(4)]);
    assert_eq!(e.used, 2);
}

#[test]
fn instruction_gets_the_default_opcode() {
    let i = VmInstruction { pc: 12, cost: 3, ex: None, sub: None };
    let e: EthersVMOperation = i.into_ethers();
    assert_eq!(e.op, EthersExecutedInstruction::Known(0xfe));
    assert_eq!(e.pc, 12);
    assert_eq!(e.cost, 3);
}

#[test]
fn instruction_drops_its_opcode() {
    let e = EthersVMOperation {
        pc: 4,
        cost: 1,
        ex: None,
        sub: None,
        op: EthersExecutedInstruction::Unknown("CUSTOMOP".to_string()),
    };
    let r: VmInstruction = e.into_reth();
    assert_eq!(r, VmInstruction { pc: 4, cost: 1, ex: None, sub: None });
}

#[test]
fn nested_trace_converts_at_every_depth() {
    let r: VmTrace = ethers_nested_trace().into_reth();
    assert_eq!(r.code, vec![0xf1]);
    assert_eq!(r.ops.len(), 2);
    let sub = r.ops[0].sub.as_ref().unwrap();
    assert_eq!(sub.code, vec![0x60, 0x00]);
    assert_eq!(sub.ops[0].ex.as_ref().unwrap().push, Some(word(0)));
    assert_eq!(r.ops[0].ex.as_ref().unwrap().store, Some(StorageDelta { key: word(5), val: word(6) }));
    assert_eq!(r.ops[1].pc, 1);
}

#[test]
fn faithful_nested_trace_round_trips() {
    let r: VmTrace = ethers_nested_trace().into_reth();
    let back: EthersVMTrace = r.into_ethers();
    assert_eq!(back, ethers_nested_trace());
}

#[test]
fn reth_nested_trace_round_trips() {
    let r: VmTrace = ethers_nested_trace().into_reth();
    let e: EthersVMTrace = r.into_ethers();
    let again: VmTrace = e.into_reth();
    let expected: VmTrace = ethers_nested_trace().into_reth();
    assert_eq!(again, expected);
}

#[test]
fn empty_trace_converts_to_empty_trace() {
    let r: VmTrace = EthersVMTrace { code: vec![], ops: vec![] }.into_reth();
    assert_eq!(r, VmTrace { code: vec![], ops: vec![] });
}

#[test]
fn nested_traces_clone_equal() {
    let e = ethers_nested_trace();
    assert_eq!(e.clone(), e);
    let r: VmTrace = ethers_nested_trace().into_reth();
    assert_eq!(r.clone(), r);
    assert_eq!(r.ops[0].clone(), r.ops[0]);
}
