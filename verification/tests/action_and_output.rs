use reth_middleware::action::{
    Action, CallAction, CallType, CreateAction, EthersAction, EthersActionType, EthersCall,
    EthersCallType, EthersCreate, EthersReward, EthersRewardType, EthersSuicide, RewardAction,
    RewardType, SelfdestructAction,
};
use reth_middleware::convert::{ToEthers, ToReth};
use reth_middleware::diff::{ChangedType, Delta, EthersChangedType, EthersDiff};
use reth_middleware::output::{
    CallOutput, CreateOutput, EthersCallResult, EthersCreateResult, EthersRes, TraceOutput,
};
use reth_middleware::primitives::{Address, U256};

fn addr(b: u8) -> Address {
    Address([b; 20])
}

fn word(n: u64) -> U256 {
    U256([n, 0, 0, 0])
}

#[test]
fn call_types_keep_their_names() {
    let pairs = vec![
        (EthersCallType::Unset, CallType::Unset),
        (EthersCallType::Call, CallType::Call),
        (EthersCallType::CallCode, CallType::CallCode),
        (EthersCallType::DelegateCall, CallType::DelegateCall),
        (EthersCallType::StaticCall, CallType::StaticCall),
    ];
    for (e, r) in pairs {
        let to_reth: CallType = e.into_reth();
        assert_eq!(to_reth, r);
        let to_ethers: EthersCallType = r.into_ethers();
        assert_eq!(to_ethers, e);
    }
}

#[test]
fn call_action_keeps_every_field() {
    let call = EthersAction::Call(EthersCall {
        from: addr(1),
        to: addr(2),
        value: word(3),
        gas: word(21000),
        input: vec![0xde, 0xad],
        call_type: EthersCallType::DelegateCall,
    });
    let r: Action = call.clone().into_reth();
    assert_eq!(
        r,
        Action::Call(CallAction {
            from: addr(1),
            to: addr(2),
            value: word(3),
            gas: word(21000),
            input: vec![0xde, 0xad],
            call_type: CallType::DelegateCall,
        })
    );
    let back: EthersAction = r.into_ethers();
    assert_eq!(back, call);
}

#[test]
fn create_action_round_trips() {
    let create = Action::Create(CreateAction {
        from: addr(7),
        value: word(0),
        gas: word(53000),
        init: vec![0x60, 0x80, 0x60, 0x40],
    });
    let e: EthersAction = create.clone().into_ethers();
    assert_eq!(
        e,
        EthersAction::Create(EthersCreate {
            from: addr(7),
            value: word(0),
            gas: word(53000),
            init: vec![0x60, 0x80, 0x60, 0x40],
        })
    );
    let back: Action = e.into_reth();
    assert_eq!(back, create);
}

#[test]
fn suicide_becomes_selfdestruct() {
    let s = EthersAction::Suicide(EthersSuicide {
        address: addr(3),
        refund_address: addr(4),
        balance: word(99),
    });
    let r: Action = s.into_reth();
    assert_eq!(
        r,
        Action::Selfdestruct(SelfdestructAction {
            address: addr(3),
            refund_address: addr(4),
            balance: word(99),
        })
    );
    let back: EthersAction = r.into_ethers();
    assert_eq!(back.action_type(), EthersActionType::Suicide);
}

#[test]
fn uncle_reward_stays_uncle() {
    let reward = EthersAction::Reward(EthersReward {
        author: addr(9),
        value: word(2),
        reward_type: EthersRewardType::Uncle,
    });
    let r: Action = reward.into_reth();
    assert_eq!(
        r,
        Action::Reward(RewardAction { author: addr(9), value: word(2), reward_type: RewardType::Uncle })
    );
}

#[test]
fn other_rewards_become_block_rewards() {
    for kind in [EthersRewardType::Block, EthersRewardType::EmptyStep, EthersRewardType::External] {
        let reward = EthersAction::Reward(EthersReward {
            author: addr(9),
            value: word(2),
            reward_type: kind,
        });
        let r: Action = reward.into_reth();
        assert_eq!(
            r,
            Action::Reward(RewardAction {
                author: addr(9),
                value: word(2),
                reward_type: RewardType::Block,
            })
        );
        let back: EthersAction = r.into_ethers();
        assert_eq!(
            back,
            EthersAction::Reward(EthersReward {
                author: addr(9),
                value: word(2),
                reward_type: EthersRewardType::Block,
            })
        );
    }
}

#[test]
fn action_type_follows_the_action() {
    let a = EthersAction::Create(EthersCreate {
        from: addr(1),
        value: word(0),
        gas: word(1),
        init: vec![],
    });
    assert_eq!(a.action_type(), EthersActionType::Create);
    let b = EthersAction::Reward(EthersReward {
        author: addr(1),
        value: word(0),
        reward_type: EthersRewardType::Block,
    });
    assert_eq!(b.action_type(), EthersActionType::Reward);
}

#[test]
fn call_and_create_results_convert() {
    let call = EthersRes::Call(EthersCallResult { gas_used: word(5), output: vec![1, 2, 3] });
    assert_eq!(
        call.into_reth(),
        Some(TraceOutput::Call(CallOutput { gas_used: word(5), output: vec![1, 2, 3] }))
    );
    let create = TraceOutput::Create(CreateOutput {
        gas_used: word(6),
        code: vec![0xfe],
        address: addr(5),
    });
    let e: EthersRes = create.into_ethers();
    assert_eq!(
        e,
        EthersRes::Create(EthersCreateResult { gas_used: word(6), code: vec![0xfe], address: addr(5) })
    );
}

#[test]
fn absent_result_has_no_output() {
    assert_eq!(EthersRes::Absent.into_reth(), None);
}

#[test]
fn diffs_map_variant_by_variant() {
    let born: Delta<U256> = EthersDiff::Born(word(1)).into_reth();
    assert_eq!(born, Delta::Added(word(1)));
    let died: Delta<U256> = EthersDiff::Died(word(2)).into_reth();
    assert_eq!(died, Delta::Removed(word(2)));
    let same: Delta<U256> = EthersDiff::Same.into_reth();
    assert_eq!(same, Delta::Unchanged);
    let changed: Delta<Vec<u8>> =
        EthersDiff::Changed(EthersChangedType { from: vec![1], to: vec![2] }).into_reth();
    assert_eq!(changed, Delta::Changed(ChangedType { from: vec![1], to: vec![2] }));
    let back: EthersDiff<Vec<u8>> = changed.into_ethers();
    assert_eq!(back, EthersDiff::Changed(EthersChangedType { from: vec![1], to: vec![2] }));
    let back_same: EthersDiff<U256> = Delta::Unchanged.into_ethers();
    assert_eq!(back_same, EthersDiff::Same);
}
