//! State differences: for each account touched by a transaction, how its
//! balance, nonce, code and storage slots changed. Accounts and storage
//! slots are the entries of ordered maps: each key occurs once, and the keys
//! ascend (bytes compared in order, as the maps of both schemas order them).
use vstd::prelude::*;
use crate::convert::{all_into_ethers, all_into_reth, ToEthers, ToReth};
use crate::diff::{delta_to_diff, diff_to_delta, Delta, EthersDiff};
use crate::primitives::{Address, Bytes, H256, U256};

verus! {

/// How one account changed (`ethers`).
#[derive(Clone, Debug, PartialEq, Eq)]
pub struct EthersAccountDiff {
    pub balance: EthersDiff<U256>,
    pub nonce: EthersDiff<U256>,
    pub code: EthersDiff<Bytes>,
    pub storage: Vec<(H256, EthersDiff<H256>)>,
}

/// How every touched account changed (`ethers`).
#[derive(Clone, Debug, PartialEq, Eq)]
pub struct EthersStateDiff(pub Vec<(Address, EthersAccountDiff)>);

/// How one account changed (`reth`).
#[derive(Clone, Debug, PartialEq, Eq)]
pub struct AccountDiff {
    pub balance: Delta<U256>,
    pub code: Delta<Bytes>,
    pub nonce: Delta<U256>,
    pub storage: Vec<(H256, Delta<H256>)>,
}

/// How every touched account changed (`reth`).
#[derive(Clone, Debug, PartialEq, Eq)]
pub struct StateDiff(pub Vec<(Address, AccountDiff)>);

/// The view of an [`EthersAccountDiff`].
pub struct SpecEthersAccountDiff {
    pub balance: EthersDiff<U256>,
    pub nonce: EthersDiff<U256>,
    pub code: EthersDiff<Seq<u8>>,
    pub storage: Seq<(H256, EthersDiff<H256>)>,
}

/// The view of an [`AccountDiff`].
pub struct SpecAccountDiff {
    pub balance: Delta<U256>,
    pub code: Delta<Seq<u8>>,
    pub nonce: Delta<U256>,
    pub storage: Seq<(H256, Delta<H256>)>,
}

impl View for EthersAccountDiff {
    type V = SpecEthersAccountDiff;

    open spec fn view(&self) -> SpecEthersAccountDiff {
        SpecEthersAccountDiff {
            balance: self.balance@,
            nonce: self.nonce@,
            code: self.code@,
            storage: self.storage@.map_values(|e: (H256, EthersDiff<H256>)| e@),
        }
    }
}

impl View for AccountDiff {
    type V = SpecAccountDiff;

    open spec fn view(&self) -> SpecAccountDiff {
        SpecAccountDiff {
            balance: self.balance@,
            code: self.code@,
            nonce: self.nonce@,
            storage: self.storage@.map_values(|e: (H256, Delta<H256>)| e@),
        }
    }
}

impl View for EthersStateDiff {
    type V = Seq<(Address, SpecEthersAccountDiff)>;

    open spec fn view(&self) -> Seq<(Address, SpecEthersAccountDiff)> {
        self.0@.map_values(|e: (Address, EthersAccountDiff)| e@)
    }
}

impl View for StateDiff {
    type V = Seq<(Address, SpecAccountDiff)>;

    open spec fn view(&self) -> Seq<(Address, SpecAccountDiff)> {
        self.0@.map_values(|e: (Address, AccountDiff)| e@)
    }
}

/// `a` comes before `b` in the order of byte strings: at the first place
/// where they differ, `a` has the smaller byte.
pub open spec fn bytes_lt(a: Seq<u8>, b: Seq<u8>) -> bool {
    exists|i: int| 0 <= i < a.len() && i < b.len() && a.take(i) == b.take(i) && a[i] < b[i]
}

/// `a` comes before `b` in the order of addresses.
pub open spec fn address_lt(a: Address, b: Address) -> bool {
    bytes_lt(a.0@, b.0@)
}

/// `a` comes before `b` in the order of storage slots.
pub open spec fn slot_lt(a: H256, b: H256) -> bool {
    bytes_lt(a.0@, b.0@)
}

/// The accounts of these entries ascend, so each occurs once.
pub open spec fn accounts_ascending<V>(s: Seq<(Address, V)>) -> bool {
    forall|i: int, j: int| 0 <= i < j < s.len() ==> address_lt(#[trigger] s[i].0, #[trigger] s[j].0)
}

/// The storage slots of these entries ascend, so each occurs once.
pub open spec fn slots_ascending<V>(s: Seq<(H256, V)>) -> bool {
    forall|i: int, j: int| 0 <= i < j < s.len() ==> slot_lt(#[trigger] s[i].0, #[trigger] s[j].0)
}

/// No key occurs twice among the entries.
pub open spec fn keys_distinct<K, V>(s: Seq<(K, V)>) -> bool {
    forall|i: int, j: int| 0 <= i < j < s.len() ==> #[trigger] s[i].0 != #[trigger] s[j].0
}

/// An `ethers` state change holds its accounts, and each account its storage
/// slots, as ordered maps do.
pub open spec fn ethers_state_diff_ordered(s: Seq<(Address, SpecEthersAccountDiff)>) -> bool {
    &&& accounts_ascending(s)
    &&& forall|k: int| 0 <= k < s.len() ==> slots_ascending(#[trigger] s[k].1.storage)
}

/// A `reth` state change holds its accounts, and each account its storage
/// slots, as ordered maps do.
pub open spec fn state_diff_ordered(s: Seq<(Address, SpecAccountDiff)>) -> bool {
    &&& accounts_ascending(s)
    &&& forall|k: int| 0 <= k < s.len() ==> slots_ascending(#[trigger] s[k].1.storage)
}

/// The keys of the entries, in order.
pub open spec fn keys_of<K, V>(s: Seq<(K, V)>) -> Seq<K> {
    s.map_values(|e: (K, V)| e.0)
}

/// An `ethers` account change as `reth` carries it, change by change.
pub open spec fn account_to_reth(a: SpecEthersAccountDiff) -> SpecAccountDiff {
    SpecAccountDiff {
        balance: diff_to_delta(a.balance),
        code: diff_to_delta(a.code),
        nonce: diff_to_delta(a.nonce),
        storage: a.storage.map_values(|e: (H256, EthersDiff<H256>)| (e.0, diff_to_delta(e.1))),
    }
}

/// A `reth` account change as `ethers` carries it, change by change.
pub open spec fn account_to_ethers(a: SpecAccountDiff) -> SpecEthersAccountDiff {
    SpecEthersAccountDiff {
        balance: delta_to_diff(a.balance),
        nonce: delta_to_diff(a.nonce),
        code: delta_to_diff(a.code),
        storage: a.storage.map_values(|e: (H256, Delta<H256>)| (e.0, delta_to_diff(e.1))),
    }
}

/// An `ethers` state change as `reth` carries it, account by account.
pub open spec fn state_diff_to_reth(s: Seq<(Address, SpecEthersAccountDiff)>) -> Seq<
    (Address, SpecAccountDiff),
> {
    s.map_values(|e: (Address, SpecEthersAccountDiff)| (e.0, account_to_reth(e.1)))
}

/// A `reth` state change as `ethers` carries it, account by account.
pub open spec fn state_diff_to_ethers(s: Seq<(Address, SpecAccountDiff)>) -> Seq<
    (Address, SpecEthersAccountDiff),
> {
    s.map_values(|e: (Address, SpecAccountDiff)| (e.0, account_to_ethers(e.1)))
}

/// AccountDiff (ethers) -> (reth)
impl ToReth<AccountDiff> for EthersAccountDiff {
    /// The storage slots must ascend, as in an ordered map.
    open spec fn into_reth_defined(v: SpecEthersAccountDiff) -> bool {
        slots_ascending(v.storage)
    }

    open spec fn spec_into_reth(v: SpecEthersAccountDiff) -> SpecAccountDiff {
        account_to_reth(v)
    }

    fn into_reth(self) -> (r: AccountDiff) {
        let ghost s0 = self@;
        let storage = all_into_reth(self.storage);
        let r = AccountDiff {
            balance: self.balance.into_reth(),
            nonce: self.nonce.into_reth(),
            code: self.code.into_reth(),
            storage,
        };
        assert(r@.storage =~= s0.storage.map_values(
            |e: (H256, EthersDiff<H256>)| (e.0, diff_to_delta(e.1)),
        ));
        r
    }
}

/// AccountDiff (reth) -> (ethers)
impl ToEthers<EthersAccountDiff> for AccountDiff {
    /// The storage slots must ascend, as in an ordered map.
    open spec fn into_ethers_defined(v: SpecAccountDiff) -> bool {
        slots_ascending(v.storage)
    }

    open spec fn spec_into_ethers(v: SpecAccountDiff) -> SpecEthersAccountDiff {
        account_to_ethers(v)
    }

    fn into_ethers(self) -> (r: EthersAccountDiff) {
        let ghost s0 = self@;
        let storage = all_into_ethers(self.storage);
        let r = EthersAccountDiff {
            balance: self.balance.into_ethers(),
            nonce: self.nonce.into_ethers(),
            code: self.code.into_ethers(),
            storage,
        };
        assert(r@.storage =~= s0.storage.map_values(
            |e: (H256, Delta<H256>)| (e.0, delta_to_diff(e.1)),
        ));
        r
    }
}

/// StateDiff (ethers) -> (reth)
impl ToReth<StateDiff> for EthersStateDiff {
    /// The accounts, and the storage slots of each, must ascend, as in
    /// ordered maps.
    open spec fn into_reth_defined(v: Seq<(Address, SpecEthersAccountDiff)>) -> bool {
        ethers_state_diff_ordered(v)
    }

    open spec fn spec_into_reth(v: Seq<(Address, SpecEthersAccountDiff)>) -> Seq<
        (Address, SpecAccountDiff),
    > {
        state_diff_to_reth(v)
    }

    fn into_reth(self) -> (r: StateDiff) {
        let ghost s0 = self@;
        assert forall|k: int| 0 <= k < self.0@.len() implies <EthersAccountDiff as ToReth<
            AccountDiff,
        >>::into_reth_defined(#[trigger] self.0@[k]@.1) by {
            assert(s0[k] == self.0@[k]@);
        }
        let r = StateDiff(all_into_reth(self.0));
        assert(r@ =~= state_diff_to_reth(s0));
        r
    }
}

/// StateDiff (reth) -> (ethers)
impl ToEthers<EthersStateDiff> for StateDiff {
    /// The accounts, and the storage slots of each, must ascend, as in
    /// ordered maps.
    open spec fn into_ethers_defined(v: Seq<(Address, SpecAccountDiff)>) -> bool {
        state_diff_ordered(v)
    }

    open spec fn spec_into_ethers(v: Seq<(Address, SpecAccountDiff)>) -> Seq<
        (Address, SpecEthersAccountDiff),
    > {
        state_diff_to_ethers(v)
    }

    fn into_ethers(self) -> (r: EthersStateDiff) {
        let ghost s0 = self@;
        assert forall|k: int| 0 <= k < self.0@.len() implies <AccountDiff as ToEthers<
            EthersAccountDiff,
        >>::into_ethers_defined(#[trigger] self.0@[k]@.1) by {
            assert(s0[k] == self.0@[k]@);
        }
        let r = EthersStateDiff(all_into_ethers(self.0));
        assert(r@ =~= state_diff_to_ethers(s0));
        r
    }
}

// ----- laws -----

/// A `reth` account change converted to `ethers` and back is the change it
/// was.
pub proof fn lemma_account_round_trip_reth(a: SpecAccountDiff)
    ensures
        account_to_reth(account_to_ethers(a)) == a,
{
    assert(account_to_reth(account_to_ethers(a)).storage =~= a.storage);
}

/// An `ethers` account change converted to `reth` and back is the change it
/// was.
pub proof fn lemma_account_round_trip_ethers(a: SpecEthersAccountDiff)
    ensures
        account_to_ethers(account_to_reth(a)) == a,
{
    assert(account_to_ethers(account_to_reth(a)).storage =~= a.storage);
}

/// A `reth` state change converted to `ethers` and back is the change it
/// was.
pub proof fn lemma_state_diff_round_trip_reth(s: Seq<(Address, SpecAccountDiff)>)
    ensures
        state_diff_to_reth(state_diff_to_ethers(s)) == s,
{
    assert forall|k: int| 0 <= k < s.len() implies #[trigger] state_diff_to_reth(
        state_diff_to_ethers(s),
    )[k] == s[k] by {
        lemma_account_round_trip_reth(s[k].1);
    }
    assert(state_diff_to_reth(state_diff_to_ethers(s)) =~= s);
}

/// An `ethers` state change converted to `reth` and back is the change it
/// was.
pub proof fn lemma_state_diff_round_trip_ethers(s: Seq<(Address, SpecEthersAccountDiff)>)
    ensures
        state_diff_to_ethers(state_diff_to_reth(s)) == s,
{
    assert forall|k: int| 0 <= k < s.len() implies #[trigger] state_diff_to_ethers(
        state_diff_to_reth(s),
    )[k] == s[k] by {
        lemma_account_round_trip_ethers(s[k].1);
    }
    assert(state_diff_to_ethers(state_diff_to_reth(s)) =~= s);
}

/// Keys that ascend occur once each.
pub proof fn lemma_ascending_keys_distinct<V, W>(s: Seq<(Address, V)>, t: Seq<(H256, W)>)
    ensures
        accounts_ascending(s) ==> keys_distinct(s),
        slots_ascending(t) ==> keys_distinct(t),
{
    if accounts_ascending(s) {
        assert forall|i: int, j: int| 0 <= i < j < s.len() implies #[trigger] s[i].0 != #[trigger] s[j].0 by {
            assert(address_lt(s[i].0, s[j].0));
        }
    }
    if slots_ascending(t) {
        assert forall|i: int, j: int| 0 <= i < j < t.len() implies #[trigger] t[i].0 != #[trigger] t[j].0 by {
            assert(slot_lt(t[i].0, t[j].0));
        }
    }
}

/// The conversion to `reth` keeps the accounts, in order, and the storage
/// slots of each account, in order; so an ordered state change stays
/// ordered.
pub proof fn lemma_state_diff_keys_kept_ethers(s: Seq<(Address, SpecEthersAccountDiff)>)
    ensures
        keys_of(state_diff_to_reth(s)) == keys_of(s),
        forall|k: int|
            0 <= k < s.len() ==> keys_of(#[trigger] state_diff_to_reth(s)[k].1.storage) == keys_of(
                s[k].1.storage,
            ),
        ethers_state_diff_ordered(s) ==> state_diff_ordered(state_diff_to_reth(s)),
{
    let r = state_diff_to_reth(s);
    assert(keys_of(r) =~= keys_of(s));
    assert forall|k: int| 0 <= k < s.len() implies keys_of(#[trigger] r[k].1.storage) == keys_of(
        s[k].1.storage,
    ) by {
        assert(keys_of(r[k].1.storage) =~= keys_of(s[k].1.storage));
    }
    if ethers_state_diff_ordered(s) {
        assert forall|i: int, j: int| 0 <= i < j < r.len() implies address_lt(
            #[trigger] r[i].0,
            #[trigger] r[j].0,
        ) by {
            assert(address_lt(s[i].0, s[j].0));
        }
        assert forall|k: int| 0 <= k < r.len() implies slots_ascending(#[trigger] r[k].1.storage) by {
            let a = s[k].1.storage;
            let b = r[k].1.storage;
            assert(slots_ascending(a));
            assert forall|i: int, j: int| 0 <= i < j < b.len() implies slot_lt(
                #[trigger] b[i].0,
                #[trigger] b[j].0,
            ) by {
                assert(slot_lt(a[i].0, a[j].0));
            }
        }
    }
}

/// The conversion to `ethers` keeps the accounts, in order, and the storage
/// slots of each account, in order; so an ordered state change stays
/// ordered.
pub proof fn lemma_state_diff_keys_kept_reth(s: Seq<(Address, SpecAccountDiff)>)
    ensures
        keys_of(state_diff_to_ethers(s)) == keys_of(s),
        forall|k: int|
            0 <= k < s.len() ==> keys_of(#[trigger] state_diff_to_ethers(s)[k].1.storage)
                == keys_of(s[k].1.storage),
        state_diff_ordered(s) ==> ethers_state_diff_ordered(state_diff_to_ethers(s)),
{
    let r = state_diff_to_ethers(s);
    assert(keys_of(r) =~= keys_of(s));
    assert forall|k: int| 0 <= k < s.len() implies keys_of(#[trigger] r[k].1.storage) == keys_of(
        s[k].1.storage,
    ) by {
        assert(keys_of(r[k].1.storage) =~= keys_of(s[k].1.storage));
    }
    if state_diff_ordered(s) {
        assert forall|i: int, j: int| 0 <= i < j < r.len() implies address_lt(
            #[trigger] r[i].0,
            #[trigger] r[j].0,
        ) by {
            assert(address_lt(s[i].0, s[j].0));
        }
        assert forall|k: int| 0 <= k < r.len() implies slots_ascending(#[trigger] r[k].1.storage) by {
            let a = s[k].1.storage;
            let b = r[k].1.storage;
            assert(slots_ascending(a));
            assert forall|i: int, j: int| 0 <= i < j < b.len() implies slot_lt(
                #[trigger] b[i].0,
                #[trigger] b[j].0,
            ) by {
                assert(slot_lt(a[i].0, a[j].0));
            }
        }
    }
}


/// An account change converted to `reth` keeps the change of balance, nonce
/// and code, and its storage slots, in order, each slot with its change
/// converted. A state change converted to `reth` keeps its accounts, in
/// order, each account with its change converted.
pub proof fn lemma_state_diff_into_reth_keeps(
    s: Seq<(Address, SpecEthersAccountDiff)>,
    a: SpecEthersAccountDiff,
)
    ensures
        ({
            let r = <EthersAccountDiff as ToReth<AccountDiff>>::spec_into_reth(a);
            &&& r.balance == <EthersDiff<U256> as ToReth<Delta<U256>>>::spec_into_reth(a.balance)
            &&& r.nonce == <EthersDiff<U256> as ToReth<Delta<U256>>>::spec_into_reth(a.nonce)
            &&& r.code == <EthersDiff<Bytes> as ToReth<Delta<Bytes>>>::spec_into_reth(a.code)
            &&& r.storage.len() == a.storage.len()
            &&& forall|k: int|
                0 <= k < a.storage.len() ==> #[trigger] r.storage[k].0 == a.storage[k].0
                    && r.storage[k].1 == <EthersDiff<H256> as ToReth<
                    Delta<H256>,
                >>::spec_into_reth(a.storage[k].1)
        }),
        ({
            let r = <EthersStateDiff as ToReth<StateDiff>>::spec_into_reth(s);
            &&& r.len() == s.len()
            &&& forall|k: int|
                0 <= k < s.len() ==> #[trigger] r[k].0 == s[k].0 && r[k].1 == <EthersAccountDiff as ToReth<
                    AccountDiff,
                >>::spec_into_reth(s[k].1)
        }),
{
}

/// An account change converted to `ethers` keeps the change of balance,
/// nonce and code, and its storage slots, in order, each slot with its
/// change converted. A state change converted to `ethers` keeps its
/// accounts, in order, each account with its change converted.
pub proof fn lemma_state_diff_into_ethers_keeps(s: Seq<(Address, SpecAccountDiff)>, a: SpecAccountDiff)
    ensures
        ({
            let e = <AccountDiff as ToEthers<EthersAccountDiff>>::spec_into_ethers(a);
            &&& e.balance == <Delta<U256> as ToEthers<EthersDiff<U256>>>::spec_into_ethers(a.balance)
            &&& e.nonce == <Delta<U256> as ToEthers<EthersDiff<U256>>>::spec_into_ethers(a.nonce)
            &&& e.code == <Delta<Bytes> as ToEthers<EthersDiff<Bytes>>>::spec_into_ethers(a.code)
            &&& e.storage.len() == a.storage.len()
            &&& forall|k: int|
                0 <= k < a.storage.len() ==> #[trigger] e.storage[k].0 == a.storage[k].0
                    && e.storage[k].1 == <Delta<H256> as ToEthers<
                    EthersDiff<H256>,
                >>::spec_into_ethers(a.storage[k].1)
        }),
        ({
            let e = <StateDiff as ToEthers<EthersStateDiff>>::spec_into_ethers(s);
            &&& e.len() == s.len()
            &&& forall|k: int|
                0 <= k < s.len() ==> #[trigger] e[k].0 == s[k].0 && e[k].1 == <AccountDiff as ToEthers<
                    EthersAccountDiff,
                >>::spec_into_ethers(s[k].1)
        }),
{
}

} // verus!
