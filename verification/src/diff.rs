//! The change of one value between two states: `Diff` in the `ethers` schema,
//! `Delta` in the `reth` schema.
use vstd::prelude::*;
use crate::convert::{ToEthers, ToReth};

verus! {

/// A value before and after a change (`reth`).
#[derive(Clone, Debug, PartialEq, Eq)]
pub struct ChangedType<T> {
    pub from: T,
    pub to: T,
}

/// How a value changed (`reth`).
#[derive(Clone, Debug, PartialEq, Eq)]
pub enum Delta<T> {
    Unchanged,
    Added(T),
    Removed(T),
    Changed(ChangedType<T>),
}

/// A value before and after a change (`ethers`).
#[derive(Clone, Debug, PartialEq, Eq)]
pub struct EthersChangedType<T> {
    pub from: T,
    pub to: T,
}

/// How a value changed (`ethers`).
#[derive(Clone, Debug, PartialEq, Eq)]
pub enum EthersDiff<T> {
    Same,
    Born(T),
    Died(T),
    Changed(EthersChangedType<T>),
}

impl<T: View> View for ChangedType<T> {
    type V = ChangedType<T::V>;

    open spec fn view(&self) -> ChangedType<T::V> {
        ChangedType { from: self.from@, to: self.to@ }
    }
}

impl<T: View> View for Delta<T> {
    type V = Delta<T::V>;

    open spec fn view(&self) -> Delta<T::V> {
        match self {
            Delta::Unchanged => Delta::Unchanged,
            Delta::Added(x) => Delta::Added(x@),
            Delta::Removed(x) => Delta::Removed(x@),
            Delta::Changed(c) => Delta::Changed(c@),
        }
    }
}

impl<T: View> View for EthersChangedType<T> {
    type V = EthersChangedType<T::V>;

    open spec fn view(&self) -> EthersChangedType<T::V> {
        EthersChangedType { from: self.from@, to: self.to@ }
    }
}

impl<T: View> View for EthersDiff<T> {
    type V = EthersDiff<T::V>;

    open spec fn view(&self) -> EthersDiff<T::V> {
        match self {
            EthersDiff::Same => EthersDiff::Same,
            EthersDiff::Born(x) => EthersDiff::Born(x@),
            EthersDiff::Died(x) => EthersDiff::Died(x@),
            EthersDiff::Changed(c) => EthersDiff::Changed(c@),
        }
    }
}

/// `Diff` to `Delta`, variant by variant, keeping the values.
pub open spec fn diff_to_delta<V>(d: EthersDiff<V>) -> Delta<V> {
    match d {
        EthersDiff::Same => Delta::Unchanged,
        EthersDiff::Born(x) => Delta::Added(x),
        EthersDiff::Died(x) => Delta::Removed(x),
        EthersDiff::Changed(c) => Delta::Changed(ChangedType { from: c.from, to: c.to }),
    }
}

/// `Delta` to `Diff`, variant by variant, keeping the values.
pub open spec fn delta_to_diff<V>(d: Delta<V>) -> EthersDiff<V> {
    match d {
        Delta::Unchanged => EthersDiff::Same,
        Delta::Added(x) => EthersDiff::Born(x),
        Delta::Removed(x) => EthersDiff::Died(x),
        Delta::Changed(c) => EthersDiff::Changed(EthersChangedType { from: c.from, to: c.to }),
    }
}

impl<T: View> ToReth<ChangedType<T>> for EthersChangedType<T> {
    open spec fn into_reth_defined(v: EthersChangedType<T::V>) -> bool {
        true
    }

    open spec fn spec_into_reth(v: EthersChangedType<T::V>) -> ChangedType<T::V> {
        ChangedType { from: v.from, to: v.to }
    }

    fn into_reth(self) -> (r: ChangedType<T>) {
        ChangedType { from: self.from, to: self.to }
    }
}

impl<T: View> ToEthers<EthersChangedType<T>> for ChangedType<T> {
    open spec fn into_ethers_defined(v: ChangedType<T::V>) -> bool {
        true
    }

    open spec fn spec_into_ethers(v: ChangedType<T::V>) -> EthersChangedType<T::V> {
        EthersChangedType { from: v.from, to: v.to }
    }

    fn into_ethers(self) -> (r: EthersChangedType<T>) {
        EthersChangedType { from: self.from, to: self.to }
    }
}

impl<T: View> ToReth<Delta<T>> for EthersDiff<T> {
    open spec fn into_reth_defined(v: EthersDiff<T::V>) -> bool {
        true
    }

    open spec fn spec_into_reth(v: EthersDiff<T::V>) -> Delta<T::V> {
        diff_to_delta(v)
    }

    fn into_reth(self) -> (r: Delta<T>) {
        match self {
            EthersDiff::Same => Delta::Unchanged,
            EthersDiff::Born(x) => Delta::Added(x),
            EthersDiff::Died(x) => Delta::Removed(x),
            EthersDiff::Changed(x) => Delta::Changed(x.into_reth()),
        }
    }
}

impl<T: View> ToEthers<EthersDiff<T>> for Delta<T> {
    open spec fn into_ethers_defined(v: Delta<T::V>) -> bool {
        true
    }

    open spec fn spec_into_ethers(v: Delta<T::V>) -> EthersDiff<T::V> {
        delta_to_diff(v)
    }

    fn into_ethers(self) -> (r: EthersDiff<T>) {
        match self {
            Delta::Unchanged => EthersDiff::Same,
            Delta::Added(x) => EthersDiff::Born(x),
            Delta::Removed(x) => EthersDiff::Died(x),
            Delta::Changed(x) => EthersDiff::Changed(x.into_ethers()),
        }
    }
}

/// A `Diff` converted to a `Delta` and back is the `Diff` it was.
pub proof fn lemma_diff_round_trip<V>(d: EthersDiff<V>)
    ensures
        delta_to_diff(diff_to_delta(d)) == d,
{
}

/// A `Delta` converted to a `Diff` and back is the `Delta` it was.
pub proof fn lemma_delta_round_trip<V>(d: Delta<V>)
    ensures
        diff_to_delta(delta_to_diff(d)) == d,
{
}


/// A change converted to `reth` is the same change: an unchanged value stays
/// unchanged, a born value is added, a value that died is removed, and a
/// changed value keeps its old and its new value, in that order.
pub proof fn lemma_diff_into_reth_keeps<T: View>(d: EthersDiff<T::V>)
    ensures
        ({
            let r = <EthersDiff<T> as ToReth<Delta<T>>>::spec_into_reth(d);
            &&& (d is Same <==> r is Unchanged)
            &&& (d matches EthersDiff::Born(x) ==> r == Delta::<T::V>::Added(x))
            &&& (d matches EthersDiff::Died(x) ==> r == Delta::<T::V>::Removed(x))
            &&& (d matches EthersDiff::Changed(c) ==> (r matches Delta::Changed(rc) && rc.from
                == c.from && rc.to == c.to))
        }),
        ({
            let c = <EthersChangedType<T> as ToReth<ChangedType<T>>>::spec_into_reth(
                EthersChangedType { from: d->Changed_0.from, to: d->Changed_0.to },
            );
            c.from == d->Changed_0.from && c.to == d->Changed_0.to
        }),
{
}

/// A change converted to `ethers` is the same change: an unchanged value
/// stays the same, an added value is born, a removed value dies, and a
/// changed value keeps its old and its new value, in that order.
pub proof fn lemma_delta_into_ethers_keeps<T: View>(d: Delta<T::V>)
    ensures
        ({
            let e = <Delta<T> as ToEthers<EthersDiff<T>>>::spec_into_ethers(d);
            &&& (d is Unchanged <==> e is Same)
            &&& (d matches Delta::Added(x) ==> e == EthersDiff::<T::V>::Born(x))
            &&& (d matches Delta::Removed(x) ==> e == EthersDiff::<T::V>::Died(x))
            &&& (d matches Delta::Changed(c) ==> (e matches EthersDiff::Changed(ec) && ec.from
                == c.from && ec.to == c.to))
        }),
        ({
            let c = <ChangedType<T> as ToEthers<EthersChangedType<T>>>::spec_into_ethers(
                ChangedType { from: d->Changed_0.from, to: d->Changed_0.to },
            );
            c.from == d->Changed_0.from && c.to == d->Changed_0.to
        }),
{
}

} // verus!
