//! The two directions of conversion between the schemas.
//!
//! Each conversion is stated over the views of its argument and result: a
//! conversion is defined on the values that `into_reth_defined` (or
//! `into_ethers_defined`) admits, and on them it returns the view that
//! `spec_into_reth` (or `spec_into_ethers`) gives.
use vstd::prelude::*;

verus! {

/// Conversion of a value of the `ethers` schema into the `reth` schema.
pub trait ToReth<T: View>: View + Sized {
    /// The values on which the conversion is defined.
    spec fn into_reth_defined(v: Self::V) -> bool;

    /// What the conversion returns, as a view.
    spec fn spec_into_reth(v: Self::V) -> T::V;

    fn into_reth(self) -> (r: T)
        requires
            Self::into_reth_defined(self@),
        ensures
            r@ == Self::spec_into_reth(self@),
    ;
}

/// Conversion of a value of the `reth` schema into the `ethers` schema.
pub trait ToEthers<T: View>: View + Sized {
    /// The values on which the conversion is defined.
    spec fn into_ethers_defined(v: Self::V) -> bool;

    /// What the conversion returns, as a view.
    spec fn spec_into_ethers(v: Self::V) -> T::V;

    fn into_ethers(self) -> (r: T)
        requires
            Self::into_ethers_defined(self@),
        ensures
            r@ == Self::spec_into_ethers(self@),
    ;
}

/// An entry of a keyed collection converts by converting its value; the key
/// is kept.
impl<K: View, A: ToReth<B>, B: View> ToReth<(K, B)> for (K, A) {
    open spec fn into_reth_defined(v: (K::V, A::V)) -> bool {
        A::into_reth_defined(v.1)
    }

    open spec fn spec_into_reth(v: (K::V, A::V)) -> (K::V, B::V) {
        (v.0, A::spec_into_reth(v.1))
    }

    fn into_reth(self) -> (r: (K, B)) {
        let (k, a) = self;
        (k, a.into_reth())
    }
}

/// An entry of a keyed collection converts by converting its value; the key
/// is kept.
impl<K: View, A: ToEthers<B>, B: View> ToEthers<(K, B)> for (K, A) {
    open spec fn into_ethers_defined(v: (K::V, A::V)) -> bool {
        A::into_ethers_defined(v.1)
    }

    open spec fn spec_into_ethers(v: (K::V, A::V)) -> (K::V, B::V) {
        (v.0, A::spec_into_ethers(v.1))
    }

    fn into_ethers(self) -> (r: (K, B)) {
        let (k, a) = self;
        (k, a.into_ethers())
    }
}

/// Converts every element of a vector into the `reth` schema, in order.
pub fn all_into_reth<A: ToReth<B>, B: View>(v: Vec<A>) -> (r: Vec<B>)
    requires
        forall|k: int| 0 <= k < v@.len() ==> A::into_reth_defined(#[trigger] v@[k]@),
    ensures
        r@.len() == v@.len(),
        forall|k: int| 0 <= k < v@.len() ==> #[trigger] r@[k]@ == A::spec_into_reth(v@[k]@),
{
    let ghost v0 = v@;
    let ghost n = v0.len();
    let mut v = v;
    let mut rev: Vec<B> = Vec::new();
    while v.len() > 0
        invariant
            v@.len() + rev@.len() == n,
            forall|k: int| 0 <= k < v@.len() ==> #[trigger] v@[k] == v0[k],
            forall|k: int| 0 <= k < n ==> A::into_reth_defined(#[trigger] v0[k]@),
            forall|j: int|
                0 <= j < rev@.len() ==> #[trigger] rev@[j]@ == A::spec_into_reth(
                    v0[n - 1 - j]@,
                ),
        decreases v.len(),
    {
        let ghost old_v = v@;
        let a = v.pop().unwrap();
        assert(forall|k: int| 0 <= k < v@.len() ==> v@[k] == old_v[k]);
        assert(a == v0[v@.len() as int]);
        let b = a.into_reth();
        rev.push(b);
    }
    let mut out: Vec<B> = Vec::new();
    while rev.len() > 0
        invariant
            rev@.len() + out@.len() == n,
            forall|j: int|
                0 <= j < rev@.len() ==> #[trigger] rev@[j]@ == A::spec_into_reth(
                    v0[n - 1 - j]@,
                ),
            forall|k: int| 0 <= k < out@.len() ==> #[trigger] out@[k]@ == A::spec_into_reth(v0[k]@),
        decreases rev.len(),
    {
        let ghost old_rev = rev@;
        let b = rev.pop().unwrap();
        assert(forall|j: int| 0 <= j < rev@.len() ==> rev@[j] == old_rev[j]);
        assert(b@ == A::spec_into_reth(v0[out@.len() as int]@));
        out.push(b);
    }
    out
}

/// Converts every element of a vector into the `ethers` schema, in order.
pub fn all_into_ethers<A: ToEthers<B>, B: View>(v: Vec<A>) -> (r: Vec<B>)
    requires
        forall|k: int| 0 <= k < v@.len() ==> A::into_ethers_defined(#[trigger] v@[k]@),
    ensures
        r@.len() == v@.len(),
        forall|k: int| 0 <= k < v@.len() ==> #[trigger] r@[k]@ == A::spec_into_ethers(v@[k]@),
{
    let ghost v0 = v@;
    let ghost n = v0.len();
    let mut v = v;
    let mut rev: Vec<B> = Vec::new();
    while v.len() > 0
        invariant
            v@.len() + rev@.len() == n,
            forall|k: int| 0 <= k < v@.len() ==> #[trigger] v@[k] == v0[k],
            forall|k: int| 0 <= k < n ==> A::into_ethers_defined(#[trigger] v0[k]@),
            forall|j: int|
                0 <= j < rev@.len() ==> #[trigger] rev@[j]@ == A::spec_into_ethers(
                    v0[n - 1 - j]@,
                ),
        decreases v.len(),
    {
        let ghost old_v = v@;
        let a = v.pop().unwrap();
        assert(forall|k: int| 0 <= k < v@.len() ==> v@[k] == old_v[k]);
        assert(a == v0[v@.len() as int]);
        let b = a.into_ethers();
        rev.push(b);
    }
    let mut out: Vec<B> = Vec::new();
    while rev.len() > 0
        invariant
            rev@.len() + out@.len() == n,
            forall|j: int|
                0 <= j < rev@.len() ==> #[trigger] rev@[j]@ == A::spec_into_ethers(
                    v0[n - 1 - j]@,
                ),
            forall|k: int|
                0 <= k < out@.len() ==> #[trigger] out@[k]@ == A::spec_into_ethers(v0[k]@),
        decreases rev.len(),
    {
        let ghost old_rev = rev@;
        let b = rev.pop().unwrap();
        assert(forall|j: int| 0 <= j < rev@.len() ==> rev@[j] == old_rev[j]);
        assert(b@ == A::spec_into_ethers(v0[out@.len() as int]@));
        out.push(b);
    }
    out
}

} // verus!
