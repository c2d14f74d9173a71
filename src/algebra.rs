//! The reference semantics of the kernels: lane-wise operations on sequences
//! and left folds, with the laws that let a kernel regroup a fold.
use vstd::prelude::*;
use crate::element::{Element, max_of, min_of};

verus! {

/// A binary element-wise operation.
#[derive(Clone, Copy, PartialEq, Eq, Structural)]
pub enum Lanewise {
    Add,
    Sub,
    Mul,
    Div,
    Max,
    Min,
}

/// `op` applied to one pair of elements.
pub open spec fn apply<T: Element>(op: Lanewise, x: T, y: T) -> T {
    match op {
        Lanewise::Add => x.spec_plus(y),
        Lanewise::Sub => x.spec_minus(y),
        Lanewise::Mul => x.spec_times(y),
        Lanewise::Div => x.spec_quotient(y),
        Lanewise::Max => max_of(x, y),
        Lanewise::Min => min_of(x, y),
    }
}

/// Whether `op` is defined on one pair of elements: only a division asks anything.
pub open spec fn defined<T: Element>(op: Lanewise, x: T, y: T) -> bool {
    op == Lanewise::Div ==> x.quotient_defined(y)
}

/// `op` applied position by position to two sequences of the length of `u`.
pub open spec fn lanewise<T: Element>(op: Lanewise, u: Seq<T>, v: Seq<T>) -> Seq<T> {
    Seq::new(u.len(), |i: int| apply(op, u[i], v[i]))
}

/// Whether `op` is defined at every position of `u` and `v`.
pub open spec fn all_defined<T: Element>(op: Lanewise, u: Seq<T>, v: Seq<T>) -> bool {
    forall|i: int| 0 <= i < u.len() ==> #[trigger] defined(op, u[i], v[i])
}

/// A way of collapsing many elements into one.
#[derive(Clone, Copy, PartialEq, Eq, Structural)]
pub enum Fold {
    Sum,
    Max,
    Min,
}

/// The binary operation of a fold.
pub open spec fn combine<T: Element>(f: Fold, x: T, y: T) -> T {
    match f {
        Fold::Sum => x.spec_plus(y),
        Fold::Max => max_of(x, y),
        Fold::Min => min_of(x, y),
    }
}

/// The value a fold of nothing gives.
pub open spec fn identity<T: Element>(f: Fold) -> T {
    match f {
        Fold::Sum => T::spec_zero(),
        Fold::Max => T::spec_lowest(),
        Fold::Min => T::spec_highest(),
    }
}

/// The lane-wise operation that a fold applies to two registers.
pub open spec fn fold_op(f: Fold) -> Lanewise {
    match f {
        Fold::Sum => Lanewise::Add,
        Fold::Max => Lanewise::Max,
        Fold::Min => Lanewise::Min,
    }
}

/// The element-by-element loop: `s` folded from the left, starting at the identity.
pub open spec fn fold<T: Element>(f: Fold, s: Seq<T>) -> T
    decreases s.len(),
{
    if s.len() == 0 {
        identity(f)
    } else {
        combine(f, fold(f, s.drop_last()), s.last())
    }
}

/// Each fold is a commutative monoid.
pub proof fn lemma_combine_laws<T: Element>(f: Fold, a: T, b: T, c: T)
    ensures
        combine(f, a, b) == combine(f, b, a),
        combine(f, combine(f, a, b), c) == combine(f, a, combine(f, b, c)),
        combine(f, a, identity(f)) == a,
        combine(f, identity(f), a) == a,
{
    T::lemma_plus_laws(a, b, c);
    T::lemma_plus_laws(a, T::spec_zero(), c);
    T::lemma_order_laws(a, T::spec_lowest(), T::spec_highest());
    T::lemma_order_laws(a, T::spec_highest(), T::spec_lowest());
    T::lemma_order_laws(a, b, c);
    T::lemma_order_laws(b, c, a);
    T::lemma_order_laws(c, a, b);
    T::lemma_order_laws(a, c, b);
    T::lemma_order_laws(b, a, c);
    T::lemma_order_laws(c, b, a);
}

/// A fold of a concatenation combines the folds of the parts.
pub proof fn lemma_fold_append<T: Element>(f: Fold, s: Seq<T>, t: Seq<T>)
    ensures
        fold(f, s + t) == combine(f, fold(f, s), fold(f, t)),
    decreases t.len(),
{
    if t.len() == 0 {
        assert(s + t =~= s);
        lemma_combine_laws(f, fold(f, s), fold(f, s), fold(f, s));
    } else {
        assert((s + t).drop_last() =~= s + t.drop_last());
        lemma_fold_append(f, s, t.drop_last());
        lemma_combine_laws(f, fold(f, s), fold(f, t.drop_last()), t.last());
    }
}

/// A fold of one element is that element.
pub proof fn lemma_fold_single<T: Element>(f: Fold, x: T)
    ensures
        fold(f, seq![x]) == x,
{
    assert(seq![x].drop_last() =~= Seq::<T>::empty());
    assert(fold(f, Seq::<T>::empty()) == identity::<T>(f));
    lemma_combine_laws(f, x, x, x);
    assert(fold(f, seq![x]) == combine(f, identity::<T>(f), x));
}

/// A fold of a prefix that grows by one element.
pub proof fn lemma_fold_push<T: Element>(f: Fold, s: Seq<T>, i: int)
    requires
        0 <= i < s.len(),
    ensures
        fold(f, s.subrange(0, i + 1)) == combine(f, fold(f, s.subrange(0, i)), s[i]),
{
    assert(s.subrange(0, i + 1).drop_last() =~= s.subrange(0, i));
}

/// A fold of a prefix that grows by a window.
pub proof fn lemma_fold_extend<T: Element>(f: Fold, s: Seq<T>, i: int, j: int)
    requires
        0 <= i <= j <= s.len(),
    ensures
        fold(f, s.subrange(0, j)) == combine(f, fold(f, s.subrange(0, i)), fold(f, s.subrange(i, j))),
{
    assert(s.subrange(0, j) =~= s.subrange(0, i) + s.subrange(i, j));
    lemma_fold_append(f, s.subrange(0, i), s.subrange(i, j));
}

/// A fold of a window splits at any point inside it.
pub proof fn lemma_fold_split<T: Element>(f: Fold, s: Seq<T>, i: int, j: int, k: int)
    requires
        0 <= i <= j <= k <= s.len(),
    ensures
        fold(f, s.subrange(i, k)) == combine(f, fold(f, s.subrange(i, j)), fold(f, s.subrange(j, k))),
{
    assert(s.subrange(i, k) =~= s.subrange(i, j) + s.subrange(j, k));
    lemma_fold_append(f, s.subrange(i, j), s.subrange(j, k));
}

/// A fold of two neighbours combines them.
pub proof fn lemma_fold_pair<T: Element>(f: Fold, s: Seq<T>, i: int)
    requires
        0 <= i && i + 2 <= s.len(),
    ensures
        fold(f, s.subrange(i, i + 2)) == combine(f, s[i], s[i + 1]),
{
    lemma_fold_split(f, s, i, i + 1, i + 2);
    assert(s.subrange(i, i + 1) =~= seq![s[i]]);
    assert(s.subrange(i + 1, i + 2) =~= seq![s[i + 1]]);
    lemma_fold_single(f, s[i]);
    lemma_fold_single(f, s[i + 1]);
}

/// A fold of identities is the identity.
pub proof fn lemma_fold_identities<T: Element>(f: Fold, s: Seq<T>)
    requires
        forall|i: int| 0 <= i < s.len() ==> s[i] == identity::<T>(f),
    ensures
        fold(f, s) == identity::<T>(f),
    decreases s.len(),
{
    if s.len() > 0 {
        lemma_fold_identities(f, s.drop_last());
        lemma_combine_laws(f, identity::<T>(f), identity::<T>(f), identity::<T>(f));
    }
}

/// Folding two sequences lane by lane, then folding the result, folds everything.
pub proof fn lemma_fold_lanewise<T: Element>(f: Fold, u: Seq<T>, v: Seq<T>)
    requires
        u.len() == v.len(),
    ensures
        fold(f, lanewise(fold_op(f), u, v)) == combine(f, fold(f, u), fold(f, v)),
    decreases u.len(),
{
    let w = lanewise(fold_op(f), u, v);
    if u.len() == 0 {
        lemma_combine_laws(f, identity::<T>(f), identity::<T>(f), identity::<T>(f));
    } else {
        let u0 = u.drop_last();
        let v0 = v.drop_last();
        assert(w.drop_last() =~= lanewise(fold_op(f), u0, v0));
        lemma_fold_lanewise(f, u0, v0);
        let (a, b, x, y) = (fold(f, u0), fold(f, v0), u.last(), v.last());
        assert(w.last() == combine(f, x, y));
        // (a + b) + (x + y) == (a + x) + (b + y)
        lemma_combine_laws(f, a, b, combine(f, x, y));
        lemma_combine_laws(f, b, x, y);
        lemma_combine_laws(f, x, b, y);
        lemma_combine_laws(f, b, x, b);
        lemma_combine_laws(f, a, x, combine(f, b, y));
    }
}

/// Combining one more value into a single slot of a sequence of partial
/// results combines it into the fold of the whole.
pub proof fn lemma_fold_update<T: Element>(f: Fold, t: Seq<T>, k: int, y: T)
    requires
        0 <= k < t.len(),
    ensures
        fold(f, t.update(k, combine(f, t[k], y))) == combine(f, fold(f, t), y),
    decreases t.len(),
{
    let t2 = t.update(k, combine(f, t[k], y));
    if k == t.len() - 1 {
        assert(t2.drop_last() =~= t.drop_last());
        lemma_combine_laws(f, fold(f, t.drop_last()), t[k], y);
    } else {
        assert(t2.drop_last() =~= t.drop_last().update(k, combine(f, t[k], y)));
        lemma_fold_update(f, t.drop_last(), k, y);
        lemma_combine_laws(f, fold(f, t.drop_last()), y, t.last());
        lemma_combine_laws(f, fold(f, t.drop_last()), t.last(), y);
        lemma_combine_laws(f, y, t.last(), y);
    }
}

} // verus!
