//! Horizontal reductions: a vector, or a pair of vectors, collapsed to one value.
use vstd::prelude::*;
use crate::algebra::{
    Fold, combine, fold, fold_op, lanewise, lemma_fold_extend, lemma_fold_lanewise,
    lemma_fold_push, lemma_fold_update,
};
use crate::dense::{
    DENSE, block, combine_values, dense_total, identity_dense, identity_value,
    reduce_dense_to_register, register_folds, register_to_value, whole_blocks,
};
use crate::element::Element;
use crate::register::SimdRegister;

verus! {

/// The horizontal reductions.
#[derive(Clone, Copy, PartialEq, Eq, Structural)]
pub enum Reduction {
    Sum,
    Max,
    Min,
    Norm,
    Dot,
    Euclidean,
}

/// The fold a reduction applies to its terms.
pub open spec fn reduction_fold(k: Reduction) -> Fold {
    match k {
        Reduction::Max => Fold::Max,
        Reduction::Min => Fold::Min,
        _ => Fold::Sum,
    }
}

/// The term a reduction takes from the pair of elements at one position.
pub open spec fn term<T: Element>(k: Reduction, x: T, y: T) -> T {
    match k {
        Reduction::Sum | Reduction::Max | Reduction::Min => x,
        Reduction::Norm => x.spec_times(x),
        Reduction::Dot => x.spec_times(y),
        Reduction::Euclidean => x.spec_minus(y).spec_times(x.spec_minus(y)),
    }
}

/// The terms of a reduction over `a` and `b`, position by position.
pub open spec fn terms<T: Element>(k: Reduction, a: Seq<T>, b: Seq<T>) -> Seq<T> {
    Seq::new(a.len(), |j: int| term(k, a[j], b[j]))
}

/// The wrapping sum of the elements of `a`.
pub open spec fn sum_of<T: Element>(a: Seq<T>) -> T {
    fold(Fold::Sum, a)
}

/// The greatest element of `a`; the least value of the type when `a` is empty.
pub open spec fn max_of_all<T: Element>(a: Seq<T>) -> T {
    fold(Fold::Max, a)
}

/// The least element of `a`; the greatest value of the type when `a` is empty.
pub open spec fn min_of_all<T: Element>(a: Seq<T>) -> T {
    fold(Fold::Min, a)
}

/// The squared L2 norm of `a`, in wrapping arithmetic.
pub open spec fn squared_norm<T: Element>(a: Seq<T>) -> T {
    fold(Fold::Sum, Seq::new(a.len(), |j: int| a[j].spec_times(a[j])))
}

/// The dot product of `a` and `b`, in wrapping arithmetic.
pub open spec fn dot_product<T: Element>(a: Seq<T>, b: Seq<T>) -> T {
    fold(Fold::Sum, Seq::new(a.len(), |j: int| a[j].spec_times(b[j])))
}

/// The squared Euclidean distance between `a` and `b`, in wrapping arithmetic.
pub open spec fn squared_euclidean<T: Element>(a: Seq<T>, b: Seq<T>) -> T {
    fold(
        Fold::Sum,
        Seq::new(a.len(), |j: int| a[j].spec_minus(b[j]).spec_times(a[j].spec_minus(b[j]))),
    )
}

/// The fold a reduction applies to its terms.
fn fold_of(k: Reduction) -> (f: Fold)
    ensures
        f == reduction_fold(k),
{
    match k {
        Reduction::Max => Fold::Max,
        Reduction::Min => Fold::Min,
        _ => Fold::Sum,
    }
}

/// The term of a reduction for one pair of elements.
fn term_value<T: Element>(k: Reduction, x: T, y: T) -> (r: T)
    ensures
        r == term(k, x, y),
{
    match k {
        Reduction::Sum | Reduction::Max | Reduction::Min => x,
        Reduction::Norm => x.times(x),
        Reduction::Dot => x.times(y),
        Reduction::Euclidean => {
            let d = x.minus(y);
            d.times(d)
        },
    }
}

/// Folds one register's worth of terms, read at `at`, into `acc`.
fn accumulate<T: Element, R: SimdRegister<T>>(
    k: Reduction,
    acc: R::Register,
    a: &[T],
    b: &[T],
    at: usize,
) -> (reg: R::Register)
    requires
        a@.len() == b@.len(),
        at + R::lanes() <= a@.len(),
    ensures
        R::lanes_of(reg) == lanewise(
            fold_op(reduction_fold(k)),
            R::lanes_of(acc),
            terms(k, a@, b@).subrange(at as int, at + R::lanes()),
        ),
{
    let ghost window = terms(k, a@, b@).subrange(at as int, at + R::lanes());
    let ghost f = reduction_fold(k);
    let x = R::load(a, at);
    proof {
        R::lemma_register_shape(acc);
        R::lemma_register_shape(x);
    }
    let reg = match k {
        Reduction::Sum => R::add(acc, x),
        Reduction::Max => R::max(acc, x),
        Reduction::Min => R::min(acc, x),
        Reduction::Norm => R::fmadd(x, x, acc),
        Reduction::Dot => {
            let y = R::load(b, at);
            R::fmadd(x, y, acc)
        },
        Reduction::Euclidean => {
            let y = R::load(b, at);
            let d = R::sub(x, y);
            R::fmadd(d, d, acc)
        },
    };
    proof {
        R::lemma_register_shape(reg);
        let want = lanewise(fold_op(f), R::lanes_of(acc), window);
        assert forall|i: int| 0 <= i < R::lanes() implies R::lanes_of(reg)[i] == want[i] by {
            let c = R::lanes_of(acc)[i];
            let t = window[i];
            T::lemma_plus_laws(c, t, c);
            T::lemma_plus_laws(t, c, c);
        }
        assert(R::lanes_of(reg) =~= want);
    }
    reg
}

/// Folds one register's worth of terms, read at `at`, into register `q` of a dense lane.
fn accumulate_into<T: Element, R: SimdRegister<T>>(
    k: Reduction,
    accs: &mut [R::Register; 8],
    q: usize,
    a: &[T],
    b: &[T],
    at: usize,
)
    requires
        a@.len() == b@.len(),
        at + R::lanes() <= a@.len(),
        q < DENSE,
    ensures
        dense_total::<T, R>(reduction_fold(k), final(accs)@) == combine(
            reduction_fold(k),
            dense_total::<T, R>(reduction_fold(k), old(accs)@),
            fold(reduction_fold(k), terms(k, a@, b@).subrange(at as int, at + R::lanes())),
        ),
{
    let ghost f = reduction_fold(k);
    let ghost before = accs@;
    let acc = accs[q];
    let reg = accumulate::<T, R>(k, acc, a, b, at);
    accs[q] = reg;
    proof {
        let window = terms(k, a@, b@).subrange(at as int, at + R::lanes());
        R::lemma_register_shape(acc);
        lemma_fold_lanewise(f, R::lanes_of(acc), window);
        let t = register_folds::<T, R>(f, before);
        assert(register_folds::<T, R>(f, accs@) =~= t.update(
            q as int,
            combine(f, t[q as int], fold(f, window)),
        ));
        lemma_fold_update(f, t, q as int, fold(f, window));
    }
}

/// The dense phase: whole blocks of the first `blocks * block()` positions,
/// folded into eight accumulators.
fn dense_phase<T: Element, R: SimdRegister<T>>(
    k: Reduction,
    a: &[T],
    b: &[T],
    blocks: usize,
) -> (accs: [R::Register; 8])
    requires
        a@.len() == b@.len(),
        blocks * block::<T, R>() <= a@.len(),
    ensures
        dense_total::<T, R>(reduction_fold(k), accs@) == fold(
            reduction_fold(k),
            terms(k, a@, b@).subrange(0, blocks * block::<T, R>()),
        ),
{
    let f = fold_of(k);
    let ghost s = terms(k, a@, b@);
    let lanes = R::lane_count();
    let len = a.len();
    let mut accs = identity_dense::<T, R>(f);
    proof {
        assert(s.subrange(0, 0) =~= Seq::<T>::empty());
    }
    let mut n: usize = 0;
    let mut i: usize = 0;
    while n < blocks
        invariant
            a@.len() == b@.len(),
            len == a@.len(),
            s == terms(k, a@, b@),
            f == reduction_fold(k),
            block::<T, R>() == 8 * lanes,
            blocks * block::<T, R>() <= a@.len(),
            lanes == R::lanes(),
            n <= blocks,
            i == n * block::<T, R>(),
            dense_total::<T, R>(f, accs@) == fold(f, s.subrange(0, i as int)),
        decreases blocks - n,
    {
        proof {
            assert((n + 1) * block::<T, R>() <= blocks * block::<T, R>()) by (nonlinear_arith)
                requires
                    n + 1 <= blocks,
            ;
            assert((n + 1) * block::<T, R>() == n * block::<T, R>() + block::<T, R>())
                by (nonlinear_arith);
        }
        let mut q: usize = 0;
        let mut at: usize = i;
        while q < DENSE
            invariant
                a@.len() == b@.len(),
                len == a@.len(),
                s == terms(k, a@, b@),
                f == reduction_fold(k),
                block::<T, R>() == 8 * lanes,
                lanes == R::lanes(),
                i + block::<T, R>() <= a@.len(),
                q <= DENSE,
                at == i + q * lanes,
                dense_total::<T, R>(f, accs@) == fold(f, s.subrange(0, at as int)),
            decreases DENSE - q,
        {
            proof {
                assert(at + lanes <= i + block::<T, R>()) by (nonlinear_arith)
                    requires
                        at == i + q * lanes,
                        q < 8,
                        block::<T, R>() == 8 * lanes,
                ;
                lemma_fold_extend(f, s, at as int, at + lanes);
            }
            accumulate_into::<T, R>(k, &mut accs, q, a, b, at);
            at = at + lanes;
            q = q + 1;
            proof {
                assert(at == i + q * lanes) by (nonlinear_arith)
                    requires
                        at == i + (q - 1) * lanes + lanes,
                ;
            }
        }
        i = at;
        n = n + 1;
    }
    accs
}

/// The dense phase, then single registers, then a scalar tail: `k` over
/// inputs of any length.
fn reduce_any<T: Element, R: SimdRegister<T>>(k: Reduction, a: &[T], b: &[T]) -> (r: T)
    requires
        a@.len() == b@.len(),
    ensures
        r == fold(reduction_fold(k), terms(k, a@, b@)),
{
    let f = fold_of(k);
    let ghost s = terms(k, a@, b@);
    let len = a.len();
    let lanes = R::lane_count();
    let (blocks, covered) = whole_blocks::<T, R>(len);
    let mut accs = dense_phase::<T, R>(k, a, b, blocks);
    let mut i = covered;
    while lanes <= len - i
        invariant
            a@.len() == b@.len(),
            len == a@.len(),
            lanes == R::lanes(),
            1 <= lanes,
            s == terms(k, a@, b@),
            f == reduction_fold(k),
            i <= len,
            dense_total::<T, R>(f, accs@) == fold(f, s.subrange(0, i as int)),
        decreases len - i,
    {
        proof {
            lemma_fold_extend(f, s, i as int, i + lanes);
        }
        accumulate_into::<T, R>(k, &mut accs, 0, a, b, i);
        i = i + lanes;
    }
    let reg = reduce_dense_to_register::<T, R>(f, accs);
    let head = register_to_value::<T, R>(f, reg);
    let start = i;
    let mut tail = identity_value::<T>(f);
    proof {
        assert(s.subrange(start as int, start as int) =~= Seq::<T>::empty());
    }
    while i < len
        invariant
            a@.len() == b@.len(),
            len == a@.len(),
            s == terms(k, a@, b@),
            f == reduction_fold(k),
            start <= i <= len,
            tail == fold(f, s.subrange(start as int, i as int)),
        decreases len - i,
    {
        let t = term_value(k, a[i], b[i]);
        proof {
            let w = s.subrange(start as int, len as int);
            lemma_fold_push(f, w, i - start);
            assert(w.subrange(0, i - start + 1) =~= s.subrange(start as int, i + 1));
            assert(w.subrange(0, i - start) =~= s.subrange(start as int, i as int));
        }
        tail = combine_values(f, tail, t);
        i = i + 1;
    }
    proof {
        lemma_fold_extend(f, s, start as int, len as int);
        assert(s.subrange(0, len as int) =~= s);
    }
    combine_values(f, head, tail)
}

/// The dense phase alone: `k` over inputs whose length is a whole number of blocks.
fn reduce_const<T: Element, R: SimdRegister<T>>(k: Reduction, a: &[T], b: &[T]) -> (r: T)
    requires
        a@.len() == b@.len(),
        a@.len() % block::<T, R>() == 0,
    ensures
        r == fold(reduction_fold(k), terms(k, a@, b@)),
{
    let f = fold_of(k);
    let (blocks, covered) = whole_blocks::<T, R>(a.len());
    let accs = dense_phase::<T, R>(k, a, b, blocks);
    let reg = reduce_dense_to_register::<T, R>(f, accs);
    proof {
        assert(terms(k, a@, b@).subrange(0, covered as int) =~= terms(k, a@, b@));
    }
    register_to_value::<T, R>(f, reg)
}

/// Horizontal sum of `a`: the wrapping sum of its elements.
///
/// Works on any length: whole blocks first, then single registers, then
/// the remaining elements one by one.
pub fn xany_sum<T: Element, R: SimdRegister<T>>(a: &[T]) -> (r: T)
    ensures
        r == sum_of(a@),
{
    let r = reduce_any::<T, R>(Reduction::Sum, a, a);
    proof {
        assert(terms(Reduction::Sum, a@, a@) =~= a@);
    }
    r
}

/// Horizontal sum of `a`: the wrapping sum of its elements.
///
/// `DIMS` is the length of the input, a whole number of blocks.
pub fn xconst_sum<T: Element, R: SimdRegister<T>, const DIMS: usize>(a: &[T]) -> (r: T)
    requires
        a@.len() == DIMS,
        DIMS as nat % block::<T, R>() == 0,
    ensures
        r == sum_of(a@),
{
    let r = reduce_const::<T, R>(Reduction::Sum, a, a);
    proof {
        assert(terms(Reduction::Sum, a@, a@) =~= a@);
    }
    r
}

/// Horizontal maximum of `a`; the least value of the type when `a` is empty.
///
/// Works on any length: whole blocks first, then single registers, then
/// the remaining elements one by one.
pub fn xany_max_horizontal<T: Element, R: SimdRegister<T>>(a: &[T]) -> (r: T)
    ensures
        r == max_of_all(a@),
{
    let r = reduce_any::<T, R>(Reduction::Max, a, a);
    proof {
        assert(terms(Reduction::Max, a@, a@) =~= a@);
    }
    r
}

/// Horizontal maximum of `a`; the least value of the type when `a` is empty.
///
/// `DIMS` is the length of the input, a whole number of blocks.
pub fn xconst_max_horizontal<T: Element, R: SimdRegister<T>, const DIMS: usize>(a: &[T]) -> (r: T)
    requires
        a@.len() == DIMS,
        DIMS as nat % block::<T, R>() == 0,
    ensures
        r == max_of_all(a@),
{
    let r = reduce_const::<T, R>(Reduction::Max, a, a);
    proof {
        assert(terms(Reduction::Max, a@, a@) =~= a@);
    }
    r
}

/// Horizontal minimum of `a`; the greatest value of the type when `a` is empty.
///
/// Works on any length: whole blocks first, then single registers, then
/// the remaining elements one by one.
pub fn xany_min_horizontal<T: Element, R: SimdRegister<T>>(a: &[T]) -> (r: T)
    ensures
        r == min_of_all(a@),
{
    let r = reduce_any::<T, R>(Reduction::Min, a, a);
    proof {
        assert(terms(Reduction::Min, a@, a@) =~= a@);
    }
    r
}

/// Horizontal minimum of `a`; the greatest value of the type when `a` is empty.
///
/// `DIMS` is the length of the input, a whole number of blocks.
pub fn xconst_min_horizontal<T: Element, R: SimdRegister<T>, const DIMS: usize>(a: &[T]) -> (r: T)
    requires
        a@.len() == DIMS,
        DIMS as nat % block::<T, R>() == 0,
    ensures
        r == min_of_all(a@),
{
    let r = reduce_const::<T, R>(Reduction::Min, a, a);
    proof {
        assert(terms(Reduction::Min, a@, a@) =~= a@);
    }
    r
}

/// Squared L2 norm of `a`, without a square root.
///
/// Works on any length: whole blocks first, then single registers, then
/// the remaining elements one by one.
pub fn xany_norm<T: Element, R: SimdRegister<T>>(a: &[T]) -> (r: T)
    ensures
        r == squared_norm(a@),
{
    let r = reduce_any::<T, R>(Reduction::Norm, a, a);
    proof {
        assert(terms(Reduction::Norm, a@, a@) =~= Seq::new(a@.len(), |j: int| a@[j].spec_times(a@[j])));
    }
    r
}

/// Squared L2 norm of `a`, without a square root.
///
/// `DIMS` is the length of the input, a whole number of blocks.
pub fn xconst_norm<T: Element, R: SimdRegister<T>, const DIMS: usize>(a: &[T]) -> (r: T)
    requires
        a@.len() == DIMS,
        DIMS as nat % block::<T, R>() == 0,
    ensures
        r == squared_norm(a@),
{
    let r = reduce_const::<T, R>(Reduction::Norm, a, a);
    proof {
        assert(terms(Reduction::Norm, a@, a@) =~= Seq::new(a@.len(), |j: int| a@[j].spec_times(a@[j])));
    }
    r
}

/// Dot product of `a` and `b`.
///
/// Works on any length: whole blocks first, then single registers, then
/// the remaining elements one by one.
pub fn xany_dot<T: Element, R: SimdRegister<T>>(a: &[T], b: &[T]) -> (r: T)
    requires
        a@.len() == b@.len(),
    ensures
        r == dot_product(a@, b@),
{
    let r = reduce_any::<T, R>(Reduction::Dot, a, b);
    proof {
        assert(terms(Reduction::Dot, a@, b@) =~= Seq::new(a@.len(), |j: int| a@[j].spec_times(b@[j])));
    }
    r
}

/// Dot product of `a` and `b`.
///
/// `DIMS` is the length of the input, a whole number of blocks.
pub fn xconst_dot<T: Element, R: SimdRegister<T>, const DIMS: usize>(a: &[T], b: &[T]) -> (r: T)
    requires
        a@.len() == b@.len(),
        a@.len() == DIMS,
        DIMS as nat % block::<T, R>() == 0,
    ensures
        r == dot_product(a@, b@),
{
    let r = reduce_const::<T, R>(Reduction::Dot, a, b);
    proof {
        assert(terms(Reduction::Dot, a@, b@) =~= Seq::new(a@.len(), |j: int| a@[j].spec_times(b@[j])));
    }
    r
}

/// Squared Euclidean distance between `a` and `b`.
///
/// Works on any length: whole blocks first, then single registers, then
/// the remaining elements one by one.
pub fn xany_euclidean<T: Element, R: SimdRegister<T>>(a: &[T], b: &[T]) -> (r: T)
    requires
        a@.len() == b@.len(),
    ensures
        r == squared_euclidean(a@, b@),
{
    let r = reduce_any::<T, R>(Reduction::Euclidean, a, b);
    proof {
        assert(terms(Reduction::Euclidean, a@, b@) =~= Seq::new(a@.len(), |j: int| a@[j].spec_minus(b@[j]).spec_times(a@[j].spec_minus(b@[j]))));
    }
    r
}

/// Squared Euclidean distance between `a` and `b`.
///
/// `DIMS` is the length of the input, a whole number of blocks.
pub fn xconst_euclidean<T: Element, R: SimdRegister<T>, const DIMS: usize>(a: &[T], b: &[T]) -> (r: T)
    requires
        a@.len() == b@.len(),
        a@.len() == DIMS,
        DIMS as nat % block::<T, R>() == 0,
    ensures
        r == squared_euclidean(a@, b@),
{
    let r = reduce_const::<T, R>(Reduction::Euclidean, a, b);
    proof {
        assert(terms(Reduction::Euclidean, a@, b@) =~= Seq::new(a@.len(), |j: int| a@[j].spec_minus(b@[j]).spec_times(a@[j].spec_minus(b@[j]))));
    }
    r
}

} // verus!
