//! Laws that hold of the kernels, stated over the values their contracts name.
use vstd::prelude::*;
use crate::algebra::{Fold, Lanewise, lanewise, lemma_combine_laws, lemma_fold_single, lemma_fold_split};
use crate::elementwise::broadcast;
use crate::element::Element;
use crate::horizontal::{dot_product, max_of_all, min_of_all, squared_euclidean, sum_of};
use crate::vertical::vertical;

verus! {

/// Every element-wise result is as long as its left input, and a vertical
/// reduction is as long as the rows it reduces.
pub proof fn law_shape<T: Element>(op: Lanewise, a: Seq<T>, b: Seq<T>, f: Fold, rows: Seq<&[T]>, n: nat)
    ensures
        lanewise(op, a, b).len() == a.len(),
        vertical(f, rows, n).len() == n,
{
}

/// Adding zero, subtracting zero, multiplying by one and dividing by one
/// leave a vector as it was; so does adding a vector of zeros.
pub proof fn law_identities<T: Element>(a: Seq<T>)
    ensures
        lanewise(Lanewise::Add, a, broadcast(T::spec_zero(), a.len())) == a,
        lanewise(Lanewise::Sub, a, broadcast(T::spec_zero(), a.len())) == a,
        lanewise(Lanewise::Mul, a, broadcast(T::spec_one(), a.len())) == a,
        forall|j: int| 0 <= j < a.len() ==> (#[trigger] a[j]).quotient_defined(T::spec_one()),
        lanewise(Lanewise::Div, a, broadcast(T::spec_one(), a.len())) == a,
{
    assert forall|j: int| 0 <= j < a.len() implies {
        &&& (#[trigger] a[j]).spec_plus(T::spec_zero()) == a[j]
        &&& a[j].spec_minus(T::spec_zero()) == a[j]
        &&& a[j].spec_times(T::spec_one()) == a[j]
        &&& a[j].quotient_defined(T::spec_one())
        &&& a[j].spec_quotient(T::spec_one()) == a[j]
    } by {
        T::lemma_plus_laws(a[j], a[j], a[j]);
        T::lemma_unit_laws(a[j]);
    }
    assert(lanewise(Lanewise::Add, a, broadcast(T::spec_zero(), a.len())) =~= a);
    assert(lanewise(Lanewise::Sub, a, broadcast(T::spec_zero(), a.len())) =~= a);
    assert(lanewise(Lanewise::Mul, a, broadcast(T::spec_one(), a.len())) =~= a);
    assert(lanewise(Lanewise::Div, a, broadcast(T::spec_one(), a.len())) =~= a);
}

/// Addition, maximum and minimum of two vectors do not depend on the order of
/// the inputs; nor do the dot product and the squared Euclidean distance.
pub proof fn law_commutativity<T: Element>(a: Seq<T>, b: Seq<T>)
    requires
        a.len() == b.len(),
    ensures
        lanewise(Lanewise::Add, a, b) == lanewise(Lanewise::Add, b, a),
        lanewise(Lanewise::Max, a, b) == lanewise(Lanewise::Max, b, a),
        lanewise(Lanewise::Min, a, b) == lanewise(Lanewise::Min, b, a),
        dot_product(a, b) == dot_product(b, a),
        squared_euclidean(a, b) == squared_euclidean(b, a),
{
    assert forall|j: int| 0 <= j < a.len() implies {
        &&& (#[trigger] a[j]).spec_plus(b[j]) == b[j].spec_plus(a[j])
        &&& crate::element::max_of(a[j], b[j]) == crate::element::max_of(b[j], a[j])
        &&& crate::element::min_of(a[j], b[j]) == crate::element::min_of(b[j], a[j])
        &&& a[j].spec_times(b[j]) == b[j].spec_times(a[j])
        &&& a[j].spec_minus(b[j]).spec_times(a[j].spec_minus(b[j])) == b[j].spec_minus(
            a[j],
        ).spec_times(b[j].spec_minus(a[j]))
    } by {
        T::lemma_plus_laws(a[j], b[j], a[j]);
        lemma_combine_laws(Fold::Max, a[j], b[j], a[j]);
        lemma_combine_laws(Fold::Min, a[j], b[j], a[j]);
        T::lemma_times_laws(a[j], b[j]);
    }
    assert(lanewise(Lanewise::Add, a, b) =~= lanewise(Lanewise::Add, b, a));
    assert(lanewise(Lanewise::Max, a, b) =~= lanewise(Lanewise::Max, b, a));
    assert(lanewise(Lanewise::Min, a, b) =~= lanewise(Lanewise::Min, b, a));
    assert(Seq::new(a.len(), |j: int| a[j].spec_times(b[j])) =~= Seq::new(
        b.len(),
        |j: int| b[j].spec_times(a[j]),
    ));
    assert(Seq::new(a.len(), |j: int| a[j].spec_minus(b[j]).spec_times(a[j].spec_minus(b[j])))
        =~= Seq::new(b.len(), |j: int| b[j].spec_minus(a[j]).spec_times(b[j].spec_minus(a[j]))));
}

/// The maximum or minimum of a vector with itself is the vector, and the
/// horizontal maximum of one element is that element.
pub proof fn law_idempotence<T: Element>(a: Seq<T>, x: T)
    ensures
        lanewise(Lanewise::Max, a, a) == a,
        lanewise(Lanewise::Min, a, a) == a,
        max_of_all(seq![x]) == x,
{
    assert forall|j: int| 0 <= j < a.len() implies crate::element::max_of(
        #[trigger] a[j],
        a[j],
    ) == a[j] && crate::element::min_of(a[j], a[j]) == a[j] by {
        T::lemma_order_laws(a[j], a[j], a[j]);
    }
    assert(lanewise(Lanewise::Max, a, a) =~= a);
    assert(lanewise(Lanewise::Min, a, a) =~= a);
    lemma_fold_single(Fold::Max, x);
}

/// Summing a window in two parts and adding the partial sums gives the sum
/// of the whole window, for any split point.
pub proof fn law_sum_split<T: Element>(a: Seq<T>, i: int, j: int, k: int)
    requires
        0 <= i <= j <= k <= a.len(),
    ensures
        sum_of(a.subrange(i, j)).spec_plus(sum_of(a.subrange(j, k))) == sum_of(a.subrange(i, k)),
{
    lemma_fold_split(Fold::Sum, a, i, j, k);
}

/// The horizontal maximum is at least every element and, for a non-empty
/// vector, is one of them; the horizontal minimum is at most every element
/// and, for a non-empty vector, is one of them.
pub proof fn law_extremes<T: Element>(a: Seq<T>)
    ensures
        forall|j: int| 0 <= j < a.len() ==> (#[trigger] a[j]).spec_at_most(max_of_all(a)),
        forall|j: int| 0 <= j < a.len() ==> min_of_all(a).spec_at_most(#[trigger] a[j]),
        a.len() > 0 ==> exists|j: int| 0 <= j < a.len() && #[trigger] a[j] == max_of_all(a),
        a.len() > 0 ==> exists|j: int| 0 <= j < a.len() && #[trigger] a[j] == min_of_all(a),
    decreases a.len(),
{
    if a.len() > 0 {
        let init = a.drop_last();
        let x = a.last();
        law_extremes(init);
        let (hi, lo) = (max_of_all(init), min_of_all(init));
        T::lemma_order_laws(hi, x, hi);
        T::lemma_order_laws(lo, x, lo);
        assert forall|j: int| 0 <= j < a.len() implies (#[trigger] a[j]).spec_at_most(
            max_of_all(a),
        ) && min_of_all(a).spec_at_most(a[j]) by {
            T::lemma_order_laws(a[j], a[j], a[j]);
            if j < a.len() - 1 {
                assert(a[j] == init[j]);
                T::lemma_order_laws(a[j], hi, x);
                T::lemma_order_laws(lo, a[j], x);
                T::lemma_order_laws(x, lo, a[j]);
            }
        }
        assert(max_of_all(a) == crate::element::max_of(hi, x));
        assert(min_of_all(a) == crate::element::min_of(lo, x));
        let last = a.len() - 1;
        assert(a[last] == x);
        if init.len() == 0 {
            T::lemma_order_laws(x, x, x);
            assert(a[last] == max_of_all(a));
            assert(a[last] == min_of_all(a));
        } else {
            let jh = choose|j: int| 0 <= j < init.len() && #[trigger] init[j] == hi;
            let jl = choose|j: int| 0 <= j < init.len() && #[trigger] init[j] == lo;
            assert(a[jh] == init[jh]);
            assert(a[jl] == init[jl]);
            if hi.spec_at_most(x) {
                assert(a[last] == max_of_all(a));
            } else {
                assert(a[jh] == max_of_all(a));
            }
            if lo.spec_at_most(x) {
                assert(a[jl] == min_of_all(a));
            } else {
                assert(a[last] == min_of_all(a));
            }
        }
        assert(a[a.len() - 1] == x);
    }
}

} // verus!
