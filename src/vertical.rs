//! Vertical reductions across a matrix: every column of a non-empty list of
//! equal-length rows folded into one element of a new vector.
use vstd::prelude::*;
use crate::algebra::{Fold, fold, identity, lemma_fold_push};
use crate::dense::{
    DENSE, block, combine_registers, combine_values, identity_dense, identity_register,
    identity_value, whole_blocks,
};
use crate::element::Element;
use crate::register::SimdRegister;

verus! {

/// Column `j` of a matrix given as its rows.
pub open spec fn column<T>(rows: Seq<&[T]>, j: int) -> Seq<T> {
    Seq::new(rows.len(), |m: int| rows[m]@[j])
}

/// Whether every row has `n` elements.
pub open spec fn rows_of_len<T>(rows: Seq<&[T]>, n: nat) -> bool {
    forall|m: int| 0 <= m < rows.len() ==> (#[trigger] rows[m])@.len() == n
}

/// Each of the `n` columns folded by `f`, in row order.
pub open spec fn vertical<T: Element>(f: Fold, rows: Seq<&[T]>, n: nat) -> Seq<T> {
    Seq::new(n, |j: int| fold(f, column(rows, j)))
}

/// Column `j` folded over the first `m` rows.
pub open spec fn column_prefix<T: Element>(f: Fold, rows: Seq<&[T]>, m: int, j: int) -> T {
    fold(f, column(rows, j).subrange(0, m))
}

/// The lanes of a register that holds the column folds over the first `m`
/// rows at positions `at .. at + lanes()`.
pub open spec fn gathered<T: Element, R: SimdRegister<T>>(
    f: Fold,
    rows: Seq<&[T]>,
    m: int,
    at: int,
) -> Seq<T> {
    Seq::new(R::lanes(), |l: int| column_prefix(f, rows, m, at + l))
}

/// Folds row `m` at positions `at .. at + lanes()` into `acc`.
fn gather_row<T: Element, R: SimdRegister<T>>(
    f: Fold,
    rows: &[&[T]],
    m: usize,
    at: usize,
    acc: R::Register,
) -> (reg: R::Register)
    requires
        m < rows@.len(),
        at + R::lanes() <= rows@[m as int]@.len(),
        rows_of_len(rows@, rows@[m as int]@.len()),
        R::lanes_of(acc) == gathered::<T, R>(f, rows@, m as int, at as int),
    ensures
        R::lanes_of(reg) == gathered::<T, R>(f, rows@, m + 1, at as int),
{
    let row: &[T] = rows[m];
    let x = R::load(row, at);
    let reg = combine_registers::<T, R>(f, acc, x);
    proof {
        R::lemma_register_shape(reg);
        assert forall|l: int| 0 <= l < R::lanes() implies R::lanes_of(reg)[l]
            == gathered::<T, R>(f, rows@, m + 1, at as int)[l] by {
            let col = column(rows@, at + l);
            lemma_fold_push(f, col, m as int);
            assert(col[m as int] == R::lanes_of(x)[l]);
        }
        assert(R::lanes_of(reg) =~= gathered::<T, R>(f, rows@, m + 1, at as int));
    }
    reg
}

/// Stores a register of finished column folds at `at`.
fn store_columns<T: Element, R: SimdRegister<T>>(
    f: Fold,
    rows: &[&[T]],
    len: usize,
    at: usize,
    reg: R::Register,
    result: &mut [T],
)
    requires
        rows_of_len(rows@, len as nat),
        at + R::lanes() <= len,
        old(result)@.len() == len,
        R::lanes_of(reg) == gathered::<T, R>(f, rows@, rows@.len() as int, at as int),
        old(result)@.subrange(0, at as int) == vertical(f, rows@, len as nat).subrange(0, at as int),
    ensures
        final(result)@.len() == len,
        final(result)@.subrange(0, at + R::lanes()) == vertical(f, rows@, len as nat).subrange(
            0,
            at + R::lanes(),
        ),
{
    let ghost want = vertical(f, rows@, len as nat);
    let ghost before = result@;
    R::write(result, at, reg);
    proof {
        assert forall|j: int| 0 <= j < at + R::lanes() implies result@[j] == want[j] by {
            if j < at {
                assert(before.subrange(0, at as int)[j] == want.subrange(0, at as int)[j]);
            } else {
                let col = column(rows@, j);
                assert(col.subrange(0, rows@.len() as int) =~= col);
            }
        }
        assert(result@.subrange(0, at + R::lanes()) =~= want.subrange(0, at + R::lanes()));
    }
}

/// One block of columns: eight accumulators live across the whole walk down
/// the rows, then are stored at `i .. i + block()`.
fn gather_block<T: Element, R: SimdRegister<T>>(
    f: Fold,
    rows: &[&[T]],
    len: usize,
    i: usize,
    result: &mut [T],
)
    requires
        rows_of_len(rows@, len as nat),
        i + block::<T, R>() <= len,
        old(result)@.len() == len,
        old(result)@.subrange(0, i as int) == vertical(f, rows@, len as nat).subrange(0, i as int),
    ensures
        final(result)@.len() == len,
        final(result)@.subrange(0, i + block::<T, R>()) == vertical(
            f,
            rows@,
            len as nat,
        ).subrange(0, i + block::<T, R>()),
{
    let lanes = R::lane_count();
    let mut accs = identity_dense::<T, R>(f);
    proof {
        assert forall|q: int| 0 <= q < 8 implies R::lanes_of(#[trigger] accs@[q])
            == gathered::<T, R>(f, rows@, 0, i + q * lanes) by {
            assert forall|l: int| 0 <= l < lanes implies #[trigger] gathered::<T, R>(
                f,
                rows@,
                0,
                i + q * lanes,
            )[l] == identity::<T>(f) by {
                assert(column(rows@, i + q * lanes + l).subrange(0, 0) =~= Seq::<T>::empty());
            }
            assert(R::lanes_of(accs@[q]) =~= gathered::<T, R>(f, rows@, 0, i + q * lanes));
        }
    }
    let mut m: usize = 0;
    while m < rows.len()
        invariant
            rows_of_len(rows@, len as nat),
            i + block::<T, R>() <= len,
            block::<T, R>() == 8 * lanes,
            lanes == R::lanes(),
            m <= rows@.len(),
            forall|q: int|
                0 <= q < 8 ==> R::lanes_of(#[trigger] accs@[q]) == gathered::<T, R>(
                    f,
                    rows@,
                    m as int,
                    i + q * lanes,
                ),
        decreases rows@.len() - m,
    {
        let mut q: usize = 0;
        let mut at: usize = i;
        while q < DENSE
            invariant
                rows_of_len(rows@, len as nat),
                i + block::<T, R>() <= len,
                block::<T, R>() == 8 * lanes,
                lanes == R::lanes(),
                m < rows@.len(),
                q <= DENSE,
                at == i + q * lanes,
                forall|p: int|
                    0 <= p < q ==> R::lanes_of(#[trigger] accs@[p]) == gathered::<T, R>(
                        f,
                        rows@,
                        m + 1,
                        i + p * lanes,
                    ),
                forall|p: int|
                    q <= p < 8 ==> R::lanes_of(#[trigger] accs@[p]) == gathered::<T, R>(
                        f,
                        rows@,
                        m as int,
                        i + p * lanes,
                    ),
            decreases DENSE - q,
        {
            proof {
                assert(at + lanes <= i + block::<T, R>()) by (nonlinear_arith)
                    requires
                        at == i + q * lanes,
                        q < 8,
                        block::<T, R>() == 8 * lanes,
                ;
            }
            let acc = accs[q];
            let reg = gather_row::<T, R>(f, rows, m, at, acc);
            accs[q] = reg;
            at = at + lanes;
            q = q + 1;
            proof {
                assert(at == i + q * lanes) by (nonlinear_arith)
                    requires
                        at == i + (q - 1) * lanes + lanes,
                ;
            }
        }
        m = m + 1;
    }
    let mut q: usize = 0;
    let mut at: usize = i;
    while q < DENSE
        invariant
            rows_of_len(rows@, len as nat),
            i + block::<T, R>() <= len,
            block::<T, R>() == 8 * lanes,
            lanes == R::lanes(),
            q <= DENSE,
            at == i + q * lanes,
            result@.len() == len,
            result@.subrange(0, at as int) == vertical(f, rows@, len as nat).subrange(0, at as int),
            forall|p: int|
                0 <= p < 8 ==> R::lanes_of(#[trigger] accs@[p]) == gathered::<T, R>(
                    f,
                    rows@,
                    rows@.len() as int,
                    i + p * lanes,
                ),
        decreases DENSE - q,
    {
        proof {
            assert(at + lanes <= i + block::<T, R>()) by (nonlinear_arith)
                requires
                    at == i + q * lanes,
                    q < 8,
                    block::<T, R>() == 8 * lanes,
            ;
        }
        store_columns::<T, R>(f, rows, len, at, accs[q], result);
        at = at + lanes;
        q = q + 1;
        proof {
            assert(at == i + q * lanes) by (nonlinear_arith)
                requires
                    at == i + (q - 1) * lanes + lanes,
            ;
        }
    }
}

/// One register of columns at `at`, gathered over every row, then stored.
fn gather_register<T: Element, R: SimdRegister<T>>(
    f: Fold,
    rows: &[&[T]],
    len: usize,
    at: usize,
    result: &mut [T],
)
    requires
        rows_of_len(rows@, len as nat),
        at + R::lanes() <= len,
        old(result)@.len() == len,
        old(result)@.subrange(0, at as int) == vertical(f, rows@, len as nat).subrange(0, at as int),
    ensures
        final(result)@.len() == len,
        final(result)@.subrange(0, at + R::lanes()) == vertical(f, rows@, len as nat).subrange(
            0,
            at + R::lanes(),
        ),
{
    let mut acc = identity_register::<T, R>(f);
    proof {
        assert forall|l: int| 0 <= l < R::lanes() implies #[trigger] gathered::<T, R>(
            f,
            rows@,
            0,
            at as int,
        )[l] == identity::<T>(f) by {
            assert(column(rows@, at + l).subrange(0, 0) =~= Seq::<T>::empty());
        }
        assert(R::lanes_of(acc) =~= gathered::<T, R>(f, rows@, 0, at as int));
    }
    let mut m: usize = 0;
    while m < rows.len()
        invariant
            rows_of_len(rows@, len as nat),
            at + R::lanes() <= len,
            m <= rows@.len(),
            R::lanes_of(acc) == gathered::<T, R>(f, rows@, m as int, at as int),
        decreases rows@.len() - m,
    {
        acc = gather_row::<T, R>(f, rows, m, at, acc);
        m = m + 1;
    }
    store_columns::<T, R>(f, rows, len, at, acc, result);
}

/// One column at `n`, folded down the rows on plain values, then stored.
fn gather_scalar<T: Element>(f: Fold, rows: &[&[T]], len: usize, n: usize, result: &mut [T])
    requires
        rows_of_len(rows@, len as nat),
        n < len,
        old(result)@.len() == len,
        old(result)@.subrange(0, n as int) == vertical(f, rows@, len as nat).subrange(0, n as int),
    ensures
        final(result)@.len() == len,
        final(result)@.subrange(0, n + 1) == vertical(f, rows@, len as nat).subrange(0, n + 1),
{
    let ghost want = vertical(f, rows@, len as nat);
    let ghost col = column(rows@, n as int);
    let mut v = identity_value::<T>(f);
    proof {
        assert(col.subrange(0, 0) =~= Seq::<T>::empty());
    }
    let mut m: usize = 0;
    while m < rows.len()
        invariant
            rows_of_len(rows@, len as nat),
            n < len,
            col == column(rows@, n as int),
            m <= rows@.len(),
            v == fold(f, col.subrange(0, m as int)),
        decreases rows@.len() - m,
    {
        let row: &[T] = rows[m];
        proof {
            lemma_fold_push(f, col, m as int);
        }
        v = combine_values(f, v, row[n]);
        m = m + 1;
    }
    let ghost before = result@;
    result[n] = v;
    proof {
        assert(col.subrange(0, rows@.len() as int) =~= col);
        assert forall|j: int| 0 <= j < n + 1 implies result@[j] == want[j] by {
            if j < n {
                assert(before.subrange(0, n as int)[j] == want.subrange(0, n as int)[j]);
            }
        }
        assert(result@.subrange(0, n + 1) =~= want.subrange(0, n + 1));
    }
}

/// A vertical reduction over rows of any length: whole blocks, then single
/// registers, then the remaining columns one by one.
fn vertical_any<T: Element, R: SimdRegister<T>>(f: Fold, rows: &[&[T]]) -> (r: Vec<T>)
    requires
        rows@.len() > 0,
        rows_of_len(rows@, rows@[0]@.len()),
    ensures
        r@ == vertical(f, rows@, rows@[0]@.len()),
{
    let first: &[T] = rows[0];
    let len = first.len();
    let ghost want = vertical(f, rows@, len as nat);
    let lanes = R::lane_count();
    let init = identity_value::<T>(f);
    let mut out: Vec<T> = vec![init; len];
    let result = out.as_mut_slice();
    let (blocks, covered) = whole_blocks::<T, R>(len);
    proof {
        assert(result@.subrange(0, 0) =~= want.subrange(0, 0));
    }
    let mut n: usize = 0;
    let mut i: usize = 0;
    while n < blocks
        invariant
            rows_of_len(rows@, len as nat),
            want == vertical(f, rows@, len as nat),
            blocks * block::<T, R>() == covered,
            covered <= len,
            lanes == R::lanes(),
            1 <= lanes <= 64,
            block::<T, R>() == 8 * lanes,
            n <= blocks,
            i == n * block::<T, R>(),
            result@.len() == len,
            result@.subrange(0, i as int) == want.subrange(0, i as int),
        decreases blocks - n,
    {
        proof {
            assert((n + 1) * block::<T, R>() <= blocks * block::<T, R>()) by (nonlinear_arith)
                requires
                    n + 1 <= blocks,
            ;
            assert((n + 1) * block::<T, R>() == n * block::<T, R>() + block::<T, R>())
                by (nonlinear_arith);
        }
        gather_block::<T, R>(f, rows, len, i, result);
        i = i + DENSE * lanes;
        n = n + 1;
    }
    while lanes <= len - i
        invariant
            rows_of_len(rows@, len as nat),
            want == vertical(f, rows@, len as nat),
            lanes == R::lanes(),
            1 <= lanes,
            i <= len,
            result@.len() == len,
            result@.subrange(0, i as int) == want.subrange(0, i as int),
        decreases len - i,
    {
        gather_register::<T, R>(f, rows, len, i, result);
        i = i + lanes;
    }
    while i < len
        invariant
            rows_of_len(rows@, len as nat),
            want == vertical(f, rows@, len as nat),
            i <= len,
            result@.len() == len,
            result@.subrange(0, i as int) == want.subrange(0, i as int),
        decreases len - i,
    {
        gather_scalar::<T>(f, rows, len, i, result);
        i = i + 1;
    }
    proof {
        assert(result@ =~= result@.subrange(0, len as int));
        assert(want =~= want.subrange(0, len as int));
    }
    out
}

/// A vertical reduction over rows whose length is a whole number of blocks.
fn vertical_const<T: Element, R: SimdRegister<T>>(f: Fold, rows: &[&[T]]) -> (r: Vec<T>)
    requires
        rows@.len() > 0,
        rows_of_len(rows@, rows@[0]@.len()),
        rows@[0]@.len() % block::<T, R>() == 0,
    ensures
        r@ == vertical(f, rows@, rows@[0]@.len()),
{
    let first: &[T] = rows[0];
    let len = first.len();
    let ghost want = vertical(f, rows@, len as nat);
    let lanes = R::lane_count();
    let init = identity_value::<T>(f);
    let mut out: Vec<T> = vec![init; len];
    let result = out.as_mut_slice();
    let (blocks, covered) = whole_blocks::<T, R>(len);
    proof {
        assert(result@.subrange(0, 0) =~= want.subrange(0, 0));
    }
    let mut n: usize = 0;
    let mut i: usize = 0;
    while n < blocks
        invariant
            rows_of_len(rows@, len as nat),
            want == vertical(f, rows@, len as nat),
            blocks * block::<T, R>() == covered,
            covered == len,
            lanes == R::lanes(),
            1 <= lanes <= 64,
            block::<T, R>() == 8 * lanes,
            n <= blocks,
            i == n * block::<T, R>(),
            result@.len() == len,
            result@.subrange(0, i as int) == want.subrange(0, i as int),
        decreases blocks - n,
    {
        proof {
            assert((n + 1) * block::<T, R>() <= blocks * block::<T, R>()) by (nonlinear_arith)
                requires
                    n + 1 <= blocks,
            ;
            assert((n + 1) * block::<T, R>() == n * block::<T, R>() + block::<T, R>())
                by (nonlinear_arith);
        }
        gather_block::<T, R>(f, rows, len, i, result);
        i = i + DENSE * lanes;
        n = n + 1;
    }
    proof {
        assert(result@ =~= result@.subrange(0, len as int));
        assert(want =~= want.subrange(0, len as int));
    }
    out
}

/// The wrapping sum of each column of the matrix whose rows are `rows`.
///
/// The rows may have any common length; there must be at least one.
pub fn xany_sum_vertical<T: Element, R: SimdRegister<T>>(rows: &[&[T]]) -> (r: Vec<T>)
    requires
        rows@.len() > 0,
        rows_of_len(rows@, rows@[0]@.len()),
    ensures
        r@ == vertical(Fold::Sum, rows@, rows@[0]@.len()),
{
    vertical_any::<T, R>(Fold::Sum, rows)
}

/// The wrapping sum of each column of the matrix whose rows are `rows`.
///
/// There must be at least one row, and `DIMS`, the common length of the
/// rows, is a whole number of blocks.
pub fn xconst_sum_vertical<T: Element, R: SimdRegister<T>, const DIMS: usize>(rows: &[&[T]]) -> (r: Vec<T>)
    requires
        rows@.len() > 0,
        rows_of_len(rows@, rows@[0]@.len()),
        rows@[0]@.len() == DIMS,
        DIMS as nat % block::<T, R>() == 0,
    ensures
        r@ == vertical(Fold::Sum, rows@, rows@[0]@.len()),
{
    vertical_const::<T, R>(Fold::Sum, rows)
}

/// The greatest element of each column of the matrix whose rows are `rows`.
///
/// The rows may have any common length; there must be at least one.
pub fn xany_max_vertical_matrix<T: Element, R: SimdRegister<T>>(rows: &[&[T]]) -> (r: Vec<T>)
    requires
        rows@.len() > 0,
        rows_of_len(rows@, rows@[0]@.len()),
    ensures
        r@ == vertical(Fold::Max, rows@, rows@[0]@.len()),
{
    vertical_any::<T, R>(Fold::Max, rows)
}

/// The greatest element of each column of the matrix whose rows are `rows`.
///
/// There must be at least one row, and `DIMS`, the common length of the
/// rows, is a whole number of blocks.
pub fn xconst_max_vertical_matrix<T: Element, R: SimdRegister<T>, const DIMS: usize>(rows: &[&[T]]) -> (r: Vec<T>)
    requires
        rows@.len() > 0,
        rows_of_len(rows@, rows@[0]@.len()),
        rows@[0]@.len() == DIMS,
        DIMS as nat % block::<T, R>() == 0,
    ensures
        r@ == vertical(Fold::Max, rows@, rows@[0]@.len()),
{
    vertical_const::<T, R>(Fold::Max, rows)
}

/// The least element of each column of the matrix whose rows are `rows`.
///
/// The rows may have any common length; there must be at least one.
pub fn xany_min_vertical_matrix<T: Element, R: SimdRegister<T>>(rows: &[&[T]]) -> (r: Vec<T>)
    requires
        rows@.len() > 0,
        rows_of_len(rows@, rows@[0]@.len()),
    ensures
        r@ == vertical(Fold::Min, rows@, rows@[0]@.len()),
{
    vertical_any::<T, R>(Fold::Min, rows)
}

/// The least element of each column of the matrix whose rows are `rows`.
///
/// There must be at least one row, and `DIMS`, the common length of the
/// rows, is a whole number of blocks.
pub fn xconst_min_vertical_matrix<T: Element, R: SimdRegister<T>, const DIMS: usize>(rows: &[&[T]]) -> (r: Vec<T>)
    requires
        rows@.len() > 0,
        rows_of_len(rows@, rows@[0]@.len()),
        rows@[0]@.len() == DIMS,
        DIMS as nat % block::<T, R>() == 0,
    ensures
        r@ == vertical(Fold::Min, rows@, rows@[0]@.len()),
{
    vertical_const::<T, R>(Fold::Min, rows)
}

} // verus!
