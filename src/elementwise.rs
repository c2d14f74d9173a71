//! Element-wise transforms: a vector combined with a single value or with a
//! second vector, position by position, into a result buffer.
use vstd::prelude::*;
use crate::algebra::{Lanewise, all_defined, apply, defined, lanewise};
use crate::dense::{DENSE, block, whole_blocks};
use crate::element::{Element, max_value, min_value};
use crate::register::SimdRegister;

verus! {

/// `value` repeated `n` times.
pub open spec fn broadcast<T>(value: T, n: nat) -> Seq<T> {
    Seq::new(n, |j: int| value)
}

/// The right-hand operand of an element-wise kernel: `value` in every
/// position when one is given, the vector `b` otherwise.
pub open spec fn operand<T>(b: Seq<T>, value: Option<T>, n: nat) -> Seq<T> {
    match value {
        Some(v) => broadcast(v, n),
        None => b,
    }
}

/// `op` on two registers, lane by lane.
fn apply_registers<T: Element, R: SimdRegister<T>>(
    op: Lanewise,
    x: R::Register,
    y: R::Register,
) -> (reg: R::Register)
    requires
        all_defined(op, R::lanes_of(x), R::lanes_of(y)),
    ensures
        R::lanes_of(reg) == lanewise(op, R::lanes_of(x), R::lanes_of(y)),
{
    match op {
        Lanewise::Add => R::add(x, y),
        Lanewise::Sub => R::sub(x, y),
        Lanewise::Mul => R::mul(x, y),
        Lanewise::Div => R::div(x, y),
        Lanewise::Max => R::max(x, y),
        Lanewise::Min => R::min(x, y),
    }
}

/// `op` on two plain values.
fn apply_values<T: Element>(op: Lanewise, x: T, y: T) -> (r: T)
    requires
        defined(op, x, y),
    ensures
        r == apply(op, x, y),
{
    match op {
        Lanewise::Add => x.plus(y),
        Lanewise::Sub => x.minus(y),
        Lanewise::Mul => x.times(y),
        Lanewise::Div => x.quotient(y),
        Lanewise::Max => max_value(x, y),
        Lanewise::Min => min_value(x, y),
    }
}

/// One register of output: positions `at .. at + lanes()` of `result` get
/// their final values; the positions before them keep theirs.
fn apply_step<T: Element, R: SimdRegister<T>>(
    op: Lanewise,
    a: &[T],
    b: &[T],
    value: Option<T>,
    fill: R::Register,
    result: &mut [T],
    at: usize,
)
    requires
        a@.len() == b@.len(),
        old(result)@.len() == a@.len(),
        at + R::lanes() <= a@.len(),
        all_defined(op, a@, operand(b@, value, a@.len())),
        value is Some ==> R::lanes_of(fill) == broadcast(value->0, R::lanes()),
        old(result)@.subrange(0, at as int) == lanewise(
            op,
            a@,
            operand(b@, value, a@.len()),
        ).subrange(0, at as int),
    ensures
        final(result)@.len() == a@.len(),
        final(result)@.subrange(0, at + R::lanes()) == lanewise(
            op,
            a@,
            operand(b@, value, a@.len()),
        ).subrange(0, at + R::lanes()),
{
    let ghost rhs = operand(b@, value, a@.len());
    let ghost want = lanewise(op, a@, rhs);
    let ghost before = result@;
    let x = R::load(a, at);
    let y = match value {
        Some(_) => fill,
        None => R::load(b, at),
    };
    proof {
        R::lemma_register_shape(x);
        R::lemma_register_shape(y);
        assert(R::lanes_of(y) =~= rhs.subrange(at as int, at + R::lanes()));
        assert forall|i: int| 0 <= i < R::lanes() implies #[trigger] defined(
            op,
            R::lanes_of(x)[i],
            R::lanes_of(y)[i],
        ) by {
            assert(defined(op, a@[at + i], rhs[at + i]));
        }
    }
    let reg = apply_registers::<T, R>(op, x, y);
    R::write(result, at, reg);
    proof {
        R::lemma_register_shape(reg);
        assert(result@.subrange(0, at + R::lanes()) =~= want.subrange(0, at + R::lanes())) by {
            assert forall|j: int| 0 <= j < at + R::lanes() implies result@[j] == want[j] by {
                if j < at {
                    assert(before.subrange(0, at as int)[j] == want.subrange(0, at as int)[j]);
                }
            }
        }
    }
}

/// One position of output, computed on plain values.
fn apply_scalar<T: Element>(
    op: Lanewise,
    a: &[T],
    b: &[T],
    value: Option<T>,
    result: &mut [T],
    at: usize,
)
    requires
        a@.len() == b@.len(),
        old(result)@.len() == a@.len(),
        at < a@.len(),
        all_defined(op, a@, operand(b@, value, a@.len())),
        old(result)@.subrange(0, at as int) == lanewise(
            op,
            a@,
            operand(b@, value, a@.len()),
        ).subrange(0, at as int),
    ensures
        final(result)@.len() == a@.len(),
        final(result)@.subrange(0, at + 1) == lanewise(
            op,
            a@,
            operand(b@, value, a@.len()),
        ).subrange(0, at + 1),
{
    let ghost rhs = operand(b@, value, a@.len());
    let ghost want = lanewise(op, a@, rhs);
    let ghost before = result@;
    let y = match value {
        Some(v) => v,
        None => b[at],
    };
    assert(defined(op, a@[at as int], rhs[at as int]));
    let r = apply_values(op, a[at], y);
    result[at] = r;
    proof {
        assert forall|j: int| 0 <= j < at + 1 implies result@[j] == want[j] by {
            if j < at {
                assert(before.subrange(0, at as int)[j] == want.subrange(0, at as int)[j]);
            }
        }
        assert(result@.subrange(0, at + 1) =~= want.subrange(0, at + 1));
    }
}

/// The dense phase of an element-wise kernel: the first `blocks` whole blocks,
/// eight registers at a time.
fn apply_dense<T: Element, R: SimdRegister<T>>(
    op: Lanewise,
    a: &[T],
    b: &[T],
    value: Option<T>,
    fill: R::Register,
    result: &mut [T],
    blocks: usize,
)
    requires
        a@.len() == b@.len(),
        old(result)@.len() == a@.len(),
        blocks * block::<T, R>() <= a@.len(),
        all_defined(op, a@, operand(b@, value, a@.len())),
        value is Some ==> R::lanes_of(fill) == broadcast(value->0, R::lanes()),
    ensures
        final(result)@.len() == a@.len(),
        final(result)@.subrange(0, blocks * block::<T, R>()) == lanewise(
            op,
            a@,
            operand(b@, value, a@.len()),
        ).subrange(0, blocks * block::<T, R>()),
{
    let ghost want = lanewise(op, a@, operand(b@, value, a@.len()));
    let lanes = R::lane_count();
    let len = a.len();
    proof {
        assert(result@.subrange(0, 0) =~= want.subrange(0, 0));
    }
    let mut n: usize = 0;
    let mut i: usize = 0;
    while n < blocks
        invariant
            a@.len() == b@.len(),
            len == a@.len(),
            result@.len() == len,
            want == lanewise(op, a@, operand(b@, value, a@.len())),
            all_defined(op, a@, operand(b@, value, a@.len())),
            value is Some ==> R::lanes_of(fill) == broadcast(value->0, R::lanes()),
            block::<T, R>() == 8 * lanes,
            blocks * block::<T, R>() <= len,
            lanes == R::lanes(),
            n <= blocks,
            i == n * block::<T, R>(),
            result@.subrange(0, i as int) == want.subrange(0, i as int),
        decreases blocks - n,
    {
        proof {
            assert((n + 1) * block::<T, R>() <= blocks * block::<T, R>()) by (nonlinear_arith)
                requires
                    n + 1 <= blocks,
            ;
            assert((n + 1) * block::<T, R>() == n * block::<T, R>() + block::<T, R>())
                by (nonlinear_arith);
        }
        let mut q: usize = 0;
        let mut at: usize = i;
        while q < DENSE
            invariant
                a@.len() == b@.len(),
                len == a@.len(),
                result@.len() == len,
                want == lanewise(op, a@, operand(b@, value, a@.len())),
                all_defined(op, a@, operand(b@, value, a@.len())),
                value is Some ==> R::lanes_of(fill) == broadcast(value->0, R::lanes()),
                block::<T, R>() == 8 * lanes,
                lanes == R::lanes(),
                i + block::<T, R>() <= len,
                q <= DENSE,
                at == i + q * lanes,
                result@.subrange(0, at as int) == want.subrange(0, at as int),
            decreases DENSE - q,
        {
            proof {
                assert(at + lanes <= i + block::<T, R>()) by (nonlinear_arith)
                    requires
                        at == i + q * lanes,
                        q < 8,
                        block::<T, R>() == 8 * lanes,
                ;
            }
            apply_step::<T, R>(op, a, b, value, fill, result, at);
            at = at + lanes;
            q = q + 1;
            proof {
                assert(at == i + q * lanes) by (nonlinear_arith)
                    requires
                        at == i + (q - 1) * lanes + lanes,
                ;
            }
        }
        i = at;
        n = n + 1;
    }
}

/// An element-wise kernel over inputs of any length: whole blocks, then
/// single registers, then the remaining positions one by one.
fn apply_any<T: Element, R: SimdRegister<T>>(
    op: Lanewise,
    a: &[T],
    b: &[T],
    value: Option<T>,
    result: &mut [T],
)
    requires
        a@.len() == b@.len(),
        old(result)@.len() == a@.len(),
        all_defined(op, a@, operand(b@, value, a@.len())),
    ensures
        final(result)@ == lanewise(op, a@, operand(b@, value, a@.len())),
{
    let ghost want = lanewise(op, a@, operand(b@, value, a@.len()));
    let len = a.len();
    let lanes = R::lane_count();
    let fill = match value {
        Some(v) => R::filled(v),
        None => R::zeroed(),
    };
    let (blocks, covered) = whole_blocks::<T, R>(len);
    apply_dense::<T, R>(op, a, b, value, fill, result, blocks);
    let mut i = covered;
    while lanes <= len - i
        invariant
            a@.len() == b@.len(),
            len == a@.len(),
            result@.len() == len,
            want == lanewise(op, a@, operand(b@, value, a@.len())),
            all_defined(op, a@, operand(b@, value, a@.len())),
            value is Some ==> R::lanes_of(fill) == broadcast(value->0, R::lanes()),
            lanes == R::lanes(),
            1 <= lanes,
            i <= len,
            result@.subrange(0, i as int) == want.subrange(0, i as int),
        decreases len - i,
    {
        apply_step::<T, R>(op, a, b, value, fill, result, i);
        i = i + lanes;
    }
    while i < len
        invariant
            a@.len() == b@.len(),
            len == a@.len(),
            result@.len() == len,
            want == lanewise(op, a@, operand(b@, value, a@.len())),
            all_defined(op, a@, operand(b@, value, a@.len())),
            i <= len,
            result@.subrange(0, i as int) == want.subrange(0, i as int),
        decreases len - i,
    {
        apply_scalar::<T>(op, a, b, value, result, i);
        i = i + 1;
    }
    proof {
        assert(result@ =~= result@.subrange(0, len as int));
        assert(want =~= want.subrange(0, len as int));
    }
}

/// An element-wise kernel over inputs whose length is a whole number of blocks.
fn apply_const<T: Element, R: SimdRegister<T>>(
    op: Lanewise,
    a: &[T],
    b: &[T],
    value: Option<T>,
    result: &mut [T],
)
    requires
        a@.len() == b@.len(),
        old(result)@.len() == a@.len(),
        a@.len() % block::<T, R>() == 0,
        all_defined(op, a@, operand(b@, value, a@.len())),
    ensures
        final(result)@ == lanewise(op, a@, operand(b@, value, a@.len())),
{
    let ghost want = lanewise(op, a@, operand(b@, value, a@.len()));
    let fill = match value {
        Some(v) => R::filled(v),
        None => R::zeroed(),
    };
    let (blocks, covered) = whole_blocks::<T, R>(a.len());
    apply_dense::<T, R>(op, a, b, value, fill, result, blocks);
    proof {
        assert(result@ =~= result@.subrange(0, covered as int));
        assert(want =~= want.subrange(0, covered as int));
    }
}

/// Adds `value` to every element of `a`, storing the sums in `result`.
///
/// Works on any length.
pub fn xany_add_value<T: Element, R: SimdRegister<T>>(value: T, a: &[T], result: &mut [T])
    requires
        old(result)@.len() == a@.len(),
    ensures
        final(result)@ == lanewise(Lanewise::Add, a@, broadcast(value, a@.len())),
{
    apply_any::<T, R>(Lanewise::Add, a, a, Some(value), result);
}

/// Adds `value` to every element of `a`, storing the sums in `result`.
///
/// `DIMS` is the length of the input, a whole number of blocks.
pub fn xconst_add_value<T: Element, R: SimdRegister<T>, const DIMS: usize>(value: T, a: &[T], result: &mut [T])
    requires
        old(result)@.len() == a@.len(),
        a@.len() == DIMS,
        DIMS as nat % block::<T, R>() == 0,
    ensures
        final(result)@ == lanewise(Lanewise::Add, a@, broadcast(value, a@.len())),
{
    apply_const::<T, R>(Lanewise::Add, a, a, Some(value), result);
}

/// Subtracts `value` from every element of `a`, storing the differences in `result`.
///
/// Works on any length.
pub fn xany_sub_value<T: Element, R: SimdRegister<T>>(value: T, a: &[T], result: &mut [T])
    requires
        old(result)@.len() == a@.len(),
    ensures
        final(result)@ == lanewise(Lanewise::Sub, a@, broadcast(value, a@.len())),
{
    apply_any::<T, R>(Lanewise::Sub, a, a, Some(value), result);
}

/// Subtracts `value` from every element of `a`, storing the differences in `result`.
///
/// `DIMS` is the length of the input, a whole number of blocks.
pub fn xconst_sub_value<T: Element, R: SimdRegister<T>, const DIMS: usize>(value: T, a: &[T], result: &mut [T])
    requires
        old(result)@.len() == a@.len(),
        a@.len() == DIMS,
        DIMS as nat % block::<T, R>() == 0,
    ensures
        final(result)@ == lanewise(Lanewise::Sub, a@, broadcast(value, a@.len())),
{
    apply_const::<T, R>(Lanewise::Sub, a, a, Some(value), result);
}

/// Multiplies every element of `a` by `value`, storing the products in `result`.
///
/// Works on any length.
pub fn xany_mul_value<T: Element, R: SimdRegister<T>>(value: T, a: &[T], result: &mut [T])
    requires
        old(result)@.len() == a@.len(),
    ensures
        final(result)@ == lanewise(Lanewise::Mul, a@, broadcast(value, a@.len())),
{
    apply_any::<T, R>(Lanewise::Mul, a, a, Some(value), result);
}

/// Multiplies every element of `a` by `value`, storing the products in `result`.
///
/// `DIMS` is the length of the input, a whole number of blocks.
pub fn xconst_mul_value<T: Element, R: SimdRegister<T>, const DIMS: usize>(value: T, a: &[T], result: &mut [T])
    requires
        old(result)@.len() == a@.len(),
        a@.len() == DIMS,
        DIMS as nat % block::<T, R>() == 0,
    ensures
        final(result)@ == lanewise(Lanewise::Mul, a@, broadcast(value, a@.len())),
{
    apply_const::<T, R>(Lanewise::Mul, a, a, Some(value), result);
}

/// Divides every element of `a` by `value`, storing the quotients in `result`.
///
/// The division is carried out in full; no reciprocal is taken.
///
/// Works on any length.
pub fn xany_div_value<T: Element, R: SimdRegister<T>>(value: T, a: &[T], result: &mut [T])
    requires
        old(result)@.len() == a@.len(),
        forall|j: int| 0 <= j < a@.len() ==> (#[trigger] a@[j]).quotient_defined(value),
    ensures
        final(result)@ == lanewise(Lanewise::Div, a@, broadcast(value, a@.len())),
{
    proof {
        assert forall|j: int| 0 <= j < a@.len() implies #[trigger] defined(
            Lanewise::Div,
            a@[j],
            broadcast(value, a@.len())[j],
        ) by {
            assert(a@[j].quotient_defined(value));
        }
    }
    apply_any::<T, R>(Lanewise::Div, a, a, Some(value), result);
}

/// Divides every element of `a` by `value`, storing the quotients in `result`.
///
/// The division is carried out in full; no reciprocal is taken.
///
/// `DIMS` is the length of the input, a whole number of blocks.
pub fn xconst_div_value<T: Element, R: SimdRegister<T>, const DIMS: usize>(value: T, a: &[T], result: &mut [T])
    requires
        old(result)@.len() == a@.len(),
        a@.len() == DIMS,
        DIMS as nat % block::<T, R>() == 0,
        forall|j: int| 0 <= j < a@.len() ==> (#[trigger] a@[j]).quotient_defined(value),
    ensures
        final(result)@ == lanewise(Lanewise::Div, a@, broadcast(value, a@.len())),
{
    proof {
        assert forall|j: int| 0 <= j < a@.len() implies #[trigger] defined(
            Lanewise::Div,
            a@[j],
            broadcast(value, a@.len())[j],
        ) by {
            assert(a@[j].quotient_defined(value));
        }
    }
    apply_const::<T, R>(Lanewise::Div, a, a, Some(value), result);
}

/// Adds `a` and `b` position by position, storing the sums in `result`.
///
/// Works on any length.
pub fn xany_add_vector<T: Element, R: SimdRegister<T>>(a: &[T], b: &[T], result: &mut [T])
    requires
        a@.len() == b@.len(),
        old(result)@.len() == a@.len(),
    ensures
        final(result)@ == lanewise(Lanewise::Add, a@, b@),
{
    apply_any::<T, R>(Lanewise::Add, a, b, None, result);
}

/// Adds `a` and `b` position by position, storing the sums in `result`.
///
/// `DIMS` is the length of the inputs, a whole number of blocks.
pub fn xconst_add_vector<T: Element, R: SimdRegister<T>, const DIMS: usize>(a: &[T], b: &[T], result: &mut [T])
    requires
        a@.len() == b@.len(),
        old(result)@.len() == a@.len(),
        a@.len() == DIMS,
        DIMS as nat % block::<T, R>() == 0,
    ensures
        final(result)@ == lanewise(Lanewise::Add, a@, b@),
{
    apply_const::<T, R>(Lanewise::Add, a, b, None, result);
}

/// Subtracts `b` from `a` position by position, storing the differences in `result`.
///
/// Works on any length.
pub fn xany_sub_vector<T: Element, R: SimdRegister<T>>(a: &[T], b: &[T], result: &mut [T])
    requires
        a@.len() == b@.len(),
        old(result)@.len() == a@.len(),
    ensures
        final(result)@ == lanewise(Lanewise::Sub, a@, b@),
{
    apply_any::<T, R>(Lanewise::Sub, a, b, None, result);
}

/// Subtracts `b` from `a` position by position, storing the differences in `result`.
///
/// `DIMS` is the length of the inputs, a whole number of blocks.
pub fn xconst_sub_vector<T: Element, R: SimdRegister<T>, const DIMS: usize>(a: &[T], b: &[T], result: &mut [T])
    requires
        a@.len() == b@.len(),
        old(result)@.len() == a@.len(),
        a@.len() == DIMS,
        DIMS as nat % block::<T, R>() == 0,
    ensures
        final(result)@ == lanewise(Lanewise::Sub, a@, b@),
{
    apply_const::<T, R>(Lanewise::Sub, a, b, None, result);
}

/// Multiplies `a` and `b` position by position, storing the products in `result`.
///
/// Works on any length.
pub fn xany_mul_vector<T: Element, R: SimdRegister<T>>(a: &[T], b: &[T], result: &mut [T])
    requires
        a@.len() == b@.len(),
        old(result)@.len() == a@.len(),
    ensures
        final(result)@ == lanewise(Lanewise::Mul, a@, b@),
{
    apply_any::<T, R>(Lanewise::Mul, a, b, None, result);
}

/// Multiplies `a` and `b` position by position, storing the products in `result`.
///
/// `DIMS` is the length of the inputs, a whole number of blocks.
pub fn xconst_mul_vector<T: Element, R: SimdRegister<T>, const DIMS: usize>(a: &[T], b: &[T], result: &mut [T])
    requires
        a@.len() == b@.len(),
        old(result)@.len() == a@.len(),
        a@.len() == DIMS,
        DIMS as nat % block::<T, R>() == 0,
    ensures
        final(result)@ == lanewise(Lanewise::Mul, a@, b@),
{
    apply_const::<T, R>(Lanewise::Mul, a, b, None, result);
}

/// Divides `a` by `b` position by position, storing the quotients in `result`.
///
/// Works on any length.
pub fn xany_div_vector<T: Element, R: SimdRegister<T>>(a: &[T], b: &[T], result: &mut [T])
    requires
        a@.len() == b@.len(),
        old(result)@.len() == a@.len(),
        forall|j: int| 0 <= j < a@.len() ==> (#[trigger] a@[j]).quotient_defined(b@[j]),
    ensures
        final(result)@ == lanewise(Lanewise::Div, a@, b@),
{
    proof {
        assert forall|j: int| 0 <= j < a@.len() implies #[trigger] defined(
            Lanewise::Div,
            a@[j],
            b@[j],
        ) by {
            assert(a@[j].quotient_defined(b@[j]));
        }
    }
    apply_any::<T, R>(Lanewise::Div, a, b, None, result);
}

/// Divides `a` by `b` position by position, storing the quotients in `result`.
///
/// `DIMS` is the length of the inputs, a whole number of blocks.
pub fn xconst_div_vector<T: Element, R: SimdRegister<T>, const DIMS: usize>(a: &[T], b: &[T], result: &mut [T])
    requires
        a@.len() == b@.len(),
        old(result)@.len() == a@.len(),
        a@.len() == DIMS,
        DIMS as nat % block::<T, R>() == 0,
        forall|j: int| 0 <= j < a@.len() ==> (#[trigger] a@[j]).quotient_defined(b@[j]),
    ensures
        final(result)@ == lanewise(Lanewise::Div, a@, b@),
{
    proof {
        assert forall|j: int| 0 <= j < a@.len() implies #[trigger] defined(
            Lanewise::Div,
            a@[j],
            b@[j],
        ) by {
            assert(a@[j].quotient_defined(b@[j]));
        }
    }
    apply_const::<T, R>(Lanewise::Div, a, b, None, result);
}

/// The larger of `a[i]` and `b[i]` at every position, stored in `result`.
///
/// Works on any length.
pub fn xany_max_vertical<T: Element, R: SimdRegister<T>>(a: &[T], b: &[T], result: &mut [T])
    requires
        a@.len() == b@.len(),
        old(result)@.len() == a@.len(),
    ensures
        final(result)@ == lanewise(Lanewise::Max, a@, b@),
{
    apply_any::<T, R>(Lanewise::Max, a, b, None, result);
}

/// The larger of `a[i]` and `b[i]` at every position, stored in `result`.
///
/// `DIMS` is the length of the inputs, a whole number of blocks.
pub fn xconst_max_vertical<T: Element, R: SimdRegister<T>, const DIMS: usize>(a: &[T], b: &[T], result: &mut [T])
    requires
        a@.len() == b@.len(),
        old(result)@.len() == a@.len(),
        a@.len() == DIMS,
        DIMS as nat % block::<T, R>() == 0,
    ensures
        final(result)@ == lanewise(Lanewise::Max, a@, b@),
{
    apply_const::<T, R>(Lanewise::Max, a, b, None, result);
}

/// The smaller of `a[i]` and `b[i]` at every position, stored in `result`.
///
/// Works on any length.
pub fn xany_min_vertical<T: Element, R: SimdRegister<T>>(a: &[T], b: &[T], result: &mut [T])
    requires
        a@.len() == b@.len(),
        old(result)@.len() == a@.len(),
    ensures
        final(result)@ == lanewise(Lanewise::Min, a@, b@),
{
    apply_any::<T, R>(Lanewise::Min, a, b, None, result);
}

/// The smaller of `a[i]` and `b[i]` at every position, stored in `result`.
///
/// `DIMS` is the length of the inputs, a whole number of blocks.
pub fn xconst_min_vertical<T: Element, R: SimdRegister<T>, const DIMS: usize>(a: &[T], b: &[T], result: &mut [T])
    requires
        a@.len() == b@.len(),
        old(result)@.len() == a@.len(),
        a@.len() == DIMS,
        DIMS as nat % block::<T, R>() == 0,
    ensures
        final(result)@ == lanewise(Lanewise::Min, a@, b@),
{
    apply_const::<T, R>(Lanewise::Min, a, b, None, result);
}

} // verus!
