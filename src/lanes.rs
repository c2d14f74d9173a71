//! Lane-group registers held as fixed-size arrays: every operation of the
//! register abstraction, carried out lane by lane.
use vstd::prelude::*;
use crate::algebra::{Fold, Lanewise, all_defined, apply, defined, fold, lanewise, lemma_fold_push};
use crate::dense::{combine_values, identity_value};
use crate::element::{Element, max_value, min_value};

verus! {

/// Reads `N` consecutive elements of `mem`, starting at `at`.
pub fn array_load<T: Element, const N: usize>(mem: &[T], at: usize) -> (r: [T; N])
    requires
        at + N <= mem@.len(),
    ensures
        r@ == mem@.subrange(at as int, at + N),
{
    let len = mem.len();
    let mut r = [T::zero(); N];
    let mut i: usize = 0;
    while i < N
        invariant
            len == mem@.len(),
            at + N <= mem@.len(),
            i <= N,
            r@.len() == N,
            forall|j: int| 0 <= j < i ==> r@[j] == mem@[at + j],
        decreases N - i,
    {
        r[i] = mem[at + i];
        i = i + 1;
    }
    assert(r@ =~= mem@.subrange(at as int, at + N));
    r
}

/// `value` in each of `N` lanes.
pub fn array_filled<T: Element, const N: usize>(value: T) -> (r: [T; N])
    ensures
        r@ == Seq::new(N as nat, |i: int| value),
{
    let r = [value; N];
    assert(r@ =~= Seq::new(N as nat, |i: int| value));
    r
}

/// `op` lane by lane.
pub fn array_apply<T: Element, const N: usize>(op: Lanewise, x: [T; N], y: [T; N]) -> (r: [T; N])
    requires
        all_defined(op, x@, y@),
    ensures
        r@ == lanewise(op, x@, y@),
{
    let mut r = [T::zero(); N];
    let mut i: usize = 0;
    while i < N
        invariant
            all_defined(op, x@, y@),
            i <= N,
            r@.len() == N,
            forall|j: int| 0 <= j < i ==> r@[j] == apply(op, x@[j], y@[j]),
        decreases N - i,
    {
        assert(defined(op, x@[i as int], y@[i as int]));
        let v = match op {
            Lanewise::Add => x[i].plus(y[i]),
            Lanewise::Sub => x[i].minus(y[i]),
            Lanewise::Mul => x[i].times(y[i]),
            Lanewise::Div => x[i].quotient(y[i]),
            Lanewise::Max => max_value(x[i], y[i]),
            Lanewise::Min => min_value(x[i], y[i]),
        };
        r[i] = v;
        i = i + 1;
    }
    assert(r@ =~= lanewise(op, x@, y@));
    r
}

/// `x * y + acc` lane by lane.
pub fn array_fmadd<T: Element, const N: usize>(x: [T; N], y: [T; N], acc: [T; N]) -> (r: [T; N])
    ensures
        r@ == lanewise(Lanewise::Add, lanewise(Lanewise::Mul, x@, y@), acc@),
{
    let mut r = [T::zero(); N];
    let mut i: usize = 0;
    while i < N
        invariant
            i <= N,
            r@.len() == N,
            forall|j: int| 0 <= j < i ==> r@[j] == x@[j].spec_times(y@[j]).spec_plus(acc@[j]),
        decreases N - i,
    {
        r[i] = x[i].times(y[i]).plus(acc[i]);
        i = i + 1;
    }
    assert(r@ =~= lanewise(Lanewise::Add, lanewise(Lanewise::Mul, x@, y@), acc@));
    r
}

/// `f` folded over the lanes.
pub fn array_fold<T: Element, const N: usize>(f: Fold, x: [T; N]) -> (r: T)
    ensures
        r == fold(f, x@),
{
    let mut r = identity_value::<T>(f);
    let mut i: usize = 0;
    assert(x@.subrange(0, 0) =~= Seq::<T>::empty());
    while i < N
        invariant
            i <= N,
            x@.len() == N,
            r == fold(f, x@.subrange(0, i as int)),
        decreases N - i,
    {
        proof {
            lemma_fold_push(f, x@, i as int);
        }
        r = combine_values(f, r, x[i]);
        i = i + 1;
    }
    assert(x@.subrange(0, N as int) =~= x@);
    r
}

/// Stores the lanes into `mem`, starting at `at`.
pub fn array_write<T: Element, const N: usize>(mem: &mut [T], at: usize, x: [T; N])
    requires
        at + N <= old(mem)@.len(),
    ensures
        final(mem)@ == old(mem)@.subrange(0, at as int) + x@ + old(mem)@.subrange(
            at + N,
            old(mem)@.len() as int,
        ),
{
    let ghost before = mem@;
    let len = mem.len();
    let mut i: usize = 0;
    while i < N
        invariant
            len == before.len(),
            at + N <= before.len(),
            i <= N,
            mem@.len() == before.len(),
            forall|j: int| 0 <= j < at ==> mem@[j] == before[j],
            forall|j: int| at + N <= j < before.len() ==> mem@[j] == before[j],
            forall|j: int| 0 <= j < i ==> mem@[at + j] == x@[j],
        decreases N - i,
    {
        mem[at + i] = x[i];
        i = i + 1;
    }
    assert(mem@ =~= before.subrange(0, at as int) + x@ + before.subrange(
        at + N,
        before.len() as int,
    ));
}

} // verus!
