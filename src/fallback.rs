//! The scalar backend: a register is a single element.
use vstd::prelude::*;
use crate::algebra::{Fold, Lanewise, defined, lanewise, lemma_fold_single};
use crate::element::{Element, max_value, min_value};
use crate::register::SimdRegister;

verus! {

/// Fallback SIMD-like operations.
///
/// Each register holds one element, so every operation is the scalar one; it
/// covers targets without a dedicated backend and is always available.
pub struct Fallback;

impl<T: Element> SimdRegister<T> for Fallback {
    type Register = T;

    open spec fn lanes() -> nat {
        1
    }

    open spec fn lanes_of(reg: T) -> Seq<T> {
        seq![reg]
    }

    proof fn lemma_register_shape(reg: T) {
    }

    fn lane_count() -> usize {
        1
    }

    fn load(mem: &[T], at: usize) -> T {
        let x = mem[at];
        assert(seq![x] =~= mem@.subrange(at as int, at + 1));
        x
    }

    fn filled(value: T) -> T {
        assert(seq![value] =~= Seq::new(1, |i: int| value));
        value
    }

    fn zeroed() -> T {
        let z = T::zero();
        assert(seq![z] =~= Seq::new(1, |i: int| T::spec_zero()));
        z
    }

    fn add(l1: T, l2: T) -> T {
        let r = l1.plus(l2);
        assert(seq![r] =~= lanewise(Lanewise::Add, seq![l1], seq![l2]));
        r
    }

    fn sub(l1: T, l2: T) -> T {
        let r = l1.minus(l2);
        assert(seq![r] =~= lanewise(Lanewise::Sub, seq![l1], seq![l2]));
        r
    }

    fn mul(l1: T, l2: T) -> T {
        let r = l1.times(l2);
        assert(seq![r] =~= lanewise(Lanewise::Mul, seq![l1], seq![l2]));
        r
    }

    fn div(l1: T, l2: T) -> T {
        assert(defined(Lanewise::Div, seq![l1][0], seq![l2][0]));
        let r = l1.quotient(l2);
        assert(seq![r] =~= lanewise(Lanewise::Div, seq![l1], seq![l2]));
        r
    }

    fn fmadd(l1: T, l2: T, acc: T) -> T {
        let r = l1.times(l2).plus(acc);
        assert(seq![r] =~= lanewise(
            Lanewise::Add,
            lanewise(Lanewise::Mul, seq![l1], seq![l2]),
            seq![acc],
        ));
        r
    }

    fn max(l1: T, l2: T) -> T {
        let r = max_value(l1, l2);
        assert(seq![r] =~= lanewise(Lanewise::Max, seq![l1], seq![l2]));
        r
    }

    fn min(l1: T, l2: T) -> T {
        let r = min_value(l1, l2);
        assert(seq![r] =~= lanewise(Lanewise::Min, seq![l1], seq![l2]));
        r
    }

    fn sum_to_value(reg: T) -> T {
        proof {
            lemma_fold_single(Fold::Sum, reg);
        }
        reg
    }

    fn max_to_value(reg: T) -> T {
        proof {
            lemma_fold_single(Fold::Max, reg);
        }
        reg
    }

    fn min_to_value(reg: T) -> T {
        proof {
            lemma_fold_single(Fold::Min, reg);
        }
        reg
    }

    fn write(mem: &mut [T], at: usize, reg: T) {
        let ghost before = mem@;
        mem[at] = reg;
        assert(mem@ =~= before.subrange(0, at as int) + seq![reg] + before.subrange(
            at + 1,
            before.len() as int,
        ));
    }
}

} // verus!
