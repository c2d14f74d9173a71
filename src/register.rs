//! The register abstraction: one group of lanes of a single element type, and
//! the operations every backend provides on it.
use vstd::prelude::*;
use crate::algebra::{Fold, Lanewise, all_defined, fold, lanewise};
use crate::element::Element;

verus! {

/// A backend's lane group over the element type `T`.
///
/// Every kernel is written once against this capability; a backend decides
/// how many lanes a register holds and how each operation is carried out.
pub trait SimdRegister<T: Element> {
    type Register: Copy;

    /// How many elements one register holds.
    spec fn lanes() -> nat;

    /// The elements held by a register, lane 0 first.
    spec fn lanes_of(reg: Self::Register) -> Seq<T>;

    proof fn lemma_register_shape(reg: Self::Register)
        ensures
            1 <= Self::lanes() <= 64,
            Self::lanes_of(reg).len() == Self::lanes(),
    ;

    fn lane_count() -> (n: usize)
        ensures
            n == Self::lanes(),
            1 <= n <= 64,
    ;

    /// Reads `lanes()` consecutive elements of `mem`, starting at `at`.
    fn load(mem: &[T], at: usize) -> (reg: Self::Register)
        requires
            at + Self::lanes() <= mem@.len(),
        ensures
            Self::lanes_of(reg) == mem@.subrange(at as int, at + Self::lanes()),
    ;

    /// A register with `value` in every lane.
    fn filled(value: T) -> (reg: Self::Register)
        ensures
            Self::lanes_of(reg) == Seq::new(Self::lanes(), |i: int| value),
    ;

    fn zeroed() -> (reg: Self::Register)
        ensures
            Self::lanes_of(reg) == Seq::new(Self::lanes(), |i: int| T::spec_zero()),
    ;

    fn add(l1: Self::Register, l2: Self::Register) -> (reg: Self::Register)
        ensures
            Self::lanes_of(reg) == lanewise(Lanewise::Add, Self::lanes_of(l1), Self::lanes_of(l2)),
    ;

    fn sub(l1: Self::Register, l2: Self::Register) -> (reg: Self::Register)
        ensures
            Self::lanes_of(reg) == lanewise(Lanewise::Sub, Self::lanes_of(l1), Self::lanes_of(l2)),
    ;

    fn mul(l1: Self::Register, l2: Self::Register) -> (reg: Self::Register)
        ensures
            Self::lanes_of(reg) == lanewise(Lanewise::Mul, Self::lanes_of(l1), Self::lanes_of(l2)),
    ;

    fn div(l1: Self::Register, l2: Self::Register) -> (reg: Self::Register)
        requires
            all_defined(Lanewise::Div, Self::lanes_of(l1), Self::lanes_of(l2)),
        ensures
            Self::lanes_of(reg) == lanewise(Lanewise::Div, Self::lanes_of(l1), Self::lanes_of(l2)),
    ;

    /// `l1 * l2 + acc`, lane by lane.
    fn fmadd(l1: Self::Register, l2: Self::Register, acc: Self::Register) -> (reg: Self::Register)
        ensures
            Self::lanes_of(reg) == lanewise(
                Lanewise::Add,
                lanewise(Lanewise::Mul, Self::lanes_of(l1), Self::lanes_of(l2)),
                Self::lanes_of(acc),
            ),
    ;

    fn max(l1: Self::Register, l2: Self::Register) -> (reg: Self::Register)
        ensures
            Self::lanes_of(reg) == lanewise(Lanewise::Max, Self::lanes_of(l1), Self::lanes_of(l2)),
    ;

    fn min(l1: Self::Register, l2: Self::Register) -> (reg: Self::Register)
        ensures
            Self::lanes_of(reg) == lanewise(Lanewise::Min, Self::lanes_of(l1), Self::lanes_of(l2)),
    ;

    /// The wrapping sum of the lanes.
    fn sum_to_value(reg: Self::Register) -> (r: T)
        ensures
            r == fold(Fold::Sum, Self::lanes_of(reg)),
    ;

    /// The greatest lane.
    fn max_to_value(reg: Self::Register) -> (r: T)
        ensures
            r == fold(Fold::Max, Self::lanes_of(reg)),
    ;

    /// The least lane.
    fn min_to_value(reg: Self::Register) -> (r: T)
        ensures
            r == fold(Fold::Min, Self::lanes_of(reg)),
    ;

    /// Stores the lanes into `mem`, starting at `at`; the rest of `mem` is kept.
    fn write(mem: &mut [T], at: usize, reg: Self::Register)
        requires
            at + Self::lanes() <= old(mem)@.len(),
        ensures
            final(mem)@ == old(mem)@.subrange(0, at as int) + Self::lanes_of(reg) + old(
                mem,
            )@.subrange(at + Self::lanes(), old(mem)@.len() as int),
    ;
}

} // verus!
