//! The dense lane: eight registers worked on side by side, so that eight
//! independent accumulator chains hide the latency of each operation.
use vstd::prelude::*;
use crate::algebra::{
    Fold, combine, fold, fold_op, identity, lanewise, lemma_fold_identities,
    lemma_fold_lanewise, lemma_fold_pair, lemma_fold_split,
};
use crate::element::Element;
use crate::register::SimdRegister;
use vstd::arithmetic::div_mod::{lemma_fundamental_div_mod, lemma_mod_pos_bound};

verus! {

/// Registers in one dense lane.
pub const DENSE: usize = 8;

/// Elements in one dense lane of backend `R`: the block size of the kernels.
pub open spec fn block<T: Element, R: SimdRegister<T>>() -> nat {
    (DENSE * R::lanes()) as nat
}

/// The identity of `f` as a plain value.
pub fn identity_value<T: Element>(f: Fold) -> (r: T)
    ensures
        r == identity::<T>(f),
{
    match f {
        Fold::Sum => T::zero(),
        Fold::Max => T::lowest(),
        Fold::Min => T::highest(),
    }
}

/// The operation of `f` on two plain values.
pub fn combine_values<T: Element>(f: Fold, x: T, y: T) -> (r: T)
    ensures
        r == combine(f, x, y),
{
    match f {
        Fold::Sum => x.plus(y),
        Fold::Max => crate::element::max_value(x, y),
        Fold::Min => crate::element::min_value(x, y),
    }
}

/// A register with the identity of `f` in every lane.
pub fn identity_register<T: Element, R: SimdRegister<T>>(f: Fold) -> (reg: R::Register)
    ensures
        R::lanes_of(reg) == Seq::new(R::lanes(), |i: int| identity::<T>(f)),
        fold(f, R::lanes_of(reg)) == identity::<T>(f),
{
    let v = identity_value::<T>(f);
    let reg = R::filled(v);
    proof {
        lemma_fold_identities(f, R::lanes_of(reg));
    }
    reg
}

/// The operation of `f` on two registers, lane by lane.
pub fn combine_registers<T: Element, R: SimdRegister<T>>(
    f: Fold,
    l1: R::Register,
    l2: R::Register,
) -> (reg: R::Register)
    ensures
        R::lanes_of(reg) == lanewise(fold_op(f), R::lanes_of(l1), R::lanes_of(l2)),
        fold(f, R::lanes_of(reg)) == combine(f, fold(f, R::lanes_of(l1)), fold(f, R::lanes_of(l2))),
{
    proof {
        R::lemma_register_shape(l1);
        R::lemma_register_shape(l2);
        lemma_fold_lanewise(f, R::lanes_of(l1), R::lanes_of(l2));
    }
    match f {
        Fold::Sum => R::add(l1, l2),
        Fold::Max => R::max(l1, l2),
        Fold::Min => R::min(l1, l2),
    }
}

/// `f` folded over the lanes of one register.
pub fn register_to_value<T: Element, R: SimdRegister<T>>(f: Fold, reg: R::Register) -> (r: T)
    ensures
        r == fold(f, R::lanes_of(reg)),
{
    match f {
        Fold::Sum => R::sum_to_value(reg),
        Fold::Max => R::max_to_value(reg),
        Fold::Min => R::min_to_value(reg),
    }
}

/// The fold of each register of a dense lane, in order.
pub open spec fn register_folds<T: Element, R: SimdRegister<T>>(
    f: Fold,
    regs: Seq<R::Register>,
) -> Seq<T> {
    Seq::new(regs.len(), |q: int| fold(f, R::lanes_of(regs[q])))
}

/// Everything a dense lane of accumulators has gathered.
pub open spec fn dense_total<T: Element, R: SimdRegister<T>>(f: Fold, regs: Seq<R::Register>) -> T {
    fold(f, register_folds::<T, R>(f, regs))
}

/// A dense lane with the identity of `f` in every lane of every register.
pub fn identity_dense<T: Element, R: SimdRegister<T>>(f: Fold) -> (accs: [R::Register; 8])
    ensures
        forall|q: int|
            0 <= q < 8 ==> R::lanes_of(#[trigger] accs@[q]) == Seq::new(
                R::lanes(),
                |i: int| identity::<T>(f),
            ),
        dense_total::<T, R>(f, accs@) == identity::<T>(f),
{
    let reg = identity_register::<T, R>(f);
    let accs = [reg; 8];
    proof {
        lemma_fold_identities(f, register_folds::<T, R>(f, accs@));
    }
    accs
}

/// Collapses a dense lane into one register by a pairwise merge of depth three.
pub fn reduce_dense_to_register<T: Element, R: SimdRegister<T>>(
    f: Fold,
    accs: [R::Register; 8],
) -> (reg: R::Register)
    ensures
        fold(f, R::lanes_of(reg)) == dense_total::<T, R>(f, accs@),
{
    let r01 = combine_registers::<T, R>(f, accs[0], accs[1]);
    let r23 = combine_registers::<T, R>(f, accs[2], accs[3]);
    let r45 = combine_registers::<T, R>(f, accs[4], accs[5]);
    let r67 = combine_registers::<T, R>(f, accs[6], accs[7]);
    let r0123 = combine_registers::<T, R>(f, r01, r23);
    let r4567 = combine_registers::<T, R>(f, r45, r67);
    let reg = combine_registers::<T, R>(f, r0123, r4567);
    proof {
        let t = register_folds::<T, R>(f, accs@);
        assert(t.subrange(0, 8) =~= t);
        lemma_fold_split(f, t, 0, 4, 8);
        lemma_fold_split(f, t, 0, 2, 4);
        lemma_fold_split(f, t, 4, 6, 8);
        lemma_fold_pair(f, t, 0);
        lemma_fold_pair(f, t, 2);
        lemma_fold_pair(f, t, 4);
        lemma_fold_pair(f, t, 6);
    }
    reg
}

/// How many whole blocks of `len` elements fit, and the length they cover.
pub fn whole_blocks<T: Element, R: SimdRegister<T>>(len: usize) -> (r: (usize, usize))
    ensures
        r.0 * block::<T, R>() == r.1,
        r.1 <= len,
        len - r.1 < block::<T, R>(),
        (len as nat) % block::<T, R>() == 0 ==> r.1 == len,
{
    let lanes = R::lane_count();
    let blk = DENSE * lanes;
    let blocks = len / blk;
    proof {
        lemma_fundamental_div_mod(len as int, blk as int);
        lemma_mod_pos_bound(len as int, blk as int);
        assert(blocks * blk <= len && len - blocks * blk < blk) by (nonlinear_arith)
            requires
                len == blk * (len / blk) + len % blk,
                0 <= len % blk < blk,
                blocks == len / blk,
        ;
        assert(blk == block::<T, R>());
        assert(len % blk == 0 ==> blocks * blk == len) by (nonlinear_arith)
            requires
                len == blk * (len / blk) + len % blk,
                blocks == len / blk,
        ;
    }
    (blocks, blocks * blk)
}

} // verus!
