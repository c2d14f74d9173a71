//! The 128-bit backend: a register holds as many lanes of the element type
//! as fit in 128 bits, laid out as a NEON `q` register.
use vstd::prelude::*;
use crate::algebra::{Fold, Lanewise};
use crate::lanes::{array_apply, array_filled, array_fmadd, array_fold, array_load, array_write};
use crate::register::SimdRegister;

verus! {

/// NEON shaped operations on 128-bit lane groups.
///
/// Each operation is carried out lane by lane over the register's array, so
/// the 64-bit multiply and every integer division need no special path.
pub struct Neon;

impl SimdRegister<i8> for Neon {
    type Register = [i8; 16];

    open spec fn lanes() -> nat {
        16
    }

    open spec fn lanes_of(reg: [i8; 16]) -> Seq<i8> {
        reg@
    }

    proof fn lemma_register_shape(reg: [i8; 16]) {
    }

    fn lane_count() -> usize {
        16
    }

    fn load(mem: &[i8], at: usize) -> [i8; 16] {
        array_load(mem, at)
    }

    fn filled(value: i8) -> [i8; 16] {
        array_filled(value)
    }

    fn zeroed() -> [i8; 16] {
        array_filled(0)
    }

    fn add(l1: [i8; 16], l2: [i8; 16]) -> [i8; 16] {
        array_apply(Lanewise::Add, l1, l2)
    }

    fn sub(l1: [i8; 16], l2: [i8; 16]) -> [i8; 16] {
        array_apply(Lanewise::Sub, l1, l2)
    }

    fn mul(l1: [i8; 16], l2: [i8; 16]) -> [i8; 16] {
        array_apply(Lanewise::Mul, l1, l2)
    }

    fn div(l1: [i8; 16], l2: [i8; 16]) -> [i8; 16] {
        array_apply(Lanewise::Div, l1, l2)
    }

    fn fmadd(l1: [i8; 16], l2: [i8; 16], acc: [i8; 16]) -> [i8; 16] {
        array_fmadd(l1, l2, acc)
    }

    fn max(l1: [i8; 16], l2: [i8; 16]) -> [i8; 16] {
        array_apply(Lanewise::Max, l1, l2)
    }

    fn min(l1: [i8; 16], l2: [i8; 16]) -> [i8; 16] {
        array_apply(Lanewise::Min, l1, l2)
    }

    fn sum_to_value(reg: [i8; 16]) -> i8 {
        array_fold(Fold::Sum, reg)
    }

    fn max_to_value(reg: [i8; 16]) -> i8 {
        array_fold(Fold::Max, reg)
    }

    fn min_to_value(reg: [i8; 16]) -> i8 {
        array_fold(Fold::Min, reg)
    }

    fn write(mem: &mut [i8], at: usize, reg: [i8; 16]) {
        array_write(mem, at, reg)
    }
}

impl SimdRegister<i16> for Neon {
    type Register = [i16; 8];

    open spec fn lanes() -> nat {
        8
    }

    open spec fn lanes_of(reg: [i16; 8]) -> Seq<i16> {
        reg@
    }

    proof fn lemma_register_shape(reg: [i16; 8]) {
    }

    fn lane_count() -> usize {
        8
    }

    fn load(mem: &[i16], at: usize) -> [i16; 8] {
        array_load(mem, at)
    }

    fn filled(value: i16) -> [i16; 8] {
        array_filled(value)
    }

    fn zeroed() -> [i16; 8] {
        array_filled(0)
    }

    fn add(l1: [i16; 8], l2: [i16; 8]) -> [i16; 8] {
        array_apply(Lanewise::Add, l1, l2)
    }

    fn sub(l1: [i16; 8], l2: [i16; 8]) -> [i16; 8] {
        array_apply(Lanewise::Sub, l1, l2)
    }

    fn mul(l1: [i16; 8], l2: [i16; 8]) -> [i16; 8] {
        array_apply(Lanewise::Mul, l1, l2)
    }

    fn div(l1: [i16; 8], l2: [i16; 8]) -> [i16; 8] {
        array_apply(Lanewise::Div, l1, l2)
    }

    fn fmadd(l1: [i16; 8], l2: [i16; 8], acc: [i16; 8]) -> [i16; 8] {
        array_fmadd(l1, l2, acc)
    }

    fn max(l1: [i16; 8], l2: [i16; 8]) -> [i16; 8] {
        array_apply(Lanewise::Max, l1, l2)
    }

    fn min(l1: [i16; 8], l2: [i16; 8]) -> [i16; 8] {
        array_apply(Lanewise::Min, l1, l2)
    }

    fn sum_to_value(reg: [i16; 8]) -> i16 {
        array_fold(Fold::Sum, reg)
    }

    fn max_to_value(reg: [i16; 8]) -> i16 {
        array_fold(Fold::Max, reg)
    }

    fn min_to_value(reg: [i16; 8]) -> i16 {
        array_fold(Fold::Min, reg)
    }

    fn write(mem: &mut [i16], at: usize, reg: [i16; 8]) {
        array_write(mem, at, reg)
    }
}

impl SimdRegister<i32> for Neon {
    type Register = [i32; 4];

    open spec fn lanes() -> nat {
        4
    }

    open spec fn lanes_of(reg: [i32; 4]) -> Seq<i32> {
        reg@
    }

    proof fn lemma_register_shape(reg: [i32; 4]) {
    }

    fn lane_count() -> usize {
        4
    }

    fn load(mem: &[i32], at: usize) -> [i32; 4] {
        array_load(mem, at)
    }

    fn filled(value: i32) -> [i32; 4] {
        array_filled(value)
    }

    fn zeroed() -> [i32; 4] {
        array_filled(0)
    }

    fn add(l1: [i32; 4], l2: [i32; 4]) -> [i32; 4] {
        array_apply(Lanewise::Add, l1, l2)
    }

    fn sub(l1: [i32; 4], l2: [i32; 4]) -> [i32; 4] {
        array_apply(Lanewise::Sub, l1, l2)
    }

    fn mul(l1: [i32; 4], l2: [i32; 4]) -> [i32; 4] {
        array_apply(Lanewise::Mul, l1, l2)
    }

    fn div(l1: [i32; 4], l2: [i32; 4]) -> [i32; 4] {
        array_apply(Lanewise::Div, l1, l2)
    }

    fn fmadd(l1: [i32; 4], l2: [i32; 4], acc: [i32; 4]) -> [i32; 4] {
        array_fmadd(l1, l2, acc)
    }

    fn max(l1: [i32; 4], l2: [i32; 4]) -> [i32; 4] {
        array_apply(Lanewise::Max, l1, l2)
    }

    fn min(l1: [i32; 4], l2: [i32; 4]) -> [i32; 4] {
        array_apply(Lanewise::Min, l1, l2)
    }

    fn sum_to_value(reg: [i32; 4]) -> i32 {
        array_fold(Fold::Sum, reg)
    }

    fn max_to_value(reg: [i32; 4]) -> i32 {
        array_fold(Fold::Max, reg)
    }

    fn min_to_value(reg: [i32; 4]) -> i32 {
        array_fold(Fold::Min, reg)
    }

    fn write(mem: &mut [i32], at: usize, reg: [i32; 4]) {
        array_write(mem, at, reg)
    }
}

impl SimdRegister<i64> for Neon {
    type Register = [i64; 2];

    open spec fn lanes() -> nat {
        2
    }

    open spec fn lanes_of(reg: [i64; 2]) -> Seq<i64> {
        reg@
    }

    proof fn lemma_register_shape(reg: [i64; 2]) {
    }

    fn lane_count() -> usize {
        2
    }

    fn load(mem: &[i64], at: usize) -> [i64; 2] {
        array_load(mem, at)
    }

    fn filled(value: i64) -> [i64; 2] {
        array_filled(value)
    }

    fn zeroed() -> [i64; 2] {
        array_filled(0)
    }

    fn add(l1: [i64; 2], l2: [i64; 2]) -> [i64; 2] {
        array_apply(Lanewise::Add, l1, l2)
    }

    fn sub(l1: [i64; 2], l2: [i64; 2]) -> [i64; 2] {
        array_apply(Lanewise::Sub, l1, l2)
    }

    fn mul(l1: [i64; 2], l2: [i64; 2]) -> [i64; 2] {
        array_apply(Lanewise::Mul, l1, l2)
    }

    fn div(l1: [i64; 2], l2: [i64; 2]) -> [i64; 2] {
        array_apply(Lanewise::Div, l1, l2)
    }

    fn fmadd(l1: [i64; 2], l2: [i64; 2], acc: [i64; 2]) -> [i64; 2] {
        array_fmadd(l1, l2, acc)
    }

    fn max(l1: [i64; 2], l2: [i64; 2]) -> [i64; 2] {
        array_apply(Lanewise::Max, l1, l2)
    }

    fn min(l1: [i64; 2], l2: [i64; 2]) -> [i64; 2] {
        array_apply(Lanewise::Min, l1, l2)
    }

    fn sum_to_value(reg: [i64; 2]) -> i64 {
        array_fold(Fold::Sum, reg)
    }

    fn max_to_value(reg: [i64; 2]) -> i64 {
        array_fold(Fold::Max, reg)
    }

    fn min_to_value(reg: [i64; 2]) -> i64 {
        array_fold(Fold::Min, reg)
    }

    fn write(mem: &mut [i64], at: usize, reg: [i64; 2]) {
        array_write(mem, at, reg)
    }
}

impl SimdRegister<u8> for Neon {
    type Register = [u8; 16];

    open spec fn lanes() -> nat {
        16
    }

    open spec fn lanes_of(reg: [u8; 16]) -> Seq<u8> {
        reg@
    }

    proof fn lemma_register_shape(reg: [u8; 16]) {
    }

    fn lane_count() -> usize {
        16
    }

    fn load(mem: &[u8], at: usize) -> [u8; 16] {
        array_load(mem, at)
    }

    fn filled(value: u8) -> [u8; 16] {
        array_filled(value)
    }

    fn zeroed() -> [u8; 16] {
        array_filled(0)
    }

    fn add(l1: [u8; 16], l2: [u8; 16]) -> [u8; 16] {
        array_apply(Lanewise::Add, l1, l2)
    }

    fn sub(l1: [u8; 16], l2: [u8; 16]) -> [u8; 16] {
        array_apply(Lanewise::Sub, l1, l2)
    }

    fn mul(l1: [u8; 16], l2: [u8; 16]) -> [u8; 16] {
        array_apply(Lanewise::Mul, l1, l2)
    }

    fn div(l1: [u8; 16], l2: [u8; 16]) -> [u8; 16] {
        array_apply(Lanewise::Div, l1, l2)
    }

    fn fmadd(l1: [u8; 16], l2: [u8; 16], acc: [u8; 16]) -> [u8; 16] {
        array_fmadd(l1, l2, acc)
    }

    fn max(l1: [u8; 16], l2: [u8; 16]) -> [u8; 16] {
        array_apply(Lanewise::Max, l1, l2)
    }

    fn min(l1: [u8; 16], l2: [u8; 16]) -> [u8; 16] {
        array_apply(Lanewise::Min, l1, l2)
    }

    fn sum_to_value(reg: [u8; 16]) -> u8 {
        array_fold(Fold::Sum, reg)
    }

    fn max_to_value(reg: [u8; 16]) -> u8 {
        array_fold(Fold::Max, reg)
    }

    fn min_to_value(reg: [u8; 16]) -> u8 {
        array_fold(Fold::Min, reg)
    }

    fn write(mem: &mut [u8], at: usize, reg: [u8; 16]) {
        array_write(mem, at, reg)
    }
}

impl SimdRegister<u16> for Neon {
    type Register = [u16; 8];

    open spec fn lanes() -> nat {
        8
    }

    open spec fn lanes_of(reg: [u16; 8]) -> Seq<u16> {
        reg@
    }

    proof fn lemma_register_shape(reg: [u16; 8]) {
    }

    fn lane_count() -> usize {
        8
    }

    fn load(mem: &[u16], at: usize) -> [u16; 8] {
        array_load(mem, at)
    }

    fn filled(value: u16) -> [u16; 8] {
        array_filled(value)
    }

    fn zeroed() -> [u16; 8] {
        array_filled(0)
    }

    fn add(l1: [u16; 8], l2: [u16; 8]) -> [u16; 8] {
        array_apply(Lanewise::Add, l1, l2)
    }

    fn sub(l1: [u16; 8], l2: [u16; 8]) -> [u16; 8] {
        array_apply(Lanewise::Sub, l1, l2)
    }

    fn mul(l1: [u16; 8], l2: [u16; 8]) -> [u16; 8] {
        array_apply(Lanewise::Mul, l1, l2)
    }

    fn div(l1: [u16; 8], l2: [u16; 8]) -> [u16; 8] {
        array_apply(Lanewise::Div, l1, l2)
    }

    fn fmadd(l1: [u16; 8], l2: [u16; 8], acc: [u16; 8]) -> [u16; 8] {
        array_fmadd(l1, l2, acc)
    }

    fn max(l1: [u16; 8], l2: [u16; 8]) -> [u16; 8] {
        array_apply(Lanewise::Max, l1, l2)
    }

    fn min(l1: [u16; 8], l2: [u16; 8]) -> [u16; 8] {
        array_apply(Lanewise::Min, l1, l2)
    }

    fn sum_to_value(reg: [u16; 8]) -> u16 {
        array_fold(Fold::Sum, reg)
    }

    fn max_to_value(reg: [u16; 8]) -> u16 {
        array_fold(Fold::Max, reg)
    }

    fn min_to_value(reg: [u16; 8]) -> u16 {
        array_fold(Fold::Min, reg)
    }

    fn write(mem: &mut [u16], at: usize, reg: [u16; 8]) {
        array_write(mem, at, reg)
    }
}

impl SimdRegister<u32> for Neon {
    type Register = [u32; 4];

    open spec fn lanes() -> nat {
        4
    }

    open spec fn lanes_of(reg: [u32; 4]) -> Seq<u32> {
        reg@
    }

    proof fn lemma_register_shape(reg: [u32; 4]) {
    }

    fn lane_count() -> usize {
        4
    }

    fn load(mem: &[u32], at: usize) -> [u32; 4] {
        array_load(mem, at)
    }

    fn filled(value: u32) -> [u32; 4] {
        array_filled(value)
    }

    fn zeroed() -> [u32; 4] {
        array_filled(0)
    }

    fn add(l1: [u32; 4], l2: [u32; 4]) -> [u32; 4] {
        array_apply(Lanewise::Add, l1, l2)
    }

    fn sub(l1: [u32; 4], l2: [u32; 4]) -> [u32; 4] {
        array_apply(Lanewise::Sub, l1, l2)
    }

    fn mul(l1: [u32; 4], l2: [u32; 4]) -> [u32; 4] {
        array_apply(Lanewise::Mul, l1, l2)
    }

    fn div(l1: [u32; 4], l2: [u32; 4]) -> [u32; 4] {
        array_apply(Lanewise::Div, l1, l2)
    }

    fn fmadd(l1: [u32; 4], l2: [u32; 4], acc: [u32; 4]) -> [u32; 4] {
        array_fmadd(l1, l2, acc)
    }

    fn max(l1: [u32; 4], l2: [u32; 4]) -> [u32; 4] {
        array_apply(Lanewise::Max, l1, l2)
    }

    fn min(l1: [u32; 4], l2: [u32; 4]) -> [u32; 4] {
        array_apply(Lanewise::Min, l1, l2)
    }

    fn sum_to_value(reg: [u32; 4]) -> u32 {
        array_fold(Fold::Sum, reg)
    }

    fn max_to_value(reg: [u32; 4]) -> u32 {
        array_fold(Fold::Max, reg)
    }

    fn min_to_value(reg: [u32; 4]) -> u32 {
        array_fold(Fold::Min, reg)
    }

    fn write(mem: &mut [u32], at: usize, reg: [u32; 4]) {
        array_write(mem, at, reg)
    }
}

impl SimdRegister<u64> for Neon {
    type Register = [u64; 2];

    open spec fn lanes() -> nat {
        2
    }

    open spec fn lanes_of(reg: [u64; 2]) -> Seq<u64> {
        reg@
    }

    proof fn lemma_register_shape(reg: [u64; 2]) {
    }

    fn lane_count() -> usize {
        2
    }

    fn load(mem: &[u64], at: usize) -> [u64; 2] {
        array_load(mem, at)
    }

    fn filled(value: u64) -> [u64; 2] {
        array_filled(value)
    }

    fn zeroed() -> [u64; 2] {
        array_filled(0)
    }

    fn add(l1: [u64; 2], l2: [u64; 2]) -> [u64; 2] {
        array_apply(Lanewise::Add, l1, l2)
    }

    fn sub(l1: [u64; 2], l2: [u64; 2]) -> [u64; 2] {
        array_apply(Lanewise::Sub, l1, l2)
    }

    fn mul(l1: [u64; 2], l2: [u64; 2]) -> [u64; 2] {
        array_apply(Lanewise::Mul, l1, l2)
    }

    fn div(l1: [u64; 2], l2: [u64; 2]) -> [u64; 2] {
        array_apply(Lanewise::Div, l1, l2)
    }

    fn fmadd(l1: [u64; 2], l2: [u64; 2], acc: [u64; 2]) -> [u64; 2] {
        array_fmadd(l1, l2, acc)
    }

    fn max(l1: [u64; 2], l2: [u64; 2]) -> [u64; 2] {
        array_apply(Lanewise::Max, l1, l2)
    }

    fn min(l1: [u64; 2], l2: [u64; 2]) -> [u64; 2] {
        array_apply(Lanewise::Min, l1, l2)
    }

    fn sum_to_value(reg: [u64; 2]) -> u64 {
        array_fold(Fold::Sum, reg)
    }

    fn max_to_value(reg: [u64; 2]) -> u64 {
        array_fold(Fold::Max, reg)
    }

    fn min_to_value(reg: [u64; 2]) -> u64 {
        array_fold(Fold::Min, reg)
    }

    fn write(mem: &mut [u64], at: usize, reg: [u64; 2]) {
        array_write(mem, at, reg)
    }
}

} // verus!
