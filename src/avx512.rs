//! The 512-bit backend: a register holds as many lanes of the element type
//! as fit in 512 bits, laid out as an AVX-512 `zmm` register.
use vstd::prelude::*;
use crate::algebra::{Fold, Lanewise};
use crate::lanes::{array_apply, array_filled, array_fmadd, array_fold, array_load, array_write};
use crate::register::SimdRegister;

verus! {

/// AVX-512 shaped operations on 512-bit lane groups.
///
/// Each operation is carried out lane by lane over the register's array.
pub struct Avx512;

impl SimdRegister<i8> for Avx512 {
    type Register = [i8; 64];

    open spec fn lanes() -> nat {
        64
    }

    open spec fn lanes_of(reg: [i8; 64]) -> Seq<i8> {
        reg@
    }

    proof fn lemma_register_shape(reg: [i8; 64]) {
    }

    fn lane_count() -> usize {
        64
    }

    fn load(mem: &[i8], at: usize) -> [i8; 64] {
        array_load(mem, at)
    }

    fn filled(value: i8) -> [i8; 64] {
        array_filled(value)
    }

    fn zeroed() -> [i8; 64] {
        array_filled(0)
    }

    fn add(l1: [i8; 64], l2: [i8; 64]) -> [i8; 64] {
        array_apply(Lanewise::Add, l1, l2)
    }

    fn sub(l1: [i8; 64], l2: [i8; 64]) -> [i8; 64] {
        array_apply(Lanewise::Sub, l1, l2)
    }

    fn mul(l1: [i8; 64], l2: [i8; 64]) -> [i8; 64] {
        array_apply(Lanewise::Mul, l1, l2)
    }

    fn div(l1: [i8; 64], l2: [i8; 64]) -> [i8; 64] {
        array_apply(Lanewise::Div, l1, l2)
    }

    fn fmadd(l1: [i8; 64], l2: [i8; 64], acc: [i8; 64]) -> [i8; 64] {
        array_fmadd(l1, l2, acc)
    }

    fn max(l1: [i8; 64], l2: [i8; 64]) -> [i8; 64] {
        array_apply(Lanewise::Max, l1, l2)
    }

    fn min(l1: [i8; 64], l2: [i8; 64]) -> [i8; 64] {
        array_apply(Lanewise::Min, l1, l2)
    }

    fn sum_to_value(reg: [i8; 64]) -> i8 {
        array_fold(Fold::Sum, reg)
    }

    fn max_to_value(reg: [i8; 64]) -> i8 {
        array_fold(Fold::Max, reg)
    }

    fn min_to_value(reg: [i8; 64]) -> i8 {
        array_fold(Fold::Min, reg)
    }

    fn write(mem: &mut [i8], at: usize, reg: [i8; 64]) {
        array_write(mem, at, reg)
    }
}

impl SimdRegister<i16> for Avx512 {
    type Register = [i16; 32];

    open spec fn lanes() -> nat {
        32
    }

    open spec fn lanes_of(reg: [i16; 32]) -> Seq<i16> {
        reg@
    }

    proof fn lemma_register_shape(reg: [i16; 32]) {
    }

    fn lane_count() -> usize {
        32
    }

    fn load(mem: &[i16], at: usize) -> [i16; 32] {
        array_load(mem, at)
    }

    fn filled(value: i16) -> [i16; 32] {
        array_filled(value)
    }

    fn zeroed() -> [i16; 32] {
        array_filled(0)
    }

    fn add(l1: [i16; 32], l2: [i16; 32]) -> [i16; 32] {
        array_apply(Lanewise::Add, l1, l2)
    }

    fn sub(l1: [i16; 32], l2: [i16; 32]) -> [i16; 32] {
        array_apply(Lanewise::Sub, l1, l2)
    }

    fn mul(l1: [i16; 32], l2: [i16; 32]) -> [i16; 32] {
        array_apply(Lanewise::Mul, l1, l2)
    }

    fn div(l1: [i16; 32], l2: [i16; 32]) -> [i16; 32] {
        array_apply(Lanewise::Div, l1, l2)
    }

    fn fmadd(l1: [i16; 32], l2: [i16; 32], acc: [i16; 32]) -> [i16; 32] {
        array_fmadd(l1, l2, acc)
    }

    fn max(l1: [i16; 32], l2: [i16; 32]) -> [i16; 32] {
        array_apply(Lanewise::Max, l1, l2)
    }

    fn min(l1: [i16; 32], l2: [i16; 32]) -> [i16; 32] {
        array_apply(Lanewise::Min, l1, l2)
    }

    fn sum_to_value(reg: [i16; 32]) -> i16 {
        array_fold(Fold::Sum, reg)
    }

    fn max_to_value(reg: [i16; 32]) -> i16 {
        array_fold(Fold::Max, reg)
    }

    fn min_to_value(reg: [i16; 32]) -> i16 {
        array_fold(Fold::Min, reg)
    }

    fn write(mem: &mut [i16], at: usize, reg: [i16; 32]) {
        array_write(mem, at, reg)
    }
}

impl SimdRegister<i32> for Avx512 {
    type Register = [i32; 16];

    open spec fn lanes() -> nat {
        16
    }

    open spec fn lanes_of(reg: [i32; 16]) -> Seq<i32> {
        reg@
    }

    proof fn lemma_register_shape(reg: [i32; 16]) {
    }

    fn lane_count() -> usize {
        16
    }

    fn load(mem: &[i32], at: usize) -> [i32; 16] {
        array_load(mem, at)
    }

    fn filled(value: i32) -> [i32; 16] {
        array_filled(value)
    }

    fn zeroed() -> [i32; 16] {
        array_filled(0)
    }

    fn add(l1: [i32; 16], l2: [i32; 16]) -> [i32; 16] {
        array_apply(Lanewise::Add, l1, l2)
    }

    fn sub(l1: [i32; 16], l2: [i32; 16]) -> [i32; 16] {
        array_apply(Lanewise::Sub, l1, l2)
    }

    fn mul(l1: [i32; 16], l2: [i32; 16]) -> [i32; 16] {
        array_apply(Lanewise::Mul, l1, l2)
    }

    fn div(l1: [i32; 16], l2: [i32; 16]) -> [i32; 16] {
        array_apply(Lanewise::Div, l1, l2)
    }

    fn fmadd(l1: [i32; 16], l2: [i32; 16], acc: [i32; 16]) -> [i32; 16] {
        array_fmadd(l1, l2, acc)
    }

    fn max(l1: [i32; 16], l2: [i32; 16]) -> [i32; 16] {
        array_apply(Lanewise::Max, l1, l2)
    }

    fn min(l1: [i32; 16], l2: [i32; 16]) -> [i32; 16] {
        array_apply(Lanewise::Min, l1, l2)
    }

    fn sum_to_value(reg: [i32; 16]) -> i32 {
        array_fold(Fold::Sum, reg)
    }

    fn max_to_value(reg: [i32; 16]) -> i32 {
        array_fold(Fold::Max, reg)
    }

    fn min_to_value(reg: [i32; 16]) -> i32 {
        array_fold(Fold::Min, reg)
    }

    fn write(mem: &mut [i32], at: usize, reg: [i32; 16]) {
        array_write(mem, at, reg)
    }
}

impl SimdRegister<i64> for Avx512 {
    type Register = [i64; 8];

    open spec fn lanes() -> nat {
        8
    }

    open spec fn lanes_of(reg: [i64; 8]) -> Seq<i64> {
        reg@
    }

    proof fn lemma_register_shape(reg: [i64; 8]) {
    }

    fn lane_count() -> usize {
        8
    }

    fn load(mem: &[i64], at: usize) -> [i64; 8] {
        array_load(mem, at)
    }

    fn filled(value: i64) -> [i64; 8] {
        array_filled(value)
    }

    fn zeroed() -> [i64; 8] {
        array_filled(0)
    }

    fn add(l1: [i64; 8], l2: [i64; 8]) -> [i64; 8] {
        array_apply(Lanewise::Add, l1, l2)
    }

    fn sub(l1: [i64; 8], l2: [i64; 8]) -> [i64; 8] {
        array_apply(Lanewise::Sub, l1, l2)
    }

    fn mul(l1: [i64; 8], l2: [i64; 8]) -> [i64; 8] {
        array_apply(Lanewise::Mul, l1, l2)
    }

    fn div(l1: [i64; 8], l2: [i64; 8]) -> [i64; 8] {
        array_apply(Lanewise::Div, l1, l2)
    }

    fn fmadd(l1: [i64; 8], l2: [i64; 8], acc: [i64; 8]) -> [i64; 8] {
        array_fmadd(l1, l2, acc)
    }

    fn max(l1: [i64; 8], l2: [i64; 8]) -> [i64; 8] {
        array_apply(Lanewise::Max, l1, l2)
    }

    fn min(l1: [i64; 8], l2: [i64; 8]) -> [i64; 8] {
        array_apply(Lanewise::Min, l1, l2)
    }

    fn sum_to_value(reg: [i64; 8]) -> i64 {
        array_fold(Fold::Sum, reg)
    }

    fn max_to_value(reg: [i64; 8]) -> i64 {
        array_fold(Fold::Max, reg)
    }

    fn min_to_value(reg: [i64; 8]) -> i64 {
        array_fold(Fold::Min, reg)
    }

    fn write(mem: &mut [i64], at: usize, reg: [i64; 8]) {
        array_write(mem, at, reg)
    }
}

impl SimdRegister<u8> for Avx512 {
    type Register = [u8; 64];

    open spec fn lanes() -> nat {
        64
    }

    open spec fn lanes_of(reg: [u8; 64]) -> Seq<u8> {
        reg@
    }

    proof fn lemma_register_shape(reg: [u8; 64]) {
    }

    fn lane_count() -> usize {
        64
    }

    fn load(mem: &[u8], at: usize) -> [u8; 64] {
        array_load(mem, at)
    }

    fn filled(value: u8) -> [u8; 64] {
        array_filled(value)
    }

    fn zeroed() -> [u8; 64] {
        array_filled(0)
    }

    fn add(l1: [u8; 64], l2: [u8; 64]) -> [u8; 64] {
        array_apply(Lanewise::Add, l1, l2)
    }

    fn sub(l1: [u8; 64], l2: [u8; 64]) -> [u8; 64] {
        array_apply(Lanewise::Sub, l1, l2)
    }

    fn mul(l1: [u8; 64], l2: [u8; 64]) -> [u8; 64] {
        array_apply(Lanewise::Mul, l1, l2)
    }

    fn div(l1: [u8; 64], l2: [u8; 64]) -> [u8; 64] {
        array_apply(Lanewise::Div, l1, l2)
    }

    fn fmadd(l1: [u8; 64], l2: [u8; 64], acc: [u8; 64]) -> [u8; 64] {
        array_fmadd(l1, l2, acc)
    }

    fn max(l1: [u8; 64], l2: [u8; 64]) -> [u8; 64] {
        array_apply(Lanewise::Max, l1, l2)
    }

    fn min(l1: [u8; 64], l2: [u8; 64]) -> [u8; 64] {
        array_apply(Lanewise::Min, l1, l2)
    }

    fn sum_to_value(reg: [u8; 64]) -> u8 {
        array_fold(Fold::Sum, reg)
    }

    fn max_to_value(reg: [u8; 64]) -> u8 {
        array_fold(Fold::Max, reg)
    }

    fn min_to_value(reg: [u8; 64]) -> u8 {
        array_fold(Fold::Min, reg)
    }

    fn write(mem: &mut [u8], at: usize, reg: [u8; 64]) {
        array_write(mem, at, reg)
    }
}

impl SimdRegister<u16> for Avx512 {
    type Register = [u16; 32];

    open spec fn lanes() -> nat {
        32
    }

    open spec fn lanes_of(reg: [u16; 32]) -> Seq<u16> {
        reg@
    }

    proof fn lemma_register_shape(reg: [u16; 32]) {
    }

    fn lane_count() -> usize {
        32
    }

    fn load(mem: &[u16], at: usize) -> [u16; 32] {
        array_load(mem, at)
    }

    fn filled(value: u16) -> [u16; 32] {
        array_filled(value)
    }

    fn zeroed() -> [u16; 32] {
        array_filled(0)
    }

    fn add(l1: [u16; 32], l2: [u16; 32]) -> [u16; 32] {
        array_apply(Lanewise::Add, l1, l2)
    }

    fn sub(l1: [u16; 32], l2: [u16; 32]) -> [u16; 32] {
        array_apply(Lanewise::Sub, l1, l2)
    }

    fn mul(l1: [u16; 32], l2: [u16; 32]) -> [u16; 32] {
        array_apply(Lanewise::Mul, l1, l2)
    }

    fn div(l1: [u16; 32], l2: [u16; 32]) -> [u16; 32] {
        array_apply(Lanewise::Div, l1, l2)
    }

    fn fmadd(l1: [u16; 32], l2: [u16; 32], acc: [u16; 32]) -> [u16; 32] {
        array_fmadd(l1, l2, acc)
    }

    fn max(l1: [u16; 32], l2: [u16; 32]) -> [u16; 32] {
        array_apply(Lanewise::Max, l1, l2)
    }

    fn min(l1: [u16; 32], l2: [u16; 32]) -> [u16; 32] {
        array_apply(Lanewise::Min, l1, l2)
    }

    fn sum_to_value(reg: [u16; 32]) -> u16 {
        array_fold(Fold::Sum, reg)
    }

    fn max_to_value(reg: [u16; 32]) -> u16 {
        array_fold(Fold::Max, reg)
    }

    fn min_to_value(reg: [u16; 32]) -> u16 {
        array_fold(Fold::Min, reg)
    }

    fn write(mem: &mut [u16], at: usize, reg: [u16; 32]) {
        array_write(mem, at, reg)
    }
}

impl SimdRegister<u32> for Avx512 {
    type Register = [u32; 16];

    open spec fn lanes() -> nat {
        16
    }

    open spec fn lanes_of(reg: [u32; 16]) -> Seq<u32> {
        reg@
    }

    proof fn lemma_register_shape(reg: [u32; 16]) {
    }

    fn lane_count() -> usize {
        16
    }

    fn load(mem: &[u32], at: usize) -> [u32; 16] {
        array_load(mem, at)
    }

    fn filled(value: u32) -> [u32; 16] {
        array_filled(value)
    }

    fn zeroed() -> [u32; 16] {
        array_filled(0)
    }

    fn add(l1: [u32; 16], l2: [u32; 16]) -> [u32; 16] {
        array_apply(Lanewise::Add, l1, l2)
    }

    fn sub(l1: [u32; 16], l2: [u32; 16]) -> [u32; 16] {
        array_apply(Lanewise::Sub, l1, l2)
    }

    fn mul(l1: [u32; 16], l2: [u32; 16]) -> [u32; 16] {
        array_apply(Lanewise::Mul, l1, l2)
    }

    fn div(l1: [u32; 16], l2: [u32; 16]) -> [u32; 16] {
        array_apply(Lanewise::Div, l1, l2)
    }

    fn fmadd(l1: [u32; 16], l2: [u32; 16], acc: [u32; 16]) -> [u32; 16] {
        array_fmadd(l1, l2, acc)
    }

    fn max(l1: [u32; 16], l2: [u32; 16]) -> [u32; 16] {
        array_apply(Lanewise::Max, l1, l2)
    }

    fn min(l1: [u32; 16], l2: [u32; 16]) -> [u32; 16] {
        array_apply(Lanewise::Min, l1, l2)
    }

    fn sum_to_value(reg: [u32; 16]) -> u32 {
        array_fold(Fold::Sum, reg)
    }

    fn max_to_value(reg: [u32; 16]) -> u32 {
        array_fold(Fold::Max, reg)
    }

    fn min_to_value(reg: [u32; 16]) -> u32 {
        array_fold(Fold::Min, reg)
    }

    fn write(mem: &mut [u32], at: usize, reg: [u32; 16]) {
        array_write(mem, at, reg)
    }
}

impl SimdRegister<u64> for Avx512 {
    type Register = [u64; 8];

    open spec fn lanes() -> nat {
        8
    }

    open spec fn lanes_of(reg: [u64; 8]) -> Seq<u64> {
        reg@
    }

    proof fn lemma_register_shape(reg: [u64; 8]) {
    }

    fn lane_count() -> usize {
        8
    }

    fn load(mem: &[u64], at: usize) -> [u64; 8] {
        array_load(mem, at)
    }

    fn filled(value: u64) -> [u64; 8] {
        array_filled(value)
    }

    fn zeroed() -> [u64; 8] {
        array_filled(0)
    }

    fn add(l1: [u64; 8], l2: [u64; 8]) -> [u64; 8] {
        array_apply(Lanewise::Add, l1, l2)
    }

    fn sub(l1: [u64; 8], l2: [u64; 8]) -> [u64; 8] {
        array_apply(Lanewise::Sub, l1, l2)
    }

    fn mul(l1: [u64; 8], l2: [u64; 8]) -> [u64; 8] {
        array_apply(Lanewise::Mul, l1, l2)
    }

    fn div(l1: [u64; 8], l2: [u64; 8]) -> [u64; 8] {
        array_apply(Lanewise::Div, l1, l2)
    }

    fn fmadd(l1: [u64; 8], l2: [u64; 8], acc: [u64; 8]) -> [u64; 8] {
        array_fmadd(l1, l2, acc)
    }

    fn max(l1: [u64; 8], l2: [u64; 8]) -> [u64; 8] {
        array_apply(Lanewise::Max, l1, l2)
    }

    fn min(l1: [u64; 8], l2: [u64; 8]) -> [u64; 8] {
        array_apply(Lanewise::Min, l1, l2)
    }

    fn sum_to_value(reg: [u64; 8]) -> u64 {
        array_fold(Fold::Sum, reg)
    }

    fn max_to_value(reg: [u64; 8]) -> u64 {
        array_fold(Fold::Max, reg)
    }

    fn min_to_value(reg: [u64; 8]) -> u64 {
        array_fold(Fold::Min, reg)
    }

    fn write(mem: &mut [u64], at: usize, reg: [u64; 8]) {
        array_write(mem, at, reg)
    }
}

} // verus!
