//! The scalar math capability: the element types the kernels run over, with
//! the two's-complement arithmetic and the ordering each of them obeys.
use vstd::prelude::*;
use vstd::arithmetic::div_mod::{lemma_mul_mod_noop, lemma_sub_mod_noop, lemma_sub_mod_noop_right};

verus! {

/// A primitive element type of a vector.
///
/// Addition, subtraction and multiplication wrap around on overflow, as the
/// hardware lanes do; division truncates towards zero, wraps the one signed
/// quotient that overflows (the least value divided by minus one) and is only
/// asked for with a non-zero divisor.
pub trait Element: Copy + Sized {
    spec fn spec_zero() -> Self;

    spec fn spec_one() -> Self;

    /// The least value of the type: the identity of `max`.
    spec fn spec_lowest() -> Self;

    /// The greatest value of the type: the identity of `min`.
    spec fn spec_highest() -> Self;

    spec fn spec_plus(self, rhs: Self) -> Self;

    spec fn spec_minus(self, rhs: Self) -> Self;

    spec fn spec_times(self, rhs: Self) -> Self;

    spec fn spec_quotient(self, rhs: Self) -> Self;

    /// Whether `self / rhs` is defined, that is whether `rhs` is not zero.
    spec fn quotient_defined(self, rhs: Self) -> bool;

    spec fn spec_at_most(self, rhs: Self) -> bool;

    /// Wrapping addition is a commutative monoid with zero.
    proof fn lemma_plus_laws(a: Self, b: Self, c: Self)
        ensures
            a.spec_plus(b) == b.spec_plus(a),
            a.spec_plus(b).spec_plus(c) == a.spec_plus(b.spec_plus(c)),
            a.spec_plus(Self::spec_zero()) == a,
    ;

    /// `spec_at_most` is a total order bounded by `spec_lowest` and `spec_highest`.
    proof fn lemma_order_laws(a: Self, b: Self, c: Self)
        ensures
            a.spec_at_most(a),
            a.spec_at_most(b) || b.spec_at_most(a),
            a.spec_at_most(b) && b.spec_at_most(a) ==> a == b,
            a.spec_at_most(b) && b.spec_at_most(c) ==> a.spec_at_most(c),
            Self::spec_lowest().spec_at_most(a),
            a.spec_at_most(Self::spec_highest()),
    ;

    /// Subtracting zero, multiplying by one and dividing by one give the value back.
    proof fn lemma_unit_laws(a: Self)
        ensures
            a.spec_minus(Self::spec_zero()) == a,
            a.spec_times(Self::spec_one()) == a,
            a.quotient_defined(Self::spec_one()),
            a.spec_quotient(Self::spec_one()) == a,
    ;

    /// Wrapping multiplication commutes, and a difference squares to the
    /// same value whichever way round it is taken.
    proof fn lemma_times_laws(a: Self, b: Self)
        ensures
            a.spec_times(b) == b.spec_times(a),
            a.spec_minus(b).spec_times(a.spec_minus(b)) == b.spec_minus(a).spec_times(
                b.spec_minus(a),
            ),
    ;

    fn zero() -> (r: Self)
        ensures
            r == Self::spec_zero(),
    ;

    fn one() -> (r: Self)
        ensures
            r == Self::spec_one(),
    ;

    fn lowest() -> (r: Self)
        ensures
            r == Self::spec_lowest(),
    ;

    fn highest() -> (r: Self)
        ensures
            r == Self::spec_highest(),
    ;

    fn plus(self, rhs: Self) -> (r: Self)
        ensures
            r == self.spec_plus(rhs),
    ;

    fn minus(self, rhs: Self) -> (r: Self)
        ensures
            r == self.spec_minus(rhs),
    ;

    fn times(self, rhs: Self) -> (r: Self)
        ensures
            r == self.spec_times(rhs),
    ;

    fn quotient(self, rhs: Self) -> (r: Self)
        requires
            self.quotient_defined(rhs),
        ensures
            r == self.spec_quotient(rhs),
    ;

    fn at_most(self, rhs: Self) -> (r: bool)
        ensures
            r == self.spec_at_most(rhs),
    ;
}

/// Two numbers that sum to a multiple of `m` have squares equal modulo `m`.
pub proof fn lemma_square_congruent(x: int, y: int, m: int)
    requires
        m > 0,
        (x + y) % m == 0,
    ensures
        (x * x) % m == (y * y) % m,
{
    lemma_sub_mod_noop(x + y, y, m);
    lemma_sub_mod_noop_right(0, y, m);
    assert(x % m == (-y) % m);
    lemma_mul_mod_noop(x, x, m);
    lemma_mul_mod_noop(-y, -y, m);
    assert((-y) * (-y) == y * y) by (nonlinear_arith);
}

/// The larger of two elements.
pub open spec fn max_of<T: Element>(a: T, b: T) -> T {
    if a.spec_at_most(b) {
        b
    } else {
        a
    }
}

/// The smaller of two elements.
pub open spec fn min_of<T: Element>(a: T, b: T) -> T {
    if a.spec_at_most(b) {
        a
    } else {
        b
    }
}

/// The larger of two elements.
pub fn max_value<T: Element>(a: T, b: T) -> (r: T)
    ensures
        r == max_of(a, b),
{
    if a.at_most(b) {
        b
    } else {
        a
    }
}

/// The smaller of two elements.
pub fn min_value<T: Element>(a: T, b: T) -> (r: T)
    ensures
        r == min_of(a, b),
{
    if a.at_most(b) {
        a
    } else {
        b
    }
}

impl Element for i8 {
    open spec fn spec_zero() -> i8 {
        0
    }

    open spec fn spec_one() -> i8 {
        1
    }

    open spec fn spec_lowest() -> i8 {
        i8::MIN
    }

    open spec fn spec_highest() -> i8 {
        i8::MAX
    }

    open spec fn spec_plus(self, rhs: i8) -> i8 {
        vstd::wrapping::i8_specs::wrapping_add(self, rhs)
    }

    open spec fn spec_minus(self, rhs: i8) -> i8 {
        vstd::wrapping::i8_specs::wrapping_sub(self, rhs)
    }

    open spec fn spec_times(self, rhs: i8) -> i8 {
        vstd::wrapping::i8_specs::wrapping_mul(self, rhs)
    }

    open spec fn spec_quotient(self, rhs: i8) -> i8 {
        match self.checked_div(rhs) {
            Some(q) => q,
            None => i8::MIN,
        }
    }

    open spec fn quotient_defined(self, rhs: i8) -> bool {
        rhs != 0
    }

    open spec fn spec_at_most(self, rhs: i8) -> bool {
        self <= rhs
    }

    proof fn lemma_plus_laws(a: i8, b: i8, c: i8) {
    }

    proof fn lemma_order_laws(a: i8, b: i8, c: i8) {
    }

    proof fn lemma_unit_laws(a: i8) {
    }

    proof fn lemma_times_laws(a: i8, b: i8) {
        let x = a.spec_minus(b);
        let y = b.spec_minus(a);
        assert((x + y) % 0x100 == 0);
        lemma_square_congruent(x as int, y as int, 0x100);
    }

    fn zero() -> i8 {
        0
    }

    fn one() -> i8 {
        1
    }

    fn lowest() -> i8 {
        i8::MIN
    }

    fn highest() -> i8 {
        i8::MAX
    }

    fn plus(self, rhs: i8) -> i8 {
        self.wrapping_add(rhs)
    }

    fn minus(self, rhs: i8) -> i8 {
        self.wrapping_sub(rhs)
    }

    fn times(self, rhs: i8) -> i8 {
        self.wrapping_mul(rhs)
    }

    fn quotient(self, rhs: i8) -> i8 {
        match self.checked_div(rhs) {
            Some(q) => q,
            None => i8::MIN,
        }
    }

    fn at_most(self, rhs: i8) -> bool {
        self <= rhs
    }
}

impl Element for i16 {
    open spec fn spec_zero() -> i16 {
        0
    }

    open spec fn spec_one() -> i16 {
        1
    }

    open spec fn spec_lowest() -> i16 {
        i16::MIN
    }

    open spec fn spec_highest() -> i16 {
        i16::MAX
    }

    open spec fn spec_plus(self, rhs: i16) -> i16 {
        vstd::wrapping::i16_specs::wrapping_add(self, rhs)
    }

    open spec fn spec_minus(self, rhs: i16) -> i16 {
        vstd::wrapping::i16_specs::wrapping_sub(self, rhs)
    }

    open spec fn spec_times(self, rhs: i16) -> i16 {
        vstd::wrapping::i16_specs::wrapping_mul(self, rhs)
    }

    open spec fn spec_quotient(self, rhs: i16) -> i16 {
        match self.checked_div(rhs) {
            Some(q) => q,
            None => i16::MIN,
        }
    }

    open spec fn quotient_defined(self, rhs: i16) -> bool {
        rhs != 0
    }

    open spec fn spec_at_most(self, rhs: i16) -> bool {
        self <= rhs
    }

    proof fn lemma_plus_laws(a: i16, b: i16, c: i16) {
    }

    proof fn lemma_order_laws(a: i16, b: i16, c: i16) {
    }

    proof fn lemma_unit_laws(a: i16) {
    }

    proof fn lemma_times_laws(a: i16, b: i16) {
        let x = a.spec_minus(b);
        let y = b.spec_minus(a);
        assert((x + y) % 0x1_0000 == 0);
        lemma_square_congruent(x as int, y as int, 0x1_0000);
    }

    fn zero() -> i16 {
        0
    }

    fn one() -> i16 {
        1
    }

    fn lowest() -> i16 {
        i16::MIN
    }

    fn highest() -> i16 {
        i16::MAX
    }

    fn plus(self, rhs: i16) -> i16 {
        self.wrapping_add(rhs)
    }

    fn minus(self, rhs: i16) -> i16 {
        self.wrapping_sub(rhs)
    }

    fn times(self, rhs: i16) -> i16 {
        self.wrapping_mul(rhs)
    }

    fn quotient(self, rhs: i16) -> i16 {
        match self.checked_div(rhs) {
            Some(q) => q,
            None => i16::MIN,
        }
    }

    fn at_most(self, rhs: i16) -> bool {
        self <= rhs
    }
}

impl Element for i32 {
    open spec fn spec_zero() -> i32 {
        0
    }

    open spec fn spec_one() -> i32 {
        1
    }

    open spec fn spec_lowest() -> i32 {
        i32::MIN
    }

    open spec fn spec_highest() -> i32 {
        i32::MAX
    }

    open spec fn spec_plus(self, rhs: i32) -> i32 {
        vstd::wrapping::i32_specs::wrapping_add(self, rhs)
    }

    open spec fn spec_minus(self, rhs: i32) -> i32 {
        vstd::wrapping::i32_specs::wrapping_sub(self, rhs)
    }

    open spec fn spec_times(self, rhs: i32) -> i32 {
        vstd::wrapping::i32_specs::wrapping_mul(self, rhs)
    }

    open spec fn spec_quotient(self, rhs: i32) -> i32 {
        match self.checked_div(rhs) {
            Some(q) => q,
            None => i32::MIN,
        }
    }

    open spec fn quotient_defined(self, rhs: i32) -> bool {
        rhs != 0
    }

    open spec fn spec_at_most(self, rhs: i32) -> bool {
        self <= rhs
    }

    proof fn lemma_plus_laws(a: i32, b: i32, c: i32) {
    }

    proof fn lemma_order_laws(a: i32, b: i32, c: i32) {
    }

    proof fn lemma_unit_laws(a: i32) {
    }

    proof fn lemma_times_laws(a: i32, b: i32) {
        let x = a.spec_minus(b);
        let y = b.spec_minus(a);
        assert((x + y) % 0x1_0000_0000 == 0);
        lemma_square_congruent(x as int, y as int, 0x1_0000_0000);
    }

    fn zero() -> i32 {
        0
    }

    fn one() -> i32 {
        1
    }

    fn lowest() -> i32 {
        i32::MIN
    }

    fn highest() -> i32 {
        i32::MAX
    }

    fn plus(self, rhs: i32) -> i32 {
        self.wrapping_add(rhs)
    }

    fn minus(self, rhs: i32) -> i32 {
        self.wrapping_sub(rhs)
    }

    fn times(self, rhs: i32) -> i32 {
        self.wrapping_mul(rhs)
    }

    fn quotient(self, rhs: i32) -> i32 {
        match self.checked_div(rhs) {
            Some(q) => q,
            None => i32::MIN,
        }
    }

    fn at_most(self, rhs: i32) -> bool {
        self <= rhs
    }
}

impl Element for i64 {
    open spec fn spec_zero() -> i64 {
        0
    }

    open spec fn spec_one() -> i64 {
        1
    }

    open spec fn spec_lowest() -> i64 {
        i64::MIN
    }

    open spec fn spec_highest() -> i64 {
        i64::MAX
    }

    open spec fn spec_plus(self, rhs: i64) -> i64 {
        vstd::wrapping::i64_specs::wrapping_add(self, rhs)
    }

    open spec fn spec_minus(self, rhs: i64) -> i64 {
        vstd::wrapping::i64_specs::wrapping_sub(self, rhs)
    }

    open spec fn spec_times(self, rhs: i64) -> i64 {
        vstd::wrapping::i64_specs::wrapping_mul(self, rhs)
    }

    open spec fn spec_quotient(self, rhs: i64) -> i64 {
        match self.checked_div(rhs) {
            Some(q) => q,
            None => i64::MIN,
        }
    }

    open spec fn quotient_defined(self, rhs: i64) -> bool {
        rhs != 0
    }

    open spec fn spec_at_most(self, rhs: i64) -> bool {
        self <= rhs
    }

    proof fn lemma_plus_laws(a: i64, b: i64, c: i64) {
    }

    proof fn lemma_order_laws(a: i64, b: i64, c: i64) {
    }

    proof fn lemma_unit_laws(a: i64) {
    }

    proof fn lemma_times_laws(a: i64, b: i64) {
        let x = a.spec_minus(b);
        let y = b.spec_minus(a);
        assert((x + y) % 0x1_0000_0000_0000_0000 == 0);
        lemma_square_congruent(x as int, y as int, 0x1_0000_0000_0000_0000);
    }

    fn zero() -> i64 {
        0
    }

    fn one() -> i64 {
        1
    }

    fn lowest() -> i64 {
        i64::MIN
    }

    fn highest() -> i64 {
        i64::MAX
    }

    fn plus(self, rhs: i64) -> i64 {
        self.wrapping_add(rhs)
    }

    fn minus(self, rhs: i64) -> i64 {
        self.wrapping_sub(rhs)
    }

    fn times(self, rhs: i64) -> i64 {
        self.wrapping_mul(rhs)
    }

    fn quotient(self, rhs: i64) -> i64 {
        match self.checked_div(rhs) {
            Some(q) => q,
            None => i64::MIN,
        }
    }

    fn at_most(self, rhs: i64) -> bool {
        self <= rhs
    }
}

impl Element for u8 {
    open spec fn spec_zero() -> u8 {
        0
    }

    open spec fn spec_one() -> u8 {
        1
    }

    open spec fn spec_lowest() -> u8 {
        0
    }

    open spec fn spec_highest() -> u8 {
        u8::MAX
    }

    open spec fn spec_plus(self, rhs: u8) -> u8 {
        vstd::wrapping::u8_specs::wrapping_add(self, rhs)
    }

    open spec fn spec_minus(self, rhs: u8) -> u8 {
        vstd::wrapping::u8_specs::wrapping_sub(self, rhs)
    }

    open spec fn spec_times(self, rhs: u8) -> u8 {
        vstd::wrapping::u8_specs::wrapping_mul(self, rhs)
    }

    open spec fn spec_quotient(self, rhs: u8) -> u8 {
        (self / rhs) as u8
    }

    open spec fn quotient_defined(self, rhs: u8) -> bool {
        rhs != 0
    }

    open spec fn spec_at_most(self, rhs: u8) -> bool {
        self <= rhs
    }

    proof fn lemma_plus_laws(a: u8, b: u8, c: u8) {
    }

    proof fn lemma_order_laws(a: u8, b: u8, c: u8) {
    }

    proof fn lemma_unit_laws(a: u8) {
    }

    proof fn lemma_times_laws(a: u8, b: u8) {
        let x = a.spec_minus(b);
        let y = b.spec_minus(a);
        assert((x + y) % 0x100 == 0);
        lemma_square_congruent(x as int, y as int, 0x100);
    }

    fn zero() -> u8 {
        0
    }

    fn one() -> u8 {
        1
    }

    fn lowest() -> u8 {
        0
    }

    fn highest() -> u8 {
        u8::MAX
    }

    fn plus(self, rhs: u8) -> u8 {
        self.wrapping_add(rhs)
    }

    fn minus(self, rhs: u8) -> u8 {
        self.wrapping_sub(rhs)
    }

    fn times(self, rhs: u8) -> u8 {
        self.wrapping_mul(rhs)
    }

    fn quotient(self, rhs: u8) -> u8 {
        self / rhs
    }

    fn at_most(self, rhs: u8) -> bool {
        self <= rhs
    }
}

impl Element for u16 {
    open spec fn spec_zero() -> u16 {
        0
    }

    open spec fn spec_one() -> u16 {
        1
    }

    open spec fn spec_lowest() -> u16 {
        0
    }

    open spec fn spec_highest() -> u16 {
        u16::MAX
    }

    open spec fn spec_plus(self, rhs: u16) -> u16 {
        vstd::wrapping::u16_specs::wrapping_add(self, rhs)
    }

    open spec fn spec_minus(self, rhs: u16) -> u16 {
        vstd::wrapping::u16_specs::wrapping_sub(self, rhs)
    }

    open spec fn spec_times(self, rhs: u16) -> u16 {
        vstd::wrapping::u16_specs::wrapping_mul(self, rhs)
    }

    open spec fn spec_quotient(self, rhs: u16) -> u16 {
        (self / rhs) as u16
    }

    open spec fn quotient_defined(self, rhs: u16) -> bool {
        rhs != 0
    }

    open spec fn spec_at_most(self, rhs: u16) -> bool {
        self <= rhs
    }

    proof fn lemma_plus_laws(a: u16, b: u16, c: u16) {
    }

    proof fn lemma_order_laws(a: u16, b: u16, c: u16) {
    }

    proof fn lemma_unit_laws(a: u16) {
    }

    proof fn lemma_times_laws(a: u16, b: u16) {
        let x = a.spec_minus(b);
        let y = b.spec_minus(a);
        assert((x + y) % 0x1_0000 == 0);
        lemma_square_congruent(x as int, y as int, 0x1_0000);
    }

    fn zero() -> u16 {
        0
    }

    fn one() -> u16 {
        1
    }

    fn lowest() -> u16 {
        0
    }

    fn highest() -> u16 {
        u16::MAX
    }

    fn plus(self, rhs: u16) -> u16 {
        self.wrapping_add(rhs)
    }

    fn minus(self, rhs: u16) -> u16 {
        self.wrapping_sub(rhs)
    }

    fn times(self, rhs: u16) -> u16 {
        self.wrapping_mul(rhs)
    }

    fn quotient(self, rhs: u16) -> u16 {
        self / rhs
    }

    fn at_most(self, rhs: u16) -> bool {
        self <= rhs
    }
}

impl Element for u32 {
    open spec fn spec_zero() -> u32 {
        0
    }

    open spec fn spec_one() -> u32 {
        1
    }

    open spec fn spec_lowest() -> u32 {
        0
    }

    open spec fn spec_highest() -> u32 {
        u32::MAX
    }

    open spec fn spec_plus(self, rhs: u32) -> u32 {
        vstd::wrapping::u32_specs::wrapping_add(self, rhs)
    }

    open spec fn spec_minus(self, rhs: u32) -> u32 {
        vstd::wrapping::u32_specs::wrapping_sub(self, rhs)
    }

    open spec fn spec_times(self, rhs: u32) -> u32 {
        vstd::wrapping::u32_specs::wrapping_mul(self, rhs)
    }

    open spec fn spec_quotient(self, rhs: u32) -> u32 {
        (self / rhs) as u32
    }

    open spec fn quotient_defined(self, rhs: u32) -> bool {
        rhs != 0
    }

    open spec fn spec_at_most(self, rhs: u32) -> bool {
        self <= rhs
    }

    proof fn lemma_plus_laws(a: u32, b: u32, c: u32) {
    }

    proof fn lemma_order_laws(a: u32, b: u32, c: u32) {
    }

    proof fn lemma_unit_laws(a: u32) {
    }

    proof fn lemma_times_laws(a: u32, b: u32) {
        let x = a.spec_minus(b);
        let y = b.spec_minus(a);
        assert((x + y) % 0x1_0000_0000 == 0);
        lemma_square_congruent(x as int, y as int, 0x1_0000_0000);
    }

    fn zero() -> u32 {
        0
    }

    fn one() -> u32 {
        1
    }

    fn lowest() -> u32 {
        0
    }

    fn highest() -> u32 {
        u32::MAX
    }

    fn plus(self, rhs: u32) -> u32 {
        self.wrapping_add(rhs)
    }

    fn minus(self, rhs: u32) -> u32 {
        self.wrapping_sub(rhs)
    }

    fn times(self, rhs: u32) -> u32 {
        self.wrapping_mul(rhs)
    }

    fn quotient(self, rhs: u32) -> u32 {
        self / rhs
    }

    fn at_most(self, rhs: u32) -> bool {
        self <= rhs
    }
}

impl Element for u64 {
    open spec fn spec_zero() -> u64 {
        0
    }

    open spec fn spec_one() -> u64 {
        1
    }

    open spec fn spec_lowest() -> u64 {
        0
    }

    open spec fn spec_highest() -> u64 {
        u64::MAX
    }

    open spec fn spec_plus(self, rhs: u64) -> u64 {
        vstd::wrapping::u64_specs::wrapping_add(self, rhs)
    }

    open spec fn spec_minus(self, rhs: u64) -> u64 {
        vstd::wrapping::u64_specs::wrapping_sub(self, rhs)
    }

    open spec fn spec_times(self, rhs: u64) -> u64 {
        vstd::wrapping::u64_specs::wrapping_mul(self, rhs)
    }

    open spec fn spec_quotient(self, rhs: u64) -> u64 {
        (self / rhs) as u64
    }

    open spec fn quotient_defined(self, rhs: u64) -> bool {
        rhs != 0
    }

    open spec fn spec_at_most(self, rhs: u64) -> bool {
        self <= rhs
    }

    proof fn lemma_plus_laws(a: u64, b: u64, c: u64) {
    }

    proof fn lemma_order_laws(a: u64, b: u64, c: u64) {
    }

    proof fn lemma_unit_laws(a: u64) {
    }

    proof fn lemma_times_laws(a: u64, b: u64) {
        let x = a.spec_minus(b);
        let y = b.spec_minus(a);
        assert((x + y) % 0x1_0000_0000_0000_0000 == 0);
        lemma_square_congruent(x as int, y as int, 0x1_0000_0000_0000_0000);
    }

    fn zero() -> u64 {
        0
    }

    fn one() -> u64 {
        1
    }

    fn lowest() -> u64 {
        0
    }

    fn highest() -> u64 {
        u64::MAX
    }

    fn plus(self, rhs: u64) -> u64 {
        self.wrapping_add(rhs)
    }

    fn minus(self, rhs: u64) -> u64 {
        self.wrapping_sub(rhs)
    }

    fn times(self, rhs: u64) -> u64 {
        self.wrapping_mul(rhs)
    }

    fn quotient(self, rhs: u64) -> u64 {
        self / rhs
    }

    fn at_most(self, rhs: u64) -> bool {
        self <= rhs
    }
}

} // verus!
