use std::fmt::Debug;

use cfavml::{
    xany_add_value, xany_add_vector, xany_div_value, xany_div_vector, xany_dot, xany_euclidean,
    xany_max_horizontal, xany_max_vertical, xany_max_vertical_matrix, xany_min_horizontal,
    xany_min_vertical, xany_min_vertical_matrix, xany_mul_value, xany_mul_vector, xany_norm,
    xany_sub_value, xany_sub_vector, xany_sum, xany_sum_vertical, xconst_dot, xconst_euclidean,
    xconst_max_horizontal, xconst_min_horizontal, xconst_norm, xconst_sum, Element, Fallback,
    Neon, SimdRegister,
};

/// Plain std arithmetic for one element type, to compute expected values with.
struct Ops<T> {
    from: fn(i64) -> T,
    add: fn(T, T) -> T,
    sub: fn(T, T) -> T,
    mul: fn(T, T) -> T,
    div: fn(T, T) -> T,
    lowest: T,
    highest: T,
}

fn ops_i8() -> Ops<i8> {
    Ops { from: |x| x as i8, add: i8::wrapping_add, sub: i8::wrapping_sub, mul: i8::wrapping_mul, div: i8::wrapping_div, lowest: i8::MIN, highest: i8::MAX }
}

fn ops_i16() -> Ops<i16> {
    Ops { from: |x| x as i16, add: i16::wrapping_add, sub: i16::wrapping_sub, mul: i16::wrapping_mul, div: i16::wrapping_div, lowest: i16::MIN, highest: i16::MAX }
}

fn ops_i32() -> Ops<i32> {
    Ops { from: |x| x as i32, add: i32::wrapping_add, sub: i32::wrapping_sub, mul: i32::wrapping_mul, div: i32::wrapping_div, lowest: i32::MIN, highest: i32::MAX }
}

fn ops_i64() -> Ops<i64> {
    Ops { from: |x| x, add: i64::wrapping_add, sub: i64::wrapping_sub, mul: i64::wrapping_mul, div: i64::wrapping_div, lowest: i64::MIN, highest: i64::MAX }
}

fn ops_u8() -> Ops<u8> {
    Ops { from: |x| x as u8, add: u8::wrapping_add, sub: u8::wrapping_sub, mul: u8::wrapping_mul, div: u8::wrapping_div, lowest: u8::MIN, highest: u8::MAX }
}

fn ops_u16() -> Ops<u16> {
    Ops { from: |x| x as u16, add: u16::wrapping_add, sub: u16::wrapping_sub, mul: u16::wrapping_mul, div: u16::wrapping_div, lowest: u16::MIN, highest: u16::MAX }
}

fn ops_u32() -> Ops<u32> {
    Ops { from: |x| x as u32, add: u32::wrapping_add, sub: u32::wrapping_sub, mul: u32::wrapping_mul, div: u32::wrapping_div, lowest: u32::MIN, highest: u32::MAX }
}

fn ops_u64() -> Ops<u64> {
    Ops { from: |x| x as u64, add: u64::wrapping_add, sub: u64::wrapping_sub, mul: u64::wrapping_mul, div: u64::wrapping_div, lowest: u64::MIN, highest: u64::MAX }
}

/// Two deterministic pseudo-random vectors of length `n`.
fn get_sample_vectors<T>(n: usize, ops: &Ops<T>) -> (Vec<T>, Vec<T>) {
    let mut state: u64 = 0x2545_f491_4f6c_dd1d ^ (n as u64);
    let mut next = || {
        state = state.wrapping_mul(6364136223846793005).wrapping_add(1442695040888963407);
        ((state >> 33) % 2001) as i64 - 1000
    };
    let a = (0..n).map(|_| (ops.from)(next())).collect();
    let b = (0..n).map(|_| (ops.from)(next())).collect();
    (a, b)
}

fn fold<T: Copy>(a: &[T], init: T, f: impl Fn(T, T) -> T) -> T {
    a.iter().fold(init, |acc, x| f(acc, *x))
}

fn check_dot<T>(l1: &[T], l2: &[T], ops: &Ops<T>)
where
    T: Element + PartialEq + Debug,
    Fallback: SimdRegister<T>,
    Neon: SimdRegister<T>,
{
    let zero = (ops.from)(0);
    let products: Vec<T> = l1.iter().zip(l2).map(|(x, y)| (ops.mul)(*x, *y)).collect();
    let expected = fold(&products, zero, ops.add);
    assert_eq!(xany_dot::<T, Fallback>(l1, l2), expected);
    assert_eq!(xany_dot::<T, Neon>(l1, l2), expected);
    let head: Vec<T> = products[..1024].to_vec();
    let expected_head = fold(&head, zero, ops.add);
    assert_eq!(xconst_dot::<T, Fallback, 1024>(&l1[..1024], &l2[..1024]), expected_head);
    assert_eq!(xconst_dot::<T, Neon, 1024>(&l1[..1024], &l2[..1024]), expected_head);
}

fn check_norm<T>(l1: &[T], ops: &Ops<T>)
where
    T: Element + PartialEq + Debug,
    Fallback: SimdRegister<T>,
    Neon: SimdRegister<T>,
{
    let zero = (ops.from)(0);
    let squares: Vec<T> = l1.iter().map(|x| (ops.mul)(*x, *x)).collect();
    let expected = fold(&squares, zero, ops.add);
    assert_eq!(xany_norm::<T, Fallback>(l1), expected);
    assert_eq!(xany_norm::<T, Neon>(l1), expected);
    let expected_head = fold(&squares[..1024], zero, ops.add);
    assert_eq!(xconst_norm::<T, Fallback, 1024>(&l1[..1024]), expected_head);
    assert_eq!(xconst_norm::<T, Neon, 1024>(&l1[..1024]), expected_head);
}

fn check_euclidean<T>(l1: &[T], l2: &[T], ops: &Ops<T>)
where
    T: Element + PartialEq + Debug,
    Fallback: SimdRegister<T>,
    Neon: SimdRegister<T>,
{
    let zero = (ops.from)(0);
    let squares: Vec<T> = l1
        .iter()
        .zip(l2)
        .map(|(x, y)| {
            let d = (ops.sub)(*x, *y);
            (ops.mul)(d, d)
        })
        .collect();
    let expected = fold(&squares, zero, ops.add);
    assert_eq!(xany_euclidean::<T, Fallback>(l1, l2), expected);
    assert_eq!(xany_euclidean::<T, Neon>(l1, l2), expected);
    let expected_head = fold(&squares[..1024], zero, ops.add);
    assert_eq!(xconst_euclidean::<T, Fallback, 1024>(&l1[..1024], &l2[..1024]), expected_head);
    assert_eq!(xconst_euclidean::<T, Neon, 1024>(&l1[..1024], &l2[..1024]), expected_head);
}

fn check_max<T>(l1: &[T], l2: &[T], ops: &Ops<T>)
where
    T: Element + PartialEq + Ord + Debug,
    Fallback: SimdRegister<T>,
    Neon: SimdRegister<T>,
{
    let expected = fold(l1, ops.lowest, std::cmp::max);
    assert_eq!(xany_max_horizontal::<T, Fallback>(l1), expected);
    assert_eq!(xany_max_horizontal::<T, Neon>(l1), expected);
    let expected_head = fold(&l1[..1024], ops.lowest, std::cmp::max);
    assert_eq!(xconst_max_horizontal::<T, Fallback, 1024>(&l1[..1024]), expected_head);
    assert_eq!(xconst_max_horizontal::<T, Neon, 1024>(&l1[..1024]), expected_head);

    let expected_vertical: Vec<T> = l1.iter().zip(l2).map(|(x, y)| std::cmp::max(*x, *y)).collect();
    let mut result = vec![(ops.from)(0); l1.len()];
    xany_max_vertical::<T, Fallback>(l1, l2, &mut result);
    assert_eq!(result, expected_vertical);
    let mut result = vec![(ops.from)(0); l1.len()];
    xany_max_vertical::<T, Neon>(l1, l2, &mut result);
    assert_eq!(result, expected_vertical);

    let rows: Vec<&[T]> = vec![l1, l2];
    assert_eq!(xany_max_vertical_matrix::<T, Fallback>(&rows), expected_vertical);
    assert_eq!(xany_max_vertical_matrix::<T, Neon>(&rows), expected_vertical);
}

fn check_min<T>(l1: &[T], l2: &[T], ops: &Ops<T>)
where
    T: Element + PartialEq + Ord + Debug,
    Fallback: SimdRegister<T>,
    Neon: SimdRegister<T>,
{
    let expected = fold(l1, ops.highest, std::cmp::min);
    assert_eq!(xany_min_horizontal::<T, Fallback>(l1), expected);
    assert_eq!(xany_min_horizontal::<T, Neon>(l1), expected);
    let expected_head = fold(&l1[..1024], ops.highest, std::cmp::min);
    assert_eq!(xconst_min_horizontal::<T, Fallback, 1024>(&l1[..1024]), expected_head);
    assert_eq!(xconst_min_horizontal::<T, Neon, 1024>(&l1[..1024]), expected_head);

    let expected_vertical: Vec<T> = l1.iter().zip(l2).map(|(x, y)| std::cmp::min(*x, *y)).collect();
    let mut result = vec![(ops.from)(0); l1.len()];
    xany_min_vertical::<T, Fallback>(l1, l2, &mut result);
    assert_eq!(result, expected_vertical);
    let mut result = vec![(ops.from)(0); l1.len()];
    xany_min_vertical::<T, Neon>(l1, l2, &mut result);
    assert_eq!(result, expected_vertical);

    let rows: Vec<&[T]> = vec![l1, l2];
    assert_eq!(xany_min_vertical_matrix::<T, Fallback>(&rows), expected_vertical);
    assert_eq!(xany_min_vertical_matrix::<T, Neon>(&rows), expected_vertical);
}

fn check_sum<T>(l1: &[T], l2: &[T], ops: &Ops<T>)
where
    T: Element + PartialEq + Debug,
    Fallback: SimdRegister<T>,
    Neon: SimdRegister<T>,
{
    let zero = (ops.from)(0);
    for v in [l1, l2] {
        let expected = fold(v, zero, ops.add);
        assert_eq!(xany_sum::<T, Fallback>(v), expected);
        assert_eq!(xany_sum::<T, Neon>(v), expected);
        let expected_head = fold(&v[..1024], zero, ops.add);
        assert_eq!(xconst_sum::<T, Fallback, 1024>(&v[..1024]), expected_head);
        assert_eq!(xconst_sum::<T, Neon, 1024>(&v[..1024]), expected_head);
    }
    let expected_vertical: Vec<T> = l1.iter().zip(l2).map(|(x, y)| (ops.add)(*x, *y)).collect();
    let rows: Vec<&[T]> = vec![l1, l2];
    assert_eq!(xany_sum_vertical::<T, Fallback>(&rows), expected_vertical);
    assert_eq!(xany_sum_vertical::<T, Neon>(&rows), expected_vertical);
}

fn check_vector_x_value<T>(l1: &[T], value: T, ops: &Ops<T>)
where
    T: Element + PartialEq + Debug,
    Fallback: SimdRegister<T>,
    Neon: SimdRegister<T>,
{
    let zero = (ops.from)(0);
    let apply = |f: fn(T, T) -> T| -> Vec<T> { l1.iter().map(|x| f(*x, value)).collect() };

    let mut result = vec![zero; l1.len()];
    xany_add_value::<T, Fallback>(value, l1, &mut result);
    assert_eq!(result, apply(ops.add));
    xany_add_value::<T, Neon>(value, l1, &mut result);
    assert_eq!(result, apply(ops.add));

    let mut result = vec![zero; l1.len()];
    xany_sub_value::<T, Fallback>(value, l1, &mut result);
    assert_eq!(result, apply(ops.sub));
    xany_sub_value::<T, Neon>(value, l1, &mut result);
    assert_eq!(result, apply(ops.sub));

    let mut result = vec![zero; l1.len()];
    xany_div_value::<T, Fallback>(value, l1, &mut result);
    assert_eq!(result, apply(ops.div));
    xany_div_value::<T, Neon>(value, l1, &mut result);
    assert_eq!(result, apply(ops.div));

    let mut result = vec![zero; l1.len()];
    xany_mul_value::<T, Fallback>(value, l1, &mut result);
    assert_eq!(result, apply(ops.mul));
    xany_mul_value::<T, Neon>(value, l1, &mut result);
    assert_eq!(result, apply(ops.mul));
}

fn check_vector_x_vector<T>(l1: &[T], l2: &[T], ops: &Ops<T>)
where
    T: Element + PartialEq + Debug,
    Fallback: SimdRegister<T>,
    Neon: SimdRegister<T>,
{
    let zero = (ops.from)(0);
    let apply =
        |f: fn(T, T) -> T| -> Vec<T> { l1.iter().zip(l2).map(|(x, y)| f(*x, *y)).collect() };

    let mut result = vec![zero; l1.len()];
    xany_add_vector::<T, Fallback>(l1, l2, &mut result);
    assert_eq!(result, apply(ops.add));
    xany_add_vector::<T, Neon>(l1, l2, &mut result);
    assert_eq!(result, apply(ops.add));

    let mut result = vec![zero; l1.len()];
    xany_sub_vector::<T, Fallback>(l1, l2, &mut result);
    assert_eq!(result, apply(ops.sub));
    xany_sub_vector::<T, Neon>(l1, l2, &mut result);
    assert_eq!(result, apply(ops.sub));

    let mut result = vec![zero; l1.len()];
    xany_div_vector::<T, Fallback>(l1, l2, &mut result);
    assert_eq!(result, apply(ops.div));
    xany_div_vector::<T, Neon>(l1, l2, &mut result);
    assert_eq!(result, apply(ops.div));

    let mut result = vec![zero; l1.len()];
    xany_mul_vector::<T, Fallback>(l1, l2, &mut result);
    assert_eq!(result, apply(ops.mul));
    xany_mul_vector::<T, Neon>(l1, l2, &mut result);
    assert_eq!(result, apply(ops.mul));
}

#[test]
fn test_dot_product() {
    let o = ops_i8();
    let (l1, l2) = get_sample_vectors(1043, &o);
    check_dot(&l1, &l2, &o);
    let o = ops_i16();
    let (l1, l2) = get_sample_vectors(1043, &o);
    check_dot(&l1, &l2, &o);
    let o = ops_i32();
    let (l1, l2) = get_sample_vectors(1043, &o);
    check_dot(&l1, &l2, &o);
    let o = ops_i64();
    let (l1, l2) = get_sample_vectors(1043, &o);
    check_dot(&l1, &l2, &o);
    let o = ops_u8();
    let (l1, l2) = get_sample_vectors(1043, &o);
    check_dot(&l1, &l2, &o);
    let o = ops_u16();
    let (l1, l2) = get_sample_vectors(1043, &o);
    check_dot(&l1, &l2, &o);
    let o = ops_u32();
    let (l1, l2) = get_sample_vectors(1043, &o);
    check_dot(&l1, &l2, &o);
    let o = ops_u64();
    let (l1, l2) = get_sample_vectors(1043, &o);
    check_dot(&l1, &l2, &o);
}

#[test]
fn test_norm() {
    let o = ops_i8();
    let (l1, _) = get_sample_vectors(1043, &o);
    check_norm(&l1, &o);
    let o = ops_i16();
    let (l1, _) = get_sample_vectors(1043, &o);
    check_norm(&l1, &o);
    let o = ops_i32();
    let (l1, _) = get_sample_vectors(1043, &o);
    check_norm(&l1, &o);
    let o = ops_i64();
    let (l1, _) = get_sample_vectors(1043, &o);
    check_norm(&l1, &o);
    let o = ops_u8();
    let (l1, _) = get_sample_vectors(1043, &o);
    check_norm(&l1, &o);
    let o = ops_u16();
    let (l1, _) = get_sample_vectors(1043, &o);
    check_norm(&l1, &o);
    let o = ops_u32();
    let (l1, _) = get_sample_vectors(1043, &o);
    check_norm(&l1, &o);
    let o = ops_u64();
    let (l1, _) = get_sample_vectors(1043, &o);
    check_norm(&l1, &o);
}

#[test]
fn test_euclidean() {
    let o = ops_i8();
    let (l1, l2) = get_sample_vectors(1043, &o);
    check_euclidean(&l1, &l2, &o);
    let o = ops_i16();
    let (l1, l2) = get_sample_vectors(1043, &o);
    check_euclidean(&l1, &l2, &o);
    let o = ops_i32();
    let (l1, l2) = get_sample_vectors(1043, &o);
    check_euclidean(&l1, &l2, &o);
    let o = ops_i64();
    let (l1, l2) = get_sample_vectors(1043, &o);
    check_euclidean(&l1, &l2, &o);
    let o = ops_u8();
    let (l1, l2) = get_sample_vectors(1043, &o);
    check_euclidean(&l1, &l2, &o);
    let o = ops_u16();
    let (l1, l2) = get_sample_vectors(1043, &o);
    check_euclidean(&l1, &l2, &o);
    let o = ops_u32();
    let (l1, l2) = get_sample_vectors(1043, &o);
    check_euclidean(&l1, &l2, &o);
    let o = ops_u64();
    let (l1, l2) = get_sample_vectors(1043, &o);
    check_euclidean(&l1, &l2, &o);
}

#[test]
fn test_max() {
    let o = ops_i8();
    let (l1, l2) = get_sample_vectors(1043, &o);
    check_max(&l1, &l2, &o);
    let o = ops_i16();
    let (l1, l2) = get_sample_vectors(1043, &o);
    check_max(&l1, &l2, &o);
    let o = ops_i32();
    let (l1, l2) = get_sample_vectors(1043, &o);
    check_max(&l1, &l2, &o);
    let o = ops_i64();
    let (l1, l2) = get_sample_vectors(1043, &o);
    check_max(&l1, &l2, &o);
    let o = ops_u8();
    let (l1, l2) = get_sample_vectors(1043, &o);
    check_max(&l1, &l2, &o);
    let o = ops_u16();
    let (l1, l2) = get_sample_vectors(1043, &o);
    check_max(&l1, &l2, &o);
    let o = ops_u32();
    let (l1, l2) = get_sample_vectors(1043, &o);
    check_max(&l1, &l2, &o);
    let o = ops_u64();
    let (l1, l2) = get_sample_vectors(1043, &o);
    check_max(&l1, &l2, &o);
}

#[test]
fn test_min() {
    let o = ops_i8();
    let (l1, l2) = get_sample_vectors(1043, &o);
    check_min(&l1, &l2, &o);
    let o = ops_i16();
    let (l1, l2) = get_sample_vectors(1043, &o);
    check_min(&l1, &l2, &o);
    let o = ops_i32();
    let (l1, l2) = get_sample_vectors(1043, &o);
    check_min(&l1, &l2, &o);
    let o = ops_i64();
    let (l1, l2) = get_sample_vectors(1043, &o);
    check_min(&l1, &l2, &o);
    let o = ops_u8();
    let (l1, l2) = get_sample_vectors(1043, &o);
    check_min(&l1, &l2, &o);
    let o = ops_u16();
    let (l1, l2) = get_sample_vectors(1043, &o);
    check_min(&l1, &l2, &o);
    let o = ops_u32();
    let (l1, l2) = get_sample_vectors(1043, &o);
    check_min(&l1, &l2, &o);
    let o = ops_u64();
    let (l1, l2) = get_sample_vectors(1043, &o);
    check_min(&l1, &l2, &o);
}

#[test]
fn test_sum() {
    let o = ops_i8();
    let (l1, l2) = (vec![(o.from)(1); 1043], vec![(o.from)(3); 1043]);
    check_sum(&l1, &l2, &o);
    let o = ops_i16();
    let (l1, l2) = (vec![(o.from)(1); 1043], vec![(o.from)(3); 1043]);
    check_sum(&l1, &l2, &o);
    let o = ops_i32();
    let (l1, l2) = (vec![(o.from)(1); 1043], vec![(o.from)(3); 1043]);
    check_sum(&l1, &l2, &o);
    let o = ops_i64();
    let (l1, l2) = (vec![(o.from)(1); 1043], vec![(o.from)(3); 1043]);
    check_sum(&l1, &l2, &o);
    let o = ops_u8();
    let (l1, l2) = (vec![(o.from)(1); 1043], vec![(o.from)(3); 1043]);
    check_sum(&l1, &l2, &o);
    let o = ops_u16();
    let (l1, l2) = (vec![(o.from)(1); 1043], vec![(o.from)(3); 1043]);
    check_sum(&l1, &l2, &o);
    let o = ops_u32();
    let (l1, l2) = (vec![(o.from)(1); 1043], vec![(o.from)(3); 1043]);
    check_sum(&l1, &l2, &o);
    let o = ops_u64();
    let (l1, l2) = (vec![(o.from)(1); 1043], vec![(o.from)(3); 1043]);
    check_sum(&l1, &l2, &o);
}

#[test]
fn test_vector_x_value() {
    let o = ops_i8();
    let l1 = vec![(o.from)(1); 1043];
    check_vector_x_value(&l1, (o.from)(2), &o);
    let o = ops_i16();
    let l1 = vec![(o.from)(1); 1043];
    check_vector_x_value(&l1, (o.from)(2), &o);
    let o = ops_i32();
    let l1 = vec![(o.from)(1); 1043];
    check_vector_x_value(&l1, (o.from)(2), &o);
    let o = ops_i64();
    let l1 = vec![(o.from)(1); 1043];
    check_vector_x_value(&l1, (o.from)(2), &o);
    let o = ops_u8();
    let l1 = vec![(o.from)(1); 1043];
    check_vector_x_value(&l1, (o.from)(2), &o);
    let o = ops_u16();
    let l1 = vec![(o.from)(1); 1043];
    check_vector_x_value(&l1, (o.from)(2), &o);
    let o = ops_u32();
    let l1 = vec![(o.from)(1); 1043];
    check_vector_x_value(&l1, (o.from)(2), &o);
    let o = ops_u64();
    let l1 = vec![(o.from)(1); 1043];
    check_vector_x_value(&l1, (o.from)(2), &o);
}

#[test]
fn test_vector_x_vector() {
    let o = ops_i8();
    let (l1, l2) = (vec![(o.from)(1); 1043], vec![(o.from)(3); 1043]);
    check_vector_x_vector(&l1, &l2, &o);
    let o = ops_i16();
    let (l1, l2) = (vec![(o.from)(1); 1043], vec![(o.from)(3); 1043]);
    check_vector_x_vector(&l1, &l2, &o);
    let o = ops_i32();
    let (l1, l2) = (vec![(o.from)(1); 1043], vec![(o.from)(3); 1043]);
    check_vector_x_vector(&l1, &l2, &o);
    let o = ops_i64();
    let (l1, l2) = (vec![(o.from)(1); 1043], vec![(o.from)(3); 1043]);
    check_vector_x_vector(&l1, &l2, &o);
    let o = ops_u8();
    let (l1, l2) = (vec![(o.from)(1); 1043], vec![(o.from)(3); 1043]);
    check_vector_x_vector(&l1, &l2, &o);
    let o = ops_u16();
    let (l1, l2) = (vec![(o.from)(1); 1043], vec![(o.from)(3); 1043]);
    check_vector_x_vector(&l1, &l2, &o);
    let o = ops_u32();
    let (l1, l2) = (vec![(o.from)(1); 1043], vec![(o.from)(3); 1043]);
    check_vector_x_vector(&l1, &l2, &o);
    let o = ops_u64();
    let (l1, l2) = (vec![(o.from)(1); 1043], vec![(o.from)(3); 1043]);
    check_vector_x_vector(&l1, &l2, &o);
}
