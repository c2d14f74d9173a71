use cfavml::{
    xany_add_value, xany_add_vector, xany_div_value, xany_div_vector, xany_dot, xany_euclidean,
    xany_max_horizontal, xany_max_vertical, xany_max_vertical_matrix, xany_min_horizontal,
    xany_min_vertical, xany_min_vertical_matrix, xany_mul_value, xany_mul_vector, xany_norm,
    xany_sub_value, xany_sub_vector, xany_sum, xany_sum_vertical, xconst_add_value,
    xconst_add_vector, xconst_div_vector, xconst_max_horizontal, xconst_max_vertical,
    xconst_max_vertical_matrix, xconst_min_horizontal, xconst_min_vertical_matrix,
    xconst_mul_value, xconst_sub_vector, xconst_sum, xconst_sum_vertical, select_backend, Avx2,
    Avx512, Backend, CpuFeatures, Fallback, Neon,
};

const BOUNDARY_LENGTHS: [usize; 11] = [1, 7, 8, 15, 16, 63, 64, 65, 127, 128, 1043];

fn ramp(n: usize) -> Vec<i32> {
    (0..n).map(|i| ((i as i32) * 37 % 101) - 50).collect()
}

#[test]
fn div_vector_scenario() {
    let a = [10, 10, 10, 10];
    let b = [2, 5, 10, 1];
    let mut result = [0i32; 4];
    xany_div_vector::<i32, Fallback>(&a, &b, &mut result);
    assert_eq!(result, [5, 2, 1, 10]);
    let mut result = [0i32; 4];
    xany_div_vector::<i32, Neon>(&a, &b, &mut result);
    assert_eq!(result, [5, 2, 1, 10]);
}

#[test]
fn add_value_scenario() {
    let mut result = [0i32; 3];
    xany_add_value::<i32, Neon>(1, &[1, 2, 3], &mut result);
    assert_eq!(result, [2, 3, 4]);
}

#[test]
fn mul_vector_scenario() {
    let mut result = [0i32; 3];
    xany_mul_vector::<i32, Neon>(&[1, 2, 3], &[1, 2, 3], &mut result);
    assert_eq!(result, [1, 4, 9]);
}

#[test]
fn sub_and_div_value_scenario() {
    let mut result = [0i64; 3];
    xany_sub_value::<i64, Fallback>(1, &[1, 2, 3], &mut result);
    assert_eq!(result, [0, 1, 2]);
    xany_div_value::<i64, Neon>(2, &[1, 2, 3], &mut result);
    assert_eq!(result, [0, 1, 1]);
}

#[test]
fn const_max_horizontal_of_a_late_peak() {
    let mut x = vec![0i32; 511];
    x.push(725);
    assert_eq!(xconst_max_horizontal::<i32, Fallback, 512>(&x), 725);
    assert_eq!(xconst_max_horizontal::<i32, Neon, 512>(&x), 725);
}

#[test]
fn sum_vertical_of_copies() {
    let v: Vec<i64> = (0..537).map(|i| i * 3 - 400).collect();
    let rows: Vec<&[i64]> = (0..25).map(|_| v.as_slice()).collect();
    let expected: Vec<i64> = v.iter().map(|x| 25 * x).collect();
    assert_eq!(xany_sum_vertical::<i64, Fallback>(&rows), expected);
    assert_eq!(xany_sum_vertical::<i64, Neon>(&rows), expected);
}

#[test]
fn const_sum_vertical_of_copies() {
    let v: Vec<i64> = (0..512).map(|i| 7 - i).collect();
    let rows: Vec<&[i64]> = (0..25).map(|_| v.as_slice()).collect();
    let expected: Vec<i64> = v.iter().map(|x| 25 * x).collect();
    assert_eq!(xconst_sum_vertical::<i64, Fallback, 512>(&rows), expected);
    assert_eq!(xconst_sum_vertical::<i64, Neon, 512>(&rows), expected);
}

#[test]
fn vertical_max_and_min_over_a_matrix() {
    let r0: Vec<u16> = (0..300).map(|i| (i * 7 % 13) as u16).collect();
    let r1: Vec<u16> = (0..300).map(|i| (i * 5 % 11) as u16).collect();
    let r2: Vec<u16> = (0..300).map(|i| (i % 9) as u16).collect();
    let rows: Vec<&[u16]> = vec![&r0, &r1, &r2];
    let max: Vec<u16> = (0..300).map(|i| r0[i].max(r1[i]).max(r2[i])).collect();
    let min: Vec<u16> = (0..300).map(|i| r0[i].min(r1[i]).min(r2[i])).collect();
    assert_eq!(xany_max_vertical_matrix::<u16, Neon>(&rows), max);
    assert_eq!(xany_min_vertical_matrix::<u16, Fallback>(&rows), min);
    let rows: Vec<&[u16]> = vec![&r0[..256], &r1[..256], &r2[..256]];
    assert_eq!(xconst_max_vertical_matrix::<u16, Neon, 256>(&rows), max[..256].to_vec());
    assert_eq!(xconst_min_vertical_matrix::<u16, Neon, 256>(&rows), min[..256].to_vec());
}

#[test]
fn single_row_matrix_is_the_row() {
    let r: Vec<i8> = (0..70).map(|i| (i as i8).wrapping_mul(11)).collect();
    let rows: Vec<&[i8]> = vec![&r];
    assert_eq!(xany_sum_vertical::<i8, Neon>(&rows), r);
    assert_eq!(xany_max_vertical_matrix::<i8, Fallback>(&rows), r);
}

#[test]
fn sums_wrap_around() {
    assert_eq!(xany_sum::<i8, Neon>(&[100, 100]), -56);
    assert_eq!(xany_sum::<u8, Fallback>(&[200, 100]), 44);
    assert_eq!(xany_sum::<u64, Neon>(&[u64::MAX, 2]), 1);
    assert_eq!(xany_dot::<i16, Neon>(&[300, 1], &[300, 1]), (90001i32 as i16));
    let mut result = [0u8; 2];
    xany_sub_vector::<u8, Neon>(&[1, 5], &[2, 5], &mut result);
    assert_eq!(result, [255, 0]);
}

#[test]
fn signed_division_truncates_and_wraps() {
    let mut result = [0i32; 4];
    xany_div_vector::<i32, Neon>(&[-7, 7, -7, i32::MIN], &[2, -2, -2, -1], &mut result);
    assert_eq!(result, [-3, -3, 3, i32::MIN]);
}

#[test]
fn empty_inputs() {
    let empty: [i32; 0] = [];
    assert_eq!(xany_sum::<i32, Neon>(&empty), 0);
    assert_eq!(xany_max_horizontal::<i32, Neon>(&empty), i32::MIN);
    assert_eq!(xany_min_horizontal::<i32, Fallback>(&empty), i32::MAX);
    assert_eq!(xany_norm::<i32, Neon>(&empty), 0);
    let mut result: [i32; 0] = [];
    xany_add_vector::<i32, Neon>(&empty, &empty, &mut result);
    assert_eq!(result.len(), 0);
}

#[test]
fn reduction_formulas() {
    assert_eq!(xany_norm::<i32, Neon>(&[1, -2, 3]), 14);
    assert_eq!(xany_dot::<i32, Fallback>(&[1, 2, 3], &[4, -5, 6]), 12);
    assert_eq!(xany_euclidean::<i32, Neon>(&[1, 2, 3], &[4, 6, 3]), 25);
    assert_eq!(xany_max_horizontal::<i64, Neon>(&[3, -9, 8, 8, 1]), 8);
    assert_eq!(xany_min_horizontal::<u32, Neon>(&[3, 9, 8, 2, 4]), 2);
}

#[test]
fn identity_laws() {
    for n in BOUNDARY_LENGTHS {
        let a = ramp(n);
        let mut result = vec![0i32; n];
        xany_add_value::<i32, Neon>(0, &a, &mut result);
        assert_eq!(result, a);
        xany_mul_value::<i32, Neon>(1, &a, &mut result);
        assert_eq!(result, a);
        xany_sub_value::<i32, Fallback>(0, &a, &mut result);
        assert_eq!(result, a);
        xany_div_value::<i32, Neon>(1, &a, &mut result);
        assert_eq!(result, a);
        let zeros = vec![0i32; n];
        xany_add_vector::<i32, Neon>(&a, &zeros, &mut result);
        assert_eq!(result, a);
    }
}

#[test]
fn commutativity() {
    for n in BOUNDARY_LENGTHS {
        let a = ramp(n);
        let b: Vec<i32> = a.iter().rev().map(|x| x * 3 + 1).collect();
        let mut ab = vec![0i32; n];
        let mut ba = vec![0i32; n];
        xany_add_vector::<i32, Neon>(&a, &b, &mut ab);
        xany_add_vector::<i32, Neon>(&b, &a, &mut ba);
        assert_eq!(ab, ba);
        xany_max_vertical::<i32, Neon>(&a, &b, &mut ab);
        xany_max_vertical::<i32, Neon>(&b, &a, &mut ba);
        assert_eq!(ab, ba);
        assert_eq!(xany_dot::<i32, Neon>(&a, &b), xany_dot::<i32, Neon>(&b, &a));
        assert_eq!(xany_euclidean::<i32, Neon>(&a, &b), xany_euclidean::<i32, Neon>(&b, &a));
    }
}

#[test]
fn idempotence() {
    for n in BOUNDARY_LENGTHS {
        let a = ramp(n);
        let mut result = vec![0i32; n];
        xany_max_vertical::<i32, Neon>(&a, &a, &mut result);
        assert_eq!(result, a);
        xany_min_vertical::<i32, Fallback>(&a, &a, &mut result);
        assert_eq!(result, a);
    }
    assert_eq!(xany_max_horizontal::<i32, Neon>(&[-17]), -17);
    assert_eq!(xany_max_horizontal::<u8, Fallback>(&[0]), 0);
}

#[test]
fn sum_splits_anywhere() {
    let a = ramp(1043);
    for split in [0, 1, 7, 64, 500, 1042, 1043] {
        let left = xany_sum::<i32, Neon>(&a[..split]);
        let right = xany_sum::<i32, Neon>(&a[split..]);
        assert_eq!(left.wrapping_add(right), xany_sum::<i32, Neon>(&a));
    }
}

#[test]
fn boundary_lengths_agree_with_plain_loops() {
    for n in BOUNDARY_LENGTHS {
        let a: Vec<i16> = (0..n).map(|i| (i as i16).wrapping_mul(263) ^ 0x55).collect();
        let b: Vec<i16> = (0..n).map(|i| (i as i16).wrapping_mul(-71) | 1).collect();
        let sum = a.iter().fold(0i16, |acc, x| acc.wrapping_add(*x));
        let max = a.iter().fold(i16::MIN, |acc, x| acc.max(*x));
        let min = a.iter().fold(i16::MAX, |acc, x| acc.min(*x));
        let dot = a.iter().zip(&b).fold(0i16, |acc, (x, y)| acc.wrapping_add(x.wrapping_mul(*y)));
        assert_eq!(xany_sum::<i16, Fallback>(&a), sum);
        assert_eq!(xany_sum::<i16, Neon>(&a), sum);
        assert_eq!(xany_sum::<i16, Avx2>(&a), sum);
        assert_eq!(xany_sum::<i16, Avx512>(&a), sum);
        assert_eq!(xany_max_horizontal::<i16, Avx2>(&a), max);
        assert_eq!(xany_min_horizontal::<i16, Avx512>(&a), min);
        assert_eq!(xany_dot::<i16, Avx512>(&a, &b), dot);
        assert_eq!(xany_max_horizontal::<i16, Neon>(&a), max);
        assert_eq!(xany_min_horizontal::<i16, Neon>(&a), min);
        assert_eq!(xany_dot::<i16, Neon>(&a, &b), dot);
        let quotients: Vec<i16> = a.iter().zip(&b).map(|(x, y)| x.wrapping_div(*y)).collect();
        let mut result = vec![0i16; n];
        xany_div_vector::<i16, Neon>(&a, &b, &mut result);
        assert_eq!(result, quotients);
        let rows: Vec<&[i16]> = vec![&a, &b, &a];
        let column_sums: Vec<i16> =
            (0..n).map(|i| a[i].wrapping_add(b[i]).wrapping_add(a[i])).collect();
        assert_eq!(xany_sum_vertical::<i16, Neon>(&rows), column_sums);
        assert_eq!(xany_sum_vertical::<i16, Avx2>(&rows), column_sums);
        xany_div_vector::<i16, Avx512>(&a, &b, &mut result);
        assert_eq!(result, quotients);
    }
}

#[test]
fn const_and_any_forms_agree() {
    let a: Vec<u32> = (0..256u32).map(|i| i.wrapping_mul(2654435761) >> 7).collect();
    let b: Vec<u32> = (0..256).map(|i| (i + 1) * 3).collect();
    assert_eq!(xconst_sum::<u32, Neon, 256>(&a), xany_sum::<u32, Neon>(&a));
    assert_eq!(xconst_sum::<u32, Fallback, 256>(&a), xany_sum::<u32, Fallback>(&a));
    assert_eq!(xconst_min_horizontal::<u32, Neon, 256>(&a), xany_min_horizontal::<u32, Neon>(&a));
    let mut c = vec![0u32; 256];
    let mut d = vec![0u32; 256];
    xconst_add_value::<u32, Neon, 256>(9, &a, &mut c);
    xany_add_value::<u32, Neon>(9, &a, &mut d);
    assert_eq!(c, d);
    xconst_mul_value::<u32, Fallback, 256>(3, &a, &mut c);
    xany_mul_value::<u32, Fallback>(3, &a, &mut d);
    assert_eq!(c, d);
    xconst_add_vector::<u32, Neon, 256>(&a, &b, &mut c);
    xany_add_vector::<u32, Neon>(&a, &b, &mut d);
    assert_eq!(c, d);
    xconst_sub_vector::<u32, Neon, 256>(&a, &b, &mut c);
    xany_sub_vector::<u32, Neon>(&a, &b, &mut d);
    assert_eq!(c, d);
    xconst_div_vector::<u32, Neon, 256>(&a, &b, &mut c);
    xany_div_vector::<u32, Neon>(&a, &b, &mut d);
    assert_eq!(c, d);
    xconst_max_vertical::<u32, Neon, 256>(&a, &b, &mut c);
    xany_max_vertical::<u32, Neon>(&a, &b, &mut d);
    assert_eq!(c, d);
}

#[test]
fn backend_selection_prefers_the_widest() {
    let f = |avx512f, avx2, neon| select_backend(CpuFeatures { avx512f, avx2, neon });
    assert!(f(true, true, false) == Backend::Avx512);
    assert!(f(false, true, false) == Backend::Avx2);
    assert!(f(false, false, true) == Backend::Neon);
    assert!(f(false, false, false) == Backend::Fallback);
}

#[test]
fn wide_backends_agree_on_every_kind() {
    let a: Vec<u8> = (0..1043u32).map(|i| (i * 89 % 251) as u8).collect();
    let b: Vec<u8> = (0..1043u32).map(|i| (i * 7 % 13 + 1) as u8).collect();
    let sum = a.iter().fold(0u8, |acc, x| acc.wrapping_add(*x));
    let norm = a.iter().fold(0u8, |acc, x| acc.wrapping_add(x.wrapping_mul(*x)));
    let euclid = a.iter().zip(&b).fold(0u8, |acc, (x, y)| {
        let d = x.wrapping_sub(*y);
        acc.wrapping_add(d.wrapping_mul(d))
    });
    assert_eq!(xany_sum::<u8, Avx512>(&a), sum);
    assert_eq!(xconst_sum::<u8, Avx512, 1024>(&a[..1024]), xany_sum::<u8, Fallback>(&a[..1024]));
    assert_eq!(xany_norm::<u8, Avx2>(&a), norm);
    assert_eq!(xany_euclidean::<u8, Avx512>(&a, &b), euclid);
    let mut result = vec![0u8; 1043];
    xany_mul_value::<u8, Avx2>(3, &a, &mut result);
    let expected: Vec<u8> = a.iter().map(|x| x.wrapping_mul(3)).collect();
    assert_eq!(result, expected);
    xany_min_vertical::<u8, Avx512>(&a, &b, &mut result);
    let expected: Vec<u8> = a.iter().zip(&b).map(|(x, y)| *x.min(y)).collect();
    assert_eq!(result, expected);
}
