//! Vectorised numeric kernels over dense one-dimensional arrays of primitive
//! integers.
//!
//! Every kernel is written once against the register abstraction
//! [`SimdRegister`], runs on any backend that provides it ([`Fallback`],
//! [`Neon`], [`Avx2`], [`Avx512`]), and is proved to return exactly what the
//! element-by-element loop over the same inputs returns, in the element type's
//! wrapping arithmetic. [`select_backend`] picks the backend for a host's CPU
//! features.
pub mod algebra;
pub mod avx2;
pub mod avx512;
pub mod dense;
pub mod dispatch;
pub mod element;
pub mod elementwise;
pub mod fallback;
pub mod horizontal;
pub mod lanes;
pub mod laws;
pub mod neon;
pub mod register;
pub mod vertical;

pub use crate::avx2::Avx2;
pub use crate::avx512::Avx512;
pub use crate::dispatch::{Backend, CpuFeatures, select_backend};
pub use crate::element::Element;
pub use crate::elementwise::{
    xany_add_value, xany_add_vector, xany_div_value, xany_div_vector, xany_max_vertical,
    xany_min_vertical, xany_mul_value, xany_mul_vector, xany_sub_value, xany_sub_vector,
    xconst_add_value, xconst_add_vector, xconst_div_value, xconst_div_vector, xconst_max_vertical,
    xconst_min_vertical, xconst_mul_value, xconst_mul_vector, xconst_sub_value, xconst_sub_vector,
};
pub use crate::fallback::Fallback;
pub use crate::horizontal::{
    xany_dot, xany_euclidean, xany_max_horizontal, xany_min_horizontal, xany_norm, xany_sum,
    xconst_dot, xconst_euclidean, xconst_max_horizontal, xconst_min_horizontal, xconst_norm,
    xconst_sum,
};
pub use crate::neon::Neon;
pub use crate::register::SimdRegister;
pub use crate::vertical::{
    xany_max_vertical_matrix, xany_min_vertical_matrix, xany_sum_vertical,
    xconst_max_vertical_matrix, xconst_min_vertical_matrix, xconst_sum_vertical,
};
