//! Backend selection: which register backend a host's CPU features call for.
use vstd::prelude::*;

verus! {

/// The CPU features a probe of the host found.
#[derive(Clone, Copy, PartialEq, Eq, Structural)]
pub struct CpuFeatures {
    pub avx512f: bool,
    pub avx2: bool,
    pub neon: bool,
}

/// The register backends of this library.
#[derive(Clone, Copy, PartialEq, Eq, Structural)]
pub enum Backend {
    /// 512-bit lane groups, as AVX-512 registers hold them.
    Avx512,
    /// 256-bit lane groups, as AVX2 registers hold them.
    Avx2,
    /// 128-bit lane groups, as NEON registers hold them.
    Neon,
    /// One element per register; always available.
    Fallback,
}

/// The backend for a host with `features`: the first one present of
/// AVX-512, AVX2 and NEON, and the scalar fallback when there is none.
pub fn select_backend(features: CpuFeatures) -> (b: Backend)
    ensures
        b == (if features.avx512f {
            Backend::Avx512
        } else if features.avx2 {
            Backend::Avx2
        } else if features.neon {
            Backend::Neon
        } else {
            Backend::Fallback
        }),
{
    if features.avx512f {
        Backend::Avx512
    } else if features.avx2 {
        Backend::Avx2
    } else if features.neon {
        Backend::Neon
    } else {
        Backend::Fallback
    }
}

} // verus!
