//! Compute backends and their selection.

use vstd::prelude::*;
use crate::text::{chars_of, lower_eq, matches_keyword};
use crate::types::{kw_cpu, kw_cuda, kw_ocl, kw_opencl, lemma_lower_eq_keyword, case_variant,
    lemma_case_variant_matches, lower_word};

verus! {

/// Compute backend of the engine.
#[derive(Clone, Copy, PartialEq, Eq, Debug, Structural)]
pub enum TGPUBackend {
    CPU,
    CUDA,
    OpenCL,
}

/// The backend read from `s`: `cuda`, `opencl` or `ocl`, and `cpu`, matched
/// without regard to case; an unknown name gives `CPU`.
pub open spec fn spec_gpu_backend_from(s: Seq<char>) -> TGPUBackend {
    if lower_eq(s, kw_cuda()) {
        TGPUBackend::CUDA
    } else if lower_eq(s, kw_opencl()) || lower_eq(s, kw_ocl()) {
        TGPUBackend::OpenCL
    } else {
        TGPUBackend::CPU
    }
}

/// The name of a backend.
pub open spec fn spec_gpu_backend_name(b: TGPUBackend) -> Seq<char> {
    match b {
        TGPUBackend::CPU => kw_cpu(),
        TGPUBackend::CUDA => kw_cuda(),
        TGPUBackend::OpenCL => kw_opencl(),
    }
}

/// The backends this build can run on.  The CUDA and OpenCL engines are
/// compiled only with their toolkits; this build has neither, so the CPU is
/// the one backend present.
pub open spec fn spec_available_backends() -> Seq<TGPUBackend> {
    seq![TGPUBackend::CPU]
}

/// The backend preferred among `available`: CUDA, then OpenCL, then CPU.
pub open spec fn spec_preferred_backend(available: Seq<TGPUBackend>) -> TGPUBackend {
    if available.contains(TGPUBackend::CUDA) {
        TGPUBackend::CUDA
    } else if available.contains(TGPUBackend::OpenCL) {
        TGPUBackend::OpenCL
    } else {
        TGPUBackend::CPU
    }
}

impl TGPUBackend {
    /// Parse a backend name (case-insensitive; unknown names give `CPU`).
    pub fn from_str(s: &str) -> (r: Self)
        ensures
            r == spec_gpu_backend_from(s@),
    {
        let cs = chars_of(s);
        if matches_keyword(&cs, &vec!['c', 'u', 'd', 'a']) {
            TGPUBackend::CUDA
        } else if matches_keyword(&cs, &vec!['o', 'p', 'e', 'n', 'c', 'l'])
            || matches_keyword(&cs, &vec!['o', 'c', 'l']) {
            TGPUBackend::OpenCL
        } else {
            TGPUBackend::CPU
        }
    }

    /// The lower-case name of the backend.
    pub fn to_str(&self) -> (r: &'static str)
        ensures
            r@ == spec_gpu_backend_name(*self),
    {
        match self {
            TGPUBackend::CPU => {
                proof { reveal_strlit("cpu"); }
                "cpu"
            },
            TGPUBackend::CUDA => {
                proof { reveal_strlit("cuda"); }
                "cuda"
            },
            TGPUBackend::OpenCL => {
                proof { reveal_strlit("opencl"); }
                "opencl"
            },
        }
    }
}

/// The backends available to this build, CPU first.
pub fn detect_available_backends() -> (r: Vec<TGPUBackend>)
    ensures
        r@ == spec_available_backends(),
{
    let backends = vec![TGPUBackend::CPU];
    backends
}

/// Does `v` hold `b`?
fn holds_backend(v: &Vec<TGPUBackend>, b: TGPUBackend) -> (r: bool)
    ensures
        r == v@.contains(b),
{
    let mut i: usize = 0;
    while i < v.len()
        invariant
            i <= v.len(),
            forall|j: int| 0 <= j < i ==> v@[j] != b,
        decreases v.len() - i,
    {
        if v[i] == b {
            return true;
        }
        i = i + 1;
    }
    false
}

/// The best available backend: CUDA, then OpenCL, then CPU.
pub fn select_best_backend() -> (r: TGPUBackend)
    ensures
        r == spec_preferred_backend(spec_available_backends()),
{
    let available = detect_available_backends();
    if holds_backend(&available, TGPUBackend::CUDA) {
        TGPUBackend::CUDA
    } else if holds_backend(&available, TGPUBackend::OpenCL) {
        TGPUBackend::OpenCL
    } else {
        TGPUBackend::CPU
    }
}

/// Parsing the name of a backend gives the backend back.
pub proof fn law_gpu_backend_name_roundtrip(b: TGPUBackend)
    ensures
        spec_gpu_backend_from(spec_gpu_backend_name(b)) == b,
{
    let n = spec_gpu_backend_name(b);
    lemma_lower_eq_keyword(n, kw_cuda());
    lemma_lower_eq_keyword(n, kw_opencl());
    lemma_lower_eq_keyword(n, kw_ocl());
}

/// The engine's backend parser reads a name in any mix of cases: every
/// case variant of `cpu`, `cuda`, `opencl` or `ocl` gives that backend.
pub proof fn law_gpu_backend_read_in_any_case(s: Seq<char>)
    ensures
        case_variant(s, kw_cpu()) ==> spec_gpu_backend_from(s) == TGPUBackend::CPU,
        case_variant(s, kw_cuda()) ==> spec_gpu_backend_from(s) == TGPUBackend::CUDA,
        case_variant(s, kw_opencl()) ==> spec_gpu_backend_from(s) == TGPUBackend::OpenCL,
        case_variant(s, kw_ocl()) ==> spec_gpu_backend_from(s) == TGPUBackend::OpenCL,
{
    let kws = seq![kw_cpu(), kw_cuda(), kw_opencl(), kw_ocl()];
    assert forall|k: int| 0 <= k < kws.len() && case_variant(s, #[trigger] kws[k]) implies
        (forall|v: Seq<char>| lower_eq(s, v) <==> kws[k] == v) by {
        assert(lower_word(kws[k]));
        assert forall|v: Seq<char>| lower_eq(s, v) <==> kws[k] == v by {
            lemma_case_variant_matches(s, kws[k], v);
        }
    }
    assert(kws[0] == kw_cpu());
    assert(kws[1] == kw_cuda());
    assert(kws[2] == kw_opencl());
    assert(kws[3] == kw_ocl());
}

} // verus!
