//! Public option types of the library.

use vstd::prelude::*;
use crate::text::{ascii_lower, chars_of, law_ascii_lower, lower_eq, matches_keyword};

verus! {

/// Activation function type for neural network layers.
#[derive(Clone, Copy, PartialEq, Eq, Debug, Structural)]
pub enum ActivationType {
    /// Sigmoid activation: f(x) = 1 / (1 + e^(-x))
    Sigmoid,
    /// Hyperbolic tangent
    Tanh,
    /// Rectified Linear Unit: f(x) = max(0, x)
    ReLU,
    /// Softmax activation for multi-class classification
    Softmax,
}

/// Optimizer type for training.
#[derive(Clone, Copy, PartialEq, Eq, Debug, Structural)]
pub enum OptimizerType {
    /// Stochastic Gradient Descent
    SGD,
    /// Adam optimizer
    Adam,
    /// RMSProp optimizer
    RMSProp,
}

/// Compute backend type.
#[derive(Clone, Copy, PartialEq, Eq, Debug, Structural)]
pub enum BackendType {
    /// Pure Rust CPU implementation
    CPU,
    /// NVIDIA CUDA acceleration
    CUDA,
    /// OpenCL acceleration
    OpenCL,
}

/// Information about a neural network layer (for introspection).
#[derive(Clone, Copy, PartialEq, Eq, Debug, Structural)]
pub struct LayerInfo {
    /// Layer index (0 = input, 1+ = hidden/output)
    pub index: usize,
    /// Number of neurons in this layer
    pub size: usize,
    /// Activation function
    pub activation: ActivationType,
    /// Number of weights per neuron (connections from previous layer)
    pub weights_per_neuron: usize,
}

// ---------------------------------------------------------------------
// Keywords
// ---------------------------------------------------------------------

pub open spec fn kw_sigmoid() -> Seq<char> { seq!['s', 'i', 'g', 'm', 'o', 'i', 'd'] }
pub open spec fn kw_tanh() -> Seq<char> { seq!['t', 'a', 'n', 'h'] }
pub open spec fn kw_relu() -> Seq<char> { seq!['r', 'e', 'l', 'u'] }
pub open spec fn kw_softmax() -> Seq<char> { seq!['s', 'o', 'f', 't', 'm', 'a', 'x'] }
pub open spec fn kw_sgd() -> Seq<char> { seq!['s', 'g', 'd'] }
pub open spec fn kw_adam() -> Seq<char> { seq!['a', 'd', 'a', 'm'] }
pub open spec fn kw_rmsprop() -> Seq<char> { seq!['r', 'm', 's', 'p', 'r', 'o', 'p'] }
pub open spec fn kw_cpu() -> Seq<char> { seq!['c', 'p', 'u'] }
pub open spec fn kw_cuda() -> Seq<char> { seq!['c', 'u', 'd', 'a'] }
pub open spec fn kw_opencl() -> Seq<char> { seq!['o', 'p', 'e', 'n', 'c', 'l'] }
pub open spec fn kw_ocl() -> Seq<char> { seq!['o', 'c', 'l'] }

// ---------------------------------------------------------------------
// Meaning of the parsers and of the names
// ---------------------------------------------------------------------

/// The activation read from the characters `s`: the name matched without
/// regard to case; an unknown name gives `Sigmoid`.
pub open spec fn spec_activation_from(s: Seq<char>) -> ActivationType {
    if lower_eq(s, kw_sigmoid()) {
        ActivationType::Sigmoid
    } else if lower_eq(s, kw_tanh()) {
        ActivationType::Tanh
    } else if lower_eq(s, kw_relu()) {
        ActivationType::ReLU
    } else if lower_eq(s, kw_softmax()) {
        ActivationType::Softmax
    } else {
        ActivationType::Sigmoid
    }
}

/// The optimizer read from the characters `s`: the name matched without
/// regard to case; an unknown name gives `SGD`.
pub open spec fn spec_optimizer_from(s: Seq<char>) -> OptimizerType {
    if lower_eq(s, kw_sgd()) {
        OptimizerType::SGD
    } else if lower_eq(s, kw_adam()) {
        OptimizerType::Adam
    } else if lower_eq(s, kw_rmsprop()) {
        OptimizerType::RMSProp
    } else {
        OptimizerType::SGD
    }
}

/// The backend read from the characters `s`: `cuda`, `opencl` or `ocl`, and
/// `cpu`, matched without regard to case; an unknown name gives `CPU`.
pub open spec fn spec_backend_from(s: Seq<char>) -> BackendType {
    if lower_eq(s, kw_cuda()) {
        BackendType::CUDA
    } else if lower_eq(s, kw_opencl()) || lower_eq(s, kw_ocl()) {
        BackendType::OpenCL
    } else {
        BackendType::CPU
    }
}

/// The name of an activation.
pub open spec fn spec_activation_name(a: ActivationType) -> Seq<char> {
    match a {
        ActivationType::Sigmoid => kw_sigmoid(),
        ActivationType::Tanh => kw_tanh(),
        ActivationType::ReLU => kw_relu(),
        ActivationType::Softmax => kw_softmax(),
    }
}

/// The name of an optimizer.
pub open spec fn spec_optimizer_name(o: OptimizerType) -> Seq<char> {
    match o {
        OptimizerType::SGD => kw_sgd(),
        OptimizerType::Adam => kw_adam(),
        OptimizerType::RMSProp => kw_rmsprop(),
    }
}

/// The name of a backend.
pub open spec fn spec_backend_name(b: BackendType) -> Seq<char> {
    match b {
        BackendType::CPU => kw_cpu(),
        BackendType::CUDA => kw_cuda(),
        BackendType::OpenCL => kw_opencl(),
    }
}

impl ActivationType {
    /// Parse activation type from string (case-insensitive; unknown names
    /// give `Sigmoid`).
    pub fn from_str(s: &str) -> (r: Self)
        ensures
            r == spec_activation_from(s@),
    {
        let cs = chars_of(s);
        if matches_keyword(&cs, &vec!['s', 'i', 'g', 'm', 'o', 'i', 'd']) {
            ActivationType::Sigmoid
        } else if matches_keyword(&cs, &vec!['t', 'a', 'n', 'h']) {
            ActivationType::Tanh
        } else if matches_keyword(&cs, &vec!['r', 'e', 'l', 'u']) {
            ActivationType::ReLU
        } else if matches_keyword(&cs, &vec!['s', 'o', 'f', 't', 'm', 'a', 'x']) {
            ActivationType::Softmax
        } else {
            ActivationType::Sigmoid
        }
    }

    /// The lower-case name of the activation (its display text).
    pub fn name(&self) -> (r: &'static str)
        ensures
            r@ == spec_activation_name(*self),
    {
        match self {
            ActivationType::Sigmoid => {
                proof { reveal_strlit("sigmoid"); }
                "sigmoid"
            },
            ActivationType::Tanh => {
                proof { reveal_strlit("tanh"); }
                "tanh"
            },
            ActivationType::ReLU => {
                proof { reveal_strlit("relu"); }
                "relu"
            },
            ActivationType::Softmax => {
                proof { reveal_strlit("softmax"); }
                "softmax"
            },
        }
    }
}

impl Default for ActivationType {
    fn default() -> (r: Self)
        ensures
            r == ActivationType::Sigmoid,
    {
        ActivationType::Sigmoid
    }
}

impl OptimizerType {
    /// Parse optimizer type from string (case-insensitive; unknown names
    /// give `SGD`).
    pub fn from_str(s: &str) -> (r: Self)
        ensures
            r == spec_optimizer_from(s@),
    {
        let cs = chars_of(s);
        if matches_keyword(&cs, &vec!['s', 'g', 'd']) {
            OptimizerType::SGD
        } else if matches_keyword(&cs, &vec!['a', 'd', 'a', 'm']) {
            OptimizerType::Adam
        } else if matches_keyword(&cs, &vec!['r', 'm', 's', 'p', 'r', 'o', 'p']) {
            OptimizerType::RMSProp
        } else {
            OptimizerType::SGD
        }
    }

    /// The lower-case name of the optimizer (its display text).
    pub fn name(&self) -> (r: &'static str)
        ensures
            r@ == spec_optimizer_name(*self),
    {
        match self {
            OptimizerType::SGD => {
                proof { reveal_strlit("sgd"); }
                "sgd"
            },
            OptimizerType::Adam => {
                proof { reveal_strlit("adam"); }
                "adam"
            },
            OptimizerType::RMSProp => {
                proof { reveal_strlit("rmsprop"); }
                "rmsprop"
            },
        }
    }
}

impl Default for OptimizerType {
    fn default() -> (r: Self)
        ensures
            r == OptimizerType::Adam,
    {
        OptimizerType::Adam
    }
}

impl BackendType {
    /// Parse backend type from string (case-insensitive; `ocl` is accepted
    /// for OpenCL; unknown names give `CPU`).
    pub fn from_str(s: &str) -> (r: Self)
        ensures
            r == spec_backend_from(s@),
    {
        let cs = chars_of(s);
        if matches_keyword(&cs, &vec!['c', 'u', 'd', 'a']) {
            BackendType::CUDA
        } else if matches_keyword(&cs, &vec!['o', 'p', 'e', 'n', 'c', 'l'])
            || matches_keyword(&cs, &vec!['o', 'c', 'l']) {
            BackendType::OpenCL
        } else {
            BackendType::CPU
        }
    }

    /// The lower-case name of the backend (its display text).
    pub fn name(&self) -> (r: &'static str)
        ensures
            r@ == spec_backend_name(*self),
    {
        match self {
            BackendType::CPU => {
                proof { reveal_strlit("cpu"); }
                "cpu"
            },
            BackendType::CUDA => {
                proof { reveal_strlit("cuda"); }
                "cuda"
            },
            BackendType::OpenCL => {
                proof { reveal_strlit("opencl"); }
                "opencl"
            },
        }
    }
}

impl Default for BackendType {
    fn default() -> (r: Self)
        ensures
            r == BackendType::CPU,
    {
        BackendType::CPU
    }
}

// ---------------------------------------------------------------------
// Laws
// ---------------------------------------------------------------------

/// A keyword of lower-case letters lower-cases to itself, and to no keyword
/// that differs from it.
pub proof fn lemma_lower_eq_keyword(w: Seq<char>, v: Seq<char>)
    requires
        forall|i: int| 0 <= i < w.len() ==> 'a' <= #[trigger] w[i] && w[i] <= 'z',
    ensures
        lower_eq(w, v) <==> w == v,
{
    if lower_eq(w, v) {
        assert forall|i: int| 0 <= i < w.len() implies w[i] == v[i] by {
            assert(ascii_lower(w[i]) == w[i]);
        }
        assert(w =~= v);
    }
}

/// Parsing the name of an activation gives the activation back.
pub proof fn law_activation_name_roundtrip(a: ActivationType)
    ensures
        spec_activation_from(spec_activation_name(a)) == a,
{
    let n = spec_activation_name(a);
    lemma_lower_eq_keyword(n, kw_sigmoid());
    lemma_lower_eq_keyword(n, kw_tanh());
    lemma_lower_eq_keyword(n, kw_relu());
    lemma_lower_eq_keyword(n, kw_softmax());
}

/// Parsing the name of an optimizer gives the optimizer back.
pub proof fn law_optimizer_name_roundtrip(o: OptimizerType)
    ensures
        spec_optimizer_from(spec_optimizer_name(o)) == o,
{
    let n = spec_optimizer_name(o);
    lemma_lower_eq_keyword(n, kw_sgd());
    lemma_lower_eq_keyword(n, kw_adam());
    lemma_lower_eq_keyword(n, kw_rmsprop());
}

/// Parsing the name of a backend gives the backend back.
pub proof fn law_backend_name_roundtrip(b: BackendType)
    ensures
        spec_backend_from(spec_backend_name(b)) == b,
{
    let n = spec_backend_name(b);
    lemma_lower_eq_keyword(n, kw_cuda());
    lemma_lower_eq_keyword(n, kw_opencl());
    lemma_lower_eq_keyword(n, kw_ocl());
}

/// Two texts that are equal up to ASCII case.
pub open spec fn same_up_to_case(s: Seq<char>, t: Seq<char>) -> bool {
    &&& s.len() == t.len()
    &&& forall|i: int| 0 <= i < s.len() ==> #[trigger] ascii_lower(s[i]) == ascii_lower(t[i])
}

proof fn lemma_lower_eq_same_case(s: Seq<char>, t: Seq<char>, w: Seq<char>)
    requires
        same_up_to_case(s, t),
    ensures
        lower_eq(s, w) == lower_eq(t, w),
{
    if lower_eq(s, w) {
        assert forall|i: int| 0 <= i < t.len() implies #[trigger] ascii_lower(t[i]) == w[i] by {
            assert(ascii_lower(s[i]) == ascii_lower(t[i]));
        }
    }
    if lower_eq(t, w) {
        assert forall|i: int| 0 <= i < s.len() implies #[trigger] ascii_lower(s[i]) == w[i] by {
            assert(ascii_lower(s[i]) == ascii_lower(t[i]));
        }
    }
}

/// The parsers of the option types read a name without regard to case:
/// texts equal up to ASCII case give the same option.
pub proof fn law_option_parsers_ignore_case(s: Seq<char>, t: Seq<char>)
    requires
        same_up_to_case(s, t),
    ensures
        spec_activation_from(s) == spec_activation_from(t),
        spec_optimizer_from(s) == spec_optimizer_from(t),
        spec_backend_from(s) == spec_backend_from(t),
{
    lemma_lower_eq_same_case(s, t, kw_sigmoid());
    lemma_lower_eq_same_case(s, t, kw_tanh());
    lemma_lower_eq_same_case(s, t, kw_relu());
    lemma_lower_eq_same_case(s, t, kw_softmax());
    lemma_lower_eq_same_case(s, t, kw_sgd());
    lemma_lower_eq_same_case(s, t, kw_adam());
    lemma_lower_eq_same_case(s, t, kw_rmsprop());
    lemma_lower_eq_same_case(s, t, kw_cuda());
    lemma_lower_eq_same_case(s, t, kw_opencl());
    lemma_lower_eq_same_case(s, t, kw_ocl());
}

/// `s` is the lower-case word `w` with any of its letters written in
/// upper case.
pub open spec fn case_variant(s: Seq<char>, w: Seq<char>) -> bool {
    &&& s.len() == w.len()
    &&& forall|i: int| 0 <= i < s.len() ==> (#[trigger] s[i] == w[i] || ('a' <= w[i] <= 'z' && s[i] as u32 + 32 == w[i] as u32))
}

/// A word of lower-case letters.
pub open spec fn lower_word(w: Seq<char>) -> bool {
    forall|i: int| 0 <= i < w.len() ==> 'a' <= #[trigger] w[i] && w[i] <= 'z'
}

/// A case variant of a lower-case word matches, without regard to case,
/// that word and no other.
pub proof fn lemma_case_variant_matches(s: Seq<char>, w: Seq<char>, v: Seq<char>)
    requires
        case_variant(s, w),
        lower_word(w),
    ensures
        lower_eq(s, v) <==> w == v,
{
    assert forall|i: int| 0 <= i < s.len() implies #[trigger] ascii_lower(s[i]) == w[i] by {
        law_ascii_lower(s[i]);
        if s[i] != w[i] {
            assert(ascii_lower(s[i]) as u32 == w[i] as u32);
        }
    }
    if lower_eq(s, v) {
        assert forall|i: int| 0 <= i < w.len() implies w[i] == v[i] by {
            assert(ascii_lower(s[i]) == w[i]);
        }
        assert(w =~= v);
    }
}

/// The parsers of the option types read a name in any mix of cases:
/// every case variant of an activation, optimizer or backend name (such as
/// `SOFTMAX` or `ReLU`) gives that option.
pub proof fn law_names_read_in_any_case(s: Seq<char>)
    ensures
        case_variant(s, kw_sigmoid()) ==> spec_activation_from(s) == ActivationType::Sigmoid,
        case_variant(s, kw_tanh()) ==> spec_activation_from(s) == ActivationType::Tanh,
        case_variant(s, kw_relu()) ==> spec_activation_from(s) == ActivationType::ReLU,
        case_variant(s, kw_softmax()) ==> spec_activation_from(s) == ActivationType::Softmax,
        case_variant(s, kw_sgd()) ==> spec_optimizer_from(s) == OptimizerType::SGD,
        case_variant(s, kw_adam()) ==> spec_optimizer_from(s) == OptimizerType::Adam,
        case_variant(s, kw_rmsprop()) ==> spec_optimizer_from(s) == OptimizerType::RMSProp,
        case_variant(s, kw_cpu()) ==> spec_backend_from(s) == BackendType::CPU,
        case_variant(s, kw_cuda()) ==> spec_backend_from(s) == BackendType::CUDA,
        case_variant(s, kw_opencl()) ==> spec_backend_from(s) == BackendType::OpenCL,
        case_variant(s, kw_ocl()) ==> spec_backend_from(s) == BackendType::OpenCL,
{
    let kws = seq![kw_sigmoid(), kw_tanh(), kw_relu(), kw_softmax(), kw_sgd(), kw_adam(), kw_rmsprop(),
        kw_cpu(), kw_cuda(), kw_opencl(), kw_ocl()];
    assert forall|k: int| 0 <= k < kws.len() && case_variant(s, #[trigger] kws[k]) implies
        (forall|v: Seq<char>| lower_eq(s, v) <==> kws[k] == v) by {
        assert(lower_word(kws[k]));
        assert forall|v: Seq<char>| lower_eq(s, v) <==> kws[k] == v by {
            lemma_case_variant_matches(s, kws[k], v);
        }
    }
    assert(kws[0] == kw_sigmoid());
    assert(kws[1] == kw_tanh());
    assert(kws[2] == kw_relu());
    assert(kws[3] == kw_softmax());
    assert(kws[4] == kw_sgd());
    assert(kws[5] == kw_adam());
    assert(kws[6] == kw_rmsprop());
    assert(kws[7] == kw_cpu());
    assert(kws[8] == kw_cuda());
    assert(kws[9] == kw_opencl());
    assert(kws[10] == kw_ocl());
}

} // verus!
