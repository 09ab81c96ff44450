//! The decisions of the C interface (used by the Julia, C++, Go, C# and Zig
//! wrappers): status codes, the reading of integer codes and backend names,
//! and the checks made on the arguments before any buffer is touched.

use vstd::prelude::*;
use crate::core_types::{MAX_FFI_HIDDEN_LAYERS, spec_activation_of_code, spec_optimizer_of_code,
    validate_activation_i32, validate_optimizer_i32};
use crate::gpu_backend::{TGPUBackend, select_best_backend, spec_available_backends, spec_preferred_backend,
    spec_gpu_backend_name, detect_available_backends};
use crate::mlp::{TActivationType, TOptimizerType};
use crate::text::{chars_of, push_char};
use crate::training::{TrainingModel, TrainingState};
use crate::types::{kw_cpu, kw_cuda, kw_ocl, kw_opencl};

verus! {

/// Result status codes of the C interface.
#[derive(Clone, Copy, PartialEq, Eq, Debug, Structural)]
pub enum JuliaStatus {
    Success,
    InvalidArg,
    RuntimeError,
    IoError,
}

/// The number a status stands for at the C boundary.
pub open spec fn spec_status_code(s: JuliaStatus) -> int {
    match s {
        JuliaStatus::Success => 0,
        JuliaStatus::InvalidArg => -1,
        JuliaStatus::RuntimeError => -2,
        JuliaStatus::IoError => -3,
    }
}

impl JuliaStatus {
    /// The number this status stands for at the C boundary.
    pub fn code(&self) -> (r: i32)
        ensures
            r == spec_status_code(*self),
    {
        match self {
            JuliaStatus::Success => 0,
            JuliaStatus::InvalidArg => -1,
            JuliaStatus::RuntimeError => -2,
            JuliaStatus::IoError => -3,
        }
    }
}

/// The activation a code stands for; codes other than 0..=3 give the
/// sigmoid.
pub open spec fn spec_int_to_activation(val: i32) -> TActivationType {
    if val == 1 {
        TActivationType::atTanh
    } else if val == 2 {
        TActivationType::atReLU
    } else if val == 3 {
        TActivationType::atSoftmax
    } else {
        TActivationType::atSigmoid
    }
}

/// The optimizer a code stands for; codes other than 0..=2 give SGD.
pub open spec fn spec_int_to_optimizer(val: i32) -> TOptimizerType {
    if val == 1 {
        TOptimizerType::otAdam
    } else if val == 2 {
        TOptimizerType::otRMSProp
    } else {
        TOptimizerType::otSGD
    }
}

/// The activation a code stands for in a saved model (0 = sigmoid,
/// 1 = tanh, 2 = ReLU, 3 = softmax; anything else = sigmoid).  Codes from
/// foreign callers are validated instead (`check_create_args`).
pub fn int_to_activation(val: i32) -> (r: TActivationType)
    ensures
        r == spec_int_to_activation(val),
{
    match val {
        0 => TActivationType::atSigmoid,
        1 => TActivationType::atTanh,
        2 => TActivationType::atReLU,
        3 => TActivationType::atSoftmax,
        _ => TActivationType::atSigmoid,
    }
}

/// The optimizer a code stands for in a saved model (0 = SGD, 1 = Adam,
/// 2 = RMSProp; anything else = SGD).  Codes from foreign callers are
/// validated instead (`set_optimizer_code`).
pub fn int_to_optimizer(val: i32) -> (r: TOptimizerType)
    ensures
        r == spec_int_to_optimizer(val),
{
    match val {
        0 => TOptimizerType::otSGD,
        1 => TOptimizerType::otAdam,
        2 => TOptimizerType::otRMSProp,
        _ => TOptimizerType::otSGD,
    }
}

/// Why `mlp_create` refuses its arguments, checked in this order; `None`
/// when it accepts them.  The activation codes must be ones that
/// `validate_activation_i32` accepts.
pub open spec fn spec_create_error(
    input_size: i32,
    hidden_present: bool,
    hidden_count: i32,
    output_size: i32,
    hidden_activation: i32,
    output_activation: i32,
) -> Option<Seq<char>> {
    if !hidden_present || hidden_count <= 0 {
        Some("Invalid hidden layer configuration"@)
    } else if input_size <= 0 || output_size <= 0 {
        Some("Input and output sizes must be positive"@)
    } else if hidden_count > MAX_FFI_HIDDEN_LAYERS {
        Some("Too many hidden layers"@)
    } else if spec_activation_of_code(hidden_activation) is None
        || spec_activation_of_code(output_activation) is None {
        Some("Invalid activation code"@)
    } else {
        None
    }
}

/// Check the arguments of `mlp_create`; on success, the number of hidden
/// layer sizes to read and the hidden and output activations the codes
/// stand for.  `hidden_present` is false for a null array.
pub fn check_create_args(
    input_size: i32,
    hidden_present: bool,
    hidden_count: i32,
    output_size: i32,
    hidden_activation: i32,
    output_activation: i32,
) -> (r: Result<(usize, TActivationType, TActivationType), String>)
    ensures
        match r {
            Ok((n, h, o)) => spec_create_error(input_size, hidden_present, hidden_count, output_size,
                hidden_activation, output_activation) is None
                && n == hidden_count as usize
                && spec_activation_of_code(hidden_activation) == Some(h)
                && spec_activation_of_code(output_activation) == Some(o),
            Err(e) => spec_create_error(input_size, hidden_present, hidden_count, output_size,
                hidden_activation, output_activation) == Some(e@),
        },
{
    if !hidden_present || hidden_count <= 0 {
        return Err(String::from_str("Invalid hidden layer configuration"));
    }
    if input_size <= 0 || output_size <= 0 {
        return Err(String::from_str("Input and output sizes must be positive"));
    }
    if hidden_count > MAX_FFI_HIDDEN_LAYERS {
        return Err(String::from_str("Too many hidden layers"));
    }
    match (validate_activation_i32(hidden_activation), validate_activation_i32(output_activation)) {
        (Some(h), Some(o)) => Ok((hidden_count as usize, h, o)),
        _ => Err(String::from_str("Invalid activation code")),
    }
}

/// Set the optimizer from a code given by a foreign caller: a code that
/// `validate_optimizer_i32` accepts replaces the optimizer, any other code
/// is refused and leaves the state as it was.  Returns whether the code was
/// accepted.
pub fn set_optimizer_code(state: &mut TrainingState, code: i32) -> (accepted: bool)
    ensures
        accepted == spec_optimizer_of_code(code) is Some,
        final(state)@ == match spec_optimizer_of_code(code) {
            Some(o) => (TrainingModel { optimizer: o, ..old(state)@ }),
            None => old(state)@,
        },
{
    match validate_optimizer_i32(code) {
        Some(o) => {
            state.set_optimizer(o);
            true
        },
        None => false,
    }
}

/// The backend `mlp_create` runs a new network on: the exact names `cuda`,
/// `opencl` or `ocl`, and `cpu`; no name (a null or non-UTF-8 string) or
/// any other name gives the best available backend.
pub open spec fn spec_create_backend(name: Option<Seq<char>>) -> TGPUBackend {
    match name {
        Some(s) => if s == kw_cuda() {
            TGPUBackend::CUDA
        } else if s == kw_opencl() || s == kw_ocl() {
            TGPUBackend::OpenCL
        } else if s == kw_cpu() {
            TGPUBackend::CPU
        } else {
            spec_preferred_backend(spec_available_backends())
        },
        None => spec_preferred_backend(spec_available_backends()),
    }
}

/// Is `s` exactly the word `w`?
fn is_word(s: &Vec<char>, w: &Vec<char>) -> (r: bool)
    ensures
        r == (s@ == w@),
{
    if s.len() != w.len() {
        return false;
    }
    let mut i: usize = 0;
    while i < s.len()
        invariant
            s.len() == w.len(),
            i <= s.len(),
            forall|j: int| 0 <= j < i ==> s@[j] == w@[j],
        decreases s.len() - i,
    {
        if s[i] != w[i] {
            return false;
        }
        i = i + 1;
    }
    assert(s@ =~= w@);
    true
}

/// The backend `mlp_create` runs a new network on, given the name it was
/// passed.
pub fn create_backend(name: Option<&str>) -> (r: TGPUBackend)
    ensures
        r == spec_create_backend(match name { Some(s) => Some(s@), None => None }),
{
    match name {
        Some(s) => {
            let cs = chars_of(s);
            if is_word(&cs, &vec!['c', 'u', 'd', 'a']) {
                TGPUBackend::CUDA
            } else if is_word(&cs, &vec!['o', 'p', 'e', 'n', 'c', 'l']) || is_word(&cs, &vec!['o', 'c', 'l']) {
                TGPUBackend::OpenCL
            } else if is_word(&cs, &vec!['c', 'p', 'u']) {
                TGPUBackend::CPU
            } else {
                select_best_backend()
            }
        },
        None => select_best_backend(),
    }
}

/// The word `auto`.
pub open spec fn kw_auto() -> Seq<char> { seq!['a', 'u', 't', 'o'] }

/// The backend named by the option of the Node.js constructor: the exact
/// names `cuda`, `opencl` or `ocl`, and `cpu`; `auto` or no name gives the
/// best available backend; any other name is refused.
pub open spec fn spec_backend_option(name: Option<Seq<char>>) -> Result<TGPUBackend, Seq<char>> {
    match name {
        Some(s) => if s == kw_cuda() {
            Ok(TGPUBackend::CUDA)
        } else if s == kw_opencl() || s == kw_ocl() {
            Ok(TGPUBackend::OpenCL)
        } else if s == kw_cpu() {
            Ok(TGPUBackend::CPU)
        } else if s == kw_auto() {
            Ok(spec_preferred_backend(spec_available_backends()))
        } else {
            Err("Invalid GPU backend: "@ + s)
        },
        None => Ok(spec_preferred_backend(spec_available_backends())),
    }
}

/// Read the backend option of the Node.js constructor.
pub fn backend_option(name: Option<&str>) -> (r: Result<TGPUBackend, String>)
    ensures
        match r {
            Ok(b) => spec_backend_option(match name { Some(s) => Some(s@), None => None }) == Ok::<TGPUBackend, Seq<char>>(b),
            Err(e) => spec_backend_option(match name { Some(s) => Some(s@), None => None }) == Err::<TGPUBackend, Seq<char>>(e@),
        },
{
    match name {
        Some(s) => {
            let cs = chars_of(s);
            if is_word(&cs, &vec!['c', 'u', 'd', 'a']) {
                Ok(TGPUBackend::CUDA)
            } else if is_word(&cs, &vec!['o', 'p', 'e', 'n', 'c', 'l']) || is_word(&cs, &vec!['o', 'c', 'l']) {
                Ok(TGPUBackend::OpenCL)
            } else if is_word(&cs, &vec!['c', 'p', 'u']) {
                Ok(TGPUBackend::CPU)
            } else if is_word(&cs, &vec!['a', 'u', 't', 'o']) {
                Ok(select_best_backend())
            } else {
                let mut e = String::from_str("Invalid GPU backend: ");
                e.append(s);
                Err(e)
            }
        },
        None => Ok(select_best_backend()),
    }
}

/// A buffer length from a foreign caller: between 1 and the most the
/// interface accepts.
pub open spec fn buffer_len_ok(len: i32) -> bool {
    0 < len && len <= 4096
}

/// Check the lengths given to `mlp_train`; on success, the two lengths.
pub fn check_train_lengths(input_len: i32, target_len: i32) -> (r: Result<(usize, usize), String>)
    ensures
        match r {
            Ok((i, t)) => buffer_len_ok(input_len) && buffer_len_ok(target_len)
                && i == input_len as usize && t == target_len as usize,
            Err(e) => if input_len <= 0 || target_len <= 0 {
                e@ == "Input and target lengths must be positive"@
            } else {
                (input_len > 4096 || target_len > 4096)
                    && e@ == "Input or target length exceeds maximum"@
            },
        },
{
    if input_len <= 0 || target_len <= 0 {
        return Err(String::from_str("Input and target lengths must be positive"));
    }
    if input_len > 4096 || target_len > 4096 {
        return Err(String::from_str("Input or target length exceeds maximum"));
    }
    Ok((input_len as usize, target_len as usize))
}

/// Check the lengths given to `mlp_predict`; on success, the input length
/// and the capacity of the output buffer.
pub fn check_predict_lengths(input_len: i32, output_capacity: i32) -> (r: Result<(usize, usize), String>)
    ensures
        match r {
            Ok((i, c)) => buffer_len_ok(input_len) && buffer_len_ok(output_capacity)
                && i == input_len as usize && c == output_capacity as usize,
            Err(e) => if input_len <= 0 || output_capacity <= 0 {
                e@ == "Lengths must be positive"@
            } else {
                (input_len > 4096 || output_capacity > 4096) && e@ == "Length exceeds maximum"@
            },
        },
{
    if input_len <= 0 || output_capacity <= 0 {
        return Err(String::from_str("Lengths must be positive"));
    }
    if input_len > 4096 || output_capacity > 4096 {
        return Err(String::from_str("Length exceeds maximum"));
    }
    Ok((input_len as usize, output_capacity as usize))
}

/// Check the lengths given to `mlp_compute_loss`; `None` when either is
/// out of range, or when the target is shorter than the output (the loss
/// reads one target value per output value); the loss is then NaN.
pub fn check_loss_lengths(output_len: i32, target_len: i32) -> (r: Option<(usize, usize)>)
    ensures
        r == if buffer_len_ok(output_len) && buffer_len_ok(target_len) && output_len <= target_len {
            Some((output_len as usize, target_len as usize))
        } else {
            None::<(usize, usize)>
        },
{
    if output_len <= 0 || target_len <= 0 || output_len > 4096 || target_len > 4096 || target_len < output_len {
        None
    } else {
        Some((output_len as usize, target_len as usize))
    }
}

/// How many items are written to a caller's buffer of `capacity` items
/// when `available` items are on offer: as many as fit.
pub fn copy_count(available: usize, capacity: usize) -> (r: usize)
    ensures
        r <= available,
        r <= capacity,
        r == available || r == capacity,
{
    if available < capacity {
        available
    } else {
        capacity
    }
}

/// The names of the available backends joined by commas.
pub open spec fn spec_backend_list(b: Seq<TGPUBackend>) -> Seq<char>
    decreases b.len(),
{
    if b.len() == 0 {
        Seq::empty()
    } else if b.len() == 1 {
        spec_gpu_backend_name(b[0])
    } else {
        spec_backend_list(b.drop_last()) + seq![','] + spec_gpu_backend_name(b.last())
    }
}

/// The names of the available backends joined by commas, as
/// `mlp_available_backends` reports them.
pub fn available_backends_list() -> (r: String)
    ensures
        r@ == spec_backend_list(spec_available_backends()),
{
    let found = detect_available_backends();
    let mut r = String::new();
    let mut i: usize = 0;
    while i < found.len()
        invariant
            i <= found.len(),
            found@ == spec_available_backends(),
            r@ == spec_backend_list(found@.subrange(0, i as int)),
        decreases found.len() - i,
    {
        let ghost pre = found@.subrange(0, i as int);
        let ghost post = found@.subrange(0, i + 1);
        assert(post.drop_last() =~= pre);
        if i > 0 {
            r.append(",");
            proof { reveal_strlit(","); }
        }
        r.append(found[i].to_str());
        assert(r@ =~= spec_backend_list(post));
        i = i + 1;
    }
    assert(found@.subrange(0, found@.len() as int) =~= found@);
    r
}

/// `s` without its NUL characters.
pub open spec fn without_nul(s: Seq<char>) -> Seq<char>
    decreases s.len(),
{
    if s.len() == 0 {
        s
    } else if s.last() == '\0' {
        without_nul(s.drop_last())
    } else {
        without_nul(s.drop_last()).push(s.last())
    }
}

proof fn lemma_without_nul_has_none(s: Seq<char>)
    ensures
        !without_nul(s).contains('\0'),
    decreases s.len(),
{
    if s.len() > 0 {
        lemma_without_nul_has_none(s.drop_last());
        if s.last() != '\0' {
            let p = without_nul(s.drop_last());
            assert forall|i: int| 0 <= i < p.push(s.last()).len() implies p.push(s.last())[i] != '\0' by {
                if i < p.len() {
                    assert(p[i] != '\0');
                }
            }
        }
    }
}

/// An error message made fit for a C string: its NUL characters removed,
/// the rest kept in order.
pub fn sanitize_error_message(msg: &str) -> (r: String)
    ensures
        r@ == without_nul(msg@),
        !r@.contains('\0'),
{
    let cs = chars_of(msg);
    let mut r = String::new();
    let mut i: usize = 0;
    while i < cs.len()
        invariant
            i <= cs.len(),
            cs@ == msg@,
            r@ == without_nul(cs@.subrange(0, i as int)),
        decreases cs.len() - i,
    {
        let ghost post = cs@.subrange(0, i + 1);
        assert(post.drop_last() =~= cs@.subrange(0, i as int));
        let c = cs[i];
        if c != '\0' {
            push_char(&mut r, c);
        }
        i = i + 1;
    }
    assert(cs@.subrange(0, cs@.len() as int) =~= cs@);
    proof { lemma_without_nul_has_none(msg@); }
    r
}

// ---------------------------------------------------------------------
// Laws
// ---------------------------------------------------------------------

/// Reading a code with a default agrees with validating it: an accepted
/// code reads as the value it was accepted as, any other code as the
/// default (the sigmoid, SGD).
pub proof fn law_code_readings_agree(v: i32)
    ensures
        spec_activation_of_code(v) matches Some(a) ==> spec_int_to_activation(v) == a,
        spec_activation_of_code(v) is None ==> spec_int_to_activation(v) == TActivationType::atSigmoid,
        spec_optimizer_of_code(v) matches Some(o) ==> spec_int_to_optimizer(v) == o,
        spec_optimizer_of_code(v) is None ==> spec_int_to_optimizer(v) == TOptimizerType::otSGD,
{
}

/// The status codes are distinct, and only success is non-negative.
pub proof fn law_status_codes(s: JuliaStatus, t: JuliaStatus)
    ensures
        s != t ==> spec_status_code(s) != spec_status_code(t),
        spec_status_code(s) >= 0 <==> s == JuliaStatus::Success,
{
}

/// The arguments that `mlp_create` accepts have positive sizes, between
/// one and the most hidden layers it allows, and activation codes in 0..=3.
pub proof fn law_create_accepts_only_valid(
    input_size: i32,
    hidden_present: bool,
    hidden_count: i32,
    output_size: i32,
    hidden_activation: i32,
    output_activation: i32,
)
    ensures
        spec_create_error(input_size, hidden_present, hidden_count, output_size, hidden_activation,
            output_activation) is None <==> {
            &&& hidden_present
            &&& input_size > 0
            &&& output_size > 0
            &&& 1 <= hidden_count <= MAX_FFI_HIDDEN_LAYERS
            &&& 0 <= hidden_activation <= 3
            &&& 0 <= output_activation <= 3
        },
{
}

} // verus!
