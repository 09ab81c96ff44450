//! Validation of values that arrive from foreign callers, and checked
//! integer arithmetic.

use vstd::prelude::*;
use crate::mlp::{TActivationType, TOptimizerType};

verus! {

/// The longest array a foreign caller may hand over.
pub const MAX_FFI_ARRAY_LEN: usize = 4096;

/// The most hidden layers a foreign caller may ask for.
pub const MAX_FFI_HIDDEN_LAYERS: i32 = 64;

/// A signed value accepted as an index or length: non-negative.
pub fn validate_i32_as_usize(val: i32) -> (r: Option<usize>)
    ensures
        r == if val < 0 { None } else { Some(val as usize) },
{
    if val < 0 {
        None
    } else {
        Some(val as usize)
    }
}

/// A signed value accepted as a count: strictly positive.
pub fn validate_i32_positive(val: i32) -> (r: Option<usize>)
    ensures
        r == if val <= 0 { None } else { Some(val as usize) },
{
    if val <= 0 {
        None
    } else {
        Some(val as usize)
    }
}

/// A signed array length accepted when it is non-negative and at most `max`.
pub fn validate_ffi_len(len: i32, max: usize) -> (r: Option<usize>)
    ensures
        r == if len < 0 || len as usize > max { None } else { Some(len as usize) },
{
    if len < 0 {
        None
    } else if len as usize > max {
        None
    } else {
        Some(len as usize)
    }
}

/// The activation that the code `val` stands for at the C boundary:
/// 0 = sigmoid, 1 = tanh, 2 = ReLU, 3 = softmax.
pub open spec fn spec_activation_of_code(val: i32) -> Option<TActivationType> {
    if val == 0 {
        Some(TActivationType::atSigmoid)
    } else if val == 1 {
        Some(TActivationType::atTanh)
    } else if val == 2 {
        Some(TActivationType::atReLU)
    } else if val == 3 {
        Some(TActivationType::atSoftmax)
    } else {
        None
    }
}

/// The optimizer that the code `val` stands for at the C boundary:
/// 0 = SGD, 1 = Adam, 2 = RMSProp.
pub open spec fn spec_optimizer_of_code(val: i32) -> Option<TOptimizerType> {
    if val == 0 {
        Some(TOptimizerType::otSGD)
    } else if val == 1 {
        Some(TOptimizerType::otAdam)
    } else if val == 2 {
        Some(TOptimizerType::otRMSProp)
    } else {
        None
    }
}

/// The code of an activation at the C boundary.
pub open spec fn spec_activation_code(a: TActivationType) -> i32 {
    match a {
        TActivationType::atSigmoid => 0,
        TActivationType::atTanh => 1,
        TActivationType::atReLU => 2,
        TActivationType::atSoftmax => 3,
    }
}

/// The code of an optimizer at the C boundary.
pub open spec fn spec_optimizer_code(o: TOptimizerType) -> i32 {
    match o {
        TOptimizerType::otSGD => 0,
        TOptimizerType::otAdam => 1,
        TOptimizerType::otRMSProp => 2,
    }
}

/// An activation code accepted from a foreign caller.
pub fn validate_activation_i32(val: i32) -> (r: Option<TActivationType>)
    ensures
        r == spec_activation_of_code(val),
{
    match val {
        0 => Some(TActivationType::atSigmoid),
        1 => Some(TActivationType::atTanh),
        2 => Some(TActivationType::atReLU),
        3 => Some(TActivationType::atSoftmax),
        _ => None,
    }
}

/// An optimizer code accepted from a foreign caller.
pub fn validate_optimizer_i32(val: i32) -> (r: Option<TOptimizerType>)
    ensures
        r == spec_optimizer_of_code(val),
{
    match val {
        0 => Some(TOptimizerType::otSGD),
        1 => Some(TOptimizerType::otAdam),
        2 => Some(TOptimizerType::otRMSProp),
        _ => None,
    }
}

/// The code of an activation at the C boundary.
pub fn activation_code(a: TActivationType) -> (r: i32)
    ensures
        r == spec_activation_code(a),
{
    match a {
        TActivationType::atSigmoid => 0,
        TActivationType::atTanh => 1,
        TActivationType::atReLU => 2,
        TActivationType::atSoftmax => 3,
    }
}

/// The code of an optimizer at the C boundary.
pub fn optimizer_code(o: TOptimizerType) -> (r: i32)
    ensures
        r == spec_optimizer_code(o),
{
    match o {
        TOptimizerType::otSGD => 0,
        TOptimizerType::otAdam => 1,
        TOptimizerType::otRMSProp => 2,
    }
}

/// `a + b`, or `None` when it leaves the range of `i64`.
pub fn safe_add(a: i64, b: i64) -> (r: Option<i64>)
    ensures
        r == if i64::MIN <= a + b <= i64::MAX { Some((a + b) as i64) } else { None::<i64> },
{
    a.checked_add(b)
}

/// `a - b`, or `None` when it leaves the range of `i64`.
pub fn safe_sub(a: i64, b: i64) -> (r: Option<i64>)
    ensures
        r == if i64::MIN <= a - b <= i64::MAX { Some((a - b) as i64) } else { None::<i64> },
{
    a.checked_sub(b)
}

/// `a * b`, or `None` when it leaves the range of `i64`.
pub fn safe_mul(a: i64, b: i64) -> (r: Option<i64>)
    ensures
        r == if i64::MIN <= a * b <= i64::MAX { Some((a * b) as i64) } else { None::<i64> },
{
    a.checked_mul(b)
}

/// The quotient of `a` by `b` rounded toward zero, or `None` when `b` is
/// zero or the quotient leaves the range of `i64` (`i64::MIN / -1`).
pub fn safe_div(a: i64, b: i64) -> (r: Option<i64>)
    ensures
        r == if b == 0 {
            None::<i64>
        } else if i64::MIN <= trunc_div(a as int, b as int) <= i64::MAX {
            Some(trunc_div(a as int, b as int) as i64)
        } else {
            None::<i64>
        },
{
    a.checked_div(b)
}

/// Division rounded toward zero, as Rust's `/` on integers.
pub open spec fn trunc_div(x: int, d: int) -> int {
    if x == 0 {
        0
    } else if x > 0 && d > 0 {
        x / d
    } else if x < 0 && d < 0 {
        (-x) / (-d)
    } else if x < 0 {
        -((-x) / d)
    } else {
        -(x / (-d))
    }
}

/// Privilege levels, from least to most privileged.
#[derive(Clone, Copy, PartialEq, Eq, Debug, Structural)]
pub enum PrivilegeLevel {
    Unprivileged,
    User,
    Elevated,
    Admin,
}

/// The rank of a privilege level, 0 for the least privileged.
pub open spec fn spec_privilege_rank(p: PrivilegeLevel) -> int {
    match p {
        PrivilegeLevel::Unprivileged => 0,
        PrivilegeLevel::User => 1,
        PrivilegeLevel::Elevated => 2,
        PrivilegeLevel::Admin => 3,
    }
}

fn privilege_rank(p: PrivilegeLevel) -> (r: u8)
    ensures
        r == spec_privilege_rank(p),
{
    match p {
        PrivilegeLevel::Unprivileged => 0,
        PrivilegeLevel::User => 1,
        PrivilegeLevel::Elevated => 2,
        PrivilegeLevel::Admin => 3,
    }
}

/// May a holder of `current` act at level `target`?  Only at its own level
/// or below: no transition raises privilege.
pub fn check_privilege_transition(current: PrivilegeLevel, target: PrivilegeLevel) -> (r: bool)
    ensures
        r == (spec_privilege_rank(target) <= spec_privilege_rank(current)),
{
    privilege_rank(target) <= privilege_rank(current)
}

// ---------------------------------------------------------------------
// Laws
// ---------------------------------------------------------------------

/// Every activation and optimizer crosses the C boundary and back as
/// itself: its code is accepted and read as the same value.
pub proof fn law_codes_roundtrip(a: TActivationType, o: TOptimizerType)
    ensures
        spec_activation_of_code(spec_activation_code(a)) == Some(a),
        spec_optimizer_of_code(spec_optimizer_code(o)) == Some(o),
        0 <= spec_activation_code(a) <= 3,
        0 <= spec_optimizer_code(o) <= 2,
{
}

/// The codes accepted from foreign callers are exactly 0..=3 for
/// activations and 0..=2 for optimizers.
pub proof fn law_accepted_codes(v: i32)
    ensures
        spec_activation_of_code(v) is Some <==> 0 <= v <= 3,
        spec_optimizer_of_code(v) is Some <==> 0 <= v <= 2,
{
}

} // verus!
