use glassboxai_mlp::core_types::{
    activation_code, check_privilege_transition, optimizer_code, safe_add, safe_div, safe_mul, safe_sub,
    validate_activation_i32, validate_ffi_len, validate_i32_as_usize, validate_i32_positive,
    validate_optimizer_i32, PrivilegeLevel, MAX_FFI_ARRAY_LEN,
};
use glassboxai_mlp::mlp::{TActivationType, TOptimizerType};

#[test]
fn min_i32_rejected_by_every_validator() {
    assert_eq!(validate_i32_as_usize(i32::MIN), None);
    assert_eq!(validate_i32_positive(i32::MIN), None);
    assert_eq!(validate_ffi_len(i32::MIN, MAX_FFI_ARRAY_LEN), None);
    assert_eq!(validate_ffi_len(-1, MAX_FFI_ARRAY_LEN), None);
}

#[test]
fn ffi_len_edges() {
    assert_eq!(validate_ffi_len(4096, MAX_FFI_ARRAY_LEN), Some(4096));
    assert_eq!(validate_ffi_len(4097, MAX_FFI_ARRAY_LEN), None);
    assert_eq!(validate_ffi_len(0, 0), Some(0));
    assert_eq!(validate_ffi_len(1, 0), None);
}

#[test]
fn activation_codes_map_exactly() {
    assert_eq!(validate_activation_i32(0), Some(TActivationType::atSigmoid));
    assert_eq!(validate_activation_i32(1), Some(TActivationType::atTanh));
    assert_eq!(validate_activation_i32(2), Some(TActivationType::atReLU));
    assert_eq!(validate_activation_i32(3), Some(TActivationType::atSoftmax));
    assert_eq!(validate_activation_i32(i32::MAX), None);
    for a in [TActivationType::atSigmoid, TActivationType::atTanh, TActivationType::atReLU, TActivationType::atSoftmax] {
        assert_eq!(validate_activation_i32(activation_code(a)), Some(a));
    }
}

#[test]
fn optimizer_codes_map_exactly() {
    assert_eq!(validate_optimizer_i32(0), Some(TOptimizerType::otSGD));
    assert_eq!(validate_optimizer_i32(1), Some(TOptimizerType::otAdam));
    assert_eq!(validate_optimizer_i32(2), Some(TOptimizerType::otRMSProp));
    for o in [TOptimizerType::otSGD, TOptimizerType::otAdam, TOptimizerType::otRMSProp] {
        assert_eq!(validate_optimizer_i32(optimizer_code(o)), Some(o));
    }
}

#[test]
fn checked_arithmetic_edges() {
    assert_eq!(safe_add(i64::MIN, -1), None);
    assert_eq!(safe_sub(i64::MIN, 1), None);
    assert_eq!(safe_sub(i64::MAX, -1), None);
    assert_eq!(safe_mul(i64::MAX, 2), None);
    assert_eq!(safe_mul(0, i64::MIN), Some(0));
    assert_eq!(safe_div(i64::MIN, -1), None);
    assert_eq!(safe_div(-7, 2), Some(-3));
    assert_eq!(safe_div(7, -2), Some(-3));
    assert_eq!(safe_div(-7, -2), Some(3));
}

#[test]
fn privilege_never_escalates() {
    let levels = [PrivilegeLevel::Unprivileged, PrivilegeLevel::User, PrivilegeLevel::Elevated, PrivilegeLevel::Admin];
    for (i, a) in levels.iter().enumerate() {
        for (j, b) in levels.iter().enumerate() {
            assert_eq!(check_privilege_transition(*a, *b), j <= i);
        }
    }
}
