use glassboxai_mlp::core_types::{
    check_privilege_transition, safe_add, safe_div, safe_mul, safe_sub, validate_activation_i32,
    validate_ffi_len, validate_i32_as_usize, validate_i32_positive, validate_optimizer_i32, PrivilegeLevel,
};

#[test]
fn test_validate_i32_as_usize() {
    assert_eq!(validate_i32_as_usize(-1), None);
    assert_eq!(validate_i32_as_usize(0), Some(0));
    assert_eq!(validate_i32_as_usize(1), Some(1));
    assert_eq!(validate_i32_as_usize(i32::MIN), None);
    assert_eq!(validate_i32_as_usize(i32::MAX), Some(i32::MAX as usize));
}

#[test]
fn test_validate_i32_positive() {
    assert_eq!(validate_i32_positive(-1), None);
    assert_eq!(validate_i32_positive(0), None);
    assert_eq!(validate_i32_positive(1), Some(1));
}

#[test]
fn test_validate_ffi_len() {
    assert_eq!(validate_ffi_len(-1, 100), None);
    assert_eq!(validate_ffi_len(0, 100), Some(0));
    assert_eq!(validate_ffi_len(50, 100), Some(50));
    assert_eq!(validate_ffi_len(101, 100), None);
}

#[test]
fn test_validate_activation_i32() {
    assert!(validate_activation_i32(0).is_some());
    assert!(validate_activation_i32(3).is_some());
    assert!(validate_activation_i32(4).is_none());
    assert!(validate_activation_i32(-1).is_none());
}

#[test]
fn test_validate_optimizer_i32() {
    assert!(validate_optimizer_i32(0).is_some());
    assert!(validate_optimizer_i32(2).is_some());
    assert!(validate_optimizer_i32(3).is_none());
    assert!(validate_optimizer_i32(-1).is_none());
}

#[test]
fn test_safe_arithmetic() {
    assert_eq!(safe_add(1, 2), Some(3));
    assert_eq!(safe_add(i64::MAX, 1), None);
    assert_eq!(safe_sub(5, 3), Some(2));
    assert_eq!(safe_mul(10, 10), Some(100));
    assert_eq!(safe_div(10, 2), Some(5));
    assert_eq!(safe_div(10, 0), None);
}

#[test]
fn test_privilege_transitions() {
    assert!(check_privilege_transition(PrivilegeLevel::Admin, PrivilegeLevel::User));
    assert!(!check_privilege_transition(PrivilegeLevel::User, PrivilegeLevel::Admin));
    assert!(!check_privilege_transition(PrivilegeLevel::Unprivileged, PrivilegeLevel::Elevated));
}
