use glassboxai_mlp::gpu_backend::TGPUBackend;
use glassboxai_mlp::julia::{
    available_backends_list, check_create_args, check_loss_lengths, check_predict_lengths,
    check_train_lengths, copy_count, create_backend, int_to_activation, int_to_optimizer, JuliaStatus,
    backend_option, set_optimizer_code,
};
use glassboxai_mlp::mlp::{ShuffleData, TActivationType, TOptimizerType};
use glassboxai_mlp::training::TrainingState;

#[test]
fn status_codes() {
    assert_eq!(JuliaStatus::Success.code(), 0);
    assert_eq!(JuliaStatus::InvalidArg.code(), -1);
    assert_eq!(JuliaStatus::RuntimeError.code(), -2);
    assert_eq!(JuliaStatus::IoError.code(), -3);
}

#[test]
fn codes_with_defaults() {
    assert_eq!(int_to_activation(2), TActivationType::atReLU);
    assert_eq!(int_to_activation(3), TActivationType::atSoftmax);
    assert_eq!(int_to_activation(9), TActivationType::atSigmoid);
    assert_eq!(int_to_activation(-1), TActivationType::atSigmoid);
    assert_eq!(int_to_optimizer(1), TOptimizerType::otAdam);
    assert_eq!(int_to_optimizer(5), TOptimizerType::otSGD);
}

#[test]
fn create_argument_checks() {
    assert_eq!(check_create_args(2, true, 1, 1, 0, 0), Ok((1, TActivationType::atSigmoid, TActivationType::atSigmoid)));
    assert_eq!(check_create_args(2, false, 1, 1, 0, 0).err().unwrap(), "Invalid hidden layer configuration");
    assert_eq!(check_create_args(2, true, 0, 1, 0, 0).err().unwrap(), "Invalid hidden layer configuration");
    assert_eq!(check_create_args(0, true, 1, 1, 0, 0).err().unwrap(), "Input and output sizes must be positive");
    assert_eq!(check_create_args(2, true, 1, -1, 0, 0).err().unwrap(), "Input and output sizes must be positive");
    assert_eq!(check_create_args(2, true, 65, 1, 0, 0).err().unwrap(), "Too many hidden layers");
    assert_eq!(check_create_args(2, true, 64, 1, 0, 0), Ok((64, TActivationType::atSigmoid, TActivationType::atSigmoid)));
    // the hidden configuration is checked first
    assert_eq!(check_create_args(0, true, -1, 0, 0, 0).err().unwrap(), "Invalid hidden layer configuration");
}

#[test]
fn create_backend_names_are_exact() {
    assert_eq!(create_backend(Some("cuda")), TGPUBackend::CUDA);
    assert_eq!(create_backend(Some("ocl")), TGPUBackend::OpenCL);
    assert_eq!(create_backend(Some("opencl")), TGPUBackend::OpenCL);
    assert_eq!(create_backend(Some("cpu")), TGPUBackend::CPU);
    assert_eq!(create_backend(Some("CUDA")), TGPUBackend::CPU);
    assert_eq!(create_backend(Some("auto")), TGPUBackend::CPU);
    assert_eq!(create_backend(None), TGPUBackend::CPU);
}

#[test]
fn length_checks() {
    assert_eq!(check_train_lengths(2, 1), Ok((2, 1)));
    assert_eq!(check_train_lengths(0, 1).err().unwrap(), "Input and target lengths must be positive");
    assert_eq!(check_train_lengths(4097, 1).err().unwrap(), "Input or target length exceeds maximum");
    assert_eq!(check_predict_lengths(4096, 4096), Ok((4096, 4096)));
    assert_eq!(check_predict_lengths(3, -1).err().unwrap(), "Lengths must be positive");
    assert_eq!(check_predict_lengths(3, 5000).err().unwrap(), "Length exceeds maximum");
    assert_eq!(check_loss_lengths(3, 3), Some((3, 3)));
    assert_eq!(check_loss_lengths(0, 3), None);
    assert_eq!(check_loss_lengths(3, 4097), None);
    assert_eq!(check_loss_lengths(2, 1), None);
    assert_eq!(check_loss_lengths(1, 2), Some((1, 2)));
}

#[test]
fn copy_counts() {
    assert_eq!(copy_count(10, 4), 4);
    assert_eq!(copy_count(3, 64), 3);
    assert_eq!(copy_count(0, 64), 0);
}

#[test]
fn backend_list_text() {
    assert_eq!(available_backends_list(), "cpu");
}

#[test]
fn shuffle_keeps_items() {
    let mut v: Vec<u32> = (0..100).collect();
    ShuffleData(&mut v);
    assert_eq!(v.len(), 100);
    let mut sorted = v.clone();
    sorted.sort();
    assert_eq!(sorted, (0..100).collect::<Vec<u32>>());
}

#[test]
fn create_refuses_activation_codes_out_of_range() {
    assert_eq!(
        check_create_args(2, true, 1, 1, 2, 3),
        Ok((1, TActivationType::atReLU, TActivationType::atSoftmax))
    );
    assert_eq!(check_create_args(2, true, 1, 1, 4, 0).err().unwrap(), "Invalid activation code");
    assert_eq!(check_create_args(2, true, 1, 1, 0, -1).err().unwrap(), "Invalid activation code");
    assert_eq!(check_create_args(2, true, 1, 1, i32::MIN, i32::MAX).err().unwrap(), "Invalid activation code");
    // the size checks come first
    assert_eq!(check_create_args(2, true, 65, 1, 4, 0).err().unwrap(), "Too many hidden layers");
}

#[test]
fn optimizer_codes_from_callers_are_checked() {
    let mut t = TrainingState::new();
    t.set_optimizer(TOptimizerType::otAdam);
    assert!(set_optimizer_code(&mut t, 2));
    assert_eq!(t.optimizer(), TOptimizerType::otRMSProp);
    assert!(!set_optimizer_code(&mut t, 3));
    assert_eq!(t.optimizer(), TOptimizerType::otRMSProp);
    assert!(!set_optimizer_code(&mut t, -1));
    assert_eq!(t.optimizer(), TOptimizerType::otRMSProp);
    assert!(set_optimizer_code(&mut t, 0));
    assert_eq!(t.optimizer(), TOptimizerType::otSGD);
}

#[test]
fn backend_option_names() {
    assert_eq!(backend_option(Some("cuda")), Ok(TGPUBackend::CUDA));
    assert_eq!(backend_option(Some("ocl")), Ok(TGPUBackend::OpenCL));
    assert_eq!(backend_option(Some("opencl")), Ok(TGPUBackend::OpenCL));
    assert_eq!(backend_option(Some("cpu")), Ok(TGPUBackend::CPU));
    assert_eq!(backend_option(Some("auto")), Ok(TGPUBackend::CPU));
    assert_eq!(backend_option(None), Ok(TGPUBackend::CPU));
    assert_eq!(backend_option(Some("gpu")), Err("Invalid GPU backend: gpu".to_string()));
    assert_eq!(backend_option(Some("CUDA")), Err("Invalid GPU backend: CUDA".to_string()));
}
