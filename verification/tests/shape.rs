use glassboxai_mlp::facade::{
    activation_from_internal, activation_to_internal, available_backends, backend_from_internal,
    backend_to_internal, optimizer_from_internal, optimizer_to_internal, select_best_backend,
};
use glassboxai_mlp::gpu_backend::{detect_available_backends, TGPUBackend};
use glassboxai_mlp::mlp::{LayerRef, NetworkShape, TActivationType, TOptimizerType};
use glassboxai_mlp::types::{ActivationType, BackendType, OptimizerType};

fn shape_2_4_1() -> NetworkShape {
    NetworkShape::new(2, &vec![4], 1, TActivationType::atReLU, TActivationType::atSigmoid).unwrap()
}

#[test]
fn create_shape_like_facade() {
    let sh = NetworkShape::from_usize_sizes(2, &[4], 1, ActivationType::Sigmoid, ActivationType::Sigmoid, BackendType::CPU)
        .unwrap();
    assert_eq!(sh.GetInputSize(), 2);
    assert_eq!(sh.GetOutputSize(), 1);
    assert_eq!(sh.hidden_sizes(), vec![4]);
    assert_eq!(sh.GetNumLayers(), 3);
    assert_eq!(sh.GetHiddenLayerCount(), 1);
}

#[test]
fn creation_errors_in_order() {
    let e = NetworkShape::new(0, &vec![4], 0, TActivationType::atSigmoid, TActivationType::atSigmoid).err().unwrap();
    assert_eq!(e, "Input size must be positive");
    let e = NetworkShape::new(2, &vec![4], 0, TActivationType::atSigmoid, TActivationType::atSigmoid).err().unwrap();
    assert_eq!(e, "Output size must be positive");
    let e = NetworkShape::new(2, &vec![], 1, TActivationType::atSigmoid, TActivationType::atSigmoid).err().unwrap();
    assert_eq!(e, "Must have at least one hidden layer");
    let e = NetworkShape::new(2, &vec![4, 0, 3], 1, TActivationType::atSigmoid, TActivationType::atSigmoid).err().unwrap();
    assert_eq!(e, "Hidden layer sizes must be positive");
    let e = NetworkShape::new(2, &vec![-3], 1, TActivationType::atSigmoid, TActivationType::atSigmoid).err().unwrap();
    assert_eq!(e, "Hidden layer sizes must be positive");
}

#[test]
fn usize_sizes_too_large_are_refused() {
    assert!(NetworkShape::from_usize_sizes(0, &[4], 2, ActivationType::Sigmoid, ActivationType::Sigmoid, BackendType::CPU).is_err());
    assert!(NetworkShape::from_usize_sizes(2, &[4], 0, ActivationType::Sigmoid, ActivationType::Sigmoid, BackendType::CPU).is_err());
    assert!(NetworkShape::from_usize_sizes(2, &[0], 2, ActivationType::Sigmoid, ActivationType::Sigmoid, BackendType::CPU).is_err());
    let e = NetworkShape::from_usize_sizes(1usize << 31, &[4], 2, ActivationType::Sigmoid, ActivationType::Sigmoid, BackendType::CPU)
        .err().unwrap();
    assert_eq!(e, "Layer sizes must not exceed 2147483647");
    let e = NetworkShape::from_usize_sizes(2, &[4, (1usize << 32) + 3], 2, ActivationType::Sigmoid, ActivationType::Sigmoid, BackendType::CPU)
        .err().unwrap();
    assert_eq!(e, "Layer sizes must not exceed 2147483647");
    let e = NetworkShape::from_usize_sizes((1usize << 32) + 2, &[4], 1, ActivationType::Sigmoid, ActivationType::Sigmoid, BackendType::CPU)
        .err().unwrap();
    assert_eq!(e, "Layer sizes must not exceed 2147483647");
    let sh = NetworkShape::from_usize_sizes(2147483647, &[2147483647], 2147483647, ActivationType::Sigmoid, ActivationType::Sigmoid, BackendType::CPU)
        .unwrap();
    assert_eq!(sh.GetInputSize(), 2147483647);
    assert_eq!(sh.hidden_sizes(), vec![2147483647]);
}

#[test]
fn layer_sizes() {
    let sh = NetworkShape::new(3, &vec![5, 7], 2, TActivationType::atTanh, TActivationType::atSoftmax).unwrap();
    assert_eq!(sh.GetLayerSize(0), 3);
    assert_eq!(sh.GetLayerSize(1), 5);
    assert_eq!(sh.GetLayerSize(2), 7);
    assert_eq!(sh.GetLayerSize(3), 2);
    assert_eq!(sh.GetLayerSize(4), 0);
    assert_eq!(sh.GetLayerSize(usize::MAX), 0);
    assert_eq!(sh.GetHiddenSizes(), &vec![5, 7]);
}

#[test]
fn layer_activations() {
    let mut sh = NetworkShape::new(3, &vec![5, 7], 2, TActivationType::atTanh, TActivationType::atSoftmax).unwrap();
    assert_eq!(sh.GetLayerActivation(0), TActivationType::atSigmoid);
    assert_eq!(sh.GetLayerActivation(1), TActivationType::atTanh);
    assert_eq!(sh.GetLayerActivation(2), TActivationType::atTanh);
    assert_eq!(sh.GetLayerActivation(3), TActivationType::atSoftmax);
    assert_eq!(sh.GetLayerActivation(99), TActivationType::atSoftmax);
    assert_eq!(sh.GetLayerActivation(-1), TActivationType::atSoftmax);
    sh.SetLayerActivation(2, TActivationType::atReLU);
    assert_eq!(sh.GetLayerActivation(2), TActivationType::atReLU);
    assert_eq!(sh.GetLayerActivation(1), TActivationType::atTanh);
    sh.SetLayerActivation(3, TActivationType::atSigmoid);
    assert_eq!(sh.GetLayerActivation(3), TActivationType::atSigmoid);
    sh.SetLayerActivation(0, TActivationType::atTanh);
    assert_eq!(sh.GetLayerActivation(0), TActivationType::atTanh);
    sh.SetLayerActivation(7, TActivationType::atReLU);
    sh.SetLayerActivation(-2, TActivationType::atReLU);
    assert_eq!(sh.GetLayerActivation(3), TActivationType::atSigmoid);
    assert_eq!(sh.GetLayerSize(2), 7);
}

#[test]
fn neuron_addressing() {
    let sh = NetworkShape::new(3, &vec![5, 7], 2, TActivationType::atTanh, TActivationType::atSoftmax).unwrap();
    assert_eq!(sh.hidden_neuron(1, 0), Some((0, 0)));
    assert_eq!(sh.hidden_neuron(2, 6), Some((1, 6)));
    assert_eq!(sh.hidden_neuron(2, 7), None);
    assert_eq!(sh.hidden_neuron(0, 0), None);
    assert_eq!(sh.hidden_neuron(3, 0), None);
    assert_eq!(sh.hidden_neuron(1, -1), None);
    assert_eq!(sh.weight_slot(1, 4, 2, 3), Some((0, 4, 2)));
    assert_eq!(sh.weight_slot(1, 4, 3, 3), None);
    assert_eq!(sh.weight_slot(1, 4, -1, 3), None);
    assert_eq!(sh.output_layer(0), Some(LayerRef::Input));
    assert_eq!(sh.output_layer(2), Some(LayerRef::Hidden(1)));
    assert_eq!(sh.output_layer(3), Some(LayerRef::Output));
    assert_eq!(sh.output_layer(4), None);
    assert_eq!(sh.output_layer(-1), None);
    assert_eq!(sh.error_layer(0), None);
    assert_eq!(sh.error_layer(1), Some(LayerRef::Hidden(0)));
    assert_eq!(sh.error_layer(3), Some(LayerRef::Output));
}

#[test]
fn layer_info_of_shape() {
    let sh = shape_2_4_1();
    let info = sh.layer_info(1);
    assert_eq!(info.index, 1);
    assert_eq!(info.size, 4);
    assert_eq!(info.activation, ActivationType::ReLU);
    assert_eq!(info.weights_per_neuron, 2);
    let input = sh.layer_info(0);
    assert_eq!(input.size, 2);
    assert_eq!(input.weights_per_neuron, 0);
    let out = sh.layer_info(2);
    assert_eq!(out.size, 1);
    assert_eq!(out.weights_per_neuron, 4);
    let past = sh.layer_info(5);
    assert_eq!(past.size, 0);
    assert_eq!(past.weights_per_neuron, 0);
}

#[test]
fn backends_of_this_build() {
    let mut sh = shape_2_4_1();
    assert_eq!(sh.get_backend(), TGPUBackend::CPU);
    assert_eq!(sh.set_backend(TGPUBackend::CUDA).err().unwrap(), "CUDA support not compiled");
    assert_eq!(sh.set_backend(TGPUBackend::OpenCL).err().unwrap(), "OpenCL support not compiled");
    assert!(sh.set_backend(TGPUBackend::CPU).is_ok());
    assert_eq!(sh.get_backend(), TGPUBackend::CPU);
    let asked = NetworkShape::new_with_backend(2, &vec![4], 1, TActivationType::atSigmoid,
        TActivationType::atSigmoid, TGPUBackend::CUDA).unwrap();
    assert_eq!(asked.get_backend(), TGPUBackend::CPU);
    assert_eq!(detect_available_backends(), vec![TGPUBackend::CPU]);
    assert_eq!(available_backends(), vec![BackendType::CPU]);
    assert_eq!(select_best_backend(), BackendType::CPU);
    assert_eq!(glassboxai_mlp::gpu_backend::select_best_backend(), TGPUBackend::CPU);
}

#[test]
fn conversions_roundtrip() {
    for a in [ActivationType::Sigmoid, ActivationType::Tanh, ActivationType::ReLU, ActivationType::Softmax] {
        assert_eq!(activation_from_internal(activation_to_internal(a)), a);
    }
    for o in [OptimizerType::SGD, OptimizerType::Adam, OptimizerType::RMSProp] {
        assert_eq!(optimizer_from_internal(optimizer_to_internal(o)), o);
    }
    for b in [BackendType::CPU, BackendType::CUDA, BackendType::OpenCL] {
        assert_eq!(backend_from_internal(backend_to_internal(b)), b);
    }
    assert_eq!(activation_to_internal(ActivationType::Tanh), TActivationType::atTanh);
    assert_eq!(optimizer_to_internal(OptimizerType::RMSProp), TOptimizerType::otRMSProp);
    assert_eq!(backend_to_internal(BackendType::OpenCL), TGPUBackend::OpenCL);
}

#[test]
fn sample_size_checks() {
    let sh = NetworkShape::new(2, &vec![4], 3, TActivationType::atReLU, TActivationType::atSigmoid).unwrap();
    assert_eq!(sh.check_input_len(2), Ok(()));
    assert_eq!(sh.check_input_len(3), Err("Input size mismatch: expected 2, got 3".to_string()));
    assert_eq!(sh.check_input_len(0), Err("Input size mismatch: expected 2, got 0".to_string()));
    assert_eq!(sh.check_target_len(3), Ok(()));
    assert_eq!(sh.check_target_len(12), Err("Target size mismatch: expected 3, got 12".to_string()));
    let big = NetworkShape::new(1234, &vec![4], 1, TActivationType::atReLU, TActivationType::atSigmoid).unwrap();
    assert_eq!(big.check_input_len(1000), Err("Input size mismatch: expected 1234, got 1000".to_string()));
}

#[test]
fn fan_in_of_layers() {
    let sh = NetworkShape::new(3, &vec![5, 7], 2, TActivationType::atTanh, TActivationType::atSoftmax).unwrap();
    assert_eq!(sh.fan_in(0), 0);
    assert_eq!(sh.fan_in(1), 3);
    assert_eq!(sh.fan_in(2), 5);
    assert_eq!(sh.fan_in(3), 7);
    assert_eq!(sh.fan_in(4), 2);
    assert_eq!(sh.fan_in(5), 0);
    assert_eq!(sh.layer_info(3).weights_per_neuron, 7);
}

#[test]
fn neuron_reads_reach_the_output_layer() {
    let sh = NetworkShape::new(3, &vec![5, 7], 2, TActivationType::atTanh, TActivationType::atSoftmax).unwrap();
    assert_eq!(sh.neuron_ref(1, 4), Some((LayerRef::Hidden(0), 4)));
    assert_eq!(sh.neuron_ref(2, 6), Some((LayerRef::Hidden(1), 6)));
    assert_eq!(sh.neuron_ref(3, 0), Some((LayerRef::Output, 0)));
    assert_eq!(sh.neuron_ref(3, 1), Some((LayerRef::Output, 1)));
    assert_eq!(sh.neuron_ref(3, 2), None);
    assert_eq!(sh.neuron_ref(0, 0), None);
    assert_eq!(sh.neuron_ref(4, 0), None);
    assert_eq!(sh.neuron_ref(-1, 0), None);
    assert_eq!(sh.neuron_ref(3, -1), None);
    assert_eq!(sh.read_weight_slot(3, 1, 6, 7), Some((LayerRef::Output, 1, 6)));
    assert_eq!(sh.read_weight_slot(3, 1, 7, 7), None);
    assert_eq!(sh.read_weight_slot(1, 0, 2, 3), Some((LayerRef::Hidden(0), 0, 2)));
    // writes stay with the hidden layers
    assert_eq!(sh.hidden_neuron(3, 0), None);
}
