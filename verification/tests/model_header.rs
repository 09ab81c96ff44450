use glassboxai_mlp::gpu_backend::TGPUBackend;
use glassboxai_mlp::julia::sanitize_error_message;
use glassboxai_mlp::mlp::{
    decode_model_header, encode_model_header, ModelHeader, NetworkShape, ShuffleData, TActivationType,
    TOptimizerType, MODEL_MAGIC, MODEL_VERSION,
};
use glassboxai_mlp::training::TrainingState;

fn header(magic: &str, hidden: Vec<i32>, hact: i32, oact: i32, opt: i32, backend: &str) -> ModelHeader {
    let n = hidden.len();
    let mut codes = vec![0];
    codes.extend(std::iter::repeat(hact).take(n));
    codes.push(oact);
    ModelHeader {
        magic: magic.to_string(),
        version: "1.0".to_string(),
        input_size: 3,
        output_size: 2,
        hidden_sizes: hidden,
        optimizer: opt,
        hidden_activation: hact,
        output_activation: oact,
        layer_activations: codes,
        timestep: 0,
        use_batch_norm: false,
        gpu_backend: backend.to_string(),
    }
}

#[test]
fn saved_header_reads_back() {
    let sh = NetworkShape::new(3, &vec![5, 7], 2, TActivationType::atTanh, TActivationType::atSoftmax).unwrap();
    let mut t = TrainingState::new();
    t.set_optimizer(TOptimizerType::otRMSProp);
    t.SetTimestep(42);
    t.set_batch_norm(true);
    let h = encode_model_header(&sh, &t);
    assert_eq!(h.magic, MODEL_MAGIC);
    assert_eq!(h.version, MODEL_VERSION);
    assert_eq!(h.version, "1.0");
    assert_eq!(h.hidden_activation, 1);
    assert_eq!(h.output_activation, 3);
    assert_eq!(h.layer_activations, vec![0, 1, 1, 3]);
    assert_eq!(h.optimizer, 2);
    assert_eq!(h.timestep, 42);
    assert!(h.use_batch_norm);
    assert_eq!(h.gpu_backend, "cpu");
    let d = decode_model_header(&h).ok().unwrap();
    assert_eq!(d.training.optimizer(), TOptimizerType::otRMSProp);
    assert_eq!(d.training.timestep(), 42);
    assert!(d.training.batch_norm());
    assert_eq!(d.shape.GetInputSize(), 3);
    assert_eq!(d.shape.GetOutputSize(), 2);
    assert_eq!(d.shape.GetHiddenSizes(), &vec![5, 7]);
    for l in 0..4 {
        assert_eq!(d.shape.GetLayerActivation(l), sh.GetLayerActivation(l));
    }
}

#[test]
fn per_layer_activations_survive_saving() {
    let mut sh = NetworkShape::new(2, &vec![3, 3], 1, TActivationType::atSigmoid, TActivationType::atSigmoid).unwrap();
    sh.SetLayerActivation(1, TActivationType::atReLU);
    sh.SetLayerActivation(0, TActivationType::atTanh);
    let h = encode_model_header(&sh, &TrainingState::new());
    assert_eq!(h.layer_activations, vec![1, 2, 0, 0]);
    let d = decode_model_header(&h).ok().unwrap();
    assert_eq!(d.shape.GetLayerActivation(0), TActivationType::atTanh);
    assert_eq!(d.shape.GetLayerActivation(1), TActivationType::atReLU);
    assert_eq!(d.shape.GetLayerActivation(2), TActivationType::atSigmoid);
    assert_eq!(d.shape.GetLayerActivation(3), TActivationType::atSigmoid);
}

#[test]
fn decoding_refuses_bad_headers() {
    let e = decode_model_header(&header("MLPCUDA2", vec![4], 0, 0, 0, "cpu")).err().unwrap();
    assert_eq!(e, "Invalid model file magic: MLPCUDA2");
    let e = decode_model_header(&header("MLPCUDA1", vec![4, 0], 0, 0, 0, "cpu")).err().unwrap();
    assert_eq!(e, "Hidden layer sizes must be positive");
    let e = decode_model_header(&header("MLPCUDA1", vec![], 0, 0, 0, "cpu")).err().unwrap();
    assert_eq!(e, "Must have at least one hidden layer");
    let mut h = header("MLPCUDA1", vec![4], 0, 0, 0, "cpu");
    h.layer_activations.pop();
    let e = decode_model_header(&h).err().unwrap();
    assert_eq!(e, "Invalid model file: one activation per layer expected");
}

#[test]
fn decoding_defaults_unknown_codes() {
    let d = decode_model_header(&header("MLPCUDA1", vec![4], 7, -1, 9, "cuda")).ok().unwrap();
    assert_eq!(d.training.optimizer(), TOptimizerType::otSGD);
    assert_eq!(d.shape.GetLayerActivation(1), TActivationType::atSigmoid);
    assert_eq!(d.shape.GetLayerActivation(2), TActivationType::atSigmoid);
    assert_eq!(d.shape.get_backend(), TGPUBackend::CPU);
    let d = decode_model_header(&header("MLPCUDA1", vec![4], 2, 3, 1, "cpu")).ok().unwrap();
    assert_eq!(d.training.optimizer(), TOptimizerType::otAdam);
    assert_eq!(d.shape.GetLayerActivation(1), TActivationType::atReLU);
    assert_eq!(d.shape.GetLayerActivation(2), TActivationType::atSoftmax);
}

#[test]
fn saved_layer_data_checks() {
    let sh = NetworkShape::new(3, &vec![5, 7], 2, TActivationType::atTanh, TActivationType::atSoftmax).unwrap();
    assert!(sh.saved_layers_fit(&vec![3, 5, 7, 2]));
    assert!(!sh.saved_layers_fit(&vec![3, 5, 7]));
    assert!(!sh.saved_layers_fit(&vec![3, 5, 6, 2]));
    assert!(sh.saved_neuron_fits(0, 0, 0, 0));
    assert!(sh.saved_neuron_fits(2, 5, 5, 5));
    assert!(sh.saved_neuron_fits(3, 7, 0, 0));
    assert!(!sh.saved_neuron_fits(3, 6, 0, 0));
    assert!(!sh.saved_neuron_fits(1, 3, 2, 3));
}

#[test]
fn error_messages_lose_nul() {
    assert_eq!(sanitize_error_message("error\0message"), "errormessage");
    assert_eq!(sanitize_error_message("\0"), "");
    assert_eq!(sanitize_error_message("normal error"), "normal error");
    assert!(!sanitize_error_message("a\0b\0\0c").contains('\0'));
}

#[test]
fn shuffle_changes_order() {
    let original: Vec<u32> = (0..200).collect();
    // the identity is a possible outcome of one shuffle; a few tries make
    // seeing it every time vanishingly unlikely
    let mut moved = false;
    for _ in 0..5 {
        let mut v = original.clone();
        ShuffleData(&mut v);
        let mut sorted = v.clone();
        sorted.sort();
        assert_eq!(sorted, original);
        if v != original {
            moved = true;
            break;
        }
    }
    assert!(moved);
}
