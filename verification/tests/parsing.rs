use glassboxai_mlp::gpu_backend::TGPUBackend;
use glassboxai_mlp::mlp::{
    ActivationToStr, OptimizerToStr, ParseActivation, ParseIntArray, ParseOptimizer, TActivationType,
    TOptimizerType,
};
use glassboxai_mlp::types::{ActivationType, BackendType, OptimizerType};

#[test]
fn activation_names_case_insensitive() {
    assert_eq!(ActivationType::from_str("ReLU"), ActivationType::ReLU);
    assert_eq!(ActivationType::from_str("TANH"), ActivationType::Tanh);
    assert_eq!(ActivationType::from_str("softMax"), ActivationType::Softmax);
    assert_eq!(ActivationType::from_str("sigmoid"), ActivationType::Sigmoid);
    assert_eq!(ActivationType::from_str("bogus"), ActivationType::Sigmoid);
    assert_eq!(ActivationType::from_str(""), ActivationType::Sigmoid);
    assert_eq!(ActivationType::from_str(" relu"), ActivationType::Sigmoid);
    assert_eq!(ParseActivation("RELU"), TActivationType::atReLU);
    assert_eq!(ParseActivation("unknown"), TActivationType::atSigmoid);
}

#[test]
fn optimizer_names_case_insensitive() {
    assert_eq!(OptimizerType::from_str("ADAM"), OptimizerType::Adam);
    assert_eq!(OptimizerType::from_str("RmsProp"), OptimizerType::RMSProp);
    assert_eq!(OptimizerType::from_str("sgd"), OptimizerType::SGD);
    assert_eq!(OptimizerType::from_str("nadam"), OptimizerType::SGD);
    assert_eq!(ParseOptimizer("Adam"), TOptimizerType::otAdam);
    assert_eq!(ParseOptimizer(""), TOptimizerType::otSGD);
}

#[test]
fn backend_names() {
    assert_eq!(BackendType::from_str("CUDA"), BackendType::CUDA);
    assert_eq!(BackendType::from_str("ocl"), BackendType::OpenCL);
    assert_eq!(BackendType::from_str("OpenCL"), BackendType::OpenCL);
    assert_eq!(BackendType::from_str("gpu"), BackendType::CPU);
    assert_eq!(TGPUBackend::from_str("Cuda"), TGPUBackend::CUDA);
    assert_eq!(TGPUBackend::from_str("OCL"), TGPUBackend::OpenCL);
    assert_eq!(TGPUBackend::from_str("anything"), TGPUBackend::CPU);
}

#[test]
fn names_and_roundtrip() {
    assert_eq!(ActivationType::ReLU.name(), "relu");
    assert_eq!(OptimizerType::RMSProp.name(), "rmsprop");
    assert_eq!(BackendType::OpenCL.name(), "opencl");
    assert_eq!(TGPUBackend::CUDA.to_str(), "cuda");
    assert_eq!(ActivationToStr(TActivationType::atSoftmax), "softmax");
    assert_eq!(OptimizerToStr(TOptimizerType::otAdam), "adam");
    for a in [ActivationType::Sigmoid, ActivationType::Tanh, ActivationType::ReLU, ActivationType::Softmax] {
        assert_eq!(ActivationType::from_str(a.name()), a);
    }
    for o in [OptimizerType::SGD, OptimizerType::Adam, OptimizerType::RMSProp] {
        assert_eq!(OptimizerType::from_str(o.name()), o);
    }
    for b in [BackendType::CPU, BackendType::CUDA, BackendType::OpenCL] {
        assert_eq!(BackendType::from_str(b.name()), b);
    }
    for b in [TGPUBackend::CPU, TGPUBackend::CUDA, TGPUBackend::OpenCL] {
        assert_eq!(TGPUBackend::from_str(b.to_str()), b);
    }
    for a in [TActivationType::atSigmoid, TActivationType::atTanh, TActivationType::atReLU, TActivationType::atSoftmax] {
        assert_eq!(ParseActivation(ActivationToStr(a)), a);
    }
    for o in [TOptimizerType::otSGD, TOptimizerType::otAdam, TOptimizerType::otRMSProp] {
        assert_eq!(ParseOptimizer(OptimizerToStr(o)), o);
    }
}

#[test]
fn defaults() {
    assert_eq!(ActivationType::default(), ActivationType::Sigmoid);
    assert_eq!(OptimizerType::default(), OptimizerType::Adam);
    assert_eq!(BackendType::default(), BackendType::CPU);
}

#[test]
fn int_array_basic() {
    assert_eq!(ParseIntArray("8,4,2"), vec![8, 4, 2]);
    assert_eq!(ParseIntArray(" 16 , 8 "), vec![16, 8]);
    assert_eq!(ParseIntArray(""), Vec::<i32>::new());
    assert_eq!(ParseIntArray("5"), vec![5]);
}

#[test]
fn int_array_skips_bad_pieces() {
    assert_eq!(ParseIntArray("1,,2"), vec![1, 2]);
    assert_eq!(ParseIntArray("1,x,3"), vec![1, 3]);
    assert_eq!(ParseIntArray("1.5,2"), vec![2]);
    assert_eq!(ParseIntArray("+,-,3"), vec![3]);
    assert_eq!(ParseIntArray("1 2,3"), vec![3]);
    assert_eq!(ParseIntArray(",,,"), Vec::<i32>::new());
}

#[test]
fn int_array_signs_and_limits() {
    assert_eq!(ParseIntArray("-7,+7,-0"), vec![-7, 7, 0]);
    assert_eq!(ParseIntArray("2147483647,-2147483648"), vec![i32::MAX, i32::MIN]);
    assert_eq!(ParseIntArray("2147483648,-2147483649,3"), vec![3]);
    assert_eq!(ParseIntArray("99999999999999999999,1"), vec![1]);
    assert_eq!(ParseIntArray("000000000000000000042"), vec![42]);
    assert_eq!(ParseIntArray("--1,+-1"), Vec::<i32>::new());
}

#[test]
fn int_array_unicode_whitespace() {
    assert_eq!(ParseIntArray("\t1\n,\u{a0}2\u{3000}"), vec![1, 2]);
    assert_eq!(ParseIntArray("\u{2003}3\u{2028}"), vec![3]);
    // a non-whitespace character around a number spoils the piece
    assert_eq!(ParseIntArray("\u{200b}4"), Vec::<i32>::new());
}

#[test]
fn int_array_matches_std() {
    let cases = ["1,2,3", " -5 ,x, 7 ", "a,,b", "12,\u{85}13\u{85}", "+0,-0,0", "3000000000"];
    for c in cases {
        let expected: Vec<i32> = c.split(',').filter_map(|s| s.trim().parse().ok()).collect();
        assert_eq!(ParseIntArray(c), expected, "case {:?}", c);
    }
}

#[test]
fn int_array_join_law() {
    let a = "1, 2";
    let b = "x,3";
    let joined = format!("{},{}", a, b);
    let mut expected = ParseIntArray(a);
    expected.extend(ParseIntArray(b));
    assert_eq!(ParseIntArray(&joined), expected);
}
