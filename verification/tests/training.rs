use glassboxai_mlp::facade::training_for_config;
use glassboxai_mlp::julia::set_optimizer_code;
use glassboxai_mlp::mlp::{NetworkShape, TActivationType, TOptimizerType};
use glassboxai_mlp::training::TrainingState;
use glassboxai_mlp::types::OptimizerType;

#[test]
fn new_training_state_defaults() {
    let t = TrainingState::new();
    assert_eq!(t.timestep(), 0);
    assert_eq!(t.optimizer(), TOptimizerType::otSGD);
    assert!(!t.batch_norm());
    assert!(!t.lr_decay());
    assert_eq!(t.lr_decay_epochs(), 10);
    assert!(!t.early_stopping());
    assert_eq!(t.early_stopping_patience(), 10);
}

#[test]
fn training_steps_count_only_fitting_samples() {
    let sh = NetworkShape::new(2, &vec![4], 1, TActivationType::atReLU, TActivationType::atSigmoid).unwrap();
    let mut t = TrainingState::new();
    t.set_optimizer(TOptimizerType::otAdam);
    assert_eq!(t.train_step(&sh, 2, 1), Ok(()));
    assert_eq!(t.timestep(), 1);
    assert_eq!(t.train_step(&sh, 3, 1), Err("Input size mismatch: expected 2, got 3".to_string()));
    assert_eq!(t.train_step(&sh, 3, 5), Err("Input size mismatch: expected 2, got 3".to_string()));
    assert_eq!(t.train_step(&sh, 2, 5), Err("Target size mismatch: expected 1, got 5".to_string()));
    assert_eq!(t.timestep(), 1);
    assert_eq!(t.train_step(&sh, 2, 1), Ok(()));
    assert_eq!(t.timestep(), 2);
    assert_eq!(t.optimizer(), TOptimizerType::otAdam);
}

#[test]
fn facade_config_sets_the_optimizer() {
    let t = training_for_config(OptimizerType::default(), true);
    assert_eq!(t.optimizer(), TOptimizerType::otAdam);
    assert!(t.batch_norm());
    assert_eq!(t.timestep(), 0);
    let t = training_for_config(OptimizerType::RMSProp, false);
    assert_eq!(t.optimizer(), TOptimizerType::otRMSProp);
}

#[test]
fn timestep_can_be_set() {
    let mut t = TrainingState::new();
    t.SetTimestep(77);
    assert_eq!(t.timestep(), 77);
    assert!(set_optimizer_code(&mut t, 1));
    assert_eq!(t.optimizer(), TOptimizerType::otAdam);
    assert_eq!(t.timestep(), 77);
}
