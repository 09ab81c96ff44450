//! The engine's integer and enum state: the optimizer, the step counter
//! that Adam's bias correction reads, and the training flags.  The
//! floating-point hyperparameters (learning rate, dropout, L2, betas) are
//! held by the engine outside this crate.

#![allow(non_snake_case)]

use vstd::prelude::*;
use crate::mlp::{NetworkShape, TOptimizerType, size_mismatch_text};

verus! {

/// What the engine's training state is.
pub struct TrainingModel {
    pub timestep: int,
    pub optimizer: TOptimizerType,
    pub use_batch_norm: bool,
    pub enable_lr_decay: bool,
    pub lr_decay_epochs: int,
    pub enable_early_stopping: bool,
    pub early_stopping_patience: int,
}

/// The training state of a new network: no step taken, SGD, batch
/// normalisation, learning-rate decay and early stopping off, decay every
/// 10 epochs, patience of 10 epochs.
pub open spec fn spec_initial_training() -> TrainingModel {
    TrainingModel {
        timestep: 0,
        optimizer: TOptimizerType::otSGD,
        use_batch_norm: false,
        enable_lr_decay: false,
        lr_decay_epochs: 10,
        enable_early_stopping: false,
        early_stopping_patience: 10,
    }
}

/// The engine's integer and enum training state.
pub struct TrainingState {
    timestep: i32,
    optimizer: TOptimizerType,
    use_batch_norm: bool,
    enable_lr_decay: bool,
    lr_decay_epochs: i32,
    enable_early_stopping: bool,
    early_stopping_patience: i32,
}

impl View for TrainingState {
    type V = TrainingModel;

    closed spec fn view(&self) -> TrainingModel {
        TrainingModel {
            timestep: self.timestep as int,
            optimizer: self.optimizer,
            use_batch_norm: self.use_batch_norm,
            enable_lr_decay: self.enable_lr_decay,
            lr_decay_epochs: self.lr_decay_epochs as int,
            enable_early_stopping: self.enable_early_stopping,
            early_stopping_patience: self.early_stopping_patience as int,
        }
    }
}

/// Why a training step on samples of these lengths is refused: the input
/// is checked first, then the target; `None` when both fit the network.
pub open spec fn spec_step_error(input_size: int, output_size: int, input_len: nat, target_len: nat)
    -> Option<Seq<char>> {
    if input_len != input_size {
        Some(size_mismatch_text("Input size mismatch: expected "@, input_size as nat, input_len))
    } else if target_len != output_size {
        Some(size_mismatch_text("Target size mismatch: expected "@, output_size as nat, target_len))
    } else {
        None
    }
}

impl TrainingState {
    /// The training state of a new network.
    pub fn new() -> (r: Self)
        ensures
            r@ == spec_initial_training(),
    {
        TrainingState {
            timestep: 0,
            optimizer: TOptimizerType::otSGD,
            use_batch_norm: false,
            enable_lr_decay: false,
            lr_decay_epochs: 10,
            enable_early_stopping: false,
            early_stopping_patience: 10,
        }
    }

    /// The number of training steps taken.
    pub fn timestep(&self) -> (r: i32)
        ensures
            r == self@.timestep,
    {
        self.timestep
    }

    /// Set the number of training steps taken.
    pub fn SetTimestep(&mut self, value: i32)
        ensures
            final(self)@ == (TrainingModel { timestep: value as int, ..old(self)@ }),
    {
        self.timestep = value;
    }

    /// The optimizer.
    pub fn optimizer(&self) -> (r: TOptimizerType)
        ensures
            r == self@.optimizer,
    {
        self.optimizer
    }

    /// Set the optimizer.
    pub fn set_optimizer(&mut self, optimizer: TOptimizerType)
        ensures
            final(self)@ == (TrainingModel { optimizer, ..old(self)@ }),
    {
        self.optimizer = optimizer;
    }

    /// Is batch normalisation on?
    pub fn batch_norm(&self) -> (r: bool)
        ensures
            r == self@.use_batch_norm,
    {
        self.use_batch_norm
    }

    /// Switch batch normalisation on or off.
    pub fn set_batch_norm(&mut self, on: bool)
        ensures
            final(self)@ == (TrainingModel { use_batch_norm: on, ..old(self)@ }),
    {
        self.use_batch_norm = on;
    }

    /// Is learning-rate decay on?
    pub fn lr_decay(&self) -> (r: bool)
        ensures
            r == self@.enable_lr_decay,
    {
        self.enable_lr_decay
    }

    /// The number of epochs between learning-rate decays.
    pub fn lr_decay_epochs(&self) -> (r: i32)
        ensures
            r == self@.lr_decay_epochs,
    {
        self.lr_decay_epochs
    }

    /// Is early stopping on?
    pub fn early_stopping(&self) -> (r: bool)
        ensures
            r == self@.enable_early_stopping,
    {
        self.enable_early_stopping
    }

    /// The number of epochs without improvement before training stops.
    pub fn early_stopping_patience(&self) -> (r: i32)
        ensures
            r == self@.early_stopping_patience,
    {
        self.early_stopping_patience
    }

    /// Start a training step on a sample of `input_len` inputs and
    /// `target_len` targets: a sample that fits the network counts one more
    /// step (the step Adam's bias correction then reads); a sample that does
    /// not is refused with the message of the first length that is wrong,
    /// and nothing changes.
    pub fn train_step(&mut self, shape: &NetworkShape, input_len: usize, target_len: usize)
        -> (r: Result<(), String>)
        requires
            old(self)@.timestep < i32::MAX,
        ensures
            match spec_step_error(shape@.input_size, shape@.output_size, input_len as nat, target_len as nat) {
                None => r is Ok && final(self)@ == (TrainingModel { timestep: old(self)@.timestep + 1, ..old(self)@ }),
                Some(e) => r == Err::<(), String>(r->Err_0) && r->Err_0@ == e && final(self)@ == old(self)@,
            },
    {
        match shape.check_input_len(input_len) {
            Err(e) => return Err(e),
            Ok(()) => {},
        }
        match shape.check_target_len(target_len) {
            Err(e) => return Err(e),
            Ok(()) => {},
        }
        self.timestep = self.timestep + 1;
        Ok(())
    }

    /// The training state a saved model restores: its step count, optimizer
    /// and batch-normalisation flag; the rest as for a new network.
    pub fn restored(timestep: i32, optimizer: TOptimizerType, use_batch_norm: bool) -> (r: Self)
        ensures
            r@ == (TrainingModel {
                timestep: timestep as int,
                optimizer,
                use_batch_norm,
                ..spec_initial_training()
            }),
    {
        TrainingState {
            timestep,
            optimizer,
            use_batch_norm,
            enable_lr_decay: false,
            lr_decay_epochs: 10,
            enable_early_stopping: false,
            early_stopping_patience: 10,
        }
    }
}

} // verus!
