//! The public face of the library: conversions between the public option
//! types and the engine's, backend discovery, and the shape-level parts of
//! the `MLP` facade.

use vstd::prelude::*;
use crate::gpu_backend::{self, TGPUBackend, spec_available_backends, spec_preferred_backend};
use crate::mlp::{NetworkShape, spec_parse_activation, spec_parse_optimizer, TActivationType, TOptimizerType, spec_layer_activation, spec_layer_size,
    spec_new_shape, spec_shape_error};
use crate::types::{ActivationType, BackendType, LayerInfo, OptimizerType, spec_activation_from,
    spec_optimizer_from};
use crate::gpu_backend::spec_gpu_backend_from;
use crate::types::spec_backend_from;
use crate::training::{TrainingModel, TrainingState, spec_initial_training};

verus! {

/// The engine's activation for a public one.
pub open spec fn spec_activation_to_internal(a: ActivationType) -> TActivationType {
    match a {
        ActivationType::Sigmoid => TActivationType::atSigmoid,
        ActivationType::Tanh => TActivationType::atTanh,
        ActivationType::ReLU => TActivationType::atReLU,
        ActivationType::Softmax => TActivationType::atSoftmax,
    }
}

/// The public activation for one of the engine.
pub open spec fn spec_activation_from_internal(a: TActivationType) -> ActivationType {
    match a {
        TActivationType::atSigmoid => ActivationType::Sigmoid,
        TActivationType::atTanh => ActivationType::Tanh,
        TActivationType::atReLU => ActivationType::ReLU,
        TActivationType::atSoftmax => ActivationType::Softmax,
    }
}

/// The engine's optimizer for a public one.
pub open spec fn spec_optimizer_to_internal(o: OptimizerType) -> TOptimizerType {
    match o {
        OptimizerType::SGD => TOptimizerType::otSGD,
        OptimizerType::Adam => TOptimizerType::otAdam,
        OptimizerType::RMSProp => TOptimizerType::otRMSProp,
    }
}

/// The public optimizer for one of the engine.
pub open spec fn spec_optimizer_from_internal(o: TOptimizerType) -> OptimizerType {
    match o {
        TOptimizerType::otSGD => OptimizerType::SGD,
        TOptimizerType::otAdam => OptimizerType::Adam,
        TOptimizerType::otRMSProp => OptimizerType::RMSProp,
    }
}

/// The engine's backend for a public one.
pub open spec fn spec_backend_to_internal(b: BackendType) -> TGPUBackend {
    match b {
        BackendType::CPU => TGPUBackend::CPU,
        BackendType::CUDA => TGPUBackend::CUDA,
        BackendType::OpenCL => TGPUBackend::OpenCL,
    }
}

/// The public backend for one of the engine.
pub open spec fn spec_backend_from_internal(b: TGPUBackend) -> BackendType {
    match b {
        TGPUBackend::CPU => BackendType::CPU,
        TGPUBackend::CUDA => BackendType::CUDA,
        TGPUBackend::OpenCL => BackendType::OpenCL,
    }
}

pub fn activation_to_internal(act: ActivationType) -> (r: TActivationType)
    ensures
        r == spec_activation_to_internal(act),
{
    match act {
        ActivationType::Sigmoid => TActivationType::atSigmoid,
        ActivationType::Tanh => TActivationType::atTanh,
        ActivationType::ReLU => TActivationType::atReLU,
        ActivationType::Softmax => TActivationType::atSoftmax,
    }
}

pub fn activation_from_internal(act: TActivationType) -> (r: ActivationType)
    ensures
        r == spec_activation_from_internal(act),
{
    match act {
        TActivationType::atSigmoid => ActivationType::Sigmoid,
        TActivationType::atTanh => ActivationType::Tanh,
        TActivationType::atReLU => ActivationType::ReLU,
        TActivationType::atSoftmax => ActivationType::Softmax,
    }
}

pub fn optimizer_to_internal(opt: OptimizerType) -> (r: TOptimizerType)
    ensures
        r == spec_optimizer_to_internal(opt),
{
    match opt {
        OptimizerType::SGD => TOptimizerType::otSGD,
        OptimizerType::Adam => TOptimizerType::otAdam,
        OptimizerType::RMSProp => TOptimizerType::otRMSProp,
    }
}

pub fn optimizer_from_internal(opt: TOptimizerType) -> (r: OptimizerType)
    ensures
        r == spec_optimizer_from_internal(opt),
{
    match opt {
        TOptimizerType::otSGD => OptimizerType::SGD,
        TOptimizerType::otAdam => OptimizerType::Adam,
        TOptimizerType::otRMSProp => OptimizerType::RMSProp,
    }
}

pub fn backend_to_internal(backend: BackendType) -> (r: TGPUBackend)
    ensures
        r == spec_backend_to_internal(backend),
{
    match backend {
        BackendType::CPU => TGPUBackend::CPU,
        BackendType::CUDA => TGPUBackend::CUDA,
        BackendType::OpenCL => TGPUBackend::OpenCL,
    }
}

pub fn backend_from_internal(backend: TGPUBackend) -> (r: BackendType)
    ensures
        r == spec_backend_from_internal(backend),
{
    match backend {
        TGPUBackend::CPU => BackendType::CPU,
        TGPUBackend::CUDA => BackendType::CUDA,
        TGPUBackend::OpenCL => BackendType::OpenCL,
    }
}

/// The backends available to this build, CPU first.
pub fn available_backends() -> (r: Vec<BackendType>)
    ensures
        r@ == spec_available_backends().map_values(|b: TGPUBackend| spec_backend_from_internal(b)),
{
    let found = gpu_backend::detect_available_backends();
    let mut r: Vec<BackendType> = Vec::new();
    let mut i: usize = 0;
    while i < found.len()
        invariant
            i <= found.len(),
            found@ == spec_available_backends(),
            r@ == found@.subrange(0, i as int).map_values(|b: TGPUBackend| spec_backend_from_internal(b)),
        decreases found.len() - i,
    {
        r.push(backend_from_internal(found[i]));
        proof {
            assert(found@.subrange(0, i + 1) =~= found@.subrange(0, i as int).push(found@[i as int]));
        }
        i = i + 1;
        proof {
            assert(r@ =~= found@.subrange(0, i as int).map_values(|b: TGPUBackend| spec_backend_from_internal(b)));
        }
    }
    assert(found@.subrange(0, found@.len() as int) =~= found@);
    r
}

/// The best available backend: CUDA, then OpenCL, then CPU.
pub fn select_best_backend() -> (r: BackendType)
    ensures
        r == spec_backend_from_internal(spec_preferred_backend(spec_available_backends())),
{
    backend_from_internal(gpu_backend::select_best_backend())
}

/// The sizes, cast to `i32` as the engine stores them.
pub open spec fn sizes_as_i32(s: Seq<usize>) -> Seq<i32> {
    s.map_values(|x: usize| x as i32)
}

/// Every size fits in `i32`, the type the engine stores sizes in.
pub open spec fn all_fit_i32(s: Seq<usize>) -> bool {
    forall|i: int| 0 <= i < s.len() ==> #[trigger] s[i] <= i32::MAX
}

/// Why a network given by `usize` sizes is refused: a size too large for
/// the engine, then the checks made at creation; `None` when it is built.
pub open spec fn spec_usize_shape_error(input_size: usize, hidden: Seq<usize>, output_size: usize) -> Option<Seq<char>> {
    if input_size > i32::MAX || output_size > i32::MAX || !all_fit_i32(hidden) {
        Some("Layer sizes must not exceed 2147483647"@)
    } else {
        spec_shape_error(input_size as i32, sizes_as_i32(hidden), output_size as i32)
    }
}

impl NetworkShape {
    /// The shape of a network given by `usize` sizes, as `MLP::with_config`
    /// builds it: a size that does not fit in `i32` is refused, and the
    /// others are checked as `new_with_backend` checks them.  A network
    /// that is built has exactly the sizes given.
    pub fn from_usize_sizes(
        input_size: usize,
        hidden_sizes: &[usize],
        output_size: usize,
        hidden_activation: ActivationType,
        output_activation: ActivationType,
        backend: BackendType,
    ) -> (r: Result<NetworkShape, String>)
        ensures
            match r {
                Ok(sh) => spec_usize_shape_error(input_size, hidden_sizes@, output_size) is None
                    && sh@ == spec_new_shape(input_size as i32, sizes_as_i32(hidden_sizes@), output_size as i32,
                        spec_activation_to_internal(hidden_activation), spec_activation_to_internal(output_activation))
                    && sh@.input_size == input_size
                    && sh@.output_size == output_size
                    && sh@.hidden_sizes.len() == hidden_sizes@.len()
                    && forall|i: int| 0 <= i < hidden_sizes@.len() ==> #[trigger] sh@.hidden_sizes[i] == hidden_sizes@[i],
                Err(e) => spec_usize_shape_error(input_size, hidden_sizes@, output_size) == Some(e@),
            },
    {
        let too_large = String::from_str("Layer sizes must not exceed 2147483647");
        if input_size > 2147483647 || output_size > 2147483647 {
            return Err(too_large);
        }
        let mut hidden: Vec<i32> = Vec::new();
        let mut i: usize = 0;
        while i < hidden_sizes.len()
            invariant
                i <= hidden_sizes@.len(),
                hidden@ == sizes_as_i32(hidden_sizes@.subrange(0, i as int)),
                forall|j: int| 0 <= j < i ==> #[trigger] hidden_sizes@[j] <= i32::MAX,
                too_large@ == "Layer sizes must not exceed 2147483647"@,
            decreases hidden_sizes@.len() - i,
        {
            if hidden_sizes[i] > 2147483647 {
                assert(!all_fit_i32(hidden_sizes@)) by {
                    assert(hidden_sizes@[i as int] > i32::MAX);
                }
                return Err(too_large);
            }
            let x: i32 = hidden_sizes[i] as i32;
            hidden.push(x);
            i = i + 1;
            proof {
                assert(hidden@ =~= sizes_as_i32(hidden_sizes@.subrange(0, i as int)));
            }
        }
        assert(hidden_sizes@.subrange(0, hidden_sizes@.len() as int) =~= hidden_sizes@);
        let input: i32 = input_size as i32;
        let output: i32 = output_size as i32;
        NetworkShape::new_with_backend(
            input,
            &hidden,
            output,
            activation_to_internal(hidden_activation),
            activation_to_internal(output_activation),
            backend_to_internal(backend),
        )
    }

    /// The hidden layer sizes, as `usize`.
    pub fn hidden_sizes(&self) -> (r: Vec<usize>)
        ensures
            r@ == self@.hidden_sizes.map_values(|x: i32| x as usize),
    {
        let sizes = self.GetHiddenSizes();
        let mut r: Vec<usize> = Vec::new();
        let mut i: usize = 0;
        while i < sizes.len()
            invariant
                i <= sizes@.len(),
                sizes@ == self@.hidden_sizes,
                r@ == sizes@.subrange(0, i as int).map_values(|x: i32| x as usize),
            decreases sizes@.len() - i,
        {
            let x: usize = #[verifier::truncate] (sizes[i] as usize);
            r.push(x);
            i = i + 1;
            proof {
                assert(r@ =~= sizes@.subrange(0, i as int).map_values(|x: i32| x as usize));
            }
        }
        assert(sizes@.subrange(0, sizes@.len() as int) =~= sizes@);
        r
    }

    /// Information about layer `layer` (0 = input): its size, its
    /// activation (read at `layer` cast to `i32`), and the number of weights
    /// of each of its neurons, which is the size of the layer before it.
    pub fn layer_info(&self, layer: usize) -> (r: LayerInfo)
        ensures
            r.index == layer,
            r.size == spec_layer_size(self@, layer as int) as usize,
            r.activation == spec_activation_from_internal(spec_layer_activation(self@, layer as i32)),
            r.weights_per_neuron == if layer == 0 { 0 } else { spec_layer_size(self@, layer - 1) as usize },
    {
        let size: usize = #[verifier::truncate] (self.GetLayerSize(layer) as usize);
        let at: i32 = #[verifier::truncate] (layer as i32);
        let activation = activation_from_internal(self.GetLayerActivation(at));
        let weights_per_neuron: usize = #[verifier::truncate] (self.fan_in(layer) as usize);
        LayerInfo { index: layer, size, activation, weights_per_neuron }
    }
}

// ---------------------------------------------------------------------
// Laws
// ---------------------------------------------------------------------

/// The conversions between public and engine option types are inverse
/// bijections.
pub proof fn law_conversions_roundtrip(
    a: ActivationType,
    ta: TActivationType,
    o: OptimizerType,
    to: TOptimizerType,
    b: BackendType,
    tb: TGPUBackend,
)
    ensures
        spec_activation_from_internal(spec_activation_to_internal(a)) == a,
        spec_activation_to_internal(spec_activation_from_internal(ta)) == ta,
        spec_optimizer_from_internal(spec_optimizer_to_internal(o)) == o,
        spec_optimizer_to_internal(spec_optimizer_from_internal(to)) == to,
        spec_backend_from_internal(spec_backend_to_internal(b)) == b,
        spec_backend_to_internal(spec_backend_from_internal(tb)) == tb,
{
}

/// The public and the engine's parsers read every text the same way.
pub proof fn law_parsers_agree(s: Seq<char>)
    ensures
        spec_parse_activation(s) == spec_activation_to_internal(spec_activation_from(s)),
        spec_parse_optimizer(s) == spec_optimizer_to_internal(spec_optimizer_from(s)),
        spec_gpu_backend_from(s) == spec_backend_to_internal(spec_backend_from(s)),
{
}

/// The preferred backend is one of those available, when the CPU is.
pub proof fn law_preferred_backend_available(available: Seq<TGPUBackend>)
    requires
        available.contains(TGPUBackend::CPU),
    ensures
        available.contains(spec_preferred_backend(available)),
{
}

/// A network given by `usize` sizes is refused exactly when a size does
/// not fit in `i32`, a size is zero, or there is no hidden layer.
pub proof fn law_usize_sizes_refused(input_size: usize, hidden_sizes: Seq<usize>, output_size: usize)
    ensures
        spec_usize_shape_error(input_size, hidden_sizes, output_size) is Some <==> {
            ||| input_size == 0
            ||| output_size == 0
            ||| hidden_sizes.len() == 0
            ||| input_size > i32::MAX
            ||| output_size > i32::MAX
            ||| exists|i: int| 0 <= i < hidden_sizes.len() && (#[trigger] hidden_sizes[i] == 0 || hidden_sizes[i] > i32::MAX)
        },
{
    let h = sizes_as_i32(hidden_sizes);
    if exists|i: int| 0 <= i < hidden_sizes.len() && (#[trigger] hidden_sizes[i] == 0 || hidden_sizes[i] > i32::MAX) {
        let i = choose|i: int| 0 <= i < hidden_sizes.len() && (#[trigger] hidden_sizes[i] == 0 || hidden_sizes[i] > i32::MAX);
        if hidden_sizes[i] == 0 {
            assert(h[i] == 0);
        } else {
            assert(!all_fit_i32(hidden_sizes));
        }
    }
    if !all_fit_i32(hidden_sizes) {
        let i = choose|i: int| 0 <= i < hidden_sizes.len() && !(#[trigger] hidden_sizes[i] <= i32::MAX);
        assert(hidden_sizes[i] > i32::MAX);
    }
    if all_fit_i32(hidden_sizes) && !crate::mlp::all_positive(h) {
        let i = choose|i: int| 0 <= i < h.len() && !(#[trigger] h[i] > 0);
        assert(hidden_sizes[i] == 0);
    }
}

/// The training state of a network the facade builds with a chosen
/// optimizer and batch-normalisation flag: no step taken, the rest as for
/// a new network.
pub fn training_for_config(optimizer: OptimizerType, batch_norm: bool) -> (r: TrainingState)
    ensures
        r@ == (TrainingModel {
            optimizer: spec_optimizer_to_internal(optimizer),
            use_batch_norm: batch_norm,
            ..spec_initial_training()
        }),
{
    let mut t = TrainingState::new();
    t.set_optimizer(optimizer_to_internal(optimizer));
    t.set_batch_norm(batch_norm);
    t
}

} // verus!
