//! The engine's option types, their text forms, and the shape of a network.
//!
//! The weights, biases, activations and optimizer moments of a network are
//! floating-point values and are held by the engine outside this crate.  The
//! shape of the network (layer sizes and activation kinds, backend) is held
//! here, together with the rules that decide which layer and neuron an
//! introspection index designates.

#![allow(non_snake_case)]
#![allow(non_camel_case_types)]

use vstd::prelude::*;
use rand::seq::SliceRandom;
use crate::gpu_backend::{TGPUBackend, spec_gpu_backend_name};
use crate::julia::{int_to_activation, int_to_optimizer, spec_int_to_activation, spec_int_to_optimizer};
use crate::core_types::{activation_code, optimizer_code, spec_activation_code, spec_optimizer_code};
use crate::training::{TrainingModel, TrainingState, spec_initial_training};
use crate::text::{chars_of, decimal_text, matches_keyword, parse_int_list, push_chars, spec_decimal_text,
    spec_parse_int_list, lower_eq};
use crate::types::{
    case_variant, lemma_case_variant_matches, lower_word, lemma_lower_eq_keyword, kw_adam, kw_relu, kw_rmsprop, kw_sgd, kw_sigmoid, kw_softmax, kw_tanh,
};

verus! {

/// Activation function of a layer of the engine.
#[derive(Clone, Copy, PartialEq, Eq, Debug, Structural)]
pub enum TActivationType {
    atSigmoid,
    atTanh,
    atReLU,
    atSoftmax,
}

/// Optimizer of the engine.
#[derive(Clone, Copy, PartialEq, Eq, Debug, Structural)]
pub enum TOptimizerType {
    otSGD,
    otAdam,
    otRMSProp,
}

/// The activation named by `s`, without regard to case; unknown names give
/// `atSigmoid`.
pub open spec fn spec_parse_activation(s: Seq<char>) -> TActivationType {
    if lower_eq(s, kw_sigmoid()) {
        TActivationType::atSigmoid
    } else if lower_eq(s, kw_tanh()) {
        TActivationType::atTanh
    } else if lower_eq(s, kw_relu()) {
        TActivationType::atReLU
    } else if lower_eq(s, kw_softmax()) {
        TActivationType::atSoftmax
    } else {
        TActivationType::atSigmoid
    }
}

/// The optimizer named by `s`, without regard to case; unknown names give
/// `otSGD`.
pub open spec fn spec_parse_optimizer(s: Seq<char>) -> TOptimizerType {
    if lower_eq(s, kw_sgd()) {
        TOptimizerType::otSGD
    } else if lower_eq(s, kw_adam()) {
        TOptimizerType::otAdam
    } else if lower_eq(s, kw_rmsprop()) {
        TOptimizerType::otRMSProp
    } else {
        TOptimizerType::otSGD
    }
}

/// The name of an activation.
pub open spec fn spec_activation_str(a: TActivationType) -> Seq<char> {
    match a {
        TActivationType::atSigmoid => kw_sigmoid(),
        TActivationType::atTanh => kw_tanh(),
        TActivationType::atReLU => kw_relu(),
        TActivationType::atSoftmax => kw_softmax(),
    }
}

/// The name of an optimizer.
pub open spec fn spec_optimizer_str(o: TOptimizerType) -> Seq<char> {
    match o {
        TOptimizerType::otSGD => kw_sgd(),
        TOptimizerType::otAdam => kw_adam(),
        TOptimizerType::otRMSProp => kw_rmsprop(),
    }
}

/// Parse an activation name (case-insensitive; unknown names give
/// `atSigmoid`).
pub fn ParseActivation(s: &str) -> (r: TActivationType)
    ensures
        r == spec_parse_activation(s@),
{
    let cs = chars_of(s);
    if matches_keyword(&cs, &vec!['s', 'i', 'g', 'm', 'o', 'i', 'd']) {
        TActivationType::atSigmoid
    } else if matches_keyword(&cs, &vec!['t', 'a', 'n', 'h']) {
        TActivationType::atTanh
    } else if matches_keyword(&cs, &vec!['r', 'e', 'l', 'u']) {
        TActivationType::atReLU
    } else if matches_keyword(&cs, &vec!['s', 'o', 'f', 't', 'm', 'a', 'x']) {
        TActivationType::atSoftmax
    } else {
        TActivationType::atSigmoid
    }
}

/// Parse an optimizer name (case-insensitive; unknown names give `otSGD`).
pub fn ParseOptimizer(s: &str) -> (r: TOptimizerType)
    ensures
        r == spec_parse_optimizer(s@),
{
    let cs = chars_of(s);
    if matches_keyword(&cs, &vec!['s', 'g', 'd']) {
        TOptimizerType::otSGD
    } else if matches_keyword(&cs, &vec!['a', 'd', 'a', 'm']) {
        TOptimizerType::otAdam
    } else if matches_keyword(&cs, &vec!['r', 'm', 's', 'p', 'r', 'o', 'p']) {
        TOptimizerType::otRMSProp
    } else {
        TOptimizerType::otSGD
    }
}

/// Read a comma-separated list of integers; each piece is trimmed of white
/// space, and pieces that are not `i32` values are skipped.
pub fn ParseIntArray(s: &str) -> (r: Vec<i32>)
    ensures
        r@ == spec_parse_int_list(s@),
{
    let cs = chars_of(s);
    parse_int_list(&cs)
}

/// The name of an activation.
pub fn ActivationToStr(act: TActivationType) -> (r: &'static str)
    ensures
        r@ == spec_activation_str(act),
{
    match act {
        TActivationType::atSigmoid => {
            proof { reveal_strlit("sigmoid"); }
            "sigmoid"
        },
        TActivationType::atTanh => {
            proof { reveal_strlit("tanh"); }
            "tanh"
        },
        TActivationType::atReLU => {
            proof { reveal_strlit("relu"); }
            "relu"
        },
        TActivationType::atSoftmax => {
            proof { reveal_strlit("softmax"); }
            "softmax"
        },
    }
}

/// The name of an optimizer.
pub fn OptimizerToStr(opt: TOptimizerType) -> (r: &'static str)
    ensures
        r@ == spec_optimizer_str(opt),
{
    match opt {
        TOptimizerType::otSGD => {
            proof { reveal_strlit("sgd"); }
            "sgd"
        },
        TOptimizerType::otAdam => {
            proof { reveal_strlit("adam"); }
            "adam"
        },
        TOptimizerType::otRMSProp => {
            proof { reveal_strlit("rmsprop"); }
            "rmsprop"
        },
    }
}


/// Puts the items of `v` in a random order: `SliceRandom::shuffle` of
/// `rand` with the thread-local generator, a pass of swaps from the last
/// position down.  What comes out is a permutation of what went in; which
/// permutation is left to chance and not stated.
#[verifier::external_body]
fn shuffle_in_place<T>(v: &mut Vec<T>)
    ensures
        final(v)@.to_multiset() == old(v)@.to_multiset(),
{
    v.shuffle(&mut rand::thread_rng());
}

/// Shuffle a data set in place: the same items, in a random order.
pub fn ShuffleData<T>(data: &mut Vec<T>)
    ensures
        final(data)@.to_multiset() == old(data)@.to_multiset(),
        final(data)@.len() == old(data)@.len(),
{
    shuffle_in_place(data);
    proof {
        old(data)@.to_multiset_ensures();
        data@.to_multiset_ensures();
    }
}


// ---------------------------------------------------------------------
// Shape of a network
// ---------------------------------------------------------------------

/// What a network's shape is: the layer sizes, the activation of every
/// layer, the network's default hidden and output activations, and the
/// backend it runs on.
pub struct ShapeModel {
    pub input_size: int,
    pub hidden_sizes: Seq<i32>,
    pub output_size: int,
    pub input_activation: TActivationType,
    pub hidden_activations: Seq<TActivationType>,
    pub output_layer_activation: TActivationType,
    pub hidden_activation: TActivationType,
    pub output_activation: TActivationType,
    pub backend: TGPUBackend,
}

/// A layer of the network, as an introspection index designates it.
#[derive(Clone, Copy, PartialEq, Eq, Debug, Structural)]
pub enum LayerRef {
    Input,
    /// The hidden layer at this position (0 for the first hidden layer).
    Hidden(usize),
    Output,
}

/// The shape of a multi-layer perceptron: an input layer, one or more
/// hidden layers and an output layer, all of positive size.
pub struct NetworkShape {
    input_size: i32,
    hidden_sizes: Vec<i32>,
    output_size: i32,
    input_activation: TActivationType,
    hidden_activations: Vec<TActivationType>,
    output_layer_activation: TActivationType,
    hidden_activation: TActivationType,
    output_activation: TActivationType,
    backend: TGPUBackend,
}

/// Every hidden layer size is positive.
pub open spec fn all_positive(s: Seq<i32>) -> bool {
    forall|i: int| 0 <= i < s.len() ==> #[trigger] s[i] > 0
}

/// Why a network of these sizes cannot be built, checked in this order;
/// `None` when it can.
pub open spec fn spec_shape_error(input_size: i32, hidden: Seq<i32>, output_size: i32) -> Option<Seq<char>> {
    if input_size <= 0 {
        Some("Input size must be positive"@)
    } else if output_size <= 0 {
        Some("Output size must be positive"@)
    } else if hidden.len() == 0 {
        Some("Must have at least one hidden layer"@)
    } else if !all_positive(hidden) {
        Some("Hidden layer sizes must be positive"@)
    } else {
        None
    }
}

/// The shape of a new network: the input layer uses the sigmoid, every
/// hidden layer `hidden_activation`, the output layer `output_activation`.
/// The network runs on the CPU: the GPU engines are not part of this build.
pub open spec fn spec_new_shape(
    input_size: i32,
    hidden: Seq<i32>,
    output_size: i32,
    hidden_activation: TActivationType,
    output_activation: TActivationType,
) -> ShapeModel {
    ShapeModel {
        input_size: input_size as int,
        hidden_sizes: hidden,
        output_size: output_size as int,
        input_activation: TActivationType::atSigmoid,
        hidden_activations: Seq::new(hidden.len(), |i: int| hidden_activation),
        output_layer_activation: output_activation,
        hidden_activation,
        output_activation,
        backend: TGPUBackend::CPU,
    }
}

/// The number of neurons of layer `idx` (0 = input, then the hidden layers,
/// then the output layer); 0 past the output layer.
pub open spec fn spec_layer_size(m: ShapeModel, idx: int) -> int {
    if idx == 0 {
        m.input_size
    } else if idx <= m.hidden_sizes.len() {
        m.hidden_sizes[idx - 1] as int
    } else if idx == m.hidden_sizes.len() + 1 {
        m.output_size
    } else {
        0
    }
}

/// The activation of layer `idx`; an index that is negative or past the
/// hidden layers designates the output layer.
pub open spec fn spec_layer_activation(m: ShapeModel, idx: i32) -> TActivationType {
    if idx == 0 {
        m.input_activation
    } else if idx > 0 && idx <= m.hidden_sizes.len() {
        m.hidden_activations[idx - 1]
    } else {
        m.output_layer_activation
    }
}

/// The shape after setting the activation of layer `idx`: setting a hidden
/// layer also sets the network's hidden activation, setting the output layer
/// also sets its output activation; other indices change nothing.
pub open spec fn spec_set_layer_activation(m: ShapeModel, idx: i32, act: TActivationType) -> ShapeModel {
    if idx == 0 {
        ShapeModel { input_activation: act, ..m }
    } else if idx > 0 && idx <= m.hidden_sizes.len() {
        ShapeModel {
            hidden_activations: m.hidden_activations.update(idx - 1, act),
            hidden_activation: act,
            ..m
        }
    } else if idx as usize == m.hidden_sizes.len() + 1 {
        ShapeModel { output_layer_activation: act, output_activation: act, ..m }
    } else {
        m
    }
}

/// The hidden layer and neuron that the pair of indices designates: layer
/// `l` for `0 < l <=` the number of hidden layers, neuron `n` below that
/// layer's size.  The weights and biases that introspection reads and
/// writes are those of the hidden layers only.
pub open spec fn spec_hidden_neuron(m: ShapeModel, layer: i32, neuron: i32) -> Option<(usize, usize)> {
    if layer > 0 && layer <= m.hidden_sizes.len() && neuron >= 0 && neuron < m.hidden_sizes[layer - 1] {
        Some(((layer - 1) as usize, neuron as usize))
    } else {
        None
    }
}

/// The layer and neuron whose weights, bias and optimizer moments
/// introspection reads for a pair of indices: a hidden layer
/// (`0 < layer <=` the number of hidden layers) or the output layer (the
/// index just past them), and a neuron below that layer's size.  The input
/// layer takes no weights and is not designated.
pub open spec fn spec_neuron_ref(m: ShapeModel, layer: i32, neuron: i32) -> Option<(LayerRef, usize)> {
    if layer > 0 && layer <= m.hidden_sizes.len() && neuron >= 0 && neuron < m.hidden_sizes[layer - 1] {
        Some((LayerRef::Hidden((layer - 1) as usize), neuron as usize))
    } else if layer == m.hidden_sizes.len() + 1 && neuron >= 0 && neuron < m.output_size {
        Some((LayerRef::Output, neuron as usize))
    } else {
        None
    }
}

/// The number of weights each neuron of layer `idx` takes: the size of the
/// layer before it (none for the input layer).
pub open spec fn spec_fan_in(m: ShapeModel, idx: int) -> int {
    if idx == 0 {
        0
    } else {
        spec_layer_size(m, idx - 1)
    }
}

/// The layer whose outputs introspection reads for index `idx`.
pub open spec fn spec_output_layer(m: ShapeModel, idx: i32) -> Option<LayerRef> {
    if idx == 0 {
        Some(LayerRef::Input)
    } else if idx > 0 && idx <= m.hidden_sizes.len() {
        Some(LayerRef::Hidden((idx - 1) as usize))
    } else if idx as usize == m.hidden_sizes.len() + 1 {
        Some(LayerRef::Output)
    } else {
        None
    }
}

/// The layer whose errors introspection reads for index `idx`: the input
/// layer has none.
pub open spec fn spec_error_layer(m: ShapeModel, idx: i32) -> Option<LayerRef> {
    if idx > 0 && idx <= m.hidden_sizes.len() {
        Some(LayerRef::Hidden((idx - 1) as usize))
    } else if idx as usize == m.hidden_sizes.len() + 1 {
        Some(LayerRef::Output)
    } else {
        None
    }
}

/// Is `idx`, taken as an unsigned index, the one just past `hidden_len`
/// hidden layers?
fn is_past_hidden(idx: i32, hidden_len: usize) -> (r: bool)
    ensures
        r == (idx as usize == hidden_len + 1),
{
    let u: usize = #[verifier::truncate] (idx as usize);
    u > 0 && u - 1 == hidden_len
}

/// `v` with the item at `k` replaced by `x`.
fn with_replaced(v: &Vec<TActivationType>, k: usize, x: TActivationType) -> (r: Vec<TActivationType>)
    requires
        k < v.len(),
    ensures
        r@ == v@.update(k as int, x),
{
    let mut r: Vec<TActivationType> = Vec::new();
    let mut i: usize = 0;
    while i < v.len()
        invariant
            k < v.len(),
            i <= v.len(),
            r@ == v@.update(k as int, x).subrange(0, i as int),
        decreases v.len() - i,
    {
        if i == k {
            r.push(x);
        } else {
            r.push(v[i]);
        }
        i = i + 1;
    }
    assert(r@ =~= v@.update(k as int, x));
    r
}

/// The message for a sample of the wrong size: the lead, the expected
/// size, `, got ` and the size given.
pub open spec fn size_mismatch_text(lead: Seq<char>, expected: nat, got: nat) -> Seq<char> {
    lead + spec_decimal_text(expected) + ", got "@ + spec_decimal_text(got)
}

fn size_mismatch_message(lead: &str, expected: u64, got: u64) -> (r: String)
    ensures
        r@ == size_mismatch_text(lead@, expected as nat, got as nat),
{
    let mut r = String::from_str(lead);
    push_chars(&mut r, &decimal_text(expected));
    r.append(", got ");
    push_chars(&mut r, &decimal_text(got));
    r
}

impl View for NetworkShape {
    type V = ShapeModel;

    closed spec fn view(&self) -> ShapeModel {
        ShapeModel {
            input_size: self.input_size as int,
            hidden_sizes: self.hidden_sizes@,
            output_size: self.output_size as int,
            input_activation: self.input_activation,
            hidden_activations: self.hidden_activations@,
            output_layer_activation: self.output_layer_activation,
            hidden_activation: self.hidden_activation,
            output_activation: self.output_activation,
            backend: self.backend,
        }
    }
}

/// A shape is well formed: positive sizes, at least one hidden layer, and
/// one activation per hidden layer.
pub open spec fn shape_wf(m: ShapeModel) -> bool {
    &&& m.input_size > 0
    &&& m.output_size > 0
    &&& m.hidden_sizes.len() >= 1
    &&& all_positive(m.hidden_sizes)
    &&& m.hidden_activations.len() == m.hidden_sizes.len()
}

impl NetworkShape {
    #[verifier::type_invariant]
    closed spec fn inv(self) -> bool {
        shape_wf(self@)
    }

    /// The shape of a new network on the CPU.
    pub fn new(
        input_size: i32,
        hidden_sizes: &Vec<i32>,
        output_size: i32,
        hidden_activation: TActivationType,
        output_activation: TActivationType,
    ) -> (r: Result<Self, String>)
        ensures
            match r {
                Ok(sh) => spec_shape_error(input_size, hidden_sizes@, output_size) is None
                    && sh@ == spec_new_shape(input_size, hidden_sizes@, output_size, hidden_activation, output_activation),
                Err(e) => spec_shape_error(input_size, hidden_sizes@, output_size) == Some(e@),
            },
    {
        Self::new_with_backend(input_size, hidden_sizes, output_size, hidden_activation, output_activation, TGPUBackend::CPU)
    }

    /// The shape of a new network.  The backend asked for is honoured when
    /// its engine is part of the build; this build has the CPU engine only,
    /// so every network starts on the CPU.
    pub fn new_with_backend(
        input_size: i32,
        hidden_sizes: &Vec<i32>,
        output_size: i32,
        hidden_activation: TActivationType,
        output_activation: TActivationType,
        backend: TGPUBackend,
    ) -> (r: Result<Self, String>)
        ensures
            match r {
                Ok(sh) => spec_shape_error(input_size, hidden_sizes@, output_size) is None
                    && sh@ == spec_new_shape(input_size, hidden_sizes@, output_size, hidden_activation, output_activation),
                Err(e) => spec_shape_error(input_size, hidden_sizes@, output_size) == Some(e@),
            },
    {
        if input_size <= 0 {
            return Err(String::from_str("Input size must be positive"));
        }
        if output_size <= 0 {
            return Err(String::from_str("Output size must be positive"));
        }
        if hidden_sizes.len() == 0 {
            return Err(String::from_str("Must have at least one hidden layer"));
        }
        let n = hidden_sizes.len();
        let mut i: usize = 0;
        let mut sizes: Vec<i32> = Vec::new();
        let mut acts: Vec<TActivationType> = Vec::new();
        while i < n
            invariant
                n == hidden_sizes.len(),
                n > 0,
                input_size > 0,
                output_size > 0,
                i <= n,
                forall|j: int| 0 <= j < i ==> #[trigger] hidden_sizes@[j] > 0,
                sizes@ == hidden_sizes@.subrange(0, i as int),
                acts@ == Seq::new(i as nat, |k: int| hidden_activation),
            decreases n - i,
        {
            if hidden_sizes[i] <= 0 {
                assert(!all_positive(hidden_sizes@)) by {
                    assert(hidden_sizes@[i as int] <= 0);
                }
                return Err(String::from_str("Hidden layer sizes must be positive"));
            }
            sizes.push(hidden_sizes[i]);
            acts.push(hidden_activation);
            proof {
                assert(acts@ =~= Seq::new((i + 1) as nat, |k: int| hidden_activation));
            }
            i = i + 1;
        }
        assert(sizes@ =~= hidden_sizes@);
        Ok(NetworkShape {
            input_size,
            hidden_sizes: sizes,
            output_size,
            input_activation: TActivationType::atSigmoid,
            hidden_activations: acts,
            output_layer_activation: output_activation,
            hidden_activation,
            output_activation,
            backend: TGPUBackend::CPU,
        })
    }

    /// Move the network to another backend.  The CPU is always accepted;
    /// the CUDA and OpenCL engines are not part of this build, so asking for
    /// them fails and leaves the network where it was.
    pub fn set_backend(&mut self, backend: TGPUBackend) -> (r: Result<(), String>)
        ensures
            match backend {
                TGPUBackend::CPU => r is Ok && final(self)@ == ShapeModel { backend: TGPUBackend::CPU, ..old(self)@ },
                TGPUBackend::CUDA => r == Err::<(), String>(r->Err_0) && r->Err_0@ == "CUDA support not compiled"@
                    && final(self)@ == old(self)@,
                TGPUBackend::OpenCL => r == Err::<(), String>(r->Err_0) && r->Err_0@ == "OpenCL support not compiled"@
                    && final(self)@ == old(self)@,
            },
    {
        proof { use_type_invariant(&*self); }
        match backend {
            TGPUBackend::CPU => {
                self.backend = TGPUBackend::CPU;
                Ok(())
            },
            TGPUBackend::CUDA => Err(String::from_str("CUDA support not compiled")),
            TGPUBackend::OpenCL => Err(String::from_str("OpenCL support not compiled")),
        }
    }

    /// The backend the network runs on.
    pub fn get_backend(&self) -> (r: TGPUBackend)
        ensures
            r == self@.backend,
    {
        self.backend
    }

    /// The number of inputs.
    pub fn GetInputSize(&self) -> (r: i32)
        ensures
            r == self@.input_size,
    {
        self.input_size
    }

    /// The number of outputs.
    pub fn GetOutputSize(&self) -> (r: i32)
        ensures
            r == self@.output_size,
    {
        self.output_size
    }

    /// The number of hidden layers.
    pub fn GetHiddenLayerCount(&self) -> (r: i32)
        ensures
            r == self@.hidden_sizes.len() as i32,
    {
        self.hidden_sizes.len() as i32
    }

    /// The sizes of the hidden layers.
    pub fn GetHiddenSizes(&self) -> (r: &Vec<i32>)
        ensures
            r@ == self@.hidden_sizes,
    {
        &self.hidden_sizes
    }

    /// The number of layers, input and output included.
    pub fn GetNumLayers(&self) -> (r: i32)
        requires
            self@.hidden_sizes.len() + 2 <= i32::MAX,
        ensures
            r == self@.hidden_sizes.len() + 2,
    {
        2 + self.hidden_sizes.len() as i32
    }

    /// The number of neurons of layer `layer_idx` (0 = input); 0 past the
    /// output layer.
    pub fn GetLayerSize(&self, layer_idx: usize) -> (r: i32)
        ensures
            r == spec_layer_size(self@, layer_idx as int),
    {
        if layer_idx == 0 {
            self.input_size
        } else if layer_idx <= self.hidden_sizes.len() {
            self.hidden_sizes[layer_idx - 1]
        } else if layer_idx == self.hidden_sizes.len() + 1 {
            self.output_size
        } else {
            0
        }
    }

    /// The number of weights of each neuron of layer `layer_idx`: the size
    /// of the layer before it (0 for the input layer, whose neurons take no
    /// weights).
    pub fn fan_in(&self, layer_idx: usize) -> (r: i32)
        ensures
            r == spec_fan_in(self@, layer_idx as int),
    {
        if layer_idx == 0 {
            0
        } else {
            self.GetLayerSize(layer_idx - 1)
        }
    }

    /// The activation of layer `layer_idx`.
    pub fn GetLayerActivation(&self, layer_idx: i32) -> (r: TActivationType)
        ensures
            r == spec_layer_activation(self@, layer_idx),
    {
        proof { use_type_invariant(self); }
        if layer_idx == 0 {
            self.input_activation
        } else if layer_idx > 0 && (layer_idx as usize) <= self.hidden_sizes.len() {
            self.hidden_activations[layer_idx as usize - 1]
        } else {
            self.output_layer_activation
        }
    }

    /// Set the activation of layer `layer_idx`.
    pub fn SetLayerActivation(&mut self, layer_idx: i32, activation: TActivationType)
        ensures
            final(self)@ == spec_set_layer_activation(old(self)@, layer_idx, activation),
    {
        proof { use_type_invariant(&*self); }
        if layer_idx == 0 {
            self.input_activation = activation;
        } else if layer_idx > 0 && (layer_idx as usize) <= self.hidden_sizes.len() {
            let k = layer_idx as usize - 1;
            let acts = with_replaced(&self.hidden_activations, k, activation);
            self.hidden_activations = acts;
            self.hidden_activation = activation;
        } else if is_past_hidden(layer_idx, self.hidden_sizes.len()) {
            self.output_layer_activation = activation;
            self.output_activation = activation;
        }
    }

    /// Check that a sample of `len` inputs fits the input layer.
    pub fn check_input_len(&self, len: usize) -> (r: Result<(), String>)
        ensures
            match r {
                Ok(()) => len == self@.input_size,
                Err(e) => len != self@.input_size && e@ == size_mismatch_text(
                    "Input size mismatch: expected "@, self@.input_size as nat, len as nat),
            },
    {
        proof { use_type_invariant(self); }
        if len != self.input_size as usize {
            return Err(size_mismatch_message("Input size mismatch: expected ", self.input_size as u64, len as u64));
        }
        Ok(())
    }

    /// Check that a target of `len` values fits the output layer.
    pub fn check_target_len(&self, len: usize) -> (r: Result<(), String>)
        ensures
            match r {
                Ok(()) => len == self@.output_size,
                Err(e) => len != self@.output_size && e@ == size_mismatch_text(
                    "Target size mismatch: expected "@, self@.output_size as nat, len as nat),
            },
    {
        proof { use_type_invariant(self); }
        if len != self.output_size as usize {
            return Err(size_mismatch_message("Target size mismatch: expected ", self.output_size as u64, len as u64));
        }
        Ok(())
    }

    /// The hidden layer and neuron designated by a pair of indices.
    pub fn hidden_neuron(&self, layer_idx: i32, neuron_idx: i32) -> (r: Option<(usize, usize)>)
        ensures
            r == spec_hidden_neuron(self@, layer_idx, neuron_idx),
    {
        if layer_idx > 0 && (layer_idx as usize) <= self.hidden_sizes.len() {
            let l = layer_idx as usize - 1;
            if neuron_idx >= 0 && neuron_idx < self.hidden_sizes[l] {
                return Some((l, neuron_idx as usize));
            }
        }
        None
    }

    /// The hidden layer, neuron and weight designated by three indices,
    /// where the neuron holds `weights_len` weights.
    pub fn weight_slot(&self, layer_idx: i32, neuron_idx: i32, weight_idx: i32, weights_len: usize)
        -> (r: Option<(usize, usize, usize)>)
        ensures
            r == match spec_hidden_neuron(self@, layer_idx, neuron_idx) {
                Some((l, n)) => if 0 <= weight_idx && weight_idx < weights_len {
                    Some((l, n, weight_idx as usize))
                } else {
                    None::<(usize, usize, usize)>
                },
                None => None,
            },
    {
        match self.hidden_neuron(layer_idx, neuron_idx) {
            Some((l, n)) => {
                if weight_idx >= 0 && (weight_idx as usize) < weights_len {
                    Some((l, n, weight_idx as usize))
                } else {
                    None
                }
            },
            None => None,
        }
    }

    /// The layer and neuron whose weights, bias and moments are read for a
    /// pair of indices: hidden layers and the output layer.
    pub fn neuron_ref(&self, layer_idx: i32, neuron_idx: i32) -> (r: Option<(LayerRef, usize)>)
        ensures
            r == spec_neuron_ref(self@, layer_idx, neuron_idx),
    {
        match self.hidden_neuron(layer_idx, neuron_idx) {
            Some((l, n)) => Some((LayerRef::Hidden(l), n)),
            None => {
                if layer_idx > 0 && (layer_idx as usize) - 1 == self.hidden_sizes.len() && neuron_idx >= 0
                    && neuron_idx < self.output_size {
                    Some((LayerRef::Output, neuron_idx as usize))
                } else {
                    None
                }
            },
        }
    }

    /// The layer, neuron and weight read for three indices, where the
    /// neuron holds `weights_len` weights.
    pub fn read_weight_slot(&self, layer_idx: i32, neuron_idx: i32, weight_idx: i32, weights_len: usize)
        -> (r: Option<(LayerRef, usize, usize)>)
        ensures
            r == match spec_neuron_ref(self@, layer_idx, neuron_idx) {
                Some((l, n)) => if 0 <= weight_idx && weight_idx < weights_len {
                    Some((l, n, weight_idx as usize))
                } else {
                    None::<(LayerRef, usize, usize)>
                },
                None => None,
            },
    {
        match self.neuron_ref(layer_idx, neuron_idx) {
            Some((l, n)) => {
                if weight_idx >= 0 && (weight_idx as usize) < weights_len {
                    Some((l, n, weight_idx as usize))
                } else {
                    None
                }
            },
            None => None,
        }
    }

    /// Give every layer the activation a saved model records for it.
    pub fn restore_layer_activations(
        &mut self,
        input: TActivationType,
        hidden: &Vec<TActivationType>,
        output: TActivationType,
    )
        requires
            hidden@.len() == old(self)@.hidden_sizes.len(),
        ensures
            final(self)@ == (ShapeModel {
                input_activation: input,
                hidden_activations: hidden@,
                output_layer_activation: output,
                ..old(self)@
            }),
    {
        proof { use_type_invariant(&*self); }
        let mut acts: Vec<TActivationType> = Vec::new();
        let mut i: usize = 0;
        while i < hidden.len()
            invariant
                i <= hidden@.len(),
                acts@ == hidden@.subrange(0, i as int),
            decreases hidden@.len() - i,
        {
            acts.push(hidden[i]);
            i = i + 1;
        }
        assert(acts@ =~= hidden@);
        self.hidden_activations = acts;
        self.input_activation = input;
        self.output_layer_activation = output;
    }

    /// Does the layer data of a saved model fit this network: one entry per
    /// layer from the input to the output layer, each with as many neurons
    /// as that layer has.
    pub fn saved_layers_fit(&self, neuron_counts: &Vec<usize>) -> (r: bool)
        ensures
            r == (neuron_counts@.len() == self@.hidden_sizes.len() + 2
                && forall|i: int| 0 <= i < neuron_counts@.len() ==> #[trigger] neuron_counts@[i] == spec_layer_size(self@, i)),
    {
        proof { use_type_invariant(self); }
        if neuron_counts.len() < 2 || neuron_counts.len() - 2 != self.hidden_sizes.len() {
            return false;
        }
        let mut i: usize = 0;
        while i < neuron_counts.len()
            invariant
                neuron_counts@.len() == self@.hidden_sizes.len() + 2,
                i <= neuron_counts@.len(),
                forall|j: int| 0 <= j < i ==> #[trigger] neuron_counts@[j] == spec_layer_size(self@, j),
            decreases neuron_counts@.len() - i,
        {
            let size = self.GetLayerSize(i);
            if size < 0 || neuron_counts[i] != size as usize {
                assert(neuron_counts@[i as int] != spec_layer_size(self@, i as int));
                return false;
            }
            i = i + 1;
        }
        true
    }

    /// Does a saved neuron of layer `layer_idx` fit this network: as many
    /// weights as the layer's fan-in, and optimizer moments either absent
    /// (a file without them) or of that same length.
    pub fn saved_neuron_fits(&self, layer_idx: usize, weights_len: usize, m_len: usize, v_len: usize) -> (r: bool)
        ensures
            r == (weights_len == spec_fan_in(self@, layer_idx as int)
                && (m_len == 0 || m_len == spec_fan_in(self@, layer_idx as int))
                && (v_len == 0 || v_len == spec_fan_in(self@, layer_idx as int))),
    {
        let f = self.fan_in(layer_idx);
        if f < 0 {
            return false;
        }
        let f = f as usize;
        weights_len == f && (m_len == 0 || m_len == f) && (v_len == 0 || v_len == f)
    }

    /// The layer whose outputs index `layer_idx` designates.
    pub fn output_layer(&self, layer_idx: i32) -> (r: Option<LayerRef>)
        ensures
            r == spec_output_layer(self@, layer_idx),
    {
        if layer_idx == 0 {
            Some(LayerRef::Input)
        } else if layer_idx > 0 && (layer_idx as usize) <= self.hidden_sizes.len() {
            Some(LayerRef::Hidden(layer_idx as usize - 1))
        } else if is_past_hidden(layer_idx, self.hidden_sizes.len()) {
            Some(LayerRef::Output)
        } else {
            None
        }
    }

    /// The layer whose errors index `layer_idx` designates.
    pub fn error_layer(&self, layer_idx: i32) -> (r: Option<LayerRef>)
        ensures
            r == spec_error_layer(self@, layer_idx),
    {
        if layer_idx > 0 && (layer_idx as usize) <= self.hidden_sizes.len() {
            Some(LayerRef::Hidden(layer_idx as usize - 1))
        } else if is_past_hidden(layer_idx, self.hidden_sizes.len()) {
            Some(LayerRef::Output)
        } else {
            None
        }
    }
}

// ---------------------------------------------------------------------
// Saved models
// ---------------------------------------------------------------------

/// The tag a saved model file starts its header with.
pub const MODEL_MAGIC: &'static str = "MLPCUDA1";

/// The version text a saved model carries.
pub const MODEL_VERSION: &'static str = "1.0";

/// The integer, enum and text fields of a saved model: those that decide
/// its shape (with the activation code of every layer, from the input to
/// the output layer) and its training state.
pub struct ModelHeader {
    pub magic: String,
    pub version: String,
    pub input_size: i32,
    pub output_size: i32,
    pub hidden_sizes: Vec<i32>,
    pub optimizer: i32,
    pub hidden_activation: i32,
    pub output_activation: i32,
    pub layer_activations: Vec<i32>,
    pub timestep: i32,
    pub use_batch_norm: bool,
    pub gpu_backend: String,
}

/// The shape and training state a saved model header stands for.
pub struct DecodedModel {
    pub shape: NetworkShape,
    pub training: TrainingState,
}

/// Why a saved model header is refused; `None` when it is accepted.  The
/// magic tag is checked first, then the sizes as at creation, then that
/// there is one activation code per layer.
pub open spec fn spec_header_error(magic: Seq<char>, input_size: i32, hidden: Seq<i32>, output_size: i32, n_codes: nat)
    -> Option<Seq<char>> {
    if magic != MODEL_MAGIC@ {
        Some("Invalid model file magic: "@ + magic)
    } else if spec_shape_error(input_size, hidden, output_size) is Some {
        spec_shape_error(input_size, hidden, output_size)
    } else if n_codes != hidden.len() + 2 {
        Some("Invalid model file: one activation per layer expected"@)
    } else {
        None
    }
}

/// The shape a saved header stands for: its sizes, the activation of
/// every layer from its codes, the network's hidden and output activations
/// from their codes; on the CPU, the one backend of this build.  Unknown
/// codes read as the sigmoid.
pub open spec fn spec_decoded_shape(
    input_size: i32,
    hidden: Seq<i32>,
    output_size: i32,
    hidden_code: i32,
    output_code: i32,
    codes: Seq<i32>,
) -> ShapeModel {
    ShapeModel {
        input_size: input_size as int,
        hidden_sizes: hidden,
        output_size: output_size as int,
        input_activation: spec_int_to_activation(codes[0]),
        hidden_activations: Seq::new(hidden.len(), |i: int| spec_int_to_activation(codes[i + 1])),
        output_layer_activation: spec_int_to_activation(codes[hidden.len() + 1int]),
        hidden_activation: spec_int_to_activation(hidden_code),
        output_activation: spec_int_to_activation(output_code),
        backend: TGPUBackend::CPU,
    }
}

/// The training state a saved header stands for: its step count,
/// optimizer (unknown codes read as SGD) and batch-normalisation flag; the
/// rest as for a new network.
pub open spec fn spec_decoded_training(timestep: i32, optimizer_code: i32, use_batch_norm: bool) -> TrainingModel {
    TrainingModel {
        timestep: timestep as int,
        optimizer: spec_int_to_optimizer(optimizer_code),
        use_batch_norm,
        ..spec_initial_training()
    }
}

/// The activation of layer `i` of a shape (0 = input).
pub open spec fn spec_activation_at(m: ShapeModel, i: int) -> TActivationType {
    if i == 0 {
        m.input_activation
    } else if i <= m.hidden_sizes.len() {
        m.hidden_activations[i - 1]
    } else {
        m.output_layer_activation
    }
}

/// The activation codes of every layer of a shape, from the input layer to
/// the output layer.
pub open spec fn spec_layer_codes(m: ShapeModel) -> Seq<i32> {
    Seq::new(m.hidden_sizes.len() + 2, |i: int| spec_activation_code(spec_activation_at(m, i)))
}

/// Read the shape and training state of a saved model from its header.
pub fn decode_model_header(h: &ModelHeader) -> (r: Result<DecodedModel, String>)
    ensures
        match r {
            Ok(d) => spec_header_error(h.magic@, h.input_size, h.hidden_sizes@, h.output_size,
                    h.layer_activations@.len()) is None
                && d.shape@ == spec_decoded_shape(h.input_size, h.hidden_sizes@, h.output_size,
                    h.hidden_activation, h.output_activation, h.layer_activations@)
                && d.training@ == spec_decoded_training(h.timestep, h.optimizer, h.use_batch_norm),
            Err(e) => spec_header_error(h.magic@, h.input_size, h.hidden_sizes@, h.output_size,
                h.layer_activations@.len()) == Some(e@),
        },
{
    let magic = String::from_str(MODEL_MAGIC);
    if h.magic != magic {
        let mut e = String::from_str("Invalid model file magic: ");
        e.append(h.magic.as_str());
        return Err(e);
    }
    let hidden_activation = int_to_activation(h.hidden_activation);
    let output_activation = int_to_activation(h.output_activation);
    let backend = TGPUBackend::from_str(h.gpu_backend.as_str());
    let mut shape = match NetworkShape::new_with_backend(
        h.input_size,
        &h.hidden_sizes,
        h.output_size,
        hidden_activation,
        output_activation,
        backend,
    ) {
        Ok(sh) => sh,
        Err(e) => return Err(e),
    };
    let n = h.hidden_sizes.len();
    let codes = &h.layer_activations;
    if codes.len() < 2 || codes.len() - 2 != n {
        return Err(String::from_str("Invalid model file: one activation per layer expected"));
    }
    let mut hidden: Vec<TActivationType> = Vec::new();
    let mut i: usize = 0;
    while i < n
        invariant
            n == h.hidden_sizes@.len(),
            codes@.len() == n + 2,
            i <= n,
            hidden@ == Seq::new(i as nat, |k: int| spec_int_to_activation(codes@[k + 1])),
        decreases n - i,
    {
        hidden.push(int_to_activation(codes[i + 1]));
        i = i + 1;
        proof {
            assert(hidden@ =~= Seq::new(i as nat, |k: int| spec_int_to_activation(codes@[k + 1])));
        }
    }
    shape.restore_layer_activations(int_to_activation(codes[0]), &hidden, int_to_activation(codes[n + 1]));
    let training = TrainingState::restored(h.timestep, int_to_optimizer(h.optimizer), h.use_batch_norm);
    proof {
        assert(shape@.hidden_activations =~= spec_decoded_shape(h.input_size, h.hidden_sizes@, h.output_size,
            h.hidden_activation, h.output_activation, h.layer_activations@).hidden_activations);
    }
    Ok(DecodedModel { shape, training })
}

/// The activation codes of every layer of `shape`, input layer first.
fn layer_codes(shape: &NetworkShape) -> (r: Vec<i32>)
    ensures
        r@ == spec_layer_codes(shape@),
{
    proof { use_type_invariant(shape); }
    let n = shape.hidden_activations.len();
    let mut r: Vec<i32> = Vec::new();
    r.push(activation_code(shape.input_activation));
    let mut i: usize = 0;
    while i < n
        invariant
            n == shape@.hidden_sizes.len(),
            n == shape@.hidden_activations.len(),
            i <= n,
            r@ == spec_layer_codes(shape@).subrange(0, i + 1),
        decreases n - i,
    {
        r.push(activation_code(shape.hidden_activations[i]));
        i = i + 1;
        proof {
            assert(r@ =~= spec_layer_codes(shape@).subrange(0, i + 1));
        }
    }
    r.push(activation_code(shape.output_layer_activation));
    assert(r@ =~= spec_layer_codes(shape@));
    r
}

/// The header fields that saving a network writes: the magic tag and
/// version, its sizes, the network's activation and optimizer codes, the
/// activation code of every layer, its step count and batch-normalisation
/// flag, and its backend's name.
pub fn encode_model_header(shape: &NetworkShape, training: &TrainingState) -> (r: ModelHeader)
    ensures
        r.magic@ == MODEL_MAGIC@,
        r.version@ == MODEL_VERSION@,
        r.input_size == shape@.input_size,
        r.output_size == shape@.output_size,
        r.hidden_sizes@ == shape@.hidden_sizes,
        r.optimizer == spec_optimizer_code(training@.optimizer),
        r.hidden_activation == spec_activation_code(shape@.hidden_activation),
        r.output_activation == spec_activation_code(shape@.output_activation),
        r.layer_activations@ == spec_layer_codes(shape@),
        r.timestep == training@.timestep,
        r.use_batch_norm == training@.use_batch_norm,
        r.gpu_backend@ == spec_gpu_backend_name(shape@.backend),
{
    ModelHeader {
        magic: String::from_str(MODEL_MAGIC),
        version: String::from_str(MODEL_VERSION),
        input_size: shape.GetInputSize(),
        output_size: shape.GetOutputSize(),
        hidden_sizes: shape.GetHiddenSizes().clone(),
        optimizer: optimizer_code(training.optimizer()),
        hidden_activation: activation_code(shape.hidden_activation),
        output_activation: activation_code(shape.output_activation),
        layer_activations: layer_codes(shape),
        timestep: training.timestep(),
        use_batch_norm: training.batch_norm(),
        gpu_backend: String::from_str(shape.get_backend().to_str()),
    }
}

// ---------------------------------------------------------------------
// Laws
// ---------------------------------------------------------------------

/// Parsing the name of an engine activation or optimizer gives it back.
pub proof fn law_engine_names_roundtrip(a: TActivationType, o: TOptimizerType)
    ensures
        spec_parse_activation(spec_activation_str(a)) == a,
        spec_parse_optimizer(spec_optimizer_str(o)) == o,
{
    let n = spec_activation_str(a);
    lemma_lower_eq_keyword(n, kw_sigmoid());
    lemma_lower_eq_keyword(n, kw_tanh());
    lemma_lower_eq_keyword(n, kw_relu());
    lemma_lower_eq_keyword(n, kw_softmax());
    let m = spec_optimizer_str(o);
    lemma_lower_eq_keyword(m, kw_sgd());
    lemma_lower_eq_keyword(m, kw_adam());
    lemma_lower_eq_keyword(m, kw_rmsprop());
}

/// Setting the activation of a layer and reading it back gives what was
/// set, for every layer index from the input to the output layer.
pub proof fn law_layer_activation_read_after_write(m: ShapeModel, idx: i32, act: TActivationType)
    requires
        shape_wf(m),
        0 <= idx <= m.hidden_sizes.len() + 1,
    ensures
        spec_layer_activation(spec_set_layer_activation(m, idx, act), idx) == act,
{
}

/// Setting the activation of one layer leaves the activations of the other
/// layers as they were.
pub proof fn law_layer_activation_frame(m: ShapeModel, idx: i32, other: i32, act: TActivationType)
    requires
        shape_wf(m),
        0 <= idx <= m.hidden_sizes.len() + 1,
        0 <= other <= m.hidden_sizes.len() + 1,
        idx != other,
    ensures
        spec_layer_activation(spec_set_layer_activation(m, idx, act), other) == spec_layer_activation(m, other),
{
}

/// Setting a layer's activation keeps the network's structure: its sizes,
/// its well-formedness and its backend.
pub proof fn law_set_activation_keeps_structure(m: ShapeModel, idx: i32, act: TActivationType)
    requires
        shape_wf(m),
    ensures
        shape_wf(spec_set_layer_activation(m, idx, act)),
        spec_set_layer_activation(m, idx, act).input_size == m.input_size,
        spec_set_layer_activation(m, idx, act).output_size == m.output_size,
        spec_set_layer_activation(m, idx, act).hidden_sizes == m.hidden_sizes,
        spec_set_layer_activation(m, idx, act).backend == m.backend,
{
}

/// A network accepted at creation is well formed, and its layers, from the
/// input layer to the output layer, all have a positive size; there is no
/// layer past the output layer.
pub proof fn law_new_shape_layers(
    input_size: i32,
    hidden: Seq<i32>,
    output_size: i32,
    hidden_activation: TActivationType,
    output_activation: TActivationType,
    idx: int,
)
    requires
        spec_shape_error(input_size, hidden, output_size) is None,
    ensures
        shape_wf(spec_new_shape(input_size, hidden, output_size, hidden_activation, output_activation)),
        0 <= idx <= hidden.len() + 1 ==> spec_layer_size(
            spec_new_shape(input_size, hidden, output_size, hidden_activation, output_activation), idx) > 0,
        idx > hidden.len() + 1 ==> spec_layer_size(
            spec_new_shape(input_size, hidden, output_size, hidden_activation, output_activation), idx) == 0,
        spec_layer_size(spec_new_shape(input_size, hidden, output_size, hidden_activation, output_activation), 0)
            == input_size,
        spec_layer_size(spec_new_shape(input_size, hidden, output_size, hidden_activation, output_activation),
            hidden.len() + 1 as int) == output_size,
{
    let m = spec_new_shape(input_size, hidden, output_size, hidden_activation, output_activation);
    assert(m.hidden_activations.len() == hidden.len());
    if 1 <= idx <= hidden.len() {
        assert(hidden[idx - 1] > 0);
    }
}

/// In a well-formed network every layer after the input layer takes a
/// positive number of weights per neuron: the size of the layer before it.
pub proof fn law_fan_in_positive(m: ShapeModel, idx: int)
    requires
        shape_wf(m),
        1 <= idx <= m.hidden_sizes.len() + 1,
    ensures
        spec_layer_size(m, idx - 1) > 0,
{
    if 2 <= idx {
        assert(m.hidden_sizes[idx - 2] > 0);
    }
}

/// An introspection index designates a neuron only within the hidden layer
/// sizes.
pub proof fn law_hidden_neuron_in_bounds(m: ShapeModel, layer: i32, neuron: i32)
    requires
        shape_wf(m),
    ensures
        spec_hidden_neuron(m, layer, neuron) matches Some((l, n)) ==> {
            &&& l < m.hidden_sizes.len()
            &&& n < m.hidden_sizes[l as int]
            &&& l == layer - 1
            &&& n == neuron
        },
        (layer <= 0 || layer > m.hidden_sizes.len() || neuron < 0) ==> spec_hidden_neuron(m, layer, neuron) is None,
{
}

/// A non-negative layer index designates a layer for its outputs exactly
/// when it is at most the output layer's index, and for its errors exactly
/// when it is also not the input layer's.
pub proof fn law_layer_index_bounds(m: ShapeModel, idx: i32)
    requires
        shape_wf(m),
        idx >= 0,
    ensures
        spec_output_layer(m, idx) is Some <==> idx <= m.hidden_sizes.len() + 1,
        spec_error_layer(m, idx) is Some <==> 1 <= idx <= m.hidden_sizes.len() + 1,
{
}

/// A network's shape has one activation throughout its hidden layers and
/// one at its output, the sigmoid at its input, and runs on the CPU: the
/// shape of every newly created network.
pub open spec fn uniform_shape(m: ShapeModel) -> bool {
    &&& m.input_activation == TActivationType::atSigmoid
    &&& forall|i: int| 0 <= i < m.hidden_activations.len() ==> #[trigger] m.hidden_activations[i] == m.hidden_activation
    &&& m.output_layer_activation == m.output_activation
    &&& m.backend == TGPUBackend::CPU
}

/// Reading back the header that saving a network writes gives the network
/// back exactly, every layer's activation included, for every well-formed
/// network on the CPU (the one backend of this build); and its training
/// state's step count, optimizer and batch-normalisation flag.
pub proof fn law_saved_header_reads_back(m: ShapeModel, t: TrainingModel)
    requires
        shape_wf(m),
        m.backend == TGPUBackend::CPU,
        m.input_size <= i32::MAX,
        m.output_size <= i32::MAX,
        i32::MIN <= t.timestep <= i32::MAX,
    ensures
        spec_header_error(MODEL_MAGIC@, m.input_size as i32, m.hidden_sizes, m.output_size as i32,
            spec_layer_codes(m).len()) is None,
        spec_decoded_shape(m.input_size as i32, m.hidden_sizes, m.output_size as i32,
            spec_activation_code(m.hidden_activation), spec_activation_code(m.output_activation),
            spec_layer_codes(m)) == m,
        spec_decoded_training(t.timestep as i32, spec_optimizer_code(t.optimizer), t.use_batch_norm)
            == (TrainingModel {
                timestep: t.timestep,
                optimizer: t.optimizer,
                use_batch_norm: t.use_batch_norm,
                ..spec_initial_training()
            }),
{
    let codes = spec_layer_codes(m);
    let d = spec_decoded_shape(m.input_size as i32, m.hidden_sizes, m.output_size as i32,
        spec_activation_code(m.hidden_activation), spec_activation_code(m.output_activation), codes);
    assert forall|i: int| 0 <= i < m.hidden_sizes.len() implies d.hidden_activations[i] == m.hidden_activations[i] by {
        assert(codes[i + 1] == spec_activation_code(m.hidden_activations[i]));
    }
    assert(d.hidden_activations =~= m.hidden_activations);
    assert(codes[0] == spec_activation_code(m.input_activation));
    assert(codes[m.hidden_sizes.len() + 1int] == spec_activation_code(m.output_layer_activation));
}

/// The pair of indices introspection reads a neuron at designates one
/// within its layer: a hidden neuron as the hidden-layer resolver gives
/// it, or an output neuron below the output size.
pub proof fn law_neuron_ref_in_bounds(m: ShapeModel, layer: i32, neuron: i32)
    requires
        shape_wf(m),
    ensures
        spec_neuron_ref(m, layer, neuron) matches Some((LayerRef::Hidden(l), n)) ==> {
            &&& spec_hidden_neuron(m, layer, neuron) == Some((l, n))
            &&& l < m.hidden_sizes.len()
            &&& n < m.hidden_sizes[l as int]
        },
        spec_neuron_ref(m, layer, neuron) matches Some((LayerRef::Output, n)) ==> {
            &&& layer == m.hidden_sizes.len() + 1
            &&& n < m.output_size
        },
        spec_neuron_ref(m, layer, neuron) is Some ==> !(spec_neuron_ref(m, layer, neuron) matches Some((LayerRef::Input, _))),
        (layer <= 0 || layer > m.hidden_sizes.len() + 1 || neuron < 0) ==> spec_neuron_ref(m, layer, neuron) is None,
{
}

/// A newly created network has a uniform shape.
pub proof fn law_new_shape_uniform(
    input_size: i32,
    hidden: Seq<i32>,
    output_size: i32,
    hidden_activation: TActivationType,
    output_activation: TActivationType,
)
    ensures
        uniform_shape(spec_new_shape(input_size, hidden, output_size, hidden_activation, output_activation)),
{
}

/// The layer index 0 designates the input layer, the indices 1 to the
/// number of hidden layers designate those hidden layers in order, and
/// the next index the output layer, both for reading a layer's outputs
/// and for reading its errors (the input layer has none).  Stated for
/// networks with fewer than `i32::MAX` hidden layers, where a negative index
/// cannot wrap onto the output layer's.
pub proof fn law_layer_index_designates(m: ShapeModel, idx: i32)
    requires
        shape_wf(m),
        m.hidden_sizes.len() < i32::MAX,
    ensures
        idx == 0 ==> spec_output_layer(m, idx) == Some(LayerRef::Input) && spec_error_layer(m, idx) is None,
        1 <= idx <= m.hidden_sizes.len() ==> spec_output_layer(m, idx) == Some(LayerRef::Hidden((idx - 1) as usize))
            && spec_error_layer(m, idx) == Some(LayerRef::Hidden((idx - 1) as usize)),
        idx == m.hidden_sizes.len() + 1 ==> spec_output_layer(m, idx) == Some(LayerRef::Output)
            && spec_error_layer(m, idx) == Some(LayerRef::Output),
        spec_error_layer(m, idx) == Some(LayerRef::Output) ==> idx == m.hidden_sizes.len() + 1,
        spec_output_layer(m, idx) == Some(LayerRef::Output) ==> idx == m.hidden_sizes.len() + 1,
        spec_error_layer(m, idx) matches Some(LayerRef::Hidden(l)) ==> l == idx - 1,
        spec_output_layer(m, idx) matches Some(LayerRef::Hidden(l)) ==> l == idx - 1,
{
    if idx < 0 {
        assert((idx as usize) > 0x7fff_ffffusize) by (bit_vector)
            requires idx < 0;
    }
}

/// Setting the activation of a hidden layer also makes it the network's
/// hidden activation (the one a saved model records), and setting the
/// output layer's makes it the network's output activation; other indices
/// leave both as they were.
pub proof fn law_set_activation_sets_defaults(m: ShapeModel, idx: i32, act: TActivationType)
    requires
        shape_wf(m),
        m.hidden_sizes.len() < i32::MAX,
    ensures
        1 <= idx <= m.hidden_sizes.len() ==> spec_set_layer_activation(m, idx, act).hidden_activation == act
            && spec_set_layer_activation(m, idx, act).output_activation == m.output_activation,
        idx == m.hidden_sizes.len() + 1 ==> spec_set_layer_activation(m, idx, act).output_activation == act
            && spec_set_layer_activation(m, idx, act).hidden_activation == m.hidden_activation,
        (idx <= 0 || idx > m.hidden_sizes.len() + 1) ==>
            spec_set_layer_activation(m, idx, act).hidden_activation == m.hidden_activation
            && spec_set_layer_activation(m, idx, act).output_activation == m.output_activation,
{
    if idx < 0 {
        assert((idx as usize) > 0x7fff_ffffusize) by (bit_vector)
            requires idx < 0;
    }
}

/// The engine's parsers read a name in any mix of cases: every case
/// variant of an activation or optimizer name gives that value.
pub proof fn law_engine_names_read_in_any_case(s: Seq<char>)
    ensures
        case_variant(s, kw_sigmoid()) ==> spec_parse_activation(s) == TActivationType::atSigmoid,
        case_variant(s, kw_tanh()) ==> spec_parse_activation(s) == TActivationType::atTanh,
        case_variant(s, kw_relu()) ==> spec_parse_activation(s) == TActivationType::atReLU,
        case_variant(s, kw_softmax()) ==> spec_parse_activation(s) == TActivationType::atSoftmax,
        case_variant(s, kw_sgd()) ==> spec_parse_optimizer(s) == TOptimizerType::otSGD,
        case_variant(s, kw_adam()) ==> spec_parse_optimizer(s) == TOptimizerType::otAdam,
        case_variant(s, kw_rmsprop()) ==> spec_parse_optimizer(s) == TOptimizerType::otRMSProp,
{
    let kws = seq![kw_sigmoid(), kw_tanh(), kw_relu(), kw_softmax(), kw_sgd(), kw_adam(), kw_rmsprop()];
    assert forall|k: int| 0 <= k < kws.len() && case_variant(s, #[trigger] kws[k]) implies
        (forall|v: Seq<char>| lower_eq(s, v) <==> kws[k] == v) by {
        assert(lower_word(kws[k]));
        assert forall|v: Seq<char>| lower_eq(s, v) <==> kws[k] == v by {
            lemma_case_variant_matches(s, kws[k], v);
        }
    }
    assert(kws[0] == kw_sigmoid());
    assert(kws[1] == kw_tanh());
    assert(kws[2] == kw_relu());
    assert(kws[3] == kw_softmax());
    assert(kws[4] == kw_sgd());
    assert(kws[5] == kw_adam());
    assert(kws[6] == kw_rmsprop());
}

} // verus!
