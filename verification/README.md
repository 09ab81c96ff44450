# glassboxai_mlp

The verified core of GlassBoxAI, a transparent multi-layer perceptron.

`src/` is checked by Verus. It holds the integer, enum and text logic of
the library: option parsing and names, backend selection, the network's
shape with its per-layer activations, the index rules that introspection
reads and writes through, the engine's training state (optimizer, step
count, flags), the integer part of saved models, and the checks made on
values that arrive through the C interface.

`app/` is ordinary Rust around it: the floating-point engine (weights,
forward and backward passes, optimizers), model files in JSON, CSV
loading, the `MLP` facade and the `extern "C"` functions. It calls the
verified functions for every decision above.

`tests/` runs the library on concrete values.
