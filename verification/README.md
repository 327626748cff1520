# rustml (verified)

A fully connected multi-layer perceptron whose tensor layout, data flow and
training schedule are proved with Verus.

The network is generic over its scalar type. All scalar work (arithmetic,
activations and their derivatives, the cost derivative, input normalization,
weight initialization, the order used to pick the highest output) comes from
a toolkit implementing `functions::NetworkFunctions`; `functions::Functions`
builds one from closures. The contracts say which values flow into which of
these functions: the weighted input of each neuron is the dot product of the
layer's input with its weight row plus its bias, back-propagation follows the
chain rule layer by layer from the output back, and gradient descent updates
the parameters once per mini-batch by the average of its sample gradients.

- `src/functions.rs`: the toolkit trait and its closure implementation.
- `src/math.rs`: dot products and element-wise tensor operations.
- `src/model.rs`: the spec functions that model the forward pass,
  back-propagation and gradient descent.
- `src/perceptron.rs`: the network and its operations.
- `src/network.rs`: the network interfaces (`Resetable`, `Predictable`, ...).
- `src/random.rs`: shuffling through `rand`.
- `src/laws.rs`: properties that span several operations.
- `app/`: the `f32` cost function and scalar operations, and the training
  loop that prints its progress with `chrono` timestamps.
