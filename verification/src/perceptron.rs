//! The multi-layer perceptron: its parameters and state, the forward pass,
//! back-propagation and mini-batch gradient descent.

use vstd::prelude::*;
use crate::functions::{FuncElementWiseDependency, NetworkFunctions, view2};
use crate::network::{Backpropable, Predictable, Resetable};
use crate::random::{shuffle, thread_rng};
use crate::laws::{lemma_backward_hidden_layer, lemma_backward_output_layer, lemma_forward_layers};
use crate::math::{
    column_sum, combine2, combine3, combine_matrices, combine_tensors, dot, dot_product, same_shape2,
    same_shape3,
    scale2, scale3, scale_matrix, scale_tensor, view3, weighted_column_sum, Combine, Scale,
    lemma_combine2_shape, lemma_combine3_shape, lemma_scale2_shape, lemma_scale3_shape, lemma_shape2,
    lemma_shape3,
};
use crate::model::{
    activation_output, backward, descend, forward, gradient_sum, hidden_cost_derivatives,
    highest_index, layer_input, layer_output, mini_batch_bounds, output_cost_derivatives,
    sample_gradients, seq_of, updated_parameters, value_derivatives, weight_gradients, zeros,
    lemma_descend_push,
};

verus! {

/// A fully connected feed-forward network.
///
/// `shape[i]` is the number of neurons of layer `i`, where layer 0 is the
/// input. For each computed layer `l` (`0 <= l < shape.len() - 1`),
/// `weights[l][j]` are the weights from the neurons of the previous layer to
/// neuron `j`, `biases[l][j]` its bias, `layers[l][j]` its weighted input and
/// `activated_layers[l][j]` its activation.
#[verifier::reject_recursive_types(T)]
pub struct MultiLayerPerceptron<T, F> {
    pub shape: Vec<usize>,
    /// How the activation of each computed layer depends on its neurons; the
    /// activation functions themselves are those of `functions`.
    pub activation_funcs: Vec<FuncElementWiseDependency>,
    pub functions: F,
    pub inputs: Vec<T>,
    pub normalized_inputs: Vec<T>,
    pub weights: Vec<Vec<Vec<T>>>,
    pub biases: Vec<Vec<T>>,
    pub layers: Vec<Vec<T>>,
    pub activated_layers: Vec<Vec<T>>,
}

impl<T, F> MultiLayerPerceptron<T, F> {
    /// The number of computed layers (all but the input layer).
    pub open spec fn layer_count(&self) -> nat {
        (self.shape.len() - 1) as nat
    }

    /// The input of computed layer `l` in the current state.
    pub open spec fn input_of(&self, l: int) -> Seq<T> {
        layer_input(self.normalized_inputs@, view2(self.activated_layers), l)
    }
}

impl<T, F: NetworkFunctions<T>> MultiLayerPerceptron<T, F> {
    /// Every tensor has the dimensions that the shape gives it.
    pub open spec fn well_formed(&self) -> bool {
        &&& self.shape.len() >= 1
        &&& self.activation_funcs.len() == self.shape.len() - 1
        &&& self.functions.valid()
        &&& self.inputs.len() == self.shape[0]
        &&& self.normalized_inputs.len() == self.shape[0]
        &&& self.weights.len() == self.layer_count()
        &&& self.biases.len() == self.layer_count()
        &&& self.layers.len() == self.layer_count()
        &&& self.activated_layers.len() == self.layer_count()
        &&& forall|l: int|
            0 <= l < self.layer_count() ==> (#[trigger] self.weights[l]).len() == self.shape[l + 1]
        &&& forall|l: int|
            0 <= l < self.layer_count() ==> (#[trigger] self.biases[l]).len() == self.shape[l + 1]
        &&& forall|l: int|
            0 <= l < self.layer_count() ==> (#[trigger] self.layers[l]).len() == self.shape[l + 1]
        &&& forall|l: int|
            0 <= l < self.layer_count() ==> (#[trigger] self.activated_layers[l]).len()
                == self.shape[l + 1]
        &&& forall|l: int, j: int|
            0 <= l < self.layer_count() && 0 <= j < self.shape[l + 1] ==> (
            #[trigger] self.weights[l][j]).len() == self.shape[l]
    }

    /// The state that `reset_params` leaves: zero inputs, biases and layers,
    /// and each weight drawn from the initializer of its layer.
    pub open spec fn freshly_reset(&self) -> bool {
        &&& self.inputs@ == zeros(self.functions, self.shape[0] as nat)
        &&& self.normalized_inputs@ == zeros(self.functions, self.shape[0] as nat)
        &&& forall|l: int|
            0 <= l < self.layer_count() ==> (#[trigger] self.biases[l])@ == zeros(
                self.functions,
                self.shape[l + 1] as nat,
            )
        &&& forall|l: int|
            0 <= l < self.layer_count() ==> (#[trigger] self.layers[l])@ == zeros(
                self.functions,
                self.shape[l + 1] as nat,
            )
        &&& forall|l: int|
            0 <= l < self.layer_count() ==> (#[trigger] self.activated_layers[l])@ == zeros(
                self.functions,
                self.shape[l + 1] as nat,
            )
        &&& forall|l: int, j: int, k: int|
            0 <= l < self.layer_count() && 0 <= j < self.shape[l + 1] && 0 <= k < self.shape[l]
                ==> self.functions.init_outcome(
                l as usize,
                self.shape[l],
                #[trigger] self.weights[l][j][k],
            )
    }
}

/// `n` copies of `value`.
fn filled<T: Copy>(value: T, n: usize) -> (r: Vec<T>)
    ensures
        r@ == Seq::new(n as nat, |i: int| value),
{
    let mut r: Vec<T> = Vec::new();
    let mut i: usize = 0;
    while i < n
        invariant
            i <= n,
            r@ == Seq::new(i as nat, |k: int| value),
        decreases n - i,
    {
        r.push(value);
        i = i + 1;
        assert(r@ =~= Seq::new(i as nat, |k: int| value));
    }
    r
}

impl<T: Copy, F: NetworkFunctions<T>> MultiLayerPerceptron<T, F> {
    /// The weights of one computed layer: `neuron_cnt` rows of `fan_in`
    /// values drawn from the initializer of layer `layer`.
    fn initial_layer_weights(f: &F, layer: usize, neuron_cnt: usize, fan_in: usize) -> (r: Vec<
        Vec<T>,
    >)
        requires
            f.valid(),
        ensures
            r.len() == neuron_cnt,
            forall|j: int| 0 <= j < neuron_cnt ==> (#[trigger] r[j]).len() == fan_in,
            forall|j: int, k: int|
                0 <= j < neuron_cnt && 0 <= k < fan_in ==> f.init_outcome(
                    layer,
                    fan_in,
                    #[trigger] r[j][k],
                ),
    {
        let mut layer_weights: Vec<Vec<T>> = Vec::new();
        let mut j: usize = 0;
        while j < neuron_cnt
            invariant
                f.valid(),
                j <= neuron_cnt,
                layer_weights.len() == j,
                forall|j2: int| 0 <= j2 < j ==> (#[trigger] layer_weights[j2]).len() == fan_in,
                forall|j2: int, k: int|
                    0 <= j2 < j && 0 <= k < fan_in ==> f.init_outcome(
                        layer,
                        fan_in,
                        #[trigger] layer_weights[j2][k],
                    ),
            decreases neuron_cnt - j,
        {
            let mut neuron_weights: Vec<T> = Vec::new();
            let mut k: usize = 0;
            while k < fan_in
                invariant
                    f.valid(),
                    k <= fan_in,
                    neuron_weights.len() == k,
                    forall|k2: int|
                        0 <= k2 < k ==> f.init_outcome(layer, fan_in, #[trigger] neuron_weights[k2]),
                decreases fan_in - k,
            {
                let w = f.init_weight(layer, fan_in);
                neuron_weights.push(w);
                k = k + 1;
            }
            layer_weights.push(neuron_weights);
            j = j + 1;
        }
        layer_weights
    }

    /// A network of the given shape, with one activation per computed layer,
    /// freshly reset.
    pub fn new(shape: Vec<usize>, activation_funcs: Vec<FuncElementWiseDependency>, functions: F) -> (net: Self)
        requires
            shape.len() >= 1,
            activation_funcs.len() == shape.len() - 1,
            functions.valid(),
        ensures
            net.well_formed(),
            net.freshly_reset(),
            net.shape == shape,
            net.activation_funcs == activation_funcs,
            net.functions == functions,
    {
        let mut net = MultiLayerPerceptron {
            shape,
            activation_funcs,
            functions,
            inputs: Vec::new(),
            normalized_inputs: Vec::new(),
            weights: Vec::new(),
            biases: Vec::new(),
            layers: Vec::new(),
            activated_layers: Vec::new(),
        };
        net.reset_params();
        net
    }
}

impl<T, F> MultiLayerPerceptron<T, F> {
    /// `self` and `other` have the same shape, activations, toolkit, weights
    /// and biases.
    pub open spec fn same_parameters(&self, other: &Self) -> bool {
        &&& self.shape == other.shape
        &&& self.activation_funcs == other.activation_funcs
        &&& self.functions == other.functions
        &&& self.weights == other.weights
        &&& self.biases == other.biases
    }
}

impl<T: Copy, F: NetworkFunctions<T>> MultiLayerPerceptron<T, F> {

    /// Activates layer `layer_i` neuron by neuron.
    fn activate_independent_layer(&mut self, layer_i: usize)
        requires
            old(self).well_formed(),
            layer_i < old(self).layer_count(),
            old(self).activation_funcs[layer_i as int] == FuncElementWiseDependency::Independent,
        ensures
            final(self).well_formed(),
            final(self).same_parameters(old(self)),
            final(self).inputs == old(self).inputs,
            final(self).normalized_inputs == old(self).normalized_inputs,
            final(self).layers == old(self).layers,
            final(self).activated_layers@ == old(self).activated_layers@.update(
                layer_i as int,
                final(self).activated_layers[layer_i as int],
            ),
            final(self).activated_layers[layer_i as int]@ == activation_output(
                old(self).functions,
                FuncElementWiseDependency::Independent,
                layer_i as int,
                old(self).layers[layer_i as int]@,
            ),
    {
        let layer = &self.layers[layer_i];
        let mut activated: Vec<T> = Vec::new();
        let mut j: usize = 0;
        while j < layer.len()
            invariant
                self.functions.valid(),
                j <= layer.len(),
                activated@ == Seq::new(
                    layer.len() as nat,
                    |k: int| self.functions.activate_result(layer_i, layer[k]),
                ).take(j as int),
            decreases layer.len() - j,
        {
            let a = self.functions.activate(layer_i, layer[j]);
            activated.push(a);
            j = j + 1;
        }
        assert(activated@ =~= activation_output(
            self.functions,
            FuncElementWiseDependency::Independent,
            layer_i as int,
            layer@,
        ));
        self.activated_layers.set(layer_i, activated);
    }

    /// Activates layer `layer_i` as a whole.
    fn activate_dependent_layer(&mut self, layer_i: usize)
        requires
            old(self).well_formed(),
            layer_i < old(self).layer_count(),
            old(self).activation_funcs[layer_i as int] == FuncElementWiseDependency::Dependent,
        ensures
            final(self).well_formed(),
            final(self).same_parameters(old(self)),
            final(self).inputs == old(self).inputs,
            final(self).normalized_inputs == old(self).normalized_inputs,
            final(self).layers == old(self).layers,
            final(self).activated_layers@ == old(self).activated_layers@.update(
                layer_i as int,
                final(self).activated_layers[layer_i as int],
            ),
            final(self).activated_layers[layer_i as int]@ == activation_output(
                old(self).functions,
                FuncElementWiseDependency::Dependent,
                layer_i as int,
                old(self).layers[layer_i as int]@,
            ),
    {
        let activated = self.functions.activate_vec(layer_i, &self.layers[layer_i]);
        self.activated_layers.set(layer_i, activated);
    }

}

/// A copy of `v`.
fn copy_vec<T: Copy>(v: &Vec<T>) -> (r: Vec<T>)
    ensures
        r@ == v@,
{
    let mut r: Vec<T> = Vec::new();
    let mut i: usize = 0;
    while i < v.len()
        invariant
            i <= v.len(),
            r@ == v@.take(i as int),
        decreases v.len() - i,
    {
        r.push(v[i]);
        i = i + 1;
    }
    assert(r@ =~= v@);
    r
}

impl<T, F: NetworkFunctions<T>> MultiLayerPerceptron<T, F> {
    /// What back-propagation through layer `l` needs: the expected output for
    /// the output layer, dC/dz of the next layer otherwise.
    pub open spec fn backprop_arguments(
        &self,
        l: int,
        next_value_derivatives: Option<&Vec<T>>,
        expected: Option<&Vec<T>>,
    ) -> bool {
        if l + 1 == self.layer_count() {
            &&& expected is Some
            &&& expected.unwrap().len() >= self.shape[l + 1]
        } else {
            &&& next_value_derivatives is Some
            &&& next_value_derivatives.unwrap().len() <= self.shape[l + 2]
        }
    }

    /// dC/da of layer `l` in the current state.
    pub open spec fn cost_activation_derivatives_of(
        &self,
        l: int,
        next_value_derivatives: Seq<T>,
        expected: Seq<T>,
    ) -> Seq<T> {
        if l + 1 == self.layer_count() {
            output_cost_derivatives(self.functions, self.activated_layers[l]@, expected)
        } else {
            hidden_cost_derivatives(
                self.functions,
                self.activated_layers[l].len() as nat,
                next_value_derivatives,
                view2(self.weights[l + 1]),
            )
        }
    }

    /// dC/dz of layer `l` in the current state.
    pub open spec fn value_derivatives_of(
        &self,
        l: int,
        next_value_derivatives: Seq<T>,
        expected: Seq<T>,
    ) -> Seq<T> {
        value_derivatives(
            self.functions,
            self.activation_funcs[l],
            l,
            self.layers[l]@,
            self.cost_activation_derivatives_of(l, next_value_derivatives, expected),
        )
    }

    /// dC/dz of layer `l` in the current state, for the expected output.
    pub open spec fn backward_of(&self, expected: Seq<T>, l: int) -> Seq<T> {
        backward(
            self.functions,
            self.activation_funcs@,
            view3(self.weights),
            view2(self.layers),
            view2(self.activated_layers),
            expected,
            self.layer_count(),
            l,
        )
    }
}

impl<T: Copy, F: NetworkFunctions<T>> MultiLayerPerceptron<T, F> {
    /// dC/da of layer `layer_i`.
    fn cost_activation_derivatives(
        &self,
        layer_i: usize,
        prev_cost_value_derivatives: Option<&Vec<T>>,
        expected: Option<&Vec<T>>,
    ) -> (r: Vec<T>)
        requires
            self.well_formed(),
            layer_i < self.layer_count(),
            self.backprop_arguments(layer_i as int, prev_cost_value_derivatives, expected),
        ensures
            r@ == self.cost_activation_derivatives_of(
                layer_i as int,
                seq_of(prev_cost_value_derivatives),
                seq_of(expected),
            ),
            r.len() == self.shape[layer_i + 1],
    {
        let activated_layer = &self.activated_layers[layer_i];
        let mut r: Vec<T> = Vec::new();
        if layer_i == self.layers.len() - 1 {
            let expected = expected.unwrap();
            let ghost target = output_cost_derivatives(
                self.functions,
                activated_layer@,
                expected@,
            );
            let mut j: usize = 0;
            while j < activated_layer.len()
                invariant
                    self.functions.valid(),
                    j <= activated_layer.len(),
                    activated_layer.len() <= expected.len(),
                    target == output_cost_derivatives(self.functions, activated_layer@, expected@),
                    r@ == target.take(j as int),
                decreases activated_layer.len() - j,
            {
                let d = self.functions.cost_derivative(activated_layer[j], expected[j]);
                r.push(d);
                j = j + 1;
            }
            assert(r@ =~= target);
        } else {
            let prev = prev_cost_value_derivatives.unwrap();
            let prev_weights = &self.weights[layer_i + 1];
            let ghost target = hidden_cost_derivatives(
                self.functions,
                activated_layer.len() as nat,
                prev@,
                view2(*prev_weights),
            );
            let mut j: usize = 0;
            while j < activated_layer.len()
                invariant
                    self.well_formed(),
                    layer_i + 1 < self.layer_count(),
                    prev_weights == self.weights[layer_i + 1],
                    activated_layer.len() == self.shape[layer_i + 1],
                    prev.len() <= self.shape[layer_i + 2],
                    j <= activated_layer.len(),
                    target == hidden_cost_derivatives(
                        self.functions,
                        activated_layer.len() as nat,
                        prev@,
                        view2(*prev_weights),
                    ),
                    r@ == target.take(j as int),
                decreases activated_layer.len() - j,
            {
                assert forall|i: int| 0 <= i < prev.len() implies j < (
                #[trigger] prev_weights[i]).len() by {
                    assert(prev_weights[i].len() == self.shape[layer_i + 1]);
                }
                let d = weighted_column_sum(&self.functions, prev, prev_weights, j);
                r.push(d);
                j = j + 1;
            }
            assert(r@ =~= target);
        }
        r
    }

    /// dC/dz of layer `layer_i`, whose activation works neuron by neuron.
    fn calculate_cost_value_derivative_independent(
        &self,
        layer_i: usize,
        prev_cost_value_derivatives: Option<&Vec<T>>,
        expected: Option<&Vec<T>>,
    ) -> (r: Vec<T>)
        requires
            self.well_formed(),
            layer_i < self.layer_count(),
            self.activation_funcs[layer_i as int] == FuncElementWiseDependency::Independent,
            self.backprop_arguments(layer_i as int, prev_cost_value_derivatives, expected),
        ensures
            r@ == self.value_derivatives_of(
                layer_i as int,
                seq_of(prev_cost_value_derivatives),
                seq_of(expected),
            ),
            r.len() == self.shape[layer_i + 1],
    {
        let layer = &self.layers[layer_i];
        let cost_activation_derivatives = self.cost_activation_derivatives(
            layer_i,
            prev_cost_value_derivatives,
            expected,
        );
        let ghost target = self.value_derivatives_of(
            layer_i as int,
            seq_of(prev_cost_value_derivatives),
            seq_of(expected),
        );
        let mut r: Vec<T> = Vec::new();
        let mut j: usize = 0;
        while j < cost_activation_derivatives.len()
            invariant
                self.functions.valid(),
                cost_activation_derivatives.len() == layer.len(),
                j <= cost_activation_derivatives.len(),
                target == value_derivatives(
                    self.functions,
                    FuncElementWiseDependency::Independent,
                    layer_i as int,
                    layer@,
                    cost_activation_derivatives@,
                ),
                r@ == target.take(j as int),
            decreases cost_activation_derivatives.len() - j,
        {
            let da_dz = self.functions.activate_derivative(layer_i, layer[j]);
            let d = self.functions.mul(cost_activation_derivatives[j], da_dz);
            r.push(d);
            j = j + 1;
        }
        assert(r@ =~= target);
        r
    }

    /// dC/dz of layer `layer_i`, whose activation works on the whole layer.
    fn calculate_cost_value_derivative_dependent(
        &self,
        layer_i: usize,
        prev_cost_value_derivatives: Option<&Vec<T>>,
        expected: Option<&Vec<T>>,
    ) -> (r: Vec<T>)
        requires
            self.well_formed(),
            layer_i < self.layer_count(),
            self.activation_funcs[layer_i as int] == FuncElementWiseDependency::Dependent,
            self.backprop_arguments(layer_i as int, prev_cost_value_derivatives, expected),
        ensures
            r@ == self.value_derivatives_of(
                layer_i as int,
                seq_of(prev_cost_value_derivatives),
                seq_of(expected),
            ),
            r.len() == self.shape[layer_i + 1],
    {
        let layer = &self.layers[layer_i];
        let cost_activation_derivatives = self.cost_activation_derivatives(
            layer_i,
            prev_cost_value_derivatives,
            expected,
        );
        let activation_jacobian = self.functions.jacobian(layer_i, layer);
        let ghost jac = self.functions.jacobian_result(layer_i, layer@);
        let ghost target = self.value_derivatives_of(
            layer_i as int,
            seq_of(prev_cost_value_derivatives),
            seq_of(expected),
        );
        let mut r: Vec<T> = Vec::new();
        let mut j: usize = 0;
        while j < activation_jacobian.len()
            invariant
                self.functions.valid(),
                cost_activation_derivatives.len() == layer.len(),
                activation_jacobian.len() == layer.len(),
                forall|i: int|
                    0 <= i < activation_jacobian.len() ==> (#[trigger] activation_jacobian[i]).len()
                        == layer.len(),
                view2(activation_jacobian) == jac,
                j <= activation_jacobian.len(),
                target == Seq::new(
                    jac.len(),
                    |j: int| column_sum(self.functions, cost_activation_derivatives@, jac, j),
                ),
                r@ == target.take(j as int),
            decreases activation_jacobian.len() - j,
        {
            let d = weighted_column_sum(
                &self.functions,
                &cost_activation_derivatives,
                &activation_jacobian,
                j,
            );
            r.push(d);
            j = j + 1;
        }
        assert(r@ =~= target);
        r
    }

    /// dC/dz of layer `layer_i`.
    fn calculate_cost_value_derivative(
        &self,
        layer_i: usize,
        prev_cost_value_derivatives: Option<&Vec<T>>,
        expected: Option<&Vec<T>>,
    ) -> (r: Vec<T>)
        requires
            self.well_formed(),
            layer_i < self.layer_count(),
            self.backprop_arguments(layer_i as int, prev_cost_value_derivatives, expected),
        ensures
            r@ == self.value_derivatives_of(
                layer_i as int,
                seq_of(prev_cost_value_derivatives),
                seq_of(expected),
            ),
            r.len() == self.shape[layer_i + 1],
    {
        match self.activation_funcs[layer_i] {
            FuncElementWiseDependency::Dependent => self.calculate_cost_value_derivative_dependent(
                layer_i,
                prev_cost_value_derivatives,
                expected,
            ),
            FuncElementWiseDependency::Independent => self.calculate_cost_value_derivative_independent(
                layer_i,
                prev_cost_value_derivatives,
                expected,
            ),
        }
    }

}

impl<T, F: NetworkFunctions<T>> MultiLayerPerceptron<T, F> {
    /// `(dws, dbs)` are dC/dw and dC/db of every layer for the expected
    /// output, in the current state.
    pub open spec fn gradients_of(
        &self,
        expected: Seq<T>,
        dws: Vec<Vec<Vec<T>>>,
        dbs: Vec<Vec<T>>,
    ) -> bool {
        &&& dws.len() == self.layer_count()
        &&& dbs.len() == self.layer_count()
        &&& forall|l: int|
            0 <= l < self.layer_count() ==> (#[trigger] dbs[l])@ == self.backward_of(expected, l)
        &&& forall|l: int|
            0 <= l < self.layer_count() ==> view2(#[trigger] dws[l]) == weight_gradients(
                self.functions,
                dbs[l]@,
                self.input_of(l),
            )
    }

    /// `dws` and `dbs` have the dimensions of the weights and the biases.
    pub open spec fn parameter_shaped(&self, dws: Vec<Vec<Vec<T>>>, dbs: Vec<Vec<T>>) -> bool {
        &&& dws.len() == self.layer_count()
        &&& dbs.len() == self.layer_count()
        &&& forall|l: int|
            0 <= l < self.layer_count() ==> (#[trigger] dws[l]).len() == self.shape[l + 1]
        &&& forall|l: int|
            0 <= l < self.layer_count() ==> (#[trigger] dbs[l]).len() == self.shape[l + 1]
        &&& forall|l: int, j: int|
            0 <= l < self.layer_count() && 0 <= j < self.shape[l + 1] ==> (
            #[trigger] dws[l][j]).len() == self.shape[l]
    }
}

impl<T, F: NetworkFunctions<T>> MultiLayerPerceptron<T, F> {
    /// Every sample of `batch` has an input of the input layer's size and an
    /// expected output at least as long as the output layer.
    pub open spec fn fits_samples(&self, batch: Seq<(Vec<T>, Vec<T>)>) -> bool {
        forall|i: int|
            0 <= i < batch.len() ==> (#[trigger] batch[i]).0.len() == self.shape[0]
                && batch[i].1.len() >= self.shape[self.layer_count() as int]
    }

    /// The state that a forward pass over the current input leaves with the
    /// parameters `w` and `b`.
    pub open spec fn forwarded_with(&self, w: Seq<Seq<Seq<T>>>, b: Seq<Seq<T>>) -> bool {
        &&& self.normalized_inputs@ == self.functions.normalize_result(self.inputs@)
        &&& (view2(self.layers), view2(self.activated_layers)) == forward(
            self.functions,
            self.activation_funcs@,
            w,
            b,
            self.normalized_inputs@,
            self.layer_count(),
        )
    }

    /// Each element-wise layer `l` holds, for each neuron, layer `l`'s own
    /// activation function of the neuron's weighted input; each whole-layer
    /// one holds its own function of the layer's weighted inputs.
    pub open spec fn activations_match(&self) -> bool {
        &&& forall|l: int, j: int|
            0 <= l < self.layer_count() && self.activation_funcs[l]
                == FuncElementWiseDependency::Independent && 0 <= j < self.layers[l].len()
                ==> #[trigger] self.activated_layers[l][j] == self.functions.activate_result(
                l as usize,
                self.layers[l][j],
            )
        &&& forall|l: int|
            0 <= l < self.layer_count() && self.activation_funcs[l]
                == FuncElementWiseDependency::Dependent ==> (#[trigger] self.activated_layers[l])@
                == self.functions.activate_vec_result(l as usize, self.layers[l]@)
    }

    /// The weighted input of each neuron is the dot product of its layer's
    /// input with the neuron's weights, plus its bias.
    pub open spec fn weighted_inputs_match(&self) -> bool {
        forall|l: int, j: int|
            0 <= l < self.layer_count() && 0 <= j < self.shape[l + 1] ==> #[trigger] self.layers[l][j]
                == self.functions.add_result(
                dot(self.functions, self.input_of(l), self.weights[l][j]@),
                self.biases[l][j],
            )
    }

    /// The weights and biases, viewed as nested sequences.
    pub open spec fn parameters(&self) -> (Seq<Seq<Seq<T>>>, Seq<Seq<T>>) {
        (view3(self.weights), view2(self.biases))
    }
}

impl<T: Copy, F: NetworkFunctions<T>> MultiLayerPerceptron<T, F> {
    /// Makes `inputs` the network's input and runs the forward pass.
    pub fn predict(&mut self, inputs: &Vec<T>)
        requires
            old(self).well_formed(),
            inputs.len() == old(self).shape[0],
        ensures
            final(self).well_formed(),
            final(self).same_parameters(old(self)),
            final(self).inputs@ == inputs@,
            final(self).normalized_inputs@ == old(self).functions.normalize_result(inputs@),
            (view2(final(self).layers), view2(final(self).activated_layers)) == forward(
                old(self).functions,
                old(self).activation_funcs@,
                view3(old(self).weights),
                view2(old(self).biases),
                final(self).normalized_inputs@,
                old(self).layer_count(),
            ),
            final(self).weighted_inputs_match(),
            final(self).activations_match(),
    {
        self.inputs = copy_vec(inputs);
        self.feedforward();
    }

    /// Moves the parameters against the gradients:
    /// weights become `(w - dws) * learning_rate`, biases `(b - dbs) * learning_rate`.
    pub fn update_weights_and_biases(
        &mut self,
        dws: Vec<Vec<Vec<T>>>,
        dbs: Vec<Vec<T>>,
        learning_rate: T,
    )
        requires
            old(self).well_formed(),
            old(self).parameter_shaped(dws, dbs),
        ensures
            final(self).well_formed(),
            final(self).shape == old(self).shape,
            final(self).activation_funcs == old(self).activation_funcs,
            final(self).functions == old(self).functions,
            final(self).inputs == old(self).inputs,
            final(self).normalized_inputs == old(self).normalized_inputs,
            final(self).layers == old(self).layers,
            final(self).activated_layers == old(self).activated_layers,
            final(self).parameters() == updated_parameters(
                old(self).functions,
                view3(old(self).weights),
                view2(old(self).biases),
                view3(dws),
                view2(dbs),
                learning_rate,
            ),
            forall|l: int, j: int, k: int|
                0 <= l < old(self).layer_count() && 0 <= j < old(self).shape[l + 1] && 0 <= k
                    < old(self).shape[l] ==> #[trigger] final(self).weights[l][j][k]
                    == old(self).functions.mul_result(
                    old(self).functions.sub_result(old(self).weights[l][j][k], dws[l][j][k]),
                    learning_rate,
                ),
            forall|l: int, j: int|
                0 <= l < old(self).layer_count() && 0 <= j < old(self).shape[l + 1]
                    ==> #[trigger] final(self).biases[l][j] == old(self).functions.mul_result(
                    old(self).functions.sub_result(old(self).biases[l][j], dbs[l][j]),
                    learning_rate,
                ),
    {
        proof {
            assert(self.parameter_shaped(self.weights, self.biases));
            self.lemma_same_shapes(self.weights, self.biases, dws, dbs);
        }
        let w_diff = combine_tensors(&self.functions, Combine::Subtract, &self.weights, &dws);
        let b_diff = combine_matrices(&self.functions, Combine::Subtract, &self.biases, &dbs);
        let new_weights = scale_tensor(&self.functions, Scale::MultiplyBy(learning_rate), &w_diff);
        let new_biases = scale_matrix(&self.functions, Scale::MultiplyBy(learning_rate), &b_diff);
        proof {
            let f = self.functions;
            lemma_combine3_shape(f, Combine::Subtract, view3(self.weights), view3(dws));
            lemma_shape3(w_diff, combine3(f, Combine::Subtract, view3(self.weights), view3(dws)), self.weights);
            lemma_scale3_shape(f, Scale::MultiplyBy(learning_rate), view3(w_diff));
            lemma_shape3(new_weights, scale3(f, Scale::MultiplyBy(learning_rate), view3(w_diff)), w_diff);
            lemma_combine2_shape(f, Combine::Subtract, view2(self.biases), view2(dbs));
            lemma_shape2(b_diff, combine2(f, Combine::Subtract, view2(self.biases), view2(dbs)), self.biases);
            lemma_scale2_shape(f, Scale::MultiplyBy(learning_rate), view2(b_diff));
            lemma_shape2(new_biases, scale2(f, Scale::MultiplyBy(learning_rate), view2(b_diff)), b_diff);
        }
        proof {
            let f = self.functions;
            assert forall|l: int, j: int, k: int|
                0 <= l < self.layer_count() && 0 <= j < self.shape[l + 1] && 0 <= k < self.shape[l]
                    implies #[trigger] new_weights[l][j][k] == f.mul_result(
                f.sub_result(self.weights[l][j][k], dws[l][j][k]),
                learning_rate,
            ) by {
                assert(view3(new_weights)[l] == view2(new_weights[l]));
                assert(view2(new_weights[l])[j] == new_weights[l][j]@);
                assert(view3(w_diff)[l] == view2(w_diff[l]));
                assert(view2(w_diff[l])[j] == w_diff[l][j]@);
                assert(view3(self.weights)[l] == view2(self.weights[l]));
                assert(view2(self.weights[l])[j] == self.weights[l][j]@);
                assert(view3(dws)[l] == view2(dws[l]));
                assert(view2(dws[l])[j] == dws[l][j]@);
            }
            assert forall|l: int, j: int|
                0 <= l < self.layer_count() && 0 <= j < self.shape[l + 1] implies #[trigger] new_biases[l][j]
                == f.mul_result(f.sub_result(self.biases[l][j], dbs[l][j]), learning_rate) by {
                assert(view2(new_biases)[l] == new_biases[l]@);
                assert(view2(b_diff)[l] == b_diff[l]@);
                assert(view2(self.biases)[l] == self.biases[l]@);
                assert(view2(dbs)[l] == dbs[l]@);
            }
        }
        self.weights = new_weights;
        self.biases = new_biases;
    }
}

impl<T: Copy, F: NetworkFunctions<T>> MultiLayerPerceptron<T, F> {
    /// After the forward pass over `x`, back-propagation gives the sample
    /// gradients of `x`.
    proof fn lemma_sample_gradients(
        &self,
        x: Seq<T>,
        y: Seq<T>,
        dws: Vec<Vec<Vec<T>>>,
        dbs: Vec<Vec<T>>,
    )
        requires
            self.normalized_inputs@ == self.functions.normalize_result(x),
            (view2(self.layers), view2(self.activated_layers)) == forward(
                self.functions,
                self.activation_funcs@,
                view3(self.weights),
                view2(self.biases),
                self.normalized_inputs@,
                self.layer_count(),
            ),
            self.gradients_of(y, dws, dbs),
        ensures
            (view3(dws), view2(dbs)) == sample_gradients(
                self.functions,
                self.activation_funcs@,
                view3(self.weights),
                view2(self.biases),
                self.layer_count(),
                x,
                y,
            ),
    {
        let g = sample_gradients(
            self.functions,
            self.activation_funcs@,
            view3(self.weights),
            view2(self.biases),
            self.layer_count(),
            x,
            y,
        );
        assert(view2(dbs) =~= g.1);
        assert forall|l: int| 0 <= l < dws.len() implies #[trigger] view3(dws)[l] == g.0[l] by {
            assert(view3(dws)[l] == view2(dws[l]));
        }
        assert(view3(dws) =~= g.0);
    }

    /// Tensors shaped like the parameters have the shapes of each other.
    proof fn lemma_same_shapes(
        &self,
        a3: Vec<Vec<Vec<T>>>,
        a2: Vec<Vec<T>>,
        b3: Vec<Vec<Vec<T>>>,
        b2: Vec<Vec<T>>,
    )
        requires
            self.well_formed(),
            self.parameter_shaped(a3, a2),
            self.parameter_shaped(b3, b2),
        ensures
            same_shape3(view3(a3), view3(b3)),
            same_shape2(view2(a2), view2(b2)),
    {
        assert forall|l: int| 0 <= l < a3.len() implies same_shape2(
            #[trigger] view3(a3)[l],
            view3(b3)[l],
        ) by {
            assert(view3(a3)[l] == view2(a3[l]));
            assert(view3(b3)[l] == view2(b3[l]));
            assert forall|j: int| 0 <= j < a3[l].len() implies (#[trigger] view2(a3[l])[j]).len()
                == view2(b3[l])[j].len() by {
                assert(view2(a3[l])[j] == a3[l][j]@);
                assert(view2(b3[l])[j] == b3[l][j]@);
            }
        }
        assert forall|l: int| 0 <= l < a2.len() implies (#[trigger] view2(a2)[l]).len() == view2(
            b2,
        )[l].len() by {
            assert(view2(a2)[l] == a2[l]@);
            assert(view2(b2)[l] == b2[l]@);
        }
    }

    /// The average of the sample gradients of `batch[start..end]`, running the
    /// forward pass over each sample in turn.
    fn average_gradients(
        &mut self,
        batch: &Vec<(Vec<T>, Vec<T>)>,
        start: usize,
        end: usize,
    ) -> (r: (Vec<Vec<Vec<T>>>, Vec<Vec<T>>))
        requires
            old(self).well_formed(),
            old(self).layer_count() >= 1,
            old(self).fits_samples(batch@),
            start < end <= batch.len(),
        ensures
            final(self).well_formed(),
            final(self).same_parameters(old(self)),
            final(self).inputs@ == batch[end - 1].0@,
            final(self).forwarded_with(view3(old(self).weights), view2(old(self).biases)),
            final(self).parameter_shaped(r.0, r.1),
            ({
                let (sw, sb) = gradient_sum(
                    old(self).functions,
                    old(self).activation_funcs@,
                    view3(old(self).weights),
                    view2(old(self).biases),
                    old(self).layer_count(),
                    batch@,
                    start as int,
                    end as int,
                );
                (view3(r.0), view2(r.1)) == (
                    scale3(old(self).functions, Scale::DivideBy((end - start) as usize), sw),
                    scale2(old(self).functions, Scale::DivideBy((end - start) as usize), sb),
                )
            }),
    {
        let ghost start_state = *self;
        let ghost f = self.functions;
        let ghost kinds = self.activation_funcs@;
        let ghost w = view3(self.weights);
        let ghost b = view2(self.biases);
        let ghost count = self.layer_count();
        let mut avg_dws: Vec<Vec<Vec<T>>> = Vec::new();
        let mut avg_dbs: Vec<Vec<T>> = Vec::new();
        let mut i: usize = start;
        while i < end
            invariant
                self.well_formed(),
                self.same_parameters(&start_state),
                f == self.functions,
                kinds == self.activation_funcs@,
                w == view3(self.weights),
                b == view2(self.biases),
                count == self.layer_count(),
                count >= 1,
                self.fits_samples(batch@),
                start <= i <= end,
                end <= batch.len(),
                i == start ==> avg_dws.len() == 0 && avg_dbs.len() == 0,
                i > start ==> self.parameter_shaped(avg_dws, avg_dbs),
                i > start ==> (view3(avg_dws), view2(avg_dbs)) == gradient_sum(
                    f,
                    kinds,
                    w,
                    b,
                    count,
                    batch@,
                    start as int,
                    i as int,
                ),
                i > start ==> self.inputs@ == batch[i - 1].0@,
                i > start ==> self.forwarded_with(w, b),
            decreases end - i,
        {
            let inputs = &batch[i].0;
            let expected = &batch[i].1;
            assert(batch@[i as int] == batch[i as int]);
            self.predict(inputs);
            let (dws, dbs) = self.backprop(expected);
            proof {
                self.lemma_sample_gradients(inputs@, expected@, dws, dbs);
            }
            if avg_dws.len() == 0 && avg_dbs.len() == 0 {
                avg_dws = dws;
                avg_dbs = dbs;
            } else {
                proof {
                    self.lemma_same_shapes(avg_dws, avg_dbs, dws, dbs);
                }
                let new_dws = combine_tensors(&self.functions, Combine::Add, &avg_dws, &dws);
                let new_dbs = combine_matrices(&self.functions, Combine::Add, &avg_dbs, &dbs);
                proof {
                    lemma_combine3_shape(f, Combine::Add, view3(avg_dws), view3(dws));
                    lemma_shape3(new_dws, combine3(f, Combine::Add, view3(avg_dws), view3(dws)), avg_dws);
                    lemma_combine2_shape(f, Combine::Add, view2(avg_dbs), view2(dbs));
                    lemma_shape2(new_dbs, combine2(f, Combine::Add, view2(avg_dbs), view2(dbs)), avg_dbs);
                }
                avg_dws = new_dws;
                avg_dbs = new_dbs;
            }
            i = i + 1;
        }
        let n = end - start;
        let avg_dws_scaled = scale_tensor(&self.functions, Scale::DivideBy(n), &avg_dws);
        let avg_dbs_scaled = scale_matrix(&self.functions, Scale::DivideBy(n), &avg_dbs);
        proof {
            lemma_scale3_shape(f, Scale::DivideBy(n), view3(avg_dws));
            lemma_shape3(avg_dws_scaled, scale3(f, Scale::DivideBy(n), view3(avg_dws)), avg_dws);
            lemma_scale2_shape(f, Scale::DivideBy(n), view2(avg_dbs));
            lemma_shape2(avg_dbs_scaled, scale2(f, Scale::DivideBy(n), view2(avg_dbs)), avg_dbs);
        }
        (avg_dws_scaled, avg_dbs_scaled)
    }

    /// Gradient descent over `batch`, one mini-batch of `batch_size` samples
    /// after the other (the last one may be shorter): for each, the
    /// parameters are updated by the average of its sample gradients.
    pub fn batch_gradient_descent(
        &mut self,
        batch: &Vec<(Vec<T>, Vec<T>)>,
        batch_size: usize,
        learning_rate: T,
    )
        requires
            old(self).well_formed(),
            old(self).layer_count() >= 1,
            old(self).fits_samples(batch@),
            batch_size > 0,
        ensures
            final(self).well_formed(),
            final(self).shape == old(self).shape,
            final(self).activation_funcs == old(self).activation_funcs,
            final(self).functions == old(self).functions,
            final(self).parameters() == descend(
                old(self).functions,
                old(self).activation_funcs@,
                view3(old(self).weights),
                view2(old(self).biases),
                old(self).layer_count(),
                batch@,
                mini_batch_bounds(batch.len() as int, batch_size as int, 0),
                learning_rate,
            ),
            batch.len() > 0 ==> final(self).inputs@ == batch@.last().0@,
            batch.len() > 0 ==> final(self).forwarded_with(
                descend(
                    old(self).functions,
                    old(self).activation_funcs@,
                    view3(old(self).weights),
                    view2(old(self).biases),
                    old(self).layer_count(),
                    batch@,
                    mini_batch_bounds(batch.len() as int, batch_size as int, 0).drop_last(),
                    learning_rate,
                ).0,
                descend(
                    old(self).functions,
                    old(self).activation_funcs@,
                    view3(old(self).weights),
                    view2(old(self).biases),
                    old(self).layer_count(),
                    batch@,
                    mini_batch_bounds(batch.len() as int, batch_size as int, 0).drop_last(),
                    learning_rate,
                ).1,
            ),
            batch.len() == 0 ==> *final(self) == *old(self),
    {
        let ghost f = self.functions;
        let ghost kinds = self.activation_funcs@;
        let ghost count = self.layer_count();
        let ghost w0 = view3(self.weights);
        let ghost b0 = view2(self.biases);
        let ghost all_bounds = mini_batch_bounds(batch.len() as int, batch_size as int, 0);
        let ghost start_state = *self;
        let ghost mut processed: Seq<(int, int)> = Seq::empty();
        let mut batch_start: usize = 0;
        while batch_start < batch.len()
            invariant
                self.well_formed(),
                self.shape == start_state.shape,
                self.activation_funcs == start_state.activation_funcs,
                self.functions == start_state.functions,
                f == self.functions,
                kinds == self.activation_funcs@,
                count == self.layer_count(),
                count >= 1,
                self.fits_samples(batch@),
                batch_size > 0,
                batch_start <= batch.len(),
                all_bounds == processed + mini_batch_bounds(
                    batch.len() as int,
                    batch_size as int,
                    batch_start as int,
                ),
                self.parameters() == descend(
                    f,
                    kinds,
                    w0,
                    b0,
                    count,
                    batch@,
                    processed,
                    learning_rate,
                ),
                batch_start > 0 ==> self.inputs@ == batch[batch_start - 1].0@,
                batch_start > 0 ==> processed.len() > 0 && self.forwarded_with(
                    descend(f, kinds, w0, b0, count, batch@, processed.drop_last(), learning_rate).0,
                    descend(f, kinds, w0, b0, count, batch@, processed.drop_last(), learning_rate).1,
                ),
                batch_start == 0 ==> *self == start_state && processed.len() == 0,
            decreases batch.len() - batch_start,
        {
            let batch_end = if batch.len() - batch_start >= batch_size {
                batch_start + batch_size
            } else {
                batch.len()
            };
            let ghost before = self.parameters();
            let (avg_dws, avg_dbs) = self.average_gradients(batch, batch_start, batch_end);
            self.update_weights_and_biases(avg_dws, avg_dbs, learning_rate);
            proof {
                let rest = mini_batch_bounds(
                    batch.len() as int,
                    batch_size as int,
                    batch_start as int,
                );
                let next = (batch_start as int, batch_end as int);
                assert(rest == seq![next] + mini_batch_bounds(
                    batch.len() as int,
                    batch_size as int,
                    batch_end as int,
                ));
                lemma_descend_push(f, kinds, w0, b0, count, batch@, processed, next, learning_rate);
                assert(processed.push(next).drop_last() =~= processed);
                processed = processed.push(next);
                assert(all_bounds =~= processed + mini_batch_bounds(
                    batch.len() as int,
                    batch_size as int,
                    batch_end as int,
                ));
            }
            batch_start = batch_end;
        }
        proof {
            assert(mini_batch_bounds(batch.len() as int, batch_size as int, batch_start as int)
                =~= Seq::<(int, int)>::empty());
            assert(processed =~= all_bounds);
            if batch.len() > 0 {
                assert(batch@.last() == batch[batch.len() - 1]);
            }
        }
    }
}

impl<T: Copy, F: NetworkFunctions<T>> MultiLayerPerceptron<T, F> {
    /// One epoch of training: shuffles the batch in place, then runs
    /// gradient descent over it in its new order.
    pub fn train_epoch(
        &mut self,
        shuffled_batch: &mut Vec<(Vec<T>, Vec<T>)>,
        batch_size: usize,
        learning_rate: T,
    )
        requires
            old(self).well_formed(),
            old(self).layer_count() >= 1,
            old(self).fits_samples(old(shuffled_batch)@),
            batch_size > 0,
        ensures
            final(shuffled_batch)@.to_multiset() == old(shuffled_batch)@.to_multiset(),
            final(shuffled_batch)@.len() == old(shuffled_batch)@.len(),
            final(self).well_formed(),
            final(self).shape == old(self).shape,
            final(self).activation_funcs == old(self).activation_funcs,
            final(self).functions == old(self).functions,
            final(self).parameters() == descend(
                old(self).functions,
                old(self).activation_funcs@,
                view3(old(self).weights),
                view2(old(self).biases),
                old(self).layer_count(),
                final(shuffled_batch)@,
                mini_batch_bounds(final(shuffled_batch)@.len() as int, batch_size as int, 0),
                learning_rate,
            ),
            final(shuffled_batch)@.len() > 0 ==> final(self).inputs@
                == final(shuffled_batch)@.last().0@,
            final(shuffled_batch)@.len() > 0 ==> final(self).forwarded_with(
                descend(
                    old(self).functions,
                    old(self).activation_funcs@,
                    view3(old(self).weights),
                    view2(old(self).biases),
                    old(self).layer_count(),
                    final(shuffled_batch)@,
                    mini_batch_bounds(
                        final(shuffled_batch)@.len() as int,
                        batch_size as int,
                        0,
                    ).drop_last(),
                    learning_rate,
                ).0,
                descend(
                    old(self).functions,
                    old(self).activation_funcs@,
                    view3(old(self).weights),
                    view2(old(self).biases),
                    old(self).layer_count(),
                    final(shuffled_batch)@,
                    mini_batch_bounds(
                        final(shuffled_batch)@.len() as int,
                        batch_size as int,
                        0,
                    ).drop_last(),
                    learning_rate,
                ).1,
            ),
            final(shuffled_batch)@.len() == 0 ==> *final(self) == *old(self),
    {
        let mut rng = thread_rng();
        shuffle(shuffled_batch, &mut rng);
        proof {
            broadcast use vstd::seq_lib::group_to_multiset_ensures;

            let before = old(shuffled_batch)@;
            let after = shuffled_batch@;
            assert forall|i: int| 0 <= i < after.len() implies (#[trigger] after[i]).0.len()
                == self.shape[0] && after[i].1.len() >= self.shape[self.layer_count() as int] by {
                assert(after.contains(after[i]));
                assert(after.to_multiset().count(after[i]) > 0);
                assert(before.contains(after[i]));
                let k = choose|k: int| 0 <= k < before.len() && before[k] == after[i];
                assert(before[k] == after[i]);
            }
        }
        self.batch_gradient_descent(shuffled_batch, batch_size, learning_rate);
    }
}

/// The index of a highest value of `v`, the last one among equals.
pub fn highest_output_index<T: Copy, F: NetworkFunctions<T>>(f: &F, v: &Vec<T>) -> (r: usize)
    requires
        f.valid(),
        v.len() >= 1,
    ensures
        r == highest_index(*f, v@, v.len() as nat),
        r < v.len(),
{
    let mut best: usize = 0;
    let mut j: usize = 1;
    while j < v.len()
        invariant
            f.valid(),
            1 <= j <= v.len(),
            best == highest_index(*f, v@, j as nat),
            best < j,
        decreases v.len() - j,
    {
        if f.at_most(v[best], v[j]) {
            best = j;
        }
        j = j + 1;
    }
    best
}

impl<T: Copy, F: NetworkFunctions<T>> MultiLayerPerceptron<T, F> {
    /// The highest activation of the output layer and its index (the last
    /// one among equals).
    pub fn get_highest_output(&self) -> (r: (T, usize))
        requires
            self.well_formed(),
            self.layer_count() >= 1,
            self.shape[self.layer_count() as int] >= 1,
        ensures
            ({
                let out = self.activated_layers[self.layer_count() - 1]@;
                &&& r.1 == highest_index(self.functions, out, out.len())
                &&& r.1 < out.len()
                &&& r.0 == out[r.1 as int]
            }),
    {
        let last = &self.activated_layers[self.activated_layers.len() - 1];
        let i = highest_output_index(&self.functions, last);
        (last[i], i)
    }
}

impl<T, F: NetworkFunctions<T>> MultiLayerPerceptron<T, F> {
    /// A well-formed state that equals the forward pass over its normalized
    /// input has each layer's weighted inputs and activations as the layer
    /// computes them.
    proof fn lemma_forward_state_matches(&self)
        requires
            self.well_formed(),
            (view2(self.layers), view2(self.activated_layers)) == forward(
                self.functions,
                self.activation_funcs@,
                view3(self.weights),
                view2(self.biases),
                self.normalized_inputs@,
                self.layer_count(),
            ),
        ensures
            self.weighted_inputs_match(),
            self.activations_match(),
    {
        let f = self.functions;
        let w = view3(self.weights);
        let b = view2(self.biases);
        let x = self.normalized_inputs@;
        lemma_forward_layers(f, self.activation_funcs@, w, b, x, self.layer_count());
        let (zs, acts) = forward(f, self.activation_funcs@, w, b, x, self.layer_count());
        assert forall|l: int, j: int|
            0 <= l < self.layer_count() && 0 <= j < self.shape[l + 1] implies #[trigger] self.layers[l][j]
            == f.add_result(dot(f, self.input_of(l), self.weights[l][j]@), self.biases[l][j]) by {
            assert(zs[l] == self.layers[l]@);
            assert(w[l] == view2(self.weights[l]));
            assert(w[l][j] == self.weights[l][j]@);
            assert(b[l] == self.biases[l]@);
            assert(self.activation_funcs@[l] == self.activation_funcs[l]);
        }
        assert forall|l: int, j: int|
            0 <= l < self.layer_count() && self.activation_funcs[l]
                == FuncElementWiseDependency::Independent && 0 <= j < self.layers[l].len()
                implies #[trigger] self.activated_layers[l][j] == f.activate_result(
            l as usize,
            self.layers[l][j],
        ) by {
            assert(zs[l] == self.layers[l]@);
            assert(acts[l] == self.activated_layers[l]@);
            assert(self.activation_funcs@[l] == self.activation_funcs[l]);
        }
        assert forall|l: int|
            0 <= l < self.layer_count() && self.activation_funcs[l]
                == FuncElementWiseDependency::Dependent implies (
            #[trigger] self.activated_layers[l])@ == f.activate_vec_result(
            l as usize,
            self.layers[l]@,
        ) by {
            assert(zs[l] == self.layers[l]@);
            assert(acts[l] == self.activated_layers[l]@);
            assert(self.activation_funcs@[l] == self.activation_funcs[l]);
        }
    }
}

impl<T: Copy, F: NetworkFunctions<T>> Resetable for MultiLayerPerceptron<T, F> {
    open spec fn resettable(&self) -> bool {
        &&& self.shape.len() >= 1
        &&& self.activation_funcs.len() == self.shape.len() - 1
        &&& self.functions.valid()
    }

    /// Replaces all parameters and state by fresh ones of the dimensions
    /// that the shape gives: weights from the initializers, everything else
    /// zero.
    fn reset_params(&mut self)
        ensures
            final(self).well_formed(),
            final(self).freshly_reset(),
            final(self).shape == old(self).shape,
            final(self).activation_funcs == old(self).activation_funcs,
            final(self).functions == old(self).functions,
    {
        let zero = self.functions.zero_value();
        let cnt = self.shape.len();
        let mut new_weights: Vec<Vec<Vec<T>>> = Vec::new();
        let mut new_biases: Vec<Vec<T>> = Vec::new();
        let mut new_layers: Vec<Vec<T>> = Vec::new();
        let mut new_activated_layers: Vec<Vec<T>> = Vec::new();

        let new_inputs = filled(zero, self.shape[0]);
        let new_normalized_inputs = filled(zero, self.shape[0]);

        let mut layer_index: usize = 1;
        while layer_index < cnt
            invariant
                cnt == self.shape.len(),
                cnt >= 1,
                1 <= layer_index <= cnt,
                self.functions.valid(),
                zero == self.functions.zero(),
                new_weights.len() == layer_index - 1,
                new_biases.len() == layer_index - 1,
                new_layers.len() == layer_index - 1,
                new_activated_layers.len() == layer_index - 1,
                forall|l: int|
                    0 <= l < layer_index - 1 ==> (#[trigger] new_weights[l]).len() == self.shape[l
                        + 1],
                forall|l: int|
                    0 <= l < layer_index - 1 ==> (#[trigger] new_biases[l])@ == zeros(
                        self.functions,
                        self.shape[l + 1] as nat,
                    ),
                forall|l: int|
                    0 <= l < layer_index - 1 ==> (#[trigger] new_layers[l])@ == zeros(
                        self.functions,
                        self.shape[l + 1] as nat,
                    ),
                forall|l: int|
                    0 <= l < layer_index - 1 ==> (#[trigger] new_activated_layers[l])@ == zeros(
                        self.functions,
                        self.shape[l + 1] as nat,
                    ),
                forall|l: int, j: int|
                    0 <= l < layer_index - 1 && 0 <= j < self.shape[l + 1] ==> (
                    #[trigger] new_weights[l][j]).len() == self.shape[l],
                forall|l: int, j: int, k: int|
                    0 <= l < layer_index - 1 && 0 <= j < self.shape[l + 1] && 0 <= k
                        < self.shape[l] ==> self.functions.init_outcome(
                        l as usize,
                        self.shape[l],
                        #[trigger] new_weights[l][j][k],
                    ),
            decreases cnt - layer_index,
        {
            let layer_neuron_cnt = self.shape[layer_index];
            let prev_layer_neuron_cnt = self.shape[layer_index - 1];

            new_layers.push(filled(zero, layer_neuron_cnt));
            new_activated_layers.push(filled(zero, layer_neuron_cnt));
            new_biases.push(filled(zero, layer_neuron_cnt));

            let layer_weights = Self::initial_layer_weights(
                &self.functions,
                layer_index - 1,
                layer_neuron_cnt,
                prev_layer_neuron_cnt,
            );
            new_weights.push(layer_weights);
            layer_index = layer_index + 1;
        }

        self.weights = new_weights;
        self.biases = new_biases;
        self.layers = new_layers;
        self.activated_layers = new_activated_layers;

        self.inputs = new_inputs;
        self.normalized_inputs = new_normalized_inputs;
    }
}

impl<T: Copy, F: NetworkFunctions<T>> Predictable for MultiLayerPerceptron<T, F> {
    open spec fn ready(&self) -> bool {
        self.well_formed()
    }

    open spec fn computed_layers(&self) -> nat {
        self.layer_count()
    }

    /// Normalizes the inputs.
    fn normalize_input(&mut self)
        ensures
            final(self).well_formed(),
            final(self).same_parameters(old(self)),
            final(self).normalized_inputs@ == old(self).functions.normalize_result(old(self).inputs@),
            final(self).inputs == old(self).inputs,
            final(self).layers == old(self).layers,
            final(self).activated_layers == old(self).activated_layers,
    {
        let normalized_inputs = self.functions.normalize(&self.inputs);
        self.normalized_inputs = normalized_inputs;
    }

    /// Computes the weighted inputs of layer `layer_i` from the input of the
    /// layer, then its activations.
    fn feedforward_layer(&mut self, layer_i: usize)
        ensures
            final(self).well_formed(),
            final(self).same_parameters(old(self)),
            final(self).inputs == old(self).inputs,
            final(self).normalized_inputs == old(self).normalized_inputs,
            final(self).layers@ == old(self).layers@.update(
                layer_i as int,
                final(self).layers[layer_i as int],
            ),
            final(self).activated_layers@ == old(self).activated_layers@.update(
                layer_i as int,
                final(self).activated_layers[layer_i as int],
            ),
            final(self).layers[layer_i as int]@ == layer_output(
                old(self).functions,
                old(self).input_of(layer_i as int),
                view2(old(self).weights[layer_i as int]),
                old(self).biases[layer_i as int]@,
            ),
            final(self).activated_layers[layer_i as int]@ == activation_output(
                old(self).functions,
                old(self).activation_funcs[layer_i as int],
                layer_i as int,
                final(self).layers[layer_i as int]@,
            ),
            forall|j: int|
                0 <= j < old(self).shape[layer_i + 1] ==> #[trigger] final(self).layers[layer_i as int][j] == old(self).functions.add_result(
                    dot(
                        old(self).functions,
                        old(self).input_of(layer_i as int),
                        old(self).weights[layer_i as int][j]@,
                    ),
                    old(self).biases[layer_i as int][j],
                ),
            old(self).activation_funcs[layer_i as int] == FuncElementWiseDependency::Independent
                ==> forall|j: int|
                0 <= j < final(self).layers[layer_i as int].len() ==> #[trigger] final(self).activated_layers[layer_i as int][j] == old(self).functions.activate_result(
                    layer_i,
                    final(self).layers[layer_i as int][j],
                ),
            old(self).activation_funcs[layer_i as int] == FuncElementWiseDependency::Dependent
                ==> final(self).activated_layers[layer_i as int]@
                == old(self).functions.activate_vec_result(
                layer_i,
                final(self).layers[layer_i as int]@,
            ),
    {
        let ghost input = self.input_of(layer_i as int);
        let prev_layer = if layer_i == 0 {
            &self.normalized_inputs
        } else {
            &self.activated_layers[layer_i - 1]
        };
        assert(prev_layer@ == input);
        let layer_weights = &self.weights[layer_i];
        let layer_biases = &self.biases[layer_i];
        let ghost target = layer_output(self.functions, input, view2(*layer_weights), layer_biases@);

        let mut new_layer: Vec<T> = Vec::new();
        let mut neuron_i: usize = 0;
        while neuron_i < layer_weights.len()
            invariant
                self.well_formed(),
                layer_i < self.layer_count(),
                layer_weights == self.weights[layer_i as int],
                layer_biases == self.biases[layer_i as int],
                prev_layer@ == input,
                prev_layer.len() == self.shape[layer_i as int],
                target == layer_output(self.functions, input, view2(*layer_weights), layer_biases@),
                neuron_i <= layer_weights.len(),
                new_layer@ == target.take(neuron_i as int),
            decreases layer_weights.len() - neuron_i,
        {
            let neuron_weights = &layer_weights[neuron_i];
            assert(neuron_weights.len() == self.shape[layer_i as int]);
            let neuron_bias = layer_biases[neuron_i];
            let d = dot_product(&self.functions, prev_layer, neuron_weights);
            let new_neuron = self.functions.add(d, neuron_bias);
            assert(view2(*layer_weights)[neuron_i as int] == neuron_weights@);
            new_layer.push(new_neuron);
            neuron_i = neuron_i + 1;
            assert(new_layer@ =~= target.take(neuron_i as int));
        }
        assert(new_layer@ =~= target);

        self.layers.set(layer_i, new_layer);

        match self.activation_funcs[layer_i] {
            FuncElementWiseDependency::Independent => {
                self.activate_independent_layer(layer_i);
            },
            FuncElementWiseDependency::Dependent => {
                self.activate_dependent_layer(layer_i);
            },
        }
    }

    /// Normalizes the inputs, then computes every layer in order.
    fn feedforward(&mut self)
        ensures
            final(self).well_formed(),
            final(self).same_parameters(old(self)),
            final(self).inputs == old(self).inputs,
            final(self).normalized_inputs@ == old(self).functions.normalize_result(old(self).inputs@),
            (view2(final(self).layers), view2(final(self).activated_layers)) == forward(
                old(self).functions,
                old(self).activation_funcs@,
                view3(old(self).weights),
                view2(old(self).biases),
                final(self).normalized_inputs@,
                old(self).layer_count(),
            ),
            final(self).weighted_inputs_match(),
            final(self).activations_match(),
    {
        let layer_cnt = self.layers.len();
        self.normalize_input();
        let ghost start = *self;

        let mut layer_i: usize = 0;
        while layer_i < layer_cnt
            invariant
                self.well_formed(),
                self.same_parameters(&start),
                self.inputs == start.inputs,
                self.normalized_inputs == start.normalized_inputs,
                layer_cnt == self.layer_count(),
                layer_i <= layer_cnt,
                forward(
                    self.functions,
                    self.activation_funcs@,
                    view3(self.weights),
                    view2(self.biases),
                    self.normalized_inputs@,
                    layer_i as nat,
                ) == (view2(self.layers).take(layer_i as int), view2(self.activated_layers).take(
                    layer_i as int,
                )),
            decreases layer_cnt - layer_i,
        {
            let ghost before = *self;
            let ghost prev = forward(
                self.functions,
                self.activation_funcs@,
                view3(self.weights),
                view2(self.biases),
                self.normalized_inputs@,
                layer_i as nat,
            );
            assert(before.input_of(layer_i as int) == layer_input(
                self.normalized_inputs@,
                prev.1,
                layer_i as int,
            ));
            self.feedforward_layer(layer_i);
            assert(view3(self.weights)[layer_i as int] == view2(self.weights[layer_i as int]));
            assert(view2(self.layers).take(layer_i as int + 1) =~= prev.0.push(
                self.layers[layer_i as int]@,
            ));
            assert(view2(self.activated_layers).take(layer_i as int + 1) =~= prev.1.push(
                self.activated_layers[layer_i as int]@,
            ));
            layer_i = layer_i + 1;
        }
        assert(view2(self.layers).take(layer_cnt as int) =~= view2(self.layers));
        assert(view2(self.activated_layers).take(layer_cnt as int) =~= view2(
            self.activated_layers,
        ));
        proof {
            self.lemma_forward_state_matches();
        }
    }
}

impl<T: Copy, F: NetworkFunctions<T>> Backpropable<T> for MultiLayerPerceptron<T, F> {
    open spec fn can_backprop_layer(
        &self,
        layer_i: int,
        prev_cost_activation_derivatives: Option<&Vec<T>>,
        expected: Option<&Vec<T>>,
    ) -> bool {
        &&& self.well_formed()
        &&& 0 <= layer_i < self.layer_count()
        &&& self.backprop_arguments(layer_i, prev_cost_activation_derivatives, expected)
    }

    open spec fn can_backprop(&self, expected: Seq<T>) -> bool {
        &&& self.well_formed()
        &&& self.layer_count() >= 1
        &&& expected.len() >= self.shape[self.layer_count() as int]
    }

    /// The derivatives of the cost by the weights, the biases and the
    /// weighted inputs of layer `layer_i`: dC/dw, dC/db, dC/dz.
    fn backprop_layer(
        &self,
        layer_i: usize,
        prev_cost_value_derivatives: Option<&Vec<T>>,
        expected: Option<&Vec<T>>,
    ) -> (r: (Vec<Vec<T>>, Vec<T>, Vec<T>))
        ensures
            r.2@ == self.value_derivatives_of(
                layer_i as int,
                seq_of(prev_cost_value_derivatives),
                seq_of(expected),
            ),
            r.1@ == r.2@,
            view2(r.0) == weight_gradients(self.functions, r.2@, self.input_of(layer_i as int)),
            r.2.len() == self.shape[layer_i + 1],
            r.0.len() == self.shape[layer_i + 1],
            forall|j: int|
                0 <= j < r.0.len() ==> (#[trigger] r.0[j]).len() == self.shape[layer_i as int],
            self.activation_funcs[layer_i as int] == FuncElementWiseDependency::Independent
                ==> forall|j: int|
                0 <= j < self.shape[layer_i + 1] ==> #[trigger] r.2[j]
                    == self.functions.mul_result(
                    if layer_i + 1 == self.layer_count() {
                        self.functions.cost_derivative_result(
                            self.activated_layers[layer_i as int][j],
                            seq_of(expected)[j],
                        )
                    } else {
                        column_sum(
                            self.functions,
                            seq_of(prev_cost_value_derivatives),
                            view2(self.weights[layer_i + 1]),
                            j,
                        )
                    },
                    self.functions.derivative_result(layer_i, self.layers[layer_i as int][j]),
                ),
            forall|j: int, k: int|
                0 <= j < r.0.len() && 0 <= k < r.0[j].len() ==> #[trigger] r.0[j][k]
                    == self.functions.mul_result(r.2[j], self.input_of(layer_i as int)[k]),
            self.activation_funcs[layer_i as int] == FuncElementWiseDependency::Dependent
                ==> forall|j: int|
                0 <= j < self.shape[layer_i + 1] ==> #[trigger] r.2[j] == column_sum(
                    self.functions,
                    Seq::new(
                        self.activated_layers[layer_i as int].len() as nat,
                        |i: int|
                            if layer_i + 1 == self.layer_count() {
                                self.functions.cost_derivative_result(
                                    self.activated_layers[layer_i as int][i],
                                    seq_of(expected)[i],
                                )
                            } else {
                                column_sum(
                                    self.functions,
                                    seq_of(prev_cost_value_derivatives),
                                    view2(self.weights[layer_i + 1]),
                                    i,
                                )
                            },
                    ),
                    self.functions.jacobian_result(layer_i, self.layers[layer_i as int]@),
                    j,
                ),
    {
        let next_activated_layer = if layer_i == 0 {
            &self.normalized_inputs
        } else {
            &self.activated_layers[layer_i - 1]
        };
        assert(next_activated_layer@ == self.input_of(layer_i as int));

        let cost_value_derivatives = self.calculate_cost_value_derivative(
            layer_i,
            prev_cost_value_derivatives,
            expected,
        );
        let ghost target = weight_gradients(
            self.functions,
            cost_value_derivatives@,
            next_activated_layer@,
        );

        let mut cost_weight_derivatives: Vec<Vec<T>> = Vec::new();
        let mut j: usize = 0;
        while j < cost_value_derivatives.len()
            invariant
                self.functions.valid(),
                j <= cost_value_derivatives.len(),
                next_activated_layer.len() == self.shape[layer_i as int],
                target == weight_gradients(
                    self.functions,
                    cost_value_derivatives@,
                    next_activated_layer@,
                ),
                view2(cost_weight_derivatives) == target.take(j as int),
                cost_weight_derivatives.len() == j,
                forall|j2: int|
                    0 <= j2 < j ==> (#[trigger] cost_weight_derivatives[j2]).len()
                        == self.shape[layer_i as int],
            decreases cost_value_derivatives.len() - j,
        {
            let dc_dzj = cost_value_derivatives[j];
            let mut row: Vec<T> = Vec::new();
            let mut k: usize = 0;
            while k < next_activated_layer.len()
                invariant
                    self.functions.valid(),
                    k <= next_activated_layer.len(),
                    row@ == target[j as int].take(k as int),
                    j < cost_value_derivatives.len(),
                    dc_dzj == cost_value_derivatives[j as int],
                    target == weight_gradients(
                        self.functions,
                        cost_value_derivatives@,
                        next_activated_layer@,
                    ),
                decreases next_activated_layer.len() - k,
            {
                let d = self.functions.mul(dc_dzj, next_activated_layer[k]);
                row.push(d);
                k = k + 1;
            }
            assert(row@ =~= target[j as int]);
            let ghost old_w = cost_weight_derivatives;
            cost_weight_derivatives.push(row);
            assert(view2(cost_weight_derivatives) =~= view2(old_w).push(row@));
            j = j + 1;
            assert(view2(cost_weight_derivatives) =~= target.take(j as int));
        }
        assert(view2(cost_weight_derivatives) =~= target);

        let cost_bias_derivatives = copy_vec(&cost_value_derivatives);
        proof {
            let dcda = Seq::new(
                self.activated_layers[layer_i as int].len() as nat,
                |i: int|
                    if layer_i + 1 == self.layer_count() {
                        self.functions.cost_derivative_result(
                            self.activated_layers[layer_i as int][i],
                            seq_of(expected)[i],
                        )
                    } else {
                        column_sum(
                            self.functions,
                            seq_of(prev_cost_value_derivatives),
                            view2(self.weights[layer_i + 1]),
                            i,
                        )
                    },
            );
            assert(dcda =~= self.cost_activation_derivatives_of(
                layer_i as int,
                seq_of(prev_cost_value_derivatives),
                seq_of(expected),
            ));
            assert forall|j: int, k: int|
                0 <= j < cost_weight_derivatives.len() && 0 <= k < cost_weight_derivatives[j].len()
                    implies #[trigger] cost_weight_derivatives[j][k] == self.functions.mul_result(
                cost_value_derivatives[j],
                self.input_of(layer_i as int)[k],
            ) by {
                assert(view2(cost_weight_derivatives)[j] == cost_weight_derivatives[j]@);
            }
        }

        (cost_weight_derivatives, cost_bias_derivatives, cost_value_derivatives)
    }

    /// dC/dw and dC/db of every layer for the expected output, from the
    /// output layer back to the first.
    fn backprop(&self, expected: &Vec<T>) -> (r: (Vec<Vec<Vec<T>>>, Vec<Vec<T>>))
        ensures
            self.gradients_of(expected@, r.0, r.1),
            self.parameter_shaped(r.0, r.1),
            forall|l: int, j: int|
                0 <= l < self.layer_count() && self.activation_funcs[l]
                    == FuncElementWiseDependency::Independent && 0 <= j < self.shape[l + 1]
                    ==> #[trigger] r.1[l][j] == self.functions.mul_result(
                    if l + 1 == self.layer_count() {
                        self.functions.cost_derivative_result(
                            self.activated_layers[l][j],
                            expected@[j],
                        )
                    } else {
                        column_sum(self.functions, r.1[l + 1]@, view2(self.weights[l + 1]), j)
                    },
                    self.functions.derivative_result(l as usize, self.layers[l][j]),
                ),
            forall|l: int, j: int, k: int|
                0 <= l < self.layer_count() && 0 <= j < r.0[l].len() && 0 <= k < r.0[l][j].len()
                    ==> #[trigger] r.0[l][j][k] == self.functions.mul_result(
                    r.1[l][j],
                    self.input_of(l)[k],
                ),
    {
        let layer_cnt = self.layers.len();
        let (last_layer_dws, last_layer_dbs, last_layer_dzs) = self.backprop_layer(
            layer_cnt - 1,
            None,
            Some(expected),
        );
        let mut dws: Vec<Vec<Vec<T>>> = Vec::new();
        dws.push(last_layer_dws);
        let mut dbs: Vec<Vec<T>> = Vec::new();
        dbs.push(last_layer_dbs);
        let mut layer_dzs = last_layer_dzs;
        let mut layer_i = layer_cnt - 1;

        while layer_i > 0
            invariant
                self.well_formed(),
                layer_cnt == self.layer_count(),
                layer_cnt >= 1,
                layer_i < layer_cnt,
                dws.len() == layer_cnt - layer_i,
                dbs.len() == layer_cnt - layer_i,
                layer_dzs@ == self.backward_of(expected@, layer_i as int),
                layer_dzs.len() == self.shape[layer_i + 1],
                forall|m: int|
                    0 <= m < dbs.len() ==> (#[trigger] dbs[m])@ == self.backward_of(
                        expected@,
                        layer_i + m,
                    ),
                forall|m: int|
                    0 <= m < dws.len() ==> view2(#[trigger] dws[m]) == weight_gradients(
                        self.functions,
                        dbs[m]@,
                        self.input_of(layer_i + m),
                    ),
                forall|m: int|
                    0 <= m < dws.len() ==> (#[trigger] dws[m]).len() == self.shape[layer_i + m + 1],
                forall|m: int|
                    0 <= m < dbs.len() ==> (#[trigger] dbs[m]).len() == self.shape[layer_i + m + 1],
                forall|m: int, j: int|
                    0 <= m < dws.len() && 0 <= j < self.shape[layer_i + m + 1] ==> (
                    #[trigger] dws[m][j]).len() == self.shape[layer_i + m],
            decreases layer_i,
        {
            layer_i = layer_i - 1;
            let (curr_layer_dws, curr_layer_dbs, curr_layer_dzs) = self.backprop_layer(
                layer_i,
                Some(&layer_dzs),
                None,
            );
            let ghost old_dws = dws;
            let ghost old_dbs = dbs;
            dws.insert(0, curr_layer_dws);
            dbs.insert(0, curr_layer_dbs);
            layer_dzs = curr_layer_dzs;
            assert forall|m: int| 0 < m < dbs.len() implies dbs[m] == old_dbs[m - 1] by {}
            assert forall|m: int| 0 < m < dws.len() implies dws[m] == old_dws[m - 1] by {}
        }
        proof {
            let f = self.functions;
            let kinds = self.activation_funcs@;
            let w = view3(self.weights);
            let zs = view2(self.layers);
            let acts = view2(self.activated_layers);
            let count = self.layer_count();
            assert forall|l: int, j: int|
                0 <= l < count && self.activation_funcs[l] == FuncElementWiseDependency::Independent
                    && 0 <= j < self.shape[l + 1] implies #[trigger] dbs[l][j] == f.mul_result(
                if l + 1 == count {
                    f.cost_derivative_result(self.activated_layers[l][j], expected@[j])
                } else {
                    column_sum(f, dbs[l + 1]@, view2(self.weights[l + 1]), j)
                },
                f.derivative_result(l as usize, self.layers[l][j]),
            ) by {
                assert(kinds[l] == self.activation_funcs[l]);
                assert(zs[l] == self.layers[l]@);
                assert(acts[l] == self.activated_layers[l]@);
                if l + 1 == count {
                    lemma_backward_output_layer(f, kinds, w, zs, acts, expected@, count);
                } else {
                    lemma_backward_hidden_layer(f, kinds, w, zs, acts, expected@, count, l);
                    assert(w[l + 1] == view2(self.weights[l + 1]));
                }
            }
            assert forall|l: int, j: int, k: int|
                0 <= l < count && 0 <= j < dws[l].len() && 0 <= k < dws[l][j].len()
                    implies #[trigger] dws[l][j][k] == f.mul_result(dbs[l][j], self.input_of(l)[k]) by {
                assert(view2(dws[l])[j] == dws[l][j]@);
            }
        }
        (dws, dbs)
    }
}


impl<T, F> MultiLayerPerceptron<T, F> {
    pub fn get_weights(&self) -> (r: &Vec<Vec<Vec<T>>>)
        ensures
            *r == self.weights,
    {
        &self.weights
    }

    pub fn get_biases(&self) -> (r: &Vec<Vec<T>>)
        ensures
            *r == self.biases,
    {
        &self.biases
    }

    pub fn get_inputs(&self) -> (r: &Vec<T>)
        ensures
            *r == self.inputs,
    {
        &self.inputs
    }

    pub fn get_normalized_inputs(&self) -> (r: &Vec<T>)
        ensures
            *r == self.normalized_inputs,
    {
        &self.normalized_inputs
    }

    pub fn get_layers(&self) -> (r: &Vec<Vec<T>>)
        ensures
            *r == self.layers,
    {
        &self.layers
    }

    pub fn get_activated_layers(&self) -> (r: &Vec<Vec<T>>)
        ensures
            *r == self.activated_layers,
    {
        &self.activated_layers
    }
}

} // verus!
