//! The interfaces of a trainable network.

use vstd::prelude::*;

verus! {

/// A network whose parameters can be (re)initialized.
pub trait Resetable {
    /// The network can be reset: its configuration is consistent.
    spec fn resettable(&self) -> bool;

    fn reset_params(&mut self)
        requires
            old(self).resettable(),
    ;
}

/// A network that computes its outputs from its inputs.
pub trait Predictable {
    /// The network's state is consistent, so that a forward pass can run.
    spec fn ready(&self) -> bool;

    /// The number of layers that a forward pass computes.
    spec fn computed_layers(&self) -> nat;

    fn normalize_input(&mut self)
        requires
            old(self).ready(),
    ;

    fn feedforward_layer(&mut self, layer_i: usize)
        requires
            old(self).ready(),
            layer_i < old(self).computed_layers(),
    ;

    fn feedforward(&mut self)
        requires
            old(self).ready(),
    ;
}

/// A network that computes the derivatives of its cost by its parameters.
pub trait Backpropable<T> {
    /// Back-propagation through layer `layer_i` can run with these arguments.
    spec fn can_backprop_layer(
        &self,
        layer_i: int,
        prev_cost_activation_derivatives: Option<&Vec<T>>,
        expected: Option<&Vec<T>>,
    ) -> bool;

    /// Back-propagation through all layers can run for this expected output.
    spec fn can_backprop(&self, expected: Seq<T>) -> bool;

    /// Returns dC/dw[l], dC/db[l] and dC/dz[l] of layer `layer_i`.
    ///
    /// `prev_cost_activation_derivatives` is dC/dz[l + 1], needed for every
    /// layer but the last; `expected` is needed only for the last layer.
    fn backprop_layer(
        &self,
        layer_i: usize,
        prev_cost_activation_derivatives: Option<&Vec<T>>,
        expected: Option<&Vec<T>>,
    ) -> (Vec<Vec<T>>, Vec<T>, Vec<T>)
        requires
            self.can_backprop_layer(layer_i as int, prev_cost_activation_derivatives, expected),
    ;

    /// Returns dC/dw and dC/db of every layer.
    fn backprop(&self, expected: &Vec<T>) -> (Vec<Vec<Vec<T>>>, Vec<Vec<T>>)
        requires
            self.can_backprop(expected@),
    ;
}

/// A network trained by gradient descent.
pub trait GradientDescendable<T>: Backpropable<T> + Predictable {
    fn gradient_descent(&mut self);

    fn batch_gradient_descent(&mut self);
}

/// A network that can be trained.
pub trait Trainable: Predictable {
    fn train(&mut self);
}

} // verus!
