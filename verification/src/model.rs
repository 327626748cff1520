//! The mathematical model of the network: spec functions that say what the
//! forward pass, back-propagation and gradient descent compute, over nested
//! sequences and the spec functions of a [`NetworkFunctions`] toolkit.

use vstd::prelude::*;
use crate::functions::{FuncElementWiseDependency, NetworkFunctions};
use crate::math::{column_sum, combine2, combine3, dot, scale2, scale3, Combine, Scale};

verus! {

/// `n` copies of the toolkit's zero.
pub open spec fn zeros<T, F: NetworkFunctions<T>>(f: F, n: nat) -> Seq<T> {
    Seq::new(n, |i: int| f.zero())
}

/// The weighted inputs of a layer: `z[j] = dot(input, w[j]) + b[j]`.
pub open spec fn layer_output<T, F: NetworkFunctions<T>>(
    f: F,
    input: Seq<T>,
    w: Seq<Seq<T>>,
    b: Seq<T>,
) -> Seq<T> {
    Seq::new(w.len(), |j: int| f.add_result(dot(f, input, w[j]), b[j]))
}

/// The activations of layer `layer` from its weighted inputs.
pub open spec fn activation_output<T, F: NetworkFunctions<T>>(
    f: F,
    kind: FuncElementWiseDependency,
    layer: int,
    z: Seq<T>,
) -> Seq<T> {
    match kind {
        FuncElementWiseDependency::Independent => Seq::new(
            z.len(),
            |j: int| f.activate_result(layer as usize, z[j]),
        ),
        FuncElementWiseDependency::Dependent => f.activate_vec_result(layer as usize, z),
    }
}

/// The input of computed layer `l`: the normalized input for the first one,
/// the activations of the layer before it otherwise.
pub open spec fn layer_input<T>(x: Seq<T>, acts: Seq<Seq<T>>, l: int) -> Seq<T> {
    if l == 0 {
        x
    } else {
        acts[l - 1]
    }
}

/// The weighted inputs and the activations of the first `n` computed layers,
/// for the normalized input `x`.
pub open spec fn forward<T, F: NetworkFunctions<T>>(
    f: F,
    kinds: Seq<FuncElementWiseDependency>,
    w: Seq<Seq<Seq<T>>>,
    b: Seq<Seq<T>>,
    x: Seq<T>,
    n: nat,
) -> (Seq<Seq<T>>, Seq<Seq<T>>)
    decreases n,
{
    if n == 0 {
        (Seq::empty(), Seq::empty())
    } else {
        let (zs, acts) = forward(f, kinds, w, b, x, (n - 1) as nat);
        let l = n - 1;
        let z = layer_output(f, layer_input(x, acts, l), w[l], b[l]);
        (zs.push(z), acts.push(activation_output(f, kinds[l], l, z)))
    }
}

/// dC/da of the output layer: the cost derivative of each activation against
/// the expected value.
pub open spec fn output_cost_derivatives<T, F: NetworkFunctions<T>>(
    f: F,
    acts: Seq<T>,
    expected: Seq<T>,
) -> Seq<T> {
    Seq::new(acts.len(), |j: int| f.cost_derivative_result(acts[j], expected[j]))
}

/// dC/da of a hidden layer of `n` neurons: entry `j` sums dC/dz of the next
/// layer weighted by the weights from neuron `j` into it.
pub open spec fn hidden_cost_derivatives<T, F: NetworkFunctions<T>>(
    f: F,
    n: nat,
    next_value_derivatives: Seq<T>,
    next_weights: Seq<Seq<T>>,
) -> Seq<T> {
    Seq::new(n, |j: int| column_sum(f, next_value_derivatives, next_weights, j))
}

/// dC/dz of layer `layer` from its weighted inputs `z` and dC/da: the product
/// with the activation's derivative, or with its Jacobian for a whole-layer
/// activation.
pub open spec fn value_derivatives<T, F: NetworkFunctions<T>>(
    f: F,
    kind: FuncElementWiseDependency,
    layer: int,
    z: Seq<T>,
    cost_activation_derivatives: Seq<T>,
) -> Seq<T> {
    match kind {
        FuncElementWiseDependency::Independent => Seq::new(
            cost_activation_derivatives.len(),
            |j: int|
                f.mul_result(
                    cost_activation_derivatives[j],
                    f.derivative_result(layer as usize, z[j]),
                ),
        ),
        FuncElementWiseDependency::Dependent => {
            let jacobian = f.jacobian_result(layer as usize, z);
            Seq::new(
                jacobian.len(),
                |j: int| column_sum(f, cost_activation_derivatives, jacobian, j),
            )
        },
    }
}

/// dC/dz of computed layer `l` out of `count`, for the weighted inputs `zs`,
/// the activations `acts` and the expected output: the output layer from the
/// cost derivative, each earlier layer from the one after it.
pub open spec fn backward<T, F: NetworkFunctions<T>>(
    f: F,
    kinds: Seq<FuncElementWiseDependency>,
    w: Seq<Seq<Seq<T>>>,
    zs: Seq<Seq<T>>,
    acts: Seq<Seq<T>>,
    expected: Seq<T>,
    count: nat,
    l: int,
) -> Seq<T>
    decreases count - l,
{
    if l + 1 >= count {
        value_derivatives(f, kinds[l], l, zs[l], output_cost_derivatives(f, acts[l], expected))
    } else {
        let next = backward(f, kinds, w, zs, acts, expected, count, l + 1);
        value_derivatives(
            f,
            kinds[l],
            l,
            zs[l],
            hidden_cost_derivatives(f, acts[l].len(), next, w[l + 1]),
        )
    }
}

/// dC/dw of a layer: entry `[j][k]` is dC/dz of neuron `j` times input `k`.
pub open spec fn weight_gradients<T, F: NetworkFunctions<T>>(
    f: F,
    value_derivatives: Seq<T>,
    input: Seq<T>,
) -> Seq<Seq<T>> {
    Seq::new(
        value_derivatives.len(),
        |j: int| Seq::new(input.len(), |k: int| f.mul_result(value_derivatives[j], input[k])),
    )
}

/// dC/dw and dC/db of every layer for one sample: the forward pass over the
/// normalized input `x`, then back-propagation against the expected output `y`.
pub open spec fn sample_gradients<T, F: NetworkFunctions<T>>(
    f: F,
    kinds: Seq<FuncElementWiseDependency>,
    w: Seq<Seq<Seq<T>>>,
    b: Seq<Seq<T>>,
    count: nat,
    x: Seq<T>,
    y: Seq<T>,
) -> (Seq<Seq<Seq<T>>>, Seq<Seq<T>>) {
    let xn = f.normalize_result(x);
    let (zs, acts) = forward(f, kinds, w, b, xn, count);
    let dzs = Seq::new(count, |l: int| backward(f, kinds, w, zs, acts, y, count, l));
    (Seq::new(count, |l: int| weight_gradients(f, dzs[l], layer_input(xn, acts, l))), dzs)
}

/// The sum of the sample gradients of `batch[start..end]` (`start < end`),
/// accumulated from the left, starting from the first sample's.
pub open spec fn gradient_sum<T, F: NetworkFunctions<T>>(
    f: F,
    kinds: Seq<FuncElementWiseDependency>,
    w: Seq<Seq<Seq<T>>>,
    b: Seq<Seq<T>>,
    count: nat,
    batch: Seq<(Vec<T>, Vec<T>)>,
    start: int,
    end: int,
) -> (Seq<Seq<Seq<T>>>, Seq<Seq<T>>)
    decreases end - start,
{
    if end <= start + 1 {
        sample_gradients(f, kinds, w, b, count, batch[start].0@, batch[start].1@)
    } else {
        let (sw, sb) = gradient_sum(f, kinds, w, b, count, batch, start, end - 1);
        let (gw, gb) = sample_gradients(
            f,
            kinds,
            w,
            b,
            count,
            batch[end - 1].0@,
            batch[end - 1].1@,
        );
        (combine3(f, Combine::Add, sw, gw), combine2(f, Combine::Add, sb, gb))
    }
}

/// The parameters after one update: `(w - dw) * learning_rate` and
/// `(b - db) * learning_rate`, entry by entry.
pub open spec fn updated_parameters<T, F: NetworkFunctions<T>>(
    f: F,
    w: Seq<Seq<Seq<T>>>,
    b: Seq<Seq<T>>,
    dw: Seq<Seq<Seq<T>>>,
    db: Seq<Seq<T>>,
    learning_rate: T,
) -> (Seq<Seq<Seq<T>>>, Seq<Seq<T>>) {
    (
        scale3(f, Scale::MultiplyBy(learning_rate), combine3(f, Combine::Subtract, w, dw)),
        scale2(f, Scale::MultiplyBy(learning_rate), combine2(f, Combine::Subtract, b, db)),
    )
}

/// The parameters after the update for the mini-batch `batch[start..end]`,
/// by the average of its sample gradients.
pub open spec fn mini_batch_step<T, F: NetworkFunctions<T>>(
    f: F,
    kinds: Seq<FuncElementWiseDependency>,
    w: Seq<Seq<Seq<T>>>,
    b: Seq<Seq<T>>,
    count: nat,
    batch: Seq<(Vec<T>, Vec<T>)>,
    start: int,
    end: int,
    learning_rate: T,
) -> (Seq<Seq<Seq<T>>>, Seq<Seq<T>>) {
    let (sw, sb) = gradient_sum(f, kinds, w, b, count, batch, start, end);
    let n = (end - start) as usize;
    updated_parameters(
        f,
        w,
        b,
        scale3(f, Scale::DivideBy(n), sw),
        scale2(f, Scale::DivideBy(n), sb),
        learning_rate,
    )
}

/// Where the mini-batch that starts at `start` ends: `batch_size` samples
/// later, or at the end of the batch when fewer are left.
pub open spec fn mini_batch_end(len: int, start: int, batch_size: int) -> int {
    if len - start >= batch_size {
        start + batch_size
    } else {
        len
    }
}

/// The mini-batches of a batch of `len` samples from `start` on, as
/// `(start, end)` index ranges, in order.
pub open spec fn mini_batch_bounds(len: int, batch_size: int, start: int) -> Seq<(int, int)>
    decreases len - start,
{
    if start >= len || batch_size <= 0 {
        Seq::empty()
    } else {
        let end = mini_batch_end(len, start, batch_size);
        seq![(start, end)] + mini_batch_bounds(len, batch_size, end)
    }
}

/// The parameters after gradient descent over the given mini-batches of
/// `batch`, one after the other.
pub open spec fn descend<T, F: NetworkFunctions<T>>(
    f: F,
    kinds: Seq<FuncElementWiseDependency>,
    w: Seq<Seq<Seq<T>>>,
    b: Seq<Seq<T>>,
    count: nat,
    batch: Seq<(Vec<T>, Vec<T>)>,
    bounds: Seq<(int, int)>,
    learning_rate: T,
) -> (Seq<Seq<Seq<T>>>, Seq<Seq<T>>)
    decreases bounds.len(),
{
    if bounds.len() == 0 {
        (w, b)
    } else {
        let (w1, b1) = mini_batch_step(
            f,
            kinds,
            w,
            b,
            count,
            batch,
            bounds[0].0,
            bounds[0].1,
            learning_rate,
        );
        descend(f, kinds, w1, b1, count, batch, bounds.drop_first(), learning_rate)
    }
}

/// The index that a scan of `v[0..n]` keeps (`n >= 1`): a later value
/// replaces the kept one whenever the kept one is at most it, so among
/// the highest values the last one wins.
pub open spec fn highest_index<T, F: NetworkFunctions<T>>(f: F, v: Seq<T>, n: nat) -> int
    decreases n,
{
    if n <= 1 {
        0
    } else {
        let best = highest_index(f, v, (n - 1) as nat);
        if f.at_most_result(v[best], v[n - 1]) {
            n - 1
        } else {
            best
        }
    }
}

/// The vector behind an optional reference, empty when there is none.
pub open spec fn seq_of<T>(v: Option<&Vec<T>>) -> Seq<T> {
    match v {
        Some(v) => v@,
        None => Seq::empty(),
    }
}

/// Descending over one more mini-batch is one more mini-batch step.
pub proof fn lemma_descend_push<T, F: NetworkFunctions<T>>(
    f: F,
    kinds: Seq<FuncElementWiseDependency>,
    w: Seq<Seq<Seq<T>>>,
    b: Seq<Seq<T>>,
    count: nat,
    batch: Seq<(Vec<T>, Vec<T>)>,
    bounds: Seq<(int, int)>,
    next: (int, int),
    learning_rate: T,
)
    ensures
        ({
            let (w1, b1) = descend(f, kinds, w, b, count, batch, bounds, learning_rate);
            descend(f, kinds, w, b, count, batch, bounds.push(next), learning_rate)
                == mini_batch_step(f, kinds, w1, b1, count, batch, next.0, next.1, learning_rate)
        }),
    decreases bounds.len(),
{
    let pushed = bounds.push(next);
    assert(pushed.len() > 0);
    if bounds.len() == 0 {
        assert(pushed[0] == next);
        assert(pushed.drop_first() =~= Seq::<(int, int)>::empty());
        let (w1, b1) = mini_batch_step(f, kinds, w, b, count, batch, next.0, next.1, learning_rate);
        assert(descend(f, kinds, w1, b1, count, batch, pushed.drop_first(), learning_rate) == (
            w1,
            b1,
        ));
    } else {
        assert(pushed[0] == bounds[0]);
        let (w0, b0) = mini_batch_step(
            f,
            kinds,
            w,
            b,
            count,
            batch,
            bounds[0].0,
            bounds[0].1,
            learning_rate,
        );
        lemma_descend_push(f, kinds, w0, b0, count, batch, bounds.drop_first(), next, learning_rate);
        assert(bounds.push(next).drop_first() =~= bounds.drop_first().push(next));
    }
}

} // verus!
