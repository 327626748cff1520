//! Properties of the network that span its operations.

use vstd::prelude::*;
use crate::functions::{FuncElementWiseDependency, NetworkFunctions, view2};
use crate::math::{column_sum, combine2, combine3, dot, view3, Combine};
use crate::model::{
    backward, forward, gradient_sum, highest_index, layer_input, mini_batch_bounds, mini_batch_step,
    sample_gradients,
};
use crate::perceptron::MultiLayerPerceptron;

verus! {

/// Index `k` lies in one of the ranges `r`.
pub open spec fn in_some_range(r: Seq<(int, int)>, k: int) -> bool {
    exists|i: int| 0 <= i < r.len() && (#[trigger] r[i]).0 <= k < r[i].1
}

/// The mini-batches of gradient descent partition the batch: they are
/// non-empty index ranges that follow one another from the first sample to
/// the last, each of `batch_size` samples except the last, which has at most
/// that many; every sample lies in one of them.
pub proof fn lemma_mini_batches_partition(len: int, batch_size: int, start: int)
    requires
        0 <= start <= len,
        batch_size > 0,
    ensures
        ({
            let r = mini_batch_bounds(len, batch_size, start);
            &&& (start < len <==> r.len() > 0)
            &&& r.len() > 0 ==> r[0].0 == start && r.last().1 == len
            &&& forall|i: int| 0 <= i < r.len() ==> start <= (#[trigger] r[i]).0 < r[i].1 <= len
            &&& forall|i: int| 0 <= i < r.len() - 1 ==> (#[trigger] r[i]).1 == r[i + 1].0
            &&& forall|i: int| 0 <= i < r.len() - 1 ==> (#[trigger] r[i]).1 - r[i].0 == batch_size
            &&& r.len() > 0 ==> 0 < r.last().1 - r.last().0 <= batch_size
            &&& forall|k: int| start <= k < len ==> #[trigger] in_some_range(r, k)
        }),
    decreases len - start,
{
    let r = mini_batch_bounds(len, batch_size, start);
    if start < len {
        let end = if len - start >= batch_size {
            start + batch_size
        } else {
            len
        };
        lemma_mini_batches_partition(len, batch_size, end);
        let rest = mini_batch_bounds(len, batch_size, end);
        assert(r == seq![(start, end)] + rest);
        assert forall|i: int| 0 <= i < r.len() implies start <= (#[trigger] r[i]).0 < r[i].1
            <= len by {
            if i > 0 {
                assert(r[i] == rest[i - 1]);
            }
        }
        assert forall|i: int| 0 <= i < r.len() - 1 implies (#[trigger] r[i]).1 == r[i + 1].0 by {
            assert(r[i + 1] == rest[i]);
            if i > 0 {
                assert(r[i] == rest[i - 1]);
            }
        }
        assert forall|i: int| 0 <= i < r.len() - 1 implies (#[trigger] r[i]).1 - r[i].0
            == batch_size by {
            if i > 0 {
                assert(r[i] == rest[i - 1]);
            } else {
                assert(rest.len() > 0);
            }
        }
        if rest.len() > 0 {
            assert(r.last() == rest.last());
        }
        assert forall|k: int| start <= k < len implies #[trigger] in_some_range(r, k) by {
            if k < end {
                assert(r[0].0 <= k < r[0].1);
            } else {
                assert(in_some_range(rest, k));
                let i = choose|i: int| 0 <= i < rest.len() && (#[trigger] rest[i]).0 <= k < rest[i].1;
                assert(r[i + 1] == rest[i]);
            }
        }
    }
}

/// A state that a forward pass left: the normalized input is the
/// normalization of the input, and the layers are the forward pass over it.
pub open spec fn forwarded<T, F: NetworkFunctions<T>>(net: MultiLayerPerceptron<T, F>) -> bool {
    net.forwarded_with(view3(net.weights), view2(net.biases))
}

/// The forward pass depends on nothing but the parameters and the input:
/// two states that a forward pass left, with the same parameters and input,
/// hold the same normalized input, weighted inputs and activations. So a
/// second forward pass over the same input changes none of them.
pub proof fn lemma_forward_pass_is_a_function<T, F: NetworkFunctions<T>>(
    a: MultiLayerPerceptron<T, F>,
    b: MultiLayerPerceptron<T, F>,
)
    requires
        forwarded(a),
        forwarded(b),
        a.same_parameters(&b),
        a.inputs@ == b.inputs@,
    ensures
        a.normalized_inputs@ == b.normalized_inputs@,
        view2(a.layers) == view2(b.layers),
        view2(a.activated_layers) == view2(b.activated_layers),
{
}

/// When `at_most` is a total preorder, the scan of `highest_index` keeps a
/// highest value, and every value after it is strictly lower.
pub proof fn lemma_highest_index_is_last_maximum<T, F: NetworkFunctions<T>>(f: F, v: Seq<T>, n: nat)
    requires
        1 <= n <= v.len(),
        forall|a: T, b: T| #[trigger] f.at_most_result(a, b) || f.at_most_result(b, a),
        forall|a: T, b: T, c: T|
            #[trigger] f.at_most_result(a, b) && #[trigger] f.at_most_result(b, c)
                ==> f.at_most_result(a, c),
    ensures
        0 <= highest_index(f, v, n) < n,
        forall|j: int| 0 <= j < n ==> f.at_most_result(#[trigger] v[j], v[highest_index(f, v, n)]),
        forall|j: int|
            highest_index(f, v, n) < j < n ==> !f.at_most_result(v[highest_index(f, v, n)], #[trigger] v[j]),
    decreases n,
{
    if n > 1 {
        lemma_highest_index_is_last_maximum(f, v, (n - 1) as nat);
        let best = highest_index(f, v, (n - 1) as nat);
        assert(f.at_most_result(v[best], v[best]) || f.at_most_result(v[best], v[best]));
        if f.at_most_result(v[best], v[n - 1]) {
            assert forall|j: int| 0 <= j < n implies f.at_most_result(#[trigger] v[j], v[n - 1]) by {
                if j < n - 1 {
                    assert(f.at_most_result(v[j], v[best]));
                } else {
                    assert(f.at_most_result(v[j], v[j]) || f.at_most_result(v[j], v[j]));
                }
            }
        } else {
            assert(f.at_most_result(v[n - 1], v[best]));
        }
    } else {
        assert(f.at_most_result(v[0], v[0]) || f.at_most_result(v[0], v[0]));
    }
}

/// The forward pass computes each layer from the one before it: the weighted
/// input of neuron `j` of layer `l` is the dot product of the layer's input
/// with the neuron's weights, plus its bias; an element-wise layer `l` applies
/// its own activation function (the one for layer `l`) to each weighted
/// input, and a whole-layer activation its own function to the layer.
pub proof fn lemma_forward_layers<T, F: NetworkFunctions<T>>(
    f: F,
    kinds: Seq<FuncElementWiseDependency>,
    w: Seq<Seq<Seq<T>>>,
    b: Seq<Seq<T>>,
    x: Seq<T>,
    n: nat,
)
    ensures
        ({
            let (zs, acts) = forward(f, kinds, w, b, x, n);
            &&& zs.len() == n
            &&& acts.len() == n
            &&& forall|l: int| 0 <= l < n ==> (#[trigger] zs[l]).len() == w[l].len()
            &&& forall|l: int, j: int|
                0 <= l < n && 0 <= j < w[l].len() ==> #[trigger] zs[l][j] == f.add_result(
                    dot(f, layer_input(x, acts, l), w[l][j]),
                    b[l][j],
                )
            &&& forall|l: int|
                0 <= l < n && kinds[l] == FuncElementWiseDependency::Independent ==> (
                #[trigger] acts[l]).len() == zs[l].len()
            &&& forall|l: int, j: int|
                0 <= l < n && kinds[l] == FuncElementWiseDependency::Independent && 0 <= j
                    < zs[l].len() ==> #[trigger] acts[l][j] == f.activate_result(l as usize, zs[l][j])
            &&& forall|l: int|
                0 <= l < n && kinds[l] == FuncElementWiseDependency::Dependent ==> #[trigger] acts[l]
                    == f.activate_vec_result(l as usize, zs[l])
        }),
    decreases n,
{
    if n > 0 {
        lemma_forward_layers(f, kinds, w, b, x, (n - 1) as nat);
        let (zs0, acts0) = forward(f, kinds, w, b, x, (n - 1) as nat);
        let (zs, acts) = forward(f, kinds, w, b, x, n);
        assert forall|l: int| 0 <= l < n - 1 implies #[trigger] layer_input(x, acts, l)
            == layer_input(x, acts0, l) by {
            if l > 0 {
                assert(acts[l - 1] == acts0[l - 1]);
            }
        }
        assert(layer_input(x, acts, n - 1) == layer_input(x, acts0, n - 1));
        assert forall|l: int| 0 <= l < n implies #[trigger] layer_input(x, acts, l)
            == layer_input(x, acts0, l) by {
            if l < n - 1 {
                assert(layer_input(x, acts, l) == layer_input(x, acts0, l));
            }
        }
    }
}

/// Back-propagation at the output layer `l` of an element-wise layer: dC/dz
/// of neuron `j` is the cost derivative of the activation the forward pass
/// produced (not of the weighted input) against the expected value, times the
/// derivative of layer `l`'s own activation at the neuron's weighted input.
pub proof fn lemma_backward_output_layer<T, F: NetworkFunctions<T>>(
    f: F,
    kinds: Seq<FuncElementWiseDependency>,
    w: Seq<Seq<Seq<T>>>,
    zs: Seq<Seq<T>>,
    acts: Seq<Seq<T>>,
    expected: Seq<T>,
    count: nat,
)
    requires
        count >= 1,
        kinds[count - 1] == FuncElementWiseDependency::Independent,
    ensures
        ({
            let l = count - 1;
            let dz = backward(f, kinds, w, zs, acts, expected, count, l);
            &&& dz.len() == acts[l].len()
            &&& forall|j: int|
                0 <= j < acts[l].len() ==> #[trigger] dz[j] == f.mul_result(
                    f.cost_derivative_result(acts[l][j], expected[j]),
                    f.derivative_result(l as usize, zs[l][j]),
                )
        }),
{
}

/// Back-propagation through a hidden element-wise layer `l`: dC/dz of neuron
/// `j` is the sum of dC/dz of the next layer weighted by the weights from
/// neuron `j` into it, times the derivative of layer `l`'s own activation at
/// the neuron's weighted input.
pub proof fn lemma_backward_hidden_layer<T, F: NetworkFunctions<T>>(
    f: F,
    kinds: Seq<FuncElementWiseDependency>,
    w: Seq<Seq<Seq<T>>>,
    zs: Seq<Seq<T>>,
    acts: Seq<Seq<T>>,
    expected: Seq<T>,
    count: nat,
    l: int,
)
    requires
        0 <= l < count - 1,
        kinds[l] == FuncElementWiseDependency::Independent,
    ensures
        ({
            let dz = backward(f, kinds, w, zs, acts, expected, count, l);
            let next = backward(f, kinds, w, zs, acts, expected, count, l + 1);
            &&& dz.len() == acts[l].len()
            &&& forall|j: int|
                0 <= j < acts[l].len() ==> #[trigger] dz[j] == f.mul_result(
                    column_sum(f, next, w[l + 1], j),
                    f.derivative_result(l as usize, zs[l][j]),
                )
        }),
{
}

/// The summed gradients of a mini-batch depend on each sample's input and
/// expected output only through that sample's gradients: two batches that
/// agree on the mini-batch give the same sum.
pub proof fn lemma_gradient_sum_agrees<T, F: NetworkFunctions<T>>(
    f: F,
    kinds: Seq<FuncElementWiseDependency>,
    w: Seq<Seq<Seq<T>>>,
    b: Seq<Seq<T>>,
    count: nat,
    batch: Seq<(Vec<T>, Vec<T>)>,
    other: Seq<(Vec<T>, Vec<T>)>,
    start: int,
    end: int,
)
    requires
        0 <= start < end,
        end <= batch.len(),
        end <= other.len(),
        forall|i: int| start <= i < end ==> #[trigger] batch[i] == other[i],
    ensures
        gradient_sum(f, kinds, w, b, count, batch, start, end) == gradient_sum(
            f,
            kinds,
            w,
            b,
            count,
            other,
            start,
            end,
        ),
    decreases end - start,
{
    assert(batch[start] == other[start]);
    if end > start + 1 {
        lemma_gradient_sum_agrees(f, kinds, w, b, count, batch, other, start, end - 1);
        assert(batch[end - 1] == other[end - 1]);
    }
}

/// Each sample of a mini-batch is back-propagated against its own expected
/// output: giving the last sample of the mini-batch another expected output
/// `y` leaves the gradients of the others as they were and adds the last
/// sample's gradients for `y`.
pub proof fn lemma_gradient_sum_pairs_each_sample_with_its_output<T, F: NetworkFunctions<T>>(
    f: F,
    kinds: Seq<FuncElementWiseDependency>,
    w: Seq<Seq<Seq<T>>>,
    b: Seq<Seq<T>>,
    count: nat,
    batch: Seq<(Vec<T>, Vec<T>)>,
    start: int,
    end: int,
    y: Vec<T>,
)
    requires
        0 <= start < end - 1,
        end <= batch.len(),
    ensures
        ({
            let changed = batch.update(end - 1, (batch[end - 1].0, y));
            let (sw, sb) = gradient_sum(f, kinds, w, b, count, batch, start, end - 1);
            let (gw, gb) = sample_gradients(f, kinds, w, b, count, batch[end - 1].0@, y@);
            gradient_sum(f, kinds, w, b, count, changed, start, end) == (
                combine3(f, Combine::Add, sw, gw),
                combine2(f, Combine::Add, sb, gb),
            )
        }),
{
    let changed = batch.update(end - 1, (batch[end - 1].0, y));
    lemma_gradient_sum_agrees(f, kinds, w, b, count, changed, batch, start, end - 1);
    assert(changed[end - 1] == (batch[end - 1].0, y));
}

/// One mini-batch step moves each weight and bias against the average of
/// the mini-batch's summed gradients: the entry minus the sum divided by the
/// number of samples, times the learning rate.
pub proof fn lemma_mini_batch_step_entries<T, F: NetworkFunctions<T>>(
    f: F,
    kinds: Seq<FuncElementWiseDependency>,
    w: Seq<Seq<Seq<T>>>,
    b: Seq<Seq<T>>,
    count: nat,
    batch: Seq<(Vec<T>, Vec<T>)>,
    start: int,
    end: int,
    learning_rate: T,
)
    requires
        0 <= start < end,
        end - start <= usize::MAX,
    ensures
        ({
            let (sw, sb) = gradient_sum(f, kinds, w, b, count, batch, start, end);
            let (w1, b1) = mini_batch_step(
                f,
                kinds,
                w,
                b,
                count,
                batch,
                start,
                end,
                learning_rate,
            );
            let n = (end - start) as usize;
            &&& w1.len() == w.len()
            &&& b1.len() == b.len()
            &&& forall|l: int, j: int, k: int|
                0 <= l < w.len() && 0 <= j < w[l].len() && 0 <= k < w[l][j].len() && l < sw.len()
                    && j < sw[l].len() && k < sw[l][j].len() ==> #[trigger] w1[l][j][k] == f.mul_result(
                    f.sub_result(w[l][j][k], f.div_result(sw[l][j][k], n)),
                    learning_rate,
                )
            &&& forall|l: int, j: int|
                0 <= l < b.len() && 0 <= j < b[l].len() && l < sb.len() && j < sb[l].len()
                    ==> #[trigger] b1[l][j] == f.mul_result(
                    f.sub_result(b[l][j], f.div_result(sb[l][j], n)),
                    learning_rate,
                )
        }),
{
}

} // verus!
