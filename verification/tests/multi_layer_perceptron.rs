use rustml::functions::{FuncElementWiseDependency, Functions};
use rustml::math::{combine_tensors, scale_matrix, Combine, Scale};
use rustml::network::{Backpropable, Predictable, Resetable};
use rustml::perceptron::MultiLayerPerceptron;

type F32Functions = Functions<
    f32,
    fn(f32, f32) -> f32,
    fn(f32, f32) -> f32,
    fn(f32, f32) -> f32,
    fn(f32, usize) -> f32,
    fn(usize, f32) -> f32,
    fn(usize, f32) -> f32,
    fn(usize, &Vec<f32>) -> Vec<f32>,
    fn(usize, &Vec<f32>) -> Vec<Vec<f32>>,
    fn(f32, f32) -> f32,
    fn(&Vec<f32>) -> Vec<f32>,
    fn(f32, f32) -> bool,
    fn(usize, usize) -> f32,
>;

type Net = MultiLayerPerceptron<f32, F32Functions>;

fn add(a: f32, b: f32) -> f32 {
    a + b
}

fn sub(a: f32, b: f32) -> f32 {
    a - b
}

fn mul(a: f32, b: f32) -> f32 {
    a * b
}

fn div_count(a: f32, n: usize) -> f32 {
    a / (n as f32)
}

fn sigmoid(_layer: usize, z: f32) -> f32 {
    1.0 / (1.0 + (-z).exp())
}

fn sigmoid_derivative(layer: usize, z: f32) -> f32 {
    let s = sigmoid(layer, z);
    s * (1.0 - s)
}

fn relu(_layer: usize, z: f32) -> f32 {
    if z > 0.0 {
        z
    } else {
        0.0
    }
}

fn relu_derivative(_layer: usize, z: f32) -> f32 {
    if z > 0.0 {
        1.0
    } else {
        0.0
    }
}

fn softmax(_layer: usize, z: &Vec<f32>) -> Vec<f32> {
    let max = z.iter().cloned().fold(f32::NEG_INFINITY, f32::max);
    let exps: Vec<f32> = z.iter().map(|&v| (v - max).exp()).collect();
    let sum: f32 = exps.iter().sum();
    exps.iter().map(|&e| e / sum).collect()
}

fn softmax_jacobian(layer: usize, z: &Vec<f32>) -> Vec<Vec<f32>> {
    let s = softmax(layer, z);
    (0..s.len())
        .map(|i| {
            (0..s.len())
                .map(|j| if i == j { s[i] * (1.0 - s[j]) } else { -s[i] * s[j] })
                .collect()
        })
        .collect()
}

fn unused_vec(_layer: usize, z: &Vec<f32>) -> Vec<f32> {
    z.clone()
}

fn unused_jacobian(_layer: usize, z: &Vec<f32>) -> Vec<Vec<f32>> {
    vec![vec![0.0; z.len()]; z.len()]
}

fn unused_scalar(_layer: usize, z: f32) -> f32 {
    z
}

fn mse_derivative(predicted: f32, expected: f32) -> f32 {
    2.0 * (predicted - expected)
}

fn no_normalization(x: &Vec<f32>) -> Vec<f32> {
    x.clone()
}

fn at_most(a: f32, b: f32) -> bool {
    a.total_cmp(&b) != std::cmp::Ordering::Greater
}

fn half(_layer: usize, _fan_in: usize) -> f32 {
    0.5
}

fn functions(
    activate: fn(usize, f32) -> f32,
    activate_derivative: fn(usize, f32) -> f32,
    activate_vec: fn(usize, &Vec<f32>) -> Vec<f32>,
    jacobian: fn(usize, &Vec<f32>) -> Vec<Vec<f32>>,
) -> F32Functions {
    Functions {
        zero: 0.0,
        add,
        sub,
        mul,
        div_count,
        activate,
        activate_derivative,
        activate_vec,
        jacobian,
        cost_derivative: mse_derivative,
        normalize: no_normalization,
        at_most,
        init: half,
    }
}

fn sigmoid_net(shape: Vec<usize>) -> Net {
    let n = shape.len() - 1;
    MultiLayerPerceptron::new(
        shape,
        vec![FuncElementWiseDependency::Independent; n],
        functions(sigmoid, sigmoid_derivative, unused_vec, unused_jacobian),
    )
}

fn relu_net(shape: Vec<usize>) -> Net {
    let n = shape.len() - 1;
    MultiLayerPerceptron::new(
        shape,
        vec![FuncElementWiseDependency::Independent; n],
        functions(relu, relu_derivative, unused_vec, unused_jacobian),
    )
}

fn softmax_net(shape: Vec<usize>) -> Net {
    let n = shape.len() - 1;
    MultiLayerPerceptron::new(
        shape,
        vec![FuncElementWiseDependency::Dependent; n],
        functions(unused_scalar, unused_scalar, softmax, softmax_jacobian),
    )
}

#[test]
fn test_ws_cnt() {
    let net = sigmoid_net(vec![3, 2, 3, 2]);

    let mut total_ws = 0;
    for i in net.weights {
        for j in i {
            for _ in j {
                total_ws += 1;
            }
        }
    }

    assert_eq!(total_ws, 18);
}

#[test]
fn test_bias_cnt() {
    let net = sigmoid_net(vec![3, 2, 3, 2]);

    let mut total_biases = 0;
    for i in net.biases {
        for _ in i {
            total_biases += 1;
        }
    }

    assert_eq!(total_biases, 7);
}

#[test]
fn test_neurons_cnt() {
    let net = sigmoid_net(vec![3, 2, 3, 2]);

    let mut total_neurons = 0;
    for i in net.layers {
        for _ in i {
            total_neurons += 1;
        }
    }
    total_neurons += net.inputs.len();

    assert_eq!(total_neurons, 10);
}

#[test]
fn test_feedforward_layer1() {
    let mut net = sigmoid_net(vec![2, 3]);
    // test initialization
    assert_eq!(net.inputs.len(), 2);
    assert_eq!(net.normalized_inputs.len(), 2);

    assert_eq!(net.layers.len(), 1);
    assert_eq!(net.activated_layers.len(), 1);
    assert_eq!(net.weights.len(), 1);
    assert_eq!(net.biases.len(), 1);

    assert_eq!(net.layers[0].len(), 3);
    assert_eq!(net.activated_layers[0].len(), 3);
    assert_eq!(net.weights[0].len(), 3);
    assert_eq!(net.biases[0].len(), 3);

    assert_eq!(net.weights[0][0].len(), 2);
    assert_eq!(net.weights[0][1].len(), 2);
    assert_eq!(net.weights[0][2].len(), 2);

    net.inputs = vec![3.0, 2.0];

    net.normalize_input();
    assert_eq!(net.normalized_inputs, vec![3.0, 2.0]);

    net.weights[0] = vec![vec![3.0, 4.0], vec![2.0, 4.0], vec![3.0, 5.0]];
    net.biases[0] = vec![1.0, 1.0, 3.0];

    net.feedforward_layer(0);

    assert_eq!(net.layers[0], vec![18.0, 15.0, 22.0]);
}

#[test]
fn test_feedforward_layer2() {
    let mut net = sigmoid_net(vec![2, 3, 3]);
    // test initialization
    assert_eq!(net.layers.len(), 2);
    assert_eq!(net.activated_layers.len(), 2);
    assert_eq!(net.weights.len(), 2);
    assert_eq!(net.biases.len(), 2);

    assert_eq!(net.inputs.len(), 2);
    assert_eq!(net.normalized_inputs.len(), 2);
    // weights connected to inputs
    assert_eq!(net.weights[0][0].len(), 2);
    assert_eq!(net.weights[0][1].len(), 2);
    assert_eq!(net.weights[0][2].len(), 2);

    assert_eq!(net.layers[0].len(), 3);
    assert_eq!(net.activated_layers[0].len(), 3);
    assert_eq!(net.weights[0].len(), 3);
    assert_eq!(net.biases[0].len(), 3);
    // weights connected to 0th layer
    assert_eq!(net.weights[1][0].len(), 3);
    assert_eq!(net.weights[1][1].len(), 3);
    assert_eq!(net.weights[1][2].len(), 3);

    assert_eq!(net.layers[1].len(), 3);
    assert_eq!(net.activated_layers[1].len(), 3);
    assert_eq!(net.weights[1].len(), 3);
    assert_eq!(net.biases[1].len(), 3);

    net.activated_layers[0] = vec![3.0, 3.0, 2.0];
    net.weights[1] = vec![
        vec![3.0, 4.0, 3.0],
        vec![2.0, 4.0, 2.0],
        vec![3.0, 5.0, 2.0],
    ];
    net.biases[1] = vec![1.0, 1.0, 3.0];

    net.feedforward_layer(1);

    assert_eq!(net.layers[1], vec![28.0, 23.0, 31.0]);
}

#[test]
fn test_feedforward_layer_softmax() {
    let mut net = softmax_net(vec![2, 3]);
    // test initialization
    assert_eq!(net.inputs.len(), 2);
    assert_eq!(net.normalized_inputs.len(), 2);

    assert_eq!(net.layers.len(), 1);
    assert_eq!(net.activated_layers.len(), 1);
    assert_eq!(net.weights.len(), 1);
    assert_eq!(net.biases.len(), 1);

    assert_eq!(net.layers[0].len(), 3);
    assert_eq!(net.activated_layers[0].len(), 3);
    assert_eq!(net.weights[0].len(), 3);
    assert_eq!(net.biases[0].len(), 3);

    assert_eq!(net.weights[0][0].len(), 2);
    assert_eq!(net.weights[0][1].len(), 2);
    assert_eq!(net.weights[0][2].len(), 2);

    net.inputs = vec![3.0, 2.0];

    net.normalize_input();
    assert_eq!(net.normalized_inputs, vec![3.0, 2.0]);

    net.weights[0] = vec![vec![3.0, 4.0], vec![2.0, 4.0], vec![3.0, 5.0]];
    net.biases[0] = vec![1.0, 1.0, 3.0];

    net.feedforward_layer(0);

    assert_eq!(net.layers[0], vec![18.0, 15.0, 22.0]);

    let activations = &net.activated_layers[0];
    let expected = vec![
        0.01797011806881207,
        0.0008946794968705339,
        0.9811352024343174,
    ];
    assert!(activations
        .iter()
        .zip(expected)
        .all(|(a, y)| (a - y).abs() < 0.001));
}

#[test]
fn test_feedforward() {
    let mut net = relu_net(vec![4, 3, 5]);
    // test initialization
    assert_eq!(net.inputs.len(), 4);
    assert_eq!(net.normalized_inputs.len(), 4);
    // weights connected to inputs
    assert_eq!(net.weights[0][0].len(), 4);
    assert_eq!(net.weights[0][1].len(), 4);
    assert_eq!(net.weights[0][2].len(), 4);

    assert_eq!(net.layers.len(), 2);
    assert_eq!(net.activated_layers.len(), 2);
    assert_eq!(net.weights.len(), 2);
    assert_eq!(net.biases.len(), 2);

    assert_eq!(net.layers[0].len(), 3);
    assert_eq!(net.activated_layers[0].len(), 3);
    assert_eq!(net.weights[0].len(), 3);
    assert_eq!(net.biases[0].len(), 3);
    // weights connected to 0th layer
    assert_eq!(net.weights[1][0].len(), 3);
    assert_eq!(net.weights[1][1].len(), 3);
    assert_eq!(net.weights[1][2].len(), 3);
    assert_eq!(net.weights[1][3].len(), 3);
    assert_eq!(net.weights[1][4].len(), 3);

    assert_eq!(net.layers[1].len(), 5);
    assert_eq!(net.activated_layers[1].len(), 5);
    assert_eq!(net.weights[1].len(), 5);
    assert_eq!(net.biases[1].len(), 5);

    net.weights = vec![
        vec![
            vec![3.0, 2.0, 1.0, 4.0],
            vec![5.0, 1.0, 2.0, 3.0],
            vec![4.0, 1.0, 2.0, 1.0],
        ],
        vec![
            vec![1.0, 2.0, 5.0],
            vec![3.0, 2.0, 1.0],
            vec![2.0, 3.0, 5.0],
            vec![1.0, 4.0, 1.0],
            vec![4.0, 1.0, 2.0],
        ],
    ];
    net.biases = vec![vec![3.0, 1.0, 2.0], vec![3.0, 2.0, 1.0, 2.0, 4.0]];

    net.predict(&vec![2.0, 1.0, 3.0, 4.0]);
    net.feedforward();

    assert_eq!(net.normalized_inputs, vec![2.0, 1.0, 3.0, 4.0]);

    assert_eq!(net.layers[0], vec![30.0, 30.0, 21.0]);
    assert_eq!(net.activated_layers[0], vec![30.0, 30.0, 21.0]);

    assert_eq!(net.layers[1], vec![198.0, 173.0, 256.0, 173.0, 196.0]);
    assert_eq!(
        net.activated_layers[1],
        vec![198.0, 173.0, 256.0, 173.0, 196.0]
    );
}

// same net as test_feedforward_layer1
#[test]
fn test_backprop_layer() {
    let mut net = relu_net(vec![2, 3]);

    net.normalized_inputs = vec![3.0, 2.0];

    net.weights[0] = vec![vec![3.0, 4.0], vec![2.0, 4.0], vec![3.0, 5.0]];
    net.biases[0] = vec![1.0, 1.0, 3.0];

    net.feedforward_layer(0);

    assert_eq!(net.activated_layers[0], vec![18.0, 15.0, 22.0]);

    let (dws, dbs, das) = net.backprop_layer(0, None, Some(&vec![15.0, 12.0, 20.0]));
    assert_eq!(das, vec![6.0, 6.0, 4.0]);
    assert_eq!(
        dws,
        vec![vec![18.0, 12.0], vec![18.0, 12.0], vec![12.0, 8.0]]
    );
    assert_eq!(dbs, vec![6.0, 6.0, 4.0]);
}

// same net as test_feedforward
#[test]
fn test_backprop() {
    let mut net = relu_net(vec![4, 3, 5]);

    net.inputs = vec![2.0, 1.0, 3.0, 4.0];
    net.weights = vec![
        vec![
            vec![3.0, 2.0, 1.0, 4.0],
            vec![5.0, 1.0, 2.0, 3.0],
            vec![4.0, 1.0, 2.0, 1.0],
        ],
        vec![
            vec![1.0, 2.0, 5.0],
            vec![3.0, 2.0, 1.0],
            vec![2.0, 3.0, 5.0],
            vec![1.0, 4.0, 1.0],
            vec![4.0, 1.0, 2.0],
        ],
    ];
    net.biases = vec![vec![3.0, 1.0, 2.0], vec![3.0, 2.0, 1.0, 2.0, 4.0]];

    net.feedforward();

    assert_eq!(net.normalized_inputs, vec![2.0, 1.0, 3.0, 4.0]);

    assert_eq!(net.activated_layers[0], vec![30.0, 30.0, 21.0]);

    assert_eq!(
        net.activated_layers[1],
        vec![198.0, 173.0, 256.0, 173.0, 196.0]
    );

    let (dws, dbs) = net.backprop(&vec![180.0, 165.0, 250.0, 170.0, 180.0]);

    assert_eq!(dws[1][0], vec![1080.0, 1080.0, 756.0]);
    assert_eq!(dws[1][1], vec![480.0, 480.0, 336.0]);
    assert_eq!(dws[1][2], vec![360.0, 360.0, 252.0]);
    assert_eq!(dws[1][3], vec![180.0, 180.0, 126.0]);
    assert_eq!(dws[1][4], vec![960.0, 960.0, 672.0]);
    assert_eq!(dbs[1], vec![36.0, 16.0, 12.0, 6.0, 32.0]);

    assert_eq!(dws[0][0], vec![484.0, 242.0, 726.0, 968.0]);
    assert_eq!(dws[0][1], vec![392.0, 196.0, 588.0, 784.0]);
    assert_eq!(dws[0][2], vec![652.0, 326.0, 978.0, 1304.0]);
    assert_eq!(dbs[0], vec![242.0, 196.0, 326.0]);
}

#[test]
fn reset_params_restores_zero_state_and_initial_weights() {
    let mut net = relu_net(vec![2, 3, 1]);
    net.inputs = vec![1.0, 2.0];
    net.weights[1][0] = vec![7.0, 7.0, 7.0];
    net.biases[0] = vec![1.0, 1.0, 1.0];
    net.layers[0] = vec![4.0, 4.0, 4.0];
    net.reset_params();
    assert_eq!(net.inputs, vec![0.0, 0.0]);
    assert_eq!(net.normalized_inputs, vec![0.0, 0.0]);
    assert_eq!(net.weights, vec![vec![vec![0.5; 2]; 3], vec![vec![0.5; 3]; 1]]);
    assert_eq!(net.biases, vec![vec![0.0; 3], vec![0.0; 1]]);
    assert_eq!(net.layers, vec![vec![0.0; 3], vec![0.0; 1]]);
    assert_eq!(net.activated_layers, vec![vec![0.0; 3], vec![0.0; 1]]);
}

fn layer_and_fan_in(layer: usize, fan_in: usize) -> f32 {
    (layer * 10 + fan_in) as f32
}

#[test]
fn initializer_gets_layer_and_fan_in() {
    let mut f = functions(relu, relu_derivative, unused_vec, unused_jacobian);
    f.init = layer_and_fan_in;
    let net = MultiLayerPerceptron::new(
        vec![4, 3, 2],
        vec![FuncElementWiseDependency::Independent; 2],
        f,
    );
    assert_eq!(net.weights[0], vec![vec![4.0; 4]; 3]);
    assert_eq!(net.weights[1], vec![vec![13.0; 3]; 2]);
}

#[test]
fn sigmoid_layer_activates_each_neuron() {
    let mut net = sigmoid_net(vec![1, 2]);
    net.inputs = vec![0.0];
    net.weights[0] = vec![vec![1.0], vec![1.0]];
    net.biases[0] = vec![0.0, 2.0];
    net.feedforward();
    assert_eq!(net.layers[0], vec![0.0, 2.0]);
    assert_eq!(net.activated_layers[0][0], 0.5);
    assert!((net.activated_layers[0][1] - 0.880797).abs() < 1e-5);
}

#[test]
fn forward_pass_twice_gives_the_same_state() {
    let mut net = relu_net(vec![2, 2, 1]);
    net.weights = vec![vec![vec![1.0, -1.0], vec![2.0, 1.0]], vec![vec![1.0, 3.0]]];
    net.predict(&vec![1.0, 2.0]);
    let layers = net.layers.clone();
    let activated = net.activated_layers.clone();
    net.feedforward();
    assert_eq!(net.layers, layers);
    assert_eq!(net.activated_layers, activated);
    assert_eq!(net.layers, vec![vec![-1.0, 4.0], vec![12.0]]);
    assert_eq!(net.activated_layers, vec![vec![0.0, 4.0], vec![12.0]]);
}

#[test]
fn highest_output_takes_the_last_of_equal_maxima() {
    let mut net = relu_net(vec![1, 4]);
    net.activated_layers[0] = vec![1.0, 3.0, 2.0, 3.0];
    assert_eq!(net.get_highest_output(), (3.0, 3));
    net.activated_layers[0] = vec![5.0, 3.0, 2.0, 3.0];
    assert_eq!(net.get_highest_output(), (5.0, 0));
}

#[test]
fn update_subtracts_then_scales_by_the_learning_rate() {
    let mut net = relu_net(vec![1, 2]);
    net.weights = vec![vec![vec![3.0], vec![5.0]]];
    net.biases = vec![vec![1.0, 2.0]];
    net.update_weights_and_biases(vec![vec![vec![1.0], vec![1.0]]], vec![vec![0.5, 1.0]], 0.5);
    assert_eq!(net.weights, vec![vec![vec![1.0], vec![2.0]]]);
    assert_eq!(net.biases, vec![vec![0.25, 0.5]]);
}

#[test]
fn batch_gradient_descent_averages_each_mini_batch() {
    // one neuron, identity-like relu on positive values, no hidden layer
    let mut net = relu_net(vec![1, 1]);
    net.weights = vec![vec![vec![1.0]]];
    net.biases = vec![vec![0.0]];
    // two samples in one mini-batch: gradients are averaged
    let batch = vec![(vec![1.0], vec![0.0]), (vec![3.0], vec![0.0])];
    net.batch_gradient_descent(&batch, 2, 1.0);
    // sample 1: z = 1, dz = 2, dw = 2, db = 2
    // sample 2: z = 3, dz = 6, dw = 18, db = 6
    // average: dw = 10, db = 4; update: (1 - 10) * 1, (0 - 4) * 1
    assert_eq!(net.weights, vec![vec![vec![-9.0]]]);
    assert_eq!(net.biases, vec![vec![-4.0]]);
    assert_eq!(net.inputs, vec![3.0]);
}

#[test]
fn batch_gradient_descent_updates_per_mini_batch_in_order() {
    let mut net = relu_net(vec![1, 1]);
    net.weights = vec![vec![vec![1.0]]];
    net.biases = vec![vec![0.0]];
    let batch = vec![(vec![1.0], vec![0.0]), (vec![1.0], vec![0.0]), (vec![2.0], vec![1.0])];
    net.batch_gradient_descent(&batch, 2, 0.5);
    // first mini-batch (two equal samples): z = 1, dz = 2, dw = 2, db = 2
    //   w = (1 - 2) * 0.5 = -0.5, b = (0 - 2) * 0.5 = -1
    // second mini-batch: z = -0.5 * 2 - 1 = -2, relu' = 0: no gradient
    //   w = (-0.5 - 0) * 0.5 = -0.25, b = (-1 - 0) * 0.5 = -0.5
    assert_eq!(net.weights, vec![vec![vec![-0.25]]]);
    assert_eq!(net.biases, vec![vec![-0.5]]);
}

#[test]
fn batch_gradient_descent_on_empty_batch_changes_nothing() {
    let mut net = relu_net(vec![2, 1]);
    let before_w = net.weights.clone();
    let before_b = net.biases.clone();
    net.batch_gradient_descent(&vec![], 3, 0.1);
    assert_eq!(net.weights, before_w);
    assert_eq!(net.biases, before_b);
}

#[test]
fn train_epoch_keeps_the_samples() {
    let mut net = relu_net(vec![1, 1]);
    let mut batch: Vec<(Vec<f32>, Vec<f32>)> =
        (0..20).map(|i| (vec![i as f32], vec![0.0])).collect();
    let before = batch.clone();
    net.train_epoch(&mut batch, 4, 0.0);
    // twenty samples come back in their original order with chance 1/20!
    assert_ne!(batch, before);
    assert_eq!(net.inputs, batch[19].0);
    let mut seen: Vec<f32> = batch.iter().map(|s| s.0[0]).collect();
    seen.sort_by(|a, b| a.total_cmp(b));
    let all: Vec<f32> = (0..20).map(|i| i as f32).collect();
    assert_eq!(seen, all);
    // a learning rate of zero zeroes the parameters
    assert_eq!(net.weights, vec![vec![vec![0.0]]]);
    assert_eq!(net.biases, vec![vec![0.0]]);
}

#[test]
fn softmax_backprop_uses_the_jacobian() {
    let mut net = softmax_net(vec![1, 2]);
    net.weights = vec![vec![vec![0.0], vec![0.0]]];
    net.biases = vec![vec![0.0, 0.0]];
    net.predict(&vec![1.0]);
    assert_eq!(net.activated_layers[0], vec![0.5, 0.5]);
    let (dws, dbs) = net.backprop(&vec![1.0, 0.0]);
    // dC/da = [2 * (0.5 - 1), 2 * 0.5] = [-1, 1]
    // jacobian = [[0.25, -0.25], [-0.25, 0.25]]
    // dC/dz[j] = sum_i dC/da[i] * J[i][j] = [-0.5, 0.5]
    assert_eq!(dbs, vec![vec![-0.5, 0.5]]);
    assert_eq!(dws, vec![vec![vec![-0.5], vec![0.5]]]);
}

#[test]
fn dot_product_sums_products() {
    let f = functions(relu, relu_derivative, unused_vec, unused_jacobian);
    let d = rustml::math::dot_product(&f, &vec![3.0, 2.0], &vec![3.0, 4.0]);
    assert_eq!(d, 17.0);
    assert_eq!(rustml::math::dot_product(&f, &vec![], &vec![]), 0.0);
}

#[test]
fn weighted_column_sum_multiplies_row_by_matrix() {
    let f = functions(relu, relu_derivative, unused_vec, unused_jacobian);
    let m = vec![vec![1.0, 2.0], vec![3.0, 4.0]];
    assert_eq!(rustml::math::weighted_column_sum(&f, &vec![1.0, 10.0], &m, 0), 31.0);
    assert_eq!(rustml::math::weighted_column_sum(&f, &vec![1.0, 10.0], &m, 1), 42.0);
}

#[test]
fn element_wise_operations() {
    let f = functions(relu, relu_derivative, unused_vec, unused_jacobian);
    let a = vec![vec![vec![1.0, 2.0]], vec![vec![3.0]]];
    let b = vec![vec![vec![0.5, 0.5]], vec![vec![1.0]]];
    assert_eq!(
        combine_tensors(&f, Combine::Subtract, &a, &b),
        vec![vec![vec![0.5, 1.5]], vec![vec![2.0]]]
    );
    assert_eq!(
        combine_tensors(&f, Combine::Add, &a, &b),
        vec![vec![vec![1.5, 2.5]], vec![vec![4.0]]]
    );
    assert_eq!(
        scale_matrix(&f, Scale::DivideBy(4), &vec![vec![2.0, 4.0]]),
        vec![vec![0.5, 1.0]]
    );
    assert_eq!(
        scale_matrix(&f, Scale::MultiplyBy(3.0), &vec![vec![2.0], vec![]]),
        vec![vec![6.0], vec![]]
    );
}

#[test]
fn highest_output_index_of_single_value() {
    let f = functions(relu, relu_derivative, unused_vec, unused_jacobian);
    assert_eq!(rustml::perceptron::highest_output_index(&f, &vec![-1.0]), 0);
    assert_eq!(rustml::perceptron::highest_output_index(&f, &vec![2.0, 1.0, 2.0, -3.0]), 2);
}
