use onnb::activation::{Activation, LeakyReLU, ReLU, Sigmoid, Softmax};
use onnb::cost::{Cost, MSE};
use onnb::encoder::{Encoder, OneHot};
use onnb::layer::Layer;
use onnb::matrix::Matrix;
use onnb::metric::{Accuracy, Metric};
use onnb::optimizer::{Adam, Optimizer, SGD};
use onnb::perceptron::Perceptron;
use onnb::rng::DRAW_DENOM;
use onnb::scalar::Scalar;
use rand::Rng;

/// The concrete numeric carrier used by the tests: a machine float.
#[derive(Clone, Copy, Debug, PartialEq)]
struct R(f64);

impl Scalar for R {
    fn zero() -> Self {
        R(0.0)
    }
    fn one() -> Self {
        R(1.0)
    }
    fn of_usize(n: usize) -> Self {
        R(n as f64)
    }
    fn of_ratio(num: u64, den: u64) -> Self {
        R(num as f64 / den as f64)
    }
    fn add(self, other: Self) -> Self {
        R(self.0 + other.0)
    }
    fn sub(self, other: Self) -> Self {
        R(self.0 - other.0)
    }
    fn mul(self, other: Self) -> Self {
        R(self.0 * other.0)
    }
    fn div(self, other: Self) -> Self {
        R(self.0 / other.0)
    }
    fn neg(self) -> Self {
        R(-self.0)
    }
    fn exp(self) -> Self {
        R(self.0.exp())
    }
    fn sqrt(self) -> Self {
        R(self.0.sqrt())
    }
    fn is_positive(self) -> bool {
        self.0 > 0.0
    }
    fn lt(self, other: Self) -> bool {
        self.0 < other.0
    }
    fn eq_value(self, other: Self) -> bool {
        self.0 == other.0
    }
    fn to_index(self) -> usize {
        self.0 as usize
    }
    fn sample_unit() -> Self {
        R(rand::thread_rng().gen_range(-0.5..0.5))
    }
}

fn mat(rows: &[&[f64]]) -> Matrix<R> {
    let data: Vec<Vec<R>> = rows.iter().map(|r| r.iter().map(|v| R(*v)).collect()).collect();
    Matrix::from_rows(data).expect("rows must be rectangular")
}

fn at(m: &Matrix<R>, r: usize, c: usize) -> f64 {
    m.entry(r, c).0
}

fn scalar_call(a: Activation, x: f64) -> f64 {
    at(&a.call(&mat(&[&[x]])), 0, 0)
}

fn scalar_prime(a: Activation, x: f64) -> f64 {
    at(&a.prime(&mat(&[&[x]])), 0, 0)
}

#[test]
fn activation_prime_matches_finite_difference() {
    let h = 1e-6;
    let cases = [
        (Activation::Sigmoid, vec![-1.7, -0.3, 0.0, 0.4, 2.1]),
        (Activation::ReLU, vec![-1.7, -0.3, 0.4, 2.1]),
        (Activation::LeakyReLU, vec![-1.7, -0.3, 0.4, 2.1]),
        (Activation::Softmax, vec![-0.5, 0.8]),
    ];
    for (a, points) in cases {
        for x in points {
            let estimate = (scalar_call(a, x + h) - scalar_call(a, x - h)) / (2.0 * h);
            let exact = scalar_prime(a, x);
            assert!(
                (estimate - exact).abs() < 1e-5,
                "{:?} at {x}: prime {exact} vs estimate {estimate}",
                a
            );
        }
    }
}

#[test]
fn sigmoid_exact_values() {
    assert_eq!(scalar_call(Activation::Sigmoid, 0.0), 0.5);
    assert_eq!(scalar_prime(Activation::Sigmoid, 0.0), 0.25);
    let s = Sigmoid;
    let y = s.call(&mat(&[&[0.0, 100.0]]));
    assert!(at(&y, 0, 1) > 0.999);
}

#[test]
fn relu_and_leaky_relu_exact_values() {
    let r = ReLU;
    let y = r.call(&mat(&[&[-2.0, 3.0]]));
    assert_eq!(at(&y, 0, 0), 0.0);
    assert_eq!(at(&y, 0, 1), 3.0);
    let yp = r.prime(&mat(&[&[-2.0, 3.0]]));
    assert_eq!(at(&yp, 0, 0), 0.0);
    assert_eq!(at(&yp, 0, 1), 1.0);
    let l = LeakyReLU;
    let z = l.call(&mat(&[&[-2.0, 3.0]]));
    assert_eq!(at(&z, 0, 0), -0.02);
    assert_eq!(at(&z, 0, 1), 3.0);
    let zp = l.prime(&mat(&[&[-2.0, 3.0]]));
    assert_eq!(at(&zp, 0, 0), 0.01);
    assert_eq!(at(&zp, 0, 1), 1.0);
}

#[test]
fn softmax_columns_sum_to_one() {
    let s = Softmax;
    let y = s.call(&mat(&[&[1.0, -0.5], &[2.0, 0.5], &[0.3, 3.0]]));
    for c in 0..2 {
        let total: f64 = (0..3).map(|r| at(&y, r, c)).sum();
        assert!((total - 1.0).abs() < 1e-12);
    }
}

#[test]
fn matmul_and_transpose_exact() {
    let a = mat(&[&[1.0, 2.0], &[3.0, 4.0]]);
    let b = mat(&[&[5.0], &[6.0]]);
    let p = a.matmul(&b);
    assert_eq!(at(&p, 0, 0), 17.0);
    assert_eq!(at(&p, 1, 0), 39.0);
    let t = a.transpose();
    assert_eq!(at(&t, 0, 1), 3.0);
    assert_eq!(at(&t, 1, 0), 2.0);
}

#[test]
fn slices_and_permutations_pick_expected_entries() {
    let a = mat(&[&[1.0, 2.0, 3.0], &[4.0, 5.0, 6.0]]);
    let s = a.slice_cols(1, 3);
    assert_eq!(s.num_cols(), 2);
    assert_eq!(at(&s, 0, 0), 2.0);
    assert_eq!(at(&s, 1, 1), 6.0);
    let p = a.permute_cols(&vec![2, 0, 1]);
    assert_eq!(at(&p, 0, 0), 3.0);
    assert_eq!(at(&p, 1, 1), 4.0);
    let q = a.permute_rows(&vec![1, 0]);
    assert_eq!(at(&q, 0, 0), 4.0);
    let r = a.slice_rows(1, 2);
    assert_eq!(r.num_rows(), 1);
    assert_eq!(at(&r, 0, 2), 6.0);
}

#[test]
fn mse_prime_is_actual_minus_expected() {
    let c = Cost::MSE;
    let g = c.prime(&mat(&[&[2.0, -1.0]]), &mat(&[&[0.5, 1.0]]));
    assert_eq!(at(&g, 0, 0), 1.5);
    assert_eq!(at(&g, 0, 1), -2.0);
    let g2 = MSE.prime(&mat(&[&[3.0]]), &mat(&[&[1.0]]));
    assert_eq!(at(&g2, 0, 0), 2.0);
}

#[test]
fn one_hot_round_trip_recovers_labels() {
    let labels = [0.0, 3.0, 1.0, 2.0, 3.0];
    let one_hot: OneHot<R> = OneHot::new(3);
    let rows: Vec<&[f64]> = labels.iter().map(|v| std::slice::from_ref(v)).collect();
    let y = mat(&rows);
    let encoded = one_hot.encode(&y).expect("labels are in range");
    assert_eq!(encoded.num_rows(), 5);
    assert_eq!(encoded.num_cols(), 4);
    let decoded = one_hot.decode(&encoded.transpose());
    assert_eq!(decoded.num_rows(), 5);
    assert_eq!(decoded.num_cols(), 1);
    for (e, label) in labels.iter().enumerate() {
        assert_eq!(at(&decoded, e, 0), *label);
    }
}

#[test]
fn one_hot_encode_rejects_out_of_range_labels() {
    let one_hot: OneHot<R> = OneHot::new(2);
    assert!(one_hot.encode(&mat(&[&[1.0], &[3.0]])).is_none());
    assert!(one_hot.encode(&mat(&[&[1.0], &[2.0]])).is_some());
}

#[test]
fn decode_picks_first_largest_row() {
    let one_hot: OneHot<R> = OneHot::new(2);
    let y = mat(&[&[0.1, 0.5, 0.4], &[0.7, 0.5, 0.4], &[0.2, 0.1, 0.4]]);
    let d = one_hot.decode(&y);
    assert_eq!(at(&d, 0, 0), 1.0);
    assert_eq!(at(&d, 1, 0), 0.0);
    assert_eq!(at(&d, 2, 0), 0.0);
}

#[test]
fn accuracy_counts_and_checks_threshold() {
    let a = Accuracy::new(3, 4);
    let actual = mat(&[&[1.0, 2.0], &[3.0, 4.0]]);
    let close = mat(&[&[1.0, 2.0], &[3.0, 9.0]]);
    let far = mat(&[&[1.0, 9.0], &[9.0, 9.0]]);
    assert_eq!(Accuracy::count_equal(&actual, &close), 3);
    assert!(a.check(&actual, &close));
    assert!(!a.check(&actual, &far));
    assert_eq!(a.value(&actual, &close).0, 0.75);
    assert!(a.check_ratio(3, 4));
    assert!(!a.check_ratio(2, 4));
    assert_eq!(a.label(), "Accuracy");
    let exact = Accuracy::new(1, 1);
    assert!(exact.check(&actual, &actual));
    assert!(!exact.check(&actual, &close));
}

#[test]
fn layer_shapes_follow_widths() {
    let mut p: Perceptron<R> = Perceptron::new();
    p.add_layer(5, Some(3), Activation::Sigmoid, None);
    p.add_layer(2, None, Activation::Sigmoid, None);
    assert_eq!(p.layers.len(), 2);
    assert_eq!(p.layers[0].weights.num_rows(), 5);
    assert_eq!(p.layers[0].weights.num_cols(), 3);
    assert_eq!(p.layers[1].weights.num_rows(), 2);
    assert_eq!(p.layers[1].weights.num_cols(), 5);
    assert_eq!(p.layers[0].biases.num_rows(), 5);
    assert_eq!(p.layers[1].biases.num_cols(), 1);
}

#[test]
fn dropout_rate_zero_never_drops_a_row() {
    let mut layer: Layer<R> = Layer::new(3, 2, Activation::Sigmoid, Some(0));
    let inputs = mat(&[&[0.3, -0.2], &[0.1, 0.9]]);
    let expected = layer.predict(&inputs);
    let out = layer.feed_forward(&inputs);
    assert!(layer.dropped_neurons.is_empty());
    for r in 0..3 {
        for c in 0..2 {
            assert_eq!(at(&out, r, c), at(&expected, r, c));
        }
    }
}

#[test]
fn dropout_full_rate_drops_every_row() {
    let mut layer: Layer<R> = Layer::new(4, 2, Activation::Sigmoid, Some(DRAW_DENOM));
    let inputs = mat(&[&[0.3, -0.2], &[0.1, 0.9]]);
    let out = layer.feed_forward(&inputs);
    // the mask is rebuilt from scratch: strictly increasing, no stale index
    assert_eq!(layer.dropped_neurons, vec![0, 1, 2, 3]);
    for r in 0..4 {
        for c in 0..2 {
            assert_eq!(at(&out, r, c), 0.0);
        }
    }
}

#[test]
fn dropout_blocks_gradient_of_dropped_rows() {
    let mut layer: Layer<R> = Layer::new(3, 2, Activation::Sigmoid, Some(DRAW_DENOM));
    let inputs = mat(&[&[0.3, -0.2], &[0.1, 0.9]]);
    let _ = layer.feed_forward(&inputs);
    layer.back_prop_with_deltas(&mat(&[&[0.5, 0.5], &[0.5, 0.5], &[0.5, 0.5]]));
    let deltas = layer.deltas.as_ref().expect("backward pass records deltas");
    for r in 0..3 {
        for c in 0..2 {
            assert_eq!(deltas.entry(r, c).0, 0.0);
        }
    }
}

#[test]
fn update_scales_deltas_by_batch_example_count() {
    let mut layer: Layer<R> = Layer::new(2, 2, Activation::Sigmoid, None);
    layer.weights = mat(&[&[1.0, 2.0], &[3.0, 4.0]]);
    layer.biases = mat(&[&[1.0], &[2.0]]);
    let delta_weights = mat(&[&[4.0, 8.0], &[-4.0, 2.0]]);
    let delta_biases = mat(&[&[2.0, 2.0], &[4.0, 4.0]]);
    layer.update(&delta_weights, &delta_biases, 4);
    assert_eq!(at(&layer.weights, 0, 0), 0.0);
    assert_eq!(at(&layer.weights, 0, 1), 0.0);
    assert_eq!(at(&layer.weights, 1, 0), 4.0);
    assert_eq!(at(&layer.weights, 1, 1), 3.5);
    // biases shift by sum(delta_biases) / 4 = 12 / 4 = 3
    assert_eq!(at(&layer.biases, 0, 0), -2.0);
    assert_eq!(at(&layer.biases, 1, 0), -1.0);
}

#[test]
fn sgd_with_zero_gamma_is_plain_gradient_descent() {
    let mut layer: Layer<R> = Layer::new(1, 1, Activation::Sigmoid, None);
    layer.weights = mat(&[&[1.0]]);
    layer.biases = mat(&[&[0.0]]);
    let inputs = mat(&[&[2.0]]);
    let _ = layer.feed_forward(&inputs);
    let mut layers = vec![layer];
    let deltas = vec![mat(&[&[0.25]])];
    let mut sgd: SGD<R> = SGD::new(R(0.5), R(0.0));
    sgd.update(&mut layers, &deltas, 1);
    // applied delta == learning_rate * delta * input = 0.5 * 0.25 * 2 = 0.25
    assert_eq!(at(&layers[0].weights, 0, 0), 1.0 - 0.25);
    // bias delta == learning_rate * delta = 0.125
    assert_eq!(at(&layers[0].biases, 0, 0), -0.125);
}

#[test]
fn sgd_momentum_accumulates_across_steps() {
    let mut layer: Layer<R> = Layer::new(1, 1, Activation::Sigmoid, None);
    layer.weights = mat(&[&[0.0]]);
    layer.biases = mat(&[&[0.0]]);
    let _ = layer.feed_forward(&mat(&[&[1.0]]));
    let mut layers = vec![layer];
    let deltas = vec![mat(&[&[1.0]])];
    let mut sgd: SGD<R> = SGD::new(R(0.1), R(0.5));
    sgd.update(&mut layers, &deltas, 1);
    let _ = layers[0].feed_forward(&mat(&[&[1.0]]));
    sgd.update(&mut layers, &deltas, 1);
    // first step applies 0.1, second applies 0.5 * 0.1 + 0.1 = 0.15
    assert!((at(&layers[0].weights, 0, 0) + 0.25).abs() < 1e-12);
}

#[test]
fn adam_step_counter_increments_once_per_update() {
    let mut p: Perceptron<R> = Perceptron::new();
    p.add_layer(3, Some(2), Activation::Sigmoid, None);
    p.add_layer(2, None, Activation::Sigmoid, None);
    let inputs = mat(&[&[0.2, 0.4], &[0.6, 0.8]]);
    let mut adam: Adam<R> = Adam::new(R(0.01), R(0.9), R(0.999));
    assert_eq!(adam.time_step, 0);
    for step in 1..=3u64 {
        let _ = p.feed_forward(&inputs);
        p.back_prop(&mat(&[&[0.1, 0.1], &[0.1, 0.1]]));
        let deltas: Vec<Matrix<R>> = p
            .layers
            .iter()
            .map(|l| l.deltas.as_ref().expect("backward pass ran").duplicate())
            .collect();
        adam.update(&mut p.layers, &deltas, 2);
        // two layers were updated, yet the counter moved by exactly one
        assert_eq!(adam.time_step, step);
    }
}

#[test]
fn adam_bias_correction_settles_as_steps_grow() {
    // With a constant gradient, the corrected moment and velocity converge
    // to the gradient and its square, so the applied step settles near
    // learning_rate * g / (|g| + eps), and the first step already equals it.
    let mut layer: Layer<R> = Layer::new(1, 1, Activation::Sigmoid, None);
    layer.weights = mat(&[&[0.0]]);
    layer.biases = mat(&[&[0.0]]);
    let _ = layer.feed_forward(&mat(&[&[1.0]]));
    let mut layers = vec![layer];
    let deltas = vec![mat(&[&[0.04]])];
    let mut adam: Adam<R> = Adam::new(R(0.01), R(0.9), R(0.999));
    let mut previous = 0.0;
    for _ in 0..200 {
        let _ = layers[0].feed_forward(&mat(&[&[1.0]]));
        let before = at(&layers[0].weights, 0, 0);
        adam.update(&mut layers, &deltas, 1);
        previous = before - at(&layers[0].weights, 0, 0);
    }
    let settled = 0.01 * 0.04 / (0.04 + 1e-7);
    assert!(
        (previous - settled).abs() < 1e-6,
        "late step {previous} vs settled {settled}"
    );
}

#[test]
fn optimizer_state_grows_one_accumulator_per_layer() {
    let mut p: Perceptron<R> = Perceptron::new();
    p.add_layer(3, Some(2), Activation::Sigmoid, None);
    p.add_layer(1, None, Activation::Sigmoid, None);
    let inputs = mat(&[&[0.2, 0.4], &[0.6, 0.8]]);
    let _ = p.feed_forward(&inputs);
    p.back_prop(&mat(&[&[0.1, 0.1]]));
    let deltas: Vec<Matrix<R>> = p
        .layers
        .iter()
        .map(|l| l.deltas.as_ref().expect("backward pass ran").duplicate())
        .collect();
    let mut sgd: SGD<R> = SGD::new(R(0.1), R(0.9));
    assert_eq!(sgd.moments.len(), 0);
    sgd.update(&mut p.layers, &deltas, 2);
    assert_eq!(sgd.moments.len(), 2);
    assert_eq!(sgd.moments[0].num_rows(), 3);
    assert_eq!(sgd.moments[0].num_cols(), 2);
    assert_eq!(sgd.moments[1].num_rows(), 1);
    assert_eq!(sgd.moments[1].num_cols(), 3);
}

fn xor_training_set() -> (Matrix<R>, Matrix<R>) {
    let inputs = mat(&[&[0.0, 0.0, 1.0, 1.0], &[0.0, 1.0, 0.0, 1.0]]);
    let outputs = mat(&[&[0.0], &[1.0], &[1.0], &[0.0]]);
    (inputs, outputs)
}

#[test]
fn xor_network_reaches_accuracy_before_ceiling() {
    // A 2-input network with one hidden sigmoid layer of 4 and a one-hot
    // sigmoid output pair must learn the XOR table on most random
    // initializations; a few retries absorb unlucky draws.
    let metric = Metric::Accuracy(Accuracy::new(3, 4));
    let cost = Cost::MSE;
    let encoder: Encoder<R> = Encoder::OneHot(OneHot::new(1));
    let mut converged = false;
    for _ in 0..5 {
        let mut p: Perceptron<R> = Perceptron::new();
        p.add_layer(4, Some(2), Activation::Sigmoid, None);
        p.add_layer(2, None, Activation::Sigmoid, None);
        let mut opt = Optimizer::SGD(SGD::new(R(0.5), R(0.9)));
        let training = xor_training_set();
        let validation = xor_training_set();
        let result = p.fit(
            &training, &validation, &mut opt, &metric, &cost, &encoder, 5000, false, None,
        );
        let last_epoch = result.expect("labels are encodable");
        assert!(last_epoch <= 5000);
        let prediction = p.predict(&validation.0, &encoder);
        if metric.check(&prediction, &validation.1) {
            converged = true;
            break;
        }
    }
    assert!(converged, "training never reached the accuracy threshold");
}

#[test]
fn fit_hits_epoch_ceiling_when_metric_cannot_pass() {
    // A threshold above one can never be met, so training runs to the
    // ceiling and reports it.
    let metric = Metric::Accuracy(Accuracy::new(2, 1));
    let cost = Cost::MSE;
    let encoder: Encoder<R> = Encoder::OneHot(OneHot::new(1));
    let mut p: Perceptron<R> = Perceptron::new();
    p.add_layer(3, Some(2), Activation::Sigmoid, None);
    p.add_layer(2, None, Activation::Sigmoid, None);
    let mut opt = Optimizer::Adam(Adam::new(R(0.01), R(0.9), R(0.999)));
    let training = xor_training_set();
    let validation = xor_training_set();
    let result = p.fit(
        &training, &validation, &mut opt, &metric, &cost, &encoder, 7, true, Some(3),
    );
    assert_eq!(result, Some(7));
    if let Optimizer::Adam(a) = &opt {
        assert_eq!(a.time_step, 7);
    } else {
        panic!("optimizer variant changed");
    }
}

#[test]
fn fit_stops_on_first_passing_epoch() {
    // A zero threshold passes immediately: training stops at epoch one and
    // the weights are untouched.
    let metric = Metric::Accuracy(Accuracy::new(0, 1));
    let cost = Cost::MSE;
    let encoder: Encoder<R> = Encoder::OneHot(OneHot::new(1));
    let mut p: Perceptron<R> = Perceptron::new();
    p.add_layer(3, Some(2), Activation::Sigmoid, None);
    p.add_layer(2, None, Activation::Sigmoid, None);
    let before = p.layers[0].weights.duplicate();
    let mut opt = Optimizer::SGD(SGD::new(R(0.5), R(0.9)));
    let training = xor_training_set();
    let validation = xor_training_set();
    let result = p.fit(
        &training, &validation, &mut opt, &metric, &cost, &encoder, 100, false, None,
    );
    assert_eq!(result, Some(1));
    for r in 0..3 {
        for c in 0..2 {
            assert_eq!(at(&p.layers[0].weights, r, c), at(&before, r, c));
        }
    }
}

#[test]
fn fit_rejects_unencodable_labels() {
    let metric = Metric::Accuracy(Accuracy::new(1, 1));
    let cost = Cost::MSE;
    let encoder: Encoder<R> = Encoder::OneHot(OneHot::new(1));
    let mut p: Perceptron<R> = Perceptron::new();
    p.add_layer(2, Some(2), Activation::Sigmoid, None);
    let training = (
        mat(&[&[0.0, 1.0], &[1.0, 0.0]]),
        mat(&[&[0.0], &[7.0]]), // label 7 exceeds the encoder's maximum of 1
    );
    let validation = xor_training_set();
    let mut opt = Optimizer::SGD(SGD::new(R(0.5), R(0.9)));
    let result = p.fit(
        &training, &validation, &mut opt, &metric, &cost, &encoder, 10, false, None,
    );
    assert_eq!(result, None);
}

#[test]
fn fit_with_shuffle_and_minibatches_runs_all_epochs() {
    let metric = Metric::Accuracy(Accuracy::new(2, 1));
    let cost = Cost::MSE;
    let encoder: Encoder<R> = Encoder::OneHot(OneHot::new(1));
    let mut p: Perceptron<R> = Perceptron::new();
    p.add_layer(4, Some(2), Activation::LeakyReLU, Some(DRAW_DENOM / 2));
    p.add_layer(2, None, Activation::Sigmoid, None);
    let mut opt = Optimizer::SGD(SGD::new(R(0.1), R(0.9)));
    let training = xor_training_set();
    let validation = xor_training_set();
    let result = p.fit(
        &training, &validation, &mut opt, &metric, &cost, &encoder, 9, true, Some(3),
    );
    assert_eq!(result, Some(9));
}

#[test]
fn feed_forward_records_state_for_backward_pass() {
    let mut p: Perceptron<R> = Perceptron::new();
    p.add_layer(3, Some(2), Activation::Sigmoid, None);
    p.add_layer(1, None, Activation::ReLU, None);
    assert!(p.layers[0].inputs.is_none());
    assert!(p.layers[0].deltas.is_none());
    let inputs = mat(&[&[0.2, 0.4, 0.1], &[0.6, 0.8, 0.5]]);
    let out = p.feed_forward(&inputs);
    assert_eq!(out.num_rows(), 1);
    assert_eq!(out.num_cols(), 3);
    assert!(p.layers[0].inputs.is_some());
    assert!(p.layers[1].activations.is_some());
    p.back_prop(&mat(&[&[0.1, 0.2, 0.3]]));
    assert!(p.layers[0].deltas.is_some());
    assert!(p.layers[1].deltas.is_some());
}

#[test]
fn predict_records_nothing() {
    let mut p: Perceptron<R> = Perceptron::new();
    p.add_layer(3, Some(2), Activation::Sigmoid, None);
    let encoder: Encoder<R> = Encoder::OneHot(OneHot::new(2));
    let inputs = mat(&[&[0.2, 0.4], &[0.6, 0.8]]);
    let d = p.predict(&inputs, &encoder);
    assert_eq!(d.num_rows(), 2);
    assert_eq!(d.num_cols(), 1);
    assert!(p.layers[0].inputs.is_none());
    assert!(p.layers[0].activations.is_none());
}

#[test]
fn from_rows_rejects_ragged_input() {
    let ragged: Vec<Vec<R>> = vec![vec![R(1.0), R(2.0)], vec![R(3.0)]];
    assert!(Matrix::from_rows(ragged).is_none());
    let square: Vec<Vec<R>> = vec![vec![R(1.0), R(2.0)], vec![R(3.0), R(4.0)]];
    assert!(Matrix::from_rows(square).is_some());
}

#[test]
fn fill_and_set_entry_pin_every_entry() {
    let mut m: Matrix<R> = Matrix::fill(2, 3, R(7.0));
    for r in 0..2 {
        for c in 0..3 {
            assert_eq!(at(&m, r, c), 7.0);
        }
    }
    m.set_entry(1, 2, R(9.0));
    assert_eq!(at(&m, 1, 2), 9.0);
    assert_eq!(at(&m, 0, 2), 7.0);
    m.set_row_to(0, R(0.0));
    assert_eq!(at(&m, 0, 0), 0.0);
    assert_eq!(at(&m, 1, 2), 9.0);
}

#[test]
fn shuffle_keeps_examples_paired_with_labels() {
    let inputs = mat(&[&[10.0, 20.0, 30.0, 40.0]]);
    let outputs = mat(&[&[1.0], &[2.0], &[3.0], &[4.0]]);
    let (shuffled_in, shuffled_out) = onnb::perceptron::shuffle_examples(&inputs, &outputs);
    let mut seen = [false; 4];
    for c in 0..4 {
        // input 10·k is always paired with label k
        assert_eq!(at(&shuffled_in, 0, c) / 10.0, at(&shuffled_out, c, 0));
        let k = at(&shuffled_out, c, 0) as usize - 1;
        assert!(!seen[k], "an example appeared twice after shuffling");
        seen[k] = true;
    }
}

#[test]
fn accuracy_never_passes_on_an_empty_batch() {
    let relaxed = Accuracy::new(0, 1);
    let empty: Matrix<R> = Matrix::fill(0, 0, R(0.0));
    assert!(!relaxed.check(&empty, &empty));
    let nonempty = mat(&[&[1.0]]);
    let other = mat(&[&[2.0]]);
    // a zero threshold numerator passes any nonempty batch
    assert!(relaxed.check(&nonempty, &other));
}

#[test]
fn encode_of_a_batch_with_no_examples_succeeds() {
    let one_hot: OneHot<R> = OneHot::new(3);
    let empty: Matrix<R> = Matrix::fill(0, 1, R(0.0));
    let encoded = one_hot.encode(&empty).expect("an empty batch always encodes");
    assert_eq!(encoded.num_rows(), 0);
    assert_eq!(encoded.num_cols(), 4);
}

#[test]
fn fit_with_zero_epochs_trains_nothing() {
    let metric = Metric::Accuracy(Accuracy::new(1, 1));
    let cost = Cost::MSE;
    let encoder: Encoder<R> = Encoder::OneHot(OneHot::new(1));
    let mut p: Perceptron<R> = Perceptron::new();
    p.add_layer(3, Some(2), Activation::Sigmoid, None);
    p.add_layer(2, None, Activation::Sigmoid, None);
    let mut opt = Optimizer::Adam(Adam::new(R(0.01), R(0.9), R(0.999)));
    let training = xor_training_set();
    let validation = xor_training_set();
    let result = p.fit(
        &training, &validation, &mut opt, &metric, &cost, &encoder, 0, false, None,
    );
    assert_eq!(result, Some(0));
    if let Optimizer::Adam(a) = &opt {
        assert_eq!(a.time_step, 0);
    } else {
        panic!("optimizer variant changed");
    }
}

#[test]
fn early_stop_at_epoch_one_runs_no_update() {
    // The validation check precedes the epoch's training step, so a metric
    // that passes immediately leaves the step counter untouched.
    let metric = Metric::Accuracy(Accuracy::new(0, 1));
    let cost = Cost::MSE;
    let encoder: Encoder<R> = Encoder::OneHot(OneHot::new(1));
    let mut p: Perceptron<R> = Perceptron::new();
    p.add_layer(3, Some(2), Activation::Sigmoid, None);
    p.add_layer(2, None, Activation::Sigmoid, None);
    let mut opt = Optimizer::Adam(Adam::new(R(0.01), R(0.9), R(0.999)));
    let training = xor_training_set();
    let validation = xor_training_set();
    let result = p.fit(
        &training, &validation, &mut opt, &metric, &cost, &encoder, 10, false, None,
    );
    assert_eq!(result, Some(1));
    if let Optimizer::Adam(a) = &opt {
        assert_eq!(a.time_step, 0);
    } else {
        panic!("optimizer variant changed");
    }
}
