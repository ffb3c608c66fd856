use xor_net::{backprop, dot_product, network_fits, predict, sigmoid_derivative, train_network};
use xor_net::{Layer, Neuron, Scalar};

#[derive(Clone, Copy, Debug, PartialEq)]
struct Real(f64);

impl Scalar for Real {
    fn spec_zero() -> Real {
        Real::zero()
    }

    fn spec_one() -> Real {
        Real::one()
    }

    fn spec_plus(self, other: Real) -> Real {
        self.plus(other)
    }

    fn spec_minus(self, other: Real) -> Real {
        self.minus(other)
    }

    fn spec_times(self, other: Real) -> Real {
        self.times(other)
    }

    fn spec_sigmoid(self) -> Real {
        self.sigmoid()
    }

    fn zero() -> Real {
        Real(0.0)
    }

    fn one() -> Real {
        Real(1.0)
    }

    fn plus(self, other: Real) -> Real {
        Real(self.0 + other.0)
    }

    fn minus(self, other: Real) -> Real {
        Real(self.0 - other.0)
    }

    fn times(self, other: Real) -> Real {
        Real(self.0 * other.0)
    }

    fn sigmoid(self) -> Real {
        Real(1.0 / (1.0 + (-self.0).exp()))
    }
}

fn reals(xs: &[f64]) -> Vec<Real> {
    xs.iter().map(|x| Real(*x)).collect()
}

fn neuron(weights: &[f64], bias: f64) -> Neuron<Real> {
    Neuron { weights: reals(weights), bias: Real(bias) }
}

fn sigmoid(x: f64) -> f64 {
    Real(x).sigmoid().0
}

fn initial_layers() -> (Layer<Real>, Layer<Real>) {
    let hidden = Layer { neurons: vec![neuron(&[0.5, 0.5], 0.0), neuron(&[0.5, 0.5], 0.0)] };
    let output = Layer { neurons: vec![neuron(&[0.5, 0.5], 0.0)] };
    (hidden, output)
}

fn asymmetric_layers() -> (Layer<Real>, Layer<Real>) {
    let hidden = Layer { neurons: vec![neuron(&[0.5, 0.9], 0.1), neuron(&[-0.7, 0.3], -0.2)] };
    let output = Layer { neurons: vec![neuron(&[0.4, -0.6], 0.05)] };
    (hidden, output)
}

fn xor_set() -> (Vec<Vec<Real>>, Vec<Vec<Real>>) {
    let inputs = vec![reals(&[0.0, 0.0]), reals(&[0.0, 1.0]), reals(&[1.0, 0.0]), reals(&[1.0, 1.0])];
    let targets = vec![reals(&[0.0]), reals(&[1.0]), reals(&[1.0]), reals(&[0.0])];
    (inputs, targets)
}

fn parameters(layer: &Layer<Real>) -> Vec<f64> {
    let mut r = Vec::new();
    for n in &layer.neurons {
        for w in &n.weights {
            r.push(w.0);
        }
        r.push(n.bias.0);
    }
    r
}

fn close(a: f64, b: f64) -> bool {
    (a - b).abs() < 1e-12
}

#[test]
fn run_a_test() {
    assert_eq!(1, 1)
}

#[test]
fn sigmoid_of_zero_is_one_half() {
    assert_eq!(sigmoid(0.0), 0.5);
}

#[test]
fn sigmoid_is_strictly_increasing() {
    let xs = [-20.0, -5.0, -1.0, -0.1, 0.0, 0.1, 1.0, 5.0, 20.0];
    for pair in xs.windows(2) {
        assert!(sigmoid(pair[0]) < sigmoid(pair[1]));
    }
}

#[test]
fn sigmoid_tends_to_zero_and_one() {
    assert!(sigmoid(-50.0) < 1e-20);
    assert!(sigmoid(-50.0) > 0.0);
    assert!(sigmoid(50.0) > 1.0 - 1e-15);
    assert!(sigmoid(50.0) <= 1.0);
}

#[test]
fn sigmoid_derivative_peaks_at_one_half() {
    assert_eq!(sigmoid_derivative(Real(0.5)).0, 0.25);
    let ys = [0.001, 0.1, 0.25, 0.4, 0.49, 0.51, 0.6, 0.75, 0.9, 0.999];
    for y in ys {
        let d = sigmoid_derivative(Real(y)).0;
        assert!(d >= 0.0);
        assert!(d < 0.25);
    }
}

#[test]
fn dot_product_of_small_vectors() {
    assert_eq!(dot_product(&reals(&[1.0, 2.0, 3.0]), &reals(&[4.0, 5.0, 6.0])).0, 32.0);
}

#[test]
fn dot_product_of_empty_vectors_is_zero() {
    assert_eq!(dot_product(&reals(&[]), &reals(&[])).0, 0.0);
}

#[test]
fn eval_leaves_the_neuron_unchanged() {
    let n = neuron(&[0.25, -0.75], 0.5);
    let r = n.eval(&reals(&[1.0, 2.0]));
    assert_eq!(r.0, sigmoid(0.25 - 1.5 + 0.5));
    assert_eq!(n.weights, reals(&[0.25, -0.75]));
    assert_eq!(n.bias, Real(0.5));
}

#[test]
fn predict_with_initial_parameters() {
    let (hidden, output) = initial_layers();
    let p = predict(&reals(&[0.0, 0.0]), &hidden, &output);
    assert!(close(p.0, 0.6224593312018546));
    assert_eq!(parameters(&hidden), vec![0.5, 0.5, 0.0, 0.5, 0.5, 0.0]);
    assert_eq!(parameters(&output), vec![0.5, 0.5, 0.0]);
}

#[test]
fn one_backprop_step_from_initial_parameters() {
    let (mut hidden, mut output) = initial_layers();
    backprop(&reals(&[0.0, 1.0]), &reals(&[1.0]), &mut hidden, &mut output, Real(0.1));
    let o = parameters(&output);
    assert!(close(o[0], 0.5049402351424134));
    assert!(close(o[1], 0.5049402351424134));
    assert!(close(o[2], 0.00793663922247687));
    let h = parameters(&hidden);
    for i in 0..2 {
        assert_eq!(h[3 * i], 0.5);
        assert!(close(h[3 * i + 1], 0.5009325698398435));
        assert!(close(h[3 * i + 2], 0.0009325698398434205));
    }
}

#[test]
fn backprop_moves_every_parameter() {
    let (mut hidden, mut output) = asymmetric_layers();
    let before_hidden = parameters(&hidden);
    let before_output = parameters(&output);
    let input = reals(&[1.0, 1.0]);
    let p = predict(&input, &hidden, &output);
    assert!(p.0 != 0.0);
    backprop(&input, &reals(&[0.0]), &mut hidden, &mut output, Real(0.1));
    for (a, b) in parameters(&hidden).iter().zip(before_hidden.iter()) {
        assert!(a != b);
    }
    for (a, b) in parameters(&output).iter().zip(before_output.iter()) {
        assert!(a != b);
    }
}

#[test]
fn backprop_with_zero_learning_rate_changes_nothing() {
    let (mut hidden, mut output) = asymmetric_layers();
    let before_hidden = parameters(&hidden);
    let before_output = parameters(&output);
    backprop(&reals(&[1.0, 0.0]), &reals(&[1.0]), &mut hidden, &mut output, Real(0.0));
    assert_eq!(parameters(&hidden), before_hidden);
    assert_eq!(parameters(&output), before_output);
}

#[test]
fn backprop_keeps_the_shape() {
    let (mut hidden, mut output) = asymmetric_layers();
    backprop(&reals(&[0.3, 0.7]), &reals(&[1.0]), &mut hidden, &mut output, Real(0.5));
    assert_eq!(hidden.neurons.len(), 2);
    assert_eq!(output.neurons.len(), 1);
    for n in hidden.neurons.iter().chain(output.neurons.iter()) {
        assert_eq!(n.weights.len(), 2);
    }
}

#[test]
fn cached_and_recomputed_hidden_derivatives_agree() {
    let (hidden, _) = asymmetric_layers();
    let input = reals(&[1.0, 0.0]);
    for n in &hidden.neurons {
        let cached = n.eval(&input);
        let weighted_sum = dot_product(&n.weights, &input).plus(n.bias);
        let recomputed = sigmoid_derivative(weighted_sum.sigmoid());
        assert_eq!(sigmoid_derivative(cached), recomputed);
    }
}

#[test]
fn training_is_deterministic() {
    let (inputs, targets) = xor_set();
    let (mut h1, mut o1) = asymmetric_layers();
    let (mut h2, mut o2) = asymmetric_layers();
    train_network(&inputs, &targets, &mut h1, &mut o1, 1000, Real(0.1));
    train_network(&inputs, &targets, &mut h2, &mut o2, 1000, Real(0.1));
    let bits = |v: Vec<f64>| v.iter().map(|x| x.to_bits()).collect::<Vec<u64>>();
    assert_eq!(bits(parameters(&h1)), bits(parameters(&h2)));
    assert_eq!(bits(parameters(&o1)), bits(parameters(&o2)));
    assert_ne!(parameters(&h1), parameters(&asymmetric_layers().0));
}

#[test]
fn zero_passes_leave_the_network_unchanged() {
    let (inputs, targets) = xor_set();
    let (mut hidden, mut output) = asymmetric_layers();
    train_network(&inputs, &targets, &mut hidden, &mut output, 0, Real(0.1));
    assert_eq!(parameters(&hidden), parameters(&asymmetric_layers().0));
    assert_eq!(parameters(&output), parameters(&asymmetric_layers().1));
}

#[test]
fn training_learns_xor() {
    let (inputs, targets) = xor_set();
    let (mut hidden, mut output) = asymmetric_layers();
    train_network(&inputs, &targets, &mut hidden, &mut output, 100000, Real(0.1));
    let p = |i: usize| predict(&inputs[i], &hidden, &output).0;
    assert!(p(0) < 0.1);
    assert!(p(1) > 0.9);
    assert!(p(2) > 0.9);
    assert!(p(3) < 0.1);
}

#[test]
fn network_fits_the_xor_shape() {
    let (hidden, output) = initial_layers();
    assert!(network_fits(2, &hidden, &output));
    assert!(!network_fits(3, &hidden, &output));
    assert!(hidden.accepts_input(2));
    assert!(!output.accepts_input(1));
}

#[test]
fn network_fits_rejects_mismatched_layers() {
    let (hidden, _) = initial_layers();
    let wide_output = Layer { neurons: vec![neuron(&[0.5, 0.5, 0.5], 0.0)] };
    assert!(!network_fits(2, &hidden, &wide_output));
    let empty_output: Layer<Real> = Layer { neurons: vec![] };
    assert!(!network_fits(2, &hidden, &empty_output));
    let ragged = Layer { neurons: vec![neuron(&[0.5, 0.5], 0.0), neuron(&[0.5], 0.0)] };
    assert!(!ragged.accepts_input(2));
    assert!(!ragged.accepts_input(1));
}

#[test]
fn network_fits_wants_one_output_neuron() {
    let (hidden, _) = initial_layers();
    let two_outputs = Layer { neurons: vec![neuron(&[0.5, 0.5], 0.0), neuron(&[0.5, 0.5], 0.0)] };
    assert!(!network_fits(2, &hidden, &two_outputs));
}
