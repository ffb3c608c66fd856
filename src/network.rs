use vstd::prelude::*;

use crate::scalar::{dot_product, spec_dot, Scalar};

verus! {

/// A weighted-sum-plus-bias unit followed by the sigmoid.
pub struct Neuron<T> {
    pub weights: Vec<T>,
    pub bias: T,
}

/// An ordered collection of neurons that read the same input vector.
pub struct Layer<T> {
    pub neurons: Vec<Neuron<T>>,
}

impl<T> View for Neuron<T> {
    /// The weights and the bias.
    type V = (Seq<T>, T);

    open spec fn view(&self) -> (Seq<T>, T) {
        (self.weights@, self.bias)
    }
}

impl<T> View for Layer<T> {
    /// Each neuron's weights and bias, in order.
    type V = Seq<(Seq<T>, T)>;

    open spec fn view(&self) -> Seq<(Seq<T>, T)> {
        Seq::new(self.neurons@.len(), |i: int| self.neurons@[i]@)
    }
}

/// A neuron's output on `x`: `sigmoid(dot(weights, x) + bias)`.
pub open spec fn spec_eval<T: Scalar>(n: (Seq<T>, T), x: Seq<T>) -> T {
    spec_dot(n.0, x, n.0.len()).spec_plus(n.1).spec_sigmoid()
}

/// The output of each neuron of a layer on `x`, in order.
pub open spec fn spec_outputs<T: Scalar>(layer: Seq<(Seq<T>, T)>, x: Seq<T>) -> Seq<T> {
    Seq::new(layer.len(), |i: int| spec_eval(layer[i], x))
}

/// The network's output: the output neuron on the hidden outputs.
pub open spec fn spec_predict<T: Scalar>(
    hidden_layer: Seq<(Seq<T>, T)>,
    output_layer: Seq<(Seq<T>, T)>,
    x: Seq<T>,
) -> T {
    spec_eval(output_layer[0], spec_outputs(hidden_layer, x))
}

/// A neuron after a gradient step of size `step` on input `x`: each weight
/// `w_j` becomes `w_j + step * x[j]` and the bias `bias + step`.
pub open spec fn spec_nudged<T: Scalar>(n: (Seq<T>, T), x: Seq<T>, step: T) -> (Seq<T>, T) {
    (Seq::new(n.0.len(), |j: int| n.0[j].spec_plus(step.spec_times(x[j]))), n.1.spec_plus(step))
}

impl<T> Layer<T> {
    /// Every neuron of the layer has one weight per component of an input of
    /// length `n`.
    pub open spec fn accepts(&self, n: nat) -> bool {
        forall|i: int|
            0 <= i < self.neurons@.len() ==> (#[trigger] self.neurons@[i]).weights@.len() == n
    }

    /// The two layers have as many neurons, and matching neurons as many
    /// weights.
    pub open spec fn same_shape(&self, other: &Layer<T>) -> bool {
        &&& self.neurons@.len() == other.neurons@.len()
        &&& forall|i: int|
            0 <= i < self.neurons@.len() ==> (#[trigger] self.neurons@[i]).weights@.len()
                == other.neurons@[i].weights@.len()
    }

    /// Whether every neuron of the layer has exactly `n` weights.
    pub fn accepts_input(&self, n: usize) -> (r: bool)
        ensures
            r == self.accepts(n as nat),
    {
        let mut i: usize = 0;
        while i < self.neurons.len()
            invariant
                i <= self.neurons@.len(),
                forall|k: int| 0 <= k < i ==> (#[trigger] self.neurons@[k]).weights@.len() == n,
            decreases self.neurons@.len() - i,
        {
            if self.neurons[i].weights.len() != n {
                return false;
            }
            i += 1;
        }
        true
    }
}

/// The hidden layer reads inputs of length `n`, and the output layer has
/// exactly one neuron, which reads the hidden layer's outputs.
pub open spec fn network_accepts<T>(hidden_layer: &Layer<T>, output_layer: &Layer<T>, n: nat) -> bool {
    &&& hidden_layer.accepts(n)
    &&& output_layer.accepts(hidden_layer.neurons@.len())
    &&& output_layer.neurons@.len() == 1
}

/// Whether the two layers form a network that reads inputs of length `n`:
/// the test a caller makes before [`predict`], [`crate::backprop`] or
/// [`crate::train_network`].
pub fn network_fits<T>(n: usize, hidden_layer: &Layer<T>, output_layer: &Layer<T>) -> (r: bool)
    ensures
        r == network_accepts(hidden_layer, output_layer, n as nat),
{
    hidden_layer.accepts_input(n) && output_layer.accepts_input(hidden_layer.neurons.len())
        && output_layer.neurons.len() == 1
}

impl<T: Scalar> Neuron<T> {
    /// `sigmoid(dot_product(weights, inputs) + bias)`. The neuron is only
    /// read.
    pub fn eval(&self, inputs: &Vec<T>) -> (r: T)
        requires
            inputs@.len() == self.weights@.len(),
        ensures
            r == spec_eval(self@, inputs@),
    {
        let dot_product = dot_product(&self.weights, inputs);
        let weighted_sum = dot_product.plus(self.bias);
        weighted_sum.sigmoid()
    }

    /// The neuron after one gradient step of size `step` on input `inputs`:
    /// each weight `w_j` becomes `w_j + step * inputs[j]` and the bias
    /// `bias + step`.
    pub fn nudged(&self, inputs: &Vec<T>, step: T) -> (r: Neuron<T>)
        requires
            inputs@.len() == self.weights@.len(),
        ensures
            r@ == spec_nudged(self@, inputs@, step),
    {
        let mut weights: Vec<T> = Vec::new();
        let mut j: usize = 0;
        while j < self.weights.len()
            invariant
                j <= self.weights@.len(),
                inputs@.len() == self.weights@.len(),
                weights@.len() == j,
                forall|k: int|
                    0 <= k < j ==> weights@[k] == #[trigger] self.weights@[k].spec_plus(
                        step.spec_times(inputs@[k]),
                    ),
            decreases self.weights@.len() - j,
        {
            weights.push(self.weights[j].plus(step.times(inputs[j])));
            j += 1;
        }
        let r = Neuron { weights, bias: self.bias.plus(step) };
        assert(r.weights@ =~= spec_nudged(self@, inputs@, step).0);
        r
    }
}

impl<T: Scalar> Layer<T> {
    /// The output of each neuron of the layer on `inputs`, in neuron order.
    pub fn outputs(&self, inputs: &Vec<T>) -> (r: Vec<T>)
        requires
            self.accepts(inputs@.len()),
        ensures
            r@ == spec_outputs(self@, inputs@),
    {
        let mut r: Vec<T> = Vec::new();
        let mut i: usize = 0;
        while i < self.neurons.len()
            invariant
                i <= self.neurons@.len(),
                self.accepts(inputs@.len()),
                r@.len() == i,
                forall|k: int| 0 <= k < i ==> r@[k] == #[trigger] spec_eval(self@[k], inputs@),
            decreases self.neurons@.len() - i,
        {
            r.push(self.neurons[i].eval(inputs));
            i += 1;
        }
        assert(r@ =~= spec_outputs(self@, inputs@));
        r
    }
}

/// The network's output on `input`: the output neuron evaluated on the
/// hidden layer's outputs. Neither layer is changed.
pub fn predict<T: Scalar>(input: &Vec<T>, hidden_layer: &Layer<T>, output_layer: &Layer<T>) -> (r: T)
    requires
        network_accepts(hidden_layer, output_layer, input@.len() as nat),
    ensures
        r == spec_predict(hidden_layer@, output_layer@, input@),
{
    let hidden_outputs = hidden_layer.outputs(input);
    output_layer.neurons[0].eval(&hidden_outputs)
}

} // verus!
