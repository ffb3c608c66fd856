use vstd::prelude::*;

use crate::network::{network_accepts, spec_eval, spec_nudged, spec_outputs, Layer, Neuron};
use crate::scalar::{sigmoid_derivative, spec_sigmoid_derivative, Scalar};

verus! {

/// The output error for an output `out` against `target`:
/// `(target - out) * out * (1 - out)`.
pub open spec fn spec_output_error<T: Scalar>(target: T, out: T) -> T {
    target.spec_minus(out).spec_times(spec_sigmoid_derivative(out))
}

/// The output error of the network on the example (`x`, `target`).
pub open spec fn spec_network_error<T: Scalar>(
    hidden_layer: Seq<(Seq<T>, T)>,
    output_layer: Seq<(Seq<T>, T)>,
    x: Seq<T>,
    target: T,
) -> T {
    spec_output_error(target, spec_eval(output_layer[0], spec_outputs(hidden_layer, x)))
}

/// The error of each hidden neuron `i`: `v_i * output_error * h_i * (1 - h_i)`,
/// where `v_i` is the output neuron's weight for it and `h_i` its output.
pub open spec fn spec_hidden_errors<T: Scalar>(
    hidden_layer: Seq<(Seq<T>, T)>,
    output_layer: Seq<(Seq<T>, T)>,
    x: Seq<T>,
    target: T,
) -> Seq<T> {
    let h = spec_outputs(hidden_layer, x);
    let oe = spec_network_error(hidden_layer, output_layer, x, target);
    Seq::new(
        hidden_layer.len(),
        |i: int| output_layer[0].0[i].spec_times(oe).spec_times(spec_sigmoid_derivative(h[i])),
    )
}

/// The hidden layer after one step on (`x`, `target`): neuron `i` nudged by
/// `rate * hidden_error_i` along `x`.
pub open spec fn spec_step_hidden<T: Scalar>(
    hidden_layer: Seq<(Seq<T>, T)>,
    output_layer: Seq<(Seq<T>, T)>,
    x: Seq<T>,
    target: T,
    rate: T,
) -> Seq<(Seq<T>, T)> {
    let e = spec_hidden_errors(hidden_layer, output_layer, x, target);
    Seq::new(hidden_layer.len(), |i: int| spec_nudged(hidden_layer[i], x, rate.spec_times(e[i])))
}

/// The output layer after one step on (`x`, `target`): each neuron nudged by
/// `rate * output_error` along the hidden outputs.
pub open spec fn spec_step_output<T: Scalar>(
    hidden_layer: Seq<(Seq<T>, T)>,
    output_layer: Seq<(Seq<T>, T)>,
    x: Seq<T>,
    target: T,
    rate: T,
) -> Seq<(Seq<T>, T)> {
    let step = rate.spec_times(spec_network_error(hidden_layer, output_layer, x, target));
    Seq::new(
        output_layer.len(),
        |k: int| spec_nudged(output_layer[k], spec_outputs(hidden_layer, x), step),
    )
}

/// Both layers after one step on each of the first `k` examples, in order.
pub open spec fn spec_pass<T: Scalar>(
    hidden_layer: Seq<(Seq<T>, T)>,
    output_layer: Seq<(Seq<T>, T)>,
    inputs: Seq<Vec<T>>,
    targets: Seq<Vec<T>>,
    rate: T,
    k: nat,
) -> (Seq<(Seq<T>, T)>, Seq<(Seq<T>, T)>)
    decreases k,
{
    if k == 0 {
        (hidden_layer, output_layer)
    } else {
        let (h, o) = spec_pass(hidden_layer, output_layer, inputs, targets, rate, (k - 1) as nat);
        let x = inputs[k - 1]@;
        let t = targets[k - 1]@[0];
        (spec_step_hidden(h, o, x, t, rate), spec_step_output(h, o, x, t, rate))
    }
}

/// Both layers after `passes` full passes over the examples.
pub open spec fn spec_trained<T: Scalar>(
    hidden_layer: Seq<(Seq<T>, T)>,
    output_layer: Seq<(Seq<T>, T)>,
    inputs: Seq<Vec<T>>,
    targets: Seq<Vec<T>>,
    rate: T,
    passes: nat,
) -> (Seq<(Seq<T>, T)>, Seq<(Seq<T>, T)>)
    decreases passes,
{
    if passes == 0 {
        (hidden_layer, output_layer)
    } else {
        let (h, o) = spec_trained(hidden_layer, output_layer, inputs, targets, rate, (passes - 1) as nat);
        spec_pass(h, o, inputs, targets, rate, inputs.len())
    }
}

/// Each neuron of `layer` nudged by `learning_rate * errors[i]` on `inputs`.
fn nudged_layer<T: Scalar>(layer: &Layer<T>, inputs: &Vec<T>, errors: &Vec<T>, learning_rate: T) -> (r:
    Layer<T>)
    requires
        layer.accepts(inputs@.len()),
        errors@.len() == layer.neurons@.len(),
    ensures
        r.same_shape(layer),
        r@ == Seq::new(
            layer@.len(),
            |i: int| spec_nudged(layer@[i], inputs@, learning_rate.spec_times(errors@[i])),
        ),
{
    let mut neurons: Vec<Neuron<T>> = Vec::new();
    let mut i: usize = 0;
    while i < layer.neurons.len()
        invariant
            i <= layer.neurons@.len(),
            layer.accepts(inputs@.len()),
            errors@.len() == layer.neurons@.len(),
            neurons@.len() == i,
            forall|k: int|
                0 <= k < i ==> (#[trigger] neurons@[k]).weights@.len()
                    == layer.neurons@[k].weights@.len(),
            forall|k: int|
                0 <= k < i ==> (#[trigger] neurons@[k])@ == spec_nudged(
                    layer@[k],
                    inputs@,
                    learning_rate.spec_times(errors@[k]),
                ),
        decreases layer.neurons@.len() - i,
    {
        neurons.push(layer.neurons[i].nudged(inputs, learning_rate.times(errors[i])));
        i += 1;
    }
    let r = Layer { neurons };
    assert(r@ =~= Seq::new(
        layer@.len(),
        |i: int| spec_nudged(layer@[i], inputs@, learning_rate.spec_times(errors@[i])),
    ));
    r
}

/// One step of stochastic gradient descent on the example
/// (`inputs`, `targets[0]`).
///
/// Every error term is computed from the parameters as they were on entry;
/// only then are the layers replaced. With `o` the network's output and `h`
/// the hidden outputs:
/// - the output error is `(target - o) * o * (1 - o)`;
/// - hidden neuron `i` has the error `v_i * output_error * h_i * (1 - h_i)`,
///   where `v_i` is the output neuron's weight for it;
/// - the output neuron moves by `learning_rate * output_error` along `h`,
///   each hidden neuron `i` by `learning_rate * hidden_error_i` along the
///   input, and each bias by the same step.
///
/// The shape of both layers is kept.
pub fn backprop<T: Scalar>(
    inputs: &Vec<T>,
    targets: &Vec<T>,
    hidden_layer: &mut Layer<T>,
    output_layer: &mut Layer<T>,
    learning_rate: T,
)
    requires
        network_accepts(old(hidden_layer), old(output_layer), inputs@.len() as nat),
        targets@.len() >= 1,
    ensures
        final(hidden_layer).same_shape(old(hidden_layer)),
        final(output_layer).same_shape(old(output_layer)),
        network_accepts(final(hidden_layer), final(output_layer), inputs@.len() as nat),
        final(hidden_layer)@ == spec_step_hidden(
            old(hidden_layer)@,
            old(output_layer)@,
            inputs@,
            targets@[0],
            learning_rate,
        ),
        final(output_layer)@ == spec_step_output(
            old(hidden_layer)@,
            old(output_layer)@,
            inputs@,
            targets@[0],
            learning_rate,
        ),
{
    let hidden_outputs = hidden_layer.outputs(inputs);
    let output = output_layer.neurons[0].eval(&hidden_outputs);
    let output_error = targets[0].minus(output).times(sigmoid_derivative(output));

    let mut hidden_errors: Vec<T> = Vec::new();
    let mut i: usize = 0;
    while i < hidden_layer.neurons.len()
        invariant
            i <= hidden_layer.neurons@.len(),
            hidden_outputs@.len() == hidden_layer.neurons@.len(),
            output_layer.accepts(hidden_layer.neurons@.len()),
            output_layer.neurons@.len() == 1,
            hidden_errors@.len() == i,
            hidden_outputs@ == spec_outputs(hidden_layer@, inputs@),
            output_error == spec_network_error(hidden_layer@, output_layer@, inputs@, targets@[0]),
            forall|k: int|
                0 <= k < i ==> hidden_errors@[k] == #[trigger] spec_hidden_errors(
                    hidden_layer@,
                    output_layer@,
                    inputs@,
                    targets@[0],
                )[k],
        decreases hidden_layer.neurons@.len() - i,
    {
        let back = output_layer.neurons[0].weights[i].times(output_error);
        hidden_errors.push(back.times(sigmoid_derivative(hidden_outputs[i])));
        i += 1;
    }

    let mut output_errors: Vec<T> = Vec::new();
    let mut k: usize = 0;
    while k < output_layer.neurons.len()
        invariant
            k <= output_layer.neurons@.len(),
            output_errors@.len() == k,
            forall|m: int| 0 <= m < k ==> #[trigger] output_errors@[m] == output_error,
        decreases output_layer.neurons@.len() - k,
    {
        output_errors.push(output_error);
        k += 1;
    }

    let new_output = nudged_layer(output_layer, &hidden_outputs, &output_errors, learning_rate);
    let new_hidden = nudged_layer(hidden_layer, inputs, &hidden_errors, learning_rate);
    assert(hidden_errors@ =~= spec_hidden_errors(hidden_layer@, output_layer@, inputs@, targets@[0]));
    assert(new_hidden@ =~= spec_step_hidden(
        hidden_layer@,
        output_layer@,
        inputs@,
        targets@[0],
        learning_rate,
    ));
    assert(new_output@ =~= spec_step_output(
        hidden_layer@,
        output_layer@,
        inputs@,
        targets@[0],
        learning_rate,
    ));
    *output_layer = new_output;
    *hidden_layer = new_hidden;
}

/// Runs `iterations` passes over the examples; each pass applies
/// [`backprop`] once to every example, in order, with the same learning rate.
/// There is no shuffling and no early stop. The shape of both layers is kept.
pub fn train_network<T: Scalar>(
    inputs: &Vec<Vec<T>>,
    targets: &Vec<Vec<T>>,
    hidden_layer: &mut Layer<T>,
    output_layer: &mut Layer<T>,
    iterations: u64,
    learning_rate: T,
)
    requires
        inputs@.len() == targets@.len(),
        forall|e: int|
            0 <= e < inputs@.len() ==> network_accepts(
                old(hidden_layer),
                old(output_layer),
                (#[trigger] inputs@[e])@.len() as nat,
            ),
        forall|e: int| 0 <= e < targets@.len() ==> (#[trigger] targets@[e])@.len() >= 1,
    ensures
        final(hidden_layer).same_shape(old(hidden_layer)),
        final(output_layer).same_shape(old(output_layer)),
        (final(hidden_layer)@, final(output_layer)@) == spec_trained(
            old(hidden_layer)@,
            old(output_layer)@,
            inputs@,
            targets@,
            learning_rate,
            iterations as nat,
        ),
{
    let mut pass: u64 = 0;
    while pass < iterations
        invariant
            pass <= iterations,
            inputs@.len() == targets@.len(),
            forall|e: int|
                0 <= e < inputs@.len() ==> network_accepts(
                    hidden_layer,
                    output_layer,
                    (#[trigger] inputs@[e])@.len() as nat,
                ),
            forall|e: int| 0 <= e < targets@.len() ==> (#[trigger] targets@[e])@.len() >= 1,
            hidden_layer.same_shape(old(hidden_layer)),
            output_layer.same_shape(old(output_layer)),
            (hidden_layer@, output_layer@) == spec_trained(
                old(hidden_layer)@,
                old(output_layer)@,
                inputs@,
                targets@,
                learning_rate,
                pass as nat,
            ),
        decreases iterations - pass,
    {
        let ghost start = (hidden_layer@, output_layer@);
        let mut i: usize = 0;
        while i < inputs.len()
            invariant
                i <= inputs@.len(),
                inputs@.len() == targets@.len(),
                forall|e: int|
                    0 <= e < inputs@.len() ==> network_accepts(
                        hidden_layer,
                        output_layer,
                        (#[trigger] inputs@[e])@.len() as nat,
                    ),
                forall|e: int| 0 <= e < targets@.len() ==> (#[trigger] targets@[e])@.len() >= 1,
                hidden_layer.same_shape(old(hidden_layer)),
                output_layer.same_shape(old(output_layer)),
                start == spec_trained(
                    old(hidden_layer)@,
                    old(output_layer)@,
                    inputs@,
                    targets@,
                    learning_rate,
                    pass as nat,
                ),
                (hidden_layer@, output_layer@) == spec_pass(
                    start.0,
                    start.1,
                    inputs@,
                    targets@,
                    learning_rate,
                    i as nat,
                ),
            decreases inputs@.len() - i,
        {
            backprop(&inputs[i], &targets[i], hidden_layer, output_layer, learning_rate);
            i += 1;
        }
        pass += 1;
    }
}

} // verus!
