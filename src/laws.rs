use vstd::prelude::*;

use crate::network::{spec_nudged, spec_outputs, spec_predict};
use crate::scalar::{spec_sigmoid_derivative, Scalar};
use crate::training::{
    spec_hidden_errors, spec_network_error, spec_step_hidden, spec_step_output, spec_trained,
};

verus! {

/// A step with learning rate zero leaves every weight and bias of both
/// layers as it was, in any number type where zero times a value is zero and
/// adding zero changes nothing.
pub proof fn lemma_zero_rate_keeps_layers<T: Scalar>(
    hidden_layer: Seq<(Seq<T>, T)>,
    output_layer: Seq<(Seq<T>, T)>,
    x: Seq<T>,
    target: T,
)
    requires
        forall|v: T| #[trigger] T::spec_zero().spec_times(v) == T::spec_zero(),
        forall|v: T| #[trigger] v.spec_plus(T::spec_zero()) == v,
    ensures
        spec_step_hidden(hidden_layer, output_layer, x, target, T::spec_zero()) == hidden_layer,
        spec_step_output(hidden_layer, output_layer, x, target, T::spec_zero()) == output_layer,
{
    let zero = T::spec_zero();
    let e = spec_hidden_errors(hidden_layer, output_layer, x, target);
    assert forall|i: int| 0 <= i < hidden_layer.len() implies spec_nudged(
        hidden_layer[i],
        x,
        zero.spec_times(e[i]),
    ) == hidden_layer[i] by {
        assert(spec_nudged(hidden_layer[i], x, zero.spec_times(e[i])).0 =~= hidden_layer[i].0);
    }
    assert(spec_step_hidden(hidden_layer, output_layer, x, target, zero) =~= hidden_layer);
    let step_out = spec_step_output(hidden_layer, output_layer, x, target, zero);
    assert forall|k: int| 0 <= k < output_layer.len() implies step_out[k] == output_layer[k] by {
        assert(step_out[k].0 =~= output_layer[k].0);
    }
    assert(step_out =~= output_layer);
}

/// Training is deterministic: two runs from the same layers on the same
/// examples, learning rate and number of passes end in the same layers.
pub proof fn lemma_training_deterministic<T: Scalar>(
    hidden_layer: Seq<(Seq<T>, T)>,
    output_layer: Seq<(Seq<T>, T)>,
    inputs: Seq<Vec<T>>,
    targets: Seq<Vec<T>>,
    rate: T,
    passes: nat,
    first: (Seq<(Seq<T>, T)>, Seq<(Seq<T>, T)>),
    second: (Seq<(Seq<T>, T)>, Seq<(Seq<T>, T)>),
)
    requires
        first == spec_trained(hidden_layer, output_layer, inputs, targets, rate, passes),
        second == spec_trained(hidden_layer, output_layer, inputs, targets, rate, passes),
    ensures
        first == second,
{
}

/// When the network misses the target and the learning rate is not zero, a
/// step moves every weight and the bias of the output neuron, the bias of
/// every hidden neuron whose output weight is not zero, and each of that
/// neuron's weights whose input component is not zero. This holds in any
/// number type that behaves as the reals do here: a product is zero only
/// when a factor is, adding a value changes a number unless the value is
/// zero, a difference is zero only between equal numbers, and the sigmoid
/// lies strictly between zero and one.
pub proof fn lemma_step_moves_parameters<T: Scalar>(
    hidden_layer: Seq<(Seq<T>, T)>,
    output_layer: Seq<(Seq<T>, T)>,
    x: Seq<T>,
    target: T,
    rate: T,
)
    requires
        forall|a: T, b: T|
            #[trigger] a.spec_times(b) == T::spec_zero() ==> a == T::spec_zero() || b
                == T::spec_zero(),
        forall|a: T, b: T| #[trigger] a.spec_plus(b) == a ==> b == T::spec_zero(),
        forall|a: T, b: T| #[trigger] a.spec_minus(b) == T::spec_zero() ==> a == b,
        forall|a: T|
            #[trigger] a.spec_sigmoid() != T::spec_zero() && a.spec_sigmoid() != T::spec_one(),
        output_layer.len() >= 1,
        output_layer[0].0.len() == hidden_layer.len(),
        rate != T::spec_zero(),
        target != spec_predict(hidden_layer, output_layer, x),
    ensures
        ({
            let o = spec_step_output(hidden_layer, output_layer, x, target, rate)[0];
            &&& forall|j: int|
                0 <= j < o.0.len() ==> #[trigger] o.0[j] != output_layer[0].0[j]
            &&& o.1 != output_layer[0].1
        }),
        forall|i: int|
            0 <= i < hidden_layer.len() && output_layer[0].0[i] != T::spec_zero() ==> {
                let n = #[trigger] spec_step_hidden(hidden_layer, output_layer, x, target, rate)[i];
                &&& n.1 != hidden_layer[i].1
                &&& forall|j: int|
                    0 <= j < n.0.len() && x[j] != T::spec_zero() ==> #[trigger] n.0[j]
                        != hidden_layer[i].0[j]
            },
{
    let zero = T::spec_zero();
    let h = spec_outputs(hidden_layer, x);
    let out = spec_predict(hidden_layer, output_layer, x);
    let oe = spec_network_error(hidden_layer, output_layer, x, target);
    assert(spec_sigmoid_derivative(out) != zero) by {
        assert(T::spec_one().spec_minus(out) != zero);
    }
    assert(target.spec_minus(out) != zero);
    assert(oe != zero);
    let step = rate.spec_times(oe);
    assert(step != zero);
    let o = spec_step_output(hidden_layer, output_layer, x, target, rate)[0];
    assert forall|j: int| 0 <= j < o.0.len() implies #[trigger] o.0[j] != output_layer[0].0[j] by {
        assert(h[j] != zero);
        assert(step.spec_times(h[j]) != zero);
    }
    let e = spec_hidden_errors(hidden_layer, output_layer, x, target);
    assert forall|i: int|
        0 <= i < hidden_layer.len() && output_layer[0].0[i] != zero implies {
            let n = #[trigger] spec_step_hidden(hidden_layer, output_layer, x, target, rate)[i];
            &&& n.1 != hidden_layer[i].1
            &&& forall|j: int|
                0 <= j < n.0.len() && x[j] != zero ==> #[trigger] n.0[j] != hidden_layer[i].0[j]
        } by {
        assert(h[i] != zero);
        assert(T::spec_one().spec_minus(h[i]) != zero);
        assert(spec_sigmoid_derivative(h[i]) != zero);
        assert(output_layer[0].0[i].spec_times(oe) != zero);
        assert(e[i] != zero);
        let s = rate.spec_times(e[i]);
        assert(s != zero);
        let n = spec_step_hidden(hidden_layer, output_layer, x, target, rate)[i];
        assert forall|j: int| 0 <= j < n.0.len() && x[j] != zero implies #[trigger] n.0[j]
            != hidden_layer[i].0[j] by {
            assert(s.spec_times(x[j]) != zero);
        }
    }
}
} // verus!
