//! What holds of every network, proved from the model.

use vstd::prelude::*;
use crate::activation::{Activation, Rectifier, ScalarFn};
use crate::algebra::{affine, dot_prefix, mapped, rectangular};
use crate::fixed::Fixed;
use crate::model::{activations, Model};
use crate::scalar::Scalar;

verus! {

/// Whether every entry of `v` is the scalar zero.
pub open spec fn all_zero<S: Scalar>(v: Seq<S>) -> bool {
    forall|k: int| 0 <= k < v.len() ==> #[trigger] v[k] == S::zero_value()
}

/// Whether every weight and every bias of `m` is the scalar zero.
pub open spec fn zero_parameters<S: Scalar>(m: Model<S>) -> bool {
    &&& forall|i: int, r: int|
        0 <= i < m.weights.len() && 0 <= r < m.weights[i].len() ==> all_zero(
            #[trigger] m.weights[i][r],
        )
    &&& forall|i: int| 0 <= i < m.bias.len() ==> all_zero(#[trigger] m.bias[i])
}

/// Whether zero times `x` is zero.
pub open spec fn zero_absorbs<S: Scalar>(x: S) -> bool {
    S::zero_value().product(x) == S::zero_value()
}

/// Whether zero plus zero is zero, zero times zero is zero, and zero times
/// every entry of `input` is zero.
pub open spec fn zero_is_neutral_on<S: Scalar>(input: Seq<S>) -> bool {
    &&& S::zero_value().sum(S::zero_value()) == S::zero_value()
    &&& zero_absorbs(S::zero_value())
    &&& forall|k: int| 0 <= k < input.len() ==> zero_absorbs(#[trigger] input[k])
}

proof fn zero_row_has_zero_dot<S: Scalar>(row: Seq<S>, x: Seq<S>, n: nat)
    requires
        all_zero(row),
        n <= row.len(),
        row.len() == x.len(),
        S::zero_value().sum(S::zero_value()) == S::zero_value(),
        forall|k: int| 0 <= k < x.len() ==> zero_absorbs(#[trigger] x[k]),
    ensures
        dot_prefix(row, x, n) == S::zero_value(),
    decreases n,
{
    if n > 0 {
        zero_row_has_zero_dot(row, x, (n - 1) as nat);
        assert(zero_absorbs(x[n - 1]));
    }
}

proof fn zero_layers_stay_zero<S: Scalar, F: ScalarFn<S>>(
    m: Model<S>,
    f: F,
    input: Seq<S>,
    k: nat,
)
    requires
        m.well_formed(),
        m.accepts(input),
        zero_parameters(m),
        zero_is_neutral_on(input),
        f.value_at(S::zero_value()) == S::zero_value(),
        1 <= k < m.layers.len(),
    ensures
        activations(m.weights, m.bias, f, input, k).len() == m.layers[k as int],
        all_zero(activations(m.weights, m.bias, f, input, k)),
    decreases k,
{
    let below = activations(m.weights, m.bias, f, input, (k - 1) as nat);
    if k > 1 {
        zero_layers_stay_zero(m, f, input, (k - 1) as nat);
    }
    let w = m.weights[k - 1];
    let b = m.bias[k - 1];
    assert(rectangular(w, m.layers[k as int], m.layers[k - 1]));
    assert(all_zero(b));
    let pre = affine(w, below, b);
    let out = mapped(f, pre);
    assert(out == activations(m.weights, m.bias, f, input, k));
    assert forall|r: int| 0 <= r < out.len() implies #[trigger] out[r] == S::zero_value() by {
        assert(all_zero(m.weights[k - 1][r]));
        assert(w[r].len() == below.len());
        zero_row_has_zero_dot(w[r], below, w[r].len());
        assert(b[r] == S::zero_value());
    }
}

/// A network whose weights and biases are all zero answers every input with
/// zeros, one for each entry of the output layer, whenever its activation
/// function maps zero to zero, as the rectifier does.
///
/// Asked of the scalars: zero plus zero is zero, zero times zero is zero, and
/// zero times each entry of the input is zero.
pub proof fn zero_network_predicts_zero<S: Scalar, F: ScalarFn<S>>(
    m: Model<S>,
    f: F,
    input: Seq<S>,
)
    requires
        m.well_formed(),
        m.accepts(input),
        zero_parameters(m),
        zero_is_neutral_on(input),
        f.value_at(S::zero_value()) == S::zero_value(),
    ensures
        m.prediction(f, input) == Seq::new(m.layers.last(), |k: int| S::zero_value()),
{
    zero_layers_stay_zero(m, f, input, (m.layers.len() - 1) as nat);
    assert(m.prediction(f, input) =~= Seq::new(m.layers.last(), |k: int| S::zero_value()));
}

/// The rectifier maps zero to zero, over every scalar type.
pub proof fn rectifier_keeps_zero<S: Scalar>()
    ensures
        Rectifier.value_at(S::zero_value()) == S::zero_value(),
{
}

/// Over fixed-point scalars a rectifier network whose weights and biases are
/// all zero answers every input of the right length with zeros.
pub proof fn zero_fixed_network_predicts_zero(m: Model<Fixed>, input: Seq<Fixed>)
    requires
        m.well_formed(),
        m.accepts(input),
        zero_parameters(m),
    ensures
        m.prediction(Rectifier, input) == Seq::new(m.layers.last(), |k: int| Fixed::zero_value()),
{
    assert(zero_is_neutral_on(input)) by {
        assert forall|x: Fixed| zero_absorbs(x) by {
            assert((0 * x.raw) / 0x1_0000_0000 == 0);
        }
    }
    rectifier_keeps_zero::<Fixed>();
    zero_network_predicts_zero(m, Rectifier, input);
}

/// A forward pass reads the parameters and writes the cache only: a second
/// pass on the same input returns the same prediction and leaves the network
/// as the first pass left it.
pub proof fn forward_pass_is_idempotent<S: Scalar, F: ScalarFn<S>>(
    m: Model<S>,
    f: F,
    input: Seq<S>,
)
    ensures
        m.after_forward(f, input).prediction(f, input) == m.prediction(f, input),
        m.after_forward(f, input).after_forward(f, input) == m.after_forward(f, input),
{
}

/// A forward pass leaves a well-formed network well-formed, fills the cache,
/// and predicts one value for each entry of the output layer.
pub proof fn forward_pass_fills_cache<S: Scalar, F: ScalarFn<S>>(
    m: Model<S>,
    f: F,
    input: Seq<S>,
)
    requires
        m.well_formed(),
        m.accepts(input),
    ensures
        m.after_forward(f, input).well_formed(),
        m.after_forward(f, input).data.len() == m.layers.len(),
        m.after_forward(f, input).data[0] == input,
        m.after_forward(f, input).data.last() == m.prediction(f, input),
        m.emits(m.prediction(f, input)),
{
    let after = m.after_forward(f, input);
    assert forall|k: int| 0 <= k < m.layers.len() implies (#[trigger] after.data[k]).len()
        == m.layers[k] by {
        activation_has_layer_length(m, f, input, k as nat);
    }
    activation_has_layer_length(m, f, input, (m.layers.len() - 1) as nat);
}

proof fn activation_has_layer_length<S: Scalar, F: ScalarFn<S>>(
    m: Model<S>,
    f: F,
    input: Seq<S>,
    k: nat,
)
    requires
        m.well_formed(),
        m.accepts(input),
        k < m.layers.len(),
    ensures
        activations(m.weights, m.bias, f, input, k).len() == m.layers[k as int],
{
    if k > 0 {
        assert(rectangular(m.weights[k - 1], m.layers[k as int], m.layers[k - 1]));
    }
}

/// Before its first forward pass no network is ready for a backward pass,
/// whatever the prediction and the target.
pub proof fn fresh_network_is_not_ready<S: Scalar>(m: Model<S>, inputs: Seq<S>, targets: Seq<S>)
    requires
        m.well_formed(),
        m.data.len() == 0,
    ensures
        !m.ready_for(inputs, targets),
{
}

/// Training for no epoch, or on no example, leaves the network as it was:
/// weights, biases and cache.
pub proof fn training_without_work_changes_nothing<S: Scalar, F: ScalarFn<S>, D: ScalarFn<S>>(
    m: Model<S>,
    a: Activation<F, D>,
    inputs: Seq<Seq<S>>,
    targets: Seq<Seq<S>>,
    epochs: nat,
)
    ensures
        m.after_epochs(a, inputs, targets, 0) == m,
        inputs.len() == 0 ==> m.after_epochs(a, inputs, targets, epochs) == m,
    decreases epochs,
{
    if epochs > 0 {
        training_without_work_changes_nothing(m, a, inputs, targets, (epochs - 1) as nat);
    }
}

/// Training runs one forward and one backward pass for each example of each
/// epoch: an epoch more is one more pass over the dataset, an example more is
/// one more step.
pub proof fn training_is_sequential<S: Scalar, F: ScalarFn<S>, D: ScalarFn<S>>(
    m: Model<S>,
    a: Activation<F, D>,
    inputs: Seq<Seq<S>>,
    targets: Seq<Seq<S>>,
    first: nat,
    second: nat,
)
    ensures
        m.after_epochs(a, inputs, targets, first + second) == m.after_epochs(
            a,
            inputs,
            targets,
            first,
        ).after_epochs(a, inputs, targets, second),
    decreases second,
{
    if second > 0 {
        training_is_sequential(m, a, inputs, targets, first, (second - 1) as nat);
        assert((first + second - 1) as nat == first + (second - 1) as nat);
    }
}

} // verus!
