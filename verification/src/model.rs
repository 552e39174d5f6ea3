//! The mathematical model of a network: what a forward pass, a backward pass
//! and a training run make of it, as functions on sequences.

use vstd::prelude::*;
use crate::activation::{Activation, ScalarFn};
use crate::algebra::{
    affine, differences, mapped, plus_outer, rectangular, scaled_products, sums,
    transposed_apply,
};
use crate::scalar::Scalar;

verus! {

/// Whether `layers` names at least an input and an output layer, none of
/// them empty.
pub open spec fn valid_topology(layers: Seq<nat>) -> bool {
    &&& layers.len() >= 2
    &&& forall|i: int| 0 <= i < layers.len() ==> #[trigger] layers[i] > 0
}

/// Whether transition `i` has a weight matrix of `layers[i + 1]` rows and
/// `layers[i]` columns and a bias vector of `layers[i + 1]` entries, for
/// every `i`.
pub open spec fn parameters_fit<S>(
    layers: Seq<nat>,
    weights: Seq<Seq<Seq<S>>>,
    bias: Seq<Seq<S>>,
) -> bool {
    &&& weights.len() == layers.len() - 1
    &&& bias.len() == layers.len() - 1
    &&& forall|i: int|
        0 <= i < layers.len() - 1 ==> rectangular(#[trigger] weights[i], layers[i + 1], layers[i])
    &&& forall|i: int| 0 <= i < layers.len() - 1 ==> (#[trigger] bias[i]).len() == layers[i + 1]
}

/// Whether `data` holds one activation vector of `layers[k]` entries for
/// every layer `k`.
pub open spec fn cache_fits<S>(layers: Seq<nat>, data: Seq<Seq<S>>) -> bool {
    &&& data.len() == layers.len()
    &&& forall|k: int| 0 <= k < layers.len() ==> (#[trigger] data[k]).len() == layers[k]
}

/// The activation vector of layer `k` for the given input: the input itself
/// for `k = 0`, and `f(w[k-1] · a + b[k-1])` of the previous layer's
/// activation `a` above it.
pub open spec fn activations<S: Scalar, F: ScalarFn<S>>(
    weights: Seq<Seq<Seq<S>>>,
    bias: Seq<Seq<S>>,
    f: F,
    input: Seq<S>,
    k: nat,
) -> Seq<S>
    decreases k,
{
    if k == 0 {
        input
    } else {
        mapped(
            f,
            affine(
                weights[k - 1],
                activations(weights, bias, f, input, (k - 1) as nat),
                bias[k - 1],
            ),
        )
    }
}

/// What a network is: its topology, its parameters, the activations cached by
/// the latest forward pass (empty before the first), and its learning rate.
pub struct Model<S> {
    pub layers: Seq<nat>,
    pub weights: Seq<Seq<Seq<S>>>,
    pub bias: Seq<Seq<S>>,
    pub data: Seq<Seq<S>>,
    pub learning_rate: S,
}

/// The state of a backward pass between two layer transitions.
pub struct Backward<S> {
    pub weights: Seq<Seq<Seq<S>>>,
    pub bias: Seq<Seq<S>>,
    /// The error propagated down to the layer above the next transition.
    pub error: Seq<S>,
    /// The derivative at that layer's activations.
    pub gradient: Seq<S>,
}

impl<S: Scalar> Backward<S> {
    /// One transition `i` of the backward pass, fed by the activations `x`
    /// below it.
    ///
    /// With `delta = (gradient ⊙ error) × rate`: the weights grow by
    /// `delta · transpose(x)`, the bias by `delta`; the error becomes
    /// `transpose(w) · error` for the weights `w` as they were *before* this
    /// step, and the gradient the derivative at `x`.
    pub open spec fn step<D: ScalarFn<S>>(self, d: D, i: int, x: Seq<S>, rate: S) -> Self {
        let delta = scaled_products(self.gradient, self.error, rate);
        Backward {
            weights: self.weights.update(i, plus_outer(self.weights[i], delta, x)),
            bias: self.bias.update(i, sums(self.bias[i], delta)),
            error: transposed_apply(self.weights[i], self.error, x.len()),
            gradient: mapped(d, x),
        }
    }
}

impl<S: Scalar> Model<S> {
    /// The invariant of every network.
    pub open spec fn well_formed(self) -> bool {
        &&& valid_topology(self.layers)
        &&& parameters_fit(self.layers, self.weights, self.bias)
        &&& (self.data.len() == 0 || cache_fits(self.layers, self.data))
    }

    /// Whether `input` has the length of the input layer.
    pub open spec fn accepts(self, input: Seq<S>) -> bool {
        input.len() == self.layers[0]
    }

    /// Whether `output` has the length of the output layer.
    pub open spec fn emits(self, output: Seq<S>) -> bool {
        output.len() == self.layers.last()
    }

    /// The activations of all layers for `input`, input layer first.
    pub open spec fn cache<F: ScalarFn<S>>(self, f: F, input: Seq<S>) -> Seq<Seq<S>> {
        Seq::new(
            self.layers.len(),
            |k: int| activations(self.weights, self.bias, f, input, k as nat),
        )
    }

    /// The activation of the output layer for `input`.
    pub open spec fn prediction<F: ScalarFn<S>>(self, f: F, input: Seq<S>) -> Seq<S> {
        activations(self.weights, self.bias, f, input, (self.layers.len() - 1) as nat)
    }

    /// The network after a forward pass on `input`: the cache is replaced,
    /// nothing else changes.
    pub open spec fn after_forward<F: ScalarFn<S>>(self, f: F, input: Seq<S>) -> Self {
        Model { data: self.cache(f, input), ..self }
    }

    /// Whether a backward pass can run: a forward pass has filled the cache,
    /// and prediction and target have the length of the output layer.
    pub open spec fn ready_for(self, inputs: Seq<S>, targets: Seq<S>) -> bool {
        &&& self.data.len() == self.layers.len()
        &&& self.emits(inputs)
        &&& self.emits(targets)
    }

    /// The backward pass after its first `steps` transitions, taken from the
    /// output layer down: it starts with the error `targets - inputs` and the
    /// derivative at `inputs`.
    pub open spec fn backward<D: ScalarFn<S>>(
        self,
        d: D,
        inputs: Seq<S>,
        targets: Seq<S>,
        steps: nat,
    ) -> Backward<S>
        decreases steps,
    {
        if steps == 0 {
            Backward {
                weights: self.weights,
                bias: self.bias,
                error: differences(targets, inputs),
                gradient: mapped(d, inputs),
            }
        } else {
            let i = self.layers.len() - 1 - steps;
            self.backward(d, inputs, targets, (steps - 1) as nat).step(
                d,
                i,
                self.data[i],
                self.learning_rate,
            )
        }
    }

    /// The network after a backward pass: every transition has been updated
    /// once, the cache is as it was.
    pub open spec fn after_back_prop<D: ScalarFn<S>>(
        self,
        d: D,
        inputs: Seq<S>,
        targets: Seq<S>,
    ) -> Self {
        let end = self.backward(d, inputs, targets, (self.layers.len() - 1) as nat);
        Model { weights: end.weights, bias: end.bias, ..self }
    }

    /// The network after one training example: a forward pass on `input`,
    /// then a backward pass from its prediction towards `target`.
    pub open spec fn after_example<F: ScalarFn<S>, D: ScalarFn<S>>(
        self,
        a: Activation<F, D>,
        input: Seq<S>,
        target: Seq<S>,
    ) -> Self {
        self.after_forward(a.function, input).after_back_prop(
            a.derivation,
            self.prediction(a.function, input),
            target,
        )
    }

    /// The network after the first `n` examples of a dataset, taken in order.
    pub open spec fn after_examples<F: ScalarFn<S>, D: ScalarFn<S>>(
        self,
        a: Activation<F, D>,
        inputs: Seq<Seq<S>>,
        targets: Seq<Seq<S>>,
        n: nat,
    ) -> Self
        decreases n,
    {
        if n == 0 {
            self
        } else {
            self.after_examples(a, inputs, targets, (n - 1) as nat).after_example(
                a,
                inputs[n - 1],
                targets[n - 1],
            )
        }
    }

    /// The network after `epochs` passes over the whole dataset.
    pub open spec fn after_epochs<F: ScalarFn<S>, D: ScalarFn<S>>(
        self,
        a: Activation<F, D>,
        inputs: Seq<Seq<S>>,
        targets: Seq<Seq<S>>,
        epochs: nat,
    ) -> Self
        decreases epochs,
    {
        if epochs == 0 {
            self
        } else {
            self.after_epochs(a, inputs, targets, (epochs - 1) as nat).after_examples(
                a,
                inputs,
                targets,
                inputs.len(),
            )
        }
    }

    /// Whether a dataset can be trained on: as many targets as inputs, every
    /// input of the input layer's length and every target of the output
    /// layer's.
    pub open spec fn trains_on(self, inputs: Seq<Seq<S>>, targets: Seq<Seq<S>>) -> bool {
        &&& inputs.len() == targets.len()
        &&& forall|j: int| 0 <= j < inputs.len() ==> self.accepts(#[trigger] inputs[j])
        &&& forall|j: int| 0 <= j < targets.len() ==> self.emits(#[trigger] targets[j])
    }
}

} // verus!
