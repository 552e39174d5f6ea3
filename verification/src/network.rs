//! The network itself: construction, the forward pass, the backward pass and
//! the training loop.

use vstd::prelude::*;
use crate::activation::{Activation, ScalarFn};
use crate::algebra::{
    add_outer, add_vectors, affine_image, apply_transposed, copy_of, image, rectangular, rows_of,
    scale_products, subtract,
};
use crate::laws::training_without_work_changes_nothing;
use crate::model::{activations, parameters_fit, valid_topology, Backward, Model};
use crate::random::{is_unit_draw, random_matrix, random_vector};
use crate::scalar::Scalar;

verus! {

/// Why an operation on a network was refused.
#[derive(Clone, Copy, Debug, PartialEq, Eq)]
pub enum NetworkError {
    /// The topology has fewer than two layers, or an empty layer.
    Configuration,
    /// A vector or matrix does not have the size its layer asks for, or a
    /// backward pass was asked for before any forward pass.
    ShapeMismatch,
}

/// The layer sizes held as machine integers.
pub open spec fn sizes_of(layers: Vec<usize>) -> Seq<nat> {
    Seq::new(layers@.len(), |i: int| layers@[i] as nat)
}

/// The matrices of a vector of matrices.
pub open spec fn grids_of<S>(ms: Vec<Vec<Vec<S>>>) -> Seq<Seq<Seq<S>>> {
    Seq::new(ms@.len(), |i: int| rows_of(ms@[i]))
}

/// A fully-connected feed-forward network over the scalars `S`, with one
/// activation function for all its layers.
pub struct Network<S, F, D> {
    layers: Vec<usize>,
    weights: Vec<Vec<Vec<S>>>,
    bias: Vec<Vec<S>>,
    data: Vec<Vec<S>>,
    activation: Activation<F, D>,
    learning_rate: S,
}

impl<S: Scalar, F: ScalarFn<S>, D: ScalarFn<S>> View for Network<S, F, D> {
    type V = Model<S>;

    closed spec fn view(&self) -> Model<S> {
        Model {
            layers: sizes_of(self.layers),
            weights: grids_of(self.weights),
            bias: rows_of(self.bias),
            data: rows_of(self.data),
            learning_rate: self.learning_rate,
        }
    }
}

/// Whether `layers` is a valid topology.
fn check_topology(layers: &Vec<usize>) -> (valid: bool)
    ensures
        valid == valid_topology(sizes_of(*layers)),
{
    if layers.len() < 2 {
        return false;
    }
    let mut i: usize = 0;
    while i < layers.len()
        invariant
            i <= layers.len(),
            layers.len() >= 2,
            forall|k: int| 0 <= k < i ==> #[trigger] sizes_of(*layers)[k] > 0,
        decreases layers.len() - i,
    {
        if layers[i] == 0 {
            assert(!(sizes_of(*layers)[i as int] > 0));
            return false;
        }
        i += 1;
    }
    true
}

/// Whether `m` has `height` rows of `width` entries each.
fn check_rectangular<S>(m: &Vec<Vec<S>>, height: usize, width: usize) -> (fits: bool)
    ensures
        fits == rectangular(rows_of(*m), height as nat, width as nat),
{
    if m.len() != height {
        return false;
    }
    let mut r: usize = 0;
    while r < m.len()
        invariant
            r <= m.len(),
            m.len() == height,
            forall|k: int| 0 <= k < r ==> (#[trigger] rows_of(*m)[k]).len() == width,
        decreases m.len() - r,
    {
        if m[r].len() != width {
            assert(rows_of(*m)[r as int].len() != width);
            return false;
        }
        r += 1;
    }
    true
}

/// Whether `weights` and `bias` have the shapes that `layers` asks for.
fn check_parameters<S>(
    layers: &Vec<usize>,
    weights: &Vec<Vec<Vec<S>>>,
    bias: &Vec<Vec<S>>,
) -> (fits: bool)
    requires
        layers.len() >= 2,
    ensures
        fits == parameters_fit(sizes_of(*layers), grids_of(*weights), rows_of(*bias)),
{
    let transitions = layers.len() - 1;
    if weights.len() != transitions || bias.len() != transitions {
        return false;
    }
    let mut i: usize = 0;
    while i < transitions
        invariant
            i <= transitions,
            transitions == layers.len() - 1,
            weights.len() == transitions,
            bias.len() == transitions,
            forall|k: int|
                0 <= k < i ==> rectangular(
                    #[trigger] grids_of(*weights)[k],
                    sizes_of(*layers)[k + 1],
                    sizes_of(*layers)[k],
                ),
            forall|k: int|
                0 <= k < i ==> (#[trigger] rows_of(*bias)[k]).len() == sizes_of(*layers)[k + 1],
        decreases transitions - i,
    {
        if !check_rectangular(&weights[i], layers[i + 1], layers[i]) {
            assert(!rectangular(
                grids_of(*weights)[i as int],
                sizes_of(*layers)[i + 1],
                sizes_of(*layers)[i as int],
            ));
            return false;
        }
        if bias[i].len() != layers[i + 1] {
            assert(rows_of(*bias)[i as int].len() != sizes_of(*layers)[i + 1]);
            return false;
        }
        i += 1;
    }
    true
}

impl<S: Scalar, F: ScalarFn<S>, D: ScalarFn<S>> Network<S, F, D> {
    /// The activation function the network was made with.
    pub closed spec fn activation(self) -> Activation<F, D> {
        self.activation
    }

    /// A network of the given topology whose weights and biases are
    /// independent draws from `[0, 1)`: for each layer transition in turn,
    /// first the weights, row by row, then the biases.
    pub fn new(layers: Vec<usize>, activation: Activation<F, D>, learning_rate: S) -> (result:
        Result<Self, NetworkError>)
        ensures
            valid_topology(sizes_of(layers)) ==> (result matches Ok(network) && {
                &&& network@.well_formed()
                &&& network@.layers == sizes_of(layers)
                &&& parameters_fit(sizes_of(layers), network@.weights, network@.bias)
                &&& network@.data.len() == 0
                &&& network@.learning_rate == learning_rate
                &&& network.activation() == activation
                &&& forall|i: int, r: int, c: int|
                    0 <= i < network@.weights.len() && 0 <= r < network@.weights[i].len() && 0
                        <= c < network@.weights[i][r].len() ==> is_unit_draw(
                        #[trigger] network@.weights[i][r][c],
                    )
                &&& forall|i: int, r: int|
                    0 <= i < network@.bias.len() && 0 <= r < network@.bias[i].len()
                        ==> is_unit_draw(#[trigger] network@.bias[i][r])
            }),
            !valid_topology(sizes_of(layers)) ==> (result matches Err(e) && e
                == NetworkError::Configuration),
    {
        if !check_topology(&layers) {
            return Err(NetworkError::Configuration);
        }
        let transitions = layers.len() - 1;
        let mut weights: Vec<Vec<Vec<S>>> = Vec::new();
        let mut bias: Vec<Vec<S>> = Vec::new();
        let mut i: usize = 0;
        while i < transitions
            invariant
                i <= transitions,
                transitions == layers.len() - 1,
                weights.len() == i,
                bias.len() == i,
                forall|k: int|
                    0 <= k < i ==> rectangular(
                        #[trigger] grids_of(weights)[k],
                        sizes_of(layers)[k + 1],
                        sizes_of(layers)[k],
                    ),
                forall|k: int|
                    0 <= k < i ==> (#[trigger] rows_of(bias)[k]).len() == sizes_of(layers)[k + 1],
                forall|k: int, r: int, c: int|
                    0 <= k < i && 0 <= r < grids_of(weights)[k].len() && 0 <= c < grids_of(
                        weights,
                    )[k][r].len() ==> is_unit_draw(#[trigger] grids_of(weights)[k][r][c]),
                forall|k: int, r: int|
                    0 <= k < i && 0 <= r < rows_of(bias)[k].len() ==> is_unit_draw(
                        #[trigger] rows_of(bias)[k][r],
                    ),
            decreases transitions - i,
        {
            let w = random_matrix::<S>(layers[i + 1], layers[i]);
            let b = random_vector::<S>(layers[i + 1]);
            let ghost grids = grids_of(weights);
            let ghost rows = rows_of(bias);
            assert(rectangular(rows_of(w), sizes_of(layers)[i + 1], sizes_of(layers)[i as int]));
            weights.push(w);
            bias.push(b);
            assert(grids_of(weights) =~= grids.push(rows_of(w)));
            assert(rows_of(bias) =~= rows.push(b@));
            i += 1;
        }
        let network = Network {
            layers,
            weights,
            bias,
            data: Vec::new(),
            activation,
            learning_rate,
        };
        Ok(network)
    }

    /// A network with the given parameters and an empty cache.
    pub fn with_parameters(
        layers: Vec<usize>,
        weights: Vec<Vec<Vec<S>>>,
        bias: Vec<Vec<S>>,
        activation: Activation<F, D>,
        learning_rate: S,
    ) -> (result: Result<Self, NetworkError>)
        ensures
            !valid_topology(sizes_of(layers)) ==> (result matches Err(e) && e
                == NetworkError::Configuration),
            valid_topology(sizes_of(layers)) && !parameters_fit(
                sizes_of(layers),
                grids_of(weights),
                rows_of(bias),
            ) ==> (result matches Err(e) && e == NetworkError::ShapeMismatch),
            valid_topology(sizes_of(layers)) && parameters_fit(
                sizes_of(layers),
                grids_of(weights),
                rows_of(bias),
            ) ==> (result matches Ok(network) && {
                &&& network@.well_formed()
                &&& network.activation() == activation
                &&& network@ == (Model {
                    layers: sizes_of(layers),
                    weights: grids_of(weights),
                    bias: rows_of(bias),
                    data: Seq::empty(),
                    learning_rate,
                })
            }),
    {
        if !check_topology(&layers) {
            return Err(NetworkError::Configuration);
        }
        if !check_parameters(&layers, &weights, &bias) {
            return Err(NetworkError::ShapeMismatch);
        }
        let network = Network {
            layers,
            weights,
            bias,
            data: Vec::new(),
            activation,
            learning_rate,
        };
        assert(network@.data =~= Seq::empty());
        Ok(network)
    }

    /// The layer sizes, input layer first.
    pub fn layers(&self) -> (layers: &Vec<usize>)
        ensures
            sizes_of(*layers) == self@.layers,
    {
        &self.layers
    }

    /// The weight matrix of every layer transition, as rows.
    pub fn weights(&self) -> (weights: &Vec<Vec<Vec<S>>>)
        ensures
            grids_of(*weights) == self@.weights,
    {
        &self.weights
    }

    /// The bias vector of every layer transition.
    pub fn bias(&self) -> (bias: &Vec<Vec<S>>)
        ensures
            rows_of(*bias) == self@.bias,
    {
        &self.bias
    }

    /// The activations that the latest forward pass left, input layer first;
    /// empty before the first forward pass.
    pub fn data(&self) -> (data: &Vec<Vec<S>>)
        ensures
            rows_of(*data) == self@.data,
    {
        &self.data
    }

    /// The step size of the gradient descent.
    pub fn learning_rate(&self) -> (rate: S)
        ensures
            rate == self@.learning_rate,
    {
        self.learning_rate
    }

    /// Whether every example of a dataset has the lengths of the input and
    /// the output layer, and every input its target.
    fn check_dataset(&self, inputs: &Vec<Vec<S>>, targets: &Vec<Vec<S>>) -> (fits: bool)
        requires
            self@.well_formed(),
        ensures
            fits == self@.trains_on(rows_of(*inputs), rows_of(*targets)),
    {
        if inputs.len() != targets.len() {
            return false;
        }
        let first = self.layers[0];
        let last = self.layers[self.layers.len() - 1];
        let mut j: usize = 0;
        while j < inputs.len()
            invariant
                j <= inputs.len(),
                inputs.len() == targets.len(),
                first == self@.layers[0],
                last == self@.layers.last(),
                forall|k: int| 0 <= k < j ==> self@.accepts(#[trigger] rows_of(*inputs)[k]),
                forall|k: int| 0 <= k < j ==> self@.emits(#[trigger] rows_of(*targets)[k]),
            decreases inputs.len() - j,
        {
            if inputs[j].len() != first {
                assert(!self@.accepts(rows_of(*inputs)[j as int]));
                return false;
            }
            if targets[j].len() != last {
                assert(!self@.emits(rows_of(*targets)[j as int]));
                return false;
            }
            j += 1;
        }
        true
    }

    /// Runs `inputs` through the network and returns the activation of the
    /// output layer. The activations of all layers are kept for the next
    /// backward pass, in place of those of the pass before.
    ///
    /// An input that has not the length of the input layer is refused, and
    /// the network stays as it was.
    pub fn feed_forward(&mut self, inputs: Vec<S>) -> (result: Result<Vec<S>, NetworkError>)
        requires
            old(self)@.well_formed(),
        ensures
            final(self)@.well_formed(),
            final(self).activation() == old(self).activation(),
            old(self)@.accepts(inputs@) ==> {
                &&& result matches Ok(output) && old(self)@.emits(output@) && output@
                    == old(self)@.prediction(old(self).activation().function, inputs@)
                &&& final(self)@ == old(self)@.after_forward(
                    old(self).activation().function,
                    inputs@,
                )
            },
            !old(self)@.accepts(inputs@) ==> {
                &&& result matches Err(e) && e == NetworkError::ShapeMismatch
                &&& final(self)@ == old(self)@
            },
    {
        if inputs.len() != self.layers[0] {
            return Err(NetworkError::ShapeMismatch);
        }
        let ghost input = inputs@;
        let ghost model = self@;
        let ghost f = self.activation.function;
        let depth = self.layers.len();
        let mut cache: Vec<Vec<S>> = Vec::new();
        let mut current = inputs;
        cache.push(copy_of(&current));
        let mut i: usize = 0;
        while i < depth - 1
            invariant
                depth == self.layers.len(),
                i <= depth - 1,
                model == self@,
                model.well_formed(),
                f == self.activation.function,
                self.activation == old(self).activation,
                cache.len() == i + 1,
                current@ == activations(model.weights, model.bias, f, input, i as nat),
                current@.len() == model.layers[i as int],
                forall|k: int|
                    0 <= k <= i ==> (#[trigger] cache@[k])@ == activations(
                        model.weights,
                        model.bias,
                        f,
                        input,
                        k as nat,
                    ),
            decreases depth - 1 - i,
        {
            assert(rectangular(
                model.weights[i as int],
                model.layers[i + 1],
                model.layers[i as int],
            ));
            assert(model.bias[i as int].len() == model.layers[i + 1]);
            let pre = affine_image(&self.weights[i], &current, &self.bias[i]);
            current = image(&self.activation.function, &pre);
            cache.push(copy_of(&current));
            i += 1;
        }
        assert(rows_of(cache) =~= model.cache(f, input));
        self.data = cache;
        Ok(current)
    }

    /// Moves every layer transition one step of gradient descent towards
    /// `targets`, from the output layer down, with `inputs` as the prediction
    /// that the latest forward pass returned.
    ///
    /// The step is refused, and the network stays as it was, before the first
    /// forward pass and where `inputs` or `targets` has not the length of the
    /// output layer.
    pub fn back_prop(&mut self, inputs: Vec<S>, targets: Vec<S>) -> (result: Result<
        (),
        NetworkError,
    >)
        requires
            old(self)@.well_formed(),
        ensures
            final(self)@.well_formed(),
            final(self).activation() == old(self).activation(),
            old(self)@.ready_for(inputs@, targets@) ==> {
                &&& result is Ok
                &&& final(self)@ == old(self)@.after_back_prop(
                    old(self).activation().derivation,
                    inputs@,
                    targets@,
                )
            },
            !old(self)@.ready_for(inputs@, targets@) ==> {
                &&& result matches Err(e) && e == NetworkError::ShapeMismatch
                &&& final(self)@ == old(self)@
            },
    {
        let depth = self.layers.len();
        let width = self.layers[depth - 1];
        if self.data.len() != depth || inputs.len() != width || targets.len() != width {
            return Err(NetworkError::ShapeMismatch);
        }
        let ghost model = self@;
        let ghost d = self.activation.derivation;
        let mut error = subtract(&targets, &inputs);
        let mut gradient = image(&self.activation.derivation, &inputs);
        let mut i: usize = depth - 1;
        while i > 0
            invariant
                depth == self.layers.len(),
                i <= depth - 1,
                model.well_formed(),
                model.data.len() == model.layers.len(),
                self@.layers == model.layers,
                self@.data == model.data,
                self@.learning_rate == model.learning_rate,
                self.activation == old(self).activation,
                d == self.activation.derivation,
                self@.well_formed(),
                error@.len() == model.layers[i as int],
                gradient@.len() == model.layers[i as int],
                (Backward {
                    weights: self@.weights,
                    bias: self@.bias,
                    error: error@,
                    gradient: gradient@,
                }) == model.backward(d, inputs@, targets@, (depth - 1 - i) as nat),
            decreases i,
        {
            let ghost before = model.backward(d, inputs@, targets@, (depth - 1 - i) as nat);
            i -= 1;
            assert(rectangular(
                self@.weights[i as int],
                model.layers[i + 1],
                model.layers[i as int],
            ));
            assert(self@.bias[i as int].len() == model.layers[i + 1]);
            assert(self@.data[i as int].len() == model.layers[i as int]);
            let delta = scale_products(&gradient, &error, self.learning_rate);
            let weights = add_outer(&self.weights[i], &delta, &self.data[i]);
            let bias = add_vectors(&self.bias[i], &delta);
            // The error goes down through the weights as they still are.
            let below = apply_transposed(&self.weights[i], &error, self.layers[i]);
            gradient = image(&self.activation.derivation, &self.data[i]);
            error = below;
            let ghost after = before.step(d, i as int, model.data[i as int], model.learning_rate);
            assert(grids_of(self.weights).update(i as int, rows_of(weights)) =~= after.weights);
            assert(rows_of(self.bias).update(i as int, bias@) =~= after.bias);
            self.weights[i] = weights;
            self.bias[i] = bias;
            assert(self@.weights =~= after.weights);
            assert(self@.bias =~= after.bias);
        }
        Ok(())
    }

    /// Trains on a dataset for `epochs` passes: in every pass each example in
    /// its given order gets a forward pass and, from its prediction, a
    /// backward pass.
    ///
    /// A dataset with an example of the wrong length, or with another number
    /// of targets than of inputs, is refused before the first step.
    pub fn train(&mut self, inputs: Vec<Vec<S>>, targets: Vec<Vec<S>>, epochs: u32) -> (result:
        Result<(), NetworkError>)
        requires
            old(self)@.well_formed(),
        ensures
            final(self)@.well_formed(),
            final(self).activation() == old(self).activation(),
            old(self)@.trains_on(rows_of(inputs), rows_of(targets)) ==> {
                &&& result is Ok
                &&& final(self)@ == old(self)@.after_epochs(
                    old(self).activation(),
                    rows_of(inputs),
                    rows_of(targets),
                    epochs as nat,
                )
            },
            !old(self)@.trains_on(rows_of(inputs), rows_of(targets)) ==> {
                &&& result matches Err(e) && e == NetworkError::ShapeMismatch
                &&& final(self)@ == old(self)@
            },
            epochs == 0 || inputs@.len() == 0 ==> final(self)@ == old(self)@,
    {
        if !self.check_dataset(&inputs, &targets) {
            return Err(NetworkError::ShapeMismatch);
        }
        let ghost model = self@;
        let ghost a = self.activation;
        let ghost xs = rows_of(inputs);
        let ghost ts = rows_of(targets);
        proof {
            training_without_work_changes_nothing(model, a, xs, ts, epochs as nat);
        }
        let mut epoch: u32 = 0;
        while epoch < epochs
            invariant
                epoch <= epochs,
                xs == rows_of(inputs),
                ts == rows_of(targets),
                model.trains_on(xs, ts),
                self@.well_formed(),
                self@.layers == model.layers,
                self.activation == a,
                self@ == model.after_epochs(a, xs, ts, epoch as nat),
            decreases epochs - epoch,
        {
            let ghost start = self@;
            let mut j: usize = 0;
            while j < inputs.len()
                invariant
                    j <= inputs.len(),
                    xs == rows_of(inputs),
                    ts == rows_of(targets),
                    model.trains_on(xs, ts),
                    self@.well_formed(),
                    self@.layers == model.layers,
                    self.activation == a,
                    self@ == start.after_examples(a, xs, ts, j as nat),
                decreases inputs.len() - j,
            {
                assert(model.accepts(xs[j as int]));
                assert(model.emits(ts[j as int]));
                let output = self.feed_forward(copy_of(&inputs[j]))?;
                self.back_prop(output, copy_of(&targets[j]))?;
                j += 1;
            }
            epoch += 1;
        }
        Ok(())
    }
}

} // verus!
