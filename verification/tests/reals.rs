use neural_net::activation::{Activation, Rectifier, RectifierSlope, ScalarFn};
use neural_net::network::{Network, NetworkError};
use neural_net::scalar::Scalar;

/// Single-precision floats as the network's scalars.
#[derive(Clone, Copy, Debug, PartialEq)]
struct Real(f32);

impl Scalar for Real {
    fn zero_value() -> Self {
        Real(0.0)
    }
    fn one_value() -> Self {
        Real(1.0)
    }
    fn sum(self, rhs: Self) -> Self {
        Real(self.0 + rhs.0)
    }
    fn difference(self, rhs: Self) -> Self {
        Real(self.0 - rhs.0)
    }
    fn product(self, rhs: Self) -> Self {
        Real(self.0 * rhs.0)
    }
    fn positive(self) -> bool {
        self.0 > 0.0
    }
    fn unit_draw(word: u32) -> Self {
        Real((word >> 8) as f32 * (1.0 / 16777216.0))
    }
    fn zero() -> Self {
        Self::zero_value()
    }
    fn one() -> Self {
        Self::one_value()
    }
    fn plus(self, rhs: Self) -> Self {
        self.sum(rhs)
    }
    fn minus(self, rhs: Self) -> Self {
        self.difference(rhs)
    }
    fn times(self, rhs: Self) -> Self {
        self.product(rhs)
    }
    fn is_positive(self) -> bool {
        self.positive()
    }
    fn from_draw(word: u32) -> Self {
        Self::unit_draw(word)
    }
}

/// The identity, with the constant slope one.
struct Identity;
struct Unit;

impl ScalarFn<Real> for Identity {
    fn value_at(&self, x: Real) -> Real {
        x
    }
    fn apply(&self, x: &Real) -> Real {
        self.value_at(*x)
    }
}

impl ScalarFn<Real> for Unit {
    fn value_at(&self, _x: Real) -> Real {
        Real(1.0)
    }
    fn apply(&self, x: &Real) -> Real {
        self.value_at(*x)
    }
}

type Net = Network<Real, Rectifier, RectifierSlope>;

fn reals(values: &[f32]) -> Vec<Real> {
    values.iter().map(|v| Real(*v)).collect()
}

fn matrix(rows: &[&[f32]]) -> Vec<Vec<Real>> {
    rows.iter().map(|r| reals(r)).collect()
}

fn floats(values: &[Real]) -> Vec<f32> {
    values.iter().map(|v| v.0).collect()
}

fn zeros(layers: &[usize]) -> Net {
    let mut weights = Vec::new();
    let mut bias = Vec::new();
    for i in 0..layers.len() - 1 {
        weights.push(vec![vec![Real(0.0); layers[i]]; layers[i + 1]]);
        bias.push(vec![Real(0.0); layers[i + 1]]);
    }
    Network::with_parameters(layers.to_vec(), weights, bias, Activation::softmax(), Real(0.01))
        .unwrap()
}

/// Two inputs, a hidden layer of two, one output.
fn small() -> Net {
    Network::with_parameters(
        vec![2, 2, 1],
        vec![matrix(&[&[1.0, 2.0], &[3.0, 4.0]]), matrix(&[&[2.0, 5.0]])],
        vec![reals(&[0.5, -10.0]), reals(&[1.0])],
        Activation::softmax(),
        Real(0.5),
    )
    .unwrap()
}

/// One input, one hidden unit, one output.
fn chain() -> Net {
    Network::with_parameters(
        vec![1, 1, 1],
        vec![matrix(&[&[2.0]]), matrix(&[&[3.0]])],
        vec![reals(&[1.0]), reals(&[0.5])],
        Activation::softmax(),
        Real(0.5),
    )
    .unwrap()
}

fn and_inputs() -> Vec<Vec<Real>> {
    vec![reals(&[0.0, 0.0]), reals(&[1.0, 0.0]), reals(&[0.0, 1.0]), reals(&[1.0, 1.0])]
}

fn and_targets() -> Vec<Vec<Real>> {
    vec![reals(&[0.0]), reals(&[0.0]), reals(&[0.0]), reals(&[1.0])]
}

#[test]
fn rectifier_passes_positive_values_only() {
    let a = Activation::softmax();
    assert_eq!(a.function.apply(&Real(2.5)), Real(2.5));
    assert_eq!(a.function.apply(&Real(0.0)), Real(0.0));
    assert_eq!(a.function.apply(&Real(-2.5)), Real(0.0));
    assert_eq!(a.function.apply(&Real(f32::NAN)), Real(0.0));
}

#[test]
fn rectifier_slope_is_one_on_positive_values_only() {
    let a = Activation::softmax();
    assert_eq!(a.derivation.apply(&Real(2.5)), Real(1.0));
    assert_eq!(a.derivation.apply(&Real(0.0)), Real(0.0));
    assert_eq!(a.derivation.apply(&Real(-0.1)), Real(0.0));
}

#[test]
fn new_gives_every_transition_its_shapes() {
    let layers = vec![2usize, 4, 4, 1];
    let net: Net = Network::new(layers.clone(), Activation::softmax(), Real(0.01)).unwrap();
    assert_eq!(net.layers(), &layers);
    assert_eq!(net.weights().len(), 3);
    assert_eq!(net.bias().len(), 3);
    for i in 0..3 {
        assert_eq!(net.weights()[i].len(), layers[i + 1]);
        for row in &net.weights()[i] {
            assert_eq!(row.len(), layers[i]);
        }
        assert_eq!(net.bias()[i].len(), layers[i + 1]);
    }
    assert!(net.data().is_empty());
    assert_eq!(net.learning_rate(), Real(0.01));
}

#[test]
fn new_draws_every_parameter_from_the_unit_interval() {
    let net: Net = Network::new(vec![3, 5, 2], Activation::softmax(), Real(0.01)).unwrap();
    let mut seen = Vec::new();
    for m in net.weights() {
        for row in m {
            seen.extend(floats(row));
        }
    }
    for b in net.bias() {
        seen.extend(floats(b));
    }
    assert_eq!(seen.len(), 3 * 5 + 5 + 5 * 2 + 2);
    for v in &seen {
        assert!(0.0 <= *v && *v < 1.0);
    }
    assert!(seen.iter().any(|v| *v != seen[0]));
}

#[test]
fn new_rejects_fewer_than_two_layers() {
    let none: Result<Net, _> = Network::new(vec![], Activation::softmax(), Real(0.01));
    assert_eq!(none.err(), Some(NetworkError::Configuration));
    let one: Result<Net, _> = Network::new(vec![3], Activation::softmax(), Real(0.01));
    assert_eq!(one.err(), Some(NetworkError::Configuration));
}

#[test]
fn new_rejects_an_empty_layer() {
    let r: Result<Net, _> = Network::new(vec![2, 0, 1], Activation::softmax(), Real(0.01));
    assert_eq!(r.err(), Some(NetworkError::Configuration));
    let r: Result<Net, _> = Network::new(vec![2, 3, 0], Activation::softmax(), Real(0.01));
    assert_eq!(r.err(), Some(NetworkError::Configuration));
}

#[test]
fn with_parameters_rejects_a_bad_topology_first() {
    let r: Result<Net, _> =
        Network::with_parameters(vec![2], vec![], vec![], Activation::softmax(), Real(0.5));
    assert_eq!(r.err(), Some(NetworkError::Configuration));
}

#[test]
fn with_parameters_rejects_misshaped_parameters() {
    let wide: Result<Net, _> = Network::with_parameters(
        vec![2, 1],
        vec![matrix(&[&[1.0, 2.0, 3.0]])],
        vec![reals(&[0.0])],
        Activation::softmax(),
        Real(0.5),
    );
    assert_eq!(wide.err(), Some(NetworkError::ShapeMismatch));
    let tall: Result<Net, _> = Network::with_parameters(
        vec![2, 1],
        vec![matrix(&[&[1.0, 2.0], &[3.0, 4.0]])],
        vec![reals(&[0.0])],
        Activation::softmax(),
        Real(0.5),
    );
    assert_eq!(tall.err(), Some(NetworkError::ShapeMismatch));
    let bias: Result<Net, _> = Network::with_parameters(
        vec![2, 1],
        vec![matrix(&[&[1.0, 2.0]])],
        vec![reals(&[0.0, 0.0])],
        Activation::softmax(),
        Real(0.5),
    );
    assert_eq!(bias.err(), Some(NetworkError::ShapeMismatch));
    let missing: Result<Net, _> = Network::with_parameters(
        vec![2, 1, 1],
        vec![matrix(&[&[1.0, 2.0]])],
        vec![reals(&[0.0])],
        Activation::softmax(),
        Real(0.5),
    );
    assert_eq!(missing.err(), Some(NetworkError::ShapeMismatch));
}

#[test]
fn feed_forward_is_weights_times_input_plus_bias_then_activation() {
    let mut net = small();
    // hidden: max(1 + 2 + 0.5, 0) = 3.5 and max(3 + 4 - 10, 0) = 0
    // output: max(2 * 3.5 + 5 * 0 + 1, 0) = 8
    let out = net.feed_forward(reals(&[1.0, 1.0])).unwrap();
    assert_eq!(floats(&out), vec![8.0]);
    let out = net.feed_forward(reals(&[0.0, 3.0])).unwrap();
    // hidden: 6.5 and 2; output: 13 + 10 + 1
    assert_eq!(floats(&out), vec![24.0]);
}

#[test]
fn feed_forward_caches_the_activation_of_every_layer() {
    let mut net = small();
    net.feed_forward(reals(&[1.0, 1.0])).unwrap();
    let data: Vec<Vec<f32>> = net.data().iter().map(|v| floats(v)).collect();
    assert_eq!(data, vec![vec![1.0, 1.0], vec![3.5, 0.0], vec![8.0]]);
    net.feed_forward(reals(&[0.0, 3.0])).unwrap();
    let data: Vec<Vec<f32>> = net.data().iter().map(|v| floats(v)).collect();
    assert_eq!(data, vec![vec![0.0, 3.0], vec![6.5, 2.0], vec![24.0]]);
}

#[test]
fn feed_forward_leaves_the_parameters_alone() {
    let mut net = small();
    let weights = net.weights().clone();
    let bias = net.bias().clone();
    net.feed_forward(reals(&[1.0, 1.0])).unwrap();
    assert_eq!(net.weights(), &weights);
    assert_eq!(net.bias(), &bias);
}

#[test]
fn zero_network_answers_every_input_with_zeros() {
    let mut net = zeros(&[3, 4, 2]);
    for input in [[0.0, 0.0, 0.0], [1.0, -2.0, 3.5], [-1e30, 1e30, 7.0]] {
        let out = net.feed_forward(reals(&input)).unwrap();
        assert_eq!(floats(&out), vec![0.0, 0.0]);
    }
}

#[test]
fn feed_forward_twice_gives_the_same_bits() {
    let mut net: Net = Network::new(vec![2, 4, 4, 1], Activation::softmax(), Real(0.01)).unwrap();
    let first = net.feed_forward(reals(&[0.25, 0.75])).unwrap();
    let cache = net.data().clone();
    let second = net.feed_forward(reals(&[0.25, 0.75])).unwrap();
    assert_eq!(first.len(), 1);
    assert_eq!(first[0].0.to_bits(), second[0].0.to_bits());
    assert_eq!(net.data(), &cache);
}

#[test]
fn training_on_and_reduces_the_error_of_the_positive_example() {
    let mut net: Net = Network::new(vec![2, 4, 4, 1], Activation::softmax(), Real(0.01)).unwrap();
    let before = net.feed_forward(reals(&[1.0, 1.0])).unwrap()[0].0;
    net.train(and_inputs(), and_targets(), 3000).unwrap();
    let after = net.feed_forward(reals(&[1.0, 1.0])).unwrap()[0].0;
    assert!((after - 1.0) * (after - 1.0) < (before - 1.0) * (before - 1.0));
}

#[test]
fn feed_forward_rejects_an_input_of_the_wrong_length() {
    let mut net = small();
    net.feed_forward(reals(&[1.0, 1.0])).unwrap();
    let cache = net.data().clone();
    assert_eq!(net.feed_forward(reals(&[1.0])).err(), Some(NetworkError::ShapeMismatch));
    assert_eq!(
        net.feed_forward(reals(&[1.0, 1.0, 1.0])).err(),
        Some(NetworkError::ShapeMismatch)
    );
    assert_eq!(net.feed_forward(reals(&[])).err(), Some(NetworkError::ShapeMismatch));
    assert_eq!(net.data(), &cache);
}

#[test]
fn back_prop_before_any_feed_forward_is_rejected() {
    let mut net = small();
    let weights = net.weights().clone();
    let bias = net.bias().clone();
    assert_eq!(
        net.back_prop(reals(&[8.0]), reals(&[1.0])),
        Err(NetworkError::ShapeMismatch)
    );
    assert_eq!(net.weights(), &weights);
    assert_eq!(net.bias(), &bias);
    let mut fresh: Net = Network::new(vec![2, 3, 1], Activation::softmax(), Real(0.01)).unwrap();
    assert_eq!(
        fresh.back_prop(reals(&[0.0]), reals(&[1.0])),
        Err(NetworkError::ShapeMismatch)
    );
}

#[test]
fn back_prop_rejects_vectors_that_are_not_output_shaped() {
    let mut net = small();
    let out = net.feed_forward(reals(&[1.0, 1.0])).unwrap();
    let weights = net.weights().clone();
    let bias = net.bias().clone();
    assert_eq!(
        net.back_prop(out.clone(), reals(&[1.0, 0.0])),
        Err(NetworkError::ShapeMismatch)
    );
    assert_eq!(net.back_prop(out.clone(), reals(&[])), Err(NetworkError::ShapeMismatch));
    assert_eq!(
        net.back_prop(reals(&[1.0, 2.0]), reals(&[1.0])),
        Err(NetworkError::ShapeMismatch)
    );
    assert_eq!(net.weights(), &weights);
    assert_eq!(net.bias(), &bias);
    assert_eq!(net.back_prop(out, reals(&[1.0])), Ok(()));
}

#[test]
fn back_prop_propagates_the_error_through_the_weights_before_their_update() {
    let mut net = chain();
    // hidden 2 * 1 + 1 = 3, output 3 * 3 + 0.5 = 9.5
    let out = net.feed_forward(reals(&[1.0])).unwrap();
    assert_eq!(floats(&out), vec![9.5]);
    net.back_prop(out, reals(&[10.5])).unwrap();
    // upper transition: error 1, slope 1, delta (1 * 1) * 0.5 = 0.5
    assert_eq!(floats(&net.weights()[1][0]), vec![3.0 + 0.5 * 3.0]);
    assert_eq!(floats(&net.bias()[1]), vec![0.5 + 0.5]);
    // lower transition: error 3 * 1 through the old weight, delta (1 * 3) * 0.5 = 1.5
    assert_eq!(floats(&net.weights()[0][0]), vec![2.0 + 1.5 * 1.0]);
    assert_eq!(floats(&net.bias()[0]), vec![1.0 + 1.5]);
    // the cache is as the forward pass left it
    let data: Vec<Vec<f32>> = net.data().iter().map(|v| floats(v)).collect();
    assert_eq!(data, vec![vec![1.0], vec![3.0], vec![9.5]]);
}

#[test]
fn back_prop_updates_a_matrix_by_the_outer_product() {
    let mut net = small();
    let out = net.feed_forward(reals(&[1.0, 1.0])).unwrap();
    assert_eq!(floats(&out), vec![8.0]);
    net.back_prop(out, reals(&[10.0])).unwrap();
    // upper transition: error 2, slope 1, delta 1; fed by (3.5, 0)
    assert_eq!(floats(&net.weights()[1][0]), vec![2.0 + 3.5, 5.0 + 0.0]);
    assert_eq!(floats(&net.bias()[1]), vec![2.0]);
    // lower transition: error (2 * 2, 5 * 2), slopes (1, 0), delta (2, 0); fed by (1, 1)
    assert_eq!(floats(&net.weights()[0][0]), vec![3.0, 4.0]);
    assert_eq!(floats(&net.weights()[0][1]), vec![3.0, 4.0]);
    assert_eq!(floats(&net.bias()[0]), vec![2.5, -10.0]);
}

#[test]
fn back_prop_takes_the_slope_at_the_prediction_it_is_given() {
    let mut net = chain();
    net.feed_forward(reals(&[1.0])).unwrap();
    // a prediction of zero has slope zero: the upper transition stays, the lower one moves
    net.back_prop(reals(&[0.0]), reals(&[2.0])).unwrap();
    assert_eq!(floats(&net.weights()[1][0]), vec![3.0]);
    assert_eq!(floats(&net.bias()[1]), vec![0.5]);
    // error below: 3 * 2 = 6, slope at 3 is 1, delta 3
    assert_eq!(floats(&net.weights()[0][0]), vec![5.0]);
    assert_eq!(floats(&net.bias()[0]), vec![4.0]);
}

#[test]
fn train_with_zero_epochs_changes_nothing() {
    let mut net = small();
    let weights = net.weights().clone();
    let bias = net.bias().clone();
    assert_eq!(net.train(and_inputs(), and_targets(), 0), Ok(()));
    assert_eq!(net.weights(), &weights);
    assert_eq!(net.bias(), &bias);
    assert!(net.data().is_empty());
}

#[test]
fn train_on_an_empty_dataset_changes_nothing() {
    let mut net = small();
    net.feed_forward(reals(&[1.0, 1.0])).unwrap();
    let weights = net.weights().clone();
    let bias = net.bias().clone();
    let cache = net.data().clone();
    assert_eq!(net.train(vec![], vec![], 3000), Ok(()));
    assert_eq!(net.weights(), &weights);
    assert_eq!(net.bias(), &bias);
    assert_eq!(net.data(), &cache);
}

#[test]
fn train_rejects_a_dataset_that_does_not_fit() {
    let mut net = small();
    let weights = net.weights().clone();
    let bias = net.bias().clone();
    let mut short = and_targets();
    short.pop();
    assert_eq!(net.train(and_inputs(), short, 5), Err(NetworkError::ShapeMismatch));
    let mut long = and_targets();
    long.push(reals(&[0.0]));
    assert_eq!(net.train(and_inputs(), long, 5), Err(NetworkError::ShapeMismatch));
    let mut inputs = and_inputs();
    inputs[3] = reals(&[1.0, 1.0, 1.0]);
    assert_eq!(net.train(inputs, and_targets(), 5), Err(NetworkError::ShapeMismatch));
    let mut targets = and_targets();
    targets[3] = reals(&[1.0, 0.0]);
    assert_eq!(net.train(and_inputs(), targets, 5), Err(NetworkError::ShapeMismatch));
    assert_eq!(net.weights(), &weights);
    assert_eq!(net.bias(), &bias);
    assert!(net.data().is_empty());
}

#[test]
fn train_is_a_forward_and_a_backward_pass_for_each_example_in_order() {
    let mut trained = small();
    trained.train(and_inputs(), and_targets(), 2).unwrap();
    let mut stepped = small();
    for _ in 0..2 {
        for (x, t) in and_inputs().into_iter().zip(and_targets()) {
            let out = stepped.feed_forward(x).unwrap();
            stepped.back_prop(out, t).unwrap();
        }
    }
    assert_eq!(trained.weights(), stepped.weights());
    assert_eq!(trained.bias(), stepped.bias());
    assert_eq!(trained.data(), stepped.data());
}

#[test]
fn training_in_two_runs_is_training_in_one() {
    let mut once = small();
    once.train(and_inputs(), and_targets(), 7).unwrap();
    let mut twice = small();
    twice.train(and_inputs(), and_targets(), 3).unwrap();
    twice.train(and_inputs(), and_targets(), 4).unwrap();
    assert_eq!(once.weights(), twice.weights());
    assert_eq!(once.bias(), twice.bias());
}

#[test]
fn a_network_takes_any_pair_of_functions() {
    let mut net = Network::with_parameters(
        vec![1, 1],
        vec![matrix(&[&[-2.0]])],
        vec![reals(&[0.5])],
        Activation { function: Identity, derivation: Unit },
        Real(0.25),
    )
    .unwrap();
    let out = net.feed_forward(reals(&[3.0])).unwrap();
    assert_eq!(floats(&out), vec![-5.5]);
    net.back_prop(out, reals(&[-1.5])).unwrap();
    // error 4, slope 1, delta 1
    assert_eq!(floats(&net.weights()[0][0]), vec![1.0]);
    assert_eq!(floats(&net.bias()[0]), vec![1.5]);
}
