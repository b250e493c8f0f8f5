//! The network: an ordered, owned sequence of layers, with the forward
//! pass, the backward pass in reverse order, the optimizer invocation, and
//! the epoch loop with metric-driven early stopping.

use vstd::prelude::*;

use crate::cost::Cost;
use crate::encoder::Encoder;
use crate::layer::Layer;
use crate::matrix::Matrix;
use crate::metric::Metric;
use crate::optimizer::{layers_ready, optimize, Optimizer};
use crate::rng::{shuffle_indices, DRAW_DENOM};
use crate::activation::Activation;
use crate::scalar::Scalar;

verus! {

/// A multilayer perceptron: each layer feeds the next one in the list.
pub struct Perceptron<T> {
    /// Input, hidden and output layers, in forward order.
    pub layers: Vec<Layer<T>>,
}

/// The two layer sequences have the same length and configuration: only
/// weights, biases and recorded per-step state may differ.
pub open spec fn same_structure<T>(a: Seq<Layer<T>>, b: Seq<Layer<T>>) -> bool {
    &&& a.len() == b.len()
    &&& forall|i: int| 0 <= i < a.len() ==> (#[trigger] b[i]).same_config(&a[i])
}

/// A shuffled copy of the identity index sequence is a permutation: same
/// length, every entry in range.
proof fn lemma_permutation_indices(pre: Seq<usize>, post: Seq<usize>, n: int)
    requires
        pre.len() == n,
        forall|p: int| 0 <= p < n ==> #[trigger] pre[p] == p,
        post.to_multiset() == pre.to_multiset(),
    ensures
        post.len() == n,
        forall|p: int| 0 <= p < post.len() ==> #[trigger] post[p] < n,
{
    broadcast use vstd::seq_lib::group_to_multiset_ensures;

    assert(post.len() == post.to_multiset().len());
    assert(pre.len() == pre.to_multiset().len());
    assert forall|p: int| 0 <= p < post.len() implies #[trigger] post[p] < n by {
        assert(post.contains(post[p]));
        assert(post.to_multiset().count(post[p]) > 0);
        assert(pre.contains(post[p]));
        let q = choose|q: int| 0 <= q < pre.len() && pre[q] == post[p];
        assert(pre[q] == q);
    }
}

/// Shuffles a training split: one freshly drawn permutation of the example
/// indices is applied identically to the input columns and to the output
/// rows, so every example stays paired with its own label.
pub fn shuffle_examples<T: Copy>(inputs: &Matrix<T>, outputs: &Matrix<T>) -> (r: (
    Matrix<T>,
    Matrix<T>,
))
    requires
        inputs.wf(),
        outputs.wf(),
        outputs.rows == inputs.cols,
    ensures
        r.0.wf(),
        r.0.rows == inputs.rows,
        r.0.cols == inputs.cols,
        r.1.wf(),
        r.1.rows == outputs.rows,
        r.1.cols == outputs.cols,
        exists|idx: Seq<usize>|
            {
                &&& idx.len() == inputs.cols
                &&& (forall|c: int| 0 <= c < idx.len() ==> #[trigger] idx[c] < inputs.cols)
                &&& idx.to_multiset() == Seq::new(
                    inputs.cols as nat,
                    |c: int| c as usize,
                ).to_multiset()
                &&& (forall|i: int, c: int|
                    0 <= i < inputs.rows && 0 <= c < inputs.cols ==> #[trigger] r.0@[i][c]
                        == inputs@[i][idx[c] as int])
                &&& (forall|e: int|
                    0 <= e < outputs.rows ==> #[trigger] r.1@[e] == outputs@[idx[e] as int])
            },
{
    let n: usize = inputs.cols;
    let mut indices: Vec<usize> = Vec::new();
    let mut k: usize = 0;
    while k < n
        invariant
            k <= n,
            indices@.len() == k,
            forall|p: int| 0 <= p < k ==> #[trigger] indices@[p] == p,
        decreases n - k,
    {
        indices.push(k);
        k = k + 1;
    }
    let ghost pre = indices@;
    shuffle_indices(&mut indices);
    proof {
        lemma_permutation_indices(pre, indices@, n as int);
        assert(pre =~= Seq::new(n as nat, |c: int| c as usize));
    }
    let shuffled_inputs: Matrix<T> = inputs.permute_cols(&indices);
    let shuffled_outputs: Matrix<T> = outputs.permute_rows(&indices);
    let ghost idx = indices@;
    let r = (shuffled_inputs, shuffled_outputs);
    proof {
        assert(idx.len() == inputs.cols && (forall|c: int|
            0 <= c < idx.len() ==> #[trigger] idx[c] < inputs.cols) && idx.to_multiset()
            == Seq::new(inputs.cols as nat, |c: int| c as usize).to_multiset() && (forall|
            i: int,
            c: int,
        |
            0 <= i < inputs.rows && 0 <= c < inputs.cols ==> #[trigger] r.0@[i][c] == inputs@[i][idx[c] as int]) && (forall|e: int|
            0 <= e < outputs.rows ==> #[trigger] r.1@[e] == outputs@[idx[e] as int]));
    }
    r
}

impl<T> Perceptron<T> {
    /// Shape discipline across the network: every layer is well-formed and
    /// each layer's input width is the previous layer's neuron count.
    pub open spec fn wf(&self) -> bool {
        &&& forall|i: int| 0 <= i < self.layers@.len() ==> (#[trigger] self.layers@[i]).wf()
        &&& forall|i: int, j: int|
            #![trigger self.layers@[i], self.layers@[j]]
            0 <= i < j < self.layers@.len() && j == i + 1 ==> self.layers@[j].in_width
                == self.layers@[i].neurons
    }

    /// The feature width the network consumes.
    pub open spec fn spec_in_width(&self) -> int {
        self.layers@[0].in_width as int
    }

    /// The output width the network produces.
    pub open spec fn spec_out_width(&self) -> int {
        self.layers@[self.layers@.len() - 1].neurons as int
    }
}

/// Layer shape invariant: in a well-formed network, every layer's weight
/// matrix has one row per neuron and one column per input, and each
/// hidden or output layer's column count equals the neuron count of the
/// layer before it.
pub proof fn lemma_layer_shapes<T>(p: &Perceptron<T>)
    requires
        p.wf(),
    ensures
        forall|i: int|
            0 <= i < p.layers@.len() ==> {
                &&& (#[trigger] p.layers@[i]).weights.rows == p.layers@[i].neurons
                &&& p.layers@[i].weights.cols == p.layers@[i].in_width
                &&& i > 0 ==> p.layers@[i].weights.cols == p.layers@[i - 1].neurons
            },
{
}

impl<T: Scalar> Perceptron<T> {
    /// An empty network; layers are added one at a time.
    pub fn new() -> (r: Perceptron<T>)
        ensures
            r.wf(),
            r.layers@.len() == 0,
    {
        Perceptron { layers: Vec::new() }
    }

    /// Adds the first layer, whose input width is declared by the caller.
    fn add_input_layer(
        &mut self,
        neurons: usize,
        in_width: usize,
        activation_fn: Activation,
        dropout: Option<u64>,
    )
        requires
            old(self).layers@.len() == 0,
            match dropout {
                Some(rate) => rate <= DRAW_DENOM,
                None => true,
            },
        ensures
            final(self).wf(),
            final(self).layers@.len() == 1,
            final(self).layers@[0].neurons == neurons,
            final(self).layers@[0].in_width == in_width,
            final(self).layers@[0].activation_fn == activation_fn,
            final(self).layers@[0].dropout == dropout,
            final(self).layers@[0].inputs is None,
            final(self).layers@[0].deltas is None,
    {
        self.layers.push(Layer::new(neurons, in_width, activation_fn, dropout));
    }

    /// Adds a later layer; its input width is the previous layer's neuron
    /// count.
    fn add_hidden_layer(&mut self, neurons: usize, activation_fn: Activation, dropout: Option<u64>)
        requires
            old(self).wf(),
            old(self).layers@.len() > 0,
            match dropout {
                Some(rate) => rate <= DRAW_DENOM,
                None => true,
            },
        ensures
            final(self).wf(),
            final(self).layers@.len() == old(self).layers@.len() + 1,
            forall|i: int|
                0 <= i < old(self).layers@.len()
                    ==> #[trigger] final(self).layers@[i] == old(self).layers@[i],
            final(self).layers@.last().neurons == neurons,
            final(self).layers@.last().in_width == old(self).layers@.last().neurons,
            final(self).layers@.last().activation_fn == activation_fn,
            final(self).layers@.last().dropout == dropout,
            final(self).layers@.last().inputs is None,
            final(self).layers@.last().deltas is None,
    {
        let prev_neurons: usize = self.layers[self.layers.len() - 1].neurons;
        self.layers.push(Layer::new(neurons, prev_neurons, activation_fn, dropout));
    }

    /// Adds a layer to the next open spot of the network. The first layer
    /// declares its input width; every later layer infers it from the layer
    /// before it, which keeps the chain of widths intact.
    pub fn add_layer(
        &mut self,
        neurons: usize,
        input_shape: Option<usize>,
        activation_fn: Activation,
        dropout: Option<u64>,
    )
        requires
            old(self).wf(),
            match input_shape {
                Some(_) => old(self).layers@.len() == 0,
                None => old(self).layers@.len() > 0,
            },
            match dropout {
                Some(rate) => rate <= DRAW_DENOM,
                None => true,
            },
        ensures
            final(self).wf(),
            final(self).layers@.len() == old(self).layers@.len() + 1,
            forall|i: int|
                0 <= i < old(self).layers@.len()
                    ==> #[trigger] final(self).layers@[i] == old(self).layers@[i],
            final(self).layers@.last().neurons == neurons,
            final(self).layers@.last().in_width == match input_shape {
                Some(w) => w as int,
                None => old(self).layers@.last().neurons as int,
            },
            final(self).layers@.last().weights.rows == neurons,
            final(self).layers@.last().weights.cols == final(self).layers@.last().in_width,
            final(self).layers@.last().activation_fn == activation_fn,
            final(self).layers@.last().dropout == dropout,
            final(self).layers@.last().inputs is None,
            final(self).layers@.last().deltas is None,
    {
        match input_shape {
            Some(in_width) => self.add_input_layer(neurons, in_width, activation_fn, dropout),
            None => self.add_hidden_layer(neurons, activation_fn, dropout),
        }
    }

    /// The forward pass: feeds the batch through every layer in order,
    /// recording each layer's per-step state, and returns the network
    /// output — one column per example.
    pub fn feed_forward(&mut self, inputs: &Matrix<T>) -> (r: Matrix<T>)
        requires
            old(self).wf(),
            old(self).layers@.len() >= 1,
            inputs.wf(),
            inputs.rows == old(self).spec_in_width(),
        ensures
            final(self).wf(),
            same_structure(old(self).layers@, final(self).layers@),
            r.wf(),
            r.rows == final(self).spec_out_width(),
            r.cols == inputs.cols,
            forall|i: int|
                0 <= i < final(self).layers@.len() ==> (#[trigger] final(self).layers@[i]).forwarded(
                    inputs.cols as int,
                ),
    {
        let mut output: Matrix<T> = inputs.duplicate();
        let mut i: usize = 0;
        let len: usize = self.layers.len();
        while i < len
            invariant
                self.wf(),
                len == self.layers@.len(),
                len == old(self).layers@.len(),
                len >= 1,
                same_structure(old(self).layers@, self.layers@),
                i <= len,
                output.wf(),
                output.cols == inputs.cols,
                output.rows == if i < len {
                    self.layers@[i as int].in_width as int
                } else {
                    self.layers@[len - 1].neurons as int
                },
                forall|p: int|
                    0 <= p < i ==> (#[trigger] self.layers@[p]).forwarded(inputs.cols as int),
            decreases len - i,
        {
            let ghost layers_before = self.layers@;
            let mut layer: Layer<T> = self.layers.remove(i);
            output = layer.feed_forward(&output);
            self.layers.insert(i, layer);
            proof {
                assert(self.layers@ =~= layers_before.update(i as int, self.layers@[i as int]));
                assert(i + 1 < len ==> self.layers@[i as int + 1].in_width == self.layers@[
                    i as int].neurons);
            }
            i = i + 1;
        }
        output
    }

    /// The backward pass: computes every layer's delta in reverse order.
    /// The output layer consumes the cost gradient directly; every other
    /// layer consumes its successor's weights and delta. Every layer must
    /// carry forward state recorded over the same example columns.
    pub fn back_prop(&mut self, deltas: &Matrix<T>)
        requires
            old(self).wf(),
            old(self).layers@.len() >= 1,
            deltas.wf(),
            deltas.rows == old(self).spec_out_width(),
            forall|i: int|
                0 <= i < old(self).layers@.len() ==> (#[trigger] old(self).layers@[i]).forwarded(
                    deltas.cols as int,
                ),
            forall|i: int|
                0 <= i < old(self).layers@.len() ==> ((#[trigger] old(
                    self,
                ).layers@[i]).activation_fn is Softmax ==> old(self).layers@[i].neurons
                    >= deltas.cols),
        ensures
            final(self).wf(),
            same_structure(old(self).layers@, final(self).layers@),
            layers_ready(final(self).layers@),
            forall|i: int|
                0 <= i < final(self).layers@.len() ==> (#[trigger] final(self).layers@[i]).backed(
                    deltas.cols as int,
                ),
            forall|i: int|
                0 <= i < final(self).layers@.len() ==> (#[trigger] final(self).layers@[i]).weights
                    == old(self).layers@[i].weights && final(self).layers@[i].biases == old(
                    self,
                ).layers@[i].biases,
    {
        let len: usize = self.layers.len();
        let mut i: usize = len;
        while i > 0
            invariant
                self.wf(),
                len == self.layers@.len(),
                len == old(self).layers@.len(),
                len >= 1,
                i <= len,
                deltas.wf(),
                deltas.rows == old(self).spec_out_width(),
                forall|p: int| 0 <= p < i ==> #[trigger] self.layers@[p] == old(self).layers@[p],
                forall|p: int|
                    i <= p < len ==> {
                        &&& (#[trigger] self.layers@[p]).same_config(&old(self).layers@[p])
                        &&& self.layers@[p].weights == old(self).layers@[p].weights
                        &&& self.layers@[p].biases == old(self).layers@[p].biases
                        &&& self.layers@[p].inputs == old(self).layers@[p].inputs
                        &&& self.layers@[p].activations == old(self).layers@[p].activations
                        &&& self.layers@[p].backed(deltas.cols as int)
                    },
                forall|p: int|
                    0 <= p < len ==> (#[trigger] old(self).layers@[p]).forwarded(
                        deltas.cols as int,
                    ),
                forall|p: int|
                    0 <= p < len ==> ((#[trigger] old(self).layers@[p]).activation_fn is Softmax
                        ==> old(self).layers@[p].neurons >= deltas.cols),
            decreases i,
        {
            i = i - 1;
            let ghost layers_before = self.layers@;
            let mut layer: Layer<T> = self.layers.remove(i);
            if i + 1 == len {
                layer.back_prop_with_deltas(deltas);
            } else {
                layer.back_prop(&self.layers[i]);
            }
            self.layers.insert(i, layer);
            proof {
                assert(self.layers@ =~= layers_before.update(i as int, self.layers@[i as int]));
            }
        }
    }

    /// The network's prediction for a batch, decoded into label space.
    /// Runs without dropout and records nothing: meant for inference and
    /// for the per-epoch validation check.
    pub fn predict(&self, inputs: &Matrix<T>, encoder: &Encoder<T>) -> (r: Matrix<T>)
        requires
            self.wf(),
            self.layers@.len() >= 1,
            inputs.wf(),
            inputs.rows == self.spec_in_width(),
            self.spec_out_width() >= 1,
        ensures
            r.wf(),
            r.rows == inputs.cols,
            r.cols == 1,
    {
        let mut output: Matrix<T> = inputs.duplicate();
        let mut i: usize = 0;
        let len: usize = self.layers.len();
        while i < len
            invariant
                self.wf(),
                len == self.layers@.len(),
                len >= 1,
                i <= len,
                output.wf(),
                output.cols == inputs.cols,
                output.rows == if i < len {
                    self.layers@[i as int].in_width as int
                } else {
                    self.layers@[len - 1].neurons as int
                },
            decreases len - i,
        {
            output = self.layers[i].predict(&output);
            proof {
                assert(i + 1 < len ==> self.layers@[i as int + 1].in_width == self.layers@[
                    i as int].neurons);
            }
            i = i + 1;
        }
        encoder.decode(&output)
    }

    /// Trains the network for at most `epochs` cycles, stopping early as
    /// soon as the metric accepts the network's prediction on the
    /// validation set. Per epoch: optionally shuffle the training examples
    /// (the same permutation applied to inputs and outputs), optionally
    /// slice the next minibatch window (advancing and wrapping its start),
    /// encode the outputs, check the metric, and otherwise run one
    /// forward pass, one cost gradient, one backward pass and one
    /// optimizer update over the window's example count.
    ///
    /// Returns the epoch the metric first passed on, the epoch ceiling if
    /// it never passed, or `None` if a training label cannot be encoded.
    #[verifier::loop_isolation(false)]
    pub fn fit(
        &mut self,
        training_set: &(Matrix<T>, Matrix<T>),
        validation_set: &(Matrix<T>, Matrix<T>),
        optimizer: &mut Optimizer<T>,
        metric: &Metric,
        cost: &Cost,
        encoder: &Encoder<T>,
        epochs: usize,
        shuffle: bool,
        batch_size: Option<usize>,
    ) -> (last_epoch: Option<usize>)
        requires
            old(self).wf(),
            old(self).layers@.len() >= 1,
            training_set.0.wf(),
            training_set.1.wf(),
            training_set.0.rows == old(self).spec_in_width(),
            training_set.0.cols >= 1,
            training_set.1.rows == training_set.0.cols,
            training_set.1.cols >= 1,
            validation_set.0.wf(),
            validation_set.1.wf(),
            validation_set.0.rows == old(self).spec_in_width(),
            validation_set.1.rows == validation_set.0.cols,
            validation_set.1.cols == 1,
            metric.wf(),
            encoder.wf(),
            old(self).spec_out_width() == encoder.spec_width(),
            old(optimizer).compat(old(self).layers@),
            old(optimizer).headroom(epochs as int),
            epochs < usize::MAX,
            match batch_size {
                Some(b) => b >= 1 && b <= usize::MAX - training_set.0.cols,
                None => true,
            },
            forall|i: int|
                0 <= i < old(self).layers@.len() ==> ((#[trigger] old(
                    self,
                ).layers@[i]).activation_fn is Softmax ==> old(self).layers@[i].neurons
                    >= training_set.0.cols),
        ensures
            final(self).wf(),
            same_structure(old(self).layers@, final(self).layers@),
            final(optimizer).compat(final(self).layers@),
            final(optimizer).is_adaptive() <==> old(optimizer).is_adaptive(),
            final(optimizer).steps() <= old(optimizer).steps() + epochs,
            epochs == 0 ==> last_epoch == Some(0usize),
            match last_epoch {
                Some(e) => e <= epochs && (epochs >= 1 ==> 1 <= e),
                None => true,
            },
            old(optimizer).is_adaptive() ==> match last_epoch {
                Some(e) => {
                    &&& old(optimizer).steps() + e - 1 <= final(optimizer).steps()
                    &&& final(optimizer).steps() <= old(optimizer).steps() + e
                    &&& (e < epochs ==> final(optimizer).steps() == old(optimizer).steps() + e
                        - 1)
                },
                None => true,
            },
    {
        let mut last_epoch: usize = epochs;
        let input_cols: usize = training_set.0.cols;
        let mut full_inputs: Matrix<T> = training_set.0.duplicate();
        let mut full_outputs: Matrix<T> = training_set.1.duplicate();
        let mut batch_start: usize = 0;
        let mut epoch: usize = 1;
        let mut done: bool = false;
        while epoch <= epochs && !done
            invariant
                self.wf(),
                self.layers@.len() == old(self).layers@.len(),
                same_structure(old(self).layers@, self.layers@),
                optimizer.compat(self.layers@),
                optimizer.is_adaptive() <==> old(optimizer).is_adaptive(),
                optimizer.headroom(epochs + 1 - epoch),
                old(optimizer).is_adaptive() ==> optimizer.steps() == old(optimizer).steps()
                    + epoch - 1,
                optimizer.steps() <= old(optimizer).steps() + epoch - 1,
                done ==> last_epoch == epoch,
                !done ==> last_epoch == epochs,
                full_inputs.wf(),
                full_inputs.rows == old(self).spec_in_width(),
                full_inputs.cols == input_cols,
                full_outputs.wf(),
                full_outputs.rows == input_cols,
                full_outputs.cols == training_set.1.cols,
                batch_start < input_cols,
                1 <= epoch <= epochs + 1,
                last_epoch <= epochs,
            decreases epochs + 1 - epoch + (if done {
                0int
            } else {
                1int
            }),
        {
            if shuffle {
                let shuffled = shuffle_examples(&full_inputs, &full_outputs);
                full_inputs = shuffled.0;
                full_outputs = shuffled.1;
            }
            let (batch_inputs, batch_outputs): (Matrix<T>, Matrix<T>) = match batch_size {
                Some(bs) => {
                    let end: usize = if batch_start + bs < input_cols {
                        batch_start + bs
                    } else {
                        input_cols
                    };
                    let bi: Matrix<T> = full_inputs.slice_cols(batch_start, end);
                    let bo: Matrix<T> = full_outputs.slice_rows(batch_start, end);
                    batch_start = batch_start + bs;
                    if batch_start >= input_cols {
                        batch_start = 0;
                    }
                    (bi, bo)
                },
                None => (full_inputs.duplicate(), full_outputs.duplicate()),
            };
            let expected: Matrix<T> = match encoder.encode(&batch_outputs) {
                Some(m) => m.transpose(),
                None => {
                    return None;
                },
            };
            let prediction: Matrix<T> = self.predict(&validation_set.0, encoder);
            let early_stop: bool = metric.check(&prediction, &validation_set.1);
            if early_stop {
                last_epoch = epoch;
                done = true;
            } else {
                let actual: Matrix<T> = self.feed_forward(&batch_inputs);
                let delta: Matrix<T> = cost.prime(&actual, &expected);
                self.back_prop(&delta);
                optimize(optimizer, &mut self.layers, batch_inputs.cols);
                epoch = epoch + 1;
            }
        }
        Some(last_epoch)
    }
}

} // verus!
