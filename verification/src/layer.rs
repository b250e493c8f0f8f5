//! A single layer of the network: weights, biases, and the per-step
//! transient state (inputs, pre-activations, deltas, dropout mask) that the
//! forward and backward passes record.
//!
//! The contracts make the forward-then-backward ordering explicit: the
//! backward pass demands the forward state recorded with the same number of
//! example columns, and the dropout mask provably blocks both the masked
//! output rows and their gradient.

use vstd::prelude::*;

use crate::activation::Activation;
use crate::matrix::Matrix;
use crate::rng::{random_draw, DRAW_DENOM};
use crate::scalar::Scalar;

verus! {

/// One layer: `neurons` outputs fed by `in_width` inputs.
pub struct Layer<T> {
    /// Number of neurons; the layer's output width.
    pub neurons: usize,
    /// The layer's input width: the previous layer's neuron count, or the
    /// feature width for the first layer.
    pub in_width: usize,
    /// Weight matrix, `neurons` by `in_width`.
    pub weights: Matrix<T>,
    /// Bias column, `neurons` by `1`, broadcast over examples.
    pub biases: Matrix<T>,
    /// Input batch recorded by the most recent forward pass.
    pub inputs: Option<Matrix<T>>,
    /// Pre-activation batch recorded by the most recent forward pass.
    pub activations: Option<Matrix<T>>,
    /// Delta batch computed by the most recent backward pass.
    pub deltas: Option<Matrix<T>>,
    /// The layer's activation function.
    pub activation_fn: Activation,
    /// Dropout rate as a fraction of [`DRAW_DENOM`]; `None` disables
    /// dropout entirely.
    pub dropout: Option<u64>,
    /// Row indices dropped in the most recent forward pass.
    pub dropped_neurons: Vec<usize>,
    /// The carrier value masked rows are overwritten with.
    pub zero: T,
}

impl<T> Layer<T> {
    /// Shape discipline: the weight matrix is `neurons` by `in_width`, the
    /// bias column matches, recorded state matches the layer's widths, the
    /// dropout mask only names real rows, and the rate is a fraction.
    pub open spec fn wf(&self) -> bool {
        &&& self.weights.wf()
        &&& self.weights.rows == self.neurons
        &&& self.weights.cols == self.in_width
        &&& self.biases.wf()
        &&& self.biases.rows == self.neurons
        &&& self.biases.cols == 1
        &&& match self.inputs {
            Some(m) => m.wf() && m.rows == self.in_width,
            None => true,
        }
        &&& match self.activations {
            Some(m) => m.wf() && m.rows == self.neurons,
            None => true,
        }
        &&& match self.deltas {
            Some(m) => m.wf() && m.rows == self.neurons,
            None => true,
        }
        &&& forall|k: int|
            0 <= k < self.dropped_neurons@.len()
                ==> #[trigger] self.dropped_neurons@[k] < self.neurons
        &&& match self.dropout {
            Some(rate) => rate <= DRAW_DENOM,
            None => true,
        }
    }

    /// Row `i` was dropped in the most recent forward pass.
    pub open spec fn is_dropped(&self, i: int) -> bool {
        exists|k: int|
            0 <= k < self.dropped_neurons@.len() && #[trigger] self.dropped_neurons@[k] == i
    }

    /// Row `i` occurs among the first `k` recorded dropped rows.
    pub open spec fn dropped_before(&self, i: int, k: int) -> bool {
        exists|p: int| 0 <= p < k && #[trigger] self.dropped_neurons@[p] == i
    }

    /// Forward state is recorded, with `ex` example columns.
    pub open spec fn forwarded(&self, ex: int) -> bool {
        &&& self.inputs is Some
        &&& self.inputs->0.cols == ex
        &&& self.activations is Some
        &&& self.activations->0.cols == ex
    }

    /// Forward and backward state are both recorded with `ex` example
    /// columns: the layer is ready for the optimizer.
    pub open spec fn backed(&self, ex: int) -> bool {
        &&& self.forwarded(ex)
        &&& self.deltas is Some
        &&& self.deltas->0.cols == ex
    }

    /// The two layers have the same static configuration.
    pub open spec fn same_config(&self, other: &Layer<T>) -> bool {
        &&& self.neurons == other.neurons
        &&& self.in_width == other.in_width
        &&& self.activation_fn == other.activation_fn
        &&& self.dropout == other.dropout
        &&& self.zero == other.zero
    }
}

/// The recorded mask was rebuilt from scratch by one pass over the rows:
/// its indices are strictly increasing, so no stale or duplicated index
/// from an earlier pass can survive.
pub open spec fn mask_fresh(mask: Seq<usize>) -> bool {
    forall|a: int, b: int|
        #![trigger mask[a], mask[b]]
        0 <= a < b < mask.len() ==> mask[a] < mask[b]
}

/// The dropout discipline of one forward pass from `pre` to `post` with
/// output batch `r`: without configured dropout the mask is untouched; a
/// rate of zero drops no row; the full rate drops every row; and every
/// dropped row of the output is overwritten with the mask value.
#[verifier::opaque]
pub open spec fn dropout_discipline<T>(pre: Layer<T>, post: Layer<T>, r: Matrix<T>) -> bool {
    &&& (pre.dropout is None ==> post.dropped_neurons == pre.dropped_neurons)
    &&& (pre.dropout is Some ==> mask_fresh(post.dropped_neurons@))
    &&& (pre.dropout == Some(0u64) ==> post.dropped_neurons@.len() == 0)
    &&& (pre.dropout == Some(DRAW_DENOM) ==> forall|i: int|
        0 <= i < r.rows ==> post.is_dropped(i))
    &&& (pre.dropout is Some ==> forall|i: int, c: int|
        0 <= i < r.rows && 0 <= c < r.cols && post.is_dropped(i) ==> #[trigger] r@[i][c]
            == pre.zero)
}

/// The gradient side of the dropout discipline: with dropout configured,
/// every delta row of a dropped neuron is overwritten with the mask value.
#[verifier::opaque]
pub open spec fn gradient_masked<T>(l: Layer<T>, cols: int) -> bool {
    l.dropout is Some ==> forall|i: int, c: int|
        0 <= i < l.neurons && 0 <= c < cols && l.is_dropped(i) ==> #[trigger] l.deltas->0@[i][c]
            == l.zero
}

impl<T: Scalar> Layer<T> {
    /// A freshly initialized layer: weights drawn from the carrier's unit
    /// range scaled down by the square root of the fan-in, biases drawn
    /// unscaled, and no recorded state.
    pub fn new(
        neurons: usize,
        in_width: usize,
        activation_fn: Activation,
        dropout: Option<u64>,
    ) -> (r: Layer<T>)
        requires
            match dropout {
                Some(rate) => rate <= DRAW_DENOM,
                None => true,
            },
        ensures
            r.wf(),
            r.neurons == neurons,
            r.in_width == in_width,
            r.activation_fn == activation_fn,
            r.dropout == dropout,
            r.inputs is None,
            r.activations is None,
            r.deltas is None,
            r.dropped_neurons@.len() == 0,
    {
        let weights: Matrix<T> = Matrix::sample(neurons, in_width, in_width);
        let biases: Matrix<T> = Matrix::sample(neurons, 1, 1);
        Layer {
            neurons,
            in_width,
            weights,
            biases,
            inputs: None,
            activations: None,
            deltas: None,
            activation_fn,
            dropout,
            dropped_neurons: Vec::new(),
            zero: T::zero(),
        }
    }

    /// Resamples the dropout mask and applies it: each output row is
    /// independently dropped when a fresh uniform draw falls below `rate`,
    /// and a dropped row is overwritten with the mask value across all
    /// examples. A rate of `0` drops nothing and returns the batch
    /// untouched; a rate of [`DRAW_DENOM`] drops every row.
    pub fn map_output_to_dropout(&mut self, outputs: Matrix<T>, rate: u64) -> (r: Matrix<T>)
        requires
            old(self).wf(),
            outputs.wf(),
            outputs.rows == old(self).neurons,
            rate <= DRAW_DENOM,
        ensures
            final(self).wf(),
            final(self).same_config(old(self)),
            final(self).weights == old(self).weights,
            final(self).biases == old(self).biases,
            final(self).inputs == old(self).inputs,
            final(self).activations == old(self).activations,
            final(self).deltas == old(self).deltas,
            r.wf(),
            r.rows == outputs.rows,
            r.cols == outputs.cols,
            forall|i: int, c: int|
                0 <= i < r.rows && 0 <= c < r.cols ==> #[trigger] r@[i][c] == (if final(self).is_dropped(i) {
                    old(self).zero
                } else {
                    outputs@[i][c]
                }),
            mask_fresh(final(self).dropped_neurons@),
            rate == 0 ==> final(self).dropped_neurons@.len() == 0 && r@ == outputs@,
            rate == DRAW_DENOM ==> forall|i: int|
                0 <= i < r.rows ==> final(self).is_dropped(i),
    {
        self.dropped_neurons = Vec::new();
        let mut out: Matrix<T> = outputs;
        let rows: usize = out.rows;
        let mut i: usize = 0;
        while i < rows
            invariant
                self.wf(),
                self.same_config(old(self)),
                self.weights == old(self).weights,
                self.biases == old(self).biases,
                self.inputs == old(self).inputs,
                self.activations == old(self).activations,
                self.deltas == old(self).deltas,
                rows == old(self).neurons,
                rate <= DRAW_DENOM,
                i <= rows,
                out.wf(),
                outputs.wf(),
                out.rows == outputs.rows,
                out.cols == outputs.cols,
                outputs.rows == rows,
                forall|k: int|
                    0 <= k < self.dropped_neurons@.len()
                        ==> #[trigger] self.dropped_neurons@[k] < i,
                mask_fresh(self.dropped_neurons@),
                forall|p: int, c: int|
                    0 <= p < out.rows && 0 <= c < out.cols ==> #[trigger] out@[p][c] == (if self
                        .is_dropped(p) {
                        old(self).zero
                    } else {
                        outputs@[p][c]
                    }),
                rate == 0 ==> self.dropped_neurons@.len() == 0,
                rate == DRAW_DENOM ==> forall|p: int| 0 <= p < i ==> self.is_dropped(p),
            decreases rows - i,
        {
            let draw: u64 = random_draw();
            if draw < rate {
                let ghost pre = *self;
                let ghost before = self.dropped_neurons@;
                let ghost out_before = out@;
                self.dropped_neurons.push(i);
                out.set_row_to(i, self.zero);
                proof {
                    assert(self.dropped_neurons@ == before.push(i as usize));
                    assert(self.dropped_neurons@[before.len() as int] == i as usize);
                    assert(self.is_dropped(i as int));
                    assert forall|p: int, c: int|
                        0 <= p < out.rows && 0 <= c < out.cols implies #[trigger] out@[p][c] == (
                    if self.is_dropped(p) {
                        old(self).zero
                    } else {
                        outputs@[p][c]
                    }) by {
                        if p == i {
                            assert(out@[p][c] == self.zero);
                        } else {
                            assert(out@[p] == out_before[p]);
                            if self.is_dropped(p) {
                                let k = choose|k: int|
                                    0 <= k < self.dropped_neurons@.len()
                                        && #[trigger] self.dropped_neurons@[k] == p;
                                assert(self.dropped_neurons@[k] == p);
                                assert(k < before.len());
                                assert(before[k] == p);
                            } else {
                                assert forall|k: int|
                                    0 <= k < before.len() implies #[trigger] before[k] != p by {
                                    assert(self.dropped_neurons@[k] == before[k]);
                                }
                            }
                        }
                    }
                    if rate == DRAW_DENOM {
                        assert forall|p: int| 0 <= p < i + 1 implies self.is_dropped(p) by {
                            if p < i {
                                assert(pre.is_dropped(p));
                                let k = choose|k: int|
                                    0 <= k < pre.dropped_neurons@.len()
                                        && #[trigger] pre.dropped_neurons@[k] == p;
                                assert(self.dropped_neurons@[k] == p);
                            }
                        }
                    }
                }
            }
            i = i + 1;
        }
        proof {
            if rate == 0 {
                assert forall|p: int| 0 <= p < out@.len() implies out@[p] == outputs@[p] by {
                    assert(out@[p] =~= outputs@[p]);
                }
                assert(out@ =~= outputs@);
            }
        }
        out
    }

    /// The forward step: records the input batch and the pre-activation
    /// batch `weights · inputs + biases`, applies the activation function,
    /// and — when dropout is configured — resamples the mask and zeroes the
    /// dropped rows of the returned batch. With no dropout configured the
    /// mask is left alone.
    pub fn feed_forward(&mut self, inputs: &Matrix<T>) -> (r: Matrix<T>)
        requires
            old(self).wf(),
            inputs.wf(),
            inputs.rows == old(self).in_width,
        ensures
            final(self).wf(),
            final(self).same_config(old(self)),
            final(self).weights == old(self).weights,
            final(self).biases == old(self).biases,
            final(self).deltas == old(self).deltas,
            final(self).forwarded(inputs.cols as int),
            final(self).inputs->0@ == inputs@,
            r.wf(),
            r.rows == old(self).neurons,
            r.cols == inputs.cols,
            dropout_discipline(*old(self), *final(self), r),
    {
        let z: Matrix<T> = self.weights.matmul(inputs).add_col_broadcast(&self.biases);
        let out: Matrix<T> = self.activation_fn.call(&z);
        self.inputs = Some(inputs.duplicate());
        self.activations = Some(z);
        let dropout: Option<u64> = self.dropout;
        match dropout {
            Some(rate) => {
                let masked = self.map_output_to_dropout(out, rate);
                proof {
                    reveal(dropout_discipline);
                }
                masked
            },
            None => {
                proof {
                    reveal(dropout_discipline);
                }
                out
            },
        }
    }

    /// The forward computation alone: no state is recorded and no dropout
    /// is applied. Used for inference once training is done.
    pub fn predict(&self, inputs: &Matrix<T>) -> (r: Matrix<T>)
        requires
            self.wf(),
            inputs.wf(),
            inputs.rows == self.in_width,
        ensures
            r.wf(),
            r.rows == self.neurons,
            r.cols == inputs.cols,
    {
        let z: Matrix<T> = self.weights.matmul(inputs).add_col_broadcast(&self.biases);
        self.activation_fn.call(&z)
    }

    /// Zeroes the delta rows of this layer's most recently dropped neurons,
    /// so that dropped units block gradient flow exactly as they blocked
    /// the forward signal. Without configured dropout the batch passes
    /// through untouched.
    fn drop_deltas(&self, deltas: Matrix<T>) -> (r: Matrix<T>)
        requires
            self.wf(),
            deltas.wf(),
            deltas.rows == self.neurons,
        ensures
            r.wf(),
            r.rows == deltas.rows,
            r.cols == deltas.cols,
            match self.dropout {
                Some(rate) => forall|i: int, c: int|
                    0 <= i < r.rows && 0 <= c < r.cols ==> #[trigger] r@[i][c] == (if self
                        .is_dropped(i) {
                        self.zero
                    } else {
                        deltas@[i][c]
                    }),
                None => r@ == deltas@,
            },
    {
        let mut d: Matrix<T> = deltas;
        match self.dropout {
            Some(_) => {
                let mut k: usize = 0;
                while k < self.dropped_neurons.len()
                    invariant
                        self.wf(),
                        d.wf(),
                        d.rows == self.neurons,
                        d.cols == deltas.cols,
                        k <= self.dropped_neurons@.len(),
                        forall|i: int, c: int|
                            0 <= i < d.rows && 0 <= c < d.cols ==> #[trigger] d@[i][c] == (if self
                                .dropped_before(i, k as int) {
                                self.zero
                            } else {
                                deltas@[i][c]
                            }),
                    decreases self.dropped_neurons@.len() - k,
                {
                    let row: usize = self.dropped_neurons[k];
                    d.set_row_to(row, self.zero);
                    k = k + 1;
                }
                proof {
                    assert(forall|i: int|
                        self.dropped_before(i, self.dropped_neurons@.len() as int)
                            == self.is_dropped(i));
                }
            },
            None => {},
        }
        d
    }

    /// The backward step for the output layer, or any layer whose upstream
    /// delta is already known: the delta is the activation derivative at
    /// the recorded pre-activations times the upstream delta, entry by
    /// entry, with the rows of dropped neurons zeroed afterwards.
    pub fn back_prop_with_deltas(&mut self, attached_deltas: &Matrix<T>)
        requires
            old(self).wf(),
            old(self).activations is Some,
            attached_deltas.wf(),
            attached_deltas.rows == old(self).neurons,
            attached_deltas.cols == old(self).activations->0.cols,
            old(self).activation_fn is Softmax ==> old(self).neurons >= old(self).activations->0.cols,
        ensures
            final(self).wf(),
            final(self).same_config(old(self)),
            final(self).weights == old(self).weights,
            final(self).biases == old(self).biases,
            final(self).inputs == old(self).inputs,
            final(self).activations == old(self).activations,
            final(self).dropped_neurons == old(self).dropped_neurons,
            final(self).deltas is Some,
            final(self).deltas->0.wf(),
            final(self).deltas->0.rows == old(self).neurons,
            final(self).deltas->0.cols == attached_deltas.cols,
            gradient_masked(*final(self), attached_deltas.cols as int),
    {
        let act_fn: Activation = self.activation_fn;
        let d: Matrix<T> = match &self.activations {
            Some(act) => act_fn.prime(act),
            None => unreached(),
        };
        let d: Matrix<T> = d.elem_mul(attached_deltas);
        let d: Matrix<T> = self.drop_deltas(d);
        self.deltas = Some(d);
        proof {
            reveal(gradient_masked);
        }
    }

    /// The backward step against the successor layer: the upstream delta is
    /// `attached_layer.weights^T · attached_layer.deltas`, which requires
    /// the successor to have run its own backward step first.
    pub fn back_prop(&mut self, attached_layer: &Layer<T>)
        requires
            old(self).wf(),
            attached_layer.wf(),
            attached_layer.deltas is Some,
            attached_layer.in_width == old(self).neurons,
            old(self).activations is Some,
            attached_layer.deltas->0.cols == old(self).activations->0.cols,
            old(self).activation_fn is Softmax ==> old(self).neurons >= old(self).activations->0.cols,
        ensures
            final(self).wf(),
            final(self).same_config(old(self)),
            final(self).weights == old(self).weights,
            final(self).biases == old(self).biases,
            final(self).inputs == old(self).inputs,
            final(self).activations == old(self).activations,
            final(self).dropped_neurons == old(self).dropped_neurons,
            final(self).deltas is Some,
            final(self).deltas->0.wf(),
            final(self).deltas->0.rows == old(self).neurons,
            final(self).deltas->0.cols == attached_layer.deltas->0.cols,
    {
        let next_deltas: Matrix<T> = match &attached_layer.deltas {
            Some(att) => attached_layer.weights.transpose().matmul(att),
            None => unreached(),
        };
        self.back_prop_with_deltas(&next_deltas);
    }

    /// The update step: both deltas are normalized by `input_rows` — the
    /// batch example count, and the only batch-size normalization in the
    /// engine — then the normalized weight delta is subtracted from the
    /// weights entry by entry, and the mean-normalized sum of the bias
    /// delta is subtracted from every bias.
    pub fn update(&mut self, delta_weights: &Matrix<T>, delta_biases: &Matrix<T>, input_rows: usize)
        requires
            old(self).wf(),
            delta_weights.wf(),
            delta_weights.rows == old(self).neurons,
            delta_weights.cols == old(self).in_width,
            delta_biases.wf(),
            input_rows >= 1,
        ensures
            final(self).wf(),
            final(self).same_config(old(self)),
            final(self).inputs == old(self).inputs,
            final(self).activations == old(self).activations,
            final(self).deltas == old(self).deltas,
            final(self).dropped_neurons == old(self).dropped_neurons,
    {
        let denom: T = T::of_usize(input_rows);
        let dw: Matrix<T> = delta_weights.scale_div(denom);
        let db: T = delta_biases.sum_all().div(denom);
        let new_weights: Matrix<T> = self.weights.elem_sub(&dw);
        let shift: Matrix<T> = Matrix::fill(self.neurons, 1, db);
        let new_biases: Matrix<T> = self.biases.elem_sub(&shift);
        self.weights = new_weights;
        self.biases = new_biases;
    }
}

} // verus!
