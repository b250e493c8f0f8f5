//! Optimizers: the per-layer parameter-update rules and their state
//! machines — plain momentum and adaptive moments — plus the wrapper that
//! feeds a network's recorded deltas through an optimizer.
//!
//! Per-layer accumulators are created lazily the first time a layer index
//! is updated and are shaped like that layer's weight matrix; the adaptive
//! optimizer additionally keeps one step counter shared by all layers,
//! incremented exactly once per update call.

use vstd::prelude::*;

use crate::layer::Layer;
use crate::matrix::Matrix;
use crate::scalar::Scalar;

verus! {

/// The customary primary momentum constant, `9 / 10`.
pub fn default_gamma<T: Scalar>() -> T {
    T::of_ratio(9, 10)
}

/// The customary secondary momentum constant, `999 / 1000`.
pub fn default_beta<T: Scalar>() -> T {
    T::of_ratio(999, 1000)
}

/// Every accumulator so far is shaped like its layer's weight matrix.
pub open spec fn moments_match<T>(ms: Seq<Matrix<T>>, layers: Seq<Layer<T>>) -> bool {
    &&& ms.len() <= layers.len()
    &&& forall|i: int|
        0 <= i < ms.len() ==> (#[trigger] ms[i]).wf() && ms[i].rows == layers[i].neurons
            && ms[i].cols == layers[i].in_width
}

/// Every layer is well-formed and carries forward state and a delta batch
/// recorded over the same example columns: ready for an update.
pub open spec fn layers_ready<T>(layers: Seq<Layer<T>>) -> bool {
    forall|i: int|
        0 <= i < layers.len() ==> {
            &&& (#[trigger] layers[i]).wf()
            &&& layers[i].inputs is Some
            &&& layers[i].deltas is Some
            &&& layers[i].deltas->0.cols == layers[i].inputs->0.cols
        }
}

/// Layer `i` of `b` is layer `i` of `a` with at most its weights and biases
/// changed: same configuration, same recorded transient state.
pub open spec fn layers_preserved<T>(a: Seq<Layer<T>>, b: Seq<Layer<T>>) -> bool {
    &&& a.len() == b.len()
    &&& forall|i: int|
        0 <= i < a.len() ==> {
            &&& (#[trigger] b[i]).wf()
            &&& b[i].same_config(&a[i])
            &&& b[i].inputs == a[i].inputs
            &&& b[i].activations == a[i].activations
            &&& b[i].deltas == a[i].deltas
            &&& b[i].dropped_neurons == a[i].dropped_neurons
        }
}

/// `base` multiplied by itself `e` times.
fn scalar_pow<T: Scalar>(base: T, e: u64) -> T {
    let mut acc: T = T::one();
    let mut k: u64 = 0;
    while k < e
        invariant
            k <= e,
        decreases e - k,
    {
        acc = acc.mul(base);
        k = k + 1;
    }
    acc
}

/// The square root of every entry, shifted by a small epsilon
/// (`1 / 10^7`) to keep later divisions away from zero.
fn sqrt_plus_eps<T: Scalar>(m: &Matrix<T>) -> (r: Matrix<T>)
    requires
        m.wf(),
    ensures
        r.wf(),
        r.rows == m.rows,
        r.cols == m.cols,
{
    let eps: T = T::of_ratio(1, 10000000);
    let mut data: Vec<Vec<T>> = Vec::new();
    let mut i: usize = 0;
    while i < m.rows
        invariant
            m.wf(),
            i <= m.rows,
            data@.len() == i,
            forall|p: int| 0 <= p < i ==> (#[trigger] data@[p])@.len() == m.cols,
        decreases m.rows - i,
    {
        let mut row: Vec<T> = Vec::new();
        let mut j: usize = 0;
        while j < m.cols
            invariant
                m.wf(),
                i < m.rows,
                j <= m.cols,
                row@.len() == j,
            decreases m.cols - j,
        {
            row.push(m.entry(i, j).sqrt().add(eps));
            j = j + 1;
        }
        data.push(row);
        i = i + 1;
    }
    Matrix { rows: m.rows, cols: m.cols, data }
}

/// Stochastic gradient descent with classical momentum.
pub struct SGD<T> {
    /// The step size applied to each gradient.
    pub learning_rate: T,
    /// Momentum constant; with `0` the rule is plain gradient descent.
    pub gamma: T,
    /// One moment accumulator per layer, created lazily.
    pub moments: Vec<Matrix<T>>,
}

impl<T: Scalar> SGD<T> {
    /// A fresh optimizer with no accumulated momentum.
    pub fn new(learning_rate: T, gamma: T) -> (r: SGD<T>)
        ensures
            r.learning_rate == learning_rate,
            r.gamma == gamma,
            r.moments@.len() == 0,
    {
        SGD { learning_rate, gamma, moments: Vec::new() }
    }

    /// One momentum step per layer: the moment becomes
    /// `gamma · moment + learning_rate · (delta · inputs^T)` and is applied
    /// as the weight delta; the bias delta is `learning_rate · delta`.
    /// A layer's moment starts from zeros the first time its index is seen.
    pub fn update(&mut self, layers: &mut Vec<Layer<T>>, deltas: &Vec<Matrix<T>>, input_rows: usize)
        requires
            input_rows >= 1,
            deltas@.len() == old(layers)@.len(),
            layers_ready(old(layers)@),
            forall|i: int|
                0 <= i < deltas@.len() ==> (#[trigger] deltas@[i]).wf() && deltas@[i].rows == old(
                    layers,
                )@[i].neurons && deltas@[i].cols == old(layers)@[i].inputs->0.cols,
            moments_match(old(self).moments@, old(layers)@),
        ensures
            layers_preserved(old(layers)@, final(layers)@),
            moments_match(final(self).moments@, final(layers)@),
            final(self).moments@.len() == final(layers)@.len(),
            final(self).learning_rate == old(self).learning_rate,
            final(self).gamma == old(self).gamma,
    {
        let mut i: usize = 0;
        while i < layers.len()
            invariant
                input_rows >= 1,
                i <= layers@.len(),
                layers@.len() == old(layers)@.len(),
                deltas@.len() == old(layers)@.len(),
                layers_ready(old(layers)@),
                forall|p: int|
                    0 <= p < deltas@.len() ==> (#[trigger] deltas@[p]).wf() && deltas@[p].rows
                        == old(layers)@[p].neurons && deltas@[p].cols == old(
                        layers,
                    )@[p].inputs->0.cols,
                forall|p: int| i <= p < layers@.len() ==> layers@[p] == old(layers)@[p],
                forall|p: int|
                    0 <= p < i ==> {
                        &&& (#[trigger] layers@[p]).wf()
                        &&& layers@[p].same_config(&old(layers)@[p])
                        &&& layers@[p].inputs == old(layers)@[p].inputs
                        &&& layers@[p].activations == old(layers)@[p].activations
                        &&& layers@[p].deltas == old(layers)@[p].deltas
                        &&& layers@[p].dropped_neurons == old(layers)@[p].dropped_neurons
                    },
                self.moments@.len() == if i as int >= old(self).moments@.len() {
                    i as int
                } else {
                    old(self).moments@.len() as int
                },
                moments_match(self.moments@, old(layers)@),
                self.learning_rate == old(self).learning_rate,
                self.gamma == old(self).gamma,
            decreases layers@.len() - i,
        {
            let inputs_t: Matrix<T> = match &layers[i].inputs {
                Some(m) => m.transpose(),
                None => unreached(),
            };
            let delta_weights: Matrix<T> = deltas[i].matmul(&inputs_t).scale(self.learning_rate);
            let delta_biases: Matrix<T> = deltas[i].scale(self.learning_rate);
            if self.moments.len() <= i {
                self.moments.push(
                    Matrix::fill(delta_weights.rows, delta_weights.cols, T::zero()),
                );
            }
            let moment: Matrix<T> = self.moments[i].scale(self.gamma).elem_add(&delta_weights);
            let ghost layers_before = layers@;
            let mut layer: Layer<T> = layers.remove(i);
            layer.update(&moment, &delta_biases, input_rows);
            layers.insert(i, layer);
            proof {
                assert(layers@ =~= layers_before.update(i as int, layers@[i as int]));
            }
            self.moments.set(i, moment);
            i = i + 1;
        }
    }
}

/// Adaptive-moment optimizer: momentum and velocity accumulators per layer
/// with bias correction, and one shared step counter.
pub struct Adam<T> {
    /// Number of update calls made so far.
    pub time_step: u64,
    /// The step size applied to each corrected gradient.
    pub learning_rate: T,
    /// Primary momentum constant.
    pub gamma: T,
    /// Secondary momentum constant.
    pub beta: T,
    /// One velocity accumulator per layer, created lazily.
    pub velocities: Vec<Matrix<T>>,
    /// One moment accumulator per layer, created lazily.
    pub moments: Vec<Matrix<T>>,
}

impl<T: Scalar> Adam<T> {
    /// A fresh optimizer with no accumulated state and step counter zero.
    pub fn new(learning_rate: T, gamma: T, beta: T) -> (r: Adam<T>)
        ensures
            r.time_step == 0,
            r.learning_rate == learning_rate,
            r.gamma == gamma,
            r.beta == beta,
            r.velocities@.len() == 0,
            r.moments@.len() == 0,
    {
        Adam { time_step: 0, learning_rate, gamma, beta, velocities: Vec::new(), moments: Vec::new() }
    }

    /// One adaptive step per layer. The shared step counter advances by
    /// exactly one per call, however many layers there are. Per layer, with
    /// gradient `g = delta · inputs^T`:
    /// `moment = gamma · moment + (1 - gamma) · g`,
    /// `velocity = beta · velocity + (1 - beta) · g²`, both bias-corrected
    /// by `1 - gamma^t` and `1 - beta^t`, and the applied weight delta is
    /// `learning_rate · moment_bar / (sqrt(velocity_bar) + epsilon)`; the
    /// bias delta is `learning_rate · delta`.
    pub fn update(&mut self, layers: &mut Vec<Layer<T>>, deltas: &Vec<Matrix<T>>, input_rows: usize)
        requires
            old(self).time_step < u64::MAX,
            input_rows >= 1,
            deltas@.len() == old(layers)@.len(),
            layers_ready(old(layers)@),
            forall|i: int|
                0 <= i < deltas@.len() ==> (#[trigger] deltas@[i]).wf() && deltas@[i].rows == old(
                    layers,
                )@[i].neurons && deltas@[i].cols == old(layers)@[i].inputs->0.cols,
            moments_match(old(self).moments@, old(layers)@),
            moments_match(old(self).velocities@, old(layers)@),
        ensures
            final(self).time_step == old(self).time_step + 1,
            layers_preserved(old(layers)@, final(layers)@),
            moments_match(final(self).moments@, final(layers)@),
            moments_match(final(self).velocities@, final(layers)@),
            final(self).moments@.len() == final(layers)@.len(),
            final(self).velocities@.len() == final(layers)@.len(),
            final(self).learning_rate == old(self).learning_rate,
            final(self).gamma == old(self).gamma,
            final(self).beta == old(self).beta,
    {
        self.time_step = self.time_step + 1;
        let beta1_t: T = T::one().sub(scalar_pow(self.gamma, self.time_step));
        let beta2_t: T = T::one().sub(scalar_pow(self.beta, self.time_step));
        let mut i: usize = 0;
        while i < layers.len()
            invariant
                input_rows >= 1,
                i <= layers@.len(),
                layers@.len() == old(layers)@.len(),
                deltas@.len() == old(layers)@.len(),
                layers_ready(old(layers)@),
                forall|p: int|
                    0 <= p < deltas@.len() ==> (#[trigger] deltas@[p]).wf() && deltas@[p].rows
                        == old(layers)@[p].neurons && deltas@[p].cols == old(
                        layers,
                    )@[p].inputs->0.cols,
                forall|p: int| i <= p < layers@.len() ==> layers@[p] == old(layers)@[p],
                forall|p: int|
                    0 <= p < i ==> {
                        &&& (#[trigger] layers@[p]).wf()
                        &&& layers@[p].same_config(&old(layers)@[p])
                        &&& layers@[p].inputs == old(layers)@[p].inputs
                        &&& layers@[p].activations == old(layers)@[p].activations
                        &&& layers@[p].deltas == old(layers)@[p].deltas
                        &&& layers@[p].dropped_neurons == old(layers)@[p].dropped_neurons
                    },
                self.moments@.len() == if i as int >= old(self).moments@.len() {
                    i as int
                } else {
                    old(self).moments@.len() as int
                },
                self.velocities@.len() == if i as int >= old(self).velocities@.len() {
                    i as int
                } else {
                    old(self).velocities@.len() as int
                },
                moments_match(self.moments@, old(layers)@),
                moments_match(self.velocities@, old(layers)@),
                self.time_step == old(self).time_step + 1,
                self.learning_rate == old(self).learning_rate,
                self.gamma == old(self).gamma,
                self.beta == old(self).beta,
            decreases layers@.len() - i,
        {
            let inputs_t: Matrix<T> = match &layers[i].inputs {
                Some(m) => m.transpose(),
                None => unreached(),
            };
            let delta_weights: Matrix<T> = deltas[i].matmul(&inputs_t);
            let delta_biases: Matrix<T> = deltas[i].scale(self.learning_rate);
            if self.velocities.len() <= i {
                self.velocities.push(
                    Matrix::fill(delta_weights.rows, delta_weights.cols, T::zero()),
                );
            }
            if self.moments.len() <= i {
                self.moments.push(
                    Matrix::fill(delta_weights.rows, delta_weights.cols, T::zero()),
                );
            }
            let one_minus_gamma: T = T::one().sub(self.gamma);
            let one_minus_beta: T = T::one().sub(self.beta);
            let moment: Matrix<T> = self.moments[i].scale(self.gamma).elem_add(
                &delta_weights.scale(one_minus_gamma),
            );
            let grad_squared: Matrix<T> = delta_weights.elem_mul(&delta_weights);
            let velocity: Matrix<T> = self.velocities[i].scale(self.beta).elem_add(
                &grad_squared.scale(one_minus_beta),
            );
            let moment_bar: Matrix<T> = moment.scale_div(beta1_t);
            let velocity_bar: Matrix<T> = velocity.scale_div(beta2_t);
            let velocity_sqrt: Matrix<T> = sqrt_plus_eps(&velocity_bar);
            let moment_adj: Matrix<T> = moment_bar.scale(self.learning_rate).elem_div(
                &velocity_sqrt,
            );
            self.moments.set(i, moment);
            self.velocities.set(i, velocity);
            let ghost layers_before = layers@;
            let mut layer: Layer<T> = layers.remove(i);
            layer.update(&moment_adj, &delta_biases, input_rows);
            layers.insert(i, layer);
            proof {
                assert(layers@ =~= layers_before.update(i as int, layers@[i as int]));
            }
            i = i + 1;
        }
    }
}

/// The closed set of optimizers the engine can train with.
pub enum Optimizer<T> {
    /// Stochastic gradient descent with momentum.
    SGD(SGD<T>),
    /// Adaptive moments with bias correction.
    Adam(Adam<T>),
}

impl<T: Scalar> Optimizer<T> {
    /// The optimizer's accumulators are shaped for these layers.
    pub open spec fn compat(&self, layers: Seq<Layer<T>>) -> bool {
        match self {
            Optimizer::SGD(s) => moments_match(s.moments@, layers),
            Optimizer::Adam(a) => moments_match(a.moments@, layers) && moments_match(
                a.velocities@,
                layers,
            ),
        }
    }

    /// Whether this is the adaptive-moment optimizer.
    pub open spec fn is_adaptive(&self) -> bool {
        match self {
            Optimizer::SGD(_) => false,
            Optimizer::Adam(_) => true,
        }
    }

    /// The step counter: the number of update calls an adaptive optimizer
    /// has performed.
    pub open spec fn steps(&self) -> int {
        match self {
            Optimizer::SGD(_) => 0,
            Optimizer::Adam(a) => a.time_step as int,
        }
    }

    /// The step counter has room for `n` more update calls.
    pub open spec fn headroom(&self, n: int) -> bool {
        match self {
            Optimizer::SGD(_) => true,
            Optimizer::Adam(a) => a.time_step + n <= u64::MAX,
        }
    }

    /// One optimizer step over all layers. An adaptive optimizer advances
    /// its shared step counter by exactly one, however many layers there
    /// are; a momentum optimizer keeps no counter.
    pub fn update(&mut self, layers: &mut Vec<Layer<T>>, deltas: &Vec<Matrix<T>>, input_rows: usize)
        requires
            old(self).headroom(1),
            input_rows >= 1,
            deltas@.len() == old(layers)@.len(),
            layers_ready(old(layers)@),
            forall|i: int|
                0 <= i < deltas@.len() ==> (#[trigger] deltas@[i]).wf() && deltas@[i].rows == old(
                    layers,
                )@[i].neurons && deltas@[i].cols == old(layers)@[i].inputs->0.cols,
            old(self).compat(old(layers)@),
        ensures
            layers_preserved(old(layers)@, final(layers)@),
            final(self).compat(final(layers)@),
            final(self).is_adaptive() <==> old(self).is_adaptive(),
            final(self).steps() == old(self).steps() + (if old(self).is_adaptive() {
                1int
            } else {
                0int
            }),
    {
        match self {
            Optimizer::SGD(s) => s.update(layers, deltas, input_rows),
            Optimizer::Adam(a) => a.update(layers, deltas, input_rows),
        }
    }
}

/// Collects every layer's recorded delta and hands the batch to the
/// optimizer: one optimizer step across the whole network.
pub fn optimize<T: Scalar>(
    optimizer: &mut Optimizer<T>,
    layers: &mut Vec<Layer<T>>,
    input_rows: usize,
)
    requires
        old(optimizer).headroom(1),
        input_rows >= 1,
        layers_ready(old(layers)@),
        old(optimizer).compat(old(layers)@),
    ensures
        layers_preserved(old(layers)@, final(layers)@),
        final(optimizer).compat(final(layers)@),
        final(optimizer).is_adaptive() <==> old(optimizer).is_adaptive(),
        final(optimizer).steps() == old(optimizer).steps() + (if old(optimizer).is_adaptive() {
            1int
        } else {
            0int
        }),
{
    let mut deltas: Vec<Matrix<T>> = Vec::new();
    let mut i: usize = 0;
    while i < layers.len()
        invariant
            layers_ready(layers@),
            i <= layers@.len(),
            deltas@.len() == i,
            forall|p: int|
                0 <= p < i ==> (#[trigger] deltas@[p]).wf() && deltas@[p].rows
                    == layers@[p].neurons && deltas@[p].cols == layers@[p].inputs->0.cols,
        decreases layers@.len() - i,
    {
        let d: Matrix<T> = match &layers[i].deltas {
            Some(d) => d.duplicate(),
            None => unreached(),
        };
        deltas.push(d);
        i = i + 1;
    }
    optimizer.update(layers, &deltas, input_rows);
}

} // verus!
