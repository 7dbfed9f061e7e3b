//! The prediction strategy's bookkeeping around its model: classifying a
//! predicted change into a signal, and checking pending predictions against
//! the price once their horizon has passed.
use crate::fixed::{trunc_div, ONE};
use crate::pricing::MAX_PRICE;
use vstd::prelude::*;

verus! {

/// Most predictions kept waiting for their horizon.
pub const MAX_PENDING: usize = 100;

/// How long a prediction looks ahead, in nanoseconds of simulated time.
pub const PREDICTION_HORIZON_NS: i64 = 1_000_000_000;

/// Direction that a price prediction points to.
#[derive(Clone, Copy, Debug, PartialEq, Eq, Structural)]
pub enum PredictionSignal {
    Up,
    Down,
    Neutral,
}

pub open spec fn prediction_signal_spec(prediction: int, threshold: int) -> PredictionSignal {
    if prediction > threshold {
        PredictionSignal::Up
    } else if prediction < -threshold {
        PredictionSignal::Down
    } else {
        PredictionSignal::Neutral
    }
}

/// Up above the threshold, down below its negation, neutral between.
pub fn classify_prediction(prediction: i64, threshold: i64) -> (r: PredictionSignal)
    ensures
        r == prediction_signal_spec(prediction as int, threshold as int),
{
    let p = prediction as i128;
    let t = threshold as i128;
    if p > t {
        PredictionSignal::Up
    } else if p < -t {
        PredictionSignal::Down
    } else {
        PredictionSignal::Neutral
    }
}

/// A prediction made at `timestamp` (ns) when the mid-price was
/// `mid_price`; `predicted_change` is a fixed-point percentage.
#[derive(Clone, Copy, Debug, PartialEq, Eq, Structural)]
pub struct PricePredictionData {
    pub mid_price: i64,
    pub predicted_change: i64,
    pub timestamp: i64,
}

/// A prediction checked against the price after its horizon.
#[derive(Clone, Copy, Debug, PartialEq, Eq, Structural)]
pub struct Validation {
    pub prediction: PricePredictionData,
    /// Realized change, as a fixed-point percentage.
    pub actual_change: i128,
    /// Prediction and realized change point the same, non-zero way.
    pub correct: bool,
}

pub open spec fn matured(p: PricePredictionData, now: int, horizon: int) -> bool {
    now - p.timestamp >= horizon
}

/// Index of the first prediction, from `i` on, whose horizon has not passed.
pub open spec fn first_pending(s: Seq<PricePredictionData>, now: int, horizon: int, i: int) -> int
    decreases s.len() - i,
{
    if i < 0 || i >= s.len() {
        s.len() as int
    } else if matured(s[i], now, horizon) {
        first_pending(s, now, horizon, i + 1)
    } else {
        i
    }
}

/// The predictions that a check at time `now` consumes: the matured ones at
/// the front of the queue.
pub open spec fn consumed(s: Seq<PricePredictionData>, now: int, horizon: int) -> Seq<
    PricePredictionData,
> {
    s.take(first_pending(s, now, horizon, 0))
}

pub open spec fn remaining(s: Seq<PricePredictionData>, now: int, horizon: int) -> Seq<
    PricePredictionData,
> {
    s.skip(first_pending(s, now, horizon, 0))
}

pub open spec fn actual_change_spec(p: PricePredictionData, mid: int) -> int {
    trunc_div((mid - p.mid_price) * 100 * ONE, p.mid_price as int)
}

pub open spec fn validation_spec(p: PricePredictionData, mid: int) -> Validation {
    let a = actual_change_spec(p, mid);
    Validation {
        prediction: p,
        actual_change: a as i128,
        correct: (p.predicted_change > 0 && a > 0) || (p.predicted_change < 0 && a < 0),
    }
}

pub open spec fn count_correct(s: Seq<PricePredictionData>, mid: int, k: nat) -> nat
    decreases k,
{
    if k == 0 {
        0
    } else {
        count_correct(s, mid, (k - 1) as nat) + if validation_spec(s[k - 1], mid).correct {
            1nat
        } else {
            0nat
        }
    }
}

proof fn lemma_first_pending_range(s: Seq<PricePredictionData>, now: int, horizon: int, i: int)
    requires
        0 <= i <= s.len(),
    ensures
        i <= first_pending(s, now, horizon, i) <= s.len(),
        forall|j: int|
            i <= j < first_pending(s, now, horizon, i) ==> matured(#[trigger] s[j], now, horizon),
        first_pending(s, now, horizon, i) < s.len() ==> !matured(
            s[first_pending(s, now, horizon, i)],
            now,
            horizon,
        ),
    decreases s.len() - i,
{
    if i < s.len() && matured(s[i], now, horizon) {
        lemma_first_pending_range(s, now, horizon, i + 1);
    }
}

/// A check consumes each pending prediction at most once: what it consumes
/// and what it leaves are the queue, split in two, in order. Everything
/// consumed has matured, and when the queue is in time order nothing left
/// has.
pub proof fn lemma_consumed_once(s: Seq<PricePredictionData>, now: int, horizon: int)
    ensures
        consumed(s, now, horizon) + remaining(s, now, horizon) == s,
        forall|j: int|
            0 <= j < consumed(s, now, horizon).len() ==> matured(
                #[trigger] consumed(s, now, horizon)[j],
                now,
                horizon,
            ),
        (forall|a: int, b: int| 0 <= a <= b < s.len() ==> s[a].timestamp <= s[b].timestamp) ==> (
        forall|j: int|
            0 <= j < remaining(s, now, horizon).len() ==> !matured(
                #[trigger] remaining(s, now, horizon)[j],
                now,
                horizon,
            )),
{
    lemma_first_pending_range(s, now, horizon, 0);
    let k = first_pending(s, now, horizon, 0);
    assert(consumed(s, now, horizon) + remaining(s, now, horizon) =~= s);
    assert forall|j: int| 0 <= j < consumed(s, now, horizon).len() implies matured(
        #[trigger] consumed(s, now, horizon)[j],
        now,
        horizon,
    ) by {
        assert(consumed(s, now, horizon)[j] == s[j]);
    }
    if forall|a: int, b: int| 0 <= a <= b < s.len() ==> s[a].timestamp <= s[b].timestamp {
        assert forall|j: int| 0 <= j < remaining(s, now, horizon).len() implies !matured(
            #[trigger] remaining(s, now, horizon)[j],
            now,
            horizon,
        ) by {
            assert(remaining(s, now, horizon)[j] == s[k + j]);
            assert(s[k].timestamp <= s[k + j].timestamp);
        }
    }
}

/// Predictions waiting for their horizon, oldest first, with running
/// counts of how many were checked and how many were right.
pub struct PredictionQueue {
    pending: Vec<PricePredictionData>,
    total_predictions: u64,
    correct_predictions: u64,
}

impl PredictionQueue {
    pub closed spec fn pending_view(&self) -> Seq<PricePredictionData> {
        self.pending@
    }

    pub closed spec fn total(&self) -> int {
        self.total_predictions as int
    }

    pub closed spec fn correct(&self) -> int {
        self.correct_predictions as int
    }

    /// Predictions checked so far.
    pub fn total_predictions(&self) -> (r: u64)
        ensures
            r == self.total(),
    {
        self.total_predictions
    }

    /// Checked predictions that pointed the right way.
    pub fn correct_predictions(&self) -> (r: u64)
        ensures
            r == self.correct(),
    {
        self.correct_predictions
    }

    pub closed spec fn wf(&self) -> bool {
        &&& self.pending@.len() <= MAX_PENDING
        &&& forall|i: int|
            0 <= i < self.pending@.len() ==> 0 < #[trigger] self.pending@[i].mid_price <= MAX_PRICE
    }

    pub fn new() -> (r: PredictionQueue)
        ensures
            r.wf(),
            r.pending_view() == Seq::<PricePredictionData>::empty(),
            r.total() == 0,
            r.correct() == 0,
    {
        PredictionQueue { pending: Vec::new(), total_predictions: 0, correct_predictions: 0 }
    }

    /// Queues a prediction; the oldest one is dropped once `MAX_PENDING` are
    /// waiting.
    pub fn push(&mut self, prediction: PricePredictionData)
        requires
            old(self).wf(),
            0 < prediction.mid_price <= MAX_PRICE,
        ensures
            final(self).wf(),
            final(self).pending_view() == if old(self).pending_view().len() < MAX_PENDING {
                old(self).pending_view().push(prediction)
            } else {
                old(self).pending_view().push(prediction).skip(1)
            },
            final(self).total() == old(self).total(),
            final(self).correct() == old(self).correct(),
    {
        self.pending.push(prediction);
        if self.pending.len() > MAX_PENDING {
            self.pending.remove(0);
        }
        assert(self.pending@ =~= if old(self).pending_view().len() < MAX_PENDING {
            old(self).pending_view().push(prediction)
        } else {
            old(self).pending_view().push(prediction).skip(1)
        });
    }

    /// Checks, at time `now`, every prediction at the front of the queue
    /// whose horizon has passed against `current_mid_price`, removes it and
    /// counts it; returns the checks in queue order.
    pub fn validate(&mut self, current_mid_price: i64, now: i64) -> (r: Vec<Validation>)
        requires
            old(self).wf(),
            0 <= current_mid_price <= MAX_PRICE,
            old(self).total() + MAX_PENDING <= u64::MAX,
            old(self).correct() + MAX_PENDING <= u64::MAX,
        ensures
            final(self).wf(),
            ({
                let s = old(self).pending_view();
                let c = consumed(s, now as int, PREDICTION_HORIZON_NS as int);
                &&& final(self).pending_view() == remaining(s, now as int, PREDICTION_HORIZON_NS as int)
                &&& r@.len() == c.len()
                &&& forall|j: int|
                    0 <= j < c.len() ==> #[trigger] r@[j] == validation_spec(c[j], current_mid_price as int)
                &&& final(self).total() == old(self).total() + c.len()
                &&& final(self).correct() == old(self).correct() + count_correct(
                    s,
                    current_mid_price as int,
                    c.len(),
                )
            }),
    {
        let ghost s = self.pending@;
        let ghost h = PREDICTION_HORIZON_NS as int;
        proof {
            lemma_first_pending_range(s, now as int, h, 0);
        }
        let n = self.pending.len();
        let mut out: Vec<Validation> = Vec::new();
        let mut i: usize = 0;
        while i < n && (now as i128) - (self.pending[i].timestamp as i128) >= PREDICTION_HORIZON_NS as i128
            invariant
                n == s.len(),
                s == self.pending@,
                self.wf(),
                h == PREDICTION_HORIZON_NS,
                0 <= current_mid_price <= MAX_PRICE,
                i <= n,
                first_pending(s, now as int, h, 0) == first_pending(s, now as int, h, i as int),
                out@.len() == i,
                forall|j: int|
                    0 <= j < i ==> #[trigger] out@[j] == validation_spec(s[j], current_mid_price as int),
                self.total_predictions == old(self).total() + i,
                self.correct_predictions == old(self).correct() + count_correct(
                    s,
                    current_mid_price as int,
                    i as nat,
                ),
                count_correct(s, current_mid_price as int, i as nat) <= i,
                old(self).total() + MAX_PENDING <= u64::MAX,
                old(self).correct() + MAX_PENDING <= u64::MAX,
            decreases n - i,
        {
            let p = self.pending[i];
            proof {
                assert(matured(s[i as int], now as int, h));
                assert(first_pending(s, now as int, h, i as int) == first_pending(
                    s,
                    now as int,
                    h,
                    i as int + 1,
                ));
                assert(0 < self.pending@[i as int].mid_price <= MAX_PRICE);
            }
            let mid = p.mid_price as i128;
            let diff = current_mid_price as i128 - mid;
            assert(-1_000_000_000_000_000 <= diff <= 1_000_000_000_000_000);
            let num = diff * 10_000_000_000;
            assert(num == (current_mid_price - p.mid_price) * 100 * ONE);
            proof {
                let nn = num as int;
                if nn >= 0 {
                    assert(0 <= nn / (mid as int) <= nn) by (nonlinear_arith)
                        requires
                            nn >= 0,
                            mid >= 1,
                    ;
                } else {
                    assert(0 <= (-nn) / (mid as int) <= -nn) by (nonlinear_arith)
                        requires
                            nn < 0,
                            mid >= 1,
                    ;
                }
            }
            let actual = if num >= 0 {
                num / mid
            } else {
                -((-num) / mid)
            };
            let correct = (p.predicted_change > 0 && actual > 0) || (p.predicted_change < 0 && actual
                < 0);
            out.push(Validation { prediction: p, actual_change: actual, correct });
            self.total_predictions = self.total_predictions + 1;
            if correct {
                self.correct_predictions = self.correct_predictions + 1;
            }
            i = i + 1;
        }
        let mut rest: Vec<PricePredictionData> = Vec::new();
        let mut j: usize = i;
        while j < n
            invariant
                n == s.len(),
                s == self.pending@,
                i <= j <= n,
                rest@ == s.subrange(i as int, j as int),
            decreases n - j,
        {
            rest.push(self.pending[j]);
            j = j + 1;
            assert(rest@ =~= s.subrange(i as int, j as int));
        }
        self.pending = rest;
        assert(first_pending(s, now as int, h, 0) == i);
        assert(self.pending@ =~= remaining(s, now as int, h));
        out
    }
}

} // verus!
