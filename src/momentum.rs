//! Momentum indicator: cumulative and per-step returns over a lookback
//! window of prices, and the trading signal derived from them.
use crate::fixed::{trunc_div, ONE};
use crate::pricing::MAX_PRICE;
use vstd::prelude::*;

verus! {

/// Longest lookback window.
pub const MAX_LOOKBACK: usize = 1_000_000;

#[derive(Clone, Copy, Debug, PartialEq, Eq, Structural)]
pub enum SignalType {
    Long,
    Short,
    Neutral,
}

/// `s`, without its oldest element once it holds more than `k`.
pub open spec fn bounded(s: Seq<i64>, k: nat) -> Seq<i64> {
    if s.len() > k {
        s.subrange(1, s.len() as int)
    } else {
        s
    }
}

pub open spec fn bounded_returns(s: Seq<i128>, k: nat) -> Seq<i128> {
    if s.len() > k {
        s.subrange(1, s.len() as int)
    } else {
        s
    }
}

/// Relative change from `prev` to `cur` (fixed-point), rounded toward zero.
pub open spec fn return_of(prev: int, cur: int) -> int {
    trunc_div((cur - prev) * ONE, prev)
}

pub open spec fn sum_returns(s: Seq<i128>, k: nat) -> int
    decreases k,
{
    if k == 0 {
        0
    } else {
        sum_returns(s, (k - 1) as nat) + s[k - 1]
    }
}

/// Largest magnitude of one return.
pub open spec fn return_bound() -> int {
    100_000_000_000_000_000_000_000
}

pub open spec fn prices_in_range(s: Seq<i64>) -> bool {
    forall|i: int| 0 <= i < s.len() ==> 0 < #[trigger] s[i] <= MAX_PRICE
}

pub open spec fn returns_in_range(s: Seq<i128>) -> bool {
    forall|i: int| 0 <= i < s.len() ==> -return_bound() <= #[trigger] s[i] <= return_bound()
}

pub struct MomentumIndicator {
    lookback_period: usize,
    price_history: Vec<i64>,
    returns_history: Vec<i128>,
    momentum_threshold: i64,
}

fn relative_change(prev: i64, cur: i64) -> (r: i128)
    requires
        0 < prev <= MAX_PRICE,
        0 < cur <= MAX_PRICE,
    ensures
        r == return_of(prev as int, cur as int),
        -return_bound() <= r <= return_bound(),
{
    let num = (cur as i128 - prev as i128) * (ONE as i128);
    let d = prev as i128;
    proof {
        let n = num as int;
        if n >= 0 {
            assert(0 <= n / (d as int) <= n) by (nonlinear_arith)
                requires
                    n >= 0,
                    d >= 1,
            ;
        } else {
            assert(0 <= (-n) / (d as int) <= -n) by (nonlinear_arith)
                requires
                    n < 0,
                    d >= 1,
            ;
        }
    }
    if num >= 0 {
        num / d
    } else {
        -((-num) / d)
    }
}

impl MomentumIndicator {
    pub closed spec fn prices(&self) -> Seq<i64> {
        self.price_history@
    }

    pub closed spec fn step_returns(&self) -> Seq<i128> {
        self.returns_history@
    }

    pub closed spec fn lookback(&self) -> nat {
        self.lookback_period as nat
    }

    pub closed spec fn threshold(&self) -> int {
        self.momentum_threshold as int
    }

    pub closed spec fn wf(&self) -> bool {
        &&& self.lookback_period <= MAX_LOOKBACK
        &&& self.price_history@.len() <= self.lookback_period + 1
        &&& self.returns_history@.len() <= self.lookback_period
        &&& prices_in_range(self.price_history@)
        &&& returns_in_range(self.returns_history@)
    }

    pub fn new(lookback_period: usize, momentum_threshold: i64) -> (r: MomentumIndicator)
        requires
            lookback_period <= MAX_LOOKBACK,
        ensures
            r.wf(),
            r.lookback() == lookback_period,
            r.threshold() == momentum_threshold,
            r.prices() == Seq::<i64>::empty(),
            r.step_returns() == Seq::<i128>::empty(),
    {
        MomentumIndicator {
            lookback_period,
            price_history: Vec::new(),
            returns_history: Vec::new(),
            momentum_threshold,
        }
    }

    /// Adds a price, keeping the last `lookback + 1` prices and the last
    /// `lookback` returns between consecutive prices.
    pub fn update(&mut self, price: i64)
        requires
            old(self).wf(),
            0 < price <= MAX_PRICE,
        ensures
            final(self).wf(),
            final(self).lookback() == old(self).lookback(),
            final(self).threshold() == old(self).threshold(),
            final(self).prices() == bounded(old(self).prices().push(price), old(self).lookback() + 1),
            final(self).step_returns() == if final(self).prices().len() >= 2 {
                let p = final(self).prices();
                bounded_returns(
                    old(self).step_returns().push(
                        return_of(p[p.len() - 2] as int, p[p.len() - 1] as int) as i128,
                    ),
                    old(self).lookback(),
                )
            } else {
                old(self).step_returns()
            },
    {
        self.price_history.push(price);
        if self.price_history.len() > self.lookback_period + 1 {
            self.price_history.remove(0);
        }
        assert(self.price_history@ =~= bounded(old(self).prices().push(price), old(self).lookback() + 1));
        let n = self.price_history.len();
        if n >= 2 {
            let prev = self.price_history[n - 2];
            let cur = self.price_history[n - 1];
            let r = relative_change(prev, cur);
            self.returns_history.push(r);
            if self.returns_history.len() > self.lookback_period {
                self.returns_history.remove(0);
            }
            assert(self.returns_history@ =~= bounded_returns(
                old(self).step_returns().push(r),
                old(self).lookback(),
            ));
        }
    }

    pub open spec fn momentum_spec(&self) -> Option<int> {
        let p = self.prices();
        if p.len() < 2 {
            None
        } else {
            Some(return_of(p[0] as int, p[p.len() - 1] as int))
        }
    }

    /// Cumulative return from the oldest to the newest price; `None` with
    /// fewer than two prices.
    pub fn calculate_momentum(&self) -> (r: Option<i128>)
        requires
            self.wf(),
        ensures
            r matches Some(m) ==> self.momentum_spec() == Some(m as int),
            r is None <==> self.momentum_spec() is None,
    {
        let n = self.price_history.len();
        if n < 2 {
            return None;
        }
        Some(relative_change(self.price_history[0], self.price_history[n - 1]))
    }

    /// Mean of the stored returns, rounded toward zero; `None` when there
    /// are none.
    pub fn calculate_average_return(&self) -> (r: Option<i128>)
        requires
            self.wf(),
        ensures
            self.step_returns().len() == 0 ==> r is None,
            self.step_returns().len() > 0 ==> r == Some(
                trunc_div(
                    sum_returns(self.step_returns(), self.step_returns().len()),
                    self.step_returns().len() as int,
                ) as i128,
            ),
    {
        let n = self.returns_history.len();
        if n == 0 {
            return None;
        }
        let mut total: i128 = 0;
        let mut i: usize = 0;
        while i < n
            invariant
                n == self.returns_history@.len(),
                n <= MAX_LOOKBACK,
                returns_in_range(self.returns_history@),
                i <= n,
                total == sum_returns(self.returns_history@, i as nat),
                -i * 100_000_000_000_000_000_000_000 <= total <= i * 100_000_000_000_000_000_000_000,
            decreases n - i,
        {
            total = total + self.returns_history[i];
            i = i + 1;
        }
        let d = n as i128;
        proof {
            let t = total as int;
            if t >= 0 {
                assert(0 <= t / (d as int) <= t) by (nonlinear_arith)
                    requires
                        t >= 0,
                        d >= 1,
                ;
            } else {
                assert(0 <= (-t) / (d as int) <= -t) by (nonlinear_arith)
                    requires
                        t < 0,
                        d >= 1,
                ;
            }
        }
        if total >= 0 {
            Some(total / d)
        } else {
            Some(-((-total) / d))
        }
    }

    pub open spec fn signal_spec(&self) -> SignalType {
        match self.momentum_spec() {
            None => SignalType::Neutral,
            Some(m) => if m > self.threshold() {
                SignalType::Long
            } else if m < -self.threshold() {
                SignalType::Short
            } else {
                SignalType::Neutral
            },
        }
    }

    /// Long above the threshold, short below its negation, neutral between
    /// and while there is no momentum yet.
    pub fn generate_signal(&self) -> (r: SignalType)
        requires
            self.wf(),
        ensures
            r == self.signal_spec(),
    {
        match self.calculate_momentum() {
            None => SignalType::Neutral,
            Some(m) => {
                let th = self.momentum_threshold as i128;
                if m > th {
                    SignalType::Long
                } else if m < -th {
                    SignalType::Short
                } else {
                    SignalType::Neutral
                }
            },
        }
    }

    /// The window holds at least `lookback` prices.
    pub fn is_ready(&self) -> (r: bool)
        ensures
            r == (self.prices().len() >= self.lookback()),
    {
        self.price_history.len() >= self.lookback_period
    }

    /// The momentum, or 0 while there is none.
    pub fn get_momentum(&self) -> (r: i128)
        requires
            self.wf(),
        ensures
            r == match self.momentum_spec() {
                Some(m) => m,
                None => 0,
            },
    {
        match self.calculate_momentum() {
            Some(m) => m,
            None => 0,
        }
    }
}

/// Side of the momentum strategy's single position.
#[derive(Clone, Copy, Debug, PartialEq, Eq, Structural)]
pub enum PositionState {
    Flat,
    Long,
    Short,
}

/// What the momentum strategy does on an evaluation.
#[derive(Clone, Copy, Debug, PartialEq, Eq, Structural)]
pub enum TradeAction {
    Hold,
    OpenLong,
    OpenShort,
    Close,
}

/// Return of the open position since entry (fixed-point), rounded toward
/// zero: a long gains when the price rises, a short when it falls.
pub open spec fn position_return(state: PositionState, entry: int, price: int) -> int {
    match state {
        PositionState::Long => return_of(entry, price),
        PositionState::Short => return_of(entry, 2 * entry - price),
        PositionState::Flat => 0,
    }
}

pub open spec fn should_close_spec(
    state: PositionState,
    entry: int,
    price: int,
    stop_loss: int,
    take_profit: int,
) -> bool {
    entry != 0 && state != PositionState::Flat && {
        let r = position_return(state, entry, price);
        r <= -stop_loss || r >= take_profit
    }
}

/// The stop-loss or the take-profit of the open position is reached.
pub fn should_close_position(
    state: PositionState,
    entry_price: i64,
    current_price: i64,
    stop_loss: i64,
    take_profit: i64,
) -> (r: bool)
    requires
        0 <= entry_price <= MAX_PRICE,
        0 <= current_price <= MAX_PRICE,
    ensures
        r == should_close_spec(
            state,
            entry_price as int,
            current_price as int,
            stop_loss as int,
            take_profit as int,
        ),
{
    if entry_price == 0 {
        return false;
    }
    let gain = match state {
        PositionState::Long => current_price as i128 - entry_price as i128,
        PositionState::Short => entry_price as i128 - current_price as i128,
        PositionState::Flat => {
            return false;
        },
    };
    assert(-1_000_000_000_000_000 <= gain <= 1_000_000_000_000_000);
    let num = gain * 100_000_000;
    let d = entry_price as i128;
    let ratio = if num >= 0 {
        num / d
    } else {
        -((-num) / d)
    };
    ratio <= -(stop_loss as i128) || ratio >= take_profit as i128
}

pub open spec fn action_spec(
    state: PositionState,
    ready: bool,
    close: bool,
    signal: SignalType,
) -> TradeAction {
    if !ready {
        TradeAction::Hold
    } else if state != PositionState::Flat && close {
        TradeAction::Close
    } else {
        match (state, signal) {
            (PositionState::Flat, SignalType::Long) => TradeAction::OpenLong,
            (PositionState::Flat, SignalType::Short) => TradeAction::OpenShort,
            (PositionState::Long, SignalType::Short) => TradeAction::Close,
            (PositionState::Short, SignalType::Long) => TradeAction::Close,
            _ => TradeAction::Hold,
        }
    }
}

/// Nothing before the indicator is ready; then an exit on stop-loss or
/// take-profit; then an entry on a signal when flat, or a close on the
/// opposite signal.
pub fn momentum_action(state: PositionState, ready: bool, close: bool, signal: SignalType) -> (r:
    TradeAction)
    ensures
        r == action_spec(state, ready, close, signal),
{
    if !ready {
        return TradeAction::Hold;
    }
    if state != PositionState::Flat && close {
        return TradeAction::Close;
    }
    match (state, signal) {
        (PositionState::Flat, SignalType::Long) => TradeAction::OpenLong,
        (PositionState::Flat, SignalType::Short) => TradeAction::OpenShort,
        (PositionState::Long, SignalType::Short) => TradeAction::Close,
        (PositionState::Short, SignalType::Long) => TradeAction::Close,
        _ => TradeAction::Hold,
    }
}

/// Signed value and unrealized PnL of the open position (fixed-point),
/// rounded toward zero.
pub open spec fn position_metrics_spec(state: PositionState, qty: int, entry: int, mid: int) -> (
    int,
    int,
) {
    match state {
        PositionState::Long => (trunc_div(qty * mid, ONE as int), trunc_div((mid - entry) * qty, ONE as int)),
        PositionState::Short => (
            trunc_div(-qty * mid, ONE as int),
            trunc_div((entry - mid) * qty, ONE as int),
        ),
        PositionState::Flat => (0, 0),
    }
}

fn scaled_down(x: i128) -> (r: i128)
    requires
        -0x4000_0000_0000_0000_0000_0000_0000_0000 <= x <= 0x4000_0000_0000_0000_0000_0000_0000_0000,
    ensures
        r == trunc_div(x as int, ONE as int),
{
    if x >= 0 {
        x / (ONE as i128)
    } else {
        -((-x) / (ONE as i128))
    }
}

pub fn calculate_position_metrics(state: PositionState, qty: i64, entry_price: i64, mid_price: i64) -> (r: (
    i128,
    i128,
))
    requires
        0 <= entry_price <= MAX_PRICE,
        0 <= mid_price <= MAX_PRICE,
    ensures
        r.0 == position_metrics_spec(state, qty as int, entry_price as int, mid_price as int).0,
        r.1 == position_metrics_spec(state, qty as int, entry_price as int, mid_price as int).1,
{
    let q = qty as i128;
    let m = mid_price as i128;
    let e = entry_price as i128;
    proof {
        assert(-0x8000_0000_0000_0000 * MAX_PRICE <= q * m <= 0x8000_0000_0000_0000 * MAX_PRICE)
            by (nonlinear_arith)
            requires
                -0x8000_0000_0000_0000 <= q <= 0x8000_0000_0000_0000,
                0 <= m <= MAX_PRICE,
        ;
        assert(-0x8000_0000_0000_0000 * MAX_PRICE <= (m - e) * q <= 0x8000_0000_0000_0000 * MAX_PRICE)
            by (nonlinear_arith)
            requires
                -0x8000_0000_0000_0000 <= q <= 0x8000_0000_0000_0000,
                -MAX_PRICE <= m - e <= MAX_PRICE,
        ;
        assert(-q * m == -(q * m)) by (nonlinear_arith);
        assert((e - m) * q == -((m - e) * q)) by (nonlinear_arith);
    }
    match state {
        PositionState::Long => (scaled_down(q * m), scaled_down((m - e) * q)),
        PositionState::Short => (scaled_down(-(q * m)), scaled_down(-((m - e) * q))),
        PositionState::Flat => (0, 0),
    }
}

} // verus!
