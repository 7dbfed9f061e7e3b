//! Risk manager: a rolling window of mid-prices, its volatility, and order
//! sizes that shrink as inventory approaches its cap.
use crate::fixed::{abs, trunc_div};
use crate::pricing::MAX_PRICE;
use vstd::prelude::*;

verus! {

/// Largest rolling window that the volatility is computed over.
pub const MAX_WINDOW: usize = 1000;

/// Sum of the first `k` prices.
pub open spec fn sum(s: Seq<i64>, k: nat) -> int
    decreases k,
{
    if k == 0 {
        0
    } else {
        sum(s, (k - 1) as nat) + s[k - 1]
    }
}

/// Sum of the squares of the first `k` prices.
pub open spec fn sum_sq(s: Seq<i64>, k: nat) -> int
    decreases k,
{
    if k == 0 {
        0
    } else {
        sum_sq(s, (k - 1) as nat) + s[k - 1] * s[k - 1]
    }
}

/// Sum of the squared distances of the first `k` prices from `x`.
pub open spec fn sum_sq_dev(s: Seq<i64>, k: nat, x: int) -> int
    decreases k,
{
    if k == 0 {
        0
    } else {
        sum_sq_dev(s, (k - 1) as nat, x) + (s[k - 1] - x) * (s[k - 1] - x)
    }
}

/// `n² · variance` of the window: `n · Σp² − (Σp)²`.
pub open spec fn dispersion(s: Seq<i64>) -> int {
    s.len() * sum_sq(s, s.len()) - sum(s, s.len()) * sum(s, s.len())
}

/// `r` is the square root of `d / n²`, rounded down.
pub open spec fn scaled_root(r: int, n: int, d: int) -> bool {
    r >= 0 && (r * n) * (r * n) <= d && d < ((r + 1) * n) * ((r + 1) * n)
}

/// The window after `price` is pushed: the oldest price leaves once the
/// window is full.
pub open spec fn pushed(h: Seq<i64>, price: i64, window: nat) -> Seq<i64> {
    if h.len() >= window && h.len() > 0 {
        h.subrange(1, h.len() as int).push(price)
    } else {
        h.push(price)
    }
}

proof fn lemma_sum_sq_dev(s: Seq<i64>, k: nat, x: int)
    requires
        k <= s.len(),
    ensures
        sum_sq_dev(s, k, x) == sum_sq(s, k) - 2 * x * sum(s, k) + k * x * x,
        sum_sq_dev(s, k, x) >= 0,
    decreases k,
{
    if k > 0 {
        lemma_sum_sq_dev(s, (k - 1) as nat, x);
        let p = s[k - 1] as int;
        assert((p - x) * (p - x) == p * p - 2 * x * p + x * x) by (nonlinear_arith);
        assert((p - x) * (p - x) >= 0) by (nonlinear_arith);
        assert(k * x * x == (k - 1) * x * x + x * x) by (nonlinear_arith);
        let dev0 = sum_sq_dev(s, (k - 1) as nat, x);
        let q0 = sum_sq(s, (k - 1) as nat);
        let s0 = sum(s, (k - 1) as nat);
        assert(sum_sq_dev(s, k, x) == dev0 + (p - x) * (p - x));
        assert(sum_sq(s, k) == q0 + p * p);
        assert(sum(s, k) == s0 + p);
        assert(dev0 + (p - x) * (p - x) == (q0 + p * p) - 2 * x * (s0 + p) + k * x * x)
            by (nonlinear_arith)
            requires
                dev0 == q0 - 2 * x * s0 + (k - 1) * x * x,
        ;
    } else {
        assert(k * x * x == 0) by (nonlinear_arith)
            requires
                k == 0,
        ;
    }
}

/// `k · Σp² − (Σp)²` over a prefix is never negative.
proof fn lemma_dispersion_prefix(s: Seq<i64>, k: nat)
    requires
        k <= s.len(),
    ensures
        k * sum_sq(s, k) - sum(s, k) * sum(s, k) >= 0,
    decreases k,
{
    if k > 0 {
        let j = (k - 1) as nat;
        lemma_dispersion_prefix(s, j);
        lemma_sum_sq_dev(s, j, s[k - 1] as int);
        let p = s[k - 1] as int;
        let a = sum(s, j);
        let q = sum_sq(s, j);
        assert(k * (q + p * p) - (a + p) * (a + p) == (j * q - a * a) + (q - 2 * p * a + j * p * p))
            by (nonlinear_arith)
            requires
                k == j + 1,
        ;
    }
}

pub proof fn lemma_dispersion_nonnegative(s: Seq<i64>)
    ensures
        dispersion(s) >= 0,
{
    lemma_dispersion_prefix(s, s.len());
}

proof fn lemma_sum_bounds(s: Seq<i64>, k: nat)
    requires
        k <= s.len(),
        forall|i: int| 0 <= i < s.len() ==> 0 <= #[trigger] s[i] <= MAX_PRICE,
    ensures
        0 <= sum(s, k) <= k * MAX_PRICE,
        0 <= sum_sq(s, k) <= k * (MAX_PRICE * MAX_PRICE),
    decreases k,
{
    if k > 0 {
        lemma_sum_bounds(s, (k - 1) as nat);
        let p = s[k - 1] as int;
        assert(0 <= p * p <= MAX_PRICE * MAX_PRICE) by (nonlinear_arith)
            requires
                0 <= p <= MAX_PRICE,
        ;
    }
}

/// Largest integer whose square does not exceed `x`.
fn isqrt(x: u128) -> (r: u128)
    requires
        x < 0x1_0000_0000_0000_0000_0000_0000_0000_00,
    ensures
        r * r <= x < (r + 1) * (r + 1),
{
    let mut lo: u128 = 0;
    let mut hi: u128 = 0x1000_0000_0000_0000;
    assert(hi * hi == 0x1_0000_0000_0000_0000_0000_0000_0000_00) by (nonlinear_arith)
        requires
            hi == 0x1000_0000_0000_0000,
    ;
    while hi - lo > 1
        invariant
            lo < hi <= 0x1000_0000_0000_0000,
            lo * lo <= x < hi * hi,
        decreases hi - lo,
    {
        let mid = lo + (hi - lo) / 2;
        assert(mid * mid < 0x1_0000_0000_0000_0000_0000_0000_0000_00) by (nonlinear_arith)
            requires
                mid < 0x1000_0000_0000_0000,
        ;
        if mid * mid <= x {
            lo = mid;
        } else {
            hi = mid;
        }
    }
    lo
}

pub struct RiskManager {
    max_inventory: i64,
    volatility_threshold: i64,
    price_history: Vec<i64>,
    volatility_window: usize,
}

impl RiskManager {
    pub closed spec fn history(&self) -> Seq<i64> {
        self.price_history@
    }

    pub closed spec fn cap(&self) -> int {
        self.max_inventory as int
    }

    pub closed spec fn window(&self) -> nat {
        self.volatility_window as nat
    }

    pub closed spec fn threshold(&self) -> int {
        self.volatility_threshold as int
    }

    /// The window holds at most `max(window, 1)` prices, each within range,
    /// and the caps are not negative.
    pub closed spec fn wf(&self) -> bool {
        &&& 0 <= self.max_inventory
        &&& 1 <= self.volatility_window <= MAX_WINDOW
        &&& self.price_history@.len() <= self.volatility_window
        &&& forall|i: int|
            0 <= i < self.price_history@.len() ==> 0 <= #[trigger] self.price_history@[i] <= MAX_PRICE
    }

    pub fn new(max_inventory: i64, volatility_threshold: i64, volatility_window: usize) -> (r:
        RiskManager)
        requires
            0 <= max_inventory,
            1 <= volatility_window <= MAX_WINDOW,
        ensures
            r.wf(),
            r.cap() == max_inventory,
            r.threshold() == volatility_threshold,
            r.window() == volatility_window,
            r.history() == Seq::<i64>::empty(),
    {
        RiskManager {
            max_inventory,
            volatility_threshold,
            price_history: Vec::new(),
            volatility_window,
        }
    }

    /// The position is strictly inside the inventory cap.
    pub fn is_position_safe(&self, inventory: i64) -> (r: bool)
        ensures
            r == (abs(inventory as int) < self.cap()),
    {
        let inv = inventory as i128;
        let m = self.max_inventory as i128;
        if inv < 0 {
            -inv < m
        } else {
            inv < m
        }
    }

    /// Adds a mid-price to the window, dropping the oldest once it is full.
    pub fn update_price(&mut self, price: i64)
        requires
            old(self).wf(),
            0 <= price <= MAX_PRICE,
        ensures
            final(self).wf(),
            final(self).history() == pushed(old(self).history(), price, old(self).window()),
            final(self).window() == old(self).window(),
            final(self).threshold() == old(self).threshold(),
            final(self).cap() == old(self).cap(),
    {
        if self.price_history.len() >= self.volatility_window && self.price_history.len() > 0 {
            self.price_history.remove(0);
        }
        self.price_history.push(price);
        assert(self.price_history@ =~= pushed(old(self).history(), price, old(self).window()));
    }

    /// Population standard deviation of the window, rounded down: with `n`
    /// prices, `r` is the integer with `(r·n)² ≤ n·Σp² − (Σp)² < ((r+1)·n)²`;
    /// 0 with fewer than two prices.
    pub fn calculate_volatility(&self) -> (r: i64)
        requires
            self.wf(),
        ensures
            r >= 0,
            self.history().len() < 2 ==> r == 0,
            self.history().len() >= 2 ==> {
                let n = self.history().len() as int;
                &&& (r * n) * (r * n) <= dispersion(self.history())
                &&& dispersion(self.history()) < ((r + 1) * n) * ((r + 1) * n)
            },
    {
        let n = self.price_history.len();
        if n < 2 {
            return 0;
        }
        let ghost h = self.price_history@;
        let mut s1: u128 = 0;
        let mut s2: u128 = 0;
        let mut i: usize = 0;
        while i < n
            invariant
                n == h.len(),
                2 <= n <= MAX_WINDOW,
                h == self.price_history@,
                forall|j: int| 0 <= j < h.len() ==> 0 <= #[trigger] h[j] <= MAX_PRICE,
                i <= n,
                s1 == sum(h, i as nat),
                s2 == sum_sq(h, i as nat),
            decreases n - i,
        {
            proof {
                lemma_sum_bounds(h, (i + 1) as nat);
                assert((i + 1) * (MAX_PRICE * MAX_PRICE) <= MAX_WINDOW * (MAX_PRICE * MAX_PRICE))
                    by (nonlinear_arith)
                    requires
                        i + 1 <= MAX_WINDOW,
                ;
            }
            let p = self.price_history[i] as u128;
            s1 = s1 + p;
            s2 = s2 + p * p;
            i = i + 1;
        }
        proof {
            lemma_sum_bounds(h, n as nat);
            lemma_dispersion_nonnegative(h);
            assert(n * s2 <= MAX_WINDOW * (MAX_WINDOW * (MAX_PRICE * MAX_PRICE))) by (nonlinear_arith)
                requires
                    n <= MAX_WINDOW,
                    0 <= s2 <= n * (MAX_PRICE * MAX_PRICE),
            ;
            assert(s1 * s1 <= n * s2) by (nonlinear_arith)
                requires
                    n * s2 - s1 * s1 >= 0,
            ;
        }
        let d = (n as u128) * s2 - s1 * s1;
        let root = isqrt(d);
        let r = root / (n as u128);
        proof {
            let nn = n as int;
            let rr = r as int;
            let sq = root as int;
            assert(rr * nn <= sq < (rr + 1) * nn) by (nonlinear_arith)
                requires
                    rr == sq / nn,
                    nn > 0,
            ;
            assert((rr * nn) * (rr * nn) <= sq * sq) by (nonlinear_arith)
                requires
                    0 <= rr * nn <= sq,
            ;
            assert((sq + 1) * (sq + 1) <= ((rr + 1) * nn) * ((rr + 1) * nn)) by (nonlinear_arith)
                requires
                    0 <= sq + 1 <= (rr + 1) * nn,
            ;
            assert(rr <= sq) by (nonlinear_arith)
                requires
                    rr == sq / nn,
                    nn > 0,
                    sq >= 0,
            ;
            assert(sq < 0x1_0000_0000_0000_0000) by (nonlinear_arith)
                requires
                    sq * sq <= d,
                    d < 0x1_0000_0000_0000_0000_0000_0000_0000_00,
                    sq >= 0,
            ;
            assert(rr < 0x8000_0000_0000_0000) by (nonlinear_arith)
                requires
                    rr == sq / nn,
                    nn >= 2,
                    0 <= sq < 0x1_0000_0000_0000_0000,
            ;
            assert(d as int == dispersion(h));
            assert(d < (sq + 1) * (sq + 1));
        }
        r as i64
    }

    /// The volatility exceeds the configured threshold.
    pub fn detect_toxic_flow(&self) -> (r: bool)
        requires
            self.wf(),
        ensures
            r == (self.volatility_of() > self.threshold()),
    {
        let v = self.calculate_volatility();
        proof {
            self.lemma_volatility_unique(v as int);
        }
        v > self.volatility_threshold
    }

    /// The rounded-down standard deviation that `calculate_volatility`
    /// returns.
    pub closed spec fn volatility_of(&self) -> int {
        let n = self.history().len() as int;
        if n < 2 {
            0
        } else {
            choose|r: int| #[trigger] scaled_root(r, n, dispersion(self.history()))
        }
    }

    pub proof fn lemma_volatility_unique(&self, v: int)
        requires
            v >= 0,
            self.history().len() < 2 ==> v == 0,
            self.history().len() >= 2 ==> {
                let n = self.history().len() as int;
                &&& (v * n) * (v * n) <= dispersion(self.history())
                &&& dispersion(self.history()) < ((v + 1) * n) * ((v + 1) * n)
            },
        ensures
            self.volatility_of() == v,
    {
        let n = self.history().len() as int;
        if n >= 2 {
            let d = dispersion(self.history());
            let w = self.volatility_of();
            assert(scaled_root(v, n, d));
            assert(scaled_root(w, n, d));
            if w < v {
                assert(((w + 1) * n) * ((w + 1) * n) <= (v * n) * (v * n)) by (nonlinear_arith)
                    requires
                        0 <= w + 1 <= v,
                        n > 0,
                ;
            }
            if v < w {
                assert(((v + 1) * n) * ((v + 1) * n) <= (w * n) * (w * n)) by (nonlinear_arith)
                    requires
                        0 <= v + 1 <= w,
                        n > 0,
                ;
            }
        }
    }

    /// `base · (1 − min(|inventory| / max_inventory, 1) / 2)`, rounded toward
    /// zero: the size falls linearly to half as the inventory reaches its
    /// cap. With a zero cap the base size is returned.
    pub fn adjust_order_size(&self, base_size: i64, inventory: i64) -> (r: i64)
        requires
            self.wf(),
        ensures
            r == adjusted_size(base_size as int, inventory as int, self.cap()),
    {
        if self.max_inventory == 0 {
            return base_size;
        }
        let inv = inventory as i128;
        let m = self.max_inventory as i128;
        let a = if inv < 0 {
            -inv
        } else {
            inv
        };
        let used = if a < m {
            a
        } else {
            m
        };
        let b = base_size as i128;
        proof {
            assert(-0x4000_0000_0000_0000_0000_0000_0000_0000 <= b * used
                <= 0x4000_0000_0000_0000_0000_0000_0000_0000) by (nonlinear_arith)
                requires
                    -0x8000_0000_0000_0000 <= b <= 0x7fff_ffff_ffff_ffff,
                    0 <= used <= 0x7fff_ffff_ffff_ffff,
            ;
            lemma_shrink_bounds(b as int, used as int, m as int);
        }
        let num = b * used;
        let den = 2 * m;
        let cut = if num >= 0 {
            num / den
        } else {
            -((-num) / den)
        };
        (b - cut) as i64
    }
}

/// The size that `adjust_order_size` returns.
pub open spec fn adjusted_size(base: int, inventory: int, max_inventory: int) -> int {
    if max_inventory == 0 {
        base
    } else {
        let used = if abs(inventory) < max_inventory {
            abs(inventory)
        } else {
            max_inventory
        };
        base - trunc_div(base * used, 2 * max_inventory)
    }
}

proof fn lemma_shrink_bounds(b: int, used: int, m: int)
    requires
        0 <= used <= m,
        m > 0,
    ensures
        b >= 0 ==> 0 <= trunc_div(b * used, 2 * m) <= b,
        b < 0 ==> b <= trunc_div(b * used, 2 * m) <= 0,
{
    if b >= 0 {
        assert(0 <= (b * used) / (2 * m) <= b) by (nonlinear_arith)
            requires
                b >= 0,
                0 <= used <= m,
                m > 0,
        ;
    } else {
        assert(0 <= ((-b) * used) / (2 * m) <= -b) by (nonlinear_arith)
            requires
                b < 0,
                0 <= used <= m,
                m > 0,
        ;
        assert(-(b * used) == (-b) * used) by (nonlinear_arith);
    }
}

} // verus!
