//! Prices derived from a snapshot of the order book: mid-price, micro-price,
//! order-book imbalance and the inventory-adjusted reservation price.
use crate::fixed::{lemma_trunc_div_monotone, trunc_div, ONE};
use vstd::prelude::*;

verus! {

/// Largest price (fixed-point) that a book level may carry.
pub const MAX_PRICE: i64 = 1_000_000_000_000_000;

/// Largest quantity (fixed-point) at one book level.
pub const MAX_QTY: i64 = 1_000_000_000_000_000;

/// Largest number of levels that one calculation aggregates.
pub const MAX_LEVELS: usize = 10_000;

/// A read-only snapshot of one instrument's book. `bid_qty[i]` is the
/// quantity resting `i` ticks below the best bid, `ask_qty[i]` the quantity
/// `i` ticks above the best ask; levels past the end hold nothing.
/// `i64::MIN` as best bid and `i64::MAX` as best ask mean "no quote yet".
#[derive(Clone, Debug)]
pub struct DepthView {
    pub best_bid_tick: i64,
    pub best_ask_tick: i64,
    pub tick_size: i64,
    pub bid_qty: Vec<i64>,
    pub ask_qty: Vec<i64>,
}

pub open spec fn side_quoted(tick: i64, sentinel: i64, tick_size: i64) -> bool {
    tick != sentinel ==> 0 <= tick && tick * tick_size <= MAX_PRICE
}

pub open spec fn quantities_in_range(s: Seq<i64>) -> bool {
    forall|i: int| 0 <= i < s.len() ==> #[trigger] s[i] <= MAX_QTY
}

/// Quantity counted at level `i`: only positive quantities count.
pub open spec fn qty_at(s: Seq<i64>, i: int) -> int {
    if 0 <= i < s.len() && s[i] > 0 {
        s[i] as int
    } else {
        0
    }
}

/// Total quantity over the first `n` levels.
pub open spec fn volume(s: Seq<i64>, n: nat) -> int
    decreases n,
{
    if n == 0 {
        0
    } else {
        volume(s, (n - 1) as nat) + qty_at(s, n - 1)
    }
}

impl DepthView {
    /// The snapshot's numbers are within the ranges this library computes on.
    pub open spec fn wf(&self) -> bool {
        &&& 0 < self.tick_size <= MAX_PRICE
        &&& side_quoted(self.best_bid_tick, i64::MIN, self.tick_size)
        &&& side_quoted(self.best_ask_tick, i64::MAX, self.tick_size)
        &&& quantities_in_range(self.bid_qty@)
        &&& quantities_in_range(self.ask_qty@)
    }

    /// Both sides are quoted.
    pub open spec fn valid(&self) -> bool {
        self.best_bid_tick != i64::MIN && self.best_ask_tick != i64::MAX
    }

    pub open spec fn bid_price(&self) -> int {
        self.best_bid_tick * self.tick_size
    }

    pub open spec fn ask_price(&self) -> int {
        self.best_ask_tick * self.tick_size
    }

    pub open spec fn mid_price_spec(&self) -> int {
        (self.bid_price() + self.ask_price()) / 2
    }

    pub open spec fn bid_volume(&self, levels: nat) -> int {
        volume(self.bid_qty@, levels)
    }

    pub open spec fn ask_volume(&self, levels: nat) -> int {
        volume(self.ask_qty@, levels)
    }
}

fn quantities_checked(q: &Vec<i64>) -> (r: bool)
    ensures
        r == quantities_in_range(q@),
{
    let mut i: usize = 0;
    while i < q.len()
        invariant
            i <= q@.len(),
            forall|j: int| 0 <= j < i ==> #[trigger] q@[j] <= MAX_QTY,
        decreases q.len() - i,
    {
        if q[i] > MAX_QTY {
            return false;
        }
        i = i + 1;
    }
    true
}

fn side_checked(tick: i64, sentinel: i64, tick_size: i64) -> (r: bool)
    requires
        0 < tick_size <= MAX_PRICE,
    ensures
        r == side_quoted(tick, sentinel, tick_size),
{
    if tick == sentinel {
        return true;
    }
    if tick < 0 {
        return false;
    }
    let t = tick as i128;
    let z = tick_size as i128;
    assert(0 <= t * z <= 0x8000_0000_0000_0000 * 0x8000_0000_0000_0000) by (nonlinear_arith)
        requires
            0 <= t <= 0x8000_0000_0000_0000,
            0 <= z <= 0x8000_0000_0000_0000,
    ;
    t * z <= MAX_PRICE as i128
}

impl DepthView {
    /// Whether the snapshot is within the ranges this library computes on.
    pub fn is_well_formed(&self) -> (r: bool)
        ensures
            r == self.wf(),
    {
        if self.tick_size <= 0 || self.tick_size > MAX_PRICE {
            return false;
        }
        side_checked(self.best_bid_tick, i64::MIN, self.tick_size) && side_checked(
            self.best_ask_tick,
            i64::MAX,
            self.tick_size,
        ) && quantities_checked(&self.bid_qty) && quantities_checked(&self.ask_qty)
    }
}

/// Both sides of the book are quoted.
pub fn is_valid_depth(depth: &DepthView) -> (r: bool)
    ensures
        r == depth.valid(),
{
    depth.best_bid_tick != i64::MIN && depth.best_ask_tick != i64::MAX
}

/// Midpoint of the best bid and best ask prices, rounded down.
pub fn calculate_mid_price(depth: &DepthView) -> (r: i64)
    requires
        depth.wf(),
        depth.valid(),
    ensures
        r == depth.mid_price_spec(),
        0 <= r <= MAX_PRICE,
{
    let bid = depth.best_bid_tick * depth.tick_size;
    let ask = depth.best_ask_tick * depth.tick_size;
    (bid + ask) / 2
}

/// Sums the positive quantities of the first `levels` levels of one side.
fn sum_levels(qty: &Vec<i64>, levels: usize) -> (r: i128)
    requires
        quantities_in_range(qty@),
        levels <= MAX_LEVELS,
    ensures
        r == volume(qty@, levels as nat),
        0 <= r <= levels * MAX_QTY,
{
    let mut total: i128 = 0;
    let mut level: usize = 0;
    while level < levels
        invariant
            level <= levels <= MAX_LEVELS,
            quantities_in_range(qty@),
            total == volume(qty@, level as nat),
            0 <= total <= level * MAX_QTY,
        decreases levels - level,
    {
        if level < qty.len() {
            let q = qty[level];
            if q > 0 {
                total = total + q as i128;
            }
        }
        level = level + 1;
    }
    total
}

/// Volume-weighted price over a fixed number of book levels.
pub struct MicroPriceCalculator {
    pub depth_levels: usize,
}

pub open spec fn micro_price_spec(d: DepthView, levels: nat) -> int {
    if !d.valid() {
        0
    } else {
        let bv = d.bid_volume(levels);
        let av = d.ask_volume(levels);
        if bv + av == 0 {
            d.mid_price_spec()
        } else {
            (bv * d.ask_price() + av * d.bid_price()) / (bv + av)
        }
    }
}

impl MicroPriceCalculator {
    pub fn new(depth_levels: usize) -> (r: MicroPriceCalculator)
        ensures
            r.depth_levels == depth_levels,
    {
        MicroPriceCalculator { depth_levels }
    }

    /// `(bid_volume * best_ask + ask_volume * best_bid) / (bid_volume +
    /// ask_volume)` over `depth_levels` levels, rounded down; the midpoint
    /// when both sides are empty, 0 when the book is not quoted.
    pub fn calculate(&self, depth: &DepthView) -> (r: i64)
        requires
            depth.wf(),
            self.depth_levels <= MAX_LEVELS,
        ensures
            r == micro_price_spec(*depth, self.depth_levels as nat),
            0 <= r <= MAX_PRICE,
    {
        if depth.best_bid_tick == i64::MIN || depth.best_ask_tick == i64::MAX {
            return 0;
        }
        let bv = sum_levels(&depth.bid_qty, self.depth_levels);
        let av = sum_levels(&depth.ask_qty, self.depth_levels);
        if bv + av == 0 {
            return calculate_mid_price(depth);
        }
        let bid = (depth.best_bid_tick * depth.tick_size) as i128;
        let ask = (depth.best_ask_tick * depth.tick_size) as i128;
        proof {
            let lim = MAX_LEVELS * MAX_QTY;
            assert(0 <= bv * ask <= lim * MAX_PRICE) by (nonlinear_arith)
                requires
                    0 <= bv <= lim,
                    0 <= ask <= MAX_PRICE,
            ;
            assert(0 <= av * bid <= lim * MAX_PRICE) by (nonlinear_arith)
                requires
                    0 <= av <= lim,
                    0 <= bid <= MAX_PRICE,
            ;
        }
        let num = bv * ask + av * bid;
        let den = bv + av;
        proof {
            assert(num <= den * MAX_PRICE) by (nonlinear_arith)
                requires
                    num == bv * ask + av * bid,
                    den == bv + av,
                    0 <= bv,
                    0 <= av,
                    ask <= MAX_PRICE,
                    bid <= MAX_PRICE,
            ;
            assert(0 <= num / den <= MAX_PRICE) by (nonlinear_arith)
                requires
                    0 <= num <= den * MAX_PRICE,
                    den > 0,
            ;
        }
        (num / den) as i64
    }
}

/// Order-book imbalance as a fixed-point ratio in `[-ONE, ONE]`, rounded
/// toward zero; 0 when there is no volume.
pub open spec fn imbalance_of(bv: int, av: int) -> int {
    if bv + av == 0 {
        0
    } else {
        trunc_div((bv - av) * ONE, bv + av)
    }
}

pub open spec fn imbalance_spec(d: DepthView, levels: nat) -> int {
    if !d.valid() {
        0
    } else {
        imbalance_of(d.bid_volume(levels), d.ask_volume(levels))
    }
}

/// `(bid_volume - ask_volume) / (bid_volume + ask_volume)` over a fixed
/// number of book levels.
pub struct OrderBookImbalance {
    pub depth_levels: usize,
}

impl OrderBookImbalance {
    pub fn new(depth_levels: usize) -> (r: OrderBookImbalance)
        ensures
            r.depth_levels == depth_levels,
    {
        OrderBookImbalance { depth_levels }
    }

    pub fn calculate(&self, depth: &DepthView) -> (r: i64)
        requires
            depth.wf(),
            self.depth_levels <= MAX_LEVELS,
        ensures
            r == imbalance_spec(*depth, self.depth_levels as nat),
            -ONE <= r <= ONE,
    {
        if depth.best_bid_tick == i64::MIN || depth.best_ask_tick == i64::MAX {
            return 0;
        }
        let bv = sum_levels(&depth.bid_qty, self.depth_levels);
        let av = sum_levels(&depth.ask_qty, self.depth_levels);
        let den = bv + av;
        if den == 0 {
            return 0;
        }
        proof {
            assert(bv <= 10_000_000_000_000_000_000 && av <= 10_000_000_000_000_000_000);
            assert(-1_000_000_000_000_000_000_000_000_000 <= (bv - av) * 100_000_000
                <= 1_000_000_000_000_000_000_000_000_000);
        }
        let num = (bv - av) * (ONE as i128);
        proof {
            lemma_imbalance_range(bv as int, av as int);
        }
        let q = if num >= 0 {
            num / den
        } else {
            -((-num) / den)
        };
        q as i64
    }
}

/// The imbalance ratio lies in `[-ONE, ONE]`.
pub proof fn lemma_imbalance_range(bv: int, av: int)
    requires
        0 <= bv,
        0 <= av,
    ensures
        -ONE <= imbalance_of(bv, av) <= ONE,
{
    if bv + av != 0 {
        let n = (bv - av) * ONE;
        let d = bv + av;
        if n >= 0 {
            assert(n / d <= ONE) by (nonlinear_arith)
                requires
                    n == (bv - av) * ONE,
                    d == bv + av,
                    0 <= av,
                    d > 0,
                    n >= 0,
            ;
            assert(n / d >= 0) by (nonlinear_arith)
                requires
                    n >= 0,
                    d > 0,
            ;
        } else {
            assert((-n) / d <= ONE) by (nonlinear_arith)
                requires
                    n == (bv - av) * ONE,
                    d == bv + av,
                    0 <= bv,
                    d > 0,
            ;
            assert((-n) / d >= 0) by (nonlinear_arith)
                requires
                    -n >= 0,
                    d > 0,
            ;
        }
    }
}

/// Imbalance is 0 when both sides carry the same volume, `ONE` (+1) when
/// only the bid side carries volume, `-ONE` (-1) when only the ask side
/// does, and always lies in between.
pub proof fn lemma_imbalance_limits(bv: int, av: int)
    requires
        0 <= bv,
        0 <= av,
    ensures
        bv == av ==> imbalance_of(bv, av) == 0,
        bv > 0 && av == 0 ==> imbalance_of(bv, av) == ONE,
        bv == 0 && av > 0 ==> imbalance_of(bv, av) == -ONE,
        -ONE <= imbalance_of(bv, av) <= ONE,
{
    lemma_imbalance_range(bv, av);
    if bv > 0 && av == 0 {
        assert((bv * ONE) / bv == ONE) by (nonlinear_arith)
            requires
                bv > 0,
        ;
    }
    if bv == 0 && av > 0 {
        assert((av * ONE) / av == ONE) by (nonlinear_arith)
            requires
                av > 0,
        ;
        assert(-((bv - av) * ONE) == av * ONE);
    }
}

/// Rounding toward zero keeps the order of two fractions with positive
/// denominators.
proof fn lemma_trunc_fraction_order(n1: int, d1: int, n2: int, d2: int)
    requires
        d1 > 0,
        d2 > 0,
        n2 * d1 <= n1 * d2,
    ensures
        trunc_div(n2, d2) <= trunc_div(n1, d1),
{
    if n2 >= 0 && n1 >= 0 {
        let q1 = n1 / d1;
        let q2 = n2 / d2;
        assert(q2 <= q1) by (nonlinear_arith)
            requires
                q1 == n1 / d1,
                q2 == n2 / d2,
                d1 > 0,
                d2 > 0,
                n1 >= 0,
                n2 >= 0,
                n2 * d1 <= n1 * d2,
        ;
    } else if n2 < 0 && n1 < 0 {
        assert((-n1) * d2 <= (-n2) * d1) by (nonlinear_arith)
            requires
                n2 * d1 <= n1 * d2,
        ;
        let q1 = (-n1) / d1;
        let q2 = (-n2) / d2;
        assert(q1 <= q2) by (nonlinear_arith)
            requires
                q1 == (-n1) / d1,
                q2 == (-n2) / d2,
                d1 > 0,
                d2 > 0,
                -n1 > 0,
                -n2 > 0,
                (-n1) * d2 <= (-n2) * d1,
        ;
    } else if n2 < 0 {
        assert((-n2) / d2 >= 0) by (nonlinear_arith)
            requires
                -n2 > 0,
                d2 > 0,
        ;
        assert(n1 / d1 >= 0) by (nonlinear_arith)
            requires
                n1 >= 0,
                d1 > 0,
        ;
    } else {
        assert(n2 * d1 >= 0) by (nonlinear_arith)
            requires
                n2 >= 0,
                d1 > 0,
        ;
        assert(n1 * d2 < 0) by (nonlinear_arith)
            requires
                n1 < 0,
                d2 > 0,
        ;
    }
}

/// With the bid volume fixed, more ask volume never raises the imbalance:
/// it climbs toward +1 as the ask volume falls to 0, and falls toward -1 as
/// the ask volume grows.
pub proof fn lemma_imbalance_monotone(bv: int, av1: int, av2: int)
    requires
        0 <= bv,
        0 <= av1 <= av2,
    ensures
        imbalance_of(bv, av2) <= imbalance_of(bv, av1),
{
    lemma_imbalance_range(bv, av1);
    lemma_imbalance_range(bv, av2);
    if bv + av1 == 0 {
        if bv + av2 != 0 {
            assert(bv == 0);
            assert(-((bv - av2) * ONE) == av2 * ONE);
            assert((av2 * ONE) / (bv + av2) >= 0) by (nonlinear_arith)
                requires
                    av2 > 0,
                    bv + av2 > 0,
            ;
        }
    } else {
        let n1 = (bv - av1) * ONE;
        let n2 = (bv - av2) * ONE;
        assert(n2 * (bv + av1) <= n1 * (bv + av2)) by (nonlinear_arith)
            requires
                n1 == (bv - av1) * ONE,
                n2 == (bv - av2) * ONE,
                0 <= bv,
                av1 <= av2,
        ;
        lemma_trunc_fraction_order(n1, bv + av1, n2, bv + av2);
    }
}

/// The product `inventory * gamma * volatility²` that the reservation price
/// subtracts, before it is scaled back to fixed-point.
pub open spec fn inventory_risk(inventory: int, gamma: int, volatility: int) -> int {
    inventory * gamma * (volatility * volatility)
}

/// `mid - inventory * gamma * volatility²`, on fixed-point values, rounded
/// toward zero.
pub open spec fn reservation_spec(mid: int, inventory: int, gamma: int, volatility: int) -> int {
    mid - trunc_div(inventory_risk(inventory, gamma, volatility), ONE * ONE * ONE)
}

/// The computation fits the machine's integers.
pub open spec fn reservation_in_range(mid: int, inventory: int, gamma: int, volatility: int) -> bool {
    &&& i128::MIN < inventory_risk(inventory, gamma, volatility) <= i128::MAX
    &&& i64::MIN <= reservation_spec(mid, inventory, gamma, volatility) <= i64::MAX
}

/// Inventory-risk-adjusted quote center.
pub struct SpreadCalculator {
    pub gamma: i64,
}

impl SpreadCalculator {
    pub fn new(gamma: i64) -> (r: SpreadCalculator)
        ensures
            r.gamma == gamma,
    {
        SpreadCalculator { gamma }
    }

    pub fn calculate_reservation_price(&self, mid_price: i64, inventory: i64, volatility: i64) -> (r:
        i64)
        requires
            reservation_in_range(mid_price as int, inventory as int, self.gamma as int, volatility as int),
        ensures
            r == reservation_spec(mid_price as int, inventory as int, self.gamma as int, volatility as int),
    {
        let v = volatility as i128;
        let inv = inventory as i128;
        let g = self.gamma as i128;
        proof {
            assert(0 <= v * v <= 0x4000_0000_0000_0000_0000_0000_0000_0000) by (nonlinear_arith)
                requires
                    -0x8000_0000_0000_0000 <= v <= 0x7fff_ffff_ffff_ffff,
            ;
            assert(-0x4000_0000_0000_0000_0000_0000_0000_0000 <= inv * g
                <= 0x4000_0000_0000_0000_0000_0000_0000_0000) by (nonlinear_arith)
                requires
                    -0x8000_0000_0000_0000 <= inv <= 0x7fff_ffff_ffff_ffff,
                    -0x8000_0000_0000_0000 <= g <= 0x7fff_ffff_ffff_ffff,
            ;
        }
        let vsq = v * v;
        let ig = inv * g;
        proof {
            assert(ig * vsq == inventory_risk(inventory as int, self.gamma as int, volatility as int));
        }
        let risk = ig * vsq;
        let scale: i128 = (ONE as i128) * (ONE as i128) * (ONE as i128);
        let adj = if risk >= 0 {
            risk / scale
        } else {
            -((-risk) / scale)
        };
        (mid_price as i128 - adj) as i64
    }
}

impl SpreadCalculator {
    /// The reservation price when its computation fits the machine's
    /// integers, `None` otherwise.
    pub fn checked_reservation_price(&self, mid_price: i64, inventory: i64, volatility: i64) -> (r:
        Option<i64>)
        ensures
            r == if reservation_in_range(
                mid_price as int,
                inventory as int,
                self.gamma as int,
                volatility as int,
            ) {
                Some(reservation_spec(mid_price as int, inventory as int, self.gamma as int, volatility as int) as i64)
            } else {
                None::<i64>
            },
    {
        let v = volatility as i128;
        let inv = inventory as i128;
        let g = self.gamma as i128;
        proof {
            assert(0 <= v * v <= 0x4000_0000_0000_0000_0000_0000_0000_0000) by (nonlinear_arith)
                requires
                    -0x8000_0000_0000_0000 <= v <= 0x7fff_ffff_ffff_ffff,
            ;
            assert(-0x4000_0000_0000_0000_0000_0000_0000_0000 <= inv * g
                <= 0x4000_0000_0000_0000_0000_0000_0000_0000) by (nonlinear_arith)
                requires
                    -0x8000_0000_0000_0000 <= inv <= 0x7fff_ffff_ffff_ffff,
                    -0x8000_0000_0000_0000 <= g <= 0x7fff_ffff_ffff_ffff,
            ;
        }
        let vsq = v * v;
        let ig = inv * g;
        proof {
            assert(ig * vsq == inventory_risk(inventory as int, self.gamma as int, volatility as int));
        }
        match ig.checked_mul(vsq) {
            None => None,
            Some(risk) => {
                if risk == i128::MIN {
                    return None;
                }
                let scale: i128 = (ONE as i128) * (ONE as i128) * (ONE as i128);
                let adj = if risk >= 0 {
                    risk / scale
                } else {
                    -((-risk) / scale)
                };
                let res = mid_price as i128 - adj;
                if res < i64::MIN as i128 || res > i64::MAX as i128 {
                    None
                } else {
                    Some(res as i64)
                }
            },
        }
    }
}

/// With positive risk aversion and non-zero volatility, more inventory never
/// raises the reservation price: a long position lowers the quote center
/// and a short one raises it.
pub proof fn lemma_reservation_monotone(mid: int, i1: int, i2: int, gamma: int, volatility: int)
    requires
        i1 <= i2,
        gamma > 0,
        volatility != 0,
    ensures
        reservation_spec(mid, i2, gamma, volatility) <= reservation_spec(mid, i1, gamma, volatility),
        i1 <= 0 ==> reservation_spec(mid, i1, gamma, volatility) >= mid,
        i2 >= 0 ==> reservation_spec(mid, i2, gamma, volatility) <= mid,
{
    let k = gamma * (volatility * volatility);
    assert(k > 0) by (nonlinear_arith)
        requires
            k == gamma * (volatility * volatility),
            gamma > 0,
            volatility != 0,
    ;
    assert(i1 * gamma * (volatility * volatility) == i1 * k) by (nonlinear_arith)
        requires
            k == gamma * (volatility * volatility),
    ;
    assert(i2 * gamma * (volatility * volatility) == i2 * k) by (nonlinear_arith)
        requires
            k == gamma * (volatility * volatility),
    ;
    assert(i1 * k <= i2 * k) by (nonlinear_arith)
        requires
            i1 <= i2,
            k > 0,
    ;
    lemma_trunc_div_monotone(i1 * k, i2 * k, ONE * ONE * ONE);
    if i1 <= 0 {
        assert(i1 * k <= 0) by (nonlinear_arith)
            requires
                i1 <= 0,
                k > 0,
        ;
        lemma_trunc_div_monotone(i1 * k, 0, ONE * ONE * ONE);
    }
    if i2 >= 0 {
        assert(i2 * k >= 0) by (nonlinear_arith)
            requires
                i2 >= 0,
                k > 0,
        ;
        lemma_trunc_div_monotone(0, i2 * k, ONE * ONE * ONE);
    }
}

} // verus!
