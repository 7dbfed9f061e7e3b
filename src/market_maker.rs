//! The market-making strategy: layered quotes around the reservation price,
//! and the pass that accounts for fills and refills vacated slots.
//!
//! Each layer `L` has two slots: the buy order with id `2L` and the sell
//! order with id `2L + 1`. A slot is refilled when its order filled, was
//! canceled or expired, or is unknown to the simulator.
use crate::fixed::{round_div, trunc_div, ONE};
use crate::order_tracker::{filled, OrderSide, OrderTracker, TrackerView};
use crate::pricing::{
    imbalance_spec, micro_price_spec, reservation_in_range, reservation_spec, DepthView,
    MicroPriceCalculator, OrderBookImbalance, SpreadCalculator, MAX_LEVELS, MAX_PRICE, MAX_QTY,
};
use crate::risk::{adjusted_size, RiskManager};
use vstd::prelude::*;

verus! {

/// Largest number of layers per side.
pub const MAX_LAYERS: usize = 1000;

/// Largest quoted spread, in ticks.
pub const MAX_SPREAD_TICKS: i64 = 10_000;

/// Largest position (fixed-point) from which a refill pass may start.
pub const MAX_POSITION: i64 = 4_000_000_000_000_000_000;

/// Largest realized PnL magnitude (fixed-point) from which a refill pass may
/// start.
pub const MAX_PNL: i128 = 100_000_000_000_000_000_000_000_000_000_000_000_000;

/// Each fill is credited one ten-thousandth of its notional as rebate.
pub const FEE_DIVISOR: i128 = 10_000;

/// Length of the rolling mid-price window.
pub const VOLATILITY_WINDOW: usize = 60;

/// Parameters of the market-making strategy; real values are fixed-point.
#[derive(Clone, Copy, Debug, PartialEq, Eq, Structural)]
pub struct MarketMakerConfig {
    pub gamma: i64,
    pub max_inventory: i64,
    pub volatility_threshold: i64,
    pub order_size: i64,
    pub depth_levels: usize,
    pub order_layers: usize,
    pub fixed_spread_ticks: i64,
}

impl MarketMakerConfig {
    pub open spec fn wf(&self) -> bool {
        &&& 0 <= self.max_inventory
        &&& self.depth_levels <= MAX_LEVELS
        &&& self.order_layers <= MAX_LAYERS
        &&& 0 <= self.fixed_spread_ticks <= MAX_SPREAD_TICKS
    }
}

impl Default for MarketMakerConfig {
    /// gamma 0.001, inventory cap 5, volatility threshold 5, order size
    /// 0.01, 20 depth levels, 2 layers, a 10-tick spread.
    fn default() -> (r: MarketMakerConfig)
        ensures
            r.gamma == 100_000,
            r.max_inventory == 5 * ONE,
            r.volatility_threshold == 5 * ONE,
            r.order_size == 1_000_000,
            r.depth_levels == 20,
            r.order_layers == 2,
            r.fixed_spread_ticks == 10,
            r.wf(),
    {
        MarketMakerConfig {
            gamma: 100_000,
            max_inventory: 5 * ONE,
            volatility_threshold: 5 * ONE,
            order_size: 1_000_000,
            depth_levels: 20,
            order_layers: 2,
            fixed_spread_ticks: 10,
        }
    }
}

/// Status of an order as the simulator reports it.
#[derive(Clone, Copy, Debug, PartialEq, Eq, Structural)]
pub enum OrderStatus {
    Filled,
    Canceled,
    Expired,
    Active,
}

/// One order as the simulator reports it: its price in ticks and its
/// quantity (fixed-point).
#[derive(Clone, Copy, Debug, PartialEq, Eq, Structural)]
pub struct OrderReport {
    pub order_id: u64,
    pub status: OrderStatus,
    pub price_tick: i64,
    pub qty: i64,
}

impl OrderReport {
    pub open spec fn wf(&self, tick_size: int) -> bool {
        &&& 0 <= self.qty <= MAX_QTY
        &&& 0 <= self.price_tick
        &&& self.price_tick * tick_size <= MAX_PRICE
    }
}

impl OrderReport {
    pub fn is_well_formed(&self, tick_size: i64) -> (r: bool)
        requires
            0 < tick_size <= MAX_PRICE,
        ensures
            r == self.wf(tick_size as int),
    {
        if self.qty < 0 || self.qty > MAX_QTY || self.price_tick < 0 {
            return false;
        }
        let t = self.price_tick as i128;
        let z = tick_size as i128;
        assert(0 <= t * z <= 0x8000_0000_0000_0000 * 0x8000_0000_0000_0000) by (nonlinear_arith)
            requires
                0 <= t <= 0x8000_0000_0000_0000,
                0 <= z <= 0x8000_0000_0000_0000,
        ;
        t * z <= MAX_PRICE as i128
    }
}

/// An order to submit: `price` is the exact quote, `price_tick` the quote
/// rounded to the nearest tick.
#[derive(Clone, Copy, Debug, PartialEq, Eq, Structural)]
pub struct Quote {
    pub order_id: u64,
    pub side: OrderSide,
    pub layer: usize,
    pub price: i128,
    pub price_tick: i128,
    pub qty: i64,
}

/// The first report under `id`, searching from index `i`.
pub open spec fn find_from(s: Seq<OrderReport>, id: u64, i: int) -> Option<OrderReport>
    decreases s.len() - i,
{
    if i < 0 || i >= s.len() {
        None
    } else if s[i].order_id == id {
        Some(s[i])
    } else {
        find_from(s, id, i + 1)
    }
}

/// What a slot needs.
pub enum SlotState {
    /// Its order filled, as reported.
    Filled(OrderReport),
    /// Its order left the book or was never seen: submit again.
    Vacant,
    /// Its order is resting: nothing to do.
    Resting,
}

pub open spec fn slot_state(orders: Seq<OrderReport>, slot: int) -> SlotState {
    match find_from(orders, slot as u64, 0) {
        None => SlotState::Vacant,
        Some(r) => match r.status {
            OrderStatus::Filled => SlotState::Filled(r),
            OrderStatus::Active => SlotState::Resting,
            _ => SlotState::Vacant,
        },
    }
}

pub open spec fn needs_refill(orders: Seq<OrderReport>, slot: int) -> bool {
    !(slot_state(orders, slot) is Resting)
}

pub open spec fn is_buy_slot(slot: int) -> bool {
    slot % 2 == 0
}

/// Notional of a fill (fixed-point), rounded down.
pub open spec fn fill_value(r: OrderReport, tick_size: int) -> int {
    (r.price_tick * tick_size) * r.qty / ONE as int
}

/// Position and realized PnL after the fill in `slot`, if there is one: a
/// buy adds its quantity and costs its notional, a sell removes its quantity
/// and earns its notional; either way the rebate is credited.
pub open spec fn after_slot(acc: (int, int), orders: Seq<OrderReport>, tick_size: int, slot: int) -> (
    int,
    int,
) {
    match slot_state(orders, slot) {
        SlotState::Filled(r) => {
            let v = fill_value(r, tick_size);
            if is_buy_slot(slot) {
                (acc.0 + r.qty, acc.1 - v + v / FEE_DIVISOR as int)
            } else {
                (acc.0 - r.qty, acc.1 + v + v / FEE_DIVISOR as int)
            }
        },
        _ => acc,
    }
}

/// Position and realized PnL after the fills of the first `k` slots.
pub open spec fn fills_through(
    orders: Seq<OrderReport>,
    tick_size: int,
    start: (int, int),
    k: nat,
) -> (int, int)
    decreases k,
{
    if k == 0 {
        start
    } else {
        after_slot(fills_through(orders, tick_size, start, (k - 1) as nat), orders, tick_size, k - 1)
    }
}

/// The tracker after the fills of the first `k` slots are marked.
pub open spec fn tracker_through(v: TrackerView, orders: Seq<OrderReport>, k: nat) -> TrackerView
    decreases k,
{
    if k == 0 {
        v
    } else {
        let prev = tracker_through(v, orders, (k - 1) as nat);
        if slot_state(orders, k - 1) is Filled {
            filled(prev, (k - 1) as u64)
        } else {
            prev
        }
    }
}

pub open spec fn half_spread(spread_ticks: int, tick_size: int) -> int {
    spread_ticks * tick_size / 2
}

/// Shift of both quotes by the book imbalance: a tenth of the half spread,
/// scaled by the imbalance.
pub open spec fn skew(imbalance: int, hs: int) -> int {
    trunc_div(imbalance * hs, 10 * ONE)
}

/// Quote price of a slot: buys below, sells above the reservation price,
/// one tick further out per layer.
pub open spec fn quote_price(slot: int, reservation: int, tick_size: int, hs: int, off: int) -> int {
    let layer = slot / 2;
    if is_buy_slot(slot) {
        reservation - hs - layer * tick_size - off
    } else {
        reservation + hs + layer * tick_size + off
    }
}

/// Size of layer `layer`: `size / (1 + layer / 2)`, rounded toward zero.
pub open spec fn layer_qty(size: int, layer: int) -> int {
    trunc_div(2 * size, 2 + layer)
}

pub open spec fn quote_spec(
    slot: int,
    reservation: int,
    tick_size: int,
    hs: int,
    off: int,
    size: int,
) -> Quote {
    let p = quote_price(slot, reservation, tick_size, hs, off);
    Quote {
        order_id: slot as u64,
        side: if is_buy_slot(slot) {
            OrderSide::Buy
        } else {
            OrderSide::Sell
        },
        layer: (slot / 2) as usize,
        price: p as i128,
        price_tick: round_div(p, tick_size) as i128,
        qty: layer_qty(size, slot / 2) as i64,
    }
}

/// The market-making strategy's state.
pub struct MarketMaker {
    pub micro_price_calc: MicroPriceCalculator,
    pub imbalance_calc: OrderBookImbalance,
    pub spread_calc: SpreadCalculator,
    pub risk_manager: RiskManager,
    pub order_tracker: OrderTracker,
    pub order_size: i64,
    pub order_layers: usize,
    pub fixed_spread_ticks: i64,
}

/// Finds the first report under `id`.
fn find_report(orders: &Vec<OrderReport>, id: u64) -> (r: Option<OrderReport>)
    ensures
        r == find_from(orders@, id, 0),
        r matches Some(x) ==> orders@.contains(x),
{
    let mut i: usize = 0;
    while i < orders.len()
        invariant
            i <= orders.len(),
            find_from(orders@, id, 0) == find_from(orders@, id, i as int),
        decreases orders.len() - i,
    {
        if orders[i].order_id == id {
            let r = orders[i];
            assert(orders@[i as int] == r);
            return Some(r);
        }
        i = i + 1;
    }
    None
}

/// Rounds `p / t` to the nearest integer, halves away from zero.
pub(crate) fn round_ticks(p: i128, t: i128) -> (r: i128)
    requires
        0 < t <= MAX_PRICE,
        -0x1000_0000_0000_0000_0000_0000_0000 <= p <= 0x1000_0000_0000_0000_0000_0000_0000,
    ensures
        r == round_div(p as int, t as int),
{
    proof {
        assert(round_div(p as int, t as int) == if p >= 0 {
            (2 * p + t) / (2 * t)
        } else {
            -((2 * (-p) + t) / (2 * t))
        });
    }
    if p >= 0 {
        (2 * p + t) / (2 * t)
    } else {
        -((2 * (-p) + t) / (2 * t))
    }
}

impl MarketMaker {
    pub open spec fn wf(&self) -> bool {
        &&& self.micro_price_calc.depth_levels <= MAX_LEVELS
        &&& self.imbalance_calc.depth_levels <= MAX_LEVELS
        &&& self.risk_manager.wf()
        &&& self.order_tracker.wf()
        &&& self.order_layers <= MAX_LAYERS
        &&& 0 <= self.fixed_spread_ticks <= MAX_SPREAD_TICKS
    }

    pub fn new(config: MarketMakerConfig) -> (r: MarketMaker)
        requires
            config.wf(),
        ensures
            r.wf(),
            r.micro_price_calc.depth_levels == config.depth_levels,
            r.imbalance_calc.depth_levels == config.depth_levels,
            r.spread_calc.gamma == config.gamma,
            r.risk_manager.cap() == config.max_inventory,
            r.risk_manager.threshold() == config.volatility_threshold,
            r.risk_manager.window() == VOLATILITY_WINDOW,
            r.risk_manager.history() == Seq::<i64>::empty(),
            r.order_tracker@.orders == Map::<u64, crate::order_tracker::OrderInfo>::empty(),
            r.order_tracker@.filled_count == 0,
            r.order_size == config.order_size,
            r.order_layers == config.order_layers,
            r.fixed_spread_ticks == config.fixed_spread_ticks,
    {
        MarketMaker {
            micro_price_calc: MicroPriceCalculator::new(config.depth_levels),
            imbalance_calc: OrderBookImbalance::new(config.depth_levels),
            spread_calc: SpreadCalculator::new(config.gamma),
            risk_manager: RiskManager::new(
                config.max_inventory,
                config.volatility_threshold,
                VOLATILITY_WINDOW,
            ),
            order_tracker: OrderTracker::new(),
            order_size: config.order_size,
            order_layers: config.order_layers,
            fixed_spread_ticks: config.fixed_spread_ticks,
        }
    }

    /// The reservation price for a book and a position, when it fits.
    pub open spec fn reservation_for(&self, depth: DepthView, inventory: int) -> Option<int> {
        let mid = micro_price_spec(depth, self.micro_price_calc.depth_levels as nat);
        let vol = self.risk_manager.volatility_of();
        if reservation_in_range(mid, inventory, self.spread_calc.gamma as int, vol) {
            Some(reservation_spec(mid, inventory, self.spread_calc.gamma as int, vol))
        } else {
            None
        }
    }

    /// The quote for `slot` on this book with this position, if the
    /// reservation price fits.
    pub open spec fn quote_for(&self, depth: DepthView, inventory: int, slot: int) -> Option<Quote> {
        match self.reservation_for(depth, inventory) {
            None => None,
            Some(res) => {
                let hs = half_spread(self.fixed_spread_ticks as int, depth.tick_size as int);
                let off = skew(
                    imbalance_spec(depth, self.imbalance_calc.depth_levels as nat),
                    hs,
                );
                let size = adjusted_size(self.order_size as int, inventory, self.risk_manager.cap());
                Some(quote_spec(slot, res, depth.tick_size as int, hs, off, size))
            },
        }
    }

    /// Quotes for the slots flagged in `wanted`, at the current book and
    /// position; `None` for the others, and for all when the reservation
    /// price does not fit.
    fn quote_slots(&self, depth: &DepthView, wanted: &Vec<bool>, inventory: i64) -> (r: Vec<
        Option<Quote>,
    >)
        requires
            self.wf(),
            depth.wf(),
            wanted@.len() == 2 * self.order_layers,
        ensures
            r@.len() == wanted@.len(),
            forall|s: int|
                0 <= s < r@.len() ==> #[trigger] r@[s] == if wanted@[s] {
                    self.quote_for(*depth, inventory as int, s)
                } else {
                    None
                },
    {
        let n = wanted.len();
        let micro = self.micro_price_calc.calculate(depth);
        let imb = self.imbalance_calc.calculate(depth);
        let vol = self.risk_manager.calculate_volatility();
        proof {
            self.risk_manager.lemma_volatility_unique(vol as int);
        }
        let res = self.spread_calc.checked_reservation_price(micro, inventory, vol);
        let size = self.risk_manager.adjust_order_size(self.order_size, inventory);
        let t = depth.tick_size as i128;
        proof {
            assert(0 <= self.fixed_spread_ticks * t <= MAX_SPREAD_TICKS * MAX_PRICE) by (nonlinear_arith)
                requires
                    0 <= self.fixed_spread_ticks <= MAX_SPREAD_TICKS,
                    0 < t <= MAX_PRICE,
            ;
        }
        let hs = (self.fixed_spread_ticks as i128) * t / 2;
        proof {
            assert(-(ONE * (MAX_SPREAD_TICKS * MAX_PRICE)) <= (imb as int) * (hs as int) <= ONE * (
            MAX_SPREAD_TICKS * MAX_PRICE)) by (nonlinear_arith)
                requires
                    -ONE <= imb <= ONE,
                    0 <= hs <= MAX_SPREAD_TICKS * MAX_PRICE,
            ;
        }
        let prod = (imb as i128) * hs;
        let off = if prod >= 0 {
            prod / (10 * ONE as i128)
        } else {
            -((-prod) / (10 * ONE as i128))
        };
        proof {
            assert(-(MAX_SPREAD_TICKS * MAX_PRICE) <= off <= MAX_SPREAD_TICKS * MAX_PRICE) by (nonlinear_arith)
                requires
                    off == trunc_div(prod as int, 10 * ONE),
                    -(ONE * (MAX_SPREAD_TICKS * MAX_PRICE)) <= prod <= ONE * (MAX_SPREAD_TICKS
                        * MAX_PRICE),
            ;
        }
        let mut out: Vec<Option<Quote>> = Vec::new();
        let mut s: usize = 0;
        while s < n
            invariant
                n == wanted@.len() == 2 * self.order_layers,
                self.order_layers <= MAX_LAYERS,
                s <= n,
                out@.len() == s,
                depth.wf(),
                t == depth.tick_size,
                hs == half_spread(self.fixed_spread_ticks as int, t as int),
                0 <= hs <= MAX_SPREAD_TICKS * MAX_PRICE,
                off == skew(imbalance_spec(*depth, self.imbalance_calc.depth_levels as nat), hs as int),
                -(MAX_SPREAD_TICKS * MAX_PRICE) <= off <= MAX_SPREAD_TICKS * MAX_PRICE,
                res == (match self.reservation_for(*depth, inventory as int) {
                    Some(x) => Some(x as i64),
                    None => None::<i64>,
                }),
                size == adjusted_size(self.order_size as int, inventory as int, self.risk_manager.cap()),
                forall|j: int|
                    0 <= j < s ==> #[trigger] out@[j] == if wanted@[j] {
                        self.quote_for(*depth, inventory as int, j)
                    } else {
                        None
                    },
            decreases n - s,
        {
            let q = if wanted[s] {
                match res {
                    None => None,
                    Some(rp) => {
                        let layer = s / 2;
                        proof {
                            assert(0 <= layer * t <= MAX_LAYERS * MAX_PRICE) by (nonlinear_arith)
                                requires
                                    0 <= layer <= MAX_LAYERS,
                                    0 < t <= MAX_PRICE,
                            ;
                        }
                        let lt = (layer as i128) * t;
                        let buy = s % 2 == 0;
                        let p = if buy {
                            rp as i128 - hs - lt - off
                        } else {
                            rp as i128 + hs + lt + off
                        };
                        let tick = round_ticks(p, t);
                        let two_size = 2 * (size as i128);
                        let lq = if two_size >= 0 {
                            two_size / (2 + layer as i128)
                        } else {
                            -((-two_size) / (2 + layer as i128))
                        };
                        proof {
                            if two_size >= 0 {
                                assert(0 <= (two_size as int) / (2 + layer as int) <= size) by (nonlinear_arith)
                                    requires
                                        two_size == 2 * size,
                                        two_size >= 0,
                                        layer >= 0,
                                ;
                            } else {
                                assert(0 <= (-two_size as int) / (2 + layer as int) <= -size) by (nonlinear_arith)
                                    requires
                                        two_size == 2 * size,
                                        two_size < 0,
                                        layer >= 0,
                                ;
                            }
                        }
                        Some(
                            Quote {
                                order_id: s as u64,
                                side: if buy {
                                    OrderSide::Buy
                                } else {
                                    OrderSide::Sell
                                },
                                layer,
                                price: p,
                                price_tick: tick,
                                qty: lq as i64,
                            },
                        )
                    },
                }
            } else {
                None
            };
            out.push(q);
            s = s + 1;
        }
        out
    }
    /// Quotes for every slot with no position, as placed when a file starts.
    pub fn place_initial_orders(&self, depth: &DepthView) -> (r: Vec<Option<Quote>>)
        requires
            self.wf(),
            depth.wf(),
        ensures
            r@.len() == 2 * self.order_layers,
            forall|s: int| 0 <= s < r@.len() ==> #[trigger] r@[s] == self.quote_for(*depth, 0, s),
    {
        let n = 2 * self.order_layers;
        let mut wanted: Vec<bool> = Vec::new();
        let mut s: usize = 0;
        while s < n
            invariant
                n == 2 * self.order_layers,
                self.order_layers <= MAX_LAYERS,
                s <= n,
                wanted@.len() == s,
                forall|j: int| 0 <= j < s ==> #[trigger] wanted@[j],
            decreases n - s,
        {
            wanted.push(true);
            s = s + 1;
        }
        self.quote_slots(depth, &wanted, 0)
    }

    /// Records a quote that the simulator accepted.
    pub fn confirm_quote(&mut self, quote: &Quote)
        requires
            old(self).wf(),
        ensures
            final(self).wf(),
            final(self).order_tracker@ == crate::order_tracker::registered(
                old(self).order_tracker@,
                crate::order_tracker::OrderInfo {
                    order_id: quote.order_id,
                    side: quote.side,
                    price: quote.price,
                    qty: quote.qty,
                    layer: quote.layer,
                },
            ),
            final(self).risk_manager == old(self).risk_manager,
    {
        self.order_tracker.register_order(quote.order_id, quote.side, quote.price, quote.qty, quote.layer);
    }

    /// Adds a mid-price to the volatility window.
    pub fn record_mid_price(&mut self, price: i64)
        requires
            old(self).wf(),
            0 <= price <= MAX_PRICE,
        ensures
            final(self).wf(),
            final(self).risk_manager.history() == crate::risk::pushed(
                old(self).risk_manager.history(),
                price,
                old(self).risk_manager.window(),
            ),
            final(self).risk_manager.cap() == old(self).risk_manager.cap(),
            final(self).risk_manager.window() == old(self).risk_manager.window(),
            final(self).risk_manager.threshold() == old(self).risk_manager.threshold(),
            final(self).order_tracker@ == old(self).order_tracker@,
    {
        self.risk_manager.update_price(price);
    }

    /// Accounts for every slot's fill and requotes every slot that needs it.
    /// A filled buy adds its quantity to `inventory` and its notional cost
    /// leaves `realized_pnl`; a filled sell does the reverse; each fill is
    /// credited the rebate and marked in the tracker. Slots whose orders
    /// filled, left the book or are unknown get a fresh quote at the
    /// reservation price for the updated position; resting ones get `None`.
    pub fn check_and_refill_orders(
        &mut self,
        depth: &DepthView,
        orders: &Vec<OrderReport>,
        inventory: &mut i64,
        realized_pnl: &mut i128,
    ) -> (r: Vec<Option<Quote>>)
        requires
            old(self).wf(),
            depth.wf(),
            forall|i: int| 0 <= i < orders@.len() ==> #[trigger] orders@[i].wf(depth.tick_size as int),
            -MAX_POSITION <= *old(inventory) <= MAX_POSITION,
            -MAX_PNL <= *old(realized_pnl) <= MAX_PNL,
            old(self).order_tracker@.filled_count + 2 * old(self).order_layers < u64::MAX,
        ensures
            final(self).wf(),
            ({
                let acc = fills_through(
                    orders@,
                    depth.tick_size as int,
                    (*old(inventory) as int, *old(realized_pnl) as int),
                    2 * old(self).order_layers as nat,
                );
                &&& *final(inventory) as int == acc.0
                &&& *final(realized_pnl) as int == acc.1
            }),
            final(self).order_tracker@ == tracker_through(
                old(self).order_tracker@,
                orders@,
                2 * old(self).order_layers as nat,
            ),
            final(self).risk_manager == old(self).risk_manager,
            final(self).order_layers == old(self).order_layers,
            r@.len() == 2 * old(self).order_layers,
            forall|s: int|
                0 <= s < r@.len() ==> #[trigger] r@[s] == if needs_refill(orders@, s) {
                    old(self).quote_for(*depth, *final(inventory) as int, s)
                } else {
                    None
                },
    {
        let n = 2 * self.order_layers;
        let t = depth.tick_size as i128;
        let ghost start = (*old(inventory) as int, *old(realized_pnl) as int);
        let ghost tv0 = old(self).order_tracker@;
        let mut wanted: Vec<bool> = Vec::new();
        let mut s: usize = 0;
        while s < n
            invariant
                n == 2 * self.order_layers,
                self.order_layers == old(self).order_layers,
                self.order_layers <= MAX_LAYERS,
                self.wf(),
                self.risk_manager == old(self).risk_manager,
                self.micro_price_calc == old(self).micro_price_calc,
                self.imbalance_calc == old(self).imbalance_calc,
                self.spread_calc == old(self).spread_calc,
                self.order_size == old(self).order_size,
                self.fixed_spread_ticks == old(self).fixed_spread_ticks,
                depth.wf(),
                t == depth.tick_size,
                forall|i: int| 0 <= i < orders@.len() ==> #[trigger] orders@[i].wf(depth.tick_size as int),
                s <= n,
                wanted@.len() == s,
                forall|j: int| 0 <= j < s ==> #[trigger] wanted@[j] == needs_refill(orders@, j),
                (*inventory as int, *realized_pnl as int) == fills_through(orders@, t as int, start, s as nat),
                -MAX_POSITION - s * MAX_QTY <= *inventory <= MAX_POSITION + s * MAX_QTY,
                -MAX_PNL - s * 2 * MAX_PRICE * MAX_QTY <= *realized_pnl <= MAX_PNL + s * 2 * MAX_PRICE
                    * MAX_QTY,
                self.order_tracker@ == tracker_through(tv0, orders@, s as nat),
                self.order_tracker@.filled_count <= tv0.filled_count + s,
                tv0.filled_count + n < u64::MAX,
            decreases n - s,
        {
            let found = find_report(orders, s as u64);
            match found {
                Some(rep) => {
                    proof {
                        let j = choose|j: int| 0 <= j < orders@.len() && orders@[j] == rep;
                        assert(orders@[j].wf(depth.tick_size as int));
                    }
                    match rep.status {
                        OrderStatus::Filled => {
                            proof {
                                assert(0 <= rep.price_tick * t <= MAX_PRICE);
                                assert(0 <= (rep.price_tick * t) * rep.qty <= MAX_PRICE * MAX_QTY)
                                    by (nonlinear_arith)
                                    requires
                                        0 <= rep.price_tick * t <= MAX_PRICE,
                                        0 <= rep.qty <= MAX_QTY,
                                ;
                            }
                            let value = (rep.price_tick as i128) * t * (rep.qty as i128) / (ONE as i128);
                            let fee = value / FEE_DIVISOR;
                            proof {
                                assert(value <= MAX_PRICE * MAX_QTY);
                                assert(fee <= value);
                            }
                            if s % 2 == 0 {
                                *inventory = *inventory + rep.qty;
                                *realized_pnl = *realized_pnl - value + fee;
                            } else {
                                *inventory = *inventory - rep.qty;
                                *realized_pnl = *realized_pnl + value + fee;
                            }
                            self.order_tracker.mark_filled(s as u64);
                            wanted.push(true);
                        },
                        OrderStatus::Active => {
                            wanted.push(false);
                        },
                        _ => {
                            wanted.push(true);
                        },
                    }
                },
                None => {
                    wanted.push(true);
                },
            }
            s = s + 1;
        }
        proof {
            assert(MAX_POSITION + n * MAX_QTY <= i64::MAX) by (nonlinear_arith)
                requires
                    n <= 2 * MAX_LAYERS,
            ;
        }
        self.quote_slots(depth, &wanted, *inventory)
    }
}

} // verus!
