//! Layered quoting around a given reservation price and half spread, on
//! both sides or, when inventory is lopsided, on the side that reduces it.
use crate::fixed::{round_div, trunc_div, ONE};
use crate::market_maker::{is_buy_slot, layer_qty, round_ticks, Quote, MAX_LAYERS, MAX_SPREAD_TICKS};
use crate::order_tracker::OrderSide;
use crate::pricing::MAX_PRICE;
use vstd::prelude::*;

verus! {

/// Shift toward the heavier side: a fifth of the half spread, scaled by the
/// imbalance.
pub open spec fn layer_skew(imbalance: int, half_spread: int) -> int {
    trunc_div(imbalance * half_spread, 5 * ONE)
}

/// Price of a slot: buys below, sells above the reservation price, each
/// layer `spacing` ticks further out, both shifted by `adj` (up for buys,
/// down for sells).
pub open spec fn manager_price(
    slot: int,
    reservation: int,
    half_spread: int,
    spacing: int,
    tick_size: int,
    adj: int,
) -> int {
    let offset = (slot / 2) * spacing * tick_size;
    if is_buy_slot(slot) {
        reservation - half_spread - offset + adj
    } else {
        reservation + half_spread + offset - adj
    }
}

pub open spec fn manager_quote(
    slot: int,
    reservation: int,
    half_spread: int,
    spacing: int,
    tick_size: int,
    adj: int,
    size: int,
) -> Quote {
    let p = manager_price(slot, reservation, half_spread, spacing, tick_size, adj);
    Quote {
        order_id: slot as u64,
        side: if is_buy_slot(slot) {
            OrderSide::Buy
        } else {
            OrderSide::Sell
        },
        layer: (slot / 2) as usize,
        price: p as i128,
        price_tick: round_div(p, tick_size) as i128,
        qty: layer_qty(size, slot / 2) as i64,
    }
}

/// Which slots a placement covers.
#[derive(Clone, Copy, Debug, PartialEq, Eq, Structural)]
pub enum Sides {
    Both,
    SellsOnly,
    BuysOnly,
}

/// The `j`-th slot that a placement on `sides` covers.
pub open spec fn covered_slot(sides: Sides, j: int) -> int {
    match sides {
        Sides::Both => j,
        Sides::SellsOnly => 2 * j + 1,
        Sides::BuysOnly => 2 * j,
    }
}

/// Places layered orders: `order_layers` layers per side, `layer_spacing`
/// ticks apart.
pub struct OrderManager {
    pub order_layers: usize,
    pub layer_spacing: i64,
}

impl OrderManager {
    pub open spec fn wf(&self) -> bool {
        &&& self.order_layers <= MAX_LAYERS
        &&& 0 <= self.layer_spacing <= MAX_SPREAD_TICKS
    }

    pub fn new(order_layers: usize, layer_spacing: i64) -> (r: OrderManager)
        ensures
            r.order_layers == order_layers,
            r.layer_spacing == layer_spacing,
    {
        OrderManager { order_layers, layer_spacing }
    }

    fn quotes_for(
        &self,
        sides: Sides,
        tick_size: i64,
        reservation: i64,
        half_spread: i64,
        order_size: i64,
        adj: i128,
    ) -> (r: Vec<Quote>)
        requires
            self.wf(),
            0 < tick_size <= MAX_PRICE,
            -0x1_0000_0000_0000_0000_0000_0000 <= adj <= 0x1_0000_0000_0000_0000_0000_0000,
        ensures
            r@.len() == if sides == Sides::Both {
                2 * self.order_layers
            } else {
                self.order_layers as int
            },
            forall|j: int|
                0 <= j < r@.len() ==> #[trigger] r@[j] == manager_quote(
                    covered_slot(sides, j),
                    reservation as int,
                    half_spread as int,
                    self.layer_spacing as int,
                    tick_size as int,
                    adj as int,
                    order_size as int,
                ),
    {
        let n: usize = if sides == Sides::Both {
            2 * self.order_layers
        } else {
            self.order_layers
        };
        let t = tick_size as i128;
        let mut out: Vec<Quote> = Vec::new();
        let mut j: usize = 0;
        while j < n
            invariant
                self.wf(),
                n == if sides == Sides::Both {
                    2 * self.order_layers
                } else {
                    self.order_layers as int
                },
                0 < t <= MAX_PRICE,
                t == tick_size,
                -0x1_0000_0000_0000_0000_0000_0000 <= adj <= 0x1_0000_0000_0000_0000_0000_0000,
                j <= n,
                out@.len() == j,
                forall|k: int|
                    0 <= k < j ==> #[trigger] out@[k] == manager_quote(
                        covered_slot(sides, k),
                        reservation as int,
                        half_spread as int,
                        self.layer_spacing as int,
                        tick_size as int,
                        adj as int,
                        order_size as int,
                    ),
            decreases n - j,
        {
            let slot: usize = match sides {
                Sides::Both => j,
                Sides::SellsOnly => 2 * j + 1,
                Sides::BuysOnly => 2 * j,
            };
            let layer = slot / 2;
            proof {
                assert(layer <= MAX_LAYERS);
                assert(0 <= layer * self.layer_spacing <= MAX_LAYERS * MAX_SPREAD_TICKS) by (nonlinear_arith)
                    requires
                        0 <= layer <= MAX_LAYERS,
                        0 <= self.layer_spacing <= MAX_SPREAD_TICKS,
                ;
                assert(0 <= (layer * self.layer_spacing) * t <= (MAX_LAYERS * MAX_SPREAD_TICKS) * MAX_PRICE)
                    by (nonlinear_arith)
                    requires
                        0 <= layer * self.layer_spacing <= MAX_LAYERS * MAX_SPREAD_TICKS,
                        0 < t <= MAX_PRICE,
                ;
            }
            let offset = (layer as i128) * (self.layer_spacing as i128) * t;
            let buy = slot % 2 == 0;
            let p = if buy {
                reservation as i128 - half_spread as i128 - offset + adj
            } else {
                reservation as i128 + half_spread as i128 + offset - adj
            };
            let tick = round_ticks(p, t);
            let two_size = 2 * (order_size as i128);
            let lq = if two_size >= 0 {
                two_size / (2 + layer as i128)
            } else {
                -((-two_size) / (2 + layer as i128))
            };
            proof {
                if two_size >= 0 {
                    assert(0 <= (two_size as int) / (2 + layer as int) <= order_size) by (nonlinear_arith)
                        requires
                            two_size == 2 * order_size,
                            two_size >= 0,
                            layer >= 0,
                    ;
                } else {
                    assert(0 <= (-two_size as int) / (2 + layer as int) <= -order_size)
                        by (nonlinear_arith)
                        requires
                            two_size == 2 * order_size,
                            two_size < 0,
                            layer >= 0,
                    ;
                }
            }
            out.push(
                Quote {
                    order_id: slot as u64,
                    side: if buy {
                        OrderSide::Buy
                    } else {
                        OrderSide::Sell
                    },
                    layer,
                    price: p,
                    price_tick: tick,
                    qty: lq as i64,
                },
            );
            j = j + 1;
        }
        out
    }

    /// Quotes for every slot, buys and sells of each layer in turn, skewed by
    /// the book imbalance (fixed-point, in `[-ONE, ONE]`).
    pub fn place_layered_orders(
        &self,
        tick_size: i64,
        reservation_price: i64,
        half_spread: i64,
        order_size: i64,
        imbalance: i64,
    ) -> (r: Vec<Quote>)
        requires
            self.wf(),
            0 < tick_size <= MAX_PRICE,
            -ONE <= imbalance <= ONE,
        ensures
            r@.len() == 2 * self.order_layers,
            forall|s: int|
                0 <= s < r@.len() ==> #[trigger] r@[s] == manager_quote(
                    s,
                    reservation_price as int,
                    half_spread as int,
                    self.layer_spacing as int,
                    tick_size as int,
                    layer_skew(imbalance as int, half_spread as int),
                    order_size as int,
                ),
    {
        let im = imbalance as i128;
        let hs = half_spread as i128;
        proof {
            assert(-ONE * 0x8000_0000_0000_0000 <= im * hs <= ONE * 0x8000_0000_0000_0000) by (nonlinear_arith)
                requires
                    -ONE <= im <= ONE,
                    -0x8000_0000_0000_0000 <= hs <= 0x8000_0000_0000_0000,
            ;
        }
        let prod = im * hs;
        let adj = if prod >= 0 {
            prod / (5 * ONE as i128)
        } else {
            -((-prod) / (5 * ONE as i128))
        };
        self.quotes_for(Sides::Both, tick_size, reservation_price, half_spread, order_size, adj)
    }

    /// Ids of every slot, to be canceled.
    pub fn cancel_all_orders(&self) -> (r: Vec<u64>)
        requires
            self.wf(),
        ensures
            r@.len() == 2 * self.order_layers,
            forall|s: int| 0 <= s < r@.len() ==> #[trigger] r@[s] == s,
    {
        let n = 2 * self.order_layers;
        let mut out: Vec<u64> = Vec::new();
        let mut s: usize = 0;
        while s < n
            invariant
                n == 2 * self.order_layers,
                self.order_layers <= MAX_LAYERS,
                s <= n,
                out@.len() == s,
                forall|k: int| 0 <= k < s ==> #[trigger] out@[k] == k,
            decreases n - s,
        {
            out.push(s as u64);
            s = s + 1;
        }
        out
    }

    /// With inventory above `threshold`, only sells; below `-threshold`,
    /// only buys (both without skew); otherwise both sides without skew.
    pub fn place_sided_orders(
        &self,
        tick_size: i64,
        reservation_price: i64,
        half_spread: i64,
        order_size: i64,
        inventory: i64,
        threshold: i64,
    ) -> (r: Vec<Quote>)
        requires
            self.wf(),
            0 < tick_size <= MAX_PRICE,
        ensures
            ({
                let sides = if inventory > threshold {
                    Sides::SellsOnly
                } else if inventory < -threshold {
                    Sides::BuysOnly
                } else {
                    Sides::Both
                };
                &&& r@.len() == if sides == Sides::Both {
                    2 * self.order_layers
                } else {
                    self.order_layers as int
                }
                &&& forall|j: int|
                    0 <= j < r@.len() ==> #[trigger] r@[j] == manager_quote(
                        covered_slot(sides, j),
                        reservation_price as int,
                        half_spread as int,
                        self.layer_spacing as int,
                        tick_size as int,
                        0,
                        order_size as int,
                    )
            }),
    {
        let inv = inventory as i128;
        let th = threshold as i128;
        let sides = if inv > th {
            Sides::SellsOnly
        } else if inv < -th {
            Sides::BuysOnly
        } else {
            Sides::Both
        };
        self.quotes_for(sides, tick_size, reservation_price, half_spread, order_size, 0)
    }
}

} // verus!
