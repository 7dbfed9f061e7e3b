//! Registry of a strategy's outstanding orders, with running fill totals.
use crate::fixed::abs;
use std::collections::HashMap;
use vstd::prelude::*;

verus! {

broadcast use vstd::std_specs::hash::group_hash_axioms;

#[derive(Clone, Copy, Debug, PartialEq, Eq, Structural)]
pub enum OrderSide {
    Buy,
    Sell,
}

/// One tracked order. Price and quantity are fixed-point (see `fixed::ONE`).
#[derive(Clone, Copy, Debug, PartialEq, Eq, Structural)]
pub struct OrderInfo {
    pub order_id: u64,
    pub side: OrderSide,
    pub price: i128,
    pub qty: i64,
    pub layer: usize,
}

/// What an `OrderTracker` holds, in mathematical terms.
pub struct TrackerView {
    pub orders: Map<u64, OrderInfo>,
    pub filled_count: int,
    pub buy_volume: int,
    pub sell_volume: int,
}

pub open spec fn registered(v: TrackerView, info: OrderInfo) -> TrackerView {
    TrackerView { orders: v.orders.insert(info.order_id, info), ..v }
}

/// What filling `id` returns: the record registered under it, if any.
pub open spec fn fill_result(v: TrackerView, id: u64) -> Option<OrderInfo> {
    if v.orders.contains_key(id) {
        Some(v.orders[id])
    } else {
        None
    }
}

/// The tracker after `id` is marked filled: the record leaves, the fill is
/// counted and its quantity is added to the volume of its side.
pub open spec fn filled(v: TrackerView, id: u64) -> TrackerView {
    if v.orders.contains_key(id) {
        let o = v.orders[id];
        TrackerView {
            orders: v.orders.remove(id),
            filled_count: v.filled_count + 1,
            buy_volume: if o.side == OrderSide::Buy {
                v.buy_volume + o.qty
            } else {
                v.buy_volume
            },
            sell_volume: if o.side == OrderSide::Sell {
                v.sell_volume + o.qty
            } else {
                v.sell_volume
            },
        }
    } else {
        v
    }
}

/// Largest magnitude of an `i64`.
pub open spec fn i64_span() -> int {
    0x8000_0000_0000_0000
}

pub struct OrderTracker {
    active_orders: HashMap<u64, OrderInfo>,
    filled_count: u64,
    total_buy_volume: i128,
    total_sell_volume: i128,
}

impl View for OrderTracker {
    type V = TrackerView;

    closed spec fn view(&self) -> TrackerView {
        TrackerView {
            orders: self.active_orders@,
            filled_count: self.filled_count as int,
            buy_volume: self.total_buy_volume as int,
            sell_volume: self.total_sell_volume as int,
        }
    }
}

impl OrderTracker {
    /// The totals stay within what the fills so far can add up to, and each
    /// record sits under its own id.
    pub closed spec fn wf(&self) -> bool {
        &&& abs(self.total_buy_volume as int) + abs(self.total_sell_volume as int)
            <= self.filled_count as int * i64_span()
        &&& forall|id: u64| #[trigger]
            self.active_orders@.contains_key(id) ==> self.active_orders@[id].order_id == id
    }

    pub fn new() -> (r: OrderTracker)
        ensures
            r.wf(),
            r@.orders == Map::<u64, OrderInfo>::empty(),
            r@.filled_count == 0,
            r@.buy_volume == 0,
            r@.sell_volume == 0,
    {
        OrderTracker {
            active_orders: HashMap::new(),
            filled_count: 0,
            total_buy_volume: 0,
            total_sell_volume: 0,
        }
    }

    /// Records an order; a record already under `order_id` is replaced.
    pub fn register_order(&mut self, order_id: u64, side: OrderSide, price: i128, qty: i64, layer: usize)
        requires
            old(self).wf(),
        ensures
            final(self).wf(),
            final(self)@ == registered(old(self)@, OrderInfo { order_id, side, price, qty, layer }),
    {
        self.active_orders.insert(order_id, OrderInfo { order_id, side, price, qty, layer });
    }

    /// Removes the order and returns its record, counting the fill; `None`,
    /// with nothing changed, when no order is registered under `order_id`.
    pub fn mark_filled(&mut self, order_id: u64) -> (r: Option<OrderInfo>)
        requires
            old(self).wf(),
            old(self)@.orders.contains_key(order_id) ==> old(self)@.filled_count < u64::MAX,
        ensures
            final(self).wf(),
            r == fill_result(old(self)@, order_id),
            final(self)@ == filled(old(self)@, order_id),
    {
        match self.active_orders.remove(&order_id) {
            Some(order) => {
                let ghost n = self.filled_count as int;
                proof {
                    let b = self.total_buy_volume as int;
                    let s = self.total_sell_volume as int;
                    let q = order.qty as int;
                    assert(abs(b) + abs(s) + abs(q) <= (n + 1) * i64_span()) by (nonlinear_arith)
                        requires
                            abs(b) + abs(s) <= n * i64_span(),
                            abs(q) <= i64_span(),
                    ;
                    assert((n + 1) * i64_span() <= u64::MAX as int * i64_span()) by (nonlinear_arith)
                        requires
                            n + 1 <= u64::MAX as int,
                    ;
                }
                self.filled_count = self.filled_count + 1;
                match order.side {
                    OrderSide::Buy => {
                        self.total_buy_volume = self.total_buy_volume + order.qty as i128;
                    },
                    OrderSide::Sell => {
                        self.total_sell_volume = self.total_sell_volume + order.qty as i128;
                    },
                }
                assert(self.active_orders@ =~= old(self)@.orders.remove(order_id));
                Some(order)
            },
            None => {
                assert(self.active_orders@ =~= old(self)@.orders);
                None
            },
        }
    }

    /// `(filled count, buy volume, sell volume, active count)`.
    pub fn get_stats(&self) -> (r: (u64, i128, i128, usize))
        requires
            self.wf(),
        ensures
            r.0 as int == self@.filled_count,
            r.1 as int == self@.buy_volume,
            r.2 as int == self@.sell_volume,
            r.3 as int == self@.orders.len(),
    {
        (self.filled_count, self.total_buy_volume, self.total_sell_volume, self.active_orders.len())
    }

    pub fn has_order(&self, order_id: u64) -> (r: bool)
        ensures
            r == self@.orders.contains_key(order_id),
    {
        self.active_orders.contains_key(&order_id)
    }

    /// Forgets every outstanding order; the fill totals stay.
    pub fn clear_all(&mut self)
        requires
            old(self).wf(),
        ensures
            final(self).wf(),
            final(self)@ == (TrackerView { orders: Map::<u64, OrderInfo>::empty(), ..old(self)@ }),
    {
        self.active_orders.clear();
    }
}

/// An order registered and then filled comes back as registered; the fill
/// count rises by exactly one and the order is no longer tracked.
pub proof fn lemma_register_then_fill(
    v: TrackerView,
    order_id: u64,
    side: OrderSide,
    price: i128,
    qty: i64,
    layer: usize,
)
    ensures
        ({
            let info = OrderInfo { order_id, side, price, qty, layer };
            let after = filled(registered(v, info), order_id);
            &&& fill_result(registered(v, info), order_id) == Some(info)
            &&& after.filled_count == v.filled_count + 1
            &&& !after.orders.contains_key(order_id)
            &&& side == OrderSide::Buy ==> after.buy_volume == v.buy_volume + qty
            &&& side == OrderSide::Sell ==> after.sell_volume == v.sell_volume + qty
        }),
{
}

/// After a fill, registering again under the same id succeeds and leaves
/// exactly the new record in that slot: nothing of the filled order stays.
pub proof fn lemma_refill_same_id(v: TrackerView, first: OrderInfo, second: OrderInfo)
    requires
        first.order_id == second.order_id,
    ensures
        ({
            let id = first.order_id;
            let after = registered(filled(registered(v, first), id), second);
            &&& after.orders.contains_key(id)
            &&& after.orders[id] == second
            &&& after.orders == v.orders.insert(id, second)
            &&& fill_result(after, id) == Some(second)
        }),
{
    let id = first.order_id;
    let after = registered(filled(registered(v, first), id), second);
    assert(after.orders =~= v.orders.insert(id, second));
}

} // verus!
