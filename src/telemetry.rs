//! Per-file strategy state and the figures derived from it for telemetry.
use crate::fixed::ONE;
use crate::pricing::{qty_at, DepthView, MAX_LEVELS};
use vstd::prelude::*;

verus! {

/// Mutable state of a strategy over one data file; money, prices and sizes
/// are fixed-point.
#[derive(Clone, Copy, Debug, PartialEq, Eq, Structural)]
pub struct StrategyState {
    pub realized_pnl: i64,
    pub unrealized_pnl: i64,
    pub position: i64,
    pub entry_price: i64,
    pub mid_price: i64,
    pub update_count: u64,
    pub num_trades: usize,
    pub winning_trades: usize,
    pub total_orders: usize,
    pub total_fills: usize,
    pub avg_hold_time: i64,
}

/// `part / whole` as a fixed-point percentage, rounded down; 0 when `whole`
/// is 0.
pub open spec fn percent_of(part: int, whole: int) -> int {
    if whole > 0 {
        part * 100 * ONE / whole
    } else {
        0
    }
}

fn percent(part: usize, whole: usize) -> (r: u128)
    ensures
        r == percent_of(part as int, whole as int),
{
    if whole > 0 {
        proof {
            assert(0 <= part * 100 * ONE <= 0xffff_ffff_ffff_ffff * 10_000_000_000) by (nonlinear_arith)
                requires
                    0 <= part <= 0xffff_ffff_ffff_ffff,
            ;
            assert(0 <= (part * 100 * ONE) / (whole as int)) by (nonlinear_arith)
                requires
                    part >= 0,
                    whole > 0,
            ;
        }
        (part as u128) * 100 * (ONE as u128) / (whole as u128)
    } else {
        0
    }
}

impl StrategyState {
    /// A fresh state: everything zero.
    pub fn new() -> (r: StrategyState)
        ensures
            r == (StrategyState {
                realized_pnl: 0,
                unrealized_pnl: 0,
                position: 0,
                entry_price: 0,
                mid_price: 0,
                update_count: 0,
                num_trades: 0,
                winning_trades: 0,
                total_orders: 0,
                total_fills: 0,
                avg_hold_time: 0,
            }),
    {
        StrategyState {
            realized_pnl: 0,
            unrealized_pnl: 0,
            position: 0,
            entry_price: 0,
            mid_price: 0,
            update_count: 0,
            num_trades: 0,
            winning_trades: 0,
            total_orders: 0,
            total_fills: 0,
            avg_hold_time: 0,
        }
    }

    /// Capital plus realized and unrealized PnL.
    pub fn equity(&self, initial_capital: i64) -> (r: i128)
        ensures
            r == initial_capital + self.realized_pnl + self.unrealized_pnl,
    {
        initial_capital as i128 + self.realized_pnl as i128 + self.unrealized_pnl as i128
    }

    /// Winning trades as a percentage of all trades (fixed-point).
    pub fn win_rate(&self) -> (r: u128)
        ensures
            r == percent_of(self.winning_trades as int, self.num_trades as int),
    {
        percent(self.winning_trades, self.num_trades)
    }

    /// Fills as a percentage of orders (fixed-point).
    pub fn fill_ratio(&self) -> (r: u128)
        ensures
            r == percent_of(self.total_fills as int, self.total_orders as int),
    {
        percent(self.total_fills, self.total_orders)
    }
}

/// One price level shown to the operator.
#[derive(Clone, Copy, Debug, PartialEq, Eq, Structural)]
pub struct BookLevel {
    pub price: i128,
    pub quantity: i64,
}

/// The non-empty levels among the first `n` of one side: level `i` sits at
/// tick `best + dir * i`.
pub open spec fn shown_levels(s: Seq<i64>, best: int, dir: int, tick_size: int, n: nat) -> Seq<BookLevel>
    decreases n,
{
    if n == 0 {
        Seq::empty()
    } else {
        let prev = shown_levels(s, best, dir, tick_size, (n - 1) as nat);
        let i = n - 1;
        if qty_at(s, i) > 0 {
            prev.push(BookLevel { price: ((best + dir * i) * tick_size) as i128, quantity: s[i] })
        } else {
            prev
        }
    }
}

pub(crate) fn side_levels(qty: &Vec<i64>, best: i64, dir: i64, tick_size: i64, levels: usize) -> (r: Vec<
    BookLevel,
>)
    requires
        dir == 1 || dir == -1,
        0 <= best <= 1_000_000_000_000_000,
        0 < tick_size <= 1_000_000_000_000_000,
    ensures
        r@ == shown_levels(qty@, best as int, dir as int, tick_size as int, levels as nat),
{
    let mut out: Vec<BookLevel> = Vec::new();
    let mut i: usize = 0;
    while i < levels
        invariant
            i <= levels,
            dir == 1 || dir == -1,
            0 <= best <= 1_000_000_000_000_000,
            0 < tick_size <= 1_000_000_000_000_000,
            out@ == shown_levels(qty@, best as int, dir as int, tick_size as int, i as nat),
        decreases levels - i,
    {
        if i < qty.len() && qty[i] > 0 {
            let step: i128 = if dir == 1 {
                i as i128
            } else {
                -(i as i128)
            };
            let tick = best as i128 + step;
            proof {
                assert(step == dir * i) by (nonlinear_arith)
                    requires
                        dir == 1 || dir == -1,
                        dir == 1 ==> step == i,
                        dir == -1 ==> step == -i,
                ;
                assert(tick == best + dir * i);
                assert(-0x2_0000_0000_0000_0000 <= tick <= 0x2_0000_0000_0000_0000);
                assert(-0x2_0000_0000_0000_0000 * 1_000_000_000_000_000 <= tick * tick_size
                    <= 0x2_0000_0000_0000_0000 * 1_000_000_000_000_000) by (nonlinear_arith)
                    requires
                        -0x2_0000_0000_0000_0000 <= tick <= 0x2_0000_0000_0000_0000,
                        0 < tick_size <= 1_000_000_000_000_000,
                ;
            }
            out.push(BookLevel { price: tick * (tick_size as i128), quantity: qty[i] });
        }
        i = i + 1;
    }
    out
}

/// The non-empty levels among the first `levels` of each side, best first:
/// bids going down from the best bid, asks going up from the best ask. A
/// side without a quote yields none.
pub fn extract_orderbook(depth: &DepthView, levels: usize) -> (r: (Vec<BookLevel>, Vec<BookLevel>))
    requires
        depth.wf(),
        levels <= MAX_LEVELS,
    ensures
        r.0@ == if depth.best_bid_tick == i64::MIN {
            Seq::<BookLevel>::empty()
        } else {
            shown_levels(depth.bid_qty@, depth.best_bid_tick as int, -1, depth.tick_size as int, levels as nat)
        },
        r.1@ == if depth.best_ask_tick == i64::MAX {
            Seq::<BookLevel>::empty()
        } else {
            shown_levels(depth.ask_qty@, depth.best_ask_tick as int, 1, depth.tick_size as int, levels as nat)
        },
{
    proof {
        if depth.best_bid_tick != i64::MIN {
            assert(depth.best_bid_tick <= depth.best_bid_tick * depth.tick_size) by (nonlinear_arith)
                requires
                    depth.best_bid_tick >= 0,
                    depth.tick_size >= 1,
            ;
        }
        if depth.best_ask_tick != i64::MAX {
            assert(depth.best_ask_tick <= depth.best_ask_tick * depth.tick_size) by (nonlinear_arith)
                requires
                    depth.best_ask_tick >= 0,
                    depth.tick_size >= 1,
            ;
        }
    }
    let bids = if depth.best_bid_tick != i64::MIN {
        side_levels(&depth.bid_qty, depth.best_bid_tick, -1, depth.tick_size, levels)
    } else {
        Vec::new()
    };
    let asks = if depth.best_ask_tick != i64::MAX {
        side_levels(&depth.ask_qty, depth.best_ask_tick, 1, depth.tick_size, levels)
    } else {
        Vec::new()
    };
    (bids, asks)
}

} // verus!
