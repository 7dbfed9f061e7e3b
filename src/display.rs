//! What the order-book displays show: which levels, how many rows, and the
//! spread figures.
use crate::fixed::ONE;
use crate::pricing::DepthView;
use crate::telemetry::{shown_levels, side_levels, BookLevel};
use vstd::prelude::*;

verus! {

/// How far past the requested number of levels a display scans for
/// non-empty ones, as a multiple of it.
pub const SCAN_FACTOR: usize = 100;

/// The first `n` elements of `s`, or all of it when shorter.
pub open spec fn first_n(s: Seq<BookLevel>, n: nat) -> Seq<BookLevel> {
    if s.len() > n {
        s.take(n as int)
    } else {
        s
    }
}

fn take_first(v: Vec<BookLevel>, n: usize) -> (r: Vec<BookLevel>)
    ensures
        r@ == first_n(v@, n as nat),
{
    let mut out: Vec<BookLevel> = Vec::new();
    let mut i: usize = 0;
    while i < n && i < v.len()
        invariant
            i <= v@.len(),
            i <= n,
            out@ == v@.take(i as int),
        decreases n - i,
    {
        out.push(v[i]);
        i = i + 1;
        assert(out@ =~= v@.take(i as int));
    }
    assert(out@ =~= first_n(v@, n as nat));
    out
}

/// The non-empty levels a text display shows for one side: the first `n`
/// found among the first `SCAN_FACTOR * n` levels.
pub open spec fn display_levels(s: Seq<i64>, best: int, dir: int, tick_size: int, n: nat) -> Seq<
    BookLevel,
> {
    first_n(shown_levels(s, best, dir, tick_size, (SCAN_FACTOR * n) as nat), n)
}

/// Text display of the order book, with a number of levels per side.
pub struct OrderBookDisplay {
    pub ask_depth_levels: usize,
    pub bid_depth_levels: usize,
}

impl OrderBookDisplay {
    pub fn new(ask_depth_levels: usize, bid_depth_levels: usize) -> (r: OrderBookDisplay)
        ensures
            r.ask_depth_levels == ask_depth_levels,
            r.bid_depth_levels == bid_depth_levels,
    {
        OrderBookDisplay { ask_depth_levels, bid_depth_levels }
    }

    /// The ask and bid levels to show, each best first. A side without a
    /// quote shows none.
    pub fn collect_levels(&self, depth: &DepthView) -> (r: (Vec<BookLevel>, Vec<BookLevel>))
        requires
            depth.wf(),
            self.ask_depth_levels * SCAN_FACTOR <= usize::MAX,
            self.bid_depth_levels * SCAN_FACTOR <= usize::MAX,
        ensures
            r.0@ == if depth.best_ask_tick == i64::MAX {
                Seq::<BookLevel>::empty()
            } else {
                display_levels(
                    depth.ask_qty@,
                    depth.best_ask_tick as int,
                    1,
                    depth.tick_size as int,
                    self.ask_depth_levels as nat,
                )
            },
            r.1@ == if depth.best_bid_tick == i64::MIN {
                Seq::<BookLevel>::empty()
            } else {
                display_levels(
                    depth.bid_qty@,
                    depth.best_bid_tick as int,
                    -1,
                    depth.tick_size as int,
                    self.bid_depth_levels as nat,
                )
            },
    {
        proof {
            if depth.best_bid_tick != i64::MIN {
                assert(depth.best_bid_tick <= depth.best_bid_tick * depth.tick_size) by (nonlinear_arith)
                    requires
                        depth.best_bid_tick >= 0,
                        depth.tick_size >= 1,
                ;
            }
            if depth.best_ask_tick != i64::MAX {
                assert(depth.best_ask_tick <= depth.best_ask_tick * depth.tick_size) by (nonlinear_arith)
                    requires
                        depth.best_ask_tick >= 0,
                        depth.tick_size >= 1,
                ;
            }
        }
        let asks = if depth.best_ask_tick != i64::MAX {
            let all = side_levels(
                &depth.ask_qty,
                depth.best_ask_tick,
                1,
                depth.tick_size,
                self.ask_depth_levels * SCAN_FACTOR,
            );
            take_first(all, self.ask_depth_levels)
        } else {
            Vec::new()
        };
        let bids = if depth.best_bid_tick != i64::MIN {
            let all = side_levels(
                &depth.bid_qty,
                depth.best_bid_tick,
                -1,
                depth.tick_size,
                self.bid_depth_levels * SCAN_FACTOR,
            );
            take_first(all, self.bid_depth_levels)
        } else {
            Vec::new()
        };
        (asks, bids)
    }
}

/// Spread between the best quotes, and that spread as a fixed-point
/// percentage of the best bid (0 when the best bid is 0).
pub open spec fn spread_figures_spec(d: DepthView) -> (int, int) {
    let spread = d.ask_price() - d.bid_price();
    (spread, if d.bid_price() > 0 {
        crate::fixed::trunc_div(spread * 100 * ONE, d.bid_price())
    } else {
        0
    })
}

/// The spread line of the display; `None` while the book is not quoted.
pub fn spread_figures(depth: &DepthView) -> (r: Option<(i64, i128)>)
    requires
        depth.wf(),
    ensures
        !depth.valid() ==> r is None,
        depth.valid() ==> (r matches Some(x) && x.0 == spread_figures_spec(*depth).0 && x.1
            == spread_figures_spec(*depth).1),
{
    if depth.best_bid_tick == i64::MIN || depth.best_ask_tick == i64::MAX {
        return None;
    }
    let bid = depth.best_bid_tick * depth.tick_size;
    let ask = depth.best_ask_tick * depth.tick_size;
    let spread = ask - bid;
    let pct = if bid > 0 {
        assert(-1_000_000_000_000_000 <= spread <= 1_000_000_000_000_000);
        let num = (spread as i128) * 10_000_000_000;
        assert(num == spread * 100 * ONE);
        let d = bid as i128;
        proof {
            let n = num as int;
            if n >= 0 {
                assert(0 <= n / (d as int) <= n) by (nonlinear_arith)
                    requires
                        n >= 0,
                        d >= 1,
                ;
            } else {
                assert(0 <= (-n) / (d as int) <= -n) by (nonlinear_arith)
                    requires
                        n < 0,
                        d >= 1,
                ;
            }
        }
        if num >= 0 {
            num / d
        } else {
            -((-num) / d)
        }
    } else {
        0
    };
    Some((spread, pct))
}

/// The order-book panel of the operator window.
pub struct OrderbookView {
    depth_levels: usize,
}

impl OrderbookView {
    pub closed spec fn levels(&self) -> nat {
        self.depth_levels as nat
    }

    pub fn new(depth_levels: usize) -> (r: OrderbookView)
        ensures
            r.levels() == depth_levels,
    {
        OrderbookView { depth_levels }
    }

    pub fn set_depth_levels(&mut self, levels: usize)
        ensures
            final(self).levels() == levels,
    {
        self.depth_levels = levels;
    }

    pub fn depth_levels(&self) -> (r: usize)
        ensures
            r == self.levels(),
    {
        self.depth_levels
    }

    /// Rows the panel shows: the configured depth, limited by the shorter
    /// side.
    pub fn visible_rows(&self, bids: usize, asks: usize) -> (r: usize)
        ensures
            r <= self.levels(),
            r <= bids,
            r <= asks,
            r == self.levels() || r == bids || r == asks,
    {
        let shorter = if asks < bids {
            asks
        } else {
            bids
        };
        if self.depth_levels < shorter {
            self.depth_levels
        } else {
            shorter
        }
    }
}

} // verus!
