//! Operator control, execution pacing and market-making logic for a
//! simulated trading session.
//!
//! Real-valued quantities (prices, sizes, speeds, ratios) are held as
//! fixed-point integers; see [`fixed`].
pub mod fixed;
pub mod control;
pub mod runner;
pub mod order_tracker;
pub mod pricing;
pub mod risk;
pub mod market_maker;
pub mod telemetry;
pub mod momentum;
pub mod display;
pub mod backtest;
pub mod prediction;
pub mod order_manager;
