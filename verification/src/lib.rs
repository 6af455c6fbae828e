//! Profit and loss of bond positions under a move of the yield curve.
//!
//! A [`CurveStore`] holds the curve at two moments, keyed by tenor. A
//! [`PositionLedger`] records long and short positions against it and values
//! them: a position earns the change in yield at its tenor, times its
//! notional, times the tenor itself as a stand-in for duration.
//!
//! All quantities are exact fixed-point integers. A yield is a count of some
//! fixed fraction chosen by the caller (millionths, say, so that 1.50 % is
//! `15_000`); a notional is a count of currency units; a profit or loss is
//! their product, in yield units times notional units. Nothing is rounded, so
//! sums do not depend on the order of their terms.

pub mod curve;
pub mod laws;
pub mod ledger;
pub mod position;

pub use curve::{CurveStore, Curves, Tenor, Yield};
pub use ledger::{LedgerState, PositionLedger, Summary};
pub use position::{Notional, Position};
