use vstd::prelude::*;
use crate::fixed::Fixed;
use crate::trading::{Position, TradeAction};
use crate::trend::DAY_SECS;

verus! {

/// One price observation, taken once per decision cycle.
#[derive(Clone, Debug)]
pub struct PriceHistory {
    pub id: String,
    /// Seconds since the Unix epoch.
    pub timestamp: i64,
    /// Price of one base unit in the quote asset.
    pub base_in_quote: Fixed,
    /// Price of one quote unit in the base asset.
    pub quote_in_base: Fixed,
    pub source: String,
    pub session_id: String,
}

/// The record of one executed swap.
#[derive(Clone, Debug)]
pub struct TradingSession {
    pub id: String,
    /// Seconds since the Unix epoch.
    pub timestamp: i64,
    pub position_before: Position,
    pub position_after: Position,
    pub action: TradeAction,
    pub base_balance_before: Fixed,
    pub quote_balance_before: Fixed,
    pub base_balance_after: Fixed,
    pub quote_balance_after: Fixed,
    /// The oracle price (quote per base) the decision was made at.
    pub price_at_trade: Fixed,
    /// Realized price (zero on a balance anomaly) minus `price_at_trade`;
    /// `None` when out of range.
    pub realized_slippage: Option<Fixed>,
    pub gas_fee: Option<Fixed>,
    pub profit_loss: Option<Fixed>,
    pub cumulative_profit_after: Option<Fixed>,
}

/// The performance counters after one settled trade.
#[derive(Clone, Debug)]
pub struct ProfitTracking {
    pub id: String,
    /// Seconds since the Unix epoch.
    pub timestamp: i64,
    pub trade_id: String,
    pub profit_loss: Fixed,
    pub cumulative_profit: Fixed,
    /// Cumulative profit as a percentage of the quote balance before the
    /// trade; `None` when out of range.
    pub roi_percentage: Option<Fixed>,
    pub total_trades: u64,
    pub winning_trades: u64,
    pub losing_trades: u64,
}

impl ProfitTracking {
    /// The counters keep the state's invariant.
    pub open spec fn counters_consistent(&self) -> bool {
        self.winning_trades + self.losing_trades <= self.total_trades
    }
}

/// Whether a record from `timestamp` is older than `retention_days` days
/// at `now`, and so due for deletion.
pub fn is_expired(timestamp: i64, now: i64, retention_days: u32) -> (r: bool)
    ensures
        r == (timestamp + retention_days * DAY_SECS < now),
{
    assert(retention_days * DAY_SECS <= 0xffff_ffff * 86400) by (nonlinear_arith)
        requires
            retention_days <= 0xffff_ffff,
    ;
    (timestamp as i128) + (retention_days as i128) * (DAY_SECS as i128) < now as i128
}

} // verus!
