use vstd::prelude::*;
use crate::fixed::{Fixed, SCALE, fits_i64, scaled_quotient, div_toward_zero_i128};
use crate::trading::TradeAction;

verus! {

/// Wallet balances of both assets at one moment.
#[derive(Clone, Copy, Debug, PartialEq, Eq, Structural)]
pub struct BalanceSnapshot {
    pub base: Fixed,
    pub quote: Fixed,
}

impl BalanceSnapshot {
    /// Balances are never negative.
    pub open spec fn wf(self) -> bool {
        self.base.value() >= 0 && self.quote.value() >= 0
    }
}

/// What a swap actually moved, read from balance changes.
#[derive(Clone, Copy, Debug, PartialEq, Eq, Structural)]
pub struct Measurement {
    /// The amount of the asset given up.
    pub amount_moved_out: Fixed,
    /// The amount of the asset received.
    pub amount_moved_in: Fixed,
    /// The base amount that changed hands, whichever the direction.
    pub base_moved: Fixed,
    /// Quote per base at which the swap executed; zero on an anomaly.
    pub realized_price: Fixed,
    /// The balances could not give a price: nothing was spent, no base
    /// amount changed hands, or the ratio is out of range.
    pub anomaly: bool,
}

/// The base amount that changed hands in a swap.
pub open spec fn base_moved(action: TradeAction, before: BalanceSnapshot, after: BalanceSnapshot) -> int {
    match action {
        TradeAction::SellBase => before.base.value() - after.base.value(),
        TradeAction::BuyBase => after.base.value() - before.base.value(),
    }
}

/// The quote amount that changed hands in a swap.
pub open spec fn quote_moved(action: TradeAction, before: BalanceSnapshot, after: BalanceSnapshot) -> int {
    match action {
        TradeAction::SellBase => after.quote.value() - before.quote.value(),
        TradeAction::BuyBase => before.quote.value() - after.quote.value(),
    }
}

/// The amount given up: the base asset when selling it, the quote asset when
/// buying it.
pub open spec fn spent(action: TradeAction, before: BalanceSnapshot, after: BalanceSnapshot) -> int {
    match action {
        TradeAction::SellBase => base_moved(action, before, after),
        TradeAction::BuyBase => quote_moved(action, before, after),
    }
}

/// The amount received.
pub open spec fn received(action: TradeAction, before: BalanceSnapshot, after: BalanceSnapshot) -> int {
    match action {
        TradeAction::SellBase => quote_moved(action, before, after),
        TradeAction::BuyBase => base_moved(action, before, after),
    }
}

/// Whether the balances give no usable price.
pub open spec fn is_anomaly(action: TradeAction, before: BalanceSnapshot, after: BalanceSnapshot) -> bool {
    spent(action, before, after) <= 0 || base_moved(action, before, after) <= 0 || !fits_i64(
        scaled_quotient(quote_moved(action, before, after), base_moved(action, before, after)),
    )
}

/// Computes the amounts a swap moved and the price it executed at, from
/// balances read before and after it. The price is quote per base, rounded
/// toward zero; on an anomaly it is zero and flagged, never a division by
/// zero.
pub fn measure(before: BalanceSnapshot, after: BalanceSnapshot, action: TradeAction) -> (r: Measurement)
    requires
        before.wf(),
        after.wf(),
    ensures
        r.amount_moved_out.value() == spent(action, before, after),
        r.amount_moved_in.value() == received(action, before, after),
        r.base_moved.value() == base_moved(action, before, after),
        r.anomaly == is_anomaly(action, before, after),
        r.realized_price.value() == (if r.anomaly {
            0
        } else {
            scaled_quotient(quote_moved(action, before, after), base_moved(action, before, after))
        }),
{
    let (base, quote): (i64, i64) = match action {
        TradeAction::SellBase => (
            before.base.units - after.base.units,
            after.quote.units - before.quote.units,
        ),
        TradeAction::BuyBase => (
            after.base.units - before.base.units,
            before.quote.units - after.quote.units,
        ),
    };
    let (out, inn): (i64, i64) = match action {
        TradeAction::SellBase => (base, quote),
        TradeAction::BuyBase => (quote, base),
    };
    let mut anomaly = out <= 0 || base <= 0;
    let mut price: i64 = 0;
    if !anomaly {
        let q = div_toward_zero_i128((quote as i128) * (SCALE as i128), base as i128);
        if q < i64::MIN as i128 || q > i64::MAX as i128 {
            anomaly = true;
        } else {
            price = q as i64;
        }
    }
    Measurement {
        amount_moved_out: Fixed { units: out },
        amount_moved_in: Fixed { units: inn },
        base_moved: Fixed { units: base },
        realized_price: Fixed { units: price },
        anomaly,
    }
}

} // verus!
