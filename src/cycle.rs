use vstd::prelude::*;
use crate::fixed::Fixed;
use crate::quote::{PriceError, price_check, validate_price_data};
use crate::swap::{SwapPlan, plan_swap, swap_plan};
use crate::trading::{TradingState, should_trade, trade_signal, fixed_opt};

verus! {

/// What one decision cycle does after reading prices and balances.
#[derive(Clone, Copy, Debug, PartialEq, Eq, Structural)]
pub enum CycleDecision {
    /// An oracle price was rejected: the cycle ends.
    InvalidPrice(PriceError),
    /// The signal did not fire.
    Hold,
    /// The signal fired but there is nothing to swap.
    NothingToSwap,
    /// Swap as planned.
    Swap(SwapPlan),
}

/// The decision of a cycle, given both oracle prices and the balances in
/// smallest units.
pub open spec fn cycle_decision(
    state: TradingState,
    base_in_quote: int,
    quote_in_base: int,
    base_balance: u64,
    quote_balance: u64,
) -> CycleDecision {
    if price_check(base_in_quote) is Err {
        CycleDecision::InvalidPrice(price_check(base_in_quote)->Err_0)
    } else if price_check(quote_in_base) is Err {
        CycleDecision::InvalidPrice(price_check(quote_in_base)->Err_0)
    } else if !trade_signal(state.position, base_in_quote, fixed_opt(state.last_trade_price)) {
        CycleDecision::Hold
    } else {
        match swap_plan(state.position, base_balance, quote_balance) {
            Some(plan) => CycleDecision::Swap(plan),
            None => CycleDecision::NothingToSwap,
        }
    }
}

/// Validates the prices, applies the trade signal and plans the swap.
pub fn decide_cycle(
    state: &TradingState,
    base_in_quote: Fixed,
    quote_in_base: Fixed,
    base_balance: u64,
    quote_balance: u64,
) -> (r: CycleDecision)
    ensures
        r == cycle_decision(
            *state,
            base_in_quote.value(),
            quote_in_base.value(),
            base_balance,
            quote_balance,
        ),
{
    if let Err(e) = validate_price_data(base_in_quote) {
        return CycleDecision::InvalidPrice(e);
    }
    if let Err(e) = validate_price_data(quote_in_base) {
        return CycleDecision::InvalidPrice(e);
    }
    if !should_trade(state.position, base_in_quote, state.last_trade_price) {
        return CycleDecision::Hold;
    }
    match plan_swap(state.position, base_balance, quote_balance) {
        Some(plan) => CycleDecision::Swap(plan),
        None => CycleDecision::NothingToSwap,
    }
}

} // verus!
