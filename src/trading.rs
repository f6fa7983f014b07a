use vstd::prelude::*;
use crate::fixed::{Fixed, fits_i64, SCALE, div_toward_zero, div_toward_zero_i128};
use crate::balance::{BalanceSnapshot, measure, base_moved, is_anomaly, quote_moved};
use crate::fixed::{scaled_product, scaled_quotient};
use crate::records::{PriceHistory, ProfitTracking, TradingSession};

verus! {

/// Which asset the wallet holds as its working balance.
#[derive(Clone, Copy, Debug, PartialEq, Eq, Structural)]
pub enum Position {
    /// Holding the base asset (SOL).
    SOL,
    /// Holding the quote asset (USDC).
    USDC,
}

/// The direction of a swap, named after the base asset.
#[derive(Clone, Copy, Debug, PartialEq, Eq, Structural)]
pub enum TradeAction {
    BuyBase,
    SellBase,
}

impl Position {
    /// The swap that leaves this position.
    pub open spec fn spec_exit_action(self) -> TradeAction {
        match self {
            Position::USDC => TradeAction::BuyBase,
            Position::SOL => TradeAction::SellBase,
        }
    }

    /// The position on the other side of a swap out of this one.
    pub open spec fn spec_opposite(self) -> Position {
        match self {
            Position::USDC => Position::SOL,
            Position::SOL => Position::USDC,
        }
    }

    pub fn exit_action(&self) -> (r: TradeAction)
        ensures
            r == self.spec_exit_action(),
    {
        match self {
            Position::USDC => TradeAction::BuyBase,
            Position::SOL => TradeAction::SellBase,
        }
    }

    pub fn opposite(&self) -> (r: Position)
        ensures
            r == self.spec_opposite(),
    {
        match self {
            Position::USDC => Position::SOL,
            Position::SOL => Position::USDC,
        }
    }
}

/// The trade signal: a price at least one percent above the price of the
/// last executed trade, whichever asset is held.
pub open spec fn trade_signal(position: Position, current: int, last: Option<int>) -> bool {
    match last {
        Some(l) => 100 * current >= 101 * l,
        None => false,
    }
}

/// Decides whether a swap should fire: only once a trade has been made, and
/// only when `current_price >= last_trade_price * 1.01`.
pub fn should_trade(position: Position, current_price: Fixed, last_trade_price: Option<Fixed>) -> (r: bool)
    ensures
        r == trade_signal(
            position,
            current_price.value(),
            match last_trade_price {
                Some(l) => Some(l.value()),
                None => None,
            },
        ),
{
    match last_trade_price {
        Some(last) => 100 * (current_price.units as i128) >= 101 * (last.units as i128),
        None => false,
    }
}

/// Why a settlement could not be recorded.
#[derive(Clone, Copy, Debug, PartialEq, Eq, Structural)]
pub enum AccountingError {
    /// The profit, the cumulative profit or the trade count would leave the
    /// range of its type.
    Overflow,
}

/// The profit of a swap in quote-asset units of `10^-9`: the price gain
/// times the base amount when selling the base asset, the price saving
/// times the base amount when buying it.
pub open spec fn profit_value(action: TradeAction, last: int, realized: int, amount: int) -> int {
    match action {
        TradeAction::SellBase => scaled_product(realized - last, amount),
        TradeAction::BuyBase => scaled_product(last - realized, amount),
    }
}

/// The value of an optional decimal.
pub open spec fn fixed_opt(f: Option<Fixed>) -> Option<int> {
    match f {
        Some(v) => Some(v.value()),
        None => None,
    }
}

/// The profit of a swap out of the state's position, if there is a baseline.
pub open spec fn settled_profit(s: TradingState, realized: int, amount: int) -> Option<int> {
    match s.last_trade_price {
        Some(last) => Some(profit_value(s.position.spec_exit_action(), last.value(), realized, amount)),
        None => None,
    }
}

/// Whether the counters and the profits stay in range when settling.
pub open spec fn settle_fits(s: TradingState, realized: int, amount: int) -> bool {
    &&& s.total_trades < u64::MAX
    &&& match settled_profit(s, realized, amount) {
        Some(p) => fits_i64(p) && fits_i64(s.total_profit.value() + p),
        None => true,
    }
}

/// `next` is `prev` after one settled trade with profit `profit`: one more
/// trade, the profit added, a win for a gain and a loss for a loss; the
/// position and the prices untouched.
pub open spec fn settled(prev: TradingState, next: TradingState, profit: Option<int>) -> bool {
    let gain = match profit {
        Some(p) => p,
        None => 0,
    };
    &&& next.position == prev.position
    &&& next.last_trade_price == prev.last_trade_price
    &&& next.last_base_price == prev.last_base_price
    &&& next.last_quote_price == prev.last_quote_price
    &&& next.total_trades == prev.total_trades + 1
    &&& next.total_profit.value() == prev.total_profit.value() + gain
    &&& next.winning_trades == prev.winning_trades + (if gain > 0 {
        1int
    } else {
        0
    })
    &&& next.losing_trades == prev.losing_trades + (if gain < 0 {
        1int
    } else {
        0
    })
}

/// Cumulative profit as a percentage of a starting balance: zero without a
/// positive balance, `None` when out of range.
pub open spec fn roi_of(total_profit: int, balance: int) -> Option<int> {
    if balance <= 0 {
        Some(0)
    } else {
        let v = div_toward_zero(total_profit * 100 * SCALE, balance);
        if fits_i64(v) {
            Some(v)
        } else {
            None
        }
    }
}

/// The state that the latest records describe.
pub open spec fn rehydrated(
    trade: Option<TradingSession>,
    profit: Option<ProfitTracking>,
    price: Option<PriceHistory>,
) -> TradingState {
    let counted = match profit {
        Some(p) => p.counters_consistent(),
        None => false,
    };
    TradingState {
        position: match trade {
            Some(t) => t.position_after,
            None => Position::USDC,
        },
        last_trade_price: match trade {
            Some(t) => Some(t.price_at_trade),
            None => None,
        },
        last_base_price: match price {
            Some(p) => Some(p.base_in_quote),
            None => None,
        },
        last_quote_price: match price {
            Some(p) => Some(p.quote_in_base),
            None => None,
        },
        total_profit: match profit {
            Some(p) => p.cumulative_profit,
            None => Fixed { units: 0 },
        },
        total_trades: if counted {
            profit->0.total_trades
        } else {
            0
        },
        winning_trades: if counted {
            profit->0.winning_trades
        } else {
            0
        },
        losing_trades: if counted {
            profit->0.losing_trades
        } else {
            0
        },
    }
}

/// The position, the last trade price and the performance counters.
pub struct TradingState {
    pub position: Position,
    pub last_base_price: Option<Fixed>,
    pub last_quote_price: Option<Fixed>,
    pub last_trade_price: Option<Fixed>,
    pub total_profit: Fixed,
    pub total_trades: u64,
    pub winning_trades: u64,
    pub losing_trades: u64,
}

impl TradingState {
    /// Every trade counted as a win or a loss is counted in the total.
    pub open spec fn wf(&self) -> bool {
        self.winning_trades + self.losing_trades <= self.total_trades
    }

    /// Holding the quote asset, no trade yet, zero counters.
    pub fn new() -> (r: TradingState)
        ensures
            r.wf(),
            r.position == Position::USDC,
            r.last_base_price.is_none(),
            r.last_quote_price.is_none(),
            r.last_trade_price.is_none(),
            r.total_profit.value() == 0,
            r.total_trades == 0,
            r.winning_trades == 0,
            r.losing_trades == 0,
    {
        TradingState {
            position: Position::USDC,
            last_base_price: None,
            last_quote_price: None,
            last_trade_price: None,
            total_profit: Fixed::zero(),
            total_trades: 0,
            winning_trades: 0,
            losing_trades: 0,
        }
    }

    /// Accounts for a swap out of the current position, at `realized_price`
    /// (quote per base) for `amount_moved` of the base asset. Without a last
    /// trade price there is no baseline: the profit is `None` and only the
    /// trade count grows. On `Err` nothing changes.
    pub fn settle(&mut self, realized_price: Fixed, amount_moved: Fixed) -> (r: Result<
        Option<Fixed>,
        AccountingError,
    >)
        requires
            old(self).wf(),
        ensures
            final(self).wf(),
            r is Ok <==> settle_fits(*old(self), realized_price.value(), amount_moved.value()),
            r is Err ==> r == Err::<Option<Fixed>, AccountingError>(AccountingError::Overflow)
                && *final(self) == *old(self),
            r matches Ok(p) ==> {
                &&& fixed_opt(p) == settled_profit(
                    *old(self),
                    realized_price.value(),
                    amount_moved.value(),
                )
                &&& settled(*old(self), *final(self), fixed_opt(p))
            },
    {
        if self.total_trades == u64::MAX {
            return Err(AccountingError::Overflow);
        }
        match self.last_trade_price {
            None => {
                self.total_trades = self.total_trades + 1;
                Ok(None)
            },
            Some(last) => {
                let delta: i128 = match self.position.exit_action() {
                    TradeAction::SellBase => realized_price.units as i128 - last.units as i128,
                    TradeAction::BuyBase => last.units as i128 - realized_price.units as i128,
                };
                let amount = amount_moved.units as i128;
                assert(-0xffff_ffff_ffff_ffff <= delta <= 0xffff_ffff_ffff_ffff);
                assert(-0x7fff_ffff_ffff_ffff_8000_0000_0000_0000 <= delta * amount
                    <= 0x7fff_ffff_ffff_ffff_8000_0000_0000_0000) by (nonlinear_arith)
                    requires
                        -0xffff_ffff_ffff_ffff <= delta <= 0xffff_ffff_ffff_ffff,
                        -0x8000_0000_0000_0000 <= amount <= 0x7fff_ffff_ffff_ffff,
                ;
                let product: i128 = delta * amount;
                let p = div_toward_zero_i128(product, SCALE as i128);
                if p < i64::MIN as i128 || p > i64::MAX as i128 {
                    return Err(AccountingError::Overflow);
                }
                let total = self.total_profit.units as i128 + p;
                if total < i64::MIN as i128 || total > i64::MAX as i128 {
                    return Err(AccountingError::Overflow);
                }
                self.total_profit = Fixed { units: total as i64 };
                self.total_trades = self.total_trades + 1;
                if p > 0 {
                    self.winning_trades = self.winning_trades + 1;
                } else if p < 0 {
                    self.losing_trades = self.losing_trades + 1;
                }
                Ok(Some(Fixed { units: p as i64 }))
            },
        }
    }

    /// The record of the counters after the trade `trade_id`, which made
    /// `profit_loss` starting from `quote_balance_before`.
    pub fn profit_record(
        &self,
        id: String,
        timestamp: i64,
        trade_id: String,
        profit_loss: Fixed,
        quote_balance_before: Fixed,
    ) -> (r: ProfitTracking)
        ensures
            r.id == id,
            r.timestamp == timestamp,
            r.trade_id == trade_id,
            r.profit_loss == profit_loss,
            r.cumulative_profit == self.total_profit,
            fixed_opt(r.roi_percentage) == roi_of(self.total_profit.value(), quote_balance_before.value()),
            r.total_trades == self.total_trades,
            r.winning_trades == self.winning_trades,
            r.losing_trades == self.losing_trades,
    {
        let roi_percentage = if quote_balance_before.units <= 0 {
            Some(Fixed::zero())
        } else {
            let t = self.total_profit.units as i128;
            assert(-0x8000_0000_0000_0000 * 100_000_000_000 <= t * 100 * SCALE <= 0x7fff_ffff_ffff_ffff
                * 100_000_000_000) by (nonlinear_arith)
                requires
                    -0x8000_0000_0000_0000 <= t <= 0x7fff_ffff_ffff_ffff,
            ;
            let v = div_toward_zero_i128(t * 100 * (SCALE as i128), quote_balance_before.units as i128);
            if i64::MIN as i128 <= v && v <= i64::MAX as i128 {
                Some(Fixed { units: v as i64 })
            } else {
                None
            }
        };
        ProfitTracking {
            id,
            timestamp,
            trade_id,
            profit_loss,
            cumulative_profit: self.total_profit,
            roi_percentage,
            total_trades: self.total_trades,
            winning_trades: self.winning_trades,
            losing_trades: self.losing_trades,
        }
    }

    /// Rebuilds the state at start-up from the latest persisted records. The
    /// position and the last trade price come from the latest trade record
    /// (holding the quote asset, with no price, when there is none); the
    /// cumulative profit from the latest profit record, and its counters
    /// unless they are inconsistent (zero when there is no record, and zero
    /// counters when they are); the last observed prices from the latest
    /// price sample.
    pub fn rehydrate(
        latest_trade: Option<&TradingSession>,
        latest_profit: Option<&ProfitTracking>,
        latest_price: Option<&PriceHistory>,
    ) -> (r: TradingState)
        ensures
            r.wf(),
            r == rehydrated(
                match latest_trade {
                    Some(t) => Some(*t),
                    None => None,
                },
                match latest_profit {
                    Some(p) => Some(*p),
                    None => None,
                },
                match latest_price {
                    Some(p) => Some(*p),
                    None => None,
                },
            ),
    {
        let mut state = TradingState::new();
        if let Some(t) = latest_trade {
            state.position = t.position_after;
            state.last_trade_price = Some(t.price_at_trade);
        }
        if let Some(p) = latest_profit {
            state.total_profit = p.cumulative_profit;
            if p.winning_trades <= p.total_trades && p.losing_trades <= p.total_trades
                - p.winning_trades {
                state.total_trades = p.total_trades;
                state.winning_trades = p.winning_trades;
                state.losing_trades = p.losing_trades;
            }
        }
        if let Some(p) = latest_price {
            state.last_base_price = Some(p.base_in_quote);
            state.last_quote_price = Some(p.quote_in_base);
        }
        state
    }

    /// Commits an executed swap out of the current position: measures it from
    /// the balances, settles its profit, moves to the other asset and makes
    /// `price_at_trade` the new last trade price; returns the trade's record.
    /// On `Err` nothing changes.
    pub fn apply_trade(
        &mut self,
        id: String,
        timestamp: i64,
        price_at_trade: Fixed,
        before: BalanceSnapshot,
        after: BalanceSnapshot,
    ) -> (r: Result<TradingSession, AccountingError>)
        requires
            old(self).wf(),
            before.wf(),
            after.wf(),
        ensures
            final(self).wf(),
            ({
                let action = old(self).position.spec_exit_action();
                let anomaly = is_anomaly(action, before, after);
                let realized = if anomaly {
                    0
                } else {
                    scaled_quotient(quote_moved(action, before, after), base_moved(action, before, after))
                };
                let amount = base_moved(action, before, after);
                &&& r is Ok <==> settle_fits(*old(self), realized, amount)
                &&& r is Err ==> r == Err::<TradingSession, AccountingError>(AccountingError::Overflow)
                    && *final(self) == *old(self)
                &&& r matches Ok(rec) ==> {
                    &&& fixed_opt(rec.profit_loss) == settled_profit(*old(self), realized, amount)
                    &&& final(self).position == old(self).position.spec_opposite()
                    &&& final(self).last_trade_price == Some(price_at_trade)
                    &&& final(self).last_base_price == old(self).last_base_price
                    &&& final(self).last_quote_price == old(self).last_quote_price
                    &&& settled(
                        *old(self),
                        TradingState {
                            position: old(self).position,
                            last_trade_price: old(self).last_trade_price,
                            ..*final(self)
                        },
                        fixed_opt(rec.profit_loss),
                    )
                    &&& rec.id == id
                    &&& rec.timestamp == timestamp
                    &&& rec.position_before == old(self).position
                    &&& rec.position_after == final(self).position
                    &&& rec.action == action
                    &&& rec.base_balance_before == before.base
                    &&& rec.quote_balance_before == before.quote
                    &&& rec.base_balance_after == after.base
                    &&& rec.quote_balance_after == after.quote
                    &&& rec.price_at_trade == price_at_trade
                    &&& fixed_opt(rec.realized_slippage) == (if fits_i64(
                        realized - price_at_trade.value(),
                    ) {
                        Some(realized - price_at_trade.value())
                    } else {
                        None::<int>
                    })
                    &&& rec.gas_fee.is_none()
                    &&& rec.cumulative_profit_after == Some(final(self).total_profit)
                }
            }),
    {
        let action = self.position.exit_action();
        let m = measure(before, after, action);
        let profit = match self.settle(m.realized_price, m.base_moved) {
            Ok(p) => p,
            Err(e) => return Err(e),
        };
        let position_before = self.position;
        self.position = self.position.opposite();
        self.last_trade_price = Some(price_at_trade);
        let diff = m.realized_price.units as i128 - price_at_trade.units as i128;
        let realized_slippage = if i64::MIN as i128 <= diff && diff <= i64::MAX as i128 {
            Some(Fixed { units: diff as i64 })
        } else {
            None
        };
        Ok(TradingSession {
            id,
            timestamp,
            position_before,
            position_after: self.position,
            action,
            base_balance_before: before.base,
            quote_balance_before: before.quote,
            base_balance_after: after.base,
            quote_balance_after: after.quote,
            price_at_trade,
            realized_slippage,
            gas_fee: None,
            profit_loss: profit,
            cumulative_profit_after: Some(self.total_profit),
        })
    }
}

/// Without a last trade price no trade fires, whatever the current price.
pub proof fn lemma_no_signal_without_baseline(position: Position, current: int)
    ensures
        !trade_signal(position, current, None),
{
}

/// For a positive last trade price the signal fires exactly when
/// `current / last >= 1.01`, and it is the same whichever asset is held.
pub proof fn lemma_signal_threshold(position: Position, current: int, last: int)
    requires
        last > 0,
    ensures
        trade_signal(position, current, Some(last)) <==> 100 * current >= 101 * last,
        trade_signal(Position::SOL, current, Some(last)) == trade_signal(
            Position::USDC,
            current,
            Some(last),
        ),
{
}

/// One settlement keeps a consistent state consistent.
pub proof fn lemma_settlement_keeps_counters(prev: TradingState, next: TradingState, profit: Option<int>)
    requires
        prev.wf(),
        settled(prev, next, profit),
    ensures
        next.wf(),
{
}

proof fn lemma_run_prefix(states: Seq<TradingState>, profits: Seq<Option<int>>, i: int)
    requires
        states.len() == profits.len() + 1,
        states[0].wf(),
        forall|j: int| 0 <= j < profits.len() ==> settled(#[trigger] states[j], states[j + 1], profits[j]),
        0 <= i < states.len(),
    ensures
        states[i].wf(),
    decreases i,
{
    if i > 0 {
        lemma_run_prefix(states, profits, i - 1);
        assert(settled(states[i - 1], states[i], profits[i - 1]));
    }
}

/// Along any run of settlements from a consistent state, every trade
/// counted as a win or a loss is counted in the total.
pub proof fn lemma_settlements_keep_counters(states: Seq<TradingState>, profits: Seq<Option<int>>)
    requires
        states.len() == profits.len() + 1,
        states[0].wf(),
        forall|i: int| 0 <= i < profits.len() ==> settled(#[trigger] states[i], states[i + 1], profits[i]),
    ensures
        forall|i: int| 0 <= i < states.len() ==> (#[trigger] states[i]).wf(),
{
    assert forall|i: int| 0 <= i < states.len() implies (#[trigger] states[i]).wf() by {
        lemma_run_prefix(states, profits, i);
    }
}

/// A consistent state that has traded and observed a price comes back
/// unchanged from the trade, profit and price records written from it.
pub proof fn lemma_records_restore_state(
    s: TradingState,
    trade: TradingSession,
    profit: ProfitTracking,
    price: PriceHistory,
)
    requires
        s.wf(),
        trade.position_after == s.position,
        s.last_trade_price == Some(trade.price_at_trade),
        profit.cumulative_profit == s.total_profit,
        profit.total_trades == s.total_trades,
        profit.winning_trades == s.winning_trades,
        profit.losing_trades == s.losing_trades,
        s.last_base_price == Some(price.base_in_quote),
        s.last_quote_price == Some(price.quote_in_base),
    ensures
        rehydrated(Some(trade), Some(profit), Some(price)) == s,
{
}

/// Selling the base asset with a baseline: the profit is
/// `(realized - last) * amount` in quote terms (rounded toward zero at nine
/// decimals), and the trade is a win exactly when that product reaches one
/// unit of `10^-9`, a loss exactly when it reaches minus one.
pub proof fn lemma_selling_base_profit(s: TradingState, realized: int, amount: int)
    requires
        s.position == Position::SOL,
        s.last_trade_price is Some,
    ensures
        settled_profit(s, realized, amount) == Some(
            scaled_product(realized - s.last_trade_price->0.value(), amount),
        ),
        scaled_product(realized - s.last_trade_price->0.value(), amount) > 0 <==> (realized
            - s.last_trade_price->0.value()) * amount >= SCALE,
        scaled_product(realized - s.last_trade_price->0.value(), amount) < 0 <==> (realized
            - s.last_trade_price->0.value()) * amount <= -SCALE,
{
    let x = (realized - s.last_trade_price->0.value()) * amount;
    if x >= 0 {
        assert(x / 1_000_000_000 > 0 <==> x >= 1_000_000_000) by (nonlinear_arith)
            requires
                x >= 0,
        ;
    } else {
        assert((-x) / 1_000_000_000 > 0 <==> -x >= 1_000_000_000) by (nonlinear_arith)
            requires
                x < 0,
        ;
    }
}

} // verus!
