use vstd::prelude::*;
use crate::fixed::{Fixed, SCALE, fits_i64};
use crate::records::TradingSession;
use crate::trading::AccountingError;

verus! {

/// Trading results over a period.
#[derive(Clone, Copy, Debug, PartialEq, Eq, Structural)]
pub struct TradingPerformance {
    pub total_trades: u64,
    pub winning_trades: u64,
    pub losing_trades: u64,
    pub total_profit_loss: Fixed,
    pub total_gas_fees: Fixed,
    /// Winning trades as a percentage of all trades, rounded down.
    pub win_rate: Fixed,
    pub period_days: u32,
}

/// Totals over the records taken after `cutoff`: trades, wins, losses,
/// profit and gas fees.
pub open spec fn totals(s: Seq<TradingSession>, cutoff: i64) -> (int, int, int, int, int)
    decreases s.len(),
{
    if s.len() == 0 {
        (0, 0, 0, 0, 0)
    } else {
        let t = totals(s.drop_last(), cutoff);
        let r = s.last();
        if r.timestamp > cutoff {
            let p = match r.profit_loss {
                Some(p) => p.value(),
                None => 0,
            };
            let g = match r.gas_fee {
                Some(g) => g.value(),
                None => 0,
            };
            (
                t.0 + 1,
                t.1 + (if p > 0 {
                    1int
                } else {
                    0
                }),
                t.2 + (if p < 0 {
                    1int
                } else {
                    0
                }),
                t.3 + p,
                t.4 + g,
            )
        } else {
            t
        }
    }
}

proof fn lemma_totals_step(s: Seq<TradingSession>, cutoff: i64, i: int)
    requires
        0 <= i < s.len(),
    ensures
        s.take(i + 1).last() == s[i],
        s.take(i + 1).drop_last() == s.take(i),
{
    assert(s.take(i + 1).drop_last() =~= s.take(i));
}

/// Sums up the trades recorded after `cutoff`: their count, wins and losses
/// by the sign of their profit, total profit and gas fees, and the win rate.
/// `Err` when a total does not fit its type.
pub fn summarize_performance(records: &Vec<TradingSession>, cutoff: i64, period_days: u32) -> (r: Result<
    TradingPerformance,
    AccountingError,
>)
    ensures
        ({
            let t = totals(records@, cutoff);
            if fits_i64(t.3) && fits_i64(t.4) {
                r matches Ok(perf) && {
                    &&& perf.total_trades == t.0
                    &&& perf.winning_trades == t.1
                    &&& perf.losing_trades == t.2
                    &&& perf.total_profit_loss.value() == t.3
                    &&& perf.total_gas_fees.value() == t.4
                    &&& perf.win_rate.value() == (if t.0 > 0 {
                        (t.1 * 100 * SCALE) / t.0
                    } else {
                        0
                    })
                    &&& perf.period_days == period_days
                }
            } else {
                r == Err::<TradingPerformance, AccountingError>(AccountingError::Overflow)
            }
        }),
{
    let ghost s = records@;
    let mut total: u64 = 0;
    let mut wins: u64 = 0;
    let mut losses: u64 = 0;
    let mut profit: i128 = 0;
    let mut gas: i128 = 0;
    let mut i: usize = 0;
    while i < records.len()
        invariant
            s == records@,
            i <= s.len(),
            totals(s.take(i as int), cutoff) == (
                total as int,
                wins as int,
                losses as int,
                profit as int,
                gas as int,
            ),
            wins + losses <= total <= i,
            -(i as int) * 0x8000_0000_0000_0000 <= profit <= (i as int) * 0x7fff_ffff_ffff_ffff,
            -(i as int) * 0x8000_0000_0000_0000 <= gas <= (i as int) * 0x7fff_ffff_ffff_ffff,
        decreases s.len() - i,
    {
        proof {
            lemma_totals_step(s, cutoff, i as int);
        }
        let rec = &records[i];
        if rec.timestamp > cutoff {
            let p: i64 = match rec.profit_loss {
                Some(p) => p.units,
                None => 0,
            };
            let g: i64 = match rec.gas_fee {
                Some(g) => g.units,
                None => 0,
            };
            total = total + 1;
            if p > 0 {
                wins = wins + 1;
            } else if p < 0 {
                losses = losses + 1;
            }
            profit = profit + p as i128;
            gas = gas + g as i128;
        }
        i = i + 1;
    }
    assert(s.take(i as int) =~= s);
    if profit < i64::MIN as i128 || profit > i64::MAX as i128 || gas < i64::MIN as i128 || gas
        > i64::MAX as i128 {
        return Err(AccountingError::Overflow);
    }
    let win_rate: i64 = if total > 0 {
        assert(wins * 100 * SCALE <= total * 100 * SCALE) by (nonlinear_arith)
            requires
                wins <= total,
        ;
        assert((wins * 100 * SCALE) / (total as int) <= 100 * SCALE) by (nonlinear_arith)
            requires
                wins <= total,
                total > 0,
        ;
        ((wins as u128) * 100 * (SCALE as u128) / (total as u128)) as i64
    } else {
        0
    };
    Ok(
        TradingPerformance {
            total_trades: total,
            winning_trades: wins,
            losing_trades: losses,
            total_profit_loss: Fixed { units: profit as i64 },
            total_gas_fees: Fixed { units: gas as i64 },
            win_rate: Fixed { units: win_rate },
            period_days,
        },
    )
}

} // verus!
