use vstd::prelude::*;
use vstd::arithmetic::div_mod::{lemma_div_is_ordered, lemma_div_by_multiple};
use crate::fixed::{Fixed, SCALE, div_toward_zero, div_toward_zero_i128};
use crate::records::PriceHistory;

verus! {

pub const HOUR_SECS: i64 = 3600;

pub const DAY_SECS: i64 = 86400;

pub const WEEK_SECS: i64 = 604800;

/// Which way the price moved since an earlier sample.
#[derive(Clone, Copy, Debug, PartialEq, Eq, Structural)]
pub enum Direction {
    Up,
    Down,
    Stable,
}

/// Short, medium and long horizon price movement and dispersion.
#[derive(Clone, Copy, Debug, PartialEq, Eq, Structural)]
pub struct PriceTrend {
    pub timestamp: i64,
    pub price_1h_ago: Option<Fixed>,
    pub price_24h_ago: Option<Fixed>,
    pub price_7d_ago: Option<Fixed>,
    pub direction_1h: Option<Direction>,
    pub direction_24h: Option<Direction>,
    pub direction_7d: Option<Direction>,
    pub volatility_1h: Option<Fixed>,
    pub volatility_24h: Option<Fixed>,
}

/// A sample taken at or before `now - horizon`.
pub open spec fn at_or_before(s: PriceHistory, now: i64, horizon: i64) -> bool {
    s.timestamp + horizon <= now
}

/// A sample taken after `now - horizon`.
pub open spec fn in_window(s: PriceHistory, now: i64, horizon: i64) -> bool {
    s.timestamp + horizon > now
}

/// `k` is the most recent sample at or before `now - horizon`, the first
/// such one among samples with equal timestamps.
pub open spec fn is_latest_at_or_before(h: Seq<PriceHistory>, now: i64, horizon: i64, k: int) -> bool {
    &&& 0 <= k < h.len()
    &&& at_or_before(h[k], now, horizon)
    &&& forall|i: int|
        0 <= i < h.len() && at_or_before(#[trigger] h[i], now, horizon) ==> h[i].timestamp
            <= h[k].timestamp && (h[i].timestamp == h[k].timestamp ==> k <= i)
}

/// Finds the most recent sample at or before `now - horizon`.
pub fn latest_at_or_before(history: &Vec<PriceHistory>, now: i64, horizon: i64) -> (r: Option<usize>)
    requires
        horizon >= 0,
    ensures
        match r {
            Some(k) => is_latest_at_or_before(history@, now, horizon, k as int),
            None => forall|i: int|
                0 <= i < history@.len() ==> !at_or_before(#[trigger] history@[i], now, horizon),
        },
{
    let mut best: Option<usize> = None;
    let mut i: usize = 0;
    while i < history.len()
        invariant
            i <= history@.len(),
            match best {
                Some(k) => is_latest_at_or_before(history@.take(i as int), now, horizon, k as int),
                None => forall|j: int|
                    0 <= j < i ==> !at_or_before(#[trigger] history@[j], now, horizon),
            },
        decreases history@.len() - i,
    {
        let s = &history[i];
        let eligible = (s.timestamp as i128) + (horizon as i128) <= now as i128;
        if eligible {
            let better = match best {
                None => true,
                Some(k) => history[k].timestamp < s.timestamp,
            };
            if better {
                best = Some(i);
            }
        }
        proof {
            let t = history@.take(i as int + 1);
            assert forall|j: int| 0 <= j < i ==> t[j] == history@.take(i as int)[j] by {}
        }
        i = i + 1;
    }
    assert(history@.take(i as int) =~= history@);
    best
}

/// The direction from `past` to `current`.
pub open spec fn direction_of(current: int, past: int) -> Direction {
    if current > past {
        Direction::Up
    } else if current < past {
        Direction::Down
    } else {
        Direction::Stable
    }
}

pub fn direction(current: Fixed, past: Fixed) -> (r: Direction)
    ensures
        r == direction_of(current.value(), past.value()),
{
    if current.units > past.units {
        Direction::Up
    } else if current.units < past.units {
        Direction::Down
    } else {
        Direction::Stable
    }
}

/// The prices of the samples in the window, in order.
pub open spec fn window_prices(h: Seq<PriceHistory>, now: i64, horizon: i64) -> Seq<int>
    decreases h.len(),
{
    if h.len() == 0 {
        seq![]
    } else {
        let w = window_prices(h.drop_last(), now, horizon);
        if in_window(h.last(), now, horizon) {
            w.push(h.last().base_in_quote.value())
        } else {
            w
        }
    }
}

pub open spec fn sum_of(s: Seq<int>) -> int
    decreases s.len(),
{
    if s.len() == 0 {
        0
    } else {
        sum_of(s.drop_last()) + s.last()
    }
}

/// The sum of squared deviations from `m`.
pub open spec fn sum_sq_dev(s: Seq<int>, m: int) -> int
    decreases s.len(),
{
    if s.len() == 0 {
        0
    } else {
        sum_sq_dev(s.drop_last(), m) + (s.last() - m) * (s.last() - m)
    }
}

/// The mean, rounded toward zero.
pub open spec fn mean_of(s: Seq<int>) -> int {
    div_toward_zero(sum_of(s), s.len() as int)
}

/// The population variance of nine-decimal values, in nine-decimal units,
/// rounded down.
pub open spec fn variance_of(s: Seq<int>) -> int {
    sum_sq_dev(s, mean_of(s)) / (SCALE * s.len())
}

/// The volatility of a window: zero below two samples; `None` where the
/// squared deviations or the variance leave the range of the computation.
pub open spec fn volatility_value(s: Seq<int>) -> Option<int> {
    if s.len() < 2 {
        Some(0)
    } else if sum_sq_dev(s, mean_of(s)) <= u128::MAX && variance_of(s) <= i64::MAX {
        Some(variance_of(s))
    } else {
        None
    }
}

proof fn lemma_window_step(h: Seq<PriceHistory>, now: i64, horizon: i64, i: int)
    requires
        0 <= i < h.len(),
    ensures
        window_prices(h.take(i + 1), now, horizon) == (if in_window(h[i], now, horizon) {
            window_prices(h.take(i), now, horizon).push(h[i].base_in_quote.value())
        } else {
            window_prices(h.take(i), now, horizon)
        }),
{
    assert(h.take(i + 1).drop_last() =~= h.take(i));
}

proof fn lemma_sum_sq_dev_grows(h: Seq<PriceHistory>, now: i64, horizon: i64, m: int, i: int)
    requires
        0 <= i <= h.len(),
    ensures
        sum_sq_dev(window_prices(h.take(i), now, horizon), m) <= sum_sq_dev(
            window_prices(h, now, horizon),
            m,
        ),
    decreases h.len() - i,
{
    if i < h.len() {
        lemma_sum_sq_dev_grows(h, now, horizon, m, i + 1);
        lemma_window_step(h, now, horizon, i);
        let x = h[i].base_in_quote.value();
        assert((x - m) * (x - m) >= 0) by (nonlinear_arith);
        let w = window_prices(h.take(i), now, horizon);
        if in_window(h[i], now, horizon) {
            assert(w.push(x).drop_last() =~= w);
        }
    } else {
        assert(h.take(i) =~= h);
    }
}

/// The population variance of the prices of the samples taken after
/// `now - horizon`: zero below two such samples.
pub fn volatility(history: &Vec<PriceHistory>, now: i64, horizon: i64) -> (r: Option<Fixed>)
    ensures
        match volatility_value(window_prices(history@, now, horizon)) {
            Some(v) => r matches Some(f) && f.value() == v,
            None => r is None,
        },
{
    let ghost h = history@;
    let mut n: usize = 0;
    let mut sum: i128 = 0;
    let mut i: usize = 0;
    while i < history.len()
        invariant
            h == history@,
            i <= h.len(),
            n <= i,
            n == window_prices(h.take(i as int), now, horizon).len(),
            sum == sum_of(window_prices(h.take(i as int), now, horizon)),
            -(n as int) * 0x8000_0000_0000_0000 <= sum <= (n as int) * 0x7fff_ffff_ffff_ffff,
        decreases h.len() - i,
    {
        proof {
            lemma_window_step(h, now, horizon, i as int);
        }
        let s = &history[i];
        if (s.timestamp as i128) + (horizon as i128) > now as i128 {
            let ghost w = window_prices(h.take(i as int), now, horizon);
            assert(w.push(s.base_in_quote.value()).drop_last() =~= w);
            sum = sum + s.base_in_quote.units as i128;
            n = n + 1;
        }
        i = i + 1;
    }
    assert(h.take(i as int) =~= h);
    let ghost w = window_prices(h, now, horizon);
    if n < 2 {
        return Some(Fixed::zero());
    }
    proof {
        let nn = n as int;
        if sum >= 0 {
            lemma_div_is_ordered(sum as int, nn * 0x7fff_ffff_ffff_ffff, nn);
            lemma_div_by_multiple(0x7fff_ffff_ffff_ffff, nn);
            assert(nn * 0x7fff_ffff_ffff_ffff == 0x7fff_ffff_ffff_ffff * nn) by (nonlinear_arith);
        } else {
            lemma_div_is_ordered(-sum as int, nn * 0x8000_0000_0000_0000, nn);
            lemma_div_by_multiple(0x8000_0000_0000_0000, nn);
            assert(nn * 0x8000_0000_0000_0000 == 0x8000_0000_0000_0000 * nn) by (nonlinear_arith);
        }
    }
    let mean = div_toward_zero_i128(sum, n as i128);
    assert(i64::MIN <= mean <= i64::MAX);
    assert(mean as int == mean_of(w));
    let mut acc: u128 = 0;
    let mut k: usize = 0;
    while k < history.len()
        invariant
            h == history@,
            w == window_prices(h, now, horizon),
            k <= h.len(),
            i64::MIN <= mean <= i64::MAX,
            mean as int == mean_of(w),
            n == w.len(),
            n >= 2,
            acc == sum_sq_dev(window_prices(h.take(k as int), now, horizon), mean as int),
        decreases h.len() - k,
    {
        proof {
            lemma_window_step(h, now, horizon, k as int);
        }
        let s = &history[k];
        if (s.timestamp as i128) + (horizon as i128) > now as i128 {
            let ghost wk = window_prices(h.take(k as int), now, horizon);
            assert(wk.push(s.base_in_quote.value()).drop_last() =~= wk);
            let d: i128 = s.base_in_quote.units as i128 - mean;
            let a: u128 = if d >= 0 {
                d as u128
            } else {
                (-d) as u128
            };
            assert(a * a <= 0xffff_ffff_ffff_fffe_0000_0000_0000_0001) by (nonlinear_arith)
                requires
                    a <= 0xffff_ffff_ffff_ffff,
            ;
            assert(a * a == d * d) by (nonlinear_arith)
                requires
                    a == d || a == -d,
            ;
            let sq: u128 = a * a;
            match acc.checked_add(sq) {
                Some(v) => {
                    acc = v;
                },
                None => {
                    proof {
                        lemma_sum_sq_dev_grows(h, now, horizon, mean as int, k as int + 1);
                        assert(sum_sq_dev(wk.push(s.base_in_quote.value()), mean as int) == acc + sq);
                        assert(sum_sq_dev(w, mean_of(w)) > u128::MAX);
                    }
                    return None;
                },
            }
        }
        k = k + 1;
    }
    assert(h.take(k as int) =~= h);
    assert(SCALE as int * n <= 1_000_000_000 * 0xffff_ffff_ffff_ffff) by (nonlinear_arith)
        requires
            n <= 0xffff_ffff_ffff_ffff,
    ;
    let divisor: u128 = (SCALE as u128) * (n as u128);
    let v = acc / divisor;
    if v > i64::MAX as u128 {
        return None;
    }
    Some(Fixed { units: v as i64 })
}

/// The past price `horizon` seconds ago and the direction since then.
fn horizon_trend(history: &Vec<PriceHistory>, now: i64, horizon: i64, current: Fixed) -> (r: (
    Option<Fixed>,
    Option<Direction>,
))
    requires
        horizon >= 0,
    ensures
        match r.0 {
            Some(p) => exists|k: int|
                is_latest_at_or_before(history@, now, horizon, k) && #[trigger] history@[k].base_in_quote
                    == p,
            None => forall|i: int|
                0 <= i < history@.len() ==> !at_or_before(#[trigger] history@[i], now, horizon),
        },
        r.1 == (match r.0 {
            Some(p) => Some(direction_of(current.value(), p.value())),
            None => None::<Direction>,
        }),
{
    match latest_at_or_before(history, now, horizon) {
        Some(k) => {
            let p = history[k].base_in_quote;
            (Some(p), Some(direction(current, p)))
        },
        None => (None, None),
    }
}

/// Classifies price movement over the last hour, day and week against the
/// samples in `history`, and the dispersion of the last hour's and day's
/// prices. Advisory only: it never fails.
pub fn analyze(history: &Vec<PriceHistory>, now: i64, current_price: Fixed) -> (r: PriceTrend)
    ensures
        r.timestamp == now,
        history@.len() == 0 ==> r == (PriceTrend {
            timestamp: now,
            price_1h_ago: None,
            price_24h_ago: None,
            price_7d_ago: None,
            direction_1h: None,
            direction_24h: None,
            direction_7d: None,
            volatility_1h: Some(Fixed { units: 0 }),
            volatility_24h: Some(Fixed { units: 0 }),
        }),
        trend_matches(history@, now, HOUR_SECS, current_price, r.price_1h_ago, r.direction_1h),
        trend_matches(history@, now, DAY_SECS, current_price, r.price_24h_ago, r.direction_24h),
        trend_matches(history@, now, WEEK_SECS, current_price, r.price_7d_ago, r.direction_7d),
        volatility_matches(history@, now, HOUR_SECS, r.volatility_1h),
        volatility_matches(history@, now, DAY_SECS, r.volatility_24h),
{
    let (price_1h_ago, direction_1h) = horizon_trend(history, now, HOUR_SECS, current_price);
    let (price_24h_ago, direction_24h) = horizon_trend(history, now, DAY_SECS, current_price);
    let (price_7d_ago, direction_7d) = horizon_trend(history, now, WEEK_SECS, current_price);
    let volatility_1h = volatility(history, now, HOUR_SECS);
    let volatility_24h = volatility(history, now, DAY_SECS);
    proof {
        if history@.len() == 0 {
            assert(window_prices(history@, now, HOUR_SECS).len() == 0);
            assert(window_prices(history@, now, DAY_SECS).len() == 0);
        }
    }
    PriceTrend {
        timestamp: now,
        price_1h_ago,
        price_24h_ago,
        price_7d_ago,
        direction_1h,
        direction_24h,
        direction_7d,
        volatility_1h,
        volatility_24h,
    }
}

/// `price` is the price of the most recent sample at or before
/// `now - horizon` (absent when there is none) and `dir` the direction from
/// it to `current`.
pub open spec fn trend_matches(
    h: Seq<PriceHistory>,
    now: i64,
    horizon: i64,
    current: Fixed,
    price: Option<Fixed>,
    dir: Option<Direction>,
) -> bool {
    &&& match price {
        Some(p) => exists|k: int| is_latest_at_or_before(h, now, horizon, k) && #[trigger] h[k].base_in_quote == p,
        None => forall|i: int| 0 <= i < h.len() ==> !at_or_before(#[trigger] h[i], now, horizon),
    }
    &&& dir == (match price {
        Some(p) => Some(direction_of(current.value(), p.value())),
        None => None::<Direction>,
    })
}

/// `v` is the volatility of the samples taken after `now - horizon`.
pub open spec fn volatility_matches(h: Seq<PriceHistory>, now: i64, horizon: i64, v: Option<Fixed>) -> bool {
    match volatility_value(window_prices(h, now, horizon)) {
        Some(x) => v matches Some(f) && f.value() == x,
        None => v is None,
    }
}

/// `hi` and `lo` are the largest and smallest of the non-empty `w`.
pub open spec fn is_high_low(w: Seq<int>, hi: int, lo: int) -> bool {
    &&& w.contains(hi)
    &&& w.contains(lo)
    &&& forall|i: int| 0 <= i < w.len() ==> lo <= #[trigger] w[i] <= hi
}

/// The highest and lowest price among the samples taken after
/// `now - horizon`; `None` when there is none.
pub fn high_low(history: &Vec<PriceHistory>, now: i64, horizon: i64) -> (r: Option<(Fixed, Fixed)>)
    ensures
        match r {
            Some((hi, lo)) => is_high_low(window_prices(history@, now, horizon), hi.value(), lo.value()),
            None => window_prices(history@, now, horizon).len() == 0,
        },
{
    let ghost h = history@;
    let mut best: Option<(Fixed, Fixed)> = None;
    let mut i: usize = 0;
    while i < history.len()
        invariant
            h == history@,
            i <= h.len(),
            match best {
                Some((hi, lo)) => is_high_low(
                    window_prices(h.take(i as int), now, horizon),
                    hi.value(),
                    lo.value(),
                ),
                None => window_prices(h.take(i as int), now, horizon).len() == 0,
            },
        decreases h.len() - i,
    {
        proof {
            lemma_window_step(h, now, horizon, i as int);
        }
        let s = &history[i];
        if (s.timestamp as i128) + (horizon as i128) > now as i128 {
            let ghost w = window_prices(h.take(i as int), now, horizon);
            let ghost x = s.base_in_quote.value();
            let p = s.base_in_quote;
            best = match best {
                None => Some((p, p)),
                Some((hi, lo)) => Some(
                    (
                        if p.units > hi.units {
                            p
                        } else {
                            hi
                        },
                        if p.units < lo.units {
                            p
                        } else {
                            lo
                        },
                    ),
                ),
            };
            proof {
                let w2 = w.push(x);
                assert(w2[w.len() as int] == x);
                assert forall|j: int| 0 <= j < w.len() implies w2[j] == w[j] by {}
                match best {
                    Some((hi, lo)) => {
                        if w.len() > 0 {
                            assert(w.contains(hi.value()) ==> w2.contains(hi.value()));
                            assert(w.contains(lo.value()) ==> w2.contains(lo.value()));
                        }
                        assert(hi.value() == x ==> w2.contains(hi.value()));
                        assert(lo.value() == x ==> w2.contains(lo.value()));
                    },
                    None => {},
                }
            }
        }
        i = i + 1;
    }
    assert(h.take(i as int) =~= h);
    best
}

} // verus!
