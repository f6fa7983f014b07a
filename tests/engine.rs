use base64::Engine;
use solana_sdk::message::{v0, VersionedMessage};
use solana_sdk::pubkey::Pubkey;
use solana_sdk::transaction::{Transaction, VersionedTransaction};
use solana_trading_bot::config::Config;
use solana_trading_bot::cycle::{decide_cycle, CycleDecision};
use solana_trading_bot::fixed::Fixed;
use solana_trading_bot::notify::{error_summary, no_trade_summary, success_summary};
use solana_trading_bot::performance::summarize_performance;
use solana_trading_bot::quote::{
    classify_status, get_price, parse_amount, quote_unavailable, validate_price_data, FailureKind,
    PriceError, QuoteError, QuoteRequest, QuoteResponse, SwapRequest,
};
use solana_trading_bot::records::{is_expired, PriceHistory, TradingSession};
use solana_trading_bot::retry::{backoff, retry_after, retry_after_failure, retry_start, RetryPolicy, RetryStep};
use solana_trading_bot::swap::{decode_payload, plan_swap, SwapEvent, SwapFailure, SwapPhase, SwapPlan};
use solana_trading_bot::trading::{Position, TradeAction, TradingState};
use solana_trading_bot::trend::{analyze, high_low, latest_at_or_before, volatility, Direction, DAY_SECS, HOUR_SECS};

fn whole(n: i64) -> Fixed {
    Fixed { units: n * 1_000_000_000 }
}

/// Drives the retry machine with an operation that always fails, recording
/// each pause on a fake clock.
fn run_always_failing(policy: RetryPolicy) -> (u32, Vec<u64>, RetryStep) {
    let mut attempts: u32 = 0;
    let mut sleeps = Vec::new();
    let mut step = retry_start(policy);
    loop {
        match step {
            RetryStep::Attempt => {
                attempts += 1;
                step = retry_after(policy, attempts, false);
            }
            RetryStep::SleepThenAttempt { delay_ms } => {
                sleeps.push(delay_ms);
                attempts += 1;
                step = retry_after(policy, attempts, false);
            }
            other => return (attempts, sleeps, other),
        }
    }
}

#[test]
fn retry_always_failing_exhausts_with_doubling_pauses() {
    let policy = RetryPolicy { max_attempts: 4, initial_delay_ms: 500 };
    let (attempts, sleeps, end) = run_always_failing(policy);
    assert_eq!(attempts, 4);
    assert_eq!(sleeps, vec![500, 1000, 2000]);
    assert_eq!(end, RetryStep::Exhausted { attempts: 4 });
}

#[test]
fn retry_single_attempt_never_sleeps() {
    let policy = RetryPolicy { max_attempts: 1, initial_delay_ms: 500 };
    let (attempts, sleeps, end) = run_always_failing(policy);
    assert_eq!(attempts, 1);
    assert!(sleeps.is_empty());
    assert_eq!(end, RetryStep::Exhausted { attempts: 1 });
    let none = RetryPolicy { max_attempts: 0, initial_delay_ms: 500 };
    assert_eq!(retry_start(none), RetryStep::Exhausted { attempts: 0 });
}

#[test]
fn retry_success_after_failure() {
    let policy = RetryPolicy { max_attempts: 3, initial_delay_ms: 100 };
    assert_eq!(retry_after(policy, 1, false), RetryStep::SleepThenAttempt { delay_ms: 100 });
    assert_eq!(retry_after(policy, 2, true), RetryStep::Succeeded);
}

#[test]
fn backoff_doubles_and_saturates() {
    assert_eq!(backoff(500, 0), 500);
    assert_eq!(backoff(500, 3), 4000);
    assert_eq!(backoff(u64::MAX / 2 + 1, 1), u64::MAX);
    assert_eq!(backoff(1, 64), u64::MAX);
    assert_eq!(backoff(0, 70), 0);
}

fn quote(in_amount: &str, out_amount: &str) -> QuoteResponse {
    QuoteResponse {
        input_mint: "So11111111111111111111111111111111111111112".to_string(),
        in_amount: in_amount.to_string(),
        output_mint: "EPjFWdd5AufqSSqeM2qN1xzybapC8G4wEGGkZwyTDt1v".to_string(),
        out_amount: out_amount.to_string(),
        other_amount_threshold: out_amount.to_string(),
        swap_mode: "ExactIn".to_string(),
        slippage_bps: 0,
        price_impact_pct: "0".to_string(),
        route_plan: vec![],
    }
}

#[test]
fn parse_amount_reads_digits_only() {
    assert_eq!(parse_amount("0"), Some(0));
    assert_eq!(parse_amount("1000000000"), Some(1_000_000_000));
    assert_eq!(parse_amount("18446744073709551615"), Some(u64::MAX));
    assert_eq!(parse_amount("18446744073709551616"), None);
    assert_eq!(parse_amount(""), None);
    assert_eq!(parse_amount("12a"), None);
    assert_eq!(parse_amount("-5"), None);
    assert_eq!(parse_amount("1.5"), None);
}

#[test]
fn price_adjusts_for_decimals() {
    // 1 SOL (10^9 lamports) for 150.25 USDC (150_250_000 micro-units)
    let q = quote("1000000000", "150250000");
    assert_eq!(get_price(&q, Position::SOL, Position::USDC), Ok(Fixed { units: 150_250_000_000 }));
    // 1 USDC for 0.006655574 SOL
    let q2 = quote("1000000", "6655574");
    assert_eq!(get_price(&q2, Position::USDC, Position::SOL), Ok(Fixed { units: 6_655_574 }));
}

#[test]
fn price_rejects_malformed_quotes() {
    assert_eq!(get_price(&quote("0", "5"), Position::SOL, Position::USDC), Err(QuoteError::QuoteMalformed));
    assert_eq!(get_price(&quote("x", "5"), Position::SOL, Position::USDC), Err(QuoteError::QuoteMalformed));
    assert_eq!(get_price(&quote("5", ""), Position::SOL, Position::USDC), Err(QuoteError::QuoteMalformed));
    assert_eq!(
        get_price(&quote("1", "18446744073709551615"), Position::SOL, Position::USDC),
        Err(QuoteError::QuoteMalformed)
    );
}

#[test]
fn status_classes() {
    assert_eq!(classify_status(200), None);
    assert_eq!(classify_status(429), Some(FailureKind::RateLimited));
    assert_eq!(classify_status(404), Some(FailureKind::ConfigurationOrRequestError));
    assert_eq!(classify_status(503), Some(FailureKind::TransientNetworkError));
    assert!(FailureKind::RateLimited.is_retryable());
    assert!(FailureKind::TransientNetworkError.is_retryable());
    assert!(!FailureKind::ConfigurationOrRequestError.is_retryable());
    assert_eq!(
        quote_unavailable(500),
        Some(QuoteError::QuoteUnavailable { status: 500, kind: FailureKind::TransientNetworkError })
    );
    assert_eq!(quote_unavailable(204), None);
}

#[test]
fn price_validation() {
    assert_eq!(validate_price_data(whole(0)), Err(PriceError::NotPositive));
    assert_eq!(validate_price_data(whole(-3)), Err(PriceError::NotPositive));
    assert_eq!(validate_price_data(whole(1_000_001)), Err(PriceError::TooLarge));
    assert_eq!(validate_price_data(whole(1_000_000)), Ok(()));
    assert_eq!(validate_price_data(Fixed { units: 1 }), Ok(()));
}

fn config() -> Config {
    Config {
        rpc_url: "https://rpc".to_string(),
        private_key: "SECRET-REDACTED".to_string(),
        jupiter_api_url: "https://jup".to_string(),
        slippage_bps: 50,
        line_channel_token: "t".to_string(),
        line_user_id: "u".to_string(),
        sol_mint: "SOLMINT".to_string(),
        usdc_mint: "USDCMINT".to_string(),
        port: 8080,
        gcp_project_id: "p".to_string(),
        data_retention_days: 365,
    }
}

#[test]
fn swap_plan_reserves_fees_on_base() {
    assert_eq!(
        plan_swap(Position::SOL, 2_000_000_000, 7),
        Some(SwapPlan { from: Position::SOL, to: Position::USDC, amount: 1_990_000_000 })
    );
    assert_eq!(plan_swap(Position::SOL, 10_000_000, 7), None);
    assert_eq!(
        plan_swap(Position::USDC, 0, 25_000_000),
        Some(SwapPlan { from: Position::USDC, to: Position::SOL, amount: 25_000_000 })
    );
    assert_eq!(plan_swap(Position::USDC, 5, 0), None);
}

#[test]
fn quote_request_for_plan() {
    let plan = SwapPlan { from: Position::SOL, to: Position::USDC, amount: 1_990_000_000 };
    let r = QuoteRequest::for_plan(&config(), &plan);
    assert_eq!(r.input_mint, "SOLMINT");
    assert_eq!(r.output_mint, "USDCMINT");
    assert_eq!(r.amount, "1990000000");
    assert_eq!(r.slippage_bps, 50);
    let s = SwapRequest::for_quote("WALLET".to_string(), quote("1", "2"));
    assert!(s.as_legacy_transaction);
    assert_eq!(s.compute_unit_price_micro_lamports, Some(1000));
    assert_eq!(s.user_public_key, "WALLET");
}

fn b64(bytes: &[u8]) -> String {
    base64::engine::general_purpose::STANDARD.encode(bytes)
}

#[test]
fn decode_legacy_payload() {
    let payer = Pubkey::new_unique();
    let tx = Transaction::new_with_payer(&[], Some(&payer));
    let payload = b64(&bincode::serialize(&tx).unwrap());
    let decoded = decode_payload(&payload).unwrap();
    assert_eq!(decoded.message.account_keys, tx.message.account_keys);
}

#[test]
fn decode_rejects_versioned_without_legacy_form() {
    let tx = VersionedTransaction {
        signatures: vec![],
        message: VersionedMessage::V0(v0::Message::default()),
    };
    let payload = b64(&bincode::serialize(&tx).unwrap());
    assert_eq!(decode_payload(&payload).err(), Some(SwapFailure::UnsupportedTransactionFormat));
}

#[test]
fn decode_rejects_bad_payloads() {
    assert_eq!(decode_payload("not base64!").err(), Some(SwapFailure::PayloadNotBase64));
    assert_eq!(decode_payload("AAAA").err(), Some(SwapFailure::UndecodableTransaction));
}

#[test]
fn swap_phases_follow_the_pipeline() {
    let mut p = SwapPhase::Quoting;
    for e in [SwapEvent::QuoteReceived, SwapEvent::TransactionBuilt, SwapEvent::Signed] {
        p = p.next(e);
        assert!(!p.is_terminal());
    }
    assert_eq!(p, SwapPhase::Submitting);
    p = p.next(SwapEvent::SubmissionConfirmed);
    assert_eq!(p, SwapPhase::Confirmed);
    assert!(p.is_terminal());
    assert_eq!(p.next(SwapEvent::SubmissionFailed { attempts: 3 }), SwapPhase::Confirmed);
}

#[test]
fn swap_phase_failures_are_tagged() {
    assert_eq!(
        SwapPhase::Quoting.next(SwapEvent::QuoteFailed(QuoteError::QuoteMalformed)),
        SwapPhase::Failed(SwapFailure::Quote(QuoteError::QuoteMalformed))
    );
    assert_eq!(
        SwapPhase::Building.next(SwapEvent::BuildFailed(SwapFailure::UnsupportedTransactionFormat)),
        SwapPhase::Failed(SwapFailure::UnsupportedTransactionFormat)
    );
    assert_eq!(SwapPhase::Signing.next(SwapEvent::SigningFailed), SwapPhase::Failed(SwapFailure::SigningFailed));
    assert_eq!(
        SwapPhase::Submitting.next(SwapEvent::SubmissionFailed { attempts: 3 }),
        SwapPhase::Failed(SwapFailure::SubmissionFailed { attempts: 3 })
    );
    // signing is never reached without a built transaction
    assert_eq!(SwapPhase::Quoting.next(SwapEvent::Signed), SwapPhase::Quoting);
}

fn sample(timestamp: i64, price: Fixed) -> PriceHistory {
    PriceHistory {
        id: format!("s{}", timestamp),
        timestamp,
        base_in_quote: price,
        quote_in_base: Fixed { units: 1 },
        source: "Jupiter".to_string(),
        session_id: "x".to_string(),
    }
}

#[test]
fn trend_of_empty_history_is_absent() {
    let t = analyze(&vec![], 1_700_000_000, whole(100));
    assert_eq!(t.timestamp, 1_700_000_000);
    assert_eq!(t.price_1h_ago, None);
    assert_eq!(t.price_24h_ago, None);
    assert_eq!(t.price_7d_ago, None);
    assert_eq!(t.direction_1h, None);
    assert_eq!(t.direction_24h, None);
    assert_eq!(t.direction_7d, None);
    assert_eq!(t.volatility_1h, Some(whole(0)));
    assert_eq!(t.volatility_24h, Some(whole(0)));
}

#[test]
fn trend_picks_latest_sample_per_horizon() {
    let now = 1_000_000;
    let h = vec![
        sample(now - 8 * 86_400, whole(80)),
        sample(now - 2 * 86_400, whole(90)),
        sample(now - 2 * 3_600, whole(100)),
        sample(now - 60, whole(104)),
        sample(now - 30, whole(106)),
    ];
    let t = analyze(&h, now, whole(100));
    assert_eq!(t.price_1h_ago, Some(whole(100)));
    assert_eq!(t.direction_1h, Some(Direction::Stable));
    assert_eq!(t.price_24h_ago, Some(whole(90)));
    assert_eq!(t.direction_24h, Some(Direction::Up));
    assert_eq!(t.price_7d_ago, Some(whole(80)));
    assert_eq!(t.direction_7d, Some(Direction::Up));
    // last hour: 104 and 106, mean 105, variance 1
    assert_eq!(t.volatility_1h, Some(whole(1)));
    assert_eq!(latest_at_or_before(&h, now, HOUR_SECS), Some(2));
    assert_eq!(latest_at_or_before(&h, now, 30 * 86_400), None);
}

#[test]
fn trend_direction_down_and_single_sample_volatility() {
    let now = 500_000;
    let h = vec![sample(now - 7_200, whole(120)), sample(now - 10, whole(110))];
    let t = analyze(&h, now, whole(100));
    assert_eq!(t.direction_1h, Some(Direction::Down));
    assert_eq!(t.volatility_1h, Some(whole(0)));
    // both samples in the day window: 110 and 120, mean 115, variance 25
    assert_eq!(volatility(&h, now, DAY_SECS), Some(whole(25)));
}

#[test]
fn volatility_out_of_range_is_absent() {
    let now = 10_000;
    let h = vec![sample(now - 1, Fixed { units: i64::MIN }), sample(now - 2, Fixed { units: i64::MAX })];
    assert_eq!(volatility(&h, now, HOUR_SECS), None);
}

fn session(timestamp: i64, profit: Option<i64>, gas: Option<i64>) -> TradingSession {
    TradingSession {
        id: format!("t{}", timestamp),
        timestamp,
        position_before: Position::SOL,
        position_after: Position::USDC,
        action: TradeAction::SellBase,
        base_balance_before: whole(1),
        quote_balance_before: whole(0),
        base_balance_after: whole(0),
        quote_balance_after: whole(100),
        price_at_trade: whole(100),
        realized_slippage: None,
        gas_fee: gas.map(whole),
        profit_loss: profit.map(whole),
        cumulative_profit_after: None,
    }
}

#[test]
fn performance_over_period() {
    let records = vec![
        session(50, Some(100), Some(1)),
        session(150, Some(10), None),
        session(160, Some(-4), Some(2)),
        session(170, Some(0), None),
        session(180, None, None),
    ];
    let p = summarize_performance(&records, 100, 30).unwrap();
    assert_eq!(p.total_trades, 4);
    assert_eq!(p.winning_trades, 1);
    assert_eq!(p.losing_trades, 1);
    assert_eq!(p.total_profit_loss, whole(6));
    assert_eq!(p.total_gas_fees, whole(2));
    assert_eq!(p.win_rate, whole(25));
    assert_eq!(p.period_days, 30);
    let empty = summarize_performance(&vec![], 0, 7).unwrap();
    assert_eq!(empty.total_trades, 0);
    assert_eq!(empty.win_rate, whole(0));
}

#[test]
fn cycle_decisions() {
    let mut s = TradingState::new();
    assert_eq!(decide_cycle(&s, whole(0), whole(1), 0, 0), CycleDecision::InvalidPrice(PriceError::NotPositive));
    assert_eq!(decide_cycle(&s, whole(100), Fixed { units: 10_000_000 }, 0, 5), CycleDecision::Hold);
    s.last_trade_price = Some(whole(100));
    assert_eq!(decide_cycle(&s, whole(101), Fixed { units: 10_000_000 }, 0, 0), CycleDecision::NothingToSwap);
    assert_eq!(
        decide_cycle(&s, whole(101), Fixed { units: 10_000_000 }, 0, 5_000_000),
        CycleDecision::Swap(SwapPlan { from: Position::USDC, to: Position::SOL, amount: 5_000_000 })
    );
}

#[test]
fn high_low_over_last_day() {
    let now = 2_000_000;
    let h = vec![
        sample(now - 3 * 86_400, whole(500)),
        sample(now - 20_000, whole(120)),
        sample(now - 10_000, whole(95)),
        sample(now - 100, whole(130)),
    ];
    assert_eq!(high_low(&h, now, DAY_SECS), Some((whole(130), whole(95))));
    assert_eq!(high_low(&h, now, 50), None);
    assert_eq!(high_low(&vec![], now, DAY_SECS), None);
}

#[test]
fn retention_expiry() {
    assert!(is_expired(0, 86_400 * 30 + 1, 30));
    assert!(!is_expired(0, 86_400 * 30, 30));
    assert!(!is_expired(1_000, 500, 0));
    assert!(is_expired(i64::MIN, i64::MAX, u32::MAX));
}

#[test]
fn summaries_carry_the_cycle_outcome() {
    let s = success_summary(Position::USDC, Fixed { units: 12_345_600_000 }, Fixed { units: -2_500_000_000 }, "2024-01-01 00:00:00 JST");
    assert_eq!(
        s,
        "Trade executed!\nPosition: USDC\nProfit: 12.3456 USDC\nTotal: -2.5000 USDC\nTime: 2024-01-01 00:00:00 JST"
    );
    assert_eq!(no_trade_summary(Position::SOL, "t"), "No trade this cycle\nPosition: SOL\nTime: t");
    assert_eq!(error_summary("boom", "t"), "Trading error...\nboom\nTime: t");
}

#[test]
fn request_errors_are_not_retried() {
    let policy = RetryPolicy { max_attempts: 3, initial_delay_ms: 200 };
    assert_eq!(
        retry_after_failure(policy, 1, FailureKind::ConfigurationOrRequestError),
        RetryStep::NotRetried { attempts: 1 }
    );
    assert_eq!(
        retry_after_failure(policy, 1, FailureKind::RateLimited),
        RetryStep::SleepThenAttempt { delay_ms: 200 }
    );
    assert_eq!(
        retry_after_failure(policy, 2, FailureKind::TransientNetworkError),
        RetryStep::SleepThenAttempt { delay_ms: 400 }
    );
    assert_eq!(
        retry_after_failure(policy, 3, FailureKind::TransientNetworkError),
        RetryStep::Exhausted { attempts: 3 }
    );
}

#[test]
fn summary_numbers_truncate_to_four_places() {
    let s = success_summary(Position::SOL, Fixed { units: -1 }, Fixed { units: i64::MAX }, "t");
    assert_eq!(s, "Trade executed!\nPosition: SOL\nProfit: -0.0000 USDC\nTotal: 9223372036.8547 USDC\nTime: t");
    let z = success_summary(Position::SOL, Fixed { units: 0 }, Fixed { units: 1_000_999_990_000 }, "t");
    assert_eq!(z, "Trade executed!\nPosition: SOL\nProfit: 0.0000 USDC\nTotal: 1000.9999 USDC\nTime: t");
    let m = success_summary(Position::SOL, Fixed { units: i64::MIN }, Fixed { units: 50_000 }, "t");
    assert_eq!(m, "Trade executed!\nPosition: SOL\nProfit: -9223372036.8547 USDC\nTotal: 0.0000 USDC\nTime: t");
}

#[test]
fn quote_amounts_written_in_digits() {
    for (amount, text) in [(0u64, "0"), (7, "7"), (10, "10"), (u64::MAX, "18446744073709551615")] {
        let plan = SwapPlan { from: Position::USDC, to: Position::SOL, amount };
        assert_eq!(QuoteRequest::for_plan(&config(), &plan).amount, text);
    }
}
