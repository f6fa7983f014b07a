use vstd::prelude::*;
use crate::fixed::{Fixed, SCALE};
use crate::trading::Position;
use vstd::string::StringSliceAdditionalSpecFns;
use vstd::utf8::encode_utf8;

verus! {

/// Query of the quote endpoint.
#[derive(Clone, Debug)]
pub struct QuoteRequest {
    pub input_mint: String,
    pub output_mint: String,
    pub amount: String,
    pub slippage_bps: u16,
}

/// A priced offer to swap `in_amount` of one asset for `out_amount` of
/// another; amounts are decimal digit strings in smallest units.
#[derive(Clone, Debug)]
pub struct QuoteResponse {
    pub input_mint: String,
    pub in_amount: String,
    pub output_mint: String,
    pub out_amount: String,
    pub other_amount_threshold: String,
    pub swap_mode: String,
    pub slippage_bps: u16,
    pub price_impact_pct: String,
    pub route_plan: Vec<RoutePlanStep>,
}

/// One leg of a quote's route.
#[derive(Clone, Debug)]
pub struct RoutePlanStep {
    pub swap_info: SwapInfo,
    pub percent: u8,
}

#[derive(Clone, Debug)]
pub struct SwapInfo {
    pub amm_key: String,
    pub label: Option<String>,
    pub input_mint: String,
    pub output_mint: String,
    pub in_amount: String,
    pub out_amount: String,
    pub fee_amount: String,
    pub fee_mint: String,
}

/// Request for a provider-built, unsigned swap transaction.
#[derive(Clone, Debug)]
pub struct SwapRequest {
    pub user_public_key: String,
    pub wrap_and_unwrap_sol: bool,
    pub use_shared_accounts: bool,
    pub fee_account: Option<String>,
    pub tracking_account: Option<String>,
    pub compute_unit_price_micro_lamports: Option<u64>,
    pub as_legacy_transaction: bool,
    pub use_token_ledger: bool,
    pub destination_token_account: Option<String>,
    pub dynamic_compute_unit_limit: bool,
    pub skip_user_accounts_rpc_calls: bool,
    pub quote_response: QuoteResponse,
}

/// The provider's answer: a base64 wire-encoded transaction.
#[derive(Clone, Debug)]
pub struct SwapResponse {
    pub swap_transaction: String,
}

/// Compute-unit price the swap transactions are built with.
pub const COMPUTE_UNIT_PRICE_MICRO_LAMPORTS: u64 = 1000;

impl SwapRequest {
    /// The request for a legacy transaction that executes `quote` for the
    /// wallet `user_public_key`.
    pub fn for_quote(user_public_key: String, quote: QuoteResponse) -> (r: SwapRequest)
        ensures
            r.user_public_key == user_public_key,
            r.quote_response == quote,
            r.as_legacy_transaction,
            r.wrap_and_unwrap_sol,
            r.use_shared_accounts,
            r.dynamic_compute_unit_limit,
            !r.use_token_ledger,
            !r.skip_user_accounts_rpc_calls,
            r.fee_account.is_none(),
            r.tracking_account.is_none(),
            r.destination_token_account.is_none(),
            r.compute_unit_price_micro_lamports == Some(COMPUTE_UNIT_PRICE_MICRO_LAMPORTS),
    {
        SwapRequest {
            user_public_key,
            wrap_and_unwrap_sol: true,
            use_shared_accounts: true,
            fee_account: None,
            tracking_account: None,
            compute_unit_price_micro_lamports: Some(COMPUTE_UNIT_PRICE_MICRO_LAMPORTS),
            as_legacy_transaction: true,
            use_token_ledger: false,
            destination_token_account: None,
            dynamic_compute_unit_limit: true,
            skip_user_accounts_rpc_calls: false,
            quote_response: quote,
        }
    }
}

pub open spec fn is_digit(b: u8) -> bool {
    48 <= b <= 57
}

/// The number written by a string of decimal digits.
pub open spec fn digits_value(b: Seq<u8>) -> nat
    decreases b.len(),
{
    if b.len() == 0 {
        0
    } else {
        digits_value(b.drop_last()) * 10 + (b.last() - 48) as nat
    }
}

/// An amount as the provider writes it: one or more decimal digits, at most
/// `u64::MAX`.
pub open spec fn amount_of_text(b: Seq<u8>) -> Option<u64> {
    if b.len() > 0 && (forall|i: int| 0 <= i < b.len() ==> is_digit(#[trigger] b[i]))
        && digits_value(b) <= u64::MAX {
        Some(digits_value(b) as u64)
    } else {
        None
    }
}

proof fn lemma_digits_prefix_grows(b: Seq<u8>, i: int)
    requires
        0 <= i <= b.len(),
        forall|j: int| 0 <= j < b.len() ==> is_digit(#[trigger] b[j]),
    ensures
        digits_value(b.subrange(0, i)) <= digits_value(b),
    decreases b.len() - i,
{
    if i < b.len() {
        lemma_digits_prefix_grows(b, i + 1);
        assert(b.subrange(0, i + 1).drop_last() =~= b.subrange(0, i));
    } else {
        assert(b.subrange(0, i) =~= b);
    }
}

/// Reads an amount written in decimal digits.
pub fn parse_amount(s: &str) -> (r: Option<u64>)
    ensures
        r == amount_of_text(s.spec_bytes()),
{
    let b = s.as_bytes();
    let n = b.len();
    assert(b@ == s.spec_bytes());
    if n == 0 {
        return None;
    }
    let mut i: usize = 0;
    while i < n
        invariant
            n == b@.len(),
            b@ == s.spec_bytes(),
            i <= n,
            forall|j: int| 0 <= j < i ==> is_digit(#[trigger] b@[j]),
        decreases n - i,
    {
        if !(48 <= b[i] && b[i] <= 57) {
            assert(!is_digit(b@[i as int]));
            return None;
        }
        i = i + 1;
    }
    let mut acc: u64 = 0;
    let mut k: usize = 0;
    while k < n
        invariant
            n == b@.len(),
            b@ == s.spec_bytes(),
            k <= n,
            forall|j: int| 0 <= j < n ==> is_digit(#[trigger] b@[j]),
            acc == digits_value(b@.subrange(0, k as int)),
        decreases n - k,
    {
        assert(b@.subrange(0, k as int + 1).drop_last() =~= b@.subrange(0, k as int));
        let d = (b[k] - 48) as u64;
        assert(digits_value(b@.subrange(0, k as int + 1)) == acc * 10 + d);
        match acc.checked_mul(10) {
            Some(m) => match m.checked_add(d) {
                Some(v) => {
                    acc = v;
                },
                None => {
                    proof {
                        lemma_digits_prefix_grows(b@, k as int + 1);
                    }
                    return None;
                },
            },
            None => {
                proof {
                    lemma_digits_prefix_grows(b@, k as int + 1);
                    assert(acc * 10 + d >= acc * 10) by (nonlinear_arith);
                }
                return None;
            },
        }
        k = k + 1;
    }
    assert(b@.subrange(0, n as int) =~= b@);
    Some(acc)
}

/// Smallest units in one whole unit of an asset: nine decimals for the base
/// asset, six for the quote asset.
pub open spec fn unit_factor(asset: Position) -> int {
    match asset {
        Position::SOL => 1_000_000_000,
        Position::USDC => 1_000_000,
    }
}

fn unit_factor_of(asset: Position) -> (r: u64)
    ensures
        r == unit_factor(asset),
{
    match asset {
        Position::SOL => 1_000_000_000,
        Position::USDC => 1_000_000,
    }
}

/// How a failed provider call is classified.
#[derive(Clone, Copy, Debug, PartialEq, Eq, Structural)]
pub enum FailureKind {
    /// Timeouts, 5xx, connection resets: retried.
    TransientNetworkError,
    /// 429: retried with backoff.
    RateLimited,
    /// Any other 4xx, or a status that is neither success nor an error
    /// class: not retried.
    ConfigurationOrRequestError,
}

impl FailureKind {
    pub open spec fn spec_is_retryable(self) -> bool {
        self != FailureKind::ConfigurationOrRequestError
    }

    /// Whether a blind retry may help.
    pub fn is_retryable(&self) -> (r: bool)
        ensures
            r == self.spec_is_retryable(),
    {
        match self {
            FailureKind::ConfigurationOrRequestError => false,
            _ => true,
        }
    }
}

/// The class of an HTTP status: `None` for success (2xx).
pub open spec fn status_class(status: u16) -> Option<FailureKind> {
    if 200 <= status <= 299 {
        None
    } else if status == 429 {
        Some(FailureKind::RateLimited)
    } else if 500 <= status <= 599 {
        Some(FailureKind::TransientNetworkError)
    } else {
        Some(FailureKind::ConfigurationOrRequestError)
    }
}

/// Classifies the HTTP status of a provider response.
pub fn classify_status(status: u16) -> (r: Option<FailureKind>)
    ensures
        r == status_class(status),
{
    if 200 <= status && status <= 299 {
        None
    } else if status == 429 {
        Some(FailureKind::RateLimited)
    } else if 500 <= status && status <= 599 {
        Some(FailureKind::TransientNetworkError)
    } else {
        Some(FailureKind::ConfigurationOrRequestError)
    }
}

/// Why no price could be had from the quote endpoint.
#[derive(Clone, Copy, Debug, PartialEq, Eq, Structural)]
pub enum QuoteError {
    /// The endpoint answered with a non-success status.
    QuoteUnavailable { status: u16, kind: FailureKind },
    /// The answer parsed but its amounts are unreadable, the input amount is
    /// zero, or the price is out of range.
    QuoteMalformed,
}

/// The price of one whole `from` unit in whole `to` units, in units of
/// `10^-9`, rounded down, for a quote of `input` smallest `from` units
/// against `output` smallest `to` units.
pub open spec fn quote_price(from: Position, to: Position, input: int, output: int) -> int {
    (output * unit_factor(from) * SCALE) / (input * unit_factor(to))
}

/// The error for a response with a non-success status.
pub fn quote_unavailable(status: u16) -> (r: Option<QuoteError>)
    ensures
        r == (match status_class(status) {
            Some(kind) => Some(QuoteError::QuoteUnavailable { status, kind }),
            None => None::<QuoteError>,
        }),
{
    match classify_status(status) {
        Some(kind) => Some(QuoteError::QuoteUnavailable { status, kind }),
        None => None,
    }
}

/// The exchange rate a quote of `from` into `to` offers, adjusted for each
/// asset's decimals.
pub fn get_price(quote: &QuoteResponse, from: Position, to: Position) -> (r: Result<Fixed, QuoteError>)
    ensures
        ({
            let i = amount_of_text(encode_utf8(quote.in_amount@));
            let o = amount_of_text(encode_utf8(quote.out_amount@));
            if i is Some && o is Some && i->0 > 0 && quote_price(from, to, i->0 as int, o->0 as int)
                <= i64::MAX {
                r matches Ok(p) && p.value() == quote_price(from, to, i->0 as int, o->0 as int)
            } else {
                r == Err::<Fixed, QuoteError>(QuoteError::QuoteMalformed)
            }
        }),
{
    let input = match parse_amount(quote.in_amount.as_str()) {
        Some(v) => v,
        None => return Err(QuoteError::QuoteMalformed),
    };
    let output = match parse_amount(quote.out_amount.as_str()) {
        Some(v) => v,
        None => return Err(QuoteError::QuoteMalformed),
    };
    if input == 0 {
        return Err(QuoteError::QuoteMalformed);
    }
    let from_factor = unit_factor_of(from) as u128;
    let to_factor = unit_factor_of(to) as u128;
    assert(output * from_factor <= 0xffff_ffff_ffff_ffff * 1_000_000_000) by (nonlinear_arith)
        requires
            output <= 0xffff_ffff_ffff_ffff,
            from_factor <= 1_000_000_000,
    ;
    assert(input * to_factor <= 0xffff_ffff_ffff_ffff * 1_000_000_000) by (nonlinear_arith)
        requires
            input <= 0xffff_ffff_ffff_ffff,
            to_factor <= 1_000_000_000,
    ;
    assert(input * to_factor > 0) by (nonlinear_arith)
        requires
            input > 0,
            to_factor > 0,
    ;
    let numerator: u128 = (output as u128) * from_factor * (SCALE as u128);
    let denominator: u128 = (input as u128) * to_factor;
    let q = numerator / denominator;
    if q > i64::MAX as u128 {
        return Err(QuoteError::QuoteMalformed);
    }
    Ok(Fixed { units: q as i64 })
}

/// Largest price accepted from the oracle, in whole quote units.
pub const MAX_PRICE_WHOLE: i64 = 1_000_000;

/// Why an oracle price is rejected.
#[derive(Clone, Copy, Debug, PartialEq, Eq, Structural)]
pub enum PriceError {
    NotPositive,
    TooLarge,
}

/// A price is accepted when above zero and at most `MAX_PRICE_WHOLE`.
pub open spec fn price_check(price: int) -> Result<(), PriceError> {
    if price <= 0 {
        Err(PriceError::NotPositive)
    } else if price > MAX_PRICE_WHOLE * SCALE {
        Err(PriceError::TooLarge)
    } else {
        Ok(())
    }
}

/// Accepts a price above zero and at most `MAX_PRICE_WHOLE`.
pub fn validate_price_data(price: Fixed) -> (r: Result<(), PriceError>)
    ensures
        r == price_check(price.value()),
{
    if price.units <= 0 {
        Err(PriceError::NotPositive)
    } else if price.units > MAX_PRICE_WHOLE * SCALE {
        Err(PriceError::TooLarge)
    } else {
        Ok(())
    }
}

} // verus!
