use vstd::prelude::*;
use vstd::string::StringExecFns;
use solana_sdk::transaction::{Transaction, VersionedTransaction};
use crate::config::Config;
use crate::quote::{QuoteError, QuoteRequest, FailureKind};
use crate::trading::Position;

verus! {

#[verifier::external_type_specification]
#[verifier::external_body]
pub struct ExTransaction(Transaction);

/// The bytes that base64 (standard alphabet, padded) text stands for, or
/// `None` where the text is not such base64.
pub uninterp spec fn base64_decoding(text: Seq<char>) -> Option<Seq<u8>>;

/// Whether bytes are the bincode wire form of a versioned transaction.
pub uninterp spec fn versioned_wire_decodes(bytes: Seq<u8>) -> bool;

/// Whether the versioned transaction that bytes decode to carries a legacy
/// message, and so has a legacy form.
pub uninterp spec fn versioned_has_legacy_form(bytes: Seq<u8>) -> bool;

/// Whether bytes are the bincode wire form of a legacy transaction.
pub uninterp spec fn legacy_wire_decodes(bytes: Seq<u8>) -> bool;

/// Relies on `base64::Engine::decode` with the `STANDARD` engine: the result
/// depends on the text alone.
#[verifier::external_body]
fn decode_base64(text: &str) -> (r: Option<Vec<u8>>)
    ensures
        match r {
            Some(b) => base64_decoding(text@) == Some(b@),
            None => base64_decoding(text@) is None,
        },
{
    base64::Engine::decode(&base64::engine::general_purpose::STANDARD, text).ok()
}

/// Relies on `bincode::deserialize` into `VersionedTransaction` and on
/// `VersionedTransaction::into_legacy_transaction`, which gives a legacy
/// transaction exactly when the decoded message is a legacy one: whether
/// each succeeds depends on the bytes alone.
#[verifier::external_body]
fn deserialize_versioned_as_legacy(bytes: &Vec<u8>) -> (r: Option<Option<Transaction>>)
    ensures
        r is Some <==> versioned_wire_decodes(bytes@),
        r matches Some(legacy) ==> (legacy is Some <==> versioned_has_legacy_form(bytes@)),
{
    bincode::deserialize::<VersionedTransaction>(bytes).ok().map(VersionedTransaction::into_legacy_transaction)
}

/// Relies on `bincode::deserialize` into `Transaction`: whether it succeeds
/// depends on the bytes alone.
#[verifier::external_body]
fn deserialize_legacy(bytes: &Vec<u8>) -> (r: Option<Transaction>)
    ensures
        r is Some <==> legacy_wire_decodes(bytes@),
{
    bincode::deserialize::<Transaction>(bytes).ok()
}

/// Why a swap ended without confirmation.
#[derive(Clone, Copy, Debug, PartialEq, Eq, Structural)]
pub enum SwapFailure {
    /// No usable quote.
    Quote(QuoteError),
    /// The transaction endpoint answered with a non-success status.
    BuildUnavailable { status: u16, kind: FailureKind },
    /// The transaction payload is not base64.
    PayloadNotBase64,
    /// The payload is neither a versioned nor a legacy transaction.
    UndecodableTransaction,
    /// A versioned transaction that has no legacy form.
    UnsupportedTransactionFormat,
    /// The wallet's key could not sign the transaction.
    SigningFailed,
    /// Submission failed on every attempt.
    SubmissionFailed { attempts: u32 },
}

/// Turns the provider's payload into a legacy transaction: versioned
/// decoding first, downgraded to its legacy form; legacy decoding where the
/// bytes are no versioned transaction. A versioned transaction without a
/// legacy form is a failure, never dropped.
pub fn decode_payload(payload: &str) -> (r: Result<Transaction, SwapFailure>)
    ensures
        match base64_decoding(payload@) {
            None => r == Err::<Transaction, SwapFailure>(SwapFailure::PayloadNotBase64),
            Some(bytes) => if versioned_wire_decodes(bytes) {
                if versioned_has_legacy_form(bytes) {
                    r is Ok
                } else {
                    r == Err::<Transaction, SwapFailure>(SwapFailure::UnsupportedTransactionFormat)
                }
            } else if legacy_wire_decodes(bytes) {
                r is Ok
            } else {
                r == Err::<Transaction, SwapFailure>(SwapFailure::UndecodableTransaction)
            },
        },
{
    let bytes = match decode_base64(payload) {
        Some(b) => b,
        None => return Err(SwapFailure::PayloadNotBase64),
    };
    match deserialize_versioned_as_legacy(&bytes) {
        Some(legacy) => match legacy {
            Some(tx) => Ok(tx),
            None => Err(SwapFailure::UnsupportedTransactionFormat),
        },
        None => match deserialize_legacy(&bytes) {
            Some(tx) => Ok(tx),
            None => Err(SwapFailure::UndecodableTransaction),
        },
    }
}

/// Where one swap stands.
#[derive(Clone, Copy, Debug, PartialEq, Eq, Structural)]
pub enum SwapPhase {
    Quoting,
    Building,
    Signing,
    Submitting,
    Confirmed,
    Failed(SwapFailure),
}

/// What the outside work of the current phase came to.
#[derive(Clone, Copy, Debug, PartialEq, Eq, Structural)]
pub enum SwapEvent {
    QuoteReceived,
    QuoteFailed(QuoteError),
    TransactionBuilt,
    BuildFailed(SwapFailure),
    Signed,
    SigningFailed,
    SubmissionConfirmed,
    SubmissionFailed { attempts: u32 },
}

impl SwapPhase {
    pub open spec fn spec_is_terminal(self) -> bool {
        self is Confirmed || self is Failed
    }

    /// The phase after `event`; an event that does not belong to the current
    /// phase, or any event after the end, changes nothing.
    pub open spec fn spec_next(self, event: SwapEvent) -> SwapPhase {
        match (self, event) {
            (SwapPhase::Quoting, SwapEvent::QuoteReceived) => SwapPhase::Building,
            (SwapPhase::Quoting, SwapEvent::QuoteFailed(e)) => SwapPhase::Failed(SwapFailure::Quote(e)),
            (SwapPhase::Building, SwapEvent::TransactionBuilt) => SwapPhase::Signing,
            (SwapPhase::Building, SwapEvent::BuildFailed(f)) => SwapPhase::Failed(f),
            (SwapPhase::Signing, SwapEvent::Signed) => SwapPhase::Submitting,
            (SwapPhase::Signing, SwapEvent::SigningFailed) => SwapPhase::Failed(SwapFailure::SigningFailed),
            (SwapPhase::Submitting, SwapEvent::SubmissionConfirmed) => SwapPhase::Confirmed,
            (SwapPhase::Submitting, SwapEvent::SubmissionFailed { attempts }) => SwapPhase::Failed(
                SwapFailure::SubmissionFailed { attempts },
            ),
            _ => self,
        }
    }

    pub fn is_terminal(&self) -> (r: bool)
        ensures
            r == self.spec_is_terminal(),
    {
        match self {
            SwapPhase::Confirmed | SwapPhase::Failed(_) => true,
            _ => false,
        }
    }

    /// Advances the swap by one event.
    pub fn next(self, event: SwapEvent) -> (r: SwapPhase)
        ensures
            r == self.spec_next(event),
    {
        match (self, event) {
            (SwapPhase::Quoting, SwapEvent::QuoteReceived) => SwapPhase::Building,
            (SwapPhase::Quoting, SwapEvent::QuoteFailed(e)) => SwapPhase::Failed(SwapFailure::Quote(e)),
            (SwapPhase::Building, SwapEvent::TransactionBuilt) => SwapPhase::Signing,
            (SwapPhase::Building, SwapEvent::BuildFailed(f)) => SwapPhase::Failed(f),
            (SwapPhase::Signing, SwapEvent::Signed) => SwapPhase::Submitting,
            (SwapPhase::Signing, SwapEvent::SigningFailed) => SwapPhase::Failed(SwapFailure::SigningFailed),
            (SwapPhase::Submitting, SwapEvent::SubmissionConfirmed) => SwapPhase::Confirmed,
            (SwapPhase::Submitting, SwapEvent::SubmissionFailed { attempts }) => SwapPhase::Failed(
                SwapFailure::SubmissionFailed { attempts },
            ),
            _ => self,
        }
    }
}

/// Base units (lamports) kept back for network fees when the base asset is
/// swapped away.
pub const FEE_RESERVE_LAMPORTS: u64 = 10_000_000;

/// The notional of one swap, in smallest units of `from`.
#[derive(Clone, Copy, Debug, PartialEq, Eq, Structural)]
pub struct SwapPlan {
    pub from: Position,
    pub to: Position,
    pub amount: u64,
}

/// The swap out of `position`: the full balance of the held asset, less the
/// fee reserve when that asset is the base one; `None` when nothing is left
/// to swap. Balances are in smallest units.
pub open spec fn swap_plan(position: Position, base_balance: u64, quote_balance: u64) -> Option<SwapPlan> {
    match position {
        Position::USDC => if quote_balance > 0 {
            Some(SwapPlan { from: Position::USDC, to: Position::SOL, amount: quote_balance })
        } else {
            None
        },
        Position::SOL => if base_balance > FEE_RESERVE_LAMPORTS {
            Some(
                SwapPlan {
                    from: Position::SOL,
                    to: Position::USDC,
                    amount: (base_balance - FEE_RESERVE_LAMPORTS) as u64,
                },
            )
        } else {
            None
        },
    }
}

/// Plans the swap out of `position` from the wallet's balances.
pub fn plan_swap(position: Position, base_balance: u64, quote_balance: u64) -> (r: Option<SwapPlan>)
    ensures
        r == swap_plan(position, base_balance, quote_balance),
{
    match position {
        Position::USDC => if quote_balance > 0 {
            Some(SwapPlan { from: Position::USDC, to: Position::SOL, amount: quote_balance })
        } else {
            None
        },
        Position::SOL => if base_balance > FEE_RESERVE_LAMPORTS {
            Some(
                SwapPlan {
                    from: Position::SOL,
                    to: Position::USDC,
                    amount: base_balance - FEE_RESERVE_LAMPORTS,
                },
            )
        } else {
            None
        },
    }
}

/// The decimal digits of `n`, most significant first, without sign or
/// padding.
pub open spec fn decimal_text(n: nat) -> Seq<char>
    decreases n,
{
    if n < 10 {
        seq![(n + 48) as char]
    } else {
        decimal_text(n / 10).push(((n % 10) + 48) as char)
    }
}

/// The text of one decimal digit.
fn digit_text(d: u64) -> (r: &'static str)
    requires
        d < 10,
    ensures
        r@ == seq![(d + 48) as char],
{
    proof {
        reveal_strlit("0");
        reveal_strlit("1");
        reveal_strlit("2");
        reveal_strlit("3");
        reveal_strlit("4");
        reveal_strlit("5");
        reveal_strlit("6");
        reveal_strlit("7");
        reveal_strlit("8");
        reveal_strlit("9");
    }
    match d {
        0 => "0",
        1 => "1",
        2 => "2",
        3 => "3",
        4 => "4",
        5 => "5",
        6 => "6",
        7 => "7",
        8 => "8",
        _ => "9",
    }
}

/// Appends the decimal digits of `n` to `s`.
fn write_decimal(n: u64, s: &mut String)
    ensures
        final(s)@ == old(s)@ + decimal_text(n as nat),
    decreases n,
{
    if n < 10 {
        s.append(digit_text(n));
    } else {
        write_decimal(n / 10, s);
        s.append(digit_text(n % 10));
        assert(decimal_text(n as nat) == decimal_text((n / 10) as nat).push(((n % 10) + 48) as char));
    }
}

/// The decimal digits of `n`, without sign or padding.
fn amount_text(n: u64) -> (r: String)
    ensures
        r@ == decimal_text(n as nat),
{
    let mut s = String::new();
    write_decimal(n, &mut s);
    s
}

impl QuoteRequest {
    /// The quote query for a planned swap, with the assets' mints from the
    /// configuration.
    pub fn for_plan(config: &Config, plan: &SwapPlan) -> (r: QuoteRequest)
        ensures
            r.input_mint == config.mint(plan.from),
            r.output_mint == config.mint(plan.to),
            r.amount@ == decimal_text(plan.amount as nat),
            r.slippage_bps == config.slippage_bps,
    {
        QuoteRequest {
            input_mint: config.mint_of(plan.from),
            output_mint: config.mint_of(plan.to),
            amount: amount_text(plan.amount),
            slippage_bps: config.slippage_bps,
        }
    }
}

} // verus!
