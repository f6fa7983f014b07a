use vstd::prelude::*;
use vstd::string::StringExecFns;
use crate::fixed::Fixed;
use crate::trading::Position;
use crate::swap::decimal_text;

verus! {

/// The digit character of `d < 10`.
pub open spec fn digit_char(d: int) -> char {
    (d + 48) as char
}

/// `units * 10^-9` written with four fraction digits, truncated: a minus
/// sign when negative, the whole digits, a point, then the first four
/// fraction digits.
pub open spec fn decimal_display(units: int) -> Seq<char> {
    let a = if units < 0 {
        -units
    } else {
        units
    };
    let f = (a % 1_000_000_000) / 100_000;
    (if units < 0 {
        seq!['-']
    } else {
        seq![]
    }) + decimal_text((a / 1_000_000_000) as nat) + seq![
        '.',
        digit_char(f / 1000),
        digit_char((f / 100) % 10),
        digit_char((f / 10) % 10),
        digit_char(f % 10),
    ]
}

/// Relies on rust_decimal's `Display` with precision four, on
/// `Decimal::new(units, 9)`: the sign (written by the formatter for a
/// negative value), the whole digits (`0` when there are none), a point and
/// the first four fraction digits. An `i64` at scale nine has at most ten
/// whole digits, so the text stays well within the 32 characters
/// rust_decimal's writer holds.
#[verifier::external_body]
fn fixed_text(f: Fixed) -> (r: String)
    ensures
        r@ == decimal_display(f.value()),
{
    format!("{:.4}", rust_decimal::Decimal::new(f.units, 9))
}

pub open spec fn position_name(p: Position) -> Seq<char> {
    match p {
        Position::SOL => "SOL"@,
        Position::USDC => "USDC"@,
    }
}

fn position_text(p: Position) -> (r: &'static str)
    ensures
        r@ == position_name(p),
{
    match p {
        Position::SOL => "SOL",
        Position::USDC => "USDC",
    }
}

/// The summary of a cycle that executed a trade.
pub open spec fn success_text(position: Position, profit: int, total: int, time: Seq<char>) -> Seq<char> {
    "Trade executed!\nPosition: "@ + position_name(position) + "\nProfit: "@ + decimal_display(profit) + " USDC\nTotal: "@ + decimal_display(total) + " USDC\nTime: "@ + time
}

/// The summary of a cycle that made no trade.
pub open spec fn no_trade_text(position: Position, time: Seq<char>) -> Seq<char> {
    "No trade this cycle\nPosition: "@ + position_name(position) + "\nTime: "@ + time
}

/// The summary of a cycle that failed.
pub open spec fn error_text(error: Seq<char>, time: Seq<char>) -> Seq<char> {
    "Trading error...\n"@ + error + "\nTime: "@ + time
}

/// Writes the summary of a cycle that traded into `position`, made
/// `profit` and brought the cumulative profit to `total`; `time` is the
/// cycle's time as text.
pub fn success_summary(position: Position, profit: Fixed, total: Fixed, time: &str) -> (r: String)
    ensures
        r@ == success_text(position, profit.value(), total.value(), time@),
{
    let mut s = String::new();
    s.append("Trade executed!\nPosition: ");
    s.append(position_text(position));
    s.append("\nProfit: ");
    let p = fixed_text(profit);
    s.append(p.as_str());
    s.append(" USDC\nTotal: ");
    let t = fixed_text(total);
    s.append(t.as_str());
    s.append(" USDC\nTime: ");
    s.append(time);
    s
}

/// Writes the summary of a cycle that made no trade.
pub fn no_trade_summary(position: Position, time: &str) -> (r: String)
    ensures
        r@ == no_trade_text(position, time@),
{
    let mut s = String::new();
    s.append("No trade this cycle\nPosition: ");
    s.append(position_text(position));
    s.append("\nTime: ");
    s.append(time);
    s
}

/// Writes the summary of a cycle that failed with `error`.
pub fn error_summary(error: &str, time: &str) -> (r: String)
    ensures
        r@ == error_text(error@, time@),
{
    let mut s = String::new();
    s.append("Trading error...\n");
    s.append(error);
    s.append("\nTime: ");
    s.append(time);
    s
}

} // verus!
