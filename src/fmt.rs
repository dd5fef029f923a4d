//! Construction of the header line and of the three kinds of body line.

use vstd::prelude::*;

use crate::clock::{digit_char, hms_text, time_of_day_text, Timestamp};
use crate::location::LogLocation;

verus! {

/// `n` in decimal, without leading zeros.
pub open spec fn decimal(n: nat) -> Seq<char>
    decreases n,
{
    if n < 10 {
        seq![digit_char(n)]
    } else {
        decimal(n / 10) + seq![digit_char(n % 10)]
    }
}

/// The header line `[HH:MM:SS file_path func_path:lineno]`, with the UTC time
/// of day of `now`.
pub open spec fn header_text(now: Timestamp, loc: LogLocation) -> Seq<char> {
    seq!['['] + hms_text(now.second_of_day() as nat) + seq![' '] + loc.file_path@ + seq![' ']
        + loc.func_path@ + seq![':'] + decimal(loc.lineno as nat) + seq![']']
}

/// The body line that marks that execution reached a point.
pub open spec fn marker_text() -> Seq<char> {
    seq!['>']
}

/// The body line for a value whose debug rendering is `repr`.
pub open spec fn literal_text(repr: Seq<char>) -> Seq<char> {
    seq!['>', ' '] + repr
}

/// The body line for the expression `expr` whose value renders as `repr`.
pub open spec fn expr_text(expr: Seq<char>, repr: Seq<char>) -> Seq<char> {
    seq!['>', ' '] + expr + seq![' ', '=', ' '] + repr
}

/// The one-character text of a decimal digit.
fn digit_str(d: u32) -> (r: &'static str)
    requires
        d < 10,
    ensures
        r@ == seq![digit_char(d as nat)],
{
    proof {
        reveal_strlit("0");
        reveal_strlit("1");
        reveal_strlit("2");
        reveal_strlit("3");
        reveal_strlit("4");
        reveal_strlit("5");
        reveal_strlit("6");
        reveal_strlit("7");
        reveal_strlit("8");
        reveal_strlit("9");
    }
    match d {
        0 => "0",
        1 => "1",
        2 => "2",
        3 => "3",
        4 => "4",
        5 => "5",
        6 => "6",
        7 => "7",
        8 => "8",
        _ => "9",
    }
}

/// Appends `n` in decimal to `s`.
fn push_decimal(s: &mut String, n: u32)
    ensures
        final(s)@ == old(s)@ + decimal(n as nat),
    decreases n,
{
    if n >= 10 {
        push_decimal(s, n / 10);
    }
    s.append(digit_str(n % 10));
}

/// Relies on std's `{:?}` formatting: the value's debug rendering, which the
/// value's own `Debug` impl decides.
#[verifier::external_body]
fn debug_text<T: core::fmt::Debug>(val: &T) -> (r: String) {
    format!("{:?}", val)
}

/// Builds log lines; holds no state.
#[derive(Debug)]
pub struct Formatter {}

impl Formatter {
    /// The header line for a call made at `now` from `loc`.
    pub fn header(&self, now: &Timestamp, loc: &LogLocation) -> (r: String)
        ensures
            r@ == header_text(*now, *loc),
    {
        proof {
            reveal_strlit("[");
            reveal_strlit(" ");
            reveal_strlit(":");
            reveal_strlit("]");
        }
        let mut s = String::from_str("[");
        s.append(time_of_day_text(now).as_str());
        s.append(" ");
        s.append(loc.file_path.as_str());
        s.append(" ");
        s.append(loc.func_path.as_str());
        s.append(":");
        push_decimal(&mut s, loc.lineno);
        s.append("]");
        assert(s@ =~= header_text(*now, *loc));
        s
    }

    /// The body line `>`: execution reached this point.
    pub fn q(&self) -> (r: String)
        ensures
            r@ == marker_text(),
    {
        proof {
            reveal_strlit(">");
        }
        String::from_str(">")
    }

    /// The body line `> repr` for a value whose debug rendering is `repr`.
    pub fn literal_line(&self, repr: &str) -> (r: String)
        ensures
            r@ == literal_text(repr@),
    {
        proof {
            reveal_strlit("> ");
        }
        let mut s = String::from_str("> ");
        s.append(repr);
        s
    }

    /// The body line `> expr = repr` for the expression `expr` whose value
    /// renders as `repr`.
    pub fn expr_line(&self, repr: &str, expr: &str) -> (r: String)
        ensures
            r@ == expr_text(expr@, repr@),
    {
        proof {
            reveal_strlit("> ");
            reveal_strlit(" = ");
        }
        let mut s = String::from_str("> ");
        s.append(expr);
        s.append(" = ");
        s.append(repr);
        assert(s@ =~= expr_text(expr@, repr@));
        s
    }

    /// The body line for the literal value `val`: `> ` and its debug
    /// rendering.
    pub fn q_literal<T: core::fmt::Debug>(&self, val: &T) -> (r: String)
        ensures
            exists|repr: Seq<char>| r@ == literal_text(repr),
    {
        let repr = debug_text(val);
        self.literal_line(repr.as_str())
    }

    /// The body line for the expression `expr` with value `val`:
    /// `> expr = ` and the value's debug rendering.
    pub fn q_expr<T: core::fmt::Debug>(&self, val: &T, expr: &str) -> (r: String)
        ensures
            exists|repr: Seq<char>| r@ == expr_text(expr@, repr),
    {
        let repr = debug_text(val);
        self.expr_line(repr.as_str(), expr)
    }
}

} // verus!
