//! Terminal colours for the texts that the command line shows.

use owo_colors::OwoColorize;
use vstd::prelude::*;

verus! {

/// The foreground colours in use.
#[derive(Clone, Copy, Debug, PartialEq, Eq, Structural)]
pub enum Tint {
    Cyan,
    Magenta,
    Yellow,
    BrightGreen,
}

/// The escape sequence that switches the foreground to the given colour.
pub open spec fn tint_code(tint: Tint) -> Seq<char> {
    match tint {
        Tint::Cyan => "\x1b[36m"@,
        Tint::Magenta => "\x1b[35m"@,
        Tint::Yellow => "\x1b[33m"@,
        Tint::BrightGreen => "\x1b[92m"@,
    }
}

/// The escape sequence that switches the foreground back to its default.
pub open spec fn tint_reset() -> Seq<char> {
    "\x1b[39m"@
}

/// `s` between the escape sequence of the colour and the one that ends it.
pub open spec fn tinted(tint: Tint, s: Seq<char>) -> Seq<char> {
    tint_code(tint) + s + tint_reset()
}

/// `s` as it is shown: tinted where colours are on, unchanged where not.
pub open spec fn styled(tint: Tint, s: Seq<char>, color: bool) -> Seq<char> {
    if color {
        tinted(tint, s)
    } else {
        s
    }
}

/// Calls `OwoColorize::cyan` of owo-colors on the text and formats the result
/// with `{}`. Taken on trust, not proved: what comes back is the text after
/// the escape sequence for a cyan foreground and before the one for the
/// default foreground.
#[verifier::external_body]
fn in_cyan(s: &str) -> (r: String)
    ensures
        r@ == tinted(Tint::Cyan, s@),
{
    format!("{}", s.cyan())
}

/// Calls `OwoColorize::magenta` of owo-colors on the text and formats the result
/// with `{}`. Taken on trust, not proved: what comes back is the text after
/// the escape sequence for a magenta foreground and before the one for the
/// default foreground.
#[verifier::external_body]
fn in_magenta(s: &str) -> (r: String)
    ensures
        r@ == tinted(Tint::Magenta, s@),
{
    format!("{}", s.magenta())
}

/// Calls `OwoColorize::yellow` of owo-colors on the text and formats the result
/// with `{}`. Taken on trust, not proved: what comes back is the text after
/// the escape sequence for a yellow foreground and before the one for the
/// default foreground.
#[verifier::external_body]
fn in_yellow(s: &str) -> (r: String)
    ensures
        r@ == tinted(Tint::Yellow, s@),
{
    format!("{}", s.yellow())
}

/// Calls `OwoColorize::bright_green` of owo-colors on the text and formats the result
/// with `{}`. Taken on trust, not proved: what comes back is the text after
/// the escape sequence for a bright green foreground and before the one for the
/// default foreground.
#[verifier::external_body]
fn in_bright_green(s: &str) -> (r: String)
    ensures
        r@ == tinted(Tint::BrightGreen, s@),
{
    format!("{}", s.bright_green())
}

/// The text as it is shown: in the given colour where colours are on, and
/// unchanged where they are off.
pub fn paint(tint: Tint, s: &str, color: bool) -> (r: String)
    ensures
        r@ == styled(tint, s@, color),
{
    if color {
        match tint {
            Tint::Cyan => in_cyan(s),
            Tint::Magenta => in_magenta(s),
            Tint::Yellow => in_yellow(s),
            Tint::BrightGreen => in_bright_green(s),
        }
    } else {
        s.to_owned()
    }
}

} // verus!
