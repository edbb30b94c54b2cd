//! ANSI escape sequences for colours and text attributes.

use vstd::prelude::*;
use crate::text::{dec, push_char, push_dec};
use crate::theme::AnsiColor;

verus! {

/// A control sequence `ESC [ body m`.
pub open spec fn sgr(body: Seq<char>) -> Seq<char> {
    seq!['\x1b', '['] + body + seq!['m']
}

/// The sequence that resets the colours (`ESC [0m`).
pub open spec fn reset_color_seq() -> Seq<char> {
    sgr(seq!['0'])
}

/// The sequence that resets all text attributes (`ESC [0m`).
pub open spec fn reset_attr_seq() -> Seq<char> {
    sgr(seq!['0'])
}

/// Bold text (`ESC [1m`).
pub open spec fn bold_seq() -> Seq<char> {
    sgr(seq!['1'])
}

/// Italic text (`ESC [3m`).
pub open spec fn italic_seq() -> Seq<char> {
    sgr(seq!['3'])
}

/// Underlined text (`ESC [4m`).
pub open spec fn underline_seq() -> Seq<char> {
    sgr(seq!['4'])
}

/// Crossed-out text (`ESC [9m`).
pub open spec fn strike_seq() -> Seq<char> {
    sgr(seq!['9'])
}

/// Resets colours, then attributes.
pub open spec fn reset_all_seq() -> Seq<char> {
    reset_color_seq() + reset_attr_seq()
}

/// Sets a 24-bit foreground colour (`ESC [38;2;r;g;bm`); when colour output is
/// disabled the sequence carries no parameters (`ESC [m`).
pub open spec fn fg_seq(c: AnsiColor, color_off: bool) -> Seq<char> {
    if color_off {
        sgr(Seq::empty())
    } else {
        sgr(seq!['3', '8', ';', '2', ';'] + dec(c.r as nat) + seq![';'] + dec(c.g as nat) + seq![
            ';',
        ] + dec(c.b as nat))
    }
}

/// Whether colour output is switched off for this process (`NO_COLOR`), as
/// `crossterm::style::Colored::ansi_color_disabled_memoized` reports it.
///
/// Trusted: nothing is stated of the result; it depends on the environment.
#[verifier::external_body]
pub fn ansi_color_disabled() -> bool {
    crossterm::style::Colored::ansi_color_disabled_memoized()
}

/// Appends `ESC [` `code` `m` for a one-character attribute code.
pub fn push_sgr(s: &mut String, code: char)
    ensures
        final(s)@ == old(s)@ + sgr(seq![code]),
{
    push_char(s, '\x1b');
    push_char(s, '[');
    push_char(s, code);
    push_char(s, 'm');
    assert(final(s)@ =~= old(s)@ + sgr(seq![code]));
}

/// Appends the reset of colours and attributes.
pub fn push_reset_all(s: &mut String)
    ensures
        final(s)@ == old(s)@ + reset_all_seq(),
{
    push_sgr(s, '0');
    push_sgr(s, '0');
    assert(final(s)@ =~= old(s)@ + reset_all_seq());
}

/// Appends the foreground-colour sequence for `c`.
pub fn push_fg(s: &mut String, c: AnsiColor, color_off: bool)
    ensures
        final(s)@ == old(s)@ + fg_seq(c, color_off),
{
    push_char(s, '\x1b');
    push_char(s, '[');
    if !color_off {
        push_char(s, '3');
        push_char(s, '8');
        push_char(s, ';');
        push_char(s, '2');
        push_char(s, ';');
        push_dec(s, c.r as u64);
        push_char(s, ';');
        push_dec(s, c.g as u64);
        push_char(s, ';');
        push_dec(s, c.b as u64);
    }
    push_char(s, 'm');
    assert(final(s)@ =~= old(s)@ + fg_seq(c, color_off));
}

} // verus!
