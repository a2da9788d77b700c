use vstd::prelude::*;

use crate::text::{debug_quote, debug_text, decimal, push_decimal, push_text};

verus! {

/// A `sed` filter that removes ANSI color escapes.
pub const SED_STRIP_ANSI_CODES: &'static str = r"sed 's/\x1b\[[0-9;]*m//g'";

/// An `awk` filter that prefixes every line with `indent`.
pub open spec fn indent_filter(indent: Seq<char>) -> Seq<char> {
    "awk -v indent="@ + debug_text(indent) + " '{print indent $0}'"@
}

/// An `awk` filter that keeps at most `width` characters of every line.
pub open spec fn chop_filter(width: nat) -> Seq<char> {
    "awk -v width="@ + decimal(width) + " '{print substr($0, 1, width)}'"@
}

/// A `notify-send` call that raises a critical alert.
pub open spec fn notify_critical(subject: Seq<char>, body: Seq<char>) -> Seq<char> {
    "notify-send -u critical "@ + subject + " "@ + body
}

/// A pipeline printing the last `lines` lines of `file`, without color
/// escapes, indented and cut to `width` characters.
pub open spec fn log_tail(file: Seq<char>, lines: nat, indent: Seq<char>, width: nat) -> Seq<
    char,
> {
    "tail -n "@ + decimal(lines) + " "@ + file + " | "@ + SED_STRIP_ANSI_CODES@ + " | "@
        + indent_filter(indent) + " | "@ + chop_filter(width)
}

fn push_indent_filter(r: &mut String, indent: &str)
    ensures
        final(r)@ == old(r)@ + indent_filter(indent@),
{
    push_text(r, "awk -v indent=");
    let q = debug_quote(indent);
    push_text(r, q.as_str());
    push_text(r, " '{print indent $0}'");
    assert(final(r)@ =~= old(r)@ + indent_filter(indent@));
}

fn push_chop_filter(r: &mut String, width: usize)
    ensures
        final(r)@ == old(r)@ + chop_filter(width as nat),
{
    push_text(r, "awk -v width=");
    push_decimal(r, width as u64);
    push_text(r, " '{print substr($0, 1, width)}'");
    assert(final(r)@ =~= old(r)@ + chop_filter(width as nat));
}

pub fn awk_indent_lines(indent: &str) -> (r: String)
    ensures
        r@ == indent_filter(indent@),
{
    let mut r = String::new();
    push_indent_filter(&mut r, indent);
    assert(r@ =~= indent_filter(indent@));
    r
}

pub fn awk_chop_lines(width: usize) -> (r: String)
    ensures
        r@ == chop_filter(width as nat),
{
    let mut r = String::new();
    push_chop_filter(&mut r, width);
    assert(r@ =~= chop_filter(width as nat));
    r
}

pub fn notify_send_critical(subject: &str, body: &str) -> (r: String)
    ensures
        r@ == notify_critical(subject@, body@),
{
    let mut r = String::new();
    push_text(&mut r, "notify-send -u critical ");
    push_text(&mut r, subject);
    push_text(&mut r, " ");
    push_text(&mut r, body);
    assert(r@ =~= notify_critical(subject@, body@));
    r
}

pub fn tail_log(file: &str, lines: usize, indent: &str, width_limit: usize) -> (r: String)
    ensures
        r@ == log_tail(file@, lines as nat, indent@, width_limit as nat),
{
    let mut r = String::new();
    push_text(&mut r, "tail -n ");
    push_decimal(&mut r, lines as u64);
    push_text(&mut r, " ");
    push_text(&mut r, file);
    push_text(&mut r, " | ");
    push_text(&mut r, SED_STRIP_ANSI_CODES);
    push_text(&mut r, " | ");
    push_indent_filter(&mut r, indent);
    push_text(&mut r, " | ");
    push_chop_filter(&mut r, width_limit);
    assert(r@ =~= log_tail(file@, lines as nat, indent@, width_limit as nat));
    r
}

} // verus!
