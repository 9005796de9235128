//! How numbers and long text are shown: durations, ages, wrapped lines.

use vstd::prelude::*;

use crate::text::{chars_of, decimal, decimal_string, join2, join3, owned, push_char, seq_strings, string_from_range, StrSeq};

verus! {

/// `n` (below 100) in two digits, as `{:02}` writes it.
pub open spec fn two_digits(n: nat) -> Seq<char> {
    if n < 10 {
        "0"@ + decimal(n)
    } else {
        decimal(n)
    }
}

/// A duration as minutes and two-digit seconds, such as `3:07`.
pub open spec fn duration_text(total_secs: nat) -> Seq<char> {
    decimal(total_secs / 60) + ":"@ + two_digits(total_secs % 60)
}

/// A duration in seconds as minutes and two-digit seconds (`3:07`).
pub fn format_duration(total_secs: u64) -> (r: String)
    ensures
        r@ == duration_text(total_secs as nat),
{
    let minutes = decimal_string(total_secs / 60);
    let s = total_secs % 60;
    let secs = if s < 10 {
        join2("0", decimal_string(s).as_str())
    } else {
        decimal_string(s)
    };
    join3(minutes.as_str(), ":", secs.as_str())
}

/// How long ago something was changed, from the seconds elapsed since (`None`
/// when it lies in the future): "just now" under a minute, then minutes,
/// hours, days, and months of 30 days, each rounded down.
pub open spec fn age_text(elapsed: Option<u64>) -> Seq<char> {
    match elapsed {
        None => "in the future"@,
        Some(s) => if s < 60 {
            "just now"@
        } else if s < 3600 {
            decimal((s / 60) as nat) + " min ago"@
        } else if s < 86400 {
            decimal((s / 3600) as nat) + " h ago"@
        } else if s < 2592000 {
            decimal((s / 86400) as nat) + " days ago"@
        } else {
            decimal((s / 2592000u64) as nat) + " months ago"@
        },
    }
}

/// How long ago something was changed (see `age_text`).
pub fn format_relative_time(elapsed: Option<u64>) -> (r: String)
    ensures
        r@ == age_text(elapsed),
{
    match elapsed {
        None => owned("in the future"),
        Some(s) => if s < 60 {
            owned("just now")
        } else if s < 3600 {
            join2(decimal_string(s / 60).as_str(), " min ago")
        } else if s < 86400 {
            join2(decimal_string(s / 3600).as_str(), " h ago")
        } else if s < 2592000 {
            join2(decimal_string(s / 86400).as_str(), " days ago")
        } else {
            join2(decimal_string(s / 2592000).as_str(), " months ago")
        },
    }
}

/// Text cut into lines of `width` characters (the last may be shorter); text
/// that is empty, or a width of 0, gives the text as its only line.
pub open spec fn wrapped(text: Seq<char>, width: nat) -> StrSeq
    decreases text.len(),
{
    if width == 0 || text.len() == 0 {
        seq![text]
    } else if text.len() <= width {
        seq![text]
    } else {
        seq![text.take(width as int)] + wrapped(text.skip(width as int), width)
    }
}

/// Text cut into lines of `width` characters.
pub fn wrap_text(text: &str, width: usize) -> (r: Vec<String>)
    ensures
        seq_strings(r@) == wrapped(text@, width as nat),
{
    let v = chars_of(text);
    let mut r: Vec<String> = Vec::new();
    if width == 0 || v.len() == 0 {
        r.push(owned(text));
        assert(seq_strings(r@) =~= seq![text@]);
        return r;
    }
    let mut start: usize = 0;
    assert(v@.skip(0) =~= v@);
    assert(seq_strings(r@) + wrapped(v@.skip(0), width as nat) =~= wrapped(text@, width as nat));
    while v.len() - start > width
        invariant
            v@ == text@,
            width > 0,
            start < v.len(),
            seq_strings(r@) + wrapped(v@.skip(start as int), width as nat) == wrapped(text@, width as nat),
        decreases v.len() - start,
    {
        let ghost rest = v@.skip(start as int);
        let line = string_from_range(&v, start, start + width);
        assert(line@ =~= rest.take(width as int));
        assert(rest.skip(width as int) =~= v@.skip(start + width));
        let ghost before = seq_strings(r@);
        r.push(line);
        assert(seq_strings(r@) =~= before.push(line@));
        assert(wrapped(rest, width as nat) == seq![rest.take(width as int)] + wrapped(rest.skip(width as int), width as nat));
        start = start + width;
        assert(seq_strings(r@) + wrapped(v@.skip(start as int), width as nat) =~= before + wrapped(rest, width as nat));
    }
    let last = string_from_range(&v, start, v.len());
    assert(last@ =~= v@.skip(start as int));
    let ghost before = seq_strings(r@);
    r.push(last);
    assert(wrapped(v@.skip(start as int), width as nat) == seq![v@.skip(start as int)]);
    assert(seq_strings(r@) =~= before + seq![v@.skip(start as int)]);
    r
}

} // verus!
