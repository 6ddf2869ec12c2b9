//! Metric value formatting: decimal strings, fixed-point percentages,
//! byte-scale conversion, percentage bar glyphs, and name truncation.
//!
//! Fractional values are carried as integers: percentages in micro-percent
//! (millionths of a percent) and byte scales converted to hundredths of the
//! target unit. All rounding is to the nearest unit, ties rounding up.

use vstd::prelude::*;

verus! {

/// The character for one decimal digit.
pub open spec fn digit_char(d: int) -> char {
    if d == 0 {
        '0'
    } else if d == 1 {
        '1'
    } else if d == 2 {
        '2'
    } else if d == 3 {
        '3'
    } else if d == 4 {
        '4'
    } else if d == 5 {
        '5'
    } else if d == 6 {
        '6'
    } else if d == 7 {
        '7'
    } else if d == 8 {
        '8'
    } else {
        '9'
    }
}

/// Decimal representation of a non-negative integer, most significant
/// digit first, with no leading zeros (a lone `0` for zero).
pub open spec fn dec_digits(n: nat) -> Seq<char>
    decreases n,
{
    if n < 10 {
        seq![digit_char(n as int)]
    } else {
        dec_digits(n / 10).push(digit_char((n % 10) as int))
    }
}

/// One decimal digit as a string slice.
fn digit_str(d: u64) -> (s: &'static str)
    requires
        d < 10,
    ensures
        s@ == seq![digit_char(d as int)],
{
    proof {
        reveal_strlit("0");
        reveal_strlit("1");
        reveal_strlit("2");
        reveal_strlit("3");
        reveal_strlit("4");
        reveal_strlit("5");
        reveal_strlit("6");
        reveal_strlit("7");
        reveal_strlit("8");
        reveal_strlit("9");
    }
    let s = if d == 0 {
        "0"
    } else if d == 1 {
        "1"
    } else if d == 2 {
        "2"
    } else if d == 3 {
        "3"
    } else if d == 4 {
        "4"
    } else if d == 5 {
        "5"
    } else if d == 6 {
        "6"
    } else if d == 7 {
        "7"
    } else if d == 8 {
        "8"
    } else {
        "9"
    };
    proof {
        assert(s@ =~= seq![digit_char(d as int)]);
    }
    s
}

/// Append the decimal representation of `n` to `out`.
pub fn push_decimal(out: &mut String, n: u64)
    ensures
        final(out)@ == old(out)@ + dec_digits(n as nat),
    decreases n,
{
    if n >= 10 {
        push_decimal(out, n / 10);
        out.append(digit_str(n % 10));
        proof {
            assert(old(out)@ + dec_digits(n as nat) =~= (old(out)@ + dec_digits(
                n as nat / 10,
            )).push(digit_char((n % 10) as int)));
        }
    } else {
        out.append(digit_str(n));
        proof {
            assert(old(out)@ + dec_digits(n as nat) =~= old(out)@.push(digit_char(n as int)));
        }
    }
}

/// The decimal representation of `n` as a fresh string.
pub fn decimal_string(n: u64) -> (s: String)
    ensures
        s@ == dec_digits(n as nat),
{
    let mut s = String::new();
    push_decimal(&mut s, n);
    proof {
        assert(s@ =~= dec_digits(n as nat));
    }
    s
}

/// A quantity of hundredths rendered with two decimal places:
/// `h` hundredths becomes `h/100`, a point, and two fraction digits.
pub open spec fn spec_two_places(h: nat) -> Seq<char> {
    dec_digits(h / 100) + seq!['.', digit_char(((h % 100) / 10) as int), digit_char(((h % 100) % 10) as int)]
}

/// Append `h` hundredths as a two-decimal-place number to `out`.
pub fn push_two_places(out: &mut String, h: u64)
    ensures
        final(out)@ == old(out)@ + spec_two_places(h as nat),
{
    push_decimal(out, h / 100);
    out.append(".");
    let frac = h % 100;
    out.append(digit_str(frac / 10));
    out.append(digit_str(frac % 10));
    proof {
        reveal_strlit(".");
        assert(final(out)@ =~= old(out)@ + spec_two_places(h as nat));
    }
}

/// `n/d` rounded to the nearest integer, ties up, for positive even `d`.
pub open spec fn spec_round_div(n: nat, d: nat) -> nat {
    n / d + if n % d >= d / 2 {
        1nat
    } else {
        0nat
    }
}

/// Micro-percent rounded to hundredths of a percent.
pub open spec fn micro_to_hundredths(micro: u64) -> nat {
    spec_round_div(micro as nat, 10_000)
}

/// A micro-percent reading rendered as a two-decimal-place percentage
/// with a trailing percent sign.
pub open spec fn spec_percent_text(micro: u64) -> Seq<char> {
    spec_two_places(micro_to_hundredths(micro)) + "%"@
}

/// Format a micro-percent reading as `XX.XX%`.
pub fn percent_string(micro: u64) -> (s: String)
    ensures
        s@ == spec_percent_text(micro),
{
    let mut s = String::new();
    let h = micro / 10_000 + if micro % 10_000 >= 5_000 {
        1
    } else {
        0
    };
    push_two_places(&mut s, h);
    s.append("%");
    proof {
        assert(s@ =~= spec_percent_text(micro));
    }
    s
}

/// A byte count rendered in gigabytes (decimal, 10^9 bytes) with two
/// decimal places and a ` GB` suffix.
pub open spec fn spec_gb_text(bytes: u64) -> Seq<char> {
    spec_two_places(spec_round_div(bytes as nat, 10_000_000)) + " GB"@
}

/// Format a byte count as `X.XX GB`.
pub fn gb_string(bytes: u64) -> (s: String)
    ensures
        s@ == spec_gb_text(bytes),
{
    let mut s = String::new();
    let h = bytes / 10_000_000 + if bytes % 10_000_000 >= 5_000_000 {
        1
    } else {
        0
    };
    push_two_places(&mut s, h);
    s.append(" GB");
    proof {
        assert(s@ =~= spec_gb_text(bytes));
    }
    s
}

/// A byte count rendered in megabytes (decimal, 10^6 bytes) with two
/// decimal places and a ` MB` suffix.
pub open spec fn spec_mb_text(bytes: u64) -> Seq<char> {
    spec_two_places(spec_round_div(bytes as nat, 10_000)) + " MB"@
}

/// Format a byte count as `X.XX MB`.
pub fn mb_string(bytes: u64) -> (s: String)
    ensures
        s@ == spec_mb_text(bytes),
{
    let mut s = String::new();
    let h = bytes / 10_000 + if bytes % 10_000 >= 5_000 {
        1
    } else {
        0
    };
    push_two_places(&mut s, h);
    s.append(" MB");
    proof {
        assert(s@ =~= spec_mb_text(bytes));
    }
    s
}

/// A byte count in hundredths of a megabyte, rendered with two decimal
/// places and no unit suffix (the process table's memory column).
pub open spec fn spec_mb_number_text(bytes: u64) -> Seq<char> {
    spec_two_places(spec_round_div(bytes as nat, 10_000))
}

/// Format a byte count as a bare `X.XX` megabyte number.
pub fn mb_number_string(bytes: u64) -> (s: String)
    ensures
        s@ == spec_mb_number_text(bytes),
{
    let mut s = String::new();
    let h = bytes / 10_000 + if bytes % 10_000 >= 5_000 {
        1
    } else {
        0
    };
    push_two_places(&mut s, h);
    s
}

/// Width of the percentage bar track, in cells.
pub const BAR_TRACK_WIDTH: u64 = 10;

/// Number of filled cells in the percentage bar for a micro-percent
/// reading: the reading rounded to a whole percent, divided by ten,
/// rounded up, and clamped to the track width. The clamp above 100% is a
/// deliberate departure from unclamped overflow: it keeps every bar
/// exactly the track width.
pub open spec fn spec_bar_cells(micro: u64) -> nat {
    let whole = spec_round_div(micro as nat, 1_000_000);
    let cells = (whole + 9) / 10;
    if cells > 10 {
        10nat
    } else {
        cells
    }
}

/// The bar body: `cells` filled cells padded with spaces to the track width.
pub open spec fn spec_bar_body(cells: nat) -> Seq<char> {
    Seq::new(10, |i: int| if i < cells { '|' } else { ' ' })
}

/// A full bar glyph: the body wrapped in `[ ` and ` ]` delimiters.
pub open spec fn spec_bar_text(micro: u64) -> Seq<char> {
    "[ "@ + spec_bar_body(spec_bar_cells(micro)) + " ]"@
}

/// The bar body for a given number of filled cells.
fn bar_body_str(cells: u64) -> (s: &'static str)
    requires
        cells <= 10,
    ensures
        s@ == spec_bar_body(cells as nat),
{
    proof {
        reveal_strlit("          ");
        reveal_strlit("|         ");
        reveal_strlit("||        ");
        reveal_strlit("|||       ");
        reveal_strlit("||||      ");
        reveal_strlit("|||||     ");
        reveal_strlit("||||||    ");
        reveal_strlit("|||||||   ");
        reveal_strlit("||||||||  ");
        reveal_strlit("||||||||| ");
        reveal_strlit("||||||||||");
    }
    let s = if cells == 0 {
        "          "
    } else if cells == 1 {
        "|         "
    } else if cells == 2 {
        "||        "
    } else if cells == 3 {
        "|||       "
    } else if cells == 4 {
        "||||      "
    } else if cells == 5 {
        "|||||     "
    } else if cells == 6 {
        "||||||    "
    } else if cells == 7 {
        "|||||||   "
    } else if cells == 8 {
        "||||||||  "
    } else if cells == 9 {
        "||||||||| "
    } else {
        "||||||||||"
    };
    proof {
        assert(s@ =~= spec_bar_body(cells as nat));
    }
    s
}

/// Render the percentage bar glyph for a micro-percent reading: a track of
/// ten cells, filled per `spec_bar_cells`, wrapped in `[ ` and ` ]`.
pub fn bar_string(micro: u64) -> (s: String)
    ensures
        s@ == spec_bar_text(micro),
        s@.len() == 14,
{
    let whole = micro / 1_000_000 + if micro % 1_000_000 >= 500_000 {
        1
    } else {
        0
    };
    let cells_raw = (whole + 9) / 10;
    let cells = if cells_raw > 10 {
        10
    } else {
        cells_raw
    };
    let mut s = String::from_str("[ ");
    s.append(bar_body_str(cells));
    s.append(" ]");
    proof {
        assert(s@ =~= spec_bar_text(micro));
        reveal_strlit("[ ");
        reveal_strlit(" ]");
    }
    s
}

/// The first `limit` characters of `s`, or all of `s` if it is shorter.
pub open spec fn spec_truncate_chars(s: Seq<char>, limit: int) -> Seq<char> {
    if s.len() <= limit {
        s
    } else {
        s.subrange(0, limit)
    }
}

/// Take at most the first `limit` characters of `s`, with no ellipsis.
pub fn truncate_chars(s: &str, limit: usize) -> (r: String)
    ensures
        r@ == spec_truncate_chars(s@, limit as int),
{
    let len = s.unicode_len();
    if len <= limit {
        s.to_owned()
    } else {
        let cut = s.substring_char(0, limit);
        cut.to_owned()
    }
}

} // verus!
