//! Human readable rendering of track lengths and positions.
use vstd::prelude::*;
use crate::text::string_from_chars;
use crate::time::TimeSpan;

verus! {

/// The character of a single decimal digit.
pub open spec fn digit_char(d: nat) -> char {
    (('0' as u32) + d) as char
}

/// Decimal notation of `n`, without leading zeros ("0" for zero).
pub open spec fn decimal(n: nat) -> Seq<char>
    decreases n,
{
    if n < 10 {
        seq![digit_char(n)]
    } else {
        decimal(n / 10).push(digit_char(n % 10))
    }
}

/// Decimal notation of `n`, padded with a leading zero to at least two digits
/// (the `{:02}` format).
pub open spec fn two_digits(n: nat) -> Seq<char> {
    if n < 10 {
        seq!['0', digit_char(n)]
    } else {
        decimal(n)
    }
}

/// The clock text for a whole number of seconds: `HH:MM:SS` when there are
/// hours or they are asked for, `MM:SS` otherwise.
pub open spec fn clock_text(total_secs: nat, include_hours: bool) -> Seq<char> {
    let hours = total_secs / 3600;
    let minutes = (total_secs % 3600) / 60;
    let seconds = total_secs % 60;
    if hours > 0 || include_hours {
        two_digits(hours) + seq![':'] + two_digits(minutes) + seq![':'] + two_digits(seconds)
    } else {
        two_digits(minutes) + seq![':'] + two_digits(seconds)
    }
}

fn digit(d: u64) -> (c: char)
    requires
        d < 10,
    ensures
        c == digit_char(d as nat),
{
    if d == 0 {
        '0'
    } else if d == 1 {
        '1'
    } else if d == 2 {
        '2'
    } else if d == 3 {
        '3'
    } else if d == 4 {
        '4'
    } else if d == 5 {
        '5'
    } else if d == 6 {
        '6'
    } else if d == 7 {
        '7'
    } else if d == 8 {
        '8'
    } else {
        '9'
    }
}

/// Appends the decimal notation of `n`.
fn push_decimal(out: &mut Vec<char>, n: u64)
    ensures
        final(out)@ == old(out)@ + decimal(n as nat),
    decreases n,
{
    if n < 10 {
        out.push(digit(n));
        assert(decimal(n as nat) == seq![digit_char(n as nat)]);
    } else {
        push_decimal(out, n / 10);
        out.push(digit(n % 10));
        assert(old(out)@ + decimal(n as nat) == old(out)@ + decimal((n / 10) as nat) + seq![
            digit_char((n % 10) as nat),
        ]);
    }
}

/// Appends `n` with at least two digits.
fn push_two_digits(out: &mut Vec<char>, n: u64)
    ensures
        final(out)@ == old(out)@ + two_digits(n as nat),
{
    if n < 10 {
        out.push('0');
        out.push(digit(n));
        assert(final(out)@ == old(out)@ + two_digits(n as nat));
    } else {
        push_decimal(out, n);
    }
}

/// Renders whole seconds as a clock text, `HH:MM:SS` or `MM:SS`.
pub fn human_duration_secs(total_secs: u64, include_hours: bool) -> (text: String)
    ensures
        text@ == clock_text(total_secs as nat, include_hours),
{
    let hours = total_secs / 3600;
    let minutes = (total_secs % 3600) / 60;
    let seconds = total_secs % 60;
    let mut out: Vec<char> = Vec::new();
    if hours > 0 || include_hours {
        push_two_digits(&mut out, hours);
        out.push(':');
        push_two_digits(&mut out, minutes);
        out.push(':');
        push_two_digits(&mut out, seconds);
    } else {
        push_two_digits(&mut out, minutes);
        out.push(':');
        push_two_digits(&mut out, seconds);
    }
    string_from_chars(&out)
}

/// Renders a span as a clock text of its whole seconds: `HH:MM:SS` when it
/// lasts an hour or more or `include_hours` is set, `MM:SS` otherwise. Each
/// field has at least two digits; the hours may have more.
pub fn human_duration(duration: TimeSpan, include_hours: bool) -> (text: String)
    ensures
        text@ == clock_text(duration.whole_secs(), include_hours),
{
    human_duration_secs(duration.as_secs(), include_hours)
}

/// The number a string of decimal digits denotes (most significant first).
pub open spec fn digits_value(s: Seq<char>) -> int
    decreases s.len(),
{
    if s.len() == 0 {
        0
    } else {
        digits_value(s.drop_last()) * 10 + ((s.last() as int) - ('0' as int))
    }
}

/// Every character is one of '0' to '9'.
pub open spec fn all_digits(s: Seq<char>) -> bool {
    forall|i: int| 0 <= i < s.len() ==> '0' <= #[trigger] s[i] && s[i] <= '9'
}

/// A digit character is '0' to '9' and stands for its value.
proof fn lemma_digit_char(d: nat)
    requires
        d < 10,
    ensures
        '0' <= digit_char(d) && digit_char(d) <= '9',
        (digit_char(d) as int) - ('0' as int) == d,
{
}

/// The decimal notation of `n` is made of digits and reads back as `n`.
pub proof fn lemma_decimal_reads_back(n: nat)
    ensures
        all_digits(decimal(n)),
        digits_value(decimal(n)) == n,
        decimal(n).len() >= 1,
        n < 10 ==> decimal(n).len() == 1,
        n >= 10 ==> decimal(n).len() >= 2,
        10 <= n < 100 ==> decimal(n).len() == 2,
    decreases n,
{
    if n < 10 {
        lemma_digit_char(n);
        assert(decimal(n).drop_last() =~= Seq::<char>::empty());
        assert(digits_value(Seq::<char>::empty()) == 0);
        assert(decimal(n).last() == digit_char(n));
    } else {
        lemma_decimal_reads_back(n / 10);
        lemma_digit_char(n % 10);
        let d = decimal(n);
        assert(d.drop_last() =~= decimal(n / 10));
        assert(d.last() == digit_char(n % 10));
        assert(digits_value(d) == digits_value(decimal(n / 10)) * 10 + (n % 10));
        assert((n / 10) * 10 + n % 10 == n);
        assert forall|i: int| 0 <= i < d.len() implies '0' <= #[trigger] d[i] && d[i] <= '9' by {
            if i < d.len() - 1 {
                assert(d[i] == decimal(n / 10)[i]);
            }
        }
    }
}

/// Each clock field is zero-padded to at least two digits: it is made of
/// digits, reads back as the value, and has exactly two digits below 100.
pub proof fn lemma_two_digits_reads_back(n: nat)
    ensures
        all_digits(two_digits(n)),
        digits_value(two_digits(n)) == n,
        two_digits(n).len() >= 2,
        n < 100 ==> two_digits(n).len() == 2,
{
    if n < 10 {
        lemma_digit_char(n);
        let t = two_digits(n);
        assert(t.drop_last() =~= seq!['0']);
        assert(seq!['0'].drop_last() =~= Seq::<char>::empty());
        assert(digits_value(Seq::<char>::empty()) == 0);
        assert(digits_value(seq!['0']) == 0);
        assert(t.last() == digit_char(n));
    } else {
        lemma_decimal_reads_back(n);
    }
}

/// A clock text below an hour, without hours asked for, is `MM:SS`: five
/// characters, the minutes and the seconds as two digits each around a ':'.
pub proof fn lemma_clock_text_minutes_seconds(total_secs: nat)
    requires
        total_secs < 3600,
    ensures
        clock_text(total_secs, false).len() == 5,
        clock_text(total_secs, false)[2] == ':',
        all_digits(clock_text(total_secs, false).subrange(0, 2)),
        all_digits(clock_text(total_secs, false).subrange(3, 5)),
        digits_value(clock_text(total_secs, false).subrange(0, 2)) == total_secs / 60,
        digits_value(clock_text(total_secs, false).subrange(3, 5)) == total_secs % 60,
{
    let minutes = (total_secs % 3600) / 60;
    let seconds = total_secs % 60;
    lemma_two_digits_reads_back(minutes);
    lemma_two_digits_reads_back(seconds);
    let c = clock_text(total_secs, false);
    assert(c.subrange(0, 2) =~= two_digits(minutes));
    assert(c.subrange(3, 5) =~= two_digits(seconds));
}

} // verus!
