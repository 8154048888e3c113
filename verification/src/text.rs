//! Formatting of durations and of fixed-width list lines.

use vstd::prelude::*;
use vstd::utf8::*;
use vstd::string::StringSliceAdditionalSpecFns;

verus! {

/// The character of a decimal digit.
pub open spec fn digit_char(d: nat) -> char {
    if d == 0 { '0' }
    else if d == 1 { '1' }
    else if d == 2 { '2' }
    else if d == 3 { '3' }
    else if d == 4 { '4' }
    else if d == 5 { '5' }
    else if d == 6 { '6' }
    else if d == 7 { '7' }
    else if d == 8 { '8' }
    else { '9' }
}

/// The decimal representation of `n`, without leading zeros.
pub open spec fn decimal(n: nat) -> Seq<char>
    decreases n,
{
    if n < 10 {
        seq![digit_char(n)]
    } else {
        decimal(n / 10).push(digit_char(n % 10))
    }
}

fn digit_str(d: u64) -> (s: &'static str)
    requires
        d < 10,
    ensures
        s@ == seq![digit_char(d as nat)],
{
    proof {
        reveal_strlit("0");
        reveal_strlit("1");
        reveal_strlit("2");
        reveal_strlit("3");
        reveal_strlit("4");
        reveal_strlit("5");
        reveal_strlit("6");
        reveal_strlit("7");
        reveal_strlit("8");
        reveal_strlit("9");
    }
    if d == 0 { "0" }
    else if d == 1 { "1" }
    else if d == 2 { "2" }
    else if d == 3 { "3" }
    else if d == 4 { "4" }
    else if d == 5 { "5" }
    else if d == 6 { "6" }
    else if d == 7 { "7" }
    else if d == 8 { "8" }
    else { "9" }
}

/// Appends the decimal representation of `n` to `out`.
pub fn push_decimal(out: &mut String, n: u64)
    ensures
        final(out)@ == old(out)@ + decimal(n as nat),
    decreases n,
{
    if n >= 10 {
        push_decimal(out, n / 10);
    }
    out.append(digit_str(n % 10));
}

/// `n` written with at least two digits, padded with a leading zero.
pub open spec fn two_digits(n: nat) -> Seq<char> {
    if n < 10 {
        seq!['0', digit_char(n)]
    } else {
        decimal(n)
    }
}

/// A duration of `seconds` as `h:mm:ss`, or as `m:ss` when it is shorter than an hour.
pub open spec fn time_string(seconds: nat) -> Seq<char> {
    let hours = seconds / 3600;
    let minutes = (seconds % 3600) / 60;
    let secs = seconds % 60;
    if hours > 0 {
        decimal(hours) + seq![':'] + two_digits(minutes) + seq![':'] + two_digits(secs)
    } else {
        decimal(minutes) + seq![':'] + two_digits(secs)
    }
}

/// Appends `n` with at least two digits to `out`.
fn push_two_digits(out: &mut String, n: u64)
    ensures
        final(out)@ == old(out)@ + two_digits(n as nat),
{
    if n < 10 {
        out.append(digit_str(0));
        assert(seq![digit_char(0)] == seq!['0']);
    }
    push_decimal(out, n);
    proof {
        if n < 10 {
            assert(decimal(n as nat) == seq![digit_char(n as nat)]);
            assert(old(out)@ + seq!['0'] + seq![digit_char(n as nat)] =~= old(out)@ + two_digits(n as nat));
        }
    }
}

fn colon() -> (s: &'static str)
    ensures
        s@ == seq![':'],
{
    proof {
        reveal_strlit(":");
    }
    ":"
}

/// Formats a duration in seconds as `h:mm:ss`, or `m:ss` below one hour.
pub fn get_time_string(seconds: u32) -> (res: String)
    ensures
        res@ == time_string(seconds as nat),
{
    let hours = seconds / 3600;
    let minutes = (seconds % 3600) / 60;
    let secs = seconds % 60;
    let mut res = String::new();
    if hours > 0 {
        push_decimal(&mut res, hours as u64);
        res.append(colon());
        push_two_digits(&mut res, minutes as u64);
        res.append(colon());
        push_two_digits(&mut res, secs as u64);
    } else {
        push_decimal(&mut res, minutes as u64);
        res.append(colon());
        push_two_digits(&mut res, secs as u64);
    }
    assert(res@ =~= time_string(seconds as nat));
    res
}

/// The first `n` characters of `s`, or all of `s` when it has fewer.
pub open spec fn trimmed(s: Seq<char>, n: nat) -> Seq<char> {
    if n < s.len() {
        s.take(n as int)
    } else {
        s
    }
}

/// Cuts `string` down to at most `trim_len` characters; returns the number of
/// characters kept and the kept prefix.
pub fn trim_string<'a>(string: &'a str, trim_len: usize) -> (res: (usize, &'a str))
    ensures
        res.1@ == trimmed(string@, trim_len as nat),
        res.0 as nat == res.1@.len(),
{
    let count = string.unicode_len();
    if trim_len < count {
        let prefix = string.substring_char(0, trim_len);
        assert(prefix@ =~= string@.take(trim_len as int));
        (trim_len, prefix)
    } else {
        (count, string)
    }
}

/// A run of `n` blanks.
pub open spec fn spaces(n: nat) -> Seq<char> {
    Seq::new(n, |i: int| ' ')
}

fn blank() -> (s: &'static str)
    ensures
        s@ == seq![' '],
{
    proof {
        reveal_strlit(" ");
    }
    " "
}

/// Appends `n` blanks to `out`.
fn push_spaces(out: &mut String, n: usize)
    ensures
        final(out)@ == old(out)@ + spaces(n as nat),
{
    let mut i: usize = 0;
    while i < n
        invariant
            i <= n,
            out@ == old(out)@ + spaces(i as nat),
        decreases n - i,
    {
        out.append(blank());
        i = i + 1;
        assert(out@ =~= old(out)@ + spaces(i as nat));
    }
}

proof fn lemma_decimal_ascii(n: nat)
    ensures
        is_ascii_chars(decimal(n)),
        1 <= decimal(n).len() <= n + 1,
        n >= 10 ==> decimal(n).len() >= 2,
        n < 100 ==> decimal(n).len() <= 2,
    decreases n,
{
    if n >= 10 {
        lemma_decimal_ascii(n / 10);
    }
}

proof fn lemma_time_string_ascii(seconds: nat)
    ensures
        is_ascii_chars(time_string(seconds)),
        4 <= time_string(seconds).len() <= seconds / 3600 + 7,
{
    lemma_decimal_ascii(seconds / 3600);
    lemma_decimal_ascii((seconds % 3600) / 60);
    lemma_decimal_ascii(seconds % 60);
    let t = time_string(seconds);
    assert forall|i: int| 0 <= i < t.len() implies '\0' <= #[trigger] t[i] <= '\u{7f}' by {
        let hours = seconds / 3600;
        let minutes = (seconds % 3600) / 60;
        let secs = seconds % 60;
        if hours > 0 {
            let a = decimal(hours);
            let b = two_digits(minutes);
            let c = two_digits(secs);
            if i < a.len() {
                assert(t[i] == a[i]);
            } else if i < a.len() + 1 {
            } else if i < a.len() + 1 + b.len() {
                assert(t[i] == b[i - a.len() - 1]);
            } else if i < a.len() + 2 + b.len() {
            } else {
                assert(t[i] == c[i - a.len() - 2 - b.len()]);
            }
        } else {
            let a = decimal(minutes);
            let c = two_digits(secs);
            if i < a.len() {
                assert(t[i] == a[i]);
            } else if i < a.len() + 1 {
            } else {
                assert(t[i] == c[i - a.len() - 1]);
            }
        }
    }
}

/// The first line of a queue entry: the title cut to the room left beside the
/// duration, padded with blanks so that the duration ends at column `item_len`.
pub open spec fn queue_line(title: Seq<char>, length: nat, item_len: nat) -> Seq<char> {
    let duration = time_string(length);
    let max_len = if item_len > duration.len() + 1 { item_len - duration.len() - 1 } else { 0 };
    let kept = trimmed(title, max_len as nat);
    let pad_len = if item_len > kept.len() + duration.len() { item_len - kept.len() - duration.len() } else { 0 };
    kept + spaces(pad_len as nat) + duration
}

/// Formats the first line of a queue entry of `item_len` columns: the title,
/// cut to fit, then blanks, then the track's duration.
pub fn queue_item_line(line1: &str, length: u32, item_len: usize) -> (res: String)
    ensures
        res@ == queue_line(line1@, length as nat, item_len as nat),
{
    let duration = get_time_string(length);
    proof {
        lemma_time_string_ascii(length as nat);
        is_ascii_chars_encode_utf8(duration@);
    }
    let duration_str = duration.as_str();
    let duration_len = duration_str.len();
    assert(duration_str.spec_bytes() == encode_utf8(duration@));
    assert(duration_len == duration@.len());
    let max_len = item_len.saturating_sub(duration_len + 1);
    let (line1_len, kept) = trim_string(line1, max_len);
    let pad_len = item_len.saturating_sub(line1_len + duration_len);
    let mut res = String::from_str(kept);
    push_spaces(&mut res, pad_len);
    res.append(duration_str);
    res
}

/// Cutting a string keeps a prefix of at most `n` characters, and cutting it
/// again to the same length changes nothing.
pub proof fn law_trim_prefix_idempotent(s: Seq<char>, n: nat)
    ensures
        trimmed(s, n).len() == if n < s.len() { n } else { s.len() },
        trimmed(s, n) == s.take(trimmed(s, n).len() as int),
        trimmed(trimmed(s, n), n) == trimmed(s, n),
{
    if n >= s.len() {
        assert(s.take(s.len() as int) =~= s);
    }
}

/// A queue entry's first line ends with the track's duration and, when the
/// line is wider than the duration, fills exactly `item_len` columns: the
/// durations of all entries line up at the right edge.
pub proof fn law_queue_line_right_aligned(title: Seq<char>, length: nat, item_len: nat)
    ensures
        queue_line(title, length, item_len).len() >= time_string(length).len(),
        queue_line(title, length, item_len).subrange(
            queue_line(title, length, item_len).len() - time_string(length).len(),
            queue_line(title, length, item_len).len() as int,
        ) == time_string(length),
        item_len > time_string(length).len() ==> queue_line(title, length, item_len).len() == item_len,
{
    let duration = time_string(length);
    let line = queue_line(title, length, item_len);
    let max_len: int = if item_len > duration.len() + 1 { item_len - duration.len() - 1 } else { 0 };
    let kept = trimmed(title, max_len as nat);
    law_trim_prefix_idempotent(title, max_len as nat);
    let pad_len: int = if item_len > kept.len() + duration.len() { item_len - kept.len() - duration.len() } else { 0 };
    assert(line == kept + spaces(pad_len as nat) + duration);
    assert(line.subrange(line.len() - duration.len(), line.len() as int) =~= duration);
}

/// Durations under an hour have no hour field: minutes, a colon and two
/// digits of seconds.
pub proof fn law_short_time_string(seconds: nat)
    requires
        seconds < 3600,
    ensures
        time_string(seconds) == decimal(seconds / 60) + seq![':'] + two_digits(seconds % 60),
        4 <= time_string(seconds).len() <= 5,
{
    lemma_decimal_ascii(seconds / 60);
    lemma_decimal_ascii(seconds % 60);
    assert((seconds % 3600) == seconds);
}

/// The number that a string of decimal digits stands for, most significant
/// digit first, each digit worth its distance from `'0'`.
pub open spec fn digits_value(s: Seq<char>) -> int
    decreases s.len(),
{
    if s.len() == 0 {
        0
    } else {
        digits_value(s.drop_last()) * 10 + (s.last() as int - '0' as int)
    }
}

/// Every character of `s` is one of `'0'` to `'9'`.
pub open spec fn all_digits(s: Seq<char>) -> bool {
    forall|i: int| 0 <= i < s.len() ==> '0' <= #[trigger] s[i] <= '9'
}

proof fn lemma_digit_char(d: nat)
    requires
        d < 10,
    ensures
        digit_char(d) as int == '0' as int + d,
        '0' <= digit_char(d) <= '9',
{
}

/// `decimal(n)` is `n` written in base ten: it consists of decimal digits,
/// reading them back gives `n`, and it has no leading zero.
pub proof fn law_decimal_reads_back(n: nat)
    ensures
        decimal(n).len() >= 1,
        all_digits(decimal(n)),
        digits_value(decimal(n)) == n,
        decimal(n).len() > 1 ==> decimal(n)[0] != '0',
    decreases n,
{
    if n < 10 {
        lemma_digit_char(n);
        assert(decimal(n).drop_last() =~= Seq::<char>::empty());
        assert(digits_value(Seq::<char>::empty()) == 0);
    } else {
        law_decimal_reads_back(n / 10);
        lemma_digit_char(n % 10);
        let s = decimal(n);
        assert(s.drop_last() =~= decimal(n / 10));
        assert(s.last() == digit_char(n % 10));
        assert(digits_value(s) == digits_value(decimal(n / 10)) * 10 + (digit_char(n % 10) as int - '0' as int));
        assert forall|i: int| 0 <= i < s.len() implies '0' <= #[trigger] s[i] <= '9' by {
            if i < s.len() - 1 {
                assert(s[i] == decimal(n / 10)[i]);
            }
        }
        lemma_decimal_ascii(n / 10);
        if decimal(n / 10).len() == 1 {
            assert(1 <= n / 10 < 10);
            lemma_digit_char(n / 10);
            assert(decimal(n / 10) == seq![digit_char(n / 10)]);
        }
        assert(s[0] == decimal(n / 10)[0]);
    }
}

/// `two_digits(n)` below a hundred is two decimal digits that read back as `n`.
pub proof fn law_two_digits_reads_back(n: nat)
    requires
        n < 100,
    ensures
        two_digits(n).len() == 2,
        all_digits(two_digits(n)),
        digits_value(two_digits(n)) == n,
{
    law_decimal_reads_back(n);
    lemma_decimal_ascii(n);
    if n < 10 {
        lemma_digit_char(n);
        let t = two_digits(n);
        assert(t.drop_last() =~= seq!['0']);
        assert(seq!['0'].drop_last() =~= Seq::<char>::empty());
        assert(digits_value(Seq::<char>::empty()) == 0);
        assert(digits_value(seq!['0']) == 0);
        assert(digits_value(t) == digits_value(seq!['0']) * 10 + (digit_char(n) as int - '0' as int));
    }
}

/// A duration under an hour is written as its whole minutes and, after a
/// colon, its remaining seconds in two digits: reading the fields back gives
/// the minutes and seconds of the duration.
pub proof fn law_time_string_fields(seconds: nat)
    requires
        seconds < 3600,
    ensures
        ({
            let t = time_string(seconds);
            let k = t.len() - 3;
            &&& t[k] == ':'
            &&& all_digits(t.take(k))
            &&& digits_value(t.take(k)) == seconds / 60
            &&& all_digits(t.skip(k + 1))
            &&& digits_value(t.skip(k + 1)) == seconds % 60
        }),
{
    law_short_time_string(seconds);
    law_decimal_reads_back(seconds / 60);
    law_two_digits_reads_back(seconds % 60);
    let t = time_string(seconds);
    let a = decimal(seconds / 60);
    let b = two_digits(seconds % 60);
    assert(t == a + seq![':'] + b);
    assert(t.take(a.len() as int) =~= a);
    assert(t.skip(a.len() as int + 1) =~= b);
}

} // verus!
