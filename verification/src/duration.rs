//! Reminder durations such as `10m`, `2h`, `1d` or `30mins`.

use vstd::prelude::*;

use crate::error::Error;
use crate::text::{
    all_ascii, all_digits, ascii_lower, chars_of, copy_chars, digits_value, ends_with, has_suffix,
    is_ascii_char, is_ascii_upper, is_digit, is_ws, last_non_ws_end, first_non_ws, lower_text,
    parse_u64, parse_u64_spec, string_from, string_of, to_lowercase, trim, trim_ws,
};

verus! {

/// `s` with every trailing repetition of the non-empty `p` removed, as
/// `str::trim_end_matches` does.
pub open spec fn strip_suffixes(s: Seq<char>, p: Seq<char>) -> Seq<char>
    decreases s.len(),
{
    if p.len() > 0 && has_suffix(s, p) {
        strip_suffixes(s.take(s.len() - p.len()), p)
    } else {
        s
    }
}

/// How a lower-cased, trimmed duration text splits into the text of its
/// number and the seconds that one unit is worth; `None` when its unit is
/// unknown.
pub open spec fn duration_parts(l: Seq<char>) -> Option<(Seq<char>, nat)> {
    if has_suffix(l, "min"@) || has_suffix(l, "mins"@) {
        Some((strip_suffixes(strip_suffixes(l, "mins"@), "min"@), 60))
    } else if has_suffix(l, "hour"@) || has_suffix(l, "hours"@) {
        Some((strip_suffixes(strip_suffixes(l, "hours"@), "hour"@), 3600))
    } else if has_suffix(l, "day"@) || has_suffix(l, "days"@) {
        Some((strip_suffixes(strip_suffixes(l, "days"@), "day"@), 86400))
    } else if l.last() == 's' {
        Some((l.drop_last(), 1))
    } else if l.last() == 'm' {
        Some((l.drop_last(), 60))
    } else if l.last() == 'h' {
        Some((l.drop_last(), 3600))
    } else if l.last() == 'd' {
        Some((l.drop_last(), 86400))
    } else {
        None
    }
}

/// The text of a duration once trimmed and lower-cased.
pub open spec fn duration_text(s: Seq<char>) -> Seq<char> {
    lower_text(trim_ws(s))
}

/// Whether reading the duration `s` fails outright: its text ends in a
/// character that is not ASCII and names no unit (the number cannot be cut
/// off it), or the number of seconds does not fit in a `u64`.
pub open spec fn duration_faults(s: Seq<char>) -> bool {
    let l = duration_text(s);
    &&& l.len() > 0
    &&& {
        ||| (!has_suffix(l, "min"@) && !has_suffix(l, "mins"@) && !has_suffix(l, "hour"@)
            && !has_suffix(l, "hours"@) && !has_suffix(l, "day"@) && !has_suffix(l, "days"@)
            && !is_ascii_char(l.last()))
        ||| (duration_parts(l) matches Some((num, mult)) && parse_u64_spec(num) matches Some(n)
            && n * mult > u64::MAX)
    }
}

/// The seconds that the duration `s` stands for, or the message of the
/// error that reading it gives.
pub open spec fn duration_seconds(s: Seq<char>) -> Result<u64, Seq<char>> {
    let l = duration_text(s);
    if l.len() == 0 {
        Err("Duration cannot be empty"@)
    } else {
        match duration_parts(l) {
            None => Err("Invalid duration unit. Use: s, m, h, or d"@),
            Some((num, mult)) => match parse_u64_spec(num) {
                None => Err("Invalid number: "@ + num),
                Some(n) => Ok((n * mult) as u64),
            },
        }
    }
}

/// Removes every trailing repetition of `p` from `v`.
fn strip_suffixes_exec(v: &mut Vec<char>, p: &[char])
    requires
        p@.len() > 0,
    ensures
        final(v)@ == strip_suffixes(old(v)@, p@),
{
    while ends_with(v.as_slice(), p)
        invariant
            p@.len() > 0,
            strip_suffixes(v@, p@) == strip_suffixes(old(v)@, p@),
        decreases v@.len(),
    {
        let n = v.len() - p.len();
        v.truncate(n);
    }
}

/// Whether `v` ends with the literal `lit`.
fn ends_with_lit(v: &[char], lit: &str) -> (r: bool)
    ensures
        r == has_suffix(v@, lit@),
{
    let p = chars_of(lit);
    ends_with(v, p.as_slice())
}

/// `v` stripped of the unit words `long` then `short`.
fn strip_unit(v: &[char], long: &str, short: &str) -> (r: Vec<char>)
    requires
        long@.len() > 0,
        short@.len() > 0,
    ensures
        r@ == strip_suffixes(strip_suffixes(v@, long@), short@),
{
    let mut w = copy_chars(v);
    let lp = chars_of(long);
    let sp = chars_of(short);
    strip_suffixes_exec(&mut w, lp.as_slice());
    strip_suffixes_exec(&mut w, sp.as_slice());
    w
}

/// The seconds that one unit word of a duration stands for: `s` a second;
/// `m`, `min` and `mins` a minute; `h`, `hour` and `hours` an hour; `d`,
/// `day` and `days` a day.
pub open spec fn unit_word_seconds(u: Seq<char>) -> Option<nat> {
    if u == "s"@ {
        Some(1)
    } else if u == "m"@ || u == "min"@ || u == "mins"@ {
        Some(60)
    } else if u == "h"@ || u == "hour"@ || u == "hours"@ {
        Some(3600)
    } else if u == "d"@ || u == "day"@ || u == "days"@ {
        Some(86400)
    } else {
        None
    }
}

proof fn lemma_suffix_last_two(l: Seq<char>, p: Seq<char>)
    requires
        p.len() > 0,
        has_suffix(l, p),
    ensures
        l.len() > 0,
        l.last() == p.last(),
        p.len() >= 2 ==> l[l.len() - 2] == p[p.len() - 2],
{
    let k = l.len() - p.len();
    assert(l.skip(k)[p.len() - 1] == p[p.len() - 1]);
    if p.len() >= 2 {
        assert(l.skip(k)[p.len() - 2] == p[p.len() - 2]);
    }
}

proof fn lemma_not_suffix(l: Seq<char>, p: Seq<char>)
    requires
        p.len() >= 2,
        l.len() >= 2,
    ensures
        (l.last() != p.last() || l[l.len() - 2] != p[p.len() - 2]) ==> !has_suffix(l, p),
{
    if has_suffix(l, p) {
        lemma_suffix_last_two(l, p);
    }
}

proof fn lemma_strip_digits(n: Seq<char>, p: Seq<char>)
    requires
        n.len() > 0,
        all_digits(n),
        p.len() > 0,
        !is_digit(p.last()),
    ensures
        strip_suffixes(n, p) == n,
{
    if has_suffix(n, p) {
        lemma_suffix_last_two(n, p);
        assert(is_digit(n[n.len() - 1]));
    }
}

/// A number followed by a unit word reads as that number times the seconds
/// of the unit: `1day`, `1d` and `24h` are all 86400 seconds, `30mins` and
/// `30m` are 1800.
pub proof fn law_number_then_unit_word(n: Seq<char>, u: Seq<char>)
    requires
        n.len() > 0,
        all_digits(n),
        unit_word_seconds(u) is Some,
        digits_value(n) * unit_word_seconds(u)->0 <= u64::MAX,
    ensures
        duration_seconds(n + u) == Ok::<u64, Seq<char>>(
            (digits_value(n) * unit_word_seconds(u)->0) as u64,
        ),
{
    reveal_strlit("s");
    reveal_strlit("m");
    reveal_strlit("min");
    reveal_strlit("mins");
    reveal_strlit("h");
    reveal_strlit("hour");
    reveal_strlit("hours");
    reveal_strlit("d");
    reveal_strlit("day");
    reveal_strlit("days");
    let l = n + u;
    assert(u.len() >= 1 && u.len() <= 5);
    assert(forall|j: int| 0 <= j < u.len() ==> 97 <= #[trigger] (u[j] as u32) <= 122);
    assert forall|i: int| 0 <= i < l.len() implies is_ascii_char(#[trigger] l[i])
        && !is_ascii_upper(l[i]) && !is_ws(l[i]) by {
        if i < n.len() {
            assert(is_digit(n[i]));
        } else {
            assert(l[i] == u[i - n.len()]);
            assert(97 <= (u[i - n.len()] as u32) <= 122);
        }
    }
    assert(all_ascii(l));
    assert(ascii_lower(l) =~= l);
    assert(first_non_ws(l, 0) == 0);
    assert(last_non_ws_end(l, l.len() as int) == l.len());
    assert(l.subrange(0, l.len() as int) =~= l);
    assert(duration_text(l) == l);
    assert(l.last() == u.last());
    if u.len() == 1 {
        assert(l[l.len() - 2] == n[n.len() - 1]);
        assert(is_digit(n[n.len() - 1]));
        assert(l.drop_last() =~= n);
    } else {
        assert(l[l.len() - 2] == u[u.len() - 2]);
    }
    lemma_not_suffix(l, "min"@);
    lemma_not_suffix(l, "mins"@);
    lemma_not_suffix(l, "hour"@);
    lemma_not_suffix(l, "hours"@);
    lemma_not_suffix(l, "day"@);
    lemma_not_suffix(l, "days"@);
    assert(l.skip(n.len() as int) =~= u);
    assert(l.take(n.len() as int) =~= n);
    assert(has_suffix(l, u));
    assert(strip_suffixes(l, u) == strip_suffixes(n, u));
    lemma_strip_digits(n, u);
    lemma_strip_digits(n, "min"@);
    lemma_strip_digits(n, "hour"@);
    lemma_strip_digits(n, "day"@);
    assert(n[0] != '+') by {
        assert(is_digit(n[0]));
    }
    let k = unit_word_seconds(u)->0;
    assert(digits_value(n) <= digits_value(n) * k) by (nonlinear_arith)
        requires
            k >= 1,
    ;
    assert(parse_u64_spec(n) == Some(digits_value(n) as u64));
}

/// A number without a unit is refused: the unit is asked for.
pub proof fn law_number_without_unit_refused(n: Seq<char>)
    requires
        n.len() > 0,
        all_digits(n),
    ensures
        duration_seconds(n) == Err::<u64, Seq<char>>(
            "Invalid duration unit. Use: s, m, h, or d"@,
        ),
{
    reveal_strlit("min");
    reveal_strlit("mins");
    reveal_strlit("hour");
    reveal_strlit("hours");
    reveal_strlit("day");
    reveal_strlit("days");
    assert forall|i: int| 0 <= i < n.len() implies is_ascii_char(#[trigger] n[i])
        && !is_ascii_upper(n[i]) && !is_ws(n[i]) by {
        assert(is_digit(n[i]));
    }
    assert(all_ascii(n));
    assert(ascii_lower(n) =~= n);
    assert(first_non_ws(n, 0) == 0);
    assert(last_non_ws_end(n, n.len() as int) == n.len());
    assert(n.subrange(0, n.len() as int) =~= n);
    assert(duration_text(n) == n);
    assert(is_digit(n.last()));
    if has_suffix(n, "min"@) {
        lemma_suffix_last_two(n, "min"@);
    }
    if has_suffix(n, "mins"@) {
        lemma_suffix_last_two(n, "mins"@);
    }
    if has_suffix(n, "hour"@) {
        lemma_suffix_last_two(n, "hour"@);
    }
    if has_suffix(n, "hours"@) {
        lemma_suffix_last_two(n, "hours"@);
    }
    if has_suffix(n, "day"@) {
        lemma_suffix_last_two(n, "day"@);
    }
    if has_suffix(n, "days"@) {
        lemma_suffix_last_two(n, "days"@);
    }
}

/// Reads a duration such as `10m`, `2h`, `1d`, `30s`, `5min`, `2hours` or
/// `3days` as a number of seconds.  Surrounding whitespace and case are
/// ignored.
pub fn parse_duration(s: &str) -> (r: Result<u64, Error>)
    requires
        !duration_faults(s@),
    ensures
        match duration_seconds(s@) {
            Ok(n) => r == Ok::<u64, Error>(n),
            Err(m) => r is Err && r->Err_0 is Other && r->Err_0->Other_0@ == m,
        },
{
    proof {
        reveal_strlit("min");
        reveal_strlit("mins");
        reveal_strlit("hour");
        reveal_strlit("hours");
        reveal_strlit("day");
        reveal_strlit("days");
    }
    let cs = chars_of(s);
    let trimmed = trim(cs.as_slice());
    let ts = string_of(trimmed.as_slice());
    let lower = to_lowercase(ts.as_str());
    let l = chars_of(lower.as_str());
    if l.len() == 0 {
        return Err(Error::Other(string_from("Duration cannot be empty")));
    }
    let (num, mult): (Vec<char>, u64) = if ends_with_lit(l.as_slice(), "min") || ends_with_lit(
        l.as_slice(),
        "mins",
    ) {
        (strip_unit(l.as_slice(), "mins", "min"), 60)
    } else if ends_with_lit(l.as_slice(), "hour") || ends_with_lit(l.as_slice(), "hours") {
        (strip_unit(l.as_slice(), "hours", "hour"), 3600)
    } else if ends_with_lit(l.as_slice(), "day") || ends_with_lit(l.as_slice(), "days") {
        (strip_unit(l.as_slice(), "days", "day"), 86400)
    } else {
        let last = l[l.len() - 1];
        let mut num = copy_chars(l.as_slice());
        num.truncate(l.len() - 1);
        assert(num@ == l@.drop_last());
        if last == 's' {
            (num, 1)
        } else if last == 'm' {
            (num, 60)
        } else if last == 'h' {
            (num, 3600)
        } else if last == 'd' {
            (num, 86400)
        } else {
            return Err(Error::Other(string_from("Invalid duration unit. Use: s, m, h, or d")));
        }
    };
    let num_str = string_of(num.as_slice());
    match parse_u64(num_str.as_str()) {
        None => {
            let mut m = string_from("Invalid number: ");
            m.append(num_str.as_str());
            Err(Error::Other(m))
        },
        Some(n) => {
            assert(n * mult <= u64::MAX);
            Ok(n * mult)
        },
    }
}

/// Reads a duration as `parse_duration` does, but first tests whether
/// reading it would fail outright (see `duration_faults`); `None` then.
pub fn parse_duration_checked(s: &str) -> (r: Option<Result<u64, Error>>)
    ensures
        r is None <==> duration_faults(s@),
        r matches Some(res) ==> match duration_seconds(s@) {
            Ok(n) => res == Ok::<u64, Error>(n),
            Err(m) => res is Err && res->Err_0 is Other && res->Err_0->Other_0@ == m,
        },
{
    if duration_faults_exec(s) {
        None
    } else {
        Some(parse_duration(s))
    }
}

/// Whether reading the duration `s` fails outright.
pub fn duration_faults_exec(s: &str) -> (r: bool)
    ensures
        r == duration_faults(s@),
{
    proof {
        reveal_strlit("min");
        reveal_strlit("mins");
        reveal_strlit("hour");
        reveal_strlit("hours");
        reveal_strlit("day");
        reveal_strlit("days");
    }
    let cs = chars_of(s);
    let trimmed = trim(cs.as_slice());
    let ts = string_of(trimmed.as_slice());
    let lower = to_lowercase(ts.as_str());
    let l = chars_of(lower.as_str());
    if l.len() == 0 {
        return false;
    }
    let (num, mult): (Vec<char>, u64) = if ends_with_lit(l.as_slice(), "min") || ends_with_lit(
        l.as_slice(),
        "mins",
    ) {
        (strip_unit(l.as_slice(), "mins", "min"), 60)
    } else if ends_with_lit(l.as_slice(), "hour") || ends_with_lit(l.as_slice(), "hours") {
        (strip_unit(l.as_slice(), "hours", "hour"), 3600)
    } else if ends_with_lit(l.as_slice(), "day") || ends_with_lit(l.as_slice(), "days") {
        (strip_unit(l.as_slice(), "days", "day"), 86400)
    } else {
        let last = l[l.len() - 1];
        if (last as u32) >= 128 {
            return true;
        }
        let mut num = copy_chars(l.as_slice());
        num.truncate(l.len() - 1);
        assert(num@ == l@.drop_last());
        if last == 's' {
            (num, 1)
        } else if last == 'm' {
            (num, 60)
        } else if last == 'h' {
            (num, 3600)
        } else if last == 'd' {
            (num, 86400)
        } else {
            return false;
        }
    };
    let num_str = string_of(num.as_slice());
    match parse_u64(num_str.as_str()) {
        None => false,
        Some(n) => n.checked_mul(mult).is_none(),
    }
}

} // verus!
