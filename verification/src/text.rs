//! Character and string helpers shared by the parsers.
//!
//! Strings are handled through their view, the sequence of their
//! characters.  Unicode properties (case mapping, whitespace, alphanumerics)
//! come from the standard library and are named here; for ASCII characters
//! their meaning is spelled out.

use vstd::prelude::*;
use vstd::string::StringSliceAdditionalSpecFns;

verus! {

// ---------------------------------------------------------------------------
// ASCII facts
// ---------------------------------------------------------------------------

/// Whether `c` is an ASCII character.
pub open spec fn is_ascii_char(c: char) -> bool {
    (c as u32) < 128
}

/// Whether every character of `s` is ASCII.
pub open spec fn all_ascii(s: Seq<char>) -> bool {
    forall|i: int| 0 <= i < s.len() ==> is_ascii_char(#[trigger] s[i])
}

/// Whether `c` is an ASCII upper-case letter.
pub open spec fn is_ascii_upper(c: char) -> bool {
    65 <= (c as u32) <= 90
}

/// The ASCII lower-case of one character (other characters are unchanged).
pub open spec fn ascii_lower_char(c: char) -> char {
    if is_ascii_upper(c) {
        ((c as u32) + 32) as char
    } else {
        c
    }
}

/// The ASCII lower-case of a sequence of characters.
pub open spec fn ascii_lower(s: Seq<char>) -> Seq<char> {
    s.map_values(|c: char| ascii_lower_char(c))
}

/// The ASCII whitespace characters: tab, line feed, vertical tab, form feed,
/// carriage return and space.
pub open spec fn is_ascii_ws(c: char) -> bool {
    ||| 9 <= (c as u32) <= 13
    ||| (c as u32) == 32
}

/// The ASCII letters and digits.
pub open spec fn is_ascii_alnum(c: char) -> bool {
    ||| 48 <= (c as u32) <= 57
    ||| 65 <= (c as u32) <= 90
    ||| 97 <= (c as u32) <= 122
}

/// Whether `c` is an ASCII decimal digit.
pub open spec fn is_digit(c: char) -> bool {
    48 <= (c as u32) <= 57
}

// ---------------------------------------------------------------------------
// Unicode properties from the standard library
// ---------------------------------------------------------------------------

/// What `str::to_lowercase` returns for a string with these characters.
pub uninterp spec fn lowercase_of(s: Seq<char>) -> Seq<char>;

/// What `char::is_whitespace` returns.
pub uninterp spec fn char_is_ws(c: char) -> bool;

/// What `char::is_alphanumeric` returns.
pub uninterp spec fn char_is_alnum(c: char) -> bool;

/// `str::to_lowercase`: the Unicode lower-case of `s`.  The standard library
/// documents it as the `Lowercase` mapping of each character, which for an
/// all-ASCII string is the ASCII lower-case; on other strings the result is
/// left to the name `lowercase_of`.
#[verifier::external_body]
fn std_to_lowercase(s: &str) -> (r: String)
    ensures
        r@ == lowercase_of(s@),
        all_ascii(s@) ==> r@ == ascii_lower(s@),
{
    s.to_lowercase()
}

/// `char::is_whitespace`: whether `c` has the Unicode `White_Space`
/// property.  For ASCII characters these are tab, line feed, vertical tab,
/// form feed, carriage return and space.
#[verifier::external_body]
fn std_is_whitespace(c: char) -> (r: bool)
    ensures
        r == char_is_ws(c),
        is_ascii_char(c) ==> (r <==> is_ascii_ws(c)),
{
    c.is_whitespace()
}

/// `char::is_alphanumeric`: whether `c` is alphabetic or numeric in
/// Unicode.  For ASCII characters these are exactly the letters and digits.
#[verifier::external_body]
fn std_is_alphanumeric(c: char) -> (r: bool)
    ensures
        r == char_is_alnum(c),
        is_ascii_char(c) ==> (r <==> is_ascii_alnum(c)),
{
    c.is_alphanumeric()
}

/// The lower-case of a text: the ASCII lower-case for an all-ASCII text,
/// the Unicode one otherwise.
pub open spec fn lower_text(s: Seq<char>) -> Seq<char> {
    if all_ascii(s) {
        ascii_lower(s)
    } else {
        lowercase_of(s)
    }
}

/// Whether `c` is whitespace (Unicode `White_Space`).
pub open spec fn is_ws(c: char) -> bool {
    if is_ascii_char(c) {
        is_ascii_ws(c)
    } else {
        char_is_ws(c)
    }
}

/// Whether `c` is alphabetic or numeric in Unicode.
pub open spec fn is_alnum(c: char) -> bool {
    if is_ascii_char(c) {
        is_ascii_alnum(c)
    } else {
        char_is_alnum(c)
    }
}

/// The lower-case of `s`, as `str::to_lowercase` gives it.
pub fn to_lowercase(s: &str) -> (r: String)
    ensures
        r@ == lower_text(s@),
{
    std_to_lowercase(s)
}

/// Whether `c` is whitespace, as `char::is_whitespace` decides.
pub fn is_whitespace(c: char) -> (r: bool)
    ensures
        r == is_ws(c),
{
    std_is_whitespace(c)
}

/// Whether `c` is alphabetic or numeric, as `char::is_alphanumeric`
/// decides.
pub fn is_alphanumeric(c: char) -> (r: bool)
    ensures
        r == is_alnum(c),
{
    std_is_alphanumeric(c)
}

/// The number of bytes of the UTF-8 encoding of `s`.
pub(crate) fn byte_len(s: &str) -> (r: usize)
    ensures
        r as int == vstd::utf8::encode_utf8(s@).len(),
{
    proof {
        assert(s.spec_bytes() == vstd::utf8::encode_utf8(s@));
    }
    s.as_bytes().len()
}

/// `String::push`: appends one character.
#[verifier::external_body]
pub(crate) fn push_char(s: &mut String, c: char)
    ensures
        final(s)@ == old(s)@.push(c),
{
    s.push(c)
}

// ---------------------------------------------------------------------------
// Decimal numbers
// ---------------------------------------------------------------------------

/// The character of a decimal digit `0 <= d < 10`.
pub open spec fn digit_char(d: int) -> char {
    (d + 48) as char
}

/// The decimal digits of a natural number, without leading zeros.
pub open spec fn nat_decimal(n: nat) -> Seq<char>
    decreases n,
{
    if n < 10 {
        seq![digit_char(n as int)]
    } else {
        nat_decimal(n / 10).push(digit_char((n % 10) as int))
    }
}

/// The decimal text of an integer, with a leading `-` when negative.
pub open spec fn decimal(n: int) -> Seq<char> {
    if n < 0 {
        seq!['-'] + nat_decimal((-n) as nat)
    } else {
        nat_decimal(n as nat)
    }
}

/// `i64::to_string`: the decimal text of `n`.
#[verifier::external_body]
pub(crate) fn decimal_string(n: i64) -> (r: String)
    ensures
        r@ == decimal(n as int),
{
    n.to_string()
}

/// Whether every character of `s` is a decimal digit.
pub open spec fn all_digits(s: Seq<char>) -> bool {
    forall|i: int| 0 <= i < s.len() ==> is_digit(#[trigger] s[i])
}

/// The value of a sequence of decimal digits.
pub open spec fn digits_value(s: Seq<char>) -> nat
    decreases s.len(),
{
    if s.len() == 0 {
        0
    } else {
        digits_value(s.drop_last()) * 10 + ((s.last() as u32) - 48) as nat
    }
}

/// What `str::parse::<u64>` gives: an optional `+` followed by at least one
/// decimal digit, and a value that fits.
pub open spec fn parse_u64_spec(s: Seq<char>) -> Option<u64> {
    let body = if s.len() > 0 && s[0] == '+' { s.skip(1) } else { s };
    if body.len() > 0 && all_digits(body) && digits_value(body) <= u64::MAX {
        Some(digits_value(body) as u64)
    } else {
        None
    }
}

/// What `str::parse::<i32>` gives: an optional `+` or `-` followed by at
/// least one decimal digit, and a value in the range of `i32`.
pub open spec fn parse_i32_spec(s: Seq<char>) -> Option<i32> {
    let neg = s.len() > 0 && s[0] == '-';
    let body = if s.len() > 0 && (s[0] == '+' || s[0] == '-') { s.skip(1) } else { s };
    let v: int = if neg { -(digits_value(body) as int) } else { digits_value(body) as int };
    if body.len() > 0 && all_digits(body) && i32::MIN <= v <= i32::MAX {
        Some(v as i32)
    } else {
        None
    }
}

/// `str::parse::<u64>`.  The standard library documents the accepted form:
/// an optional `+` sign followed by only ASCII digits, whose value fits.
#[verifier::external_body]
pub(crate) fn parse_u64(s: &str) -> (r: Option<u64>)
    ensures
        r == parse_u64_spec(s@),
{
    s.parse::<u64>().ok()
}

/// `str::parse::<i32>`.  The standard library documents the accepted form:
/// an optional `+` or `-` sign followed by only ASCII digits, whose value
/// fits.
#[verifier::external_body]
pub(crate) fn parse_i32(s: &str) -> (r: Option<i32>)
    ensures
        r == parse_i32_spec(s@),
{
    s.parse::<i32>().ok()
}

// ---------------------------------------------------------------------------
// Sequences of characters
// ---------------------------------------------------------------------------

/// Whether `p` is a prefix of `s`.
pub open spec fn has_prefix(s: Seq<char>, p: Seq<char>) -> bool {
    p.len() <= s.len() && s.take(p.len() as int) == p
}

/// Whether `p` is a suffix of `s`.
pub open spec fn has_suffix(s: Seq<char>, p: Seq<char>) -> bool {
    p.len() <= s.len() && s.skip(s.len() - p.len()) == p
}

/// The characters of `s`, in order.
pub fn chars_of(s: &str) -> (v: Vec<char>)
    ensures
        v@ == s@,
{
    let mut v: Vec<char> = Vec::new();
    for c in it: s.chars()
        invariant
            v@ == it.seq().take(it.index() as int),
            it.seq() == s@,
    {
        v.push(c);
    }
    v
}

/// A vector with the characters of `v`.
pub fn copy_chars(v: &[char]) -> (r: Vec<char>)
    ensures
        r@ == v@,
{
    let mut r: Vec<char> = Vec::new();
    let mut i: usize = 0;
    while i < v.len()
        invariant
            i <= v@.len(),
            r@ == v@.take(i as int),
        decreases v@.len() - i,
    {
        r.push(v[i]);
        assert(v@.take(i as int).push(v@[i as int]) == v@.take(i + 1));
        i = i + 1;
    }
    assert(v@.take(v@.len() as int) == v@);
    r
}

/// A string made of the characters `v`.
pub fn string_of(v: &[char]) -> (s: String)
    ensures
        s@ == v@,
{
    let mut s = String::new();
    let mut i: usize = 0;
    while i < v.len()
        invariant
            i <= v@.len(),
            s@ == v@.take(i as int),
        decreases v@.len() - i,
    {
        push_char(&mut s, v[i]);
        assert(v@.take(i as int).push(v@[i as int]) == v@.take(i + 1));
        i = i + 1;
    }
    assert(v@.take(v@.len() as int) == v@);
    s
}

/// A string with the characters of the literal or slice `t`.
pub fn string_from(t: &str) -> (s: String)
    ensures
        s@ == t@,
{
    t.to_owned()
}

/// Whether the two slices hold the same characters.
pub fn str_eq(a: &str, b: &str) -> (r: bool)
    ensures
        r == (a@ == b@),
{
    let x = string_from(a);
    let y = string_from(b);
    x == y
}

/// Whether `p` is a prefix of `s`.
pub fn starts_with(s: &[char], p: &[char]) -> (r: bool)
    ensures
        r == has_prefix(s@, p@),
{
    if p.len() > s.len() {
        return false;
    }
    let mut i: usize = 0;
    while i < p.len()
        invariant
            p@.len() <= s@.len(),
            i <= p@.len(),
            forall|j: int| 0 <= j < i ==> s@[j] == p@[j],
        decreases p@.len() - i,
    {
        if s[i] != p[i] {
            assert(s@.take(p@.len() as int)[i as int] != p@[i as int]);
            return false;
        }
        i = i + 1;
    }
    assert(s@.take(p@.len() as int) =~= p@);
    true
}

/// Whether `p` is a suffix of `s`.
pub fn ends_with(s: &[char], p: &[char]) -> (r: bool)
    ensures
        r == has_suffix(s@, p@),
{
    if p.len() > s.len() {
        return false;
    }
    let n = s.len();
    let off = n - p.len();
    let mut i: usize = 0;
    while i < p.len()
        invariant
            n == s@.len(),
            p@.len() <= s@.len(),
            off + p@.len() == s@.len(),
            i <= p@.len(),
            forall|j: int| 0 <= j < i ==> s@[off + j] == p@[j],
        decreases p@.len() - i,
    {
        if s[off + i] != p[i] {
            assert(s@.skip(off as int)[i as int] != p@[i as int]);
            return false;
        }
        i = i + 1;
    }
    assert(s@.skip(off as int) =~= p@);
    true
}

/// The words of `s` separated by whitespace, as `str::split_whitespace`
/// yields them, collected from position `i` on, the current unfinished word
/// being `cur`.
pub open spec fn ws_words_from(s: Seq<char>, i: int, cur: Seq<char>) -> Seq<Seq<char>>
    decreases s.len() - i,
{
    if i >= s.len() {
        if cur.len() > 0 {
            seq![cur]
        } else {
            seq![]
        }
    } else if is_ws(s[i]) {
        if cur.len() > 0 {
            seq![cur] + ws_words_from(s, i + 1, seq![])
        } else {
            ws_words_from(s, i + 1, seq![])
        }
    } else {
        ws_words_from(s, i + 1, cur.push(s[i]))
    }
}

/// The whitespace-separated words of `s`.
pub open spec fn ws_words(s: Seq<char>) -> Seq<Seq<char>> {
    ws_words_from(s, 0, seq![])
}

/// Reading words from `x + y` past `x` is reading them from `y`.
proof fn lemma_words_shift(x: Seq<char>, y: Seq<char>, j: int, cur: Seq<char>)
    requires
        0 <= j <= y.len(),
    ensures
        ws_words_from(x + y, x.len() + j, cur) == ws_words_from(y, j, cur),
    decreases y.len() - j,
{
    if j < y.len() {
        assert((x + y)[x.len() + j] == y[j]);
        if is_ws(y[j]) {
            lemma_words_shift(x, y, j + 1, seq![]);
        } else {
            lemma_words_shift(x, y, j + 1, cur.push(y[j]));
        }
    }
}

/// A run of characters that are not whitespace joins the current word.
proof fn lemma_words_run(s: Seq<char>, i: int, n: int, cur: Seq<char>)
    requires
        0 <= i <= n <= s.len(),
        forall|k: int| i <= k < n ==> !is_ws(#[trigger] s[k]),
    ensures
        ws_words_from(s, i, cur) == ws_words_from(s, n, cur + s.subrange(i, n)),
    decreases n - i,
{
    if i < n {
        lemma_words_run(s, i + 1, n, cur.push(s[i]));
        assert(cur.push(s[i]) + s.subrange(i + 1, n) =~= cur + s.subrange(i, n));
    } else {
        assert(cur + s.subrange(i, n) =~= cur);
    }
}

/// Whether no character of `s` is whitespace.
pub open spec fn no_ws(s: Seq<char>) -> bool {
    forall|k: int| 0 <= k < s.len() ==> !is_ws(#[trigger] s[k])
}

/// A word followed by a space and more text: the word, then the words of
/// the rest.
pub(crate) proof fn lemma_words_cons(x: Seq<char>, y: Seq<char>)
    requires
        x.len() > 0,
        no_ws(x),
    ensures
        ws_words(x + seq![' '] + y) == seq![x] + ws_words(y),
{
    let s = x + seq![' '] + y;
    assert forall|k: int| 0 <= k < x.len() implies !is_ws(#[trigger] s[k]) by {
        assert(s[k] == x[k]);
    }
    lemma_words_run(s, 0, x.len() as int, seq![]);
    assert(Seq::<char>::empty() + s.subrange(0, x.len() as int) =~= x);
    assert(s[x.len() as int] == ' ');
    assert(is_ws(' '));
    lemma_words_shift(x + seq![' '], y, 0, seq![]);
    assert(s =~= (x + seq![' ']) + y);
}

/// A single word is its only word.
pub(crate) proof fn lemma_words_single(x: Seq<char>)
    requires
        x.len() > 0,
        no_ws(x),
    ensures
        ws_words(x) == seq![x],
{
    lemma_words_run(x, 0, x.len() as int, seq![]);
    assert(Seq::<char>::empty() + x.subrange(0, x.len() as int) =~= x);
}

/// The decimal digits of a natural number are digits, read back as it.
pub(crate) proof fn lemma_nat_decimal(n: nat)
    ensures
        nat_decimal(n).len() > 0,
        all_digits(nat_decimal(n)),
        digits_value(nat_decimal(n)) == n,
    decreases n,
{
    if n >= 10 {
        lemma_nat_decimal(n / 10);
        let s = nat_decimal(n);
        assert(s.drop_last() =~= nat_decimal(n / 10));
        let d = (n % 10) as int;
        assert((digit_char(d) as u32) == d + 48);
        assert(s.last() == digit_char(d));
        vstd::arithmetic::div_mod::lemma_fundamental_div_mod(n as int, 10);
        assert(digits_value(s) == digits_value(s.drop_last()) * 10 + ((s.last() as u32) - 48) as nat);
        assert(digits_value(s) == (n / 10) * 10 + d);
        assert(digits_value(s) == n);
    } else {
        assert((digit_char(n as int) as u32) == n + 48);
        let s = nat_decimal(n);
        assert(s.drop_last() =~= Seq::<char>::empty());
        assert(digits_value(s.drop_last()) == 0);
        assert(digits_value(s) == digits_value(s.drop_last()) * 10 + ((s.last() as u32) - 48) as nat);
        assert(digits_value(s) == n);
    }
}

/// The decimal text of an `i32` reads back as it, and holds no whitespace.
pub(crate) proof fn lemma_decimal_parses(n: i32)
    ensures
        parse_i32_spec(decimal(n as int)) == Some(n),
        decimal(n as int).len() > 0,
        no_ws(decimal(n as int)),
{
    if n < 0 {
        let m = (-(n as int)) as nat;
        lemma_nat_decimal(m);
        let s = decimal(n as int);
        assert(s.skip(1) =~= nat_decimal(m));
        assert forall|k: int| 0 <= k < s.len() implies !is_ws(#[trigger] s[k]) by {
            if k > 0 {
                assert(s[k] == nat_decimal(m)[k - 1]);
                assert(is_digit(nat_decimal(m)[k - 1]));
            }
        }
    } else {
        let m = n as nat;
        lemma_nat_decimal(m);
        let s = decimal(n as int);
        assert(is_digit(s[0]));
        assert forall|k: int| 0 <= k < s.len() implies !is_ws(#[trigger] s[k]) by {
            assert(is_digit(s[k]));
        }
    }
}

/// The character sequences held by a vector of character vectors.
pub open spec fn seqs_of(w: Seq<Vec<char>>) -> Seq<Seq<char>> {
    w.map_values(|x: Vec<char>| x@)
}

/// Splits `s` into its whitespace-separated words.
pub fn split_whitespace(s: &[char]) -> (words: Vec<Vec<char>>)
    ensures
        seqs_of(words@) == ws_words(s@),
{
    let mut words: Vec<Vec<char>> = Vec::new();
    let mut cur: Vec<char> = Vec::new();
    let mut i: usize = 0;
    while i < s.len()
        invariant
            i <= s@.len(),
            seqs_of(words@) + ws_words_from(s@, i as int, cur@) == ws_words(s@),
        decreases s@.len() - i,
    {
        let c = s[i];
        if is_whitespace(c) {
            if cur.len() > 0 {
                let ghost old_words = seqs_of(words@);
                let ghost old_cur = cur@;
                words.push(cur);
                cur = Vec::new();
                assert(seqs_of(words@) =~= old_words.push(old_cur));
                assert(old_words + (seq![old_cur] + ws_words_from(s@, i + 1, seq![]))
                    =~= old_words.push(old_cur) + ws_words_from(s@, i + 1, seq![]));
            }
            assert(cur@ =~= Seq::<char>::empty());
        } else {
            cur.push(c);
        }
        i = i + 1;
    }
    if cur.len() > 0 {
        let ghost old_words = seqs_of(words@);
        let ghost old_cur = cur@;
        words.push(cur);
        assert(seqs_of(words@) =~= old_words.push(old_cur));
        assert(old_words + seq![old_cur] =~= old_words.push(old_cur));
    } else {
        assert(seqs_of(words@) + Seq::<Seq<char>>::empty() =~= seqs_of(words@));
    }
    words
}

/// The index of the first non-whitespace character of `s` at or after `i`,
/// or `s.len()`.
pub open spec fn first_non_ws(s: Seq<char>, i: int) -> int
    decreases s.len() - i,
{
    if i >= s.len() || !is_ws(s[i]) {
        i
    } else {
        first_non_ws(s, i + 1)
    }
}

/// The index just past the last non-whitespace character of `s` before
/// `j`, or `0`.
pub open spec fn last_non_ws_end(s: Seq<char>, j: int) -> int
    decreases j,
{
    if j <= 0 || !is_ws(s[j - 1]) {
        j
    } else {
        last_non_ws_end(s, j - 1)
    }
}

/// `s` without its leading and trailing whitespace, as `str::trim` gives it.
pub open spec fn trim_ws(s: Seq<char>) -> Seq<char> {
    let a = first_non_ws(s, 0);
    if a >= s.len() {
        seq![]
    } else {
        s.subrange(a, last_non_ws_end(s, s.len() as int))
    }
}

proof fn lemma_first_non_ws_bounds(s: Seq<char>, i: int)
    requires
        0 <= i <= s.len(),
    ensures
        i <= first_non_ws(s, i) <= s.len(),
        first_non_ws(s, i) < s.len() ==> !is_ws(s[first_non_ws(s, i)]),
    decreases s.len() - i,
{
    if i < s.len() && is_ws(s[i]) {
        lemma_first_non_ws_bounds(s, i + 1);
    }
}

proof fn lemma_last_non_ws_bounds(s: Seq<char>, j: int, a: int)
    requires
        0 <= a < j <= s.len(),
        !is_ws(s[a]),
    ensures
        a < last_non_ws_end(s, j) <= j,
    decreases j,
{
    if is_ws(s[j - 1]) {
        lemma_last_non_ws_bounds(s, j - 1, a);
    }
}

/// `s` without its leading and trailing whitespace.
pub fn trim(s: &[char]) -> (r: Vec<char>)
    ensures
        r@ == trim_ws(s@),
{
    let mut a: usize = 0;
    while a < s.len() && is_whitespace(s[a])
        invariant
            a <= s@.len(),
            first_non_ws(s@, a as int) == first_non_ws(s@, 0),
        decreases s@.len() - a,
    {
        a = a + 1;
    }
    proof {
        lemma_first_non_ws_bounds(s@, 0);
    }
    let mut r: Vec<char> = Vec::new();
    if a >= s.len() {
        return r;
    }
    let mut b: usize = s.len();
    while b > 0 && is_whitespace(s[b - 1])
        invariant
            b <= s@.len(),
            last_non_ws_end(s@, b as int) == last_non_ws_end(s@, s@.len() as int),
        decreases b,
    {
        b = b - 1;
    }
    proof {
        lemma_last_non_ws_bounds(s@, s@.len() as int, a as int);
    }
    let mut i: usize = a;
    while i < b
        invariant
            a <= i <= b <= s@.len(),
            r@ == s@.subrange(a as int, i as int),
        decreases b - i,
    {
        r.push(s[i]);
        assert(s@.subrange(a as int, i as int).push(s@[i as int]) =~= s@.subrange(
            a as int,
            i + 1,
        ));
        i = i + 1;
    }
    r
}

/// Whether `a` and `b` are equal up to ASCII case, as
/// `str::eq_ignore_ascii_case` decides.
pub open spec fn eq_ascii_nocase(a: Seq<char>, b: Seq<char>) -> bool {
    a.len() == b.len() && forall|i: int|
        0 <= i < a.len() ==> ascii_lower_char(#[trigger] a[i]) == ascii_lower_char(b[i])
}

/// The ASCII lower-case of one character, as a number.
fn lower_code(c: char) -> (r: u32)
    ensures
        r == ascii_lower_char(c) as u32,
{
    let n = c as u32;
    if 65 <= n && n <= 90 {
        n + 32
    } else {
        n
    }
}

/// Whether `a` and `b` are equal up to ASCII case.
pub fn eq_ignore_ascii_case(a: &[char], b: &[char]) -> (r: bool)
    ensures
        r == eq_ascii_nocase(a@, b@),
{
    if a.len() != b.len() {
        return false;
    }
    let mut i: usize = 0;
    while i < a.len()
        invariant
            a@.len() == b@.len(),
            i <= a@.len(),
            forall|j: int| 0 <= j < i ==> ascii_lower_char(#[trigger] a@[j]) == ascii_lower_char(
                b@[j],
            ),
        decreases a@.len() - i,
    {
        if lower_code(a[i]) != lower_code(b[i]) {
            return false;
        }
        i = i + 1;
    }
    true
}

} // verus!
