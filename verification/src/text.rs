//! Character-level text handling: whitespace trimming, ASCII case folding,
//! substring search, and decimal/hexadecimal number rendering and parsing.
use vstd::prelude::*;

verus! {

/// Appends one character to a string.
///
/// Trusted: calls `String::push`, which std documents as appending the
/// given `char` to the end of the string.
#[verifier::external_body]
pub(crate) fn push_char(s: &mut String, c: char)
    ensures
        final(s)@ == old(s)@.push(c),
{
    s.push(c);
}

/// The characters of `s`, in order.
pub fn chars_of(s: &str) -> (v: Vec<char>)
    ensures
        v@ == s@,
{
    let mut v: Vec<char> = Vec::new();
    for c in it: s.chars()
        invariant
            v@ == it.seq().take(it.index()),
    {
        v.push(c);
    }
    v
}

/// A string holding exactly the characters `v[from..to]`.
pub fn string_from_chars(v: &Vec<char>, from: usize, to: usize) -> (s: String)
    requires
        from <= to <= v@.len(),
    ensures
        s@ == v@.subrange(from as int, to as int),
{
    let mut s = String::new();
    let mut i = from;
    while i < to
        invariant
            from <= i <= to <= v@.len(),
            s@ == v@.subrange(from as int, i as int),
        decreases to - i,
    {
        push_char(&mut s, v[i]);
        assert(v@.subrange(from as int, i + 1) == v@.subrange(from as int, i as int).push(v@[i as int]));
        i = i + 1;
    }
    s
}

/// The concatenation of two strings.
pub fn concat(a: &str, b: &str) -> (s: String)
    ensures
        s@ == a@ + b@,
{
    let mut s = String::from_str(a);
    s.append(b);
    s
}

/// Unicode `White_Space` characters, the set that `char::is_whitespace` accepts.
pub open spec fn is_space(c: char) -> bool {
    ||| ('\u{9}' <= c && c <= '\u{d}')
    ||| c == ' '
    ||| c == '\u{85}'
    ||| c == '\u{a0}'
    ||| c == '\u{1680}'
    ||| ('\u{2000}' <= c && c <= '\u{200a}')
    ||| c == '\u{2028}'
    ||| c == '\u{2029}'
    ||| c == '\u{202f}'
    ||| c == '\u{205f}'
    ||| c == '\u{3000}'
}

/// Whether `c` is Unicode whitespace.
pub fn is_space_char(c: char) -> (b: bool)
    ensures
        b == is_space(c),
{
    ('\u{9}' <= c && c <= '\u{d}') || c == ' ' || c == '\u{85}' || c == '\u{a0}' || c
        == '\u{1680}' || ('\u{2000}' <= c && c <= '\u{200a}') || c == '\u{2028}' || c
        == '\u{2029}' || c == '\u{202f}' || c == '\u{205f}' || c == '\u{3000}'
}

/// `s` without its leading whitespace.
pub open spec fn trim_start_seq(s: Seq<char>) -> Seq<char>
    decreases s.len(),
{
    if s.len() > 0 && is_space(s[0]) {
        trim_start_seq(s.subrange(1, s.len() as int))
    } else {
        s
    }
}

/// `s` without its trailing whitespace.
pub open spec fn trim_end_seq(s: Seq<char>) -> Seq<char>
    decreases s.len(),
{
    if s.len() > 0 && is_space(s[s.len() - 1]) {
        trim_end_seq(s.subrange(0, s.len() - 1))
    } else {
        s
    }
}

/// `s` without leading and trailing whitespace, as `str::trim` gives it.
pub open spec fn trim_seq(s: Seq<char>) -> Seq<char> {
    trim_end_seq(trim_start_seq(s))
}

/// Whether every character of `s` is whitespace.
pub open spec fn is_blank(s: Seq<char>) -> bool {
    forall|i: int| 0 <= i < s.len() ==> is_space(#[trigger] s[i])
}

proof fn lemma_trim_start_skip(s: Seq<char>, i: int)
    requires
        0 <= i <= s.len(),
        forall|k: int| 0 <= k < i ==> is_space(#[trigger] s[k]),
    ensures
        trim_start_seq(s) == trim_start_seq(s.subrange(i, s.len() as int)),
    decreases i,
{
    if i > 0 {
        let t = s.subrange(1, s.len() as int);
        assert forall|k: int| 0 <= k < i - 1 implies is_space(#[trigger] t[k]) by {
            assert(t[k] == s[k + 1]);
        }
        lemma_trim_start_skip(t, i - 1);
        assert(t.subrange(i - 1, t.len() as int) == s.subrange(i, s.len() as int));
    } else {
        assert(s.subrange(0, s.len() as int) == s);
    }
}

proof fn lemma_trim_end_skip(s: Seq<char>, j: int)
    requires
        0 <= j <= s.len(),
        forall|k: int| j <= k < s.len() ==> is_space(#[trigger] s[k]),
    ensures
        trim_end_seq(s) == trim_end_seq(s.subrange(0, j)),
    decreases s.len() - j,
{
    if j < s.len() {
        let t = s.subrange(0, s.len() - 1);
        assert forall|k: int| j <= k < t.len() implies is_space(#[trigger] t[k]) by {
            assert(t[k] == s[k]);
        }
        lemma_trim_end_skip(t, j);
        assert(t.subrange(0, j) == s.subrange(0, j));
    } else {
        assert(s.subrange(0, j) == s);
    }
}

/// Bounds of the trimmed part of `v`: `v[start..end]` is `trim_seq(v@)`.
pub fn trim_bounds(v: &Vec<char>) -> (r: (usize, usize))
    ensures
        r.0 <= r.1 <= v@.len(),
        v@.subrange(r.0 as int, r.1 as int) == trim_seq(v@),
        (r.0 == r.1) == is_blank(v@),
{
    let n = v.len();
    let mut i: usize = 0;
    while i < n && is_space_char(v[i])
        invariant
            i <= n == v@.len(),
            forall|k: int| 0 <= k < i ==> is_space(#[trigger] v@[k]),
        decreases n - i,
    {
        i = i + 1;
    }
    let mut j: usize = n;
    while j > i && is_space_char(v[j - 1])
        invariant
            i <= j <= n == v@.len(),
            forall|k: int| j <= k < n ==> is_space(#[trigger] v@[k]),
        decreases j - i,
    {
        j = j - 1;
    }
    proof {
        lemma_trim_start_skip(v@, i as int);
        let t = v@.subrange(i as int, n as int);
        assert(trim_start_seq(t) == t);
        assert forall|k: int| j - i <= k < t.len() implies is_space(#[trigger] t[k]) by {
            assert(t[k] == v@[k + i]);
        }
        lemma_trim_end_skip(t, j - i);
        let u = t.subrange(0, j - i);
        assert(u == v@.subrange(i as int, j as int));
        assert(trim_end_seq(u) == u);
        if i == j {
            assert forall|k: int| 0 <= k < v@.len() implies is_space(#[trigger] v@[k]) by {}
        } else {
            assert(!is_space(v@[i as int]));
        }
    }
    (i, j)
}

/// `s` without leading and trailing whitespace (`str::trim`).
pub fn trim(s: &str) -> (t: String)
    ensures
        t@ == trim_seq(s@),
{
    let v = chars_of(s);
    let (a, b) = trim_bounds(&v);
    string_from_chars(&v, a, b)
}

/// Whether `s` is empty or made only of whitespace (`s.trim().is_empty()`).
pub fn is_blank_str(s: &str) -> (b: bool)
    ensures
        b == is_blank(s@),
        b == (trim_seq(s@).len() == 0),
{
    let v = chars_of(s);
    let (a, b) = trim_bounds(&v);
    a == b
}


/// `c` with `A`..`Z` mapped to `a`..`z` (`char::to_ascii_lowercase`).
pub open spec fn ascii_lower(c: char) -> char {
    if 'A' <= c && c <= 'Z' {
        ((c as u32) + 32) as char
    } else {
        c
    }
}

/// `s` with every ASCII capital letter lowered.
pub open spec fn ascii_lower_seq(s: Seq<char>) -> Seq<char> {
    s.map_values(|c: char| ascii_lower(c))
}

/// `c` lowered, if it is an ASCII capital letter.
pub fn ascii_lower_char(c: char) -> (r: char)
    ensures
        r == ascii_lower(c),
{
    if 'A' <= c && c <= 'Z' {
        let code: u32 = c as u32;
        assert(65 <= code <= 90);
        let lowered: u8 = (code + 32) as u8;
        lowered as char
    } else {
        c
    }
}

/// `v` with every ASCII capital letter lowered.
pub fn ascii_lower_vec(v: &Vec<char>) -> (r: Vec<char>)
    ensures
        r@ == ascii_lower_seq(v@),
{
    let mut r: Vec<char> = Vec::new();
    let mut i: usize = 0;
    while i < v.len()
        invariant
            i <= v@.len(),
            r@ == ascii_lower_seq(v@.subrange(0, i as int)),
        decreases v.len() - i,
    {
        r.push(ascii_lower_char(v[i]));
        assert(ascii_lower_seq(v@.subrange(0, i + 1)) == ascii_lower_seq(v@.subrange(0, i as int)).push(ascii_lower(v@[i as int])));
        i = i + 1;
    }
    assert(v@.subrange(0, v@.len() as int) == v@);
    r
}

/// Whether `needle` occurs in `hay` at position `i`.
pub open spec fn occurs_at(hay: Seq<char>, needle: Seq<char>, i: int) -> bool {
    0 <= i && i + needle.len() <= hay.len() && hay.subrange(i, i + needle.len()) == needle
}

/// Whether `needle` occurs somewhere in `hay` (`str::contains`).
pub open spec fn contains_seq(hay: Seq<char>, needle: Seq<char>) -> bool {
    exists|i: int| occurs_at(hay, needle, i)
}

/// Whether `hay` begins with `prefix` (`str::starts_with`).
pub open spec fn starts_with_seq(hay: Seq<char>, prefix: Seq<char>) -> bool {
    occurs_at(hay, prefix, 0)
}

/// Whether `needle` occurs at position `i` of `hay`.
pub fn occurs_at_vec(hay: &Vec<char>, needle: &Vec<char>, i: usize) -> (b: bool)
    ensures
        b == occurs_at(hay@, needle@, i as int),
{
    if i > hay.len() || needle.len() > hay.len() - i {
        return false;
    }
    let mut k: usize = 0;
    while k < needle.len()
        invariant
            i + needle.len() <= hay.len(),
            k <= needle@.len(),
            forall|m: int| 0 <= m < k ==> hay@[i + m] == needle@[m],
        decreases needle.len() - k,
    {
        if hay[i + k] != needle[k] {
            assert(hay@.subrange(i as int, i + needle@.len())[k as int] != needle@[k as int]);
            return false;
        }
        k = k + 1;
    }
    assert(hay@.subrange(i as int, i + needle@.len()) =~= needle@);
    true
}

/// Whether `needle` occurs in `hay`.
pub fn contains_vec(hay: &Vec<char>, needle: &Vec<char>) -> (b: bool)
    ensures
        b == contains_seq(hay@, needle@),
{
    if needle.len() > hay.len() {
        assert forall|i: int| !occurs_at(hay@, needle@, i) by {}
        return false;
    }
    if needle.len() == 0 {
        assert(hay@.subrange(0, 0) =~= needle@);
        assert(occurs_at(hay@, needle@, 0));
        return true;
    }
    let last = hay.len() - needle.len();
    let mut i: usize = 0;
    while i <= last
        invariant
            last == hay.len() - needle.len(),
            needle.len() >= 1,
            i <= last + 1,
            forall|j: int| 0 <= j < i ==> !occurs_at(hay@, needle@, j),
        decreases last + 1 - i,
    {
        if occurs_at_vec(hay, needle, i) {
            return true;
        }
        i = i + 1;
    }
    assert forall|j: int| !occurs_at(hay@, needle@, j) by {
        if 0 <= j && j < i {
        } else if j >= i {
            assert(j + needle@.len() > hay@.len());
        }
    }
    false
}

/// Whether `s` begins with `prefix`.
pub fn starts_with(s: &str, prefix: &str) -> (b: bool)
    ensures
        b == starts_with_seq(s@, prefix@),
{
    let h = chars_of(s);
    let p = chars_of(prefix);
    occurs_at_vec(&h, &p, 0)
}

/// Whether `a` and `b` agree up to ASCII case (`str::eq_ignore_ascii_case`).
pub fn eq_ignore_ascii_case(a: &str, b: &str) -> (r: bool)
    ensures
        r == (ascii_lower_seq(a@) == ascii_lower_seq(b@)),
{
    let x = ascii_lower_vec(&chars_of(a));
    let y = ascii_lower_vec(&chars_of(b));
    if x.len() != y.len() {
        assert(x@.len() != y@.len());
        return false;
    }
    let r = occurs_at_vec(&x, &y, 0);
    assert(x@.subrange(0, y@.len() as int) == x@);
    r
}


/// The character of digit `d` (0..16), lower-case for `a`..`f`.
pub open spec fn digit_char(d: int) -> char {
    if d < 10 {
        ((48 + d) as u8) as char
    } else {
        ((87 + d) as u8) as char
    }
}

/// The decimal digits of `n`, most significant first, as `{}` prints it.
pub open spec fn decimal_seq(n: nat) -> Seq<char>
    decreases n,
{
    if n < 10 {
        seq![digit_char(n as int)]
    } else {
        decimal_seq(n / 10).push(digit_char((n % 10) as int))
    }
}

/// The lower-case hexadecimal digits of `n`, as `{:x}` prints it.
pub open spec fn hex_seq(n: nat) -> Seq<char>
    decreases n,
{
    if n < 16 {
        seq![digit_char(n as int)]
    } else {
        hex_seq(n / 16).push(digit_char((n % 16) as int))
    }
}

fn digit_to_char(d: u8) -> (c: char)
    requires
        d < 16,
    ensures
        c == digit_char(d as int),
{
    if d < 10 {
        (48 + d) as char
    } else {
        (87 + d) as char
    }
}

/// `n` written in decimal.
pub fn decimal_string(n: u128) -> (s: String)
    ensures
        s@ == decimal_seq(n as nat),
    decreases n,
{
    if n < 10 {
        let mut s = String::new();
        push_char(&mut s, digit_to_char(n as u8));
        assert(s@ == seq![digit_char(n as int)]);
        s
    } else {
        let mut s = decimal_string(n / 10);
        push_char(&mut s, digit_to_char((n % 10) as u8));
        s
    }
}

/// `n` written in lower-case hexadecimal, without prefix.
pub fn hex_string(n: u128) -> (s: String)
    ensures
        s@ == hex_seq(n as nat),
    decreases n,
{
    if n < 16 {
        let mut s = String::new();
        push_char(&mut s, digit_to_char(n as u8));
        assert(s@ == seq![digit_char(n as int)]);
        s
    } else {
        let mut s = hex_string(n / 16);
        push_char(&mut s, digit_to_char((n % 16) as u8));
        s
    }
}

/// `s` preceded by `c` as many times as it takes to reach `width` characters.
pub open spec fn pad_left(s: Seq<char>, c: char, width: nat) -> Seq<char> {
    if s.len() < width {
        Seq::new((width - s.len()) as nat, |i: int| c) + s
    } else {
        s
    }
}

/// `s` followed by `c` as many times as it takes to reach `width` characters.
pub open spec fn pad_right(s: Seq<char>, c: char, width: nat) -> Seq<char> {
    if s.len() < width {
        s + Seq::new((width - s.len()) as nat, |i: int| c)
    } else {
        s
    }
}

/// `s` padded in place to `width` characters with `c`, in front or behind.
pub fn pad_string(s: &mut String, c: char, width: usize, in_front: bool)
    ensures
        final(s)@ == (if in_front {
            pad_left(old(s)@, c, width as nat)
        } else {
            pad_right(old(s)@, c, width as nat)
        }),
{
    let n = chars_of(s.as_str()).len();
    if n >= width {
        return;
    }
    let mut fill = String::new();
    let mut k: usize = 0;
    while k < width - n
        invariant
            n == old(s)@.len(),
            n < width,
            k <= width - n,
            fill@ == Seq::new(k as nat, |i: int| c),
        decreases width - n - k,
    {
        push_char(&mut fill, c);
        assert(fill@ =~= Seq::new((k + 1) as nat, |i: int| c));
        k = k + 1;
    }
    if in_front {
        fill.append(s.as_str());
        *s = fill;
    } else {
        s.append(fill.as_str());
    }
}

/// `n` in lower-case hexadecimal, zero-padded to `width` digits (`{:0width$x}`).
pub fn hex_padded(n: u128, width: usize) -> (s: String)
    ensures
        s@ == pad_left(hex_seq(n as nat), '0', width as nat),
{
    let mut s = hex_string(n);
    pad_string(&mut s, '0', width, true);
    s
}

/// The value of `c` as a digit in a radix up to 36 (`char::to_digit`),
/// or a value of at least 36 if `c` is no digit in any radix.
pub open spec fn digit_value(c: char) -> int {
    if '0' <= c && c <= '9' {
        c as int - 48
    } else if 'a' <= c && c <= 'z' {
        c as int - 87
    } else if 'A' <= c && c <= 'Z' {
        c as int - 55
    } else {
        36
    }
}

/// Whether every character of `s` is a digit of `radix`.
pub open spec fn all_digits(s: Seq<char>, radix: int) -> bool {
    forall|i: int| 0 <= i < s.len() ==> digit_value(#[trigger] s[i]) < radix
}

/// The number that the digits `s` denote in `radix`.
pub open spec fn digits_value(s: Seq<char>, radix: int) -> int
    decreases s.len(),
{
    if s.len() == 0 {
        0
    } else {
        digits_value(s.drop_last(), radix) * radix + digit_value(s.last())
    }
}

/// What `u64::from_str_radix(s, radix)` gives for an unsigned type whose largest value is
/// `max`: an optional `+`, then at least one digit, and a value that fits.
pub open spec fn parse_unsigned_seq(s: Seq<char>, radix: int, max: int) -> Option<int> {
    let d = if s.len() > 0 && s[0] == '+' {
        s.drop_first()
    } else {
        s
    };
    if d.len() > 0 && all_digits(d, radix) && digits_value(d, radix) <= max {
        Some(digits_value(d, radix))
    } else {
        None
    }
}

proof fn lemma_digit_char(d: int)
    requires
        0 <= d < 16,
    ensures
        digit_value(digit_char(d)) == d,
        !is_space(digit_char(d)),
        digit_char(d) != '+',
{
}

proof fn lemma_decimal_digits(n: nat)
    ensures
        decimal_seq(n).len() > 0,
        all_digits(decimal_seq(n), 10),
        digits_value(decimal_seq(n), 10) == n,
        forall|i: int| 0 <= i < decimal_seq(n).len() ==> !is_space(#[trigger] decimal_seq(n)[i])
            && decimal_seq(n)[i] != '+',
    decreases n,
{
    if n < 10 {
        lemma_digit_char(n as int);
        assert(decimal_seq(n).drop_last() =~= Seq::<char>::empty());
        assert(digits_value(Seq::<char>::empty(), 10) == 0);
    } else {
        lemma_decimal_digits(n / 10);
        lemma_digit_char((n % 10) as int);
        let s = decimal_seq(n / 10);
        assert(decimal_seq(n).drop_last() =~= s);
        assert(digits_value(decimal_seq(n), 10) == digits_value(s, 10) * 10 + (n % 10) as int);
        assert((n / 10) * 10 + n % 10 == n) by (nonlinear_arith);
    }
}

proof fn lemma_hex_digits(n: nat)
    ensures
        hex_seq(n).len() > 0,
        all_digits(hex_seq(n), 16),
        digits_value(hex_seq(n), 16) == n,
        forall|i: int| 0 <= i < hex_seq(n).len() ==> !is_space(#[trigger] hex_seq(n)[i])
            && hex_seq(n)[i] != '+',
    decreases n,
{
    if n < 16 {
        lemma_digit_char(n as int);
        assert(hex_seq(n).drop_last() =~= Seq::<char>::empty());
        assert(digits_value(Seq::<char>::empty(), 16) == 0);
    } else {
        lemma_hex_digits(n / 16);
        lemma_digit_char((n % 16) as int);
        let s = hex_seq(n / 16);
        assert(hex_seq(n).drop_last() =~= s);
        assert(digits_value(hex_seq(n), 16) == digits_value(s, 16) * 16 + (n % 16) as int);
        assert((n / 16) * 16 + n % 16 == n) by (nonlinear_arith);
    }
}

pub(crate) proof fn lemma_trim_unspaced(s: Seq<char>)
    requires
        s.len() > 0,
        !is_space(s[0]),
        !is_space(s[s.len() - 1]),
    ensures
        trim_seq(s) == s,
{
}

/// A number written in decimal reads back as itself, surrounding
/// whitespace trimmed, whatever the bound it is read under, if it fits.
pub proof fn decimal_reads_back(n: nat, max: int)
    requires
        n <= max,
    ensures
        parse_unsigned_seq(trim_seq(decimal_seq(n)), 10, max) == Some(n as int),
{
    lemma_decimal_digits(n);
    let s = decimal_seq(n);
    lemma_trim_unspaced(s);
}

/// A number written in hexadecimal reads back as itself under any bound it
/// fits.
pub proof fn hex_reads_back(n: nat, max: int)
    requires
        n <= max,
    ensures
        parse_unsigned_seq(hex_seq(n), 16, max) == Some(n as int),
        trim_seq(hex_seq(n)) == hex_seq(n),
{
    lemma_hex_digits(n);
    lemma_trim_unspaced(hex_seq(n));
}

fn digit_value_of(c: char) -> (d: u32)
    ensures
        d == digit_value(c),
{
    if '0' <= c && c <= '9' {
        (c as u32) - 48
    } else if 'a' <= c && c <= 'z' {
        (c as u32) - 87
    } else if 'A' <= c && c <= 'Z' {
        (c as u32) - 55
    } else {
        36
    }
}

proof fn lemma_digits_value_nonneg(s: Seq<char>, radix: int)
    requires
        radix >= 1,
    ensures
        digits_value(s, radix) >= 0,
    decreases s.len(),
{
    if s.len() > 0 {
        lemma_digits_value_nonneg(s.drop_last(), radix);
        let v = digits_value(s.drop_last(), radix);
        assert(v * radix >= 0) by (nonlinear_arith)
            requires
                v >= 0,
                radix >= 1,
        ;
    }
}

proof fn lemma_digits_value_grows(s: Seq<char>, k: int, radix: int)
    requires
        radix >= 1,
        0 <= k <= s.len(),
    ensures
        digits_value(s.subrange(0, k), radix) <= digits_value(s, radix),
    decreases s.len() - k,
{
    if k < s.len() {
        lemma_digits_value_grows(s.drop_last(), k, radix);
        assert(s.drop_last().subrange(0, k) == s.subrange(0, k));
        lemma_digits_value_nonneg(s.drop_last(), radix);
        let v = digits_value(s.drop_last(), radix);
        assert(v * radix >= v) by (nonlinear_arith)
            requires
                v >= 0,
                radix >= 1,
        ;
    } else {
        assert(s.subrange(0, k) == s);
    }
}

/// The value of `v[from..]` read as an unsigned number in `radix`, if it is a
/// well-formed number of at most `max` (`from_str_radix` on unsigned types).
pub fn parse_unsigned(v: &Vec<char>, from: usize, radix: u32, max: u64) -> (r: Option<u64>)
    requires
        from <= v@.len(),
        2 <= radix <= 36,
    ensures
        r matches Some(x) ==> parse_unsigned_seq(v@.subrange(from as int, v@.len() as int), radix as int, max as int) == Some(x as int),
        r is None ==> parse_unsigned_seq(v@.subrange(from as int, v@.len() as int), radix as int, max as int) is None,
{
    let ghost s = v@.subrange(from as int, v@.len() as int);
    let mut start = from;
    if start < v.len() && v[start] == '+' {
        start = start + 1;
    }
    let ghost d = v@.subrange(start as int, v@.len() as int);
    assert(d == (if s.len() > 0 && s[0] == '+' { s.drop_first() } else { s }));
    if start == v.len() {
        return None;
    }
    let mut acc: u128 = 0;
    let mut i = start;
    while i < v.len()
        invariant
            start <= i <= v@.len(),
            from <= start,
            d == v@.subrange(start as int, v@.len() as int),
            s == v@.subrange(from as int, v@.len() as int),
            d == (if s.len() > 0 && s[0] == '+' { s.drop_first() } else { s }),
            d.len() > 0,
            2 <= radix <= 36,
            acc as int == digits_value(v@.subrange(start as int, i as int), radix as int),
            acc <= max,
            all_digits(v@.subrange(start as int, i as int), radix as int),
        decreases v.len() - i,
    {
        let dv = digit_value_of(v[i]);
        let ghost pre = v@.subrange(start as int, i as int);
        let ghost next = v@.subrange(start as int, i + 1);
        assert(next.drop_last() == pre);
        assert(next.last() == v@[i as int]);
        if dv >= radix {
            assert(d[i - start] == v@[i as int]);
            assert(!all_digits(d, radix as int));
            return None;
        }
        assert(acc * (radix as u128) <= 36 * 0xffff_ffff_ffff_ffffu128) by (nonlinear_arith)
            requires
                acc <= 0xffff_ffff_ffff_ffffu128,
                radix <= 36,
        ;
        acc = acc * (radix as u128) + (dv as u128);
        assert forall|k: int| 0 <= k < next.len() implies digit_value(#[trigger] next[k]) < radix by {
            if k < pre.len() {
                assert(next[k] == pre[k]);
            }
        }
        if acc > max as u128 {
            proof {
                lemma_digits_value_grows(d, i + 1 - start, radix as int);
                assert(d.subrange(0, i + 1 - start) == next);
            }
            return None;
        }
        i = i + 1;
    }
    assert(v@.subrange(start as int, i as int) == d);
    Some(acc as u64)
}


/// The value of `s`, trimmed of surrounding whitespace, read as an unsigned
/// number in `radix` of at most `max` (`s.trim().parse()` on unsigned types).
pub fn parse_trimmed(s: &str, radix: u32, max: u64) -> (r: Option<u64>)
    requires
        2 <= radix <= 36,
    ensures
        r matches Some(x) ==> parse_unsigned_seq(trim_seq(s@), radix as int, max as int) == Some(x as int),
        r is None ==> parse_unsigned_seq(trim_seq(s@), radix as int, max as int) is None,
{
    let t = trim(s);
    let v = chars_of(t.as_str());
    assert(v@.subrange(0, v@.len() as int) =~= trim_seq(s@));
    parse_unsigned(&v, 0, radix, max)
}

/// Whether two strings hold the same characters.
pub fn same_text(a: &str, b: &str) -> (r: bool)
    ensures
        r == (a@ == b@),
{
    let x = chars_of(a);
    let y = chars_of(b);
    if x.len() != y.len() {
        return false;
    }
    let mut i: usize = 0;
    while i < x.len()
        invariant
            x@ == a@,
            y@ == b@,
            x@.len() == y@.len(),
            i <= x@.len(),
            forall|k: int| 0 <= k < i ==> x@[k] == y@[k],
        decreases x@.len() - i,
    {
        if x[i] != y[i] {
            return false;
        }
        i = i + 1;
    }
    assert(x@ =~= y@);
    true
}

/// Whether the text `needle` occurs in `hay`.
pub fn contains_text(hay: &Vec<char>, needle: &str) -> (b: bool)
    ensures
        b == contains_seq(hay@, needle@),
{
    let n = chars_of(needle);
    contains_vec(hay, &n)
}

/// `s` lowered in ASCII, as a vector of characters.
pub fn ascii_lower_chars(s: &str) -> (v: Vec<char>)
    ensures
        v@ == ascii_lower_seq(s@),
{
    ascii_lower_vec(&chars_of(s))
}


/// The characters `v[from..to]`.
pub fn sub_vec(v: &Vec<char>, from: usize, to: usize) -> (r: Vec<char>)
    requires
        from <= to <= v@.len(),
    ensures
        r@ == v@.subrange(from as int, to as int),
{
    let mut r: Vec<char> = Vec::new();
    let mut i = from;
    while i < to
        invariant
            from <= i <= to <= v@.len(),
            r@ == v@.subrange(from as int, i as int),
        decreases to - i,
    {
        r.push(v[i]);
        assert(v@.subrange(from as int, i + 1) == v@.subrange(from as int, i as int).push(v@[i as int]));
        i = i + 1;
    }
    r
}

} // verus!
