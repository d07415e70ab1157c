//! Text primitives used by the extractors: trimming, substring search and
//! recognition of numbers.
use vstd::prelude::*;
use vstd::string::*;

verus! {

/// A character with the Unicode White_Space property.
pub open spec fn is_white_space(c: char) -> bool {
    ('\u{9}' <= c && c <= '\u{D}') || c == ' ' || c == '\u{85}' || c == '\u{A0}' || c == '\u{1680}'
        || ('\u{2000}' <= c && c <= '\u{200A}') || c == '\u{2028}' || c == '\u{2029}' || c
        == '\u{202F}' || c == '\u{205F}' || c == '\u{3000}'
}

/// The number of white space characters in `s` from position `i` on.
pub open spec fn white_run(s: Seq<char>, i: int) -> nat
    decreases s.len() - i,
{
    if 0 <= i < s.len() && is_white_space(s[i]) {
        1 + white_run(s, i + 1)
    } else {
        0
    }
}

/// The number of white space characters that end the first `j` of `s`.
pub open spec fn white_run_back(s: Seq<char>, j: int) -> nat
    decreases j,
{
    if 0 < j <= s.len() && is_white_space(s[j - 1]) {
        1 + white_run_back(s, j - 1)
    } else {
        0
    }
}

/// `s` with its leading and trailing white space removed.
pub open spec fn trimmed(s: Seq<char>) -> Seq<char> {
    let a = white_run(s, 0) as int;
    if a == s.len() {
        seq![]
    } else {
        s.subrange(a, s.len() - white_run_back(s, s.len() as int))
    }
}

/// Relies on `str::trim`: leading and trailing characters with the Unicode
/// White_Space property removed.
#[verifier::external_body]
pub(crate) fn trim_text(s: &str) -> (r: String)
    ensures
        r@ == trimmed(s@),
{
    s.trim().to_string()
}

/// `p` occurs in `s` as a contiguous run of characters.
pub open spec fn has_substring(s: Seq<char>, p: Seq<char>) -> bool {
    exists|i: int| 0 <= i && i + p.len() <= s.len() && #[trigger] s.subrange(i, i + p.len()) == p
}

/// The characters of `s` from `start` on.
pub fn chars_from(s: &str, start: usize) -> (v: Vec<char>)
    requires
        start <= s@.len(),
    ensures
        v@ == s@.skip(start as int),
{
    let n = s.unicode_len();
    let mut v: Vec<char> = Vec::new();
    let mut i = start;
    while i < n
        invariant
            start <= i <= n == s@.len(),
            v@ == s@.subrange(start as int, i as int),
        decreases n - i,
    {
        v.push(s.get_char(i));
        i = i + 1;
        assert(v@ =~= s@.subrange(start as int, i as int));
    }
    assert(s@.subrange(start as int, n as int) =~= s@.skip(start as int));
    v
}

/// Whether `p` occurs in `t` from position `i` on.
fn occurs_at(t: &Vec<char>, p: &Vec<char>, i: usize) -> (r: bool)
    requires
        i + p@.len() <= t@.len(),
    ensures
        r == (t@.subrange(i as int, i + p@.len()) == p@),
{
    let tl = t.len();
    let mut k: usize = 0;
    while k < p.len()
        invariant
            k <= p@.len(),
            tl == t@.len(),
            i + p@.len() <= t@.len(),
            forall|m: int| 0 <= m < k ==> t@[i + m] == p@[m],
        decreases p@.len() - k,
    {
        if t[i + k] != p[k] {
            assert(t@.subrange(i as int, i + p@.len())[k as int] != p@[k as int]);
            return false;
        }
        k = k + 1;
    }
    assert(t@.subrange(i as int, i + p@.len()) =~= p@);
    true
}

/// Whether the pattern `p` occurs in the text `s`.
pub fn contains_text(s: &str, p: &str) -> (r: bool)
    ensures
        r == has_substring(s@, p@),
{
    let t = chars_from(s, 0);
    let q = chars_from(p, 0);
    assert(t@ =~= s@);
    assert(q@ =~= p@);
    if q.len() > t.len() {
        return false;
    }
    if q.len() == 0 {
        assert(s@.subrange(0, 0 + p@.len() as int) =~= p@);
        return true;
    }
    let tl = t.len();
    let last = tl - q.len();
    let mut i: usize = 0;
    while i <= last
        invariant
            0 < q@.len() <= t@.len(),
            tl == t@.len(),
            last == t@.len() - q@.len(),
            i <= last + 1,
            t@ == s@,
            q@ == p@,
            forall|j: int| 0 <= j < i ==> #[trigger] t@.subrange(j, j + q@.len()) != q@,
        decreases last + 1 - i,
    {
        if occurs_at(&t, &q, i) {
            return true;
        }
        i = i + 1;
    }
    false
}

/// The characters of each text.
pub open spec fn strings_view(v: Seq<String>) -> Seq<Seq<char>> {
    v.map_values(|s: String| s@)
}

/// The characters of an optional text.
pub open spec fn opt_chars(o: Option<String>) -> Option<Seq<char>> {
    match o {
        Some(s) => Some(s@),
        None => None,
    }
}

pub open spec fn is_digit(c: char) -> bool {
    '0' <= c && c <= '9'
}

fn is_digit_char(c: char) -> (r: bool)
    ensures
        r == is_digit(c),
{
    '0' <= c && c <= '9'
}

/// A sign character.
pub open spec fn is_sign(c: char) -> bool {
    c == '+' || c == '-'
}

/// The number of consecutive digits in `s` from position `i` on.
pub open spec fn digit_run(s: Seq<char>, i: int) -> nat
    decreases s.len() - i,
{
    if 0 <= i < s.len() && is_digit(s[i]) {
        1 + digit_run(s, i + 1)
    } else {
        0
    }
}

/// `c` is the lowercase letter `w`, or its uppercase form.
pub open spec fn same_letter(c: char, w: char) -> bool {
    c == w || (c as u32) + 32 == (w as u32)
}

/// `s` is the lowercase word `w` in any letter case.
pub open spec fn is_word(s: Seq<char>, w: Seq<char>) -> bool {
    s.len() == w.len() && forall|k: int| 0 <= k < s.len() ==> same_letter(#[trigger] s[k], w[k])
}

/// The words for infinity and for "not a number".
pub open spec fn is_special_value(s: Seq<char>) -> bool {
    is_word(s, "inf"@) || is_word(s, "infinity"@) || is_word(s, "nan"@)
}

/// An exponent fills `s` from position `i` on: `e` or `E`, an optional
/// sign, then digits.
pub open spec fn is_exponent_from(s: Seq<char>, i: int) -> bool {
    &&& 0 <= i < s.len()
    &&& (s[i] == 'e' || s[i] == 'E')
    &&& {
        let j = if i + 1 < s.len() && is_sign(s[i + 1]) {
            i + 2
        } else {
            i + 1
        };
        j < s.len() && j + digit_run(s, j) == s.len()
    }
}

/// Digits with an optional point, at least one digit in all, then an
/// optional exponent: `7`, `48.5734`, `5.`, `.5`, `1e10`, `2.5E-3`.
pub open spec fn is_unsigned_number(s: Seq<char>) -> bool {
    let a: int = digit_run(s, 0) as int;
    let pointed = a < s.len() && s[a] == '.';
    let b: int = if pointed {
        digit_run(s, a + 1) as int
    } else {
        0
    };
    let end: int = if pointed {
        a + 1 + b
    } else {
        a
    };
    a + b > 0 && (end == s.len() || is_exponent_from(s, end))
}

/// The text without its leading sign, if it has one.
pub open spec fn unsigned_part(s: Seq<char>) -> Seq<char> {
    if s.len() > 0 && is_sign(s[0]) {
        s.skip(1)
    } else {
        s
    }
}

/// The syntax that floating-point parsing accepts: an optional sign, then
/// `inf`, `infinity` or `nan` in any letter case, or an unsigned number.
pub open spec fn is_float_literal(s: Seq<char>) -> bool {
    is_special_value(unsigned_part(s)) || is_unsigned_number(unsigned_part(s))
}

fn digit_run_at(v: &Vec<char>, i: usize) -> (r: usize)
    requires
        i <= v@.len(),
    ensures
        r == digit_run(v@, i as int),
        i + r <= v@.len(),
{
    let mut j = i;
    while j < v.len() && is_digit_char(v[j])
        invariant
            i <= j <= v@.len(),
            digit_run(v@, i as int) == (j - i) + digit_run(v@, j as int),
        decreases v@.len() - j,
    {
        j = j + 1;
    }
    j - i
}

fn is_word_at(v: &Vec<char>, w: &str) -> (r: bool)
    ensures
        r == is_word(v@, w@),
{
    let q = chars_from(w, 0);
    assert(q@ =~= w@);
    if v.len() != q.len() {
        return false;
    }
    let mut k: usize = 0;
    while k < v.len()
        invariant
            k <= v@.len() == q@.len(),
            q@ == w@,
            forall|m: int| 0 <= m < k ==> same_letter(#[trigger] v@[m], q@[m]),
        decreases v@.len() - k,
    {
        let c = v[k] as u32;
        let l = q[k] as u32;
        if !(v[k] == q[k] || (l >= 32 && c == l - 32)) {
            return false;
        }
        k = k + 1;
    }
    true
}

fn is_exponent_at(v: &Vec<char>, i: usize) -> (r: bool)
    requires
        i <= v@.len(),
    ensures
        r == is_exponent_from(v@, i as int),
{
    if i >= v.len() || !(v[i] == 'e' || v[i] == 'E') {
        return false;
    }
    let j = if i + 1 < v.len() && (v[i + 1] == '+' || v[i + 1] == '-') {
        i + 2
    } else {
        i + 1
    };
    if j >= v.len() {
        return false;
    }
    j + digit_run_at(v, j) == v.len()
}

fn is_unsigned_number_at(v: &Vec<char>) -> (r: bool)
    ensures
        r == is_unsigned_number(v@),
{
    let a = digit_run_at(v, 0);
    let pointed = a < v.len() && v[a] == '.';
    let b = if pointed {
        digit_run_at(v, a + 1)
    } else {
        0
    };
    let end = if pointed {
        a + 1 + b
    } else {
        a
    };
    a + b > 0 && (end == v.len() || is_exponent_at(v, end))
}

/// Whether `s` is written in the syntax that floating-point parsing accepts.
pub fn is_float_text(s: &str) -> (r: bool)
    ensures
        r == is_float_literal(s@),
{
    let n = s.unicode_len();
    let start: usize = if n > 0 && (s.get_char(0) == '+' || s.get_char(0) == '-') {
        1
    } else {
        0
    };
    let v = chars_from(s, start);
    proof {
        if start == 0 {
            assert(s@.skip(0) =~= s@);
        }
    }
    is_word_at(&v, "inf") || is_word_at(&v, "infinity") || is_word_at(&v, "nan")
        || is_unsigned_number_at(&v)
}

} // verus!
