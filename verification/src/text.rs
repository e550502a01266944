//! Small helpers for building text: conversions between strings and
//! character vectors, and decimal rendering of unsigned integers.

use vstd::prelude::*;
use vstd::string::*;

verus! {

/// The characters of `s`, in order.
///
/// Calls `str::chars` and collects what it yields; the claim is that these are
/// exactly the characters of the string.
#[verifier::external_body]
pub(crate) fn chars_of(s: &str) -> (v: Vec<char>)
    ensures
        v@ == s@,
{
    s.chars().collect()
}

/// The string made of the characters `v[from..to]`.
///
/// Collects a slice of characters into a `String` (`FromIterator<&char>`); the
/// claim is that the string holds exactly those characters.
#[verifier::external_body]
pub(crate) fn string_of_range(v: &Vec<char>, from: usize, to: usize) -> (s: String)
    requires
        from <= to <= v.len(),
    ensures
        s@ == v@.subrange(from as int, to as int),
{
    v[from..to].iter().collect()
}

/// Whether two texts hold the same characters.
///
/// Calls `str::eq`; the claim is that it compares the texts character by character.
#[verifier::external_body]
pub(crate) fn same_text(a: &str, b: &str) -> (r: bool)
    ensures
        r == (a@ == b@),
{
    a == b
}

/// The string made of all the characters of `v`.
pub(crate) fn string_of(v: &Vec<char>) -> (s: String)
    ensures
        s@ == v@,
{
    let s = string_of_range(v, 0, v.len());
    assert(v@.subrange(0, v.len() as int) == v@);
    s
}

/// The upper-case form of a text, as the standard library gives it.
pub uninterp spec fn uppercase_of(s: Seq<char>) -> Seq<char>;

/// The lower-case form of a text, as the standard library gives it.
pub uninterp spec fn lowercase_of(s: Seq<char>) -> Seq<char>;

/// The texts of the strings of `v`, in order.
pub open spec fn texts_of(v: Seq<String>) -> Seq<Seq<char>> {
    v.map_values(|t: String| t@)
}

/// `s` in upper case.
///
/// Calls `str::to_uppercase`; the result depends on the characters of `s`
/// alone, and `uppercase_of` is the name for it.
#[verifier::external_body]
pub(crate) fn to_upper(s: &str) -> (r: String)
    ensures
        r@ == uppercase_of(s@),
{
    s.to_uppercase()
}

/// `s` in lower case.
///
/// Calls `str::to_lowercase`; the result depends on the characters of `s`
/// alone, and `lowercase_of` is the name for it.
#[verifier::external_body]
pub(crate) fn to_lower(s: &str) -> (r: String)
    ensures
        r@ == lowercase_of(s@),
{
    s.to_lowercase()
}

/// Whether `pattern` stands in `s` at position `at`.
pub open spec fn stands_at(s: Seq<char>, pattern: Seq<char>, at: int) -> bool {
    0 <= at && at + pattern.len() <= s.len() && s.subrange(at, at + pattern.len()) == pattern
}

/// The first position at or after `from` at which `pattern` stands in `s`.
pub open spec fn first_match(s: Seq<char>, pattern: Seq<char>, from: int) -> Option<int>
    decreases s.len() + 1 - from,
{
    if from < 0 || from + pattern.len() > s.len() {
        None
    } else if stands_at(s, pattern, from) {
        Some(from)
    } else {
        first_match(s, pattern, from + 1)
    }
}

/// The pieces of `s` from `start` on between the occurrences of `separator`
/// that are found from `search` on. Occurrences are taken from left to right
/// and do not overlap; an empty separator occurs before and after every
/// character.
pub open spec fn split_from(s: Seq<char>, separator: Seq<char>, start: int, search: int) -> Seq<
    Seq<char>,
>
    decreases s.len() + 1 - search,
{
    match first_match(s, separator, search) {
        Some(at) => if search <= at && start <= at && at + separator.len() <= s.len() {
            seq![s.subrange(start, at)] + split_from(
                s,
                separator,
                at + separator.len(),
                if separator.len() == 0 {
                    at + 1
                } else {
                    at + separator.len()
                },
            )
        } else {
            seq![s.subrange(start, s.len() as int)]
        },
        None => seq![s.subrange(start, s.len() as int)],
    }
}

/// The pieces of `s` between the occurrences of `separator`.
pub open spec fn split_of(s: Seq<char>, separator: Seq<char>) -> Seq<Seq<char>> {
    split_from(s, separator, 0, 0)
}

/// A match that is found lies at or after the start of the search and inside
/// the text.
proof fn lemma_first_match(s: Seq<char>, pattern: Seq<char>, from: int)
    requires
        0 <= from,
    ensures
        first_match(s, pattern, from) matches Some(at) ==> from <= at && at + pattern.len()
            <= s.len() && stands_at(s, pattern, at),
    decreases s.len() + 1 - from,
{
    if from + pattern.len() <= s.len() && !stands_at(s, pattern, from) {
        lemma_first_match(s, pattern, from + 1);
    }
}

/// Whether `pattern` stands in `chars` at position `at`.
fn matches_at(chars: &Vec<char>, pattern: &Vec<char>, at: usize) -> (b: bool)
    requires
        at + pattern.len() <= chars.len(),
    ensures
        b == stands_at(chars@, pattern@, at as int),
{
    let mut i: usize = 0;
    while i < pattern.len()
        invariant
            i <= pattern.len(),
            at + pattern.len() <= chars.len(),
            forall|j: int| 0 <= j < i ==> chars[at + j] == pattern[j],
        decreases pattern.len() - i,
    {
        if chars[at + i] != pattern[i] {
            assert(chars@.subrange(at as int, at + pattern.len())[i as int] != pattern@[i as int]);
            return false;
        }
        i += 1;
    }
    assert(chars@.subrange(at as int, at + pattern.len()) =~= pattern@);
    true
}

/// The first position at or after `from` at which `pattern` stands in `chars`.
fn find_match(chars: &Vec<char>, pattern: &Vec<char>, from: usize) -> (found: Option<usize>)
    ensures
        match first_match(chars@, pattern@, from as int) {
            Some(at) => found == Some(at as usize) && from <= at && at + pattern.len()
                <= chars.len(),
            None => found is None,
        },
{
    if pattern.len() > chars.len() || from > chars.len() - pattern.len() {
        return None;
    }
    let last = chars.len() - pattern.len();
    let mut at = from;
    loop
        invariant
            from <= at <= last,
            last == chars.len() - pattern.len(),
            pattern.len() <= chars.len(),
            first_match(chars@, pattern@, from as int) == first_match(
                chars@,
                pattern@,
                at as int,
            ),
        decreases last - at,
    {
        if matches_at(chars, pattern, at) {
            return Some(at);
        }
        if at == last {
            return None;
        }
        at += 1;
    }
}

/// The pieces of `s` between the occurrences of `separator`.
pub fn split_text(s: &str, separator: &str) -> (pieces: Vec<String>)
    ensures
        texts_of(pieces@) == split_of(s@, separator@),
{
    let chars = chars_of(s);
    let pattern = chars_of(separator);
    let n = chars.len();
    let mut pieces: Vec<String> = Vec::new();
    let mut start: usize = 0;
    let mut search: usize = 0;
    assert(texts_of(pieces@) =~= Seq::<Seq<char>>::empty());
    assert(texts_of(pieces@) + split_from(chars@, pattern@, 0, 0) =~= split_from(
        chars@,
        pattern@,
        0,
        0,
    ));
    loop
        invariant
            n == chars.len(),
            chars@ == s@,
            pattern@ == separator@,
            start <= n,
            start <= search <= n,
            split_of(chars@, pattern@) == texts_of(pieces@) + split_from(
                chars@,
                pattern@,
                start as int,
                search as int,
            ),
        decreases n - search,
    {
        let ghost before = texts_of(pieces@);
        let ghost rest = split_from(chars@, pattern@, start as int, search as int);
        proof {
            lemma_first_match(chars@, pattern@, search as int);
        }
        match find_match(&chars, &pattern, search) {
            Some(at) => {
                let piece = string_of_range(&chars, start, at);
                pieces.push(piece);
                assert(texts_of(pieces@) =~= before.push(piece@));
                if pattern.len() == 0 && at == n {
                    // The empty separator after the last character: what
                    // follows it is the last piece, which is empty.
                    let last = string_of_range(&chars, n, n);
                    pieces.push(last);
                    assert(texts_of(pieces@) =~= before.push(piece@).push(last@));
                    assert(first_match(chars@, pattern@, n + 1) is None);
                    assert(split_from(chars@, pattern@, n as int, n + 1) == seq![last@]);
                    assert(texts_of(pieces@) =~= before + rest);
                    return pieces;
                }
                start = at + pattern.len();
                search = if pattern.len() == 0 {
                    at + 1
                } else {
                    at + pattern.len()
                };
                assert(texts_of(pieces@) + split_from(
                    chars@,
                    pattern@,
                    start as int,
                    search as int,
                ) =~= before + rest);
            },
            None => {
                let piece = string_of_range(&chars, start, n);
                pieces.push(piece);
                assert(texts_of(pieces@) =~= before.push(piece@));
                assert(texts_of(pieces@) =~= before + rest);
                return pieces;
            },
        }
    }
}

/// Whether `c` is white space: one of the characters with the Unicode
/// property `White_Space`.
pub open spec fn is_white_space(c: char) -> bool {
    ||| '\u{9}' <= c <= '\u{D}'
    ||| c == ' '
    ||| c == '\u{85}'
    ||| c == '\u{A0}'
    ||| c == '\u{1680}'
    ||| '\u{2000}' <= c <= '\u{200A}'
    ||| c == '\u{2028}'
    ||| c == '\u{2029}'
    ||| c == '\u{202F}'
    ||| c == '\u{205F}'
    ||| c == '\u{3000}'
}

/// The number of white space characters in a row from position `from` on.
pub open spec fn leading_white_space(s: Seq<char>, from: int) -> int
    decreases s.len() - from,
{
    if 0 <= from < s.len() && is_white_space(s[from]) {
        1 + leading_white_space(s, from + 1)
    } else {
        0
    }
}

/// The number of white space characters in a row at the end of `s[..end]`.
pub open spec fn trailing_white_space(s: Seq<char>, end: int) -> int
    decreases end,
{
    if 0 < end <= s.len() && is_white_space(s[end - 1]) {
        1 + trailing_white_space(s, end - 1)
    } else {
        0
    }
}

/// `s` without the white space at its start and at its end.
pub open spec fn trimmed_of(s: Seq<char>) -> Seq<char> {
    let from = leading_white_space(s, 0);
    let to = s.len() - trailing_white_space(s, s.len() as int);
    if from < to {
        s.subrange(from, to)
    } else {
        Seq::empty()
    }
}

/// Whether `c` is white space.
pub fn white_space(c: char) -> (b: bool)
    ensures
        b == is_white_space(c),
{
    (c >= '\u{9}' && c <= '\u{D}') || c == ' ' || c == '\u{85}' || c == '\u{A0}' || c == '\u{1680}'
        || (c >= '\u{2000}' && c <= '\u{200A}') || c == '\u{2028}' || c == '\u{2029}' || c
        == '\u{202F}' || c == '\u{205F}' || c == '\u{3000}'
}

/// `s` without the white space at its start and at its end.
pub fn trim_text(s: &str) -> (r: String)
    ensures
        r@ == trimmed_of(s@),
{
    let chars = chars_of(s);
    let n = chars.len();
    let mut from: usize = 0;
    while from < n && white_space(chars[from])
        invariant
            from <= n,
            n == chars.len(),
            leading_white_space(chars@, 0) == from + leading_white_space(chars@, from as int),
        decreases n - from,
    {
        from += 1;
    }
    let mut to: usize = n;
    while to > 0 && white_space(chars[to - 1])
        invariant
            to <= n,
            n == chars.len(),
            trailing_white_space(chars@, n as int) == (n - to) + trailing_white_space(
                chars@,
                to as int,
            ),
        decreases to,
    {
        to -= 1;
    }
    if from < to {
        string_of_range(&chars, from, to)
    } else {
        String::new()
    }
}

/// The decimal digit for `d`, which is below ten.
pub open spec fn digit_char(d: nat) -> char {
    if d == 0 {
        '0'
    } else if d == 1 {
        '1'
    } else if d == 2 {
        '2'
    } else if d == 3 {
        '3'
    } else if d == 4 {
        '4'
    } else if d == 5 {
        '5'
    } else if d == 6 {
        '6'
    } else if d == 7 {
        '7'
    } else if d == 8 {
        '8'
    } else {
        '9'
    }
}

/// The decimal numeral of `n`, without leading zeros.
pub open spec fn decimal_text(n: nat) -> Seq<char>
    decreases n,
{
    if n < 10 {
        seq![digit_char(n)]
    } else {
        decimal_text(n / 10).push(digit_char(n % 10))
    }
}

fn digit_of(d: usize) -> (c: char)
    requires
        d < 10,
    ensures
        c == digit_char(d as nat),
{
    if d == 0 {
        '0'
    } else if d == 1 {
        '1'
    } else if d == 2 {
        '2'
    } else if d == 3 {
        '3'
    } else if d == 4 {
        '4'
    } else if d == 5 {
        '5'
    } else if d == 6 {
        '6'
    } else if d == 7 {
        '7'
    } else if d == 8 {
        '8'
    } else {
        '9'
    }
}

/// Appends the decimal numeral of `n` to `out`.
pub(crate) fn push_decimal(n: usize, out: &mut Vec<char>)
    ensures
        final(out)@ == old(out)@ + decimal_text(n as nat),
    decreases n,
{
    if n >= 10 {
        push_decimal(n / 10, out);
    }
    out.push(digit_of(n % 10));
}

/// Appends the characters of `s` to `out`.
pub(crate) fn push_str(s: &str, out: &mut Vec<char>)
    ensures
        final(out)@ == old(out)@ + s@,
{
    let mut more = chars_of(s);
    out.append(&mut more);
}

/// The decimal numeral of `n` as a string.
pub fn decimal_string(n: usize) -> (s: String)
    ensures
        s@ == decimal_text(n as nat),
{
    let mut out: Vec<char> = Vec::new();
    push_decimal(n, &mut out);
    string_of(&out)
}

} // verus!
