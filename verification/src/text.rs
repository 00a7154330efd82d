//! Small string helpers shared by the other modules.

use vstd::prelude::*;

verus! {

/// The character sequences of a sequence of strings, in order.
pub open spec fn strings_view(strings: Seq<String>) -> Seq<Seq<char>> {
    Seq::new(strings.len(), |i: int| strings[i]@)
}

/// The character sequence of a text that may be absent.
pub open spec fn text_view(text: Option<&str>) -> Option<Seq<char>> {
    match text {
        Some(s) => Some(s@),
        None => None,
    }
}

/// Whether `pattern` is an initial segment of `s`.
pub open spec fn is_prefix(pattern: Seq<char>, s: Seq<char>) -> bool {
    pattern.len() <= s.len() && s.subrange(0, pattern.len() as int) == pattern
}

/// Whether `s` begins with `pattern`.
pub fn begins_with(s: &str, pattern: &str) -> (found: bool)
    ensures
        found == is_prefix(pattern@, s@),
{
    let n = pattern.unicode_len();
    if n > s.unicode_len() {
        return false;
    }
    let mut i: usize = 0;
    while i < n
        invariant
            i <= n,
            n == pattern@.len(),
            n <= s@.len(),
            forall|j: int| 0 <= j < i ==> s@[j] == pattern@[j],
        decreases n - i,
    {
        if s.get_char(i) != pattern.get_char(i) {
            proof {
                assert(s@.subrange(0, n as int)[i as int] != pattern@[i as int]);
            }
            return false;
        }
        i += 1;
    }
    proof {
        assert(s@.subrange(0, n as int) =~= pattern@);
    }
    true
}

/// Whether the two texts are the same, character for character.
pub fn same_text(a: &str, b: &str) -> (same: bool)
    ensures
        same == (a@ == b@),
{
    if a.unicode_len() != b.unicode_len() {
        return false;
    }
    let same = begins_with(a, b);
    proof {
        assert(a@.subrange(0, a@.len() as int) =~= a@);
    }
    same
}

/// A fresh `String` with the same characters as `s`.
pub fn owned(s: &str) -> (out: String)
    ensures
        out@ == s@,
{
    s.to_owned()
}

/// A fresh vector holding a copy of every string of `v`, in order.
pub fn copy_strings(v: &Vec<String>) -> (out: Vec<String>)
    ensures
        strings_view(out@) == strings_view(v@),
{
    let mut out: Vec<String> = Vec::new();
    let mut i: usize = 0;
    while i < v.len()
        invariant
            i <= v@.len(),
            out@.len() == i,
            forall|j: int| 0 <= j < i ==> #[trigger] out@[j]@ == v@[j]@,
        decreases v@.len() - i,
    {
        out.push(v[i].clone());
        i += 1;
    }
    proof {
        assert(strings_view(out@) =~= strings_view(v@));
    }
    out
}

/// The `len` characters of `s` from place `start` on.
pub open spec fn window(s: Seq<char>, start: int, len: int) -> Seq<char> {
    s.subrange(start, start + len)
}

/// Whether `pattern` occurs somewhere in `s` as a contiguous run.
pub open spec fn occurs_in(pattern: Seq<char>, s: Seq<char>) -> bool {
    exists|i: int|
        0 <= i && i + pattern.len() <= s.len() && #[trigger] window(s, i, pattern.len() as int)
            == pattern
}

fn found_at(s: &str, pattern: &str, start: usize, n: usize, len: usize) -> (found: bool)
    requires
        n == pattern@.len(),
        len == s@.len(),
        start + n <= len,
    ensures
        found == (window(s@, start as int, n as int) == pattern@),
{
    let mut i: usize = 0;
    while i < n
        invariant
            i <= n,
            n == pattern@.len(),
            len == s@.len(),
            start + n <= len,
            forall|j: int| 0 <= j < i ==> s@[start + j] == pattern@[j],
        decreases n - i,
    {
        if s.get_char(start + i) != pattern.get_char(i) {
            proof {
                assert(s@.subrange(start as int, start + n)[i as int] != pattern@[i as int]);
            }
            return false;
        }
        i += 1;
    }
    proof {
        assert(s@.subrange(start as int, start + n) =~= pattern@);
    }
    true
}

/// Whether `pattern` occurs somewhere in `s`.
pub fn contains_text(s: &str, pattern: &str) -> (found: bool)
    ensures
        found == occurs_in(pattern@, s@),
{
    let len = s.unicode_len();
    let n = pattern.unicode_len();
    if n > len {
        return false;
    }
    if n == 0 {
        proof {
            assert(window(s@, 0, 0) =~= pattern@);
        }
        return true;
    }
    let mut start: usize = 0;
    while start <= len - n
        invariant
            start <= len - n + 1,
            len == s@.len(),
            n == pattern@.len(),
            0 < n <= len,
            forall|k: int| 0 <= k < start ==> #[trigger] window(s@, k, n as int) != pattern@,
        decreases len - n + 1 - start,
    {
        if found_at(s, pattern, start, n, len) {
            return true;
        }
        start += 1;
    }
    false
}

/// Trusted: `String::push` from the standard library appends the character
/// to the end of the string.
pub assume_specification[ String::push ](s: &mut String, ch: char)
    ensures
        final(s)@ == old(s)@.push(ch),
;

/// The character of a decimal digit.
pub open spec fn digit_char(d: nat) -> char {
    "0123456789"@[d as int]
}

/// A number written in decimal, without sign or leading zeros.
pub open spec fn decimal(n: nat) -> Seq<char>
    decreases n,
{
    if n < 10 {
        seq![digit_char(n)]
    } else {
        decimal(n / 10).push(digit_char(n % 10))
    }
}

fn digit_of(d: u64) -> (c: char)
    requires
        d < 10,
    ensures
        c == digit_char(d as nat),
{
    let digits = "0123456789";
    proof {
        reveal_strlit("0123456789");
    }
    digits.get_char(d as usize)
}

fn push_decimal(out: &mut String, n: u64)
    ensures
        final(out)@ == old(out)@ + decimal(n as nat),
    decreases n,
{
    if n >= 10 {
        push_decimal(out, n / 10);
    }
    out.push(digit_of(n % 10));
    proof {
        assert(out@ =~= old(out)@ + decimal(n as nat));
    }
}

/// The number written in decimal.
pub fn decimal_text(n: u64) -> (out: String)
    ensures
        out@ == decimal(n as nat),
{
    let mut out = String::new();
    push_decimal(&mut out, n);
    proof {
        assert(Seq::<char>::empty() + decimal(n as nat) =~= decimal(n as nat));
    }
    out
}

/// What `str::to_lowercase` of the standard library makes of a text: its
/// lowercase form by the rules of Unicode.
pub uninterp spec fn lowercase_of(s: Seq<char>) -> Seq<char>;

/// Trusted: `str::to_lowercase` from the standard library. The contract
/// only gives its result a name.
#[verifier::external_body]
pub(crate) fn lowercased(s: &str) -> (out: String)
    ensures
        out@ == lowercase_of(s@),
{
    s.to_lowercase()
}

/// What `str::split_whitespace` of the standard library yields for a text:
/// its maximal runs of characters that are not Unicode white space, in
/// order.
pub uninterp spec fn words_of(s: Seq<char>) -> Seq<Seq<char>>;

/// Trusted: `str::split_whitespace` from the standard library, its pieces
/// copied into a vector. The contract only gives the pieces a name.
#[verifier::external_body]
pub(crate) fn split_words(s: &str) -> (words: Vec<String>)
    ensures
        strings_view(words@) == words_of(s@),
{
    s.split_whitespace().map(String::from).collect()
}

/// The place of the first line feed of `s`, or the length of `s` where it
/// has none.
pub open spec fn first_line_feed(s: Seq<char>) -> int
    decreases s.len(),
{
    if s.len() == 0 || s[0] == '\n' {
        0
    } else {
        1 + first_line_feed(s.skip(1))
    }
}

/// A line without the carriage return at its end, if it has one there.
pub open spec fn without_return(line: Seq<char>) -> Seq<char> {
    if line.len() > 0 && line.last() == '\r' {
        line.drop_last()
    } else {
        line
    }
}

/// The lines of a text. A line ends with a line feed, or with a carriage
/// return and a line feed; the ending is no part of the line. What stands
/// behind the last line feed is a line as it is, unless it is empty.
pub open spec fn lines_of(s: Seq<char>) -> Seq<Seq<char>>
    decreases s.len(),
{
    let end = first_line_feed(s);
    if s.len() == 0 {
        Seq::empty()
    } else if 0 <= end < s.len() {
        seq![without_return(s.subrange(0, end))] + lines_of(s.subrange(end + 1, s.len() as int))
    } else {
        seq![s]
    }
}

/// Trusted: `str::lines` from the standard library, its pieces copied into
/// a vector. The contract states what the documentation says of it: the
/// text is cut behind every line feed, the line feed and a carriage return
/// before it are left out of the line, and a last line needs no ending.
#[verifier::external_body]
pub(crate) fn split_lines(s: &str) -> (lines: Vec<String>)
    ensures
        strings_view(lines@) == lines_of(s@),
{
    s.lines().map(String::from).collect()
}

/// What `str::trim` of the standard library leaves of a text: the text
/// without the Unicode white space at its two ends.
pub uninterp spec fn trimmed_of(s: Seq<char>) -> Seq<char>;

/// Trusted: `str::trim` from the standard library, its result copied. The
/// contract only gives the result a name.
#[verifier::external_body]
pub(crate) fn trimmed(s: &str) -> (out: String)
    ensures
        out@ == trimmed_of(s@),
{
    s.trim().to_string()
}

} // verus!
