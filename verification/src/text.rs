//! Small verified helpers for working with strings as sequences of
//! characters: equality, substring search (case-sensitive and
//! ASCII-case-insensitive), and maximal runs of character classes.
//!
//! The free-text patterns this library recognises in CloudFormation error
//! messages are all built from these pieces, so that every pattern has an
//! exact mathematical statement.

use vstd::prelude::*;
use vstd::string::StrSliceExecFns;

verus! {

/// Whether `c` is an ASCII decimal digit.
pub open spec fn is_digit(c: char) -> bool {
    48 <= c as int <= 57
}

/// Whether `c` is an ASCII lowercase letter.
pub open spec fn is_lower(c: char) -> bool {
    97 <= c as int <= 122
}

/// Whether `c` is an ASCII uppercase letter.
pub open spec fn is_upper(c: char) -> bool {
    65 <= c as int <= 90
}

/// Whether two characters are equal up to ASCII case.
pub open spec fn eq_ci(c: char, d: char) -> bool {
    ||| c == d
    ||| (is_upper(c) && c as int + 32 == d as int)
    ||| (is_upper(d) && d as int + 32 == c as int)
}

/// A class of characters that can form a run.
#[derive(Clone, Copy, Debug, PartialEq, Eq, Structural)]
pub enum CharClass {
    /// ASCII letters and digits.
    Alnum,
    /// ASCII letters, digits and `_`.
    Word,
    /// ASCII letters, digits, `:`, `/` and `-`: the characters of an ARN.
    Arn,
    /// ASCII letters and `_`: the characters of a status word.
    StatusWord,
    /// ASCII letters, digits, `_` and `-`: the characters of an encoded
    /// message.
    Encoded,
    /// Anything but a space.
    NonSpace,
    /// A space.
    Space,
}

/// Whether `c` belongs to the class.
pub open spec fn class_contains(class: CharClass, c: char) -> bool {
    match class {
        CharClass::Alnum => is_digit(c) || is_lower(c) || is_upper(c),
        CharClass::Word => is_digit(c) || is_lower(c) || is_upper(c) || c as int == 95,
        CharClass::Arn => is_digit(c) || is_lower(c) || is_upper(c) || c as int == 58 || c
            as int == 47 || c as int == 45,
        CharClass::StatusWord => is_lower(c) || is_upper(c) || c as int == 95,
        CharClass::Encoded => is_digit(c) || is_lower(c) || is_upper(c) || c as int == 95 || c
            as int == 45,
        CharClass::NonSpace => c as int != 32,
        CharClass::Space => c as int == 32,
    }
}

/// Whether `c` belongs to the class.
pub fn class_has(class: CharClass, c: char) -> (r: bool)
    ensures
        r == class_contains(class, c),
{
    let u = c as u32;
    match class {
        CharClass::Alnum => (48 <= u && u <= 57) || (97 <= u && u <= 122) || (65 <= u && u <= 90),
        CharClass::Word => (48 <= u && u <= 57) || (97 <= u && u <= 122) || (65 <= u && u <= 90)
            || u == 95,
        CharClass::Arn => (48 <= u && u <= 57) || (97 <= u && u <= 122) || (65 <= u && u <= 90)
            || u == 58 || u == 47 || u == 45,
        CharClass::StatusWord => (97 <= u && u <= 122) || (65 <= u && u <= 90) || u == 95,
        CharClass::Encoded => (48 <= u && u <= 57) || (97 <= u && u <= 122) || (65 <= u && u <= 90)
            || u == 95 || u == 45,
        CharClass::NonSpace => u != 32,
        CharClass::Space => u == 32,
    }
}

/// Whether two characters are equal up to ASCII case.
pub fn char_eq_ci(c: char, d: char) -> (r: bool)
    ensures
        r == eq_ci(c, d),
{
    if c == d {
        true
    } else {
        let cu = c as u32;
        let du = d as u32;
        (65 <= cu && cu <= 90 && du == cu + 32) || (65 <= du && du <= 90 && cu == du + 32)
    }
}

/// The end of the maximal run of characters of `class` starting at
/// `start`: every character in `[start, run_end)` belongs to the class,
/// and the character at `run_end`, if any, does not.
pub open spec fn run_end(s: Seq<char>, start: int, class: CharClass) -> int
    decreases s.len() - start,
    when 0 <= start <= s.len()
{
    if start < s.len() && class_contains(class, s[start]) {
        run_end(s, start + 1, class)
    } else {
        start
    }
}

/// The characteristic properties of [`run_end`].
pub proof fn lemma_run_end(s: Seq<char>, start: int, class: CharClass)
    requires
        0 <= start <= s.len(),
    ensures
        start <= run_end(s, start, class) <= s.len(),
        forall|j: int|
            start <= j < run_end(s, start, class) ==> class_contains(class, s[j]),
        run_end(s, start, class) < s.len() ==> !class_contains(
            class,
            s[run_end(s, start, class)],
        ),
    decreases s.len() - start,
{
    if start < s.len() && class_contains(class, s[start]) {
        lemma_run_end(s, start + 1, class);
    }
}

/// Scan the maximal run of characters of `class` starting at `start`.
pub fn scan_run(s: &str, s_len: usize, start: usize, class: CharClass) -> (end: usize)
    requires
        s_len == s@.len(),
        start <= s_len,
    ensures
        end == run_end(s@, start as int, class),
        start <= end <= s_len,
{
    let mut i: usize = start;
    while i < s_len && class_has(class, s.get_char(i))
        invariant
            start <= i <= s_len,
            s_len == s@.len(),
            run_end(s@, start as int, class) == run_end(s@, i as int, class),
        decreases s_len - i,
    {
        i = i + 1;
    }
    i
}

/// Whether `pat` occurs in `s` at position `i`, character for character.
pub open spec fn matches_at(s: Seq<char>, pat: Seq<char>, i: int) -> bool {
    &&& 0 <= i
    &&& i + pat.len() <= s.len()
    &&& forall|j: int| 0 <= j < pat.len() ==> s[i + j] == pat[j]
}

/// Whether `pat` occurs somewhere in `s`, character for character.
pub open spec fn contains_sub(s: Seq<char>, pat: Seq<char>) -> bool {
    exists|i: int| matches_at(s, pat, i)
}

/// Whether `pat` occurs in `s` at position `i`, up to ASCII case.
pub open spec fn ci_matches_at(s: Seq<char>, pat: Seq<char>, i: int) -> bool {
    &&& 0 <= i
    &&& i + pat.len() <= s.len()
    &&& forall|j: int| 0 <= j < pat.len() ==> eq_ci(s[i + j], pat[j])
}

/// Whether `pat` occurs somewhere in `s`, up to ASCII case.
pub open spec fn ci_contains(s: Seq<char>, pat: Seq<char>) -> bool {
    exists|i: int| ci_matches_at(s, pat, i)
}

/// Test whether `pat` occurs at position `i` of `s`, character for
/// character.
pub fn match_at(s: &str, s_len: usize, i: usize, pat: &str) -> (r: bool)
    requires
        s_len == s@.len(),
        i <= s_len,
    ensures
        r == matches_at(s@, pat@, i as int),
{
    let pat_len = pat.unicode_len();
    if pat_len > s_len - i {
        return false;
    }
    let mut j: usize = 0;
    while j < pat_len
        invariant
            j <= pat_len,
            s_len == s@.len(),
            pat_len == pat@.len(),
            i + pat_len <= s_len,
            forall|k: int| 0 <= k < j ==> s@[i + k] == pat@[k],
        decreases pat_len - j,
    {
        if s.get_char(i + j) != pat.get_char(j) {
            return false;
        }
        j = j + 1;
    }
    true
}

/// Test whether `pat` occurs at position `i` of `s`, up to ASCII case.
pub fn ci_match_at(s: &str, s_len: usize, i: usize, pat: &str) -> (r: bool)
    requires
        s_len == s@.len(),
        i <= s_len,
    ensures
        r == ci_matches_at(s@, pat@, i as int),
{
    let pat_len = pat.unicode_len();
    if pat_len > s_len - i {
        return false;
    }
    let mut j: usize = 0;
    while j < pat_len
        invariant
            j <= pat_len,
            s_len == s@.len(),
            pat_len == pat@.len(),
            i + pat_len <= s_len,
            forall|k: int| 0 <= k < j ==> eq_ci(s@[i + k], pat@[k]),
        decreases pat_len - j,
    {
        if !char_eq_ci(s.get_char(i + j), pat.get_char(j)) {
            return false;
        }
        j = j + 1;
    }
    true
}

/// Character-by-character equality of two string slices.
pub fn str_eq(a: &str, b: &str) -> (r: bool)
    ensures
        r == (a@ == b@),
{
    let a_len = a.unicode_len();
    let b_len = b.unicode_len();
    if a_len != b_len {
        return false;
    }
    let mut i: usize = 0;
    while i < a_len
        invariant
            i <= a_len,
            a_len == a@.len(),
            a_len == b@.len(),
            forall|j: int| 0 <= j < i ==> a@[j] == b@[j],
        decreases a_len - i,
    {
        if a.get_char(i) != b.get_char(i) {
            return false;
        }
        i = i + 1;
    }
    proof {
        assert(a@ =~= b@);
    }
    true
}

/// Whether `pat` occurs somewhere in `s`, character for character.
pub fn str_contains(s: &str, pat: &str) -> (r: bool)
    ensures
        r == contains_sub(s@, pat@),
{
    let s_len = s.unicode_len();
    let mut i: usize = 0;
    while i < s_len
        invariant
            i <= s_len,
            s_len == s@.len(),
            forall|k: int| 0 <= k < i ==> !matches_at(s@, pat@, k),
        decreases s_len - i,
    {
        if match_at(s, s_len, i, pat) {
            return true;
        }
        i = i + 1;
    }
    if match_at(s, s_len, s_len, pat) {
        return true;
    }
    proof {
        assert forall|k: int| !matches_at(s@, pat@, k) by {
            if 0 <= k <= s_len {
                assert(!matches_at(s@, pat@, k));
            }
        }
    }
    false
}

/// Whether `pat` occurs somewhere in `s`, up to ASCII case.
pub fn str_contains_ci(s: &str, pat: &str) -> (r: bool)
    ensures
        r == ci_contains(s@, pat@),
{
    let s_len = s.unicode_len();
    let mut i: usize = 0;
    while i < s_len
        invariant
            i <= s_len,
            s_len == s@.len(),
            forall|k: int| 0 <= k < i ==> !ci_matches_at(s@, pat@, k),
        decreases s_len - i,
    {
        if ci_match_at(s, s_len, i, pat) {
            return true;
        }
        i = i + 1;
    }
    if ci_match_at(s, s_len, s_len, pat) {
        return true;
    }
    proof {
        assert forall|k: int| !ci_matches_at(s@, pat@, k) by {
            if 0 <= k <= s_len {
                assert(!ci_matches_at(s@, pat@, k));
            }
        }
    }
    false
}

} // verus!
