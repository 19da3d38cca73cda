//! Verified text utilities: character classes, substring search, trimming,
//! line splitting, token and digit-run extraction, and decimal rendering.
//!
//! All external tool output reaches the library as plain text; the parsers in
//! the other modules are built from these primitives.

use vstd::prelude::*;
use vstd::string::StrSliceExecFns;

verus! {

// ---------------------------------------------------------------------------
// Character classes
// ---------------------------------------------------------------------------

/// The Unicode `White_Space` characters, as `char::is_whitespace` counts them.
pub open spec fn is_wspace(c: char) -> bool {
    ||| c == '\u{0009}'
    ||| c == '\u{000A}'
    ||| c == '\u{000B}'
    ||| c == '\u{000C}'
    ||| c == '\u{000D}'
    ||| c == ' '
    ||| c == '\u{0085}'
    ||| c == '\u{00A0}'
    ||| c == '\u{1680}'
    ||| (0x2000 <= c as u32 && c as u32 <= 0x200A)
    ||| c == '\u{2028}'
    ||| c == '\u{2029}'
    ||| c == '\u{202F}'
    ||| c == '\u{205F}'
    ||| c == '\u{3000}'
}

pub fn is_whitespace_char(c: char) -> (r: bool)
    ensures
        r == is_wspace(c),
{
    c == '\u{0009}' || c == '\u{000A}' || c == '\u{000B}' || c == '\u{000C}' || c == '\u{000D}'
        || c == ' ' || c == '\u{0085}' || c == '\u{00A0}' || c == '\u{1680}' || (c as u32 >= 0x2000
        && c as u32 <= 0x200A) || c == '\u{2028}' || c == '\u{2029}' || c == '\u{202F}'
        || c == '\u{205F}' || c == '\u{3000}'
}

pub open spec fn is_digit(c: char) -> bool {
    0x30 <= c as u32 && c as u32 <= 0x39
}

pub fn is_digit_char(c: char) -> (r: bool)
    ensures
        r == is_digit(c),
{
    c as u32 >= 0x30 && c as u32 <= 0x39
}

// ---------------------------------------------------------------------------
// Equality and prefixes
// ---------------------------------------------------------------------------

/// Character-for-character equality of two string slices.
pub fn str_eq(a: &str, b: &str) -> (r: bool)
    ensures
        r == (a@ == b@),
{
    let alen = a.unicode_len();
    let blen = b.unicode_len();
    if alen != blen {
        return false;
    }
    let mut i: usize = 0;
    while i < alen
        invariant
            0 <= i <= alen,
            alen == a@.len(),
            alen == b@.len(),
            forall|k: int| 0 <= k < i ==> a@[k] == b@[k],
        decreases alen - i,
    {
        if a.get_char(i) != b.get_char(i) {
            return false;
        }
        i += 1;
    }
    proof {
        assert(a@ =~= b@);
    }
    true
}

/// `p` occurs in `s` starting at position `i`.
pub open spec fn occurs_at(s: Seq<char>, p: Seq<char>, i: int) -> bool {
    &&& 0 <= i
    &&& i + p.len() <= s.len()
    &&& forall|k: int| 0 <= k < p.len() ==> s[i + k] == p[k]
}

/// `p` is a prefix of `s`.
pub open spec fn is_prefix(s: Seq<char>, p: Seq<char>) -> bool {
    occurs_at(s, p, 0)
}

pub fn starts_with_str(s: &str, p: &str) -> (r: bool)
    ensures
        r == is_prefix(s@, p@),
{
    let slen = s.unicode_len();
    let plen = p.unicode_len();
    if plen > slen {
        return false;
    }
    let mut i: usize = 0;
    while i < plen
        invariant
            0 <= i <= plen,
            plen == p@.len(),
            slen == s@.len(),
            plen <= slen,
            forall|k: int| 0 <= k < i ==> s@[k] == p@[k],
        decreases plen - i,
    {
        if s.get_char(i) != p.get_char(i) {
            return false;
        }
        i += 1;
    }
    true
}

// ---------------------------------------------------------------------------
// Substring search
// ---------------------------------------------------------------------------

/// Index of the first occurrence of `p` in `s` at or after `i`, if any.
pub open spec fn find_from(s: Seq<char>, p: Seq<char>, i: int) -> Option<int>
    decreases s.len() - i,
{
    if i < 0 || i + p.len() > s.len() {
        None
    } else if occurs_at(s, p, i) {
        Some(i)
    } else {
        find_from(s, p, i + 1)
    }
}

/// Index of the first occurrence of `p` in `s`, if any.
pub open spec fn find_first(s: Seq<char>, p: Seq<char>) -> Option<int> {
    find_from(s, p, 0)
}

pub proof fn lemma_find_from_some(s: Seq<char>, p: Seq<char>, i: int, j: int)
    requires
        find_from(s, p, i) == Some(j),
    ensures
        i <= j,
        occurs_at(s, p, j),
    decreases s.len() - i,
{
    if !(i < 0 || i + p.len() > s.len()) {
        if !occurs_at(s, p, i) {
            lemma_find_from_some(s, p, i + 1, j);
        }
    }
}

/// `s` contains `p` somewhere.
pub open spec fn contains_seq(s: Seq<char>, p: Seq<char>) -> bool {
    find_first(s, p) is Some
}

/// Check whether `p` occurs in `s` at position `at`.
fn occurs_at_exec(s: &str, p: &str, at: usize) -> (r: bool)
    requires
        at + p@.len() <= s@.len(),
    ensures
        r == occurs_at(s@, p@, at as int),
{
    let slen = s.unicode_len();
    let plen = p.unicode_len();
    let mut k: usize = 0;
    while k < plen
        invariant
            0 <= k <= plen,
            plen == p@.len(),
            slen == s@.len(),
            at + plen <= slen,
            forall|j: int| 0 <= j < k ==> s@[at + j] == p@[j],
        decreases plen - k,
    {
        if s.get_char(at + k) != p.get_char(k) {
            return false;
        }
        k += 1;
    }
    true
}

/// First occurrence of `p` in `s`, scanning left to right.
pub fn find_substr(s: &str, p: &str) -> (r: Option<usize>)
    ensures
        match r {
            Some(u) => find_first(s@, p@) == Some(u as int),
            None => find_first(s@, p@) is None,
        },
{
    let slen = s.unicode_len();
    let plen = p.unicode_len();
    if plen > slen {
        return None;
    }
    if plen == 0 {
        return Some(0);
    }
    let mut i: usize = 0;
    while i <= slen - plen
        invariant
            0 <= i,
            i <= slen - plen + 1,
            0 < plen <= slen,
            slen == s@.len(),
            plen == p@.len(),
            find_from(s@, p@, 0) == find_from(s@, p@, i as int),
        decreases slen - i,
    {
        if occurs_at_exec(s, p, i) {
            return Some(i);
        }
        i += 1;
    }
    None
}

pub fn contains_substr(s: &str, p: &str) -> (r: bool)
    ensures
        r == contains_seq(s@, p@),
{
    match find_substr(s, p) {
        Some(_) => true,
        None => false,
    }
}

// ---------------------------------------------------------------------------
// Single-character search
// ---------------------------------------------------------------------------

/// Index of the first `c` in `s` at or after `i`, or `s.len()` if there is none.
pub open spec fn char_from(s: Seq<char>, c: char, i: int) -> int
    decreases s.len() - i,
{
    if i < 0 || i >= s.len() {
        s.len() as int
    } else if s[i] == c {
        i
    } else {
        char_from(s, c, i + 1)
    }
}


pub fn find_char_from(s: &str, c: char, from: usize) -> (r: usize)
    requires
        from <= s@.len(),
    ensures
        r == char_from(s@, c, from as int),
        from <= r <= s@.len(),
{
    let slen = s.unicode_len();
    let mut i: usize = from;
    while i < slen
        invariant
            from <= i <= slen,
            slen == s@.len(),
            char_from(s@, c, from as int) == char_from(s@, c, i as int),
        decreases slen - i,
    {
        if s.get_char(i) == c {
            return i;
        }
        i += 1;
    }
    slen
}

pub fn contains_char(s: &str, c: char) -> (r: bool)
    ensures
        r == (char_from(s@, c, 0) < s@.len()),
{
    let i = find_char_from(s, c, 0);
    i < s.unicode_len()
}

/// Index of the last `c` in `s` at or before `i`, or `None`.
pub open spec fn char_back_from(s: Seq<char>, c: char, i: int) -> Option<int>
    decreases i + 1,
{
    if i < 0 || i >= s.len() {
        None
    } else if s[i] == c {
        Some(i)
    } else {
        char_back_from(s, c, i - 1)
    }
}

/// Index of the last `c` in `s`, or `None`.
pub open spec fn rfind_char_spec(s: Seq<char>, c: char) -> Option<int> {
    char_back_from(s, c, s.len() - 1)
}

pub proof fn lemma_char_back_some(s: Seq<char>, c: char, i: int, j: int)
    requires
        char_back_from(s, c, i) == Some(j),
    ensures
        0 <= j <= i,
        j < s.len(),
        s[j] == c,
    decreases i + 1,
{
    if !(i < 0 || i >= s.len()) {
        if s[i] != c {
            lemma_char_back_some(s, c, i - 1, j);
        }
    }
}

// ---------------------------------------------------------------------------
// Class-based scanning: whitespace and digits
// ---------------------------------------------------------------------------

/// First index at or after `i` holding a non-whitespace character, else `s.len()`.
pub open spec fn skip_ws(s: Seq<char>, i: int) -> int
    decreases s.len() - i,
{
    if i < 0 || i >= s.len() {
        s.len() as int
    } else if is_wspace(s[i]) {
        skip_ws(s, i + 1)
    } else {
        i
    }
}

/// First index at or after `i` holding a whitespace character, else `s.len()`.
pub open spec fn next_ws(s: Seq<char>, i: int) -> int
    decreases s.len() - i,
{
    if i < 0 || i >= s.len() {
        s.len() as int
    } else if is_wspace(s[i]) {
        i
    } else {
        next_ws(s, i + 1)
    }
}

/// First index at or after `i` holding an ASCII digit, else `s.len()`.
pub open spec fn skip_to_digit(s: Seq<char>, i: int) -> int
    decreases s.len() - i,
{
    if i < 0 || i >= s.len() {
        s.len() as int
    } else if is_digit(s[i]) {
        i
    } else {
        skip_to_digit(s, i + 1)
    }
}

/// First index at or after `i` holding a non-digit character, else `s.len()`.
pub open spec fn digit_run_end(s: Seq<char>, i: int) -> int
    decreases s.len() - i,
{
    if i < 0 || i >= s.len() {
        s.len() as int
    } else if is_digit(s[i]) {
        digit_run_end(s, i + 1)
    } else {
        i
    }
}





pub fn find_non_ws(s: &str, from: usize) -> (r: usize)
    requires
        from <= s@.len(),
    ensures
        r == skip_ws(s@, from as int),
        from <= r <= s@.len(),
        r < s@.len() ==> !is_wspace(s@[r as int]),
{
    let slen = s.unicode_len();
    let mut i: usize = from;
    while i < slen
        invariant
            from <= i <= slen,
            slen == s@.len(),
            skip_ws(s@, from as int) == skip_ws(s@, i as int),
        decreases slen - i,
    {
        if !is_whitespace_char(s.get_char(i)) {
            return i;
        }
        i += 1;
    }
    slen
}

pub fn find_ws(s: &str, from: usize) -> (r: usize)
    requires
        from <= s@.len(),
    ensures
        r == next_ws(s@, from as int),
        from <= r <= s@.len(),
        r < s@.len() ==> is_wspace(s@[r as int]),
{
    let slen = s.unicode_len();
    let mut i: usize = from;
    while i < slen
        invariant
            from <= i <= slen,
            slen == s@.len(),
            next_ws(s@, from as int) == next_ws(s@, i as int),
        decreases slen - i,
    {
        if is_whitespace_char(s.get_char(i)) {
            return i;
        }
        i += 1;
    }
    slen
}

pub fn find_digit(s: &str, from: usize) -> (r: usize)
    requires
        from <= s@.len(),
    ensures
        r == skip_to_digit(s@, from as int),
        from <= r <= s@.len(),
        r < s@.len() ==> is_digit(s@[r as int]),
{
    let slen = s.unicode_len();
    let mut i: usize = from;
    while i < slen
        invariant
            from <= i <= slen,
            slen == s@.len(),
            skip_to_digit(s@, from as int) == skip_to_digit(s@, i as int),
        decreases slen - i,
    {
        if is_digit_char(s.get_char(i)) {
            return i;
        }
        i += 1;
    }
    slen
}

pub fn find_non_digit(s: &str, from: usize) -> (r: usize)
    requires
        from <= s@.len(),
    ensures
        r == digit_run_end(s@, from as int),
        from <= r <= s@.len(),
        r < s@.len() ==> !is_digit(s@[r as int]),
{
    let slen = s.unicode_len();
    let mut i: usize = from;
    while i < slen
        invariant
            from <= i <= slen,
            slen == s@.len(),
            digit_run_end(s@, from as int) == digit_run_end(s@, i as int),
        decreases slen - i,
    {
        if !is_digit_char(s.get_char(i)) {
            return i;
        }
        i += 1;
    }
    slen
}

// ---------------------------------------------------------------------------
// Trimming
// ---------------------------------------------------------------------------

/// One past the last non-whitespace character strictly before `i`, else `0`.
pub open spec fn trim_end_idx(s: Seq<char>, i: int) -> int
    decreases i + 1,
{
    if i <= 0 || i > s.len() {
        0
    } else if is_wspace(s[i - 1]) {
        trim_end_idx(s, i - 1)
    } else {
        i
    }
}

pub proof fn lemma_trim_end_bounds(s: Seq<char>, i: int)
    requires
        0 <= i <= s.len(),
    ensures
        0 <= trim_end_idx(s, i) <= i,
    decreases i,
{
    if i > 0 && is_wspace(s[i - 1]) {
        lemma_trim_end_bounds(s, i - 1);
    }
}

/// The sequence with leading and trailing whitespace removed.
pub open spec fn trim_spec(s: Seq<char>) -> Seq<char> {
    let a = skip_ws(s, 0);
    let b = trim_end_idx(s, s.len() as int);
    if a >= b {
        Seq::empty()
    } else {
        s.subrange(a, b)
    }
}

pub fn trim_str<'a>(s: &'a str) -> (r: &'a str)
    ensures
        r@ == trim_spec(s@),
{
    let slen = s.unicode_len();
    let a = find_non_ws(s, 0);
    if a == slen {
        proof {
            lemma_trim_end_bounds(s@, slen as int);
        }
        let r = s.substring_char(slen, slen);
        proof {
            assert(r@ =~= trim_spec(s@));
        }
        return r;
    }
    let mut b: usize = slen;
    while b > a && is_whitespace_char(s.get_char(b - 1))
        invariant
            a < slen,
            a < b <= slen,
            slen == s@.len(),
            !is_wspace(s@[a as int]),
            trim_end_idx(s@, slen as int) == trim_end_idx(s@, b as int),
        decreases b,
    {
        b -= 1;
    }
    proof {
        assert(trim_end_idx(s@, b as int) == b);
    }
    let r = s.substring_char(a, b);
    proof {
        assert(r@ =~= trim_spec(s@));
    }
    r
}

// ---------------------------------------------------------------------------
// Digit runs and whitespace-delimited tokens
// ---------------------------------------------------------------------------

/// The first maximal run of ASCII digits in `s`, if any.
pub open spec fn first_number(s: Seq<char>) -> Option<Seq<char>> {
    let a = skip_to_digit(s, 0);
    if a >= s.len() {
        None
    } else {
        Some(s.subrange(a, digit_run_end(s, a)))
    }
}

/// The first whitespace-delimited token of `s`, if any.
pub open spec fn first_token(s: Seq<char>) -> Option<Seq<char>> {
    let a = skip_ws(s, 0);
    if a >= s.len() {
        None
    } else {
        Some(s.subrange(a, next_ws(s, a)))
    }
}

/// The second whitespace-delimited token of `s`, if any.
pub open spec fn second_token(s: Seq<char>) -> Option<Seq<char>> {
    let a = skip_ws(s, 0);
    if a >= s.len() {
        None
    } else {
        let b = next_ws(s, a);
        let c = skip_ws(s, b);
        if c >= s.len() {
            None
        } else {
            Some(s.subrange(c, next_ws(s, c)))
        }
    }
}

pub fn first_token_str<'a>(s: &'a str) -> (r: Option<&'a str>)
    ensures
        match r {
            Some(t) => first_token(s@) == Some(t@),
            None => first_token(s@) is None,
        },
{
    let slen = s.unicode_len();
    let a = find_non_ws(s, 0);
    if a == slen {
        return None;
    }
    let b = find_ws(s, a);
    Some(s.substring_char(a, b))
}

pub fn second_token_str<'a>(s: &'a str) -> (r: Option<&'a str>)
    ensures
        match r {
            Some(t) => second_token(s@) == Some(t@),
            None => second_token(s@) is None,
        },
{
    let slen = s.unicode_len();
    let a = find_non_ws(s, 0);
    if a == slen {
        return None;
    }
    let b = find_ws(s, a);
    let c = find_non_ws(s, b);
    if c == slen {
        return None;
    }
    let d = find_ws(s, c);
    Some(s.substring_char(c, d))
}

// ---------------------------------------------------------------------------
// Line splitting
// ---------------------------------------------------------------------------

/// A line terminator's carriage return, removed when the line ends in one.
pub open spec fn strip_cr(l: Seq<char>) -> Seq<char> {
    if l.len() > 0 && l[l.len() - 1] == '\r' {
        l.subrange(0, l.len() - 1)
    } else {
        l
    }
}

/// The lines of `s`: split at `'\n'`, dropping a `'\r'` that precedes the
/// split point, with no empty final line after a trailing terminator.
pub open spec fn split_lines_spec(s: Seq<char>) -> Seq<Seq<char>>
    decreases s.len(),
{
    if s.len() == 0 {
        Seq::empty()
    } else {
        let i = char_from(s, '\n', 0);
        if 0 <= i < s.len() {
            seq![strip_cr(s.subrange(0, i))] + split_lines_spec(
                s.subrange(i + 1, s.len() as int),
            )
        } else {
            seq![s]
        }
    }
}

proof fn lemma_char_from_shift(s: Seq<char>, c: char, pos: int, i: int)
    requires
        0 <= pos <= i <= s.len(),
    ensures
        char_from(s.subrange(pos, s.len() as int), c, i - pos) == char_from(s, c, i) - pos,
    decreases s.len() - i,
{
    let t = s.subrange(pos, s.len() as int);
    if i >= s.len() {
        assert(char_from(t, c, i - pos) == t.len());
    } else if s[i] == c {
        assert(t[i - pos] == c);
    } else {
        assert(t[i - pos] != c);
        lemma_char_from_shift(s, c, pos, i + 1);
    }
}

pub fn split_lines<'a>(s: &'a str) -> (r: Vec<&'a str>)
    ensures
        line_views(r@) == split_lines_spec(s@),
{
    let slen = s.unicode_len();
    let mut out: Vec<&str> = Vec::new();
    let mut pos: usize = 0;
    proof {
        assert(s@.subrange(0, slen as int) =~= s@);
        assert(line_views(out@) + split_lines_spec(s@) =~= split_lines_spec(s@));
    }
    while pos < slen
        invariant
            0 <= pos <= slen,
            slen == s@.len(),
            split_lines_spec(s@) =~= line_views(out@) + split_lines_spec(
                s@.subrange(pos as int, slen as int),
            ),
        decreases slen - pos,
    {
        let ghost t = s@.subrange(pos as int, slen as int);
        let nl = find_char_from(s, '\n', pos);
        proof {
            lemma_char_from_shift(s@, '\n', pos as int, pos as int);
            assert(char_from(t, '\n', 0) == nl - pos);
        }
        let mut end = nl;
        if nl < slen && nl > pos && s.get_char(nl - 1) == '\r' {
            end = nl - 1;
        }
        let piece = s.substring_char(pos, end);
        let ghost old_out = out@;
        out.push(piece);
        if nl < slen {
            proof {
                assert(t.len() > 0);
                assert(split_lines_spec(t) == seq![strip_cr(t.subrange(0, nl - pos))]
                    + split_lines_spec(t.subrange(nl - pos + 1, t.len() as int)));
                assert(t.subrange(0, nl - pos) =~= s@.subrange(pos as int, nl as int));
                assert(strip_cr(s@.subrange(pos as int, nl as int)) =~= piece@);
                assert(t.subrange(nl - pos + 1, t.len() as int) =~= s@.subrange(
                    nl + 1,
                    slen as int,
                ));
                assert(line_views(out@) =~= line_views(old_out).push(piece@));
                assert(line_views(old_out).push(piece@) + split_lines_spec(
                    s@.subrange(nl + 1, slen as int),
                ) =~= line_views(old_out) + split_lines_spec(t));
            }
            pos = nl + 1;
        } else {
            proof {
                assert(t.len() > 0);
                assert(char_from(t, '\n', 0) == t.len());
                assert(split_lines_spec(t) == seq![t]);
                assert(piece@ =~= t);
                assert(line_views(out@) =~= line_views(old_out).push(piece@));
                assert(line_views(old_out).push(t) + split_lines_spec(
                    s@.subrange(slen as int, slen as int),
                ) =~= line_views(old_out) + split_lines_spec(t));
            }
            pos = slen;
        }
    }
    proof {
        assert(s@.subrange(pos as int, slen as int).len() == 0);
        assert(line_views(out@) + split_lines_spec(s@.subrange(pos as int, slen as int))
            =~= line_views(out@));
    }
    out
}

// ---------------------------------------------------------------------------
// Case-insensitive "hdmi" search
// ---------------------------------------------------------------------------

pub fn contains_hdmi_str(s: &str) -> (r: bool)
    ensures
        r == crate::contains_hdmi(s@),
{
    let slen = s.unicode_len();
    if slen < 4 {
        proof {
            assert(forall|i: int| !crate::hdmi_at(s@, i));
        }
        return false;
    }
    let mut i: usize = 0;
    while i <= slen - 4
        invariant
            0 <= i <= slen - 3,
            4 <= slen,
            slen == s@.len(),
            forall|j: int| 0 <= j < i ==> !crate::hdmi_at(s@, j),
        decreases slen - i,
    {
        let c0 = s.get_char(i);
        let c1 = s.get_char(i + 1);
        let c2 = s.get_char(i + 2);
        let c3 = s.get_char(i + 3);
        if (c0 == 'h' || c0 == 'H') && (c1 == 'd' || c1 == 'D') && (c2 == 'm' || c2 == 'M') && (c3
            == 'i' || c3 == 'I') {
            proof {
                assert(crate::hdmi_at(s@, i as int));
            }
            return true;
        }
        i += 1;
    }
    proof {
        assert(forall|j: int| j >= i ==> !crate::hdmi_at(s@, j));
    }
    false
}

// ---------------------------------------------------------------------------
// Decimal rendering
// ---------------------------------------------------------------------------

/// The decimal digit character for `d` in `0..10`.
pub open spec fn dec_digit(d: int) -> char {
    if d == 0 {
        '0'
    } else if d == 1 {
        '1'
    } else if d == 2 {
        '2'
    } else if d == 3 {
        '3'
    } else if d == 4 {
        '4'
    } else if d == 5 {
        '5'
    } else if d == 6 {
        '6'
    } else if d == 7 {
        '7'
    } else if d == 8 {
        '8'
    } else {
        '9'
    }
}

/// The decimal representation of `n`, without leading zeros (except for zero).
pub open spec fn dec_rep(n: nat) -> Seq<char>
    decreases n,
{
    if n < 10 {
        seq![dec_digit(n as int)]
    } else {
        dec_rep(n / 10).push(dec_digit((n % 10) as int))
    }
}

fn digit_str(d: usize) -> (r: &'static str)
    requires
        d < 10,
    ensures
        r@ =~= seq![dec_digit(d as int)],
{
    proof {
        reveal_strlit("0");
        reveal_strlit("1");
        reveal_strlit("2");
        reveal_strlit("3");
        reveal_strlit("4");
        reveal_strlit("5");
        reveal_strlit("6");
        reveal_strlit("7");
        reveal_strlit("8");
        reveal_strlit("9");
    }
    if d == 0 {
        "0"
    } else if d == 1 {
        "1"
    } else if d == 2 {
        "2"
    } else if d == 3 {
        "3"
    } else if d == 4 {
        "4"
    } else if d == 5 {
        "5"
    } else if d == 6 {
        "6"
    } else if d == 7 {
        "7"
    } else if d == 8 {
        "8"
    } else {
        "9"
    }
}

/// The digit characters of `ds` in reverse order.
pub open spec fn rev_digit_chars(ds: Seq<usize>) -> Seq<char> {
    Seq::new(ds.len(), |i: int| dec_digit(ds[ds.len() - 1 - i] as int))
}

pub fn usize_to_string(n: usize) -> (r: String)
    ensures
        r@ == dec_rep(n as nat),
{
    let mut digits: Vec<usize> = Vec::new();
    let mut m: usize = n;
    if m == 0 {
        let mut r = String::new();
        r.append(digit_str(0));
        proof {
            assert(r@ =~= dec_rep(0));
        }
        return r;
    }
    while m > 0
        invariant
            forall|i: int| 0 <= i < digits@.len() ==> digits@[i] < 10,
            if m > 0 {
                dec_rep(n as nat) =~= dec_rep(m as nat) + rev_digit_chars(digits@)
            } else {
                digits@.len() > 0 && dec_rep(n as nat) =~= rev_digit_chars(digits@)
            },
        decreases m,
    {
        let ghost old_digits = digits@;
        let ghost old_m = m as nat;
        digits.push(m % 10);
        m = m / 10;
        proof {
            assert(rev_digit_chars(old_digits.push((old_m % 10) as usize)) =~= seq![
                dec_digit((old_m % 10) as int),
            ] + rev_digit_chars(old_digits));
            if m > 0 {
                assert(dec_rep(old_m) == dec_rep(old_m / 10).push(
                    dec_digit((old_m % 10) as int),
                ));
                assert(dec_rep(n as nat) =~= dec_rep(m as nat) + rev_digit_chars(digits@));
            } else {
                assert(dec_rep(old_m) =~= seq![dec_digit(old_m as int)]);
                assert(dec_rep(n as nat) =~= rev_digit_chars(digits@));
            }
        }
    }
    let count = digits.len();
    let mut r = String::new();
    let mut k: usize = count;
    while k > 0
        invariant
            0 <= k <= count,
            count == digits@.len(),
            forall|i: int| 0 <= i < digits@.len() ==> digits@[i] < 10,
            dec_rep(n as nat) =~= rev_digit_chars(digits@),
            r@ =~= rev_digit_chars(digits@).subrange(0, (count - k) as int),
        decreases k,
    {
        r.append(digit_str(digits[k - 1]));
        k -= 1;
        proof {
            assert(r@ =~= rev_digit_chars(digits@).subrange(0, (count - k) as int));
        }
    }
    proof {
        assert(rev_digit_chars(digits@).subrange(0, count as int) =~= rev_digit_chars(digits@));
    }
    r
}

// ---------------------------------------------------------------------------
// Joining and membership
// ---------------------------------------------------------------------------

/// The views of a sequence of owned strings.
pub open spec fn string_views(v: Seq<String>) -> Seq<Seq<char>> {
    Seq::new(v.len(), |i: int| v[i]@)
}

/// The views of a sequence of string pairs.
pub open spec fn pair_views(v: Seq<(String, String)>) -> Seq<(Seq<char>, Seq<char>)> {
    Seq::new(v.len(), |i: int| (v[i].0@, v[i].1@))
}

/// The views of a sequence of string slices.
pub open spec fn line_views(v: Seq<&str>) -> Seq<Seq<char>> {
    Seq::new(v.len(), |i: int| v[i]@)
}

/// `xs` joined with `sep` between consecutive elements.
pub open spec fn join_with(xs: Seq<Seq<char>>, sep: Seq<char>) -> Seq<char>
    decreases xs.len(),
{
    if xs.len() == 0 {
        Seq::empty()
    } else if xs.len() == 1 {
        xs[0]
    } else {
        xs[0] + sep + join_with(xs.drop_first(), sep)
    }
}

proof fn lemma_join_snoc(xs: Seq<Seq<char>>, sep: Seq<char>, i: int)
    requires
        0 <= i < xs.len(),
    ensures
        join_with(xs.take(i + 1), sep) =~= if i == 0 {
            xs[0]
        } else {
            join_with(xs.take(i), sep) + sep + xs[i]
        },
    decreases i,
{
    if i == 0 {
        assert(xs.take(1).len() == 1);
        assert(xs.take(1)[0] == xs[0]);
    } else {
        let ys = xs.drop_first();
        assert(xs.take(i + 1).len() == i + 1 >= 2);
        assert(xs.take(i + 1).drop_first() =~= ys.take(i));
        assert(join_with(xs.take(i + 1), sep) == xs[0] + sep + join_with(ys.take(i), sep));
        lemma_join_snoc(ys, sep, i - 1);
        if i == 1 {
            assert(join_with(xs.take(1), sep) == xs[0]);
        } else {
            assert(xs.take(i).drop_first() =~= ys.take(i - 1));
            assert(join_with(xs.take(i), sep) == xs[0] + sep + join_with(ys.take(i - 1), sep));
        }
        assert(ys[i - 1] == xs[i]);
    }
}

pub fn join_strings(v: &Vec<String>, sep: &str) -> (r: String)
    ensures
        r@ == join_with(string_views(v@), sep@),
{
    let mut r = String::new();
    let mut i: usize = 0;
    while i < v.len()
        invariant
            0 <= i <= v@.len(),
            r@ =~= join_with(string_views(v@).take(i as int), sep@),
        decreases v@.len() - i,
    {
        if i > 0 {
            r.append(sep);
        }
        r.append(v[i].as_str());
        proof {
            lemma_join_snoc(string_views(v@), sep@, i as int);
        }
        i += 1;
    }
    proof {
        assert(string_views(v@).take(v@.len() as int) =~= string_views(v@));
    }
    r
}

/// Whether some element of `v` equals `x`, character for character.
pub fn vec_contains_str(v: &Vec<String>, x: &str) -> (r: bool)
    ensures
        r == string_views(v@).contains(x@),
{
    let mut i: usize = 0;
    while i < v.len()
        invariant
            0 <= i <= v@.len(),
            forall|k: int| 0 <= k < i ==> string_views(v@)[k] != x@,
        decreases v@.len() - i,
    {
        if str_eq(v[i].as_str(), x) {
            proof {
                assert(string_views(v@)[i as int] == x@);
            }
            return true;
        }
        i += 1;
    }
    proof {
        assert(!string_views(v@).contains(x@));
    }
    false
}

pub fn rfind_char(s: &str, c: char) -> (r: Option<usize>)
    ensures
        match r {
            Some(u) => rfind_char_spec(s@, c) == Some(u as int),
            None => rfind_char_spec(s@, c) is None,
        },
{
    let slen = s.unicode_len();
    let mut i: usize = slen;
    while i > 0
        invariant
            0 <= i <= slen,
            slen == s@.len(),
            rfind_char_spec(s@, c) == char_back_from(s@, c, i - 1),
        decreases i,
    {
        if s.get_char(i - 1) == c {
            return Some(i - 1);
        }
        i -= 1;
    }
    None
}

} // verus!
