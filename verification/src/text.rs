//! Character-level text utilities shared by the command grammar and the
//! device-locator parsers.
//!
//! Executable scanning works on a `Vec<char>` copy of the text (constant-time
//! indexing); extraction of substrings goes through `substring_char` on the
//! original `&str`, so extracted values keep exact views.

use vstd::prelude::*;
use vstd::string::StrSliceExecFns;

verus! {

/// Whitespace, as the grammar and the enumeration-output parsers accept it:
/// the Unicode white-space characters.
pub open spec fn is_space_char(c: char) -> bool {
    ||| c == ' '
    ||| c == '\t'
    ||| c == '\n'
    ||| c == '\r'
    ||| c as u32 == 0x0b
    ||| c as u32 == 0x0c
    ||| c as u32 == 0x85
    ||| c as u32 == 0xa0
    ||| c as u32 == 0x1680
    ||| (0x2000 <= c as u32 && c as u32 <= 0x200a)
    ||| c as u32 == 0x2028
    ||| c as u32 == 0x2029
    ||| c as u32 == 0x202f
    ||| c as u32 == 0x205f
    ||| c as u32 == 0x3000
}

/// Executable test for [`is_space_char`].
pub fn is_space(c: char) -> (r: bool)
    ensures
        r == is_space_char(c),
{
    let u = c as u32;
    u == 0x20 || u == 0x09 || u == 0x0a || u == 0x0d || u == 0x0b || u == 0x0c || u == 0x85
        || u == 0xa0 || u == 0x1680 || (0x2000 <= u && u <= 0x200a) || u == 0x2028 || u == 0x2029
        || u == 0x202f || u == 0x205f || u == 0x3000
}

/// The position of the first non-whitespace character at or after `i`
/// (`s.len()` when the rest is all whitespace).
pub open spec fn spec_skip_ws(s: Seq<char>, i: int) -> int
    decreases s.len() - i,
{
    if i < s.len() && is_space_char(s[i]) {
        spec_skip_ws(s, i + 1)
    } else {
        i
    }
}

/// The position of the first occurrence of `c` at or after `i`
/// (`s.len()` when there is none).
pub open spec fn spec_find_from(s: Seq<char>, i: int, c: char) -> int
    decreases s.len() - i,
{
    if i < s.len() {
        if s[i] == c {
            i
        } else {
            spec_find_from(s, i + 1, c)
        }
    } else {
        s.len() as int
    }
}

/// True when `pat` occurs in `s` starting exactly at `i`.
pub open spec fn lit_at(s: Seq<char>, i: int, pat: Seq<char>) -> bool {
    0 <= i && i + pat.len() <= s.len() && s.subrange(i, i + pat.len()) == pat
}

pub proof fn lemma_spec_skip_ws_bounds(s: Seq<char>, i: int)
    requires
        0 <= i <= s.len(),
    ensures
        i <= spec_skip_ws(s, i) <= s.len(),
        spec_skip_ws(s, i) < s.len() ==> !is_space_char(s[spec_skip_ws(s, i)]),
    decreases s.len() - i,
{
    if i < s.len() && is_space_char(s[i]) {
        lemma_spec_skip_ws_bounds(s, i + 1);
    }
}

pub proof fn lemma_spec_find_from_bounds(s: Seq<char>, i: int, c: char)
    requires
        0 <= i <= s.len(),
    ensures
        i <= spec_find_from(s, i, c) <= s.len(),
        spec_find_from(s, i, c) < s.len() ==> s[spec_find_from(s, i, c)] == c,
        forall|j: int| i <= j < spec_find_from(s, i, c) ==> s[j] != c,
    decreases s.len() - i,
{
    if i < s.len() && s[i] != c {
        lemma_spec_find_from_bounds(s, i + 1, c);
    }
}

/// The first occurrence is determined by its characterization: no earlier
/// occurrence, and either an occurrence at `j` or no occurrence at all.
pub proof fn lemma_spec_find_from_is(s: Seq<char>, i: int, c: char, j: int)
    requires
        0 <= i <= j <= s.len(),
        forall|k: int| i <= k < j ==> s[k] != c,
        j < s.len() ==> s[j] == c,
    ensures
        spec_find_from(s, i, c) == j,
    decreases j - i,
{
    if i < j {
        lemma_spec_find_from_is(s, i + 1, c, j);
    }
}

/// Copies the characters of `text` into a vector for constant-time indexing.
pub fn chars_of(text: &str) -> (v: Vec<char>)
    ensures
        v@ == text@,
{
    let n = text.unicode_len();
    let mut v: Vec<char> = Vec::new();
    let mut i: usize = 0;
    while i < n
        invariant
            n == text@.len(),
            i <= n,
            v@ == text@.subrange(0, i as int),
        decreases n - i,
    {
        v.push(text.get_char(i));
        i = i + 1;
        proof {
            assert(v@ =~= text@.subrange(0, i as int));
        }
    }
    proof {
        assert(v@ =~= text@);
    }
    v
}

/// Advances past whitespace, starting at `i`.
pub fn skip_ws(v: &Vec<char>, i: usize) -> (r: usize)
    requires
        i <= v@.len(),
    ensures
        r == spec_skip_ws(v@, i as int),
        i <= r <= v@.len(),
{
    let mut j: usize = i;
    while j < v.len() && is_space(v[j])
        invariant
            i <= j <= v@.len(),
            spec_skip_ws(v@, i as int) == spec_skip_ws(v@, j as int),
        decreases v@.len() - j,
    {
        j = j + 1;
    }
    j
}

/// Finds the first occurrence of `c` at or after `i`.
pub fn find_from(v: &Vec<char>, i: usize, c: char) -> (r: usize)
    requires
        i <= v@.len(),
    ensures
        r == spec_find_from(v@, i as int, c),
        i <= r <= v@.len(),
{
    let mut j: usize = i;
    while j < v.len() && v[j] != c
        invariant
            i <= j <= v@.len(),
            spec_find_from(v@, i as int, c) == spec_find_from(v@, j as int, c),
        decreases v@.len() - j,
    {
        j = j + 1;
    }
    j
}

/// Tests whether `pat` occurs in `v` starting exactly at `i`.
pub fn has_lit_at(v: &Vec<char>, i: usize, pat: &str) -> (r: bool)
    ensures
        r == lit_at(v@, i as int, pat@),
{
    let n = pat.unicode_len();
    if i > v.len() || n > v.len() - i {
        return false;
    }
    let mut k: usize = 0;
    while k < n
        invariant
            n == pat@.len(),
            i + n <= v@.len(),
            v@.len() <= usize::MAX,
            k <= n,
            forall|j: int| 0 <= j < k ==> v@[i + j] == pat@[j],
        decreases n - k,
    {
        if v[i + k] != pat.get_char(k) {
            assert(v@.subrange(i as int, i + pat@.len())[k as int] != pat@[k as int]);
            return false;
        }
        k = k + 1;
    }
    proof {
        assert(v@.subrange(i as int, i + pat@.len()) =~= pat@);
    }
    true
}

/// The position of the first whitespace character at or after `i`
/// (`s.len()` when there is none).
pub open spec fn spec_find_space(s: Seq<char>, i: int) -> int
    decreases s.len() - i,
{
    if i < s.len() {
        if is_space_char(s[i]) {
            i
        } else {
            spec_find_space(s, i + 1)
        }
    } else {
        s.len() as int
    }
}

/// The position of the first occurrence of `pat` at or after `i`
/// (`s.len()` when there is none).
pub open spec fn spec_find_lit(s: Seq<char>, i: int, pat: Seq<char>) -> int
    decreases s.len() - i,
{
    if i < s.len() {
        if lit_at(s, i, pat) {
            i
        } else {
            spec_find_lit(s, i + 1, pat)
        }
    } else {
        s.len() as int
    }
}

pub proof fn lemma_spec_find_lit_bounds(s: Seq<char>, i: int, pat: Seq<char>)
    requires
        0 <= i <= s.len(),
    ensures
        i <= spec_find_lit(s, i, pat) <= s.len(),
        spec_find_lit(s, i, pat) < s.len() ==> lit_at(s, spec_find_lit(s, i, pat), pat),
        forall|j: int| i <= j < spec_find_lit(s, i, pat) ==> !lit_at(s, j, pat),
    decreases s.len() - i,
{
    if i < s.len() && !lit_at(s, i, pat) {
        lemma_spec_find_lit_bounds(s, i + 1, pat);
    }
}

/// Whether `pat` occurs anywhere in `s`.
pub open spec fn spec_contains_lit(s: Seq<char>, pat: Seq<char>) -> bool {
    spec_find_lit(s, 0, pat) < s.len()
}

/// The text without its leading whitespace.
pub open spec fn spec_trim_start(s: Seq<char>) -> Seq<char>
    decreases s.len(),
{
    if s.len() > 0 && is_space_char(s[0]) {
        spec_trim_start(s.drop_first())
    } else {
        s
    }
}

/// The text without its trailing whitespace.
pub open spec fn spec_trim_end(s: Seq<char>) -> Seq<char>
    decreases s.len(),
{
    if s.len() > 0 && is_space_char(s[s.len() - 1]) {
        spec_trim_end(s.drop_last())
    } else {
        s
    }
}

/// The text without leading and trailing whitespace.
pub open spec fn spec_trim(s: Seq<char>) -> Seq<char> {
    spec_trim_end(spec_trim_start(s))
}

/// The text without every leading repetition of `pat`.
pub open spec fn spec_strip_prefix_all(s: Seq<char>, pat: Seq<char>) -> Seq<char>
    decreases s.len(),
{
    if pat.len() > 0 && lit_at(s, 0, pat) && pat.len() <= s.len() {
        spec_strip_prefix_all(s.skip(pat.len() as int), pat)
    } else {
        s
    }
}

/// Finds the first occurrence of `pat` at or after `i`.
pub fn find_lit_from(v: &Vec<char>, i: usize, pat: &str) -> (r: usize)
    requires
        i <= v@.len(),
    ensures
        r == spec_find_lit(v@, i as int, pat@),
        i <= r <= v@.len(),
{
    let mut j: usize = i;
    while j < v.len() && !has_lit_at(v, j, pat)
        invariant
            i <= j <= v@.len(),
            spec_find_lit(v@, i as int, pat@) == spec_find_lit(v@, j as int, pat@),
        decreases v@.len() - j,
    {
        j = j + 1;
    }
    proof {
        lemma_spec_find_lit_bounds(v@, i as int, pat@);
    }
    j
}

/// The bounds of the text inside `[lo, hi)` with surrounding whitespace
/// dropped.
pub fn trim_bounds(v: &Vec<char>, lo: usize, hi: usize) -> (r: (usize, usize))
    requires
        lo <= hi <= v@.len(),
    ensures
        lo <= r.0 <= r.1 <= hi,
        v@.subrange(r.0 as int, r.1 as int) == spec_trim(v@.subrange(lo as int, hi as int)),
{
    let mut a = lo;
    while a < hi && is_space(v[a])
        invariant
            lo <= a <= hi <= v@.len(),
            spec_trim_start(v@.subrange(lo as int, hi as int)) == spec_trim_start(
                v@.subrange(a as int, hi as int),
            ),
        decreases hi - a,
    {
        proof {
            let cur = v@.subrange(a as int, hi as int);
            assert(cur.drop_first() =~= v@.subrange(a + 1, hi as int));
        }
        a = a + 1;
    }
    proof {
        let st = v@.subrange(a as int, hi as int);
        assert(spec_trim_start(v@.subrange(lo as int, hi as int)) == st);
    }
    let mut b = hi;
    while b > a && is_space(v[b - 1])
        invariant
            lo <= a <= b <= hi <= v@.len(),
            spec_trim_end(v@.subrange(a as int, hi as int)) == spec_trim_end(
                v@.subrange(a as int, b as int),
            ),
        decreases b,
    {
        proof {
            let cur = v@.subrange(a as int, b as int);
            assert(cur.drop_last() =~= v@.subrange(a as int, b - 1));
        }
        b = b - 1;
    }
    proof {
        let last = v@.subrange(a as int, b as int);
        assert(spec_trim_end(v@.subrange(a as int, hi as int)) == last);
    }
    (a, b)
}

/// The text with surrounding whitespace dropped.
pub fn trim_of(s: &str) -> (r: String)
    ensures
        r@ == spec_trim(s@),
{
    let v = chars_of(s);
    let (a, b) = trim_bounds(&v, 0, v.len());
    proof {
        assert(v@.subrange(0, v@.len() as int) =~= s@);
    }
    s.substring_char(a, b).to_owned()
}

/// Whether `pat` occurs anywhere in `s`.
pub fn contains_lit(s: &str, pat: &str) -> (r: bool)
    ensures
        r == spec_contains_lit(s@, pat@),
{
    let v = chars_of(s);
    let j = find_lit_from(&v, 0, pat);
    j < v.len()
}

/// Whether `s` starts with `pat`.
pub fn starts_with_lit(s: &str, pat: &str) -> (r: bool)
    ensures
        r == lit_at(s@, 0, pat@),
{
    let v = chars_of(s);
    has_lit_at(&v, 0, pat)
}

/// The lower-case code of a character, folding only the ASCII letters.
pub open spec fn lower_code(c: char) -> int {
    if 65 <= c as u32 && c as u32 <= 90 {
        c as u32 + 32
    } else {
        (c as u32) as int
    }
}

/// Equality up to ASCII case.
pub open spec fn spec_eq_ignore_case(a: Seq<char>, b: Seq<char>) -> bool {
    a.len() == b.len() && (forall|i: int| 0 <= i < a.len() ==> lower_code(a[i]) == lower_code(b[i]))
}

/// Compares two texts up to ASCII case.
pub fn eq_ignore_case(a: &str, b: &str) -> (r: bool)
    ensures
        r == spec_eq_ignore_case(a@, b@),
{
    let n = a.unicode_len();
    if n != b.unicode_len() {
        return false;
    }
    let mut i: usize = 0;
    while i < n
        invariant
            n == a@.len() == b@.len(),
            i <= n,
            forall|j: int| 0 <= j < i ==> lower_code(a@[j]) == lower_code(b@[j]),
        decreases n - i,
    {
        let ca = a.get_char(i) as u32;
        let cb = b.get_char(i) as u32;
        let la = if 65 <= ca && ca <= 90 {
            ca + 32
        } else {
            ca
        };
        let lb = if 65 <= cb && cb <= 90 {
            cb + 32
        } else {
            cb
        };
        if la != lb {
            return false;
        }
        i = i + 1;
    }
    true
}

/// Strips every leading repetition of `pat`.
pub fn strip_prefix_all(s: &str, pat: &str) -> (r: String)
    ensures
        r@ == spec_strip_prefix_all(s@, pat@),
{
    let v = chars_of(s);
    let n = v.len();
    let plen = pat.unicode_len();
    let mut lo: usize = 0;
    proof {
        assert(v@.subrange(0, n as int) =~= s@);
    }
    while plen > 0 && has_lit_at(&v, lo, pat)
        invariant
            lo <= n == v@.len(),
            v@ == s@,
            plen == pat@.len(),
            spec_strip_prefix_all(s@, pat@) == spec_strip_prefix_all(
                v@.subrange(lo as int, n as int),
                pat@,
            ),
        decreases n - lo,
    {
        proof {
            let cur = v@.subrange(lo as int, n as int);
            assert(cur.subrange(0, pat@.len() as int) =~= v@.subrange(lo as int, lo + pat@.len()));
            assert(lit_at(cur, 0, pat@));
            assert(cur.skip(pat@.len() as int) =~= v@.subrange(lo + pat@.len(), n as int));
        }
        lo = lo + plen;
    }
    proof {
        let cur = v@.subrange(lo as int, n as int);
        if plen > 0 && lit_at(cur, 0, pat@) {
            assert(cur.subrange(0, pat@.len() as int) =~= v@.subrange(lo as int, lo + pat@.len()));
            assert(lit_at(v@, lo as int, pat@));
        }
        assert(spec_strip_prefix_all(cur, pat@) == cur);
    }
    s.substring_char(lo, n).to_owned()
}

/// A line as split off the text: the terminating newline is dropped, and so
/// is one carriage return just before it.
pub open spec fn strip_cr(l: Seq<char>) -> Seq<char> {
    if l.len() > 0 && l[l.len() - 1] == '\r' {
        l.drop_last()
    } else {
        l
    }
}

/// The lines of a text: split at every newline, each line without its
/// terminator; a last line without a terminator keeps any carriage return.
pub open spec fn spec_lines(s: Seq<char>) -> Seq<Seq<char>>
    decreases s.len(),
{
    if s.len() == 0 {
        Seq::empty()
    } else {
        let j = spec_find_from(s, 0, '\n');
        if 0 <= j && j < s.len() {
            seq![strip_cr(s.subrange(0, j))] + spec_lines(s.subrange(j + 1, s.len() as int))
        } else {
            seq![s]
        }
    }
}

/// Splits a text into its lines.
pub fn lines_of(s: &str) -> (r: Vec<String>)
    ensures
        r.deep_view() == spec_lines(s@),
{
    let v = chars_of(s);
    let n = v.len();
    let mut r: Vec<String> = Vec::new();
    let mut pos: usize = 0;
    proof {
        assert(v@.subrange(0, n as int) =~= s@);
        assert(r.deep_view() + spec_lines(s@) =~= spec_lines(s@));
    }
    while pos < n
        invariant
            pos <= n,
            n == v@.len(),
            v@ == s@,
            spec_lines(s@) == r.deep_view() + spec_lines(v@.subrange(pos as int, n as int)),
        decreases n - pos,
    {
        let ghost rest = v@.subrange(pos as int, n as int);
        let ghost r_old = r.deep_view();
        let j = find_from(&v, pos, '\n');
        proof {
            lemma_spec_find_from_bounds(v@, pos as int, '\n');
            assert forall|k: int| 0 <= k < j - pos implies rest[k] != '\n' by {
                assert(rest[k] == v@[pos + k]);
            }
            if j < n {
                assert(rest[j - pos] == '\n');
            }
            lemma_spec_find_from_is(rest, 0, '\n', j - pos);
        }
        if j < n {
            let end = if j > pos && v[j - 1] == '\r' {
                j - 1
            } else {
                j
            };
            let line = s.substring_char(pos, end).to_owned();
            proof {
                assert(rest.subrange(0, j - pos) =~= v@.subrange(pos as int, j as int));
                if j > pos && v@[j - 1] == '\r' {
                    assert(rest.subrange(0, j - pos).drop_last() =~= v@.subrange(
                        pos as int,
                        j - 1,
                    ));
                }
                assert(line@ == strip_cr(rest.subrange(0, j - pos)));
                assert(rest.subrange(j - pos + 1, rest.len() as int) =~= v@.subrange(
                    j + 1,
                    n as int,
                ));
            }
            r.push(line);
            proof {
                assert(r.deep_view() =~= r_old + seq![strip_cr(rest.subrange(0, j - pos))]);
                assert(r.deep_view() + spec_lines(v@.subrange(j + 1, n as int)) =~= r_old + (seq![
                    strip_cr(rest.subrange(0, j - pos)),
                ] + spec_lines(v@.subrange(j + 1, n as int))));
            }
            pos = j + 1;
        } else {
            let line = s.substring_char(pos, n).to_owned();
            proof {
                assert(line@ == rest);
                assert(spec_lines(rest) =~= seq![rest]);
            }
            r.push(line);
            proof {
                assert(r.deep_view() =~= r_old + seq![rest]);
            }
            pos = n;
            proof {
                assert(v@.subrange(n as int, n as int) =~= Seq::<char>::empty());
                assert(r.deep_view() + spec_lines(v@.subrange(n as int, n as int)) =~= r_old
                    + seq![rest]);
            }
        }
    }
    proof {
        assert(v@.subrange(n as int, n as int) =~= Seq::<char>::empty());
        assert(r.deep_view() =~= spec_lines(s@));
    }
    r
}

/// The part of the text before the first space character.
pub open spec fn spec_space_token(s: Seq<char>) -> Seq<char> {
    s.take(spec_find_from(s, 0, ' '))
}

/// Takes the part of the text before the first space character.
pub fn space_token(s: &str) -> (r: String)
    ensures
        r@ == spec_space_token(s@),
{
    let v = chars_of(s);
    let j = find_from(&v, 0, ' ');
    proof {
        assert(s@.take(j as int) =~= s@.subrange(0, j as int));
    }
    s.substring_char(0, j).to_owned()
}

/// The segment of the text between the first and second occurrence of `c`
/// (to the end when there is no second occurrence; empty when there is no
/// first).
pub open spec fn spec_char_seg1(s: Seq<char>, c: char) -> Seq<char> {
    let a = spec_find_from(s, 0, c);
    if a == s.len() {
        Seq::empty()
    } else {
        s.subrange(a + 1, spec_find_from(s, a + 1, c))
    }
}

/// Takes the segment of the text between the first and second occurrence of
/// `c`.
pub fn char_seg1(s: &str, c: char) -> (r: String)
    ensures
        r@ == spec_char_seg1(s@, c),
{
    let v = chars_of(s);
    let a = find_from(&v, 0, c);
    if a == v.len() {
        proof {
            reveal_strlit("");
        }
        "".to_owned()
    } else {
        let b = find_from(&v, a + 1, c);
        s.substring_char(a + 1, b).to_owned()
    }
}

/// The first two whitespace-separated tokens of the text, when it has at
/// least two.
pub open spec fn spec_two_ws_tokens(s: Seq<char>) -> Option<(Seq<char>, Seq<char>)> {
    let a1 = spec_skip_ws(s, 0);
    let e1 = spec_find_space(s, a1);
    let a2 = spec_skip_ws(s, e1);
    let e2 = spec_find_space(s, a2);
    if a2 < s.len() {
        Some((s.subrange(a1, e1), s.subrange(a2, e2)))
    } else {
        None
    }
}

/// Takes the first two whitespace-separated tokens of the text.
pub fn two_ws_tokens(s: &str) -> (r: Option<(String, String)>)
    ensures
        match r {
            Some((t1, t2)) => spec_two_ws_tokens(s@) == Some((t1@, t2@)),
            None => spec_two_ws_tokens(s@) is None,
        },
{
    let v = chars_of(s);
    let a1 = skip_ws(&v, 0);
    let e1 = find_space(&v, a1);
    let a2 = skip_ws(&v, e1);
    if a2 < v.len() {
        let e2 = find_space(&v, a2);
        let t1 = s.substring_char(a1, e1).to_owned();
        let t2 = s.substring_char(a2, e2).to_owned();
        Some((t1, t2))
    } else {
        None
    }
}

/// The first whitespace-separated token of the text, when it has one.
pub open spec fn spec_first_ws_token(s: Seq<char>) -> Option<Seq<char>> {
    let a = spec_skip_ws(s, 0);
    if a < s.len() {
        Some(s.subrange(a, spec_find_space(s, a)))
    } else {
        None
    }
}

/// Takes the first whitespace-separated token of the text.
pub fn first_ws_token(s: &str) -> (r: Option<String>)
    ensures
        match r {
            Some(t) => spec_first_ws_token(s@) == Some(t@),
            None => spec_first_ws_token(s@) is None,
        },
{
    let v = chars_of(s);
    let a = skip_ws(&v, 0);
    if a < v.len() {
        let e = find_space(&v, a);
        Some(s.substring_char(a, e).to_owned())
    } else {
        None
    }
}

/// Finds the first whitespace character at or after `i`.
pub fn find_space(v: &Vec<char>, i: usize) -> (r: usize)
    requires
        i <= v@.len(),
    ensures
        r == spec_find_space(v@, i as int),
        i <= r <= v@.len(),
{
    let mut j: usize = i;
    while j < v.len() && !is_space(v[j])
        invariant
            i <= j <= v@.len(),
            spec_find_space(v@, i as int) == spec_find_space(v@, j as int),
        decreases v@.len() - j,
    {
        j = j + 1;
    }
    j
}

/// The segment of the text between the first and second occurrence of `pat`,
/// when `pat` occurs at all. The second occurrence is sought past the first,
/// without overlap.
pub open spec fn spec_lit_seg1(s: Seq<char>, pat: Seq<char>) -> Option<Seq<char>> {
    let a = spec_find_lit(s, 0, pat);
    if a == s.len() {
        None
    } else {
        Some(s.subrange(a + pat.len(), spec_find_lit(s, a + pat.len(), pat)))
    }
}

/// Takes the segment of the text between the first and second occurrence of
/// `pat`.
pub fn lit_seg1(s: &str, pat: &str) -> (r: Option<String>)
    ensures
        match r {
            Some(seg) => spec_lit_seg1(s@, pat@) == Some(seg@),
            None => spec_lit_seg1(s@, pat@) is None,
        },
{
    let v = chars_of(s);
    let a = find_lit_from(&v, 0, pat);
    if a == v.len() {
        None
    } else {
        proof {
            lemma_spec_find_lit_bounds(v@, 0, pat@);
        }
        let plen = pat.unicode_len();
        let b = find_lit_from(&v, a + plen, pat);
        Some(s.substring_char(a + plen, b).to_owned())
    }
}

/// Tests whether the whole text equals `pat`.
pub fn eq_lit(v: &Vec<char>, pat: &str) -> (r: bool)
    ensures
        r == (v@ == pat@),
{
    if v.len() != pat.unicode_len() {
        return false;
    }
    let r = has_lit_at(v, 0, pat);
    proof {
        if r {
            assert(v@ =~= v@.subrange(0, v@.len() as int));
        } else {
            assert(v@.subrange(0, pat@.len() as int) =~= v@);
        }
    }
    r
}

} // verus!
