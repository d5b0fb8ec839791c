//! Verified text utilities: line splitting, prefix and substring
//! tests, and whitespace trimming over `Seq<char>` models, with
//! executable counterparts proved against them. The device-manager
//! output parsers are built on these.
use vstd::prelude::*;

verus! {

use vstd::string::StrSliceExecFns;
use vstd::string::StringExecFns;

/// The white-space characters trimming removes (the Unicode
/// `White_Space` set).
pub open spec fn spec_is_space(c: char) -> bool {
    ||| c == ' '
    ||| c == '\t'
    ||| c == '\n'
    ||| c == '\u{b}'
    ||| c == '\u{c}'
    ||| c == '\r'
    ||| c == '\u{85}'
    ||| c == '\u{a0}'
    ||| c == '\u{1680}'
    ||| ('\u{2000}' <= c && c <= '\u{200a}')
    ||| c == '\u{2028}'
    ||| c == '\u{2029}'
    ||| c == '\u{202f}'
    ||| c == '\u{205f}'
    ||| c == '\u{3000}'
}

/// Whether one character is white space.
pub fn is_space(c: char) -> (r: bool)
    ensures
        r == spec_is_space(c),
{
    c == ' ' || c == '\t' || c == '\n' || c == '\u{b}' || c == '\u{c}' || c == '\r' || c == '\u{85}'
        || c == '\u{a0}' || c == '\u{1680}' || ('\u{2000}' <= c && c <= '\u{200a}') || c
        == '\u{2028}' || c == '\u{2029}' || c == '\u{202f}' || c == '\u{205f}' || c == '\u{3000}'
}

/// Whether two pieces of text hold the same characters.
pub fn str_eq(s: &str, p: &str) -> (r: bool)
    ensures
        r == (s@ == p@),
{
    let n = s.unicode_len();
    if n != p.unicode_len() {
        return false;
    }
    let mut i: usize = 0;
    while i < n
        invariant
            0 <= i <= n,
            n == s@.len(),
            n == p@.len(),
            forall|j: int| 0 <= j < i ==> s@[j] == p@[j],
        decreases n - i,
    {
        if s.get_char(i) != p.get_char(i) {
            return false;
        }
        i = i + 1;
    }
    proof {
        assert(s@ =~= p@);
    }
    true
}

/// Whether `p` occurs at the front of `s`.
pub open spec fn spec_starts_with(s: Seq<char>, p: Seq<char>) -> bool {
    p.len() <= s.len() && s.subrange(0, p.len() as int) == p
}

/// Whether `p` occurs in `s` beginning at index `i`.
pub open spec fn spec_contains_at(s: Seq<char>, p: Seq<char>, i: int) -> bool {
    0 <= i && i + p.len() <= s.len() && s.subrange(i, i + p.len()) == p
}

/// Whether `p` occurs anywhere in `s`.
pub open spec fn spec_contains(s: Seq<char>, p: Seq<char>) -> bool {
    exists|i: int| spec_contains_at(s, p, i)
}

/// Index of the first occurrence of `c` in `s`; the length when `c`
/// does not occur.
pub open spec fn spec_first_idx(s: Seq<char>, c: char) -> int
    decreases s.len(),
{
    if s.len() == 0 {
        0
    } else if s[0] == c {
        0
    } else {
        1 + spec_first_idx(s.drop_first(), c)
    }
}

/// A scan that saw no `c` before `i`, and `c` at `i` if `i` is in
/// range, found exactly the first index.
pub proof fn lemma_first_idx_is(s: Seq<char>, c: char, i: int)
    requires
        0 <= i <= s.len(),
        forall|j: int| 0 <= j < i ==> s[j] != c,
        i < s.len() ==> s[i] == c,
    ensures
        spec_first_idx(s, c) == i,
    decreases s.len(),
{
    if s.len() > 0 && s[0] != c {
        lemma_first_idx_is(s.drop_first(), c, i - 1);
    }
}

/// A trailing carriage return removed, as a line terminator strips
/// it.
pub open spec fn spec_strip_cr(l: Seq<char>) -> Seq<char> {
    if l.len() > 0 && l.last() == '\r' {
        l.drop_last()
    } else {
        l
    }
}

/// The lines of a text: split at `\n` or `\r\n`, the final
/// terminator optional.
pub open spec fn spec_lines(s: Seq<char>) -> Seq<Seq<char>>
    decreases s.len(),
{
    if s.len() == 0 {
        Seq::empty()
    } else if s[0] == '\n' {
        seq![Seq::empty()] + spec_lines(s.drop_first())
    } else if s[0] == '\r' && s.len() >= 2 && s[1] == '\n' {
        seq![Seq::empty()] + spec_lines(s.skip(2))
    } else {
        let r = spec_lines(s.drop_first());
        if r.len() == 0 {
            seq![seq![s[0]]]
        } else {
            seq![seq![s[0]] + r[0]] + r.drop_first()
        }
    }
}

/// How a scanner peels the first line off a text: the characters up
/// to the first `\n` (its trailing `\r` stripped) form the first
/// line, and the rest follows after the terminator; without any
/// `\n` the whole text is the single last line.
pub proof fn lemma_lines_split(s: Seq<char>, i: int)
    requires
        0 <= i <= s.len(),
        forall|j: int| 0 <= j < i ==> s[j] != '\n',
        i < s.len() ==> s[i] == '\n',
    ensures
        i == s.len() && s.len() == 0 ==> spec_lines(s) =~= Seq::<Seq<char>>::empty(),
        i == s.len() && s.len() > 0 ==> spec_lines(s) =~= seq![s],
        i < s.len() ==> spec_lines(s) =~= seq![spec_strip_cr(s.subrange(0, i))] + spec_lines(
            s.skip(i + 1),
        ),
    decreases s.len(),
{
    if s.len() == 0 {
    } else if s[0] == '\n' {
        assert(i == 0);
        assert(s.subrange(0, 0) =~= Seq::<char>::empty());
        assert(s.skip(1) =~= s.drop_first());
    } else if s[0] == '\r' && s.len() >= 2 && s[1] == '\n' {
        assert(i == 1);
        assert(s.subrange(0, 1) =~= seq!['\r']);
        assert(spec_strip_cr(s.subrange(0, 1)) =~= Seq::<char>::empty());
    } else {
        let t = s.drop_first();
        lemma_lines_split(t, i - 1);
        if i == s.len() {
            if t.len() == 0 {
                assert(spec_lines(s) =~= seq![s]) by {
                    assert(seq![s[0]] =~= s);
                }
            } else {
                assert(spec_lines(t) =~= seq![t]);
                assert(seq![s[0]] + t =~= s);
                assert(spec_lines(s) =~= seq![s]);
            }
        } else {
            // A line terminator exists at i >= 1.
            assert(spec_lines(t) =~= seq![spec_strip_cr(t.subrange(0, i - 1))] + spec_lines(
                t.skip(i),
            ));
            assert(t.skip(i) =~= s.skip(i + 1));
            let first_t = t.subrange(0, i - 1);
            let first_s = s.subrange(0, i);
            assert(seq![s[0]] + first_t =~= first_s);
            if first_t.len() > 0 && first_t.last() == '\r' {
                assert(first_s.last() == '\r');
                assert(seq![s[0]] + spec_strip_cr(first_t) =~= spec_strip_cr(first_s));
            } else {
                if first_s.len() == 1 {
                    // The single character is s[0], which is not a
                    // carriage return followed by the newline (that
                    // case was handled above), and not a newline.
                    if s[0] == '\r' {
                        assert(s[1] == '\n');
                        assert(false);
                    }
                    assert(seq![s[0]] + spec_strip_cr(first_t) =~= spec_strip_cr(first_s));
                } else {
                    assert(first_s.last() == first_t.last());
                    assert(seq![s[0]] + spec_strip_cr(first_t) =~= spec_strip_cr(first_s));
                }
            }
            assert(spec_lines(s) =~= seq![spec_strip_cr(first_s)] + spec_lines(s.skip(i + 1)));
        }
    }
}

/// The character views of a vector of strings.
pub open spec fn spec_str_views(v: Seq<String>) -> Seq<Seq<char>> {
    v.map_values(|x: String| x@)
}

/// Splits a text into its lines, as the line-splitting model
/// describes them.
pub fn split_lines(s: &str) -> (r: Vec<String>)
    ensures
        spec_str_views(r@) =~= spec_lines(s@),
{
    let n = s.unicode_len();
    let mut out: Vec<String> = Vec::new();
    let mut pos: usize = 0;
    proof {
        assert(s@.skip(0) =~= s@);
    }
    while pos < n
        invariant
            0 <= pos <= n,
            n == s@.len(),
            spec_str_views(out@) + spec_lines(s@.skip(pos as int)) =~= spec_lines(s@),
        decreases n - pos,
    {
        let ghost rest = s@.skip(pos as int);
        let mut j: usize = pos;
        while j < n && s.get_char(j) != '\n'
            invariant
                pos <= j <= n,
                n == s@.len(),
                forall|k: int| pos <= k < j ==> s@[k] != '\n',
            decreases n - j,
        {
            j = j + 1;
        }
        proof {
            assert(forall|k: int|
                0 <= k < j - pos ==> rest[k] == s@[pos + k] && s@[pos + k] != '\n');
            lemma_lines_split(rest, j - pos);
        }
        if j < n {
            let line_end = if j > pos && s.get_char(j - 1) == '\r' {
                j - 1
            } else {
                j
            };
            let piece = s.substring_char(pos, line_end);
            out.push(String::from_str(piece));
            proof {
                let first = rest.subrange(0, j - pos);
                assert(spec_strip_cr(first) =~= s@.subrange(pos as int, line_end as int));
                assert(rest.skip(j - pos + 1) =~= s@.skip(j + 1));
                assert(spec_str_views(out@) =~= spec_str_views(out@.drop_last()) + seq![
                    s@.subrange(pos as int, line_end as int),
                ]);
            }
            pos = j + 1;
        } else {
            let piece = s.substring_char(pos, n);
            out.push(String::from_str(piece));
            proof {
                assert(rest =~= s@.subrange(pos as int, n as int));
                assert(rest.len() > 0);
                assert(spec_lines(rest) =~= seq![rest]);
                assert(spec_str_views(out@) =~= spec_str_views(out@.drop_last()) + seq![rest]);
                assert(s@.skip(n as int) =~= Seq::<char>::empty());
            }
            pos = n;
        }
    }
    proof {
        assert(s@.skip(n as int) =~= Seq::<char>::empty());
    }
    out
}

/// Whether `s` starts with `p`.
pub fn str_starts_with(s: &str, p: &str) -> (r: bool)
    ensures
        r == spec_starts_with(s@, p@),
{
    let n = s.unicode_len();
    let m = p.unicode_len();
    if m > n {
        return false;
    }
    let mut i: usize = 0;
    while i < m
        invariant
            0 <= i <= m,
            m <= n,
            n == s@.len(),
            m == p@.len(),
            forall|j: int| 0 <= j < i ==> s@[j] == p@[j],
        decreases m - i,
    {
        if s.get_char(i) != p.get_char(i) {
            proof {
                assert(s@.subrange(0, m as int)[i as int] == s@[i as int]);
            }
            return false;
        }
        i = i + 1;
    }
    proof {
        assert(s@.subrange(0, m as int) =~= p@);
    }
    true
}

/// Whether `p` occurs at index `i` of `s`.
fn matches_at(s: &str, p: &str, i: usize) -> (r: bool)
    requires
        i + p@.len() <= s@.len(),
        s@.len() <= usize::MAX,
    ensures
        r == spec_contains_at(s@, p@, i as int),
{
    let m = p.unicode_len();
    let mut k: usize = 0;
    while k < m
        invariant
            0 <= k <= m,
            m == p@.len(),
            i + m <= s@.len(),
            s@.len() <= usize::MAX,
            forall|l: int| 0 <= l < k ==> s@[i + l] == p@[l],
        decreases m - k,
    {
        if s.get_char(i + k) != p.get_char(k) {
            proof {
                assert(s@.subrange(i as int, i + m)[k as int] == s@[i + k]);
            }
            return false;
        }
        k = k + 1;
    }
    proof {
        assert(s@.subrange(i as int, i + m) =~= p@);
    }
    true
}

/// Whether `p` occurs anywhere in `s`.
pub fn str_contains(s: &str, p: &str) -> (r: bool)
    ensures
        r == spec_contains(s@, p@),
{
    let n = s.unicode_len();
    let m = p.unicode_len();
    if m > n {
        proof {
            assert(forall|i: int| !spec_contains_at(s@, p@, i));
        }
        return false;
    }
    if m == 0 {
        proof {
            assert(s@.subrange(0, 0) =~= p@);
            assert(spec_contains_at(s@, p@, 0));
        }
        return true;
    }
    let mut i: usize = 0;
    while i <= n - m
        invariant
            0 <= i <= n - m + 1,
            1 <= m <= n,
            n == s@.len(),
            m == p@.len(),
            forall|k: int| 0 <= k < i ==> !spec_contains_at(s@, p@, k),
        decreases n - i,
    {
        if matches_at(s, p, i) {
            return true;
        }
        i = i + 1;
    }
    proof {
        assert forall|k: int| !#[trigger] spec_contains_at(s@, p@, k) by {
            if k >= i as int {
                assert(k + p@.len() > s@.len());
            }
        }
    }
    false
}

/// `p` stripped from the front of `s`, when it is there.
pub fn strip_prefix_str(s: &str, p: &str) -> (r: Option<String>)
    ensures
        match r {
            Some(rest) => spec_starts_with(s@, p@) && rest@ == s@.skip(p@.len() as int),
            None => !spec_starts_with(s@, p@),
        },
{
    if str_starts_with(s, p) {
        let rest = s.substring_char(p.unicode_len(), s.unicode_len());
        proof {
            assert(s@.subrange(p@.len() as int, s@.len() as int) =~= s@.skip(p@.len() as int));
        }
        Some(String::from_str(rest))
    } else {
        None
    }
}

/// Every leading run of `p` removed from the front of `s`.
pub open spec fn spec_strip_repeat(s: Seq<char>, p: Seq<char>) -> Seq<char>
    decreases s.len(),
{
    if p.len() > 0 && spec_starts_with(s, p) {
        spec_strip_repeat(s.skip(p.len() as int), p)
    } else {
        s
    }
}

/// Strips every leading repetition of `p` off `s`.
pub fn str_trim_start_matches(s: &str, p: &str) -> (r: String)
    ensures
        r@ == spec_strip_repeat(s@, p@),
    decreases s@.len(),
{
    if p.unicode_len() > 0 && str_starts_with(s, p) {
        let rest = s.substring_char(p.unicode_len(), s.unicode_len());
        proof {
            assert(s@.subrange(p@.len() as int, s@.len() as int) =~= s@.skip(p@.len() as int));
        }
        str_trim_start_matches(rest, p)
    } else {
        String::from_str(s)
    }
}

/// The front of `s` with its leading white space removed.
pub open spec fn spec_trim_start(s: Seq<char>) -> Seq<char>
    decreases s.len(),
{
    if s.len() > 0 && spec_is_space(s[0]) {
        spec_trim_start(s.drop_first())
    } else {
        s
    }
}

/// The back of `s` with its trailing white space removed.
pub open spec fn spec_trim_end(s: Seq<char>) -> Seq<char>
    decreases s.len(),
{
    if s.len() > 0 && spec_is_space(s.last()) {
        spec_trim_end(s.drop_last())
    } else {
        s
    }
}

/// `s` with white space removed from both ends.
pub open spec fn spec_trim(s: Seq<char>) -> Seq<char> {
    spec_trim_end(spec_trim_start(s))
}

proof fn lemma_trim_start_skip(s: Seq<char>, a: int)
    requires
        0 <= a <= s.len(),
        forall|j: int| 0 <= j < a ==> spec_is_space(s[j]),
    ensures
        spec_trim_start(s) =~= spec_trim_start(s.skip(a)),
    decreases a,
{
    if a > 0 {
        assert(s.drop_first().skip(a - 1) =~= s.skip(a));
        lemma_trim_start_skip(s.drop_first(), a - 1);
    } else {
        assert(s.skip(0) =~= s);
    }
}

proof fn lemma_trim_end_take(s: Seq<char>, b: int)
    requires
        0 <= b <= s.len(),
        forall|j: int| b <= j < s.len() ==> spec_is_space(s[j]),
    ensures
        spec_trim_end(s) =~= spec_trim_end(s.take(b)),
    decreases s.len() - b,
{
    if b < s.len() {
        assert(s.drop_last().take(b) =~= s.take(b));
        lemma_trim_end_take(s.drop_last(), b);
    } else {
        assert(s.take(b) =~= s);
    }
}

/// `s` with white space trimmed from both ends.
pub fn trim_str(s: &str) -> (r: String)
    ensures
        r@ == spec_trim(s@),
{
    let n = s.unicode_len();
    let mut a: usize = 0;
    while a < n && is_space(s.get_char(a))
        invariant
            0 <= a <= n,
            n == s@.len(),
            forall|j: int| 0 <= j < a ==> spec_is_space(s@[j]),
        decreases n - a,
    {
        a = a + 1;
    }
    proof {
        lemma_trim_start_skip(s@, a as int);
        if a < n {
            assert(s@.skip(a as int)[0] == s@[a as int]);
            assert(spec_trim_start(s@.skip(a as int)) =~= s@.skip(a as int));
        } else {
            assert(s@.skip(a as int) =~= Seq::<char>::empty());
        }
    }
    let mut b: usize = n;
    while b > a && is_space(s.get_char(b - 1))
        invariant
            a <= b <= n,
            n == s@.len(),
            forall|j: int| b <= j < n ==> spec_is_space(s@[j]),
        decreases b,
    {
        b = b - 1;
    }
    let ghost mid = s@.skip(a as int);
    proof {
        assert(forall|j: int| b - a <= j < mid.len() ==> spec_is_space(mid[j]));
        lemma_trim_end_take(mid, b - a);
        assert(mid.take(b - a) =~= s@.subrange(a as int, b as int));
        if b > a {
            assert(s@.subrange(a as int, b as int).last() == s@[b - 1]);
            assert(spec_trim_end(s@.subrange(a as int, b as int)) =~= s@.subrange(
                a as int,
                b as int,
            ));
        } else {
            assert(s@.subrange(a as int, b as int) =~= Seq::<char>::empty());
        }
    }
    let piece = s.substring_char(a, b);
    String::from_str(piece)
}

/// The pieces before and after the first occurrence of `c`, when it
/// occurs.
pub open spec fn spec_split_once(s: Seq<char>, c: char) -> Option<(Seq<char>, Seq<char>)> {
    let i = spec_first_idx(s, c);
    if i == s.len() {
        None
    } else {
        Some((s.subrange(0, i), s.subrange(i + 1, s.len() as int)))
    }
}

/// Splits `s` at the first occurrence of `c`.
pub fn split_once_char(s: &str, c: char) -> (r: Option<(String, String)>)
    ensures
        match r {
            Some(pair) => spec_split_once(s@, c) == Some((pair.0@, pair.1@)),
            None => spec_split_once(s@, c) is None,
        },
{
    let n = s.unicode_len();
    let mut i: usize = 0;
    while i < n && s.get_char(i) != c
        invariant
            0 <= i <= n,
            n == s@.len(),
            forall|j: int| 0 <= j < i ==> s@[j] != c,
        decreases n - i,
    {
        i = i + 1;
    }
    proof {
        lemma_first_idx_is(s@, c, i as int);
    }
    if i < n {
        let left = s.substring_char(0, i);
        let right = s.substring_char(i + 1, n);
        Some((String::from_str(left), String::from_str(right)))
    } else {
        None
    }
}

/// The character of one decimal digit.
pub open spec fn spec_digit_char(d: int) -> char {
    if d == 0 {
        '0'
    } else if d == 1 {
        '1'
    } else if d == 2 {
        '2'
    } else if d == 3 {
        '3'
    } else if d == 4 {
        '4'
    } else if d == 5 {
        '5'
    } else if d == 6 {
        '6'
    } else if d == 7 {
        '7'
    } else if d == 8 {
        '8'
    } else {
        '9'
    }
}

/// The decimal digits of a positive integer, most significant
/// first; empty for zero and below.
pub open spec fn spec_udigits(n: int) -> Seq<char>
    decreases n,
{
    if n <= 0 {
        Seq::empty()
    } else {
        spec_udigits(n / 10).push(spec_digit_char(n % 10))
    }
}

/// The decimal rendering of an integer, as `to_string` renders it:
/// the digits, a single leading minus sign for a negative value,
/// and `0` for zero.
pub open spec fn spec_int_text(n: int) -> Seq<char> {
    if n == 0 {
        seq!['0']
    } else if n > 0 {
        spec_udigits(n)
    } else {
        seq!['-'] + spec_udigits(-n)
    }
}

fn digit_str(d: u64) -> (r: &'static str)
    requires
        d < 10,
    ensures
        r@ == seq![spec_digit_char(d as int)],
{
    proof {
        reveal_strlit("0");
        reveal_strlit("1");
        reveal_strlit("2");
        reveal_strlit("3");
        reveal_strlit("4");
        reveal_strlit("5");
        reveal_strlit("6");
        reveal_strlit("7");
        reveal_strlit("8");
        reveal_strlit("9");
        assert("0"@ =~= seq!['0']);
        assert("1"@ =~= seq!['1']);
        assert("2"@ =~= seq!['2']);
        assert("3"@ =~= seq!['3']);
        assert("4"@ =~= seq!['4']);
        assert("5"@ =~= seq!['5']);
        assert("6"@ =~= seq!['6']);
        assert("7"@ =~= seq!['7']);
        assert("8"@ =~= seq!['8']);
        assert("9"@ =~= seq!['9']);
    }
    match d {
        0 => "0",
        1 => "1",
        2 => "2",
        3 => "3",
        4 => "4",
        5 => "5",
        6 => "6",
        7 => "7",
        8 => "8",
        _ => "9",
    }
}

fn u64_text(m: u64) -> (r: String)
    ensures
        r@ == spec_udigits(m as int),
    decreases m,
{
    if m == 0 {
        String::new()
    } else {
        let mut s = u64_text(m / 10);
        s.append(digit_str(m % 10));
        proof {
            assert(spec_udigits(m as int / 10).push(spec_digit_char(m as int % 10))
                =~= spec_udigits(m as int / 10) + seq![spec_digit_char(m as int % 10)]);
        }
        s
    }
}

/// Renders an integer as decimal text.
pub fn i64_text(n: i64) -> (r: String)
    ensures
        r@ == spec_int_text(n as int),
{
    if n == 0 {
        proof {
            reveal_strlit("0");
            assert("0"@ =~= seq!['0']);
        }
        String::from_str("0")
    } else if n > 0 {
        u64_text(n as u64)
    } else {
        let mag = (-(n as i128)) as u64;
        let mut s = String::from_str("-");
        let digits = u64_text(mag);
        s.append(digits.as_str());
        proof {
            reveal_strlit("-");
            assert("-"@ =~= seq!['-']);
        }
        s
    }
}

} // verus!
