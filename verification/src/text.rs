//! Character-level text helpers shared by the parsers and script builders.
//!
//! Text is modelled as `Seq<char>`; executable code works on `Vec<char>`
//! copies of `&str` values and builds `String`s one character at a time.

use vstd::prelude::*;

verus! {

/// Appends one character to a `String` (std `String::push`): the view grows
/// by exactly that character.
pub assume_specification[ String::push ](s: &mut String, ch: char)
    ensures
        final(s)@ == old(s)@.push(ch),
;

/// The characters of `s`, in order.
pub fn chars_of(s: &str) -> (v: Vec<char>)
    ensures
        v@ == s@,
{
    let mut v: Vec<char> = Vec::new();
    for c in it: s.chars()
        invariant
            v@ == it.seq().take(it.index() as int),
    {
        v.push(c);
    }
    v
}

/// A `String` holding exactly the characters of `v`.
pub fn string_of(v: &[char]) -> (s: String)
    ensures
        s@ == v@,
{
    let mut s = String::new();
    let mut i: usize = 0;
    while i < v.len()
        invariant
            i <= v.len(),
            s@ == v@.take(i as int),
        decreases v.len() - i,
    {
        s.push(v[i]);
        i = i + 1;
        assert(v@.take(i as int) == v@.take(i - 1 as int).push(v@[i - 1]));
    }
    assert(v@.take(v.len() as int) == v@);
    s
}

/// Appends the characters of `v` to `s`.
pub fn push_chars(s: &mut String, v: &[char])
    ensures
        final(s)@ == old(s)@ + v@,
{
    let mut i: usize = 0;
    while i < v.len()
        invariant
            i <= v.len(),
            s@ == old(s)@ + v@.take(i as int),
        decreases v.len() - i,
    {
        s.push(v[i]);
        i = i + 1;
        assert(v@.take(i as int) == v@.take(i - 1 as int).push(v@[i - 1]));
    }
    assert(v@.take(v.len() as int) == v@);
}

/// Characters with the Unicode `White_Space` property, which is what
/// `char::is_whitespace`, `str::trim` and `str::split_whitespace` use.
pub open spec fn is_white(c: char) -> bool {
    ||| ('\u{9}' <= c && c <= '\u{d}')
    ||| c == ' '
    ||| c == '\u{85}'
    ||| c == '\u{a0}'
    ||| c == '\u{1680}'
    ||| ('\u{2000}' <= c && c <= '\u{200a}')
    ||| c == '\u{2028}'
    ||| c == '\u{2029}'
    ||| c == '\u{202f}'
    ||| c == '\u{205f}'
    ||| c == '\u{3000}'
}

pub fn is_white_char(c: char) -> (b: bool)
    ensures
        b == is_white(c),
{
    ('\u{9}' <= c && c <= '\u{d}') || c == ' ' || c == '\u{85}' || c == '\u{a0}' || c == '\u{1680}'
        || ('\u{2000}' <= c && c <= '\u{200a}') || c == '\u{2028}' || c == '\u{2029}' || c
        == '\u{202f}' || c == '\u{205f}' || c == '\u{3000}'
}

/// `c` lower-cased in the ASCII range only (`char::to_ascii_lowercase`).
pub open spec fn ascii_lower(c: char) -> char {
    if 'A' <= c && c <= 'Z' {
        ((c as u32) + 32) as char
    } else {
        c
    }
}

pub fn ascii_lower_char(c: char) -> (r: char)
    ensures
        r == ascii_lower(c),
{
    if 'A' <= c && c <= 'Z' {
        let b: u8 = (c as u8) + 32;
        b as char
    } else {
        c
    }
}


/// Which characters a trim removes: Unicode whitespace (`str::trim`) or one
/// given character (`str::trim_matches(c)`).
#[derive(Clone, Copy)]
pub enum Strip {
    White,
    Char(char),
}

pub open spec fn strips(k: Strip, c: char) -> bool {
    match k {
        Strip::White => is_white(c),
        Strip::Char(x) => c == x,
    }
}

fn strips_char(k: Strip, c: char) -> (b: bool)
    ensures
        b == strips(k, c),
{
    match k {
        Strip::White => is_white_char(c),
        Strip::Char(x) => c == x,
    }
}

/// The first index at or after `i` whose character is not stripped by `k`
/// (or `s.len()` when there is none).
pub open spec fn first_kept(s: Seq<char>, k: Strip, i: int) -> int
    decreases s.len() - i,
{
    if 0 <= i < s.len() && strips(k, s[i]) {
        first_kept(s, k, i + 1)
    } else {
        i
    }
}

/// One past the last index below `j` (and at or above `lo`) whose character
/// is not stripped by `k` (or `lo` when there is none).
pub open spec fn last_kept_end(s: Seq<char>, k: Strip, lo: int, j: int) -> int
    decreases j - lo,
{
    if lo < j <= s.len() && strips(k, s[j - 1]) {
        last_kept_end(s, k, lo, j - 1)
    } else {
        j
    }
}

/// `s` without its leading and trailing characters stripped by `k`.
pub open spec fn trim_by(s: Seq<char>, k: Strip) -> Seq<char> {
    let a = first_kept(s, k, 0);
    s.subrange(a, last_kept_end(s, k, a, s.len() as int))
}

/// The first kept index from `i` is `j` when everything in between is
/// stripped and `s[j]` is not.
pub proof fn lemma_first_kept_at(s: Seq<char>, k: Strip, i: int, j: int)
    requires
        0 <= i <= j < s.len(),
        forall|t: int| i <= t < j ==> strips(k, #[trigger] s[t]),
        !strips(k, s[j]),
    ensures
        first_kept(s, k, i) == j,
    decreases j - i,
{
    if i < j {
        lemma_first_kept_at(s, k, i + 1, j);
    }
}

/// The end of the kept part stays between `lo` and `j`, and past every kept
/// character at or after `lo`.
pub proof fn lemma_last_kept_end_bounds(s: Seq<char>, k: Strip, lo: int, j: int, p: int)
    requires
        0 <= lo <= j <= s.len(),
        lo <= p < j ==> !strips(k, s[p]),
    ensures
        lo <= last_kept_end(s, k, lo, j) <= j,
        lo <= p < j ==> p + 1 <= last_kept_end(s, k, lo, j),
    decreases j - lo,
{
    if lo < j && strips(k, s[j - 1]) {
        lemma_last_kept_end_bounds(s, k, lo, j - 1, p);
    }
}

/// Text that starts and ends with a kept character is left as it is.
pub proof fn lemma_trim_by_keeps(s: Seq<char>, k: Strip)
    requires
        s.len() > 0,
        !strips(k, s[0]),
        !strips(k, s.last()),
    ensures
        trim_by(s, k) == s,
{
    assert(first_kept(s, k, 0) == 0);
    assert(last_kept_end(s, k, 0, s.len() as int) == s.len());
    assert(s.subrange(0, s.len() as int) =~= s);
}

/// `str::trim`: leading and trailing Unicode whitespace removed.
pub open spec fn trim(s: Seq<char>) -> Seq<char> {
    trim_by(s, Strip::White)
}

/// `v` with its leading and trailing characters stripped by `k` removed.
pub fn trim_chars_by(v: &[char], k: Strip) -> (r: Vec<char>)
    ensures
        r@ == trim_by(v@, k),
{
    let n = v.len();
    let mut a: usize = 0;
    while a < n && strips_char(k, v[a])
        invariant
            a <= n == v@.len(),
            first_kept(v@, k, a as int) == first_kept(v@, k, 0),
        decreases n - a,
    {
        a = a + 1;
    }
    let mut b: usize = n;
    while b > a && strips_char(k, v[b - 1])
        invariant
            a <= b <= n == v@.len(),
            a as int == first_kept(v@, k, 0),
            last_kept_end(v@, k, a as int, b as int) == last_kept_end(v@, k, a as int, n as int),
        decreases b - a,
    {
        b = b - 1;
    }
    slice_range(v, a, b)
}

/// `str::trim` on a character vector.
pub fn trim_chars(v: &[char]) -> (r: Vec<char>)
    ensures
        r@ == trim(v@),
{
    trim_chars_by(v, Strip::White)
}

/// A copy of `v[a..b]`.
pub fn slice_range(v: &[char], a: usize, b: usize) -> (r: Vec<char>)
    requires
        a <= b <= v@.len(),
    ensures
        r@ == v@.subrange(a as int, b as int),
{
    let mut r: Vec<char> = Vec::new();
    let mut i: usize = a;
    while i < b
        invariant
            a <= i <= b <= v@.len(),
            r@ == v@.subrange(a as int, i as int),
        decreases b - i,
    {
        r.push(v[i]);
        i = i + 1;
        assert(v@.subrange(a as int, i as int) == v@.subrange(a as int, i - 1 as int).push(
            v@[i - 1],
        ));
    }
    r
}


/// The first index at or after `i` whose character `k` selects, or `-1`.
pub open spec fn find_from(s: Seq<char>, k: Strip, i: int) -> int
    decreases s.len() - i,
{
    if i < 0 || i >= s.len() {
        -1
    } else if strips(k, s[i]) {
        i
    } else {
        find_from(s, k, i + 1)
    }
}

/// The last index below `j` holding `c`, or `-1`.
pub open spec fn rfind_before(s: Seq<char>, c: char, j: int) -> int
    decreases j,
{
    if j <= 0 || j > s.len() {
        -1
    } else if s[j - 1] == c {
        j - 1
    } else {
        rfind_before(s, c, j - 1)
    }
}

pub proof fn lemma_find_from_range(s: Seq<char>, k: Strip, i: int)
    requires
        0 <= i,
    ensures
        find_from(s, k, i) == -1 || (i <= find_from(s, k, i) < s.len() && strips(
            k,
            s[find_from(s, k, i)],
        )),
        find_from(s, k, i) == -1 ==> forall|j: int| i <= j < s.len() ==> !strips(k, s[j]),
        find_from(s, k, i) != -1 ==> forall|j: int|
            i <= j < find_from(s, k, i) ==> !strips(k, s[j]),
    decreases s.len() - i,
{
    if i < s.len() && !strips(k, s[i]) {
        lemma_find_from_range(s, k, i + 1);
    }
}

/// The first selected character at or after `i` is at `j` when none
/// before it is selected.
pub proof fn lemma_find_from_first(s: Seq<char>, k: Strip, i: int, j: int)
    requires
        0 <= i <= j < s.len(),
        forall|t: int| i <= t < j ==> !strips(k, #[trigger] s[t]),
        strips(k, s[j]),
    ensures
        find_from(s, k, i) == j,
    decreases j - i,
{
    if i < j {
        lemma_find_from_first(s, k, i + 1, j);
    }
}

/// No selected character at or after `i`: nothing is found.
pub proof fn lemma_find_from_none(s: Seq<char>, k: Strip, i: int)
    requires
        0 <= i,
        forall|t: int| i <= t < s.len() ==> !strips(k, #[trigger] s[t]),
    ensures
        find_from(s, k, i) == -1,
    decreases s.len() - i,
{
    if i < s.len() {
        lemma_find_from_none(s, k, i + 1);
    }
}

pub proof fn lemma_rfind_range(s: Seq<char>, c: char, j: int)
    requires
        j <= s.len(),
    ensures
        rfind_before(s, c, j) == -1 || (0 <= rfind_before(s, c, j) < j && s[rfind_before(
            s,
            c,
            j,
        )] == c),
    decreases j,
{
    if j > 0 && s[j - 1] != c {
        lemma_rfind_range(s, c, j - 1);
    }
}

/// Index of the first character of `v` that `k` selects, as `find_from(v@, k, 0)`.
pub fn find_in(v: &[char], k: Strip) -> (r: Option<usize>)
    ensures
        match r {
            Some(i) => find_from(v@, k, 0) == i as int,
            None => find_from(v@, k, 0) == -1,
        },
{
    let mut i: usize = 0;
    while i < v.len()
        invariant
            i <= v.len(),
            find_from(v@, k, i as int) == find_from(v@, k, 0),
        decreases v.len() - i,
    {
        if strips_char(k, v[i]) {
            return Some(i);
        }
        i = i + 1;
    }
    None
}

/// Index of the last `c` in `v`, as `rfind_before(v@, c, v.len())`.
pub fn rfind_char(v: &[char], c: char) -> (r: Option<usize>)
    ensures
        match r {
            Some(i) => rfind_before(v@, c, v@.len() as int) == i as int,
            None => rfind_before(v@, c, v@.len() as int) == -1,
        },
{
    let mut j: usize = v.len();
    while j > 0
        invariant
            j <= v.len(),
            rfind_before(v@, c, j as int) == rfind_before(v@, c, v@.len() as int),
        decreases j,
    {
        if v[j - 1] == c {
            return Some(j - 1);
        }
        j = j - 1;
    }
    None
}

/// The text before and after the first character that `k` selects.
pub open spec fn split_once_by(s: Seq<char>, k: Strip) -> Option<(Seq<char>, Seq<char>)> {
    let i = find_from(s, k, 0);
    if i < 0 {
        None
    } else {
        Some((s.subrange(0, i), s.subrange(i + 1, s.len() as int)))
    }
}

/// `str::split_once(c)`: the text before and after the first `c`.
pub open spec fn split_once(s: Seq<char>, c: char) -> Option<(Seq<char>, Seq<char>)> {
    split_once_by(s, Strip::Char(c))
}

/// `str::rsplit_once(c)`: the text before and after the last `c`.
pub open spec fn rsplit_once(s: Seq<char>, c: char) -> Option<(Seq<char>, Seq<char>)> {
    let k = rfind_before(s, c, s.len() as int);
    if k < 0 {
        None
    } else {
        Some((s.subrange(0, k), s.subrange(k + 1, s.len() as int)))
    }
}

pub fn split_once_by_chars(v: &[char], k: Strip) -> (r: Option<(Vec<char>, Vec<char>)>)
    ensures
        match r {
            Some((a, b)) => split_once_by(v@, k) == Some((a@, b@)),
            None => split_once_by(v@, k) is None,
        },
{
    proof {
        lemma_find_from_range(v@, k, 0);
    }
    match find_in(v, k) {
        Some(i) => {
            let n = v.len();
            assert(i < n);
            Some((slice_range(v, 0, i), slice_range(v, i + 1, n)))
        },
        None => None,
    }
}

pub fn split_once_chars(v: &[char], c: char) -> (r: Option<(Vec<char>, Vec<char>)>)
    ensures
        match r {
            Some((a, b)) => split_once(v@, c) == Some((a@, b@)),
            None => split_once(v@, c) is None,
        },
{
    split_once_by_chars(v, Strip::Char(c))
}

pub fn rsplit_once_chars(v: &[char], c: char) -> (r: Option<(Vec<char>, Vec<char>)>)
    ensures
        match r {
            Some((a, b)) => rsplit_once(v@, c) == Some((a@, b@)),
            None => rsplit_once(v@, c) is None,
        },
{
    proof {
        lemma_rfind_range(v@, c, v@.len() as int);
    }
    match rfind_char(v, c) {
        Some(i) => {
            let n = v.len();
            assert(i < n);
            Some((slice_range(v, 0, i), slice_range(v, i + 1, n)))
        },
        None => None,
    }
}

/// Every piece between the characters that `k` selects, empty ones included
/// (`str::split`).
pub open spec fn split_all_by(s: Seq<char>, k: Strip) -> Seq<Seq<char>>
    decreases s.len(),
{
    match split_once_by(s, k) {
        None => seq![s],
        Some((a, b)) => {
            if b.len() < s.len() {
                seq![a] + split_all_by(b, k)
            } else {
                seq![a]
            }
        },
    }
}

/// `str::split(c)`.
pub open spec fn split_all(s: Seq<char>, c: char) -> Seq<Seq<char>> {
    split_all_by(s, Strip::Char(c))
}

proof fn lemma_split_once_shrinks(s: Seq<char>, k: Strip)
    ensures
        split_once_by(s, k) matches Some((a, b)) ==> b.len() < s.len(),
{
    lemma_find_from_range(s, k, 0);
}

/// The character sequences held by a vector of character vectors.
pub open spec fn views(vs: Seq<Vec<char>>) -> Seq<Seq<char>> {
    vs.map_values(|v: Vec<char>| v@)
}

/// The pieces of `v` between the characters that `k` selects.
pub fn split_by_chars(v: &[char], k: Strip) -> (r: Vec<Vec<char>>)
    ensures
        views(r@) == split_all_by(v@, k),
{
    let mut pieces: Vec<Vec<char>> = Vec::new();
    let mut rest: Vec<char> = slice_range(v, 0, v.len());
    assert(v@.subrange(0, v@.len() as int) == v@);
    loop
        invariant
            views(pieces@) + split_all_by(rest@, k) == split_all_by(v@, k),
        decreases rest@.len(),
    {
        proof {
            lemma_split_once_shrinks(rest@, k);
        }
        match split_once_by_chars(rest.as_slice(), k) {
            None => {
                let ghost before = views(pieces@);
                pieces.push(rest);
                assert(views(pieces@) =~= before.push(rest@));
                assert(views(pieces@) == split_all_by(v@, k));
                return pieces;
            },
            Some((a, b)) => {
                let ghost before = views(pieces@);
                let ghost old_rest = rest@;
                assert(split_all_by(old_rest, k) == seq![a@] + split_all_by(b@, k));
                pieces.push(a);
                assert(views(pieces@) =~= before.push(a@));
                assert(before + split_all_by(old_rest, k) == before.push(a@) + split_all_by(
                    b@,
                    k,
                ));
                rest = b;
            },
        }
    }
}

/// The pieces of `v` between occurrences of `c`.
pub fn split_chars(v: &[char], c: char) -> (r: Vec<Vec<char>>)
    ensures
        views(r@) == split_all(v@, c),
{
    split_by_chars(v, Strip::Char(c))
}

/// The non-empty pieces, in order.
pub open spec fn non_empty(ps: Seq<Seq<char>>) -> Seq<Seq<char>>
    decreases ps.len(),
{
    if ps.len() == 0 {
        ps
    } else {
        let r = non_empty(ps.drop_last());
        if ps.last().len() > 0 {
            r.push(ps.last())
        } else {
            r
        }
    }
}

/// `str::split_whitespace`: the maximal runs of non-whitespace characters.
pub open spec fn words(s: Seq<char>) -> Seq<Seq<char>> {
    non_empty(split_all_by(s, Strip::White))
}

pub fn words_of(v: &[char]) -> (r: Vec<Vec<char>>)
    ensures
        views(r@) == words(v@),
{
    let pieces = split_by_chars(v, Strip::White);
    let ghost ps = views(pieces@);
    let mut out: Vec<Vec<char>> = Vec::new();
    let mut i: usize = 0;
    while i < pieces.len()
        invariant
            i <= pieces.len(),
            ps == views(pieces@),
            views(out@) == non_empty(ps.take(i as int)),
        decreases pieces.len() - i,
    {
        let ghost before = views(out@);
        assert(ps.take(i + 1 as int).drop_last() =~= ps.take(i as int));
        assert(ps.take(i + 1 as int).last() == pieces@[i as int]@);
        if pieces[i].len() > 0 {
            out.push(slice_range(pieces[i].as_slice(), 0, pieces[i].len()));
            assert(pieces@[i as int]@.subrange(0, pieces@[i as int]@.len() as int)
                =~= pieces@[i as int]@);
            assert(views(out@) =~= before.push(pieces@[i as int]@));
        }
        i = i + 1;
    }
    assert(ps.take(pieces.len() as int) =~= ps);
    out
}

/// `s` lower-cased in the ASCII range (`str::to_ascii_lowercase`).
pub open spec fn lower(s: Seq<char>) -> Seq<char> {
    s.map_values(|c: char| ascii_lower(c))
}

pub fn lower_chars(v: &[char]) -> (r: Vec<char>)
    ensures
        r@ == lower(v@),
{
    let mut r: Vec<char> = Vec::new();
    let mut i: usize = 0;
    while i < v.len()
        invariant
            i <= v.len(),
            r@ =~= lower(v@.take(i as int)),
        decreases v.len() - i,
    {
        r.push(ascii_lower_char(v[i]));
        i = i + 1;
    }
    assert(v@.take(v.len() as int) =~= v@);
    r
}

/// `a` and `b` are equal ignoring ASCII case (`str::eq_ignore_ascii_case`).
pub open spec fn eq_ignore_ascii_case(a: Seq<char>, b: Seq<char>) -> bool {
    lower(a) == lower(b)
}

/// `p` is a prefix of `s`.
pub open spec fn starts_with(s: Seq<char>, p: Seq<char>) -> bool {
    p.len() <= s.len() && s.subrange(0, p.len() as int) == p
}

/// `p` occurs in `s` as a contiguous run.
pub open spec fn contains_run(s: Seq<char>, p: Seq<char>) -> bool {
    exists|i: int| 0 <= i && i + p.len() <= s.len() && #[trigger] s.subrange(i, i + p.len()) == p
}

pub fn same_chars(a: &[char], b: &[char]) -> (r: bool)
    ensures
        r == (a@ == b@),
{
    if a.len() != b.len() {
        return false;
    }
    let mut i: usize = 0;
    while i < a.len()
        invariant
            i <= a.len() == b.len(),
            forall|j: int| 0 <= j < i ==> a@[j] == b@[j],
        decreases a.len() - i,
    {
        if a[i] != b[i] {
            return false;
        }
        i = i + 1;
    }
    assert(a@ =~= b@);
    true
}

fn matches_at(s: &[char], p: &[char], i: usize) -> (r: bool)
    requires
        i + p@.len() <= s@.len(),
    ensures
        r == (s@.subrange(i as int, i + p@.len()) == p@),
{
    let n = s.len();
    let mut j: usize = 0;
    while j < p.len()
        invariant
            i + p@.len() <= s@.len() == n,
            j <= p.len(),
            forall|t: int| 0 <= t < j ==> s@[i + t] == p@[t],
        decreases p.len() - j,
    {
        if s[i + j] != p[j] {
            assert(s@.subrange(i as int, i + p@.len())[j as int] != p@[j as int]);
            return false;
        }
        j = j + 1;
    }
    assert(s@.subrange(i as int, i + p@.len()) =~= p@);
    true
}

pub fn starts_with_chars(s: &[char], p: &[char]) -> (r: bool)
    ensures
        r == starts_with(s@, p@),
{
    if p.len() > s.len() {
        return false;
    }
    matches_at(s, p, 0)
}

pub fn contains_chars(s: &[char], p: &[char]) -> (r: bool)
    ensures
        r == contains_run(s@, p@),
{
    if p.len() > s.len() {
        return false;
    }
    let last = s.len() - p.len();
    let mut i: usize = 0;
    loop
        invariant
            i <= last,
            last == s@.len() - p@.len(),
            forall|t: int| 0 <= t < i ==> #[trigger] s@.subrange(t, t + p@.len()) != p@,
        decreases last - i,
    {
        if matches_at(s, p, i) {
            return true;
        }
        if i == last {
            return false;
        }
        i = i + 1;
    }
}


/// `c` is one of the ASCII digits `0`..`9`.
pub open spec fn is_digit(c: char) -> bool {
    '0' <= c && c <= '9'
}

pub open spec fn digit_value(c: char) -> nat {
    ((c as u32) - ('0' as u32)) as nat
}

/// Every character of `s` is an ASCII digit.
pub open spec fn all_digits(s: Seq<char>) -> bool {
    forall|i: int| 0 <= i < s.len() ==> is_digit(#[trigger] s[i])
}

/// The number that the decimal digits `s` spell (most significant first).
pub open spec fn digits_value(s: Seq<char>) -> nat
    decreases s.len(),
{
    if s.len() == 0 {
        0
    } else {
        digits_value(s.drop_last()) * 10 + digit_value(s.last())
    }
}

/// `s` without one leading `+`.
pub open spec fn unsigned_digits(s: Seq<char>) -> Seq<char> {
    if s.len() > 0 && s[0] == '+' {
        s.drop_first()
    } else {
        s
    }
}

/// What `str::parse` gives for an unsigned integer type whose largest value
/// is `max`: an optional `+`, then at least one ASCII digit and nothing else,
/// with a value that fits.
pub open spec fn parse_unsigned(s: Seq<char>, max: nat) -> Option<nat> {
    let d = unsigned_digits(s);
    if d.len() == 0 || !all_digits(d) || digits_value(d) > max {
        None
    } else {
        Some(digits_value(d))
    }
}

proof fn lemma_digits_value_grows(s: Seq<char>, c: char)
    requires
        is_digit(c),
    ensures
        digits_value(s.push(c)) == digits_value(s) * 10 + digit_value(c),
        digits_value(s.push(c)) >= digits_value(s),
{
    assert(s.push(c).drop_last() =~= s);
}

/// Parses `v` as an unsigned number no larger than `max` (`str::parse` for
/// `u16` or `u32`, with `max` their largest value).
pub fn parse_unsigned_chars(v: &[char], max: u64) -> (r: Option<u64>)
    requires
        max <= u32::MAX,
    ensures
        match r {
            Some(n) => parse_unsigned(v@, max as nat) == Some(n as nat),
            None => parse_unsigned(v@, max as nat) is None,
        },
{
    let n = v.len();
    let start: usize = if n > 0 && v[0] == '+' {
        1
    } else {
        0
    };
    let ghost d = v@.subrange(start as int, n as int);
    assert(d =~= unsigned_digits(v@));
    if start == n {
        return None;
    }
    // `acc` is the value of the digits read so far, capped at `max + 1`.
    let mut acc: u64 = 0;
    let mut i: usize = start;
    while i < n
        invariant
            start <= i <= n == v@.len(),
            d == v@.subrange(start as int, n as int),
            d == unsigned_digits(v@),
            max <= u32::MAX,
            all_digits(v@.subrange(start as int, i as int)),
            acc == if digits_value(v@.subrange(start as int, i as int)) > max {
                max + 1
            } else {
                digits_value(v@.subrange(start as int, i as int)) as int
            },
        decreases n - i,
    {
        let c = v[i];
        if !('0' <= c && c <= '9') {
            assert(d[i - start] == c);
            assert(!all_digits(d));
            return None;
        }
        let ghost pre = v@.subrange(start as int, i as int);
        assert(v@.subrange(start as int, i + 1 as int) =~= pre.push(c));
        proof {
            lemma_digits_value_grows(pre, c);
        }
        let dv: u64 = ((c as u32) - ('0' as u32)) as u64;
        if acc > max {
            acc = max + 1;
        } else {
            let next = acc * 10 + dv;
            acc = if next > max {
                max + 1
            } else {
                next
            };
        }
        i = i + 1;
    }
    if acc > max {
        None
    } else {
        Some(acc)
    }
}

pub open spec fn digit_char(d: nat) -> char {
    (('0' as u32) + d) as char
}

/// The decimal digits of `n`, most significant first, without leading zeros.
pub open spec fn decimal(n: nat) -> Seq<char>
    decreases n,
{
    if n < 10 {
        seq![digit_char(n)]
    } else {
        decimal(n / 10).push(digit_char(n % 10))
    }
}

fn digit_char_of(d: u64) -> (c: char)
    requires
        d < 10,
    ensures
        c == digit_char(d as nat),
{
    let b: u8 = (d as u8) + 48;
    b as char
}

/// Appends the decimal form of `n` to `s` (what `{}` formatting of an
/// unsigned integer writes).
pub fn push_decimal(s: &mut String, n: u64)
    ensures
        final(s)@ == old(s)@ + decimal(n as nat),
    decreases n,
{
    if n < 10 {
        s.push(digit_char_of(n));
        assert(decimal(n as nat) == seq![digit_char(n as nat)]);
    } else {
        push_decimal(s, n / 10);
        s.push(digit_char_of(n % 10));
        assert(decimal(n as nat) == decimal((n / 10) as nat).push(digit_char((n % 10) as nat)));
    }
}

/// Parsing the decimal form of a number gives the number back.
pub proof fn law_decimal_round_trip(n: nat, max: nat)
    requires
        n <= max,
    ensures
        parse_unsigned(decimal(n), max) == Some(n),
    decreases n,
{
    lemma_decimal_digits(n);
}

proof fn lemma_digit_roundtrip(d: nat)
    requires
        d < 10,
    ensures
        is_digit(digit_char(d)),
        digit_value(digit_char(d)) == d,
{
}

pub proof fn lemma_decimal_digits(n: nat)
    ensures
        decimal(n).len() > 0,
        all_digits(decimal(n)),
        digits_value(decimal(n)) == n,
        decimal(n)[0] != '+',
    decreases n,
{
    lemma_digit_roundtrip(n % 10);
    if n < 10 {
        lemma_digit_roundtrip(n);
        assert(decimal(n) == seq![digit_char(n)]);
        assert(seq![digit_char(n)].drop_last() =~= Seq::<char>::empty());
        assert(digits_value(seq![digit_char(n)]) == digits_value(Seq::<char>::empty()) * 10
            + digit_value(digit_char(n)));
    } else {
        lemma_decimal_digits(n / 10);
        let p = decimal(n / 10);
        lemma_digits_value_grows(p, digit_char(n % 10));
        assert(decimal(n) == p.push(digit_char(n % 10)));
        assert(decimal(n)[0] == p[0]);
        assert(n == (n / 10) * 10 + n % 10);
    }
}


/// What Rust's `Debug` formatting writes for a string (`format!("{:?}", s)`):
/// a double-quoted literal with escapes.
pub uninterp spec fn debug_str(s: Seq<char>) -> Seq<char>;

/// `format!("{:?}", s)`, std's `Debug` rendering of a string slice. The
/// contract names the result `debug_str(s@)`: the same text always gives the
/// same rendering. The escaping rules themselves are not restated.
#[verifier::external_body]
pub(crate) fn debug_quoted(s: &str) -> (r: String)
    ensures
        r@ == debug_str(s@),
{
    format!("{:?}", s)
}

/// `std::str::from_utf8` followed by an owned copy: `Some` exactly when the
/// bytes are valid UTF-8, and then the decoded characters.
#[verifier::external_body]
pub(crate) fn utf8_text(bytes: &[u8]) -> (r: Option<String>)
    ensures
        r is Some <==> vstd::utf8::valid_utf8(bytes@),
        r matches Some(t) ==> t@ == vstd::utf8::decode_utf8(bytes@),
{
    match std::str::from_utf8(bytes) {
        Ok(t) => Some(t.to_string()),
        Err(_) => None,
    }
}

} // verus!
