//! Character-level text utilities with their mathematical models.
//!
//! Strings are modelled by their view, a `Seq<char>`. The helpers here give
//! the library the parts of `str` that it reads: whitespace trimming, substring
//! search, prefixes, line splitting and case folding.

use vstd::prelude::*;
use vstd::string::StringExecFns;

verus! {

/// Unicode `White_Space` property, as `char::is_whitespace` documents it.
pub open spec fn is_ws(c: char) -> bool {
    let u = c as u32;
    ||| (0x09 <= u && u <= 0x0d)
    ||| u == 0x20
    ||| u == 0x85
    ||| u == 0xa0
    ||| u == 0x1680
    ||| (0x2000 <= u && u <= 0x200a)
    ||| u == 0x2028
    ||| u == 0x2029
    ||| u == 0x202f
    ||| u == 0x205f
    ||| u == 0x3000
}

/// Executable whitespace test.
pub fn char_is_ws(c: char) -> (r: bool)
    ensures
        r == is_ws(c),
{
    let u = c as u32;
    (0x09 <= u && u <= 0x0d) || u == 0x20 || u == 0x85 || u == 0xa0 || u == 0x1680 || (0x2000 <= u
        && u <= 0x200a) || u == 0x2028 || u == 0x2029 || u == 0x202f || u == 0x205f || u == 0x3000
}

/// Index of the first non-whitespace character at or after `k`.
pub open spec fn skip_ws_from(s: Seq<char>, k: int) -> int
    decreases s.len() - k,
{
    if k >= s.len() {
        s.len() as int
    } else if is_ws(s[k]) {
        skip_ws_from(s, k + 1)
    } else {
        k
    }
}

/// End (exclusive) of `s` once trailing whitespace down to `lo` is removed.
pub open spec fn trim_end_to(s: Seq<char>, e: int, lo: int) -> int
    decreases e - lo,
{
    if e <= lo {
        lo
    } else if is_ws(s[e - 1]) {
        trim_end_to(s, e - 1, lo)
    } else {
        e
    }
}

/// `str::trim_start`.
pub open spec fn trim_start(s: Seq<char>) -> Seq<char> {
    s.subrange(skip_ws_from(s, 0), s.len() as int)
}

/// `str::trim_end`.
pub open spec fn trim_end(s: Seq<char>) -> Seq<char> {
    s.subrange(0, trim_end_to(s, s.len() as int, 0))
}

/// `str::trim`.
pub open spec fn trim(s: Seq<char>) -> Seq<char> {
    let a = skip_ws_from(s, 0);
    s.subrange(a, trim_end_to(s, s.len() as int, a))
}

/// Characters of a string slice.
pub fn chars_of(s: &str) -> (v: Vec<char>)
    ensures
        v@ == s@,
{
    let mut v: Vec<char> = Vec::new();
    for c in it: s.chars()
        invariant
            v@ == it.seq().take(it.index() as int),
            it.seq() == s@,
    {
        v.push(c);
    }
    v
}

/// `String::push`.
#[verifier::external_body]
pub(crate) fn push_char(s: &mut String, c: char)
    ensures
        final(s)@ == old(s)@.push(c),
{
    s.push(c)
}

/// Appends `t` to `s`.
pub(crate) fn push_str(s: &mut String, t: &str)
    ensures
        final(s)@ == old(s)@ + t@,
{
    s.append(t)
}

/// A string holding exactly the given characters.
pub fn string_of(v: &Vec<char>) -> (s: String)
    ensures
        s@ == v@,
{
    let mut s = String::new();
    let mut i: usize = 0;
    while i < v.len()
        invariant
            i <= v.len(),
            s@ == v@.take(i as int),
        decreases v.len() - i,
    {
        push_char(&mut s, v[i]);
        i += 1;
        assert(s@ == v@.take(i as int));
    }
    assert(v@.take(v.len() as int) == v@);
    s
}


/// The characters of `s` from `a` up to `e`.
pub fn slice_chars(s: &Vec<char>, a: usize, e: usize) -> (r: Vec<char>)
    requires
        a <= e <= s.len(),
    ensures
        r@ == s@.subrange(a as int, e as int),
{
    let mut r: Vec<char> = Vec::new();
    let mut i = a;
    while i < e
        invariant
            a <= i <= e <= s.len(),
            r@ == s@.subrange(a as int, i as int),
        decreases e - i,
    {
        r.push(s[i]);
        i += 1;
        assert(r@ == s@.subrange(a as int, i as int));
    }
    r
}

/// Position of the first non-whitespace character at or after `k`.
pub fn skip_ws(s: &Vec<char>, k: usize) -> (r: usize)
    requires
        k <= s.len(),
    ensures
        r as int == skip_ws_from(s@, k as int),
        k <= r <= s.len(),
{
    let mut i = k;
    while i < s.len() && char_is_ws(s[i])
        invariant
            k <= i <= s.len(),
            skip_ws_from(s@, i as int) == skip_ws_from(s@, k as int),
        decreases s.len() - i,
    {
        i += 1;
    }
    i
}

/// End of `s[lo..e]` once its trailing whitespace is removed.
pub fn trim_end_pos(s: &Vec<char>, e: usize, lo: usize) -> (r: usize)
    requires
        lo <= e <= s.len(),
    ensures
        r as int == trim_end_to(s@, e as int, lo as int),
        lo <= r <= e,
{
    let mut j = e;
    while j > lo && char_is_ws(s[j - 1])
        invariant
            lo <= j <= e,
            e <= s.len(),
            trim_end_to(s@, j as int, lo as int) == trim_end_to(s@, e as int, lo as int),
        decreases j,
    {
        j -= 1;
    }
    j
}

/// `str::trim` on characters.
pub fn trim_chars(s: &Vec<char>) -> (r: Vec<char>)
    ensures
        r@ == trim(s@),
{
    let a = skip_ws(s, 0);
    let e = trim_end_pos(s, s.len(), a);
    slice_chars(s, a, e)
}

/// `str::trim_start` on characters.
pub fn trim_start_chars(s: &Vec<char>) -> (r: Vec<char>)
    ensures
        r@ == trim_start(s@),
{
    let a = skip_ws(s, 0);
    slice_chars(s, a, s.len())
}

/// `str::trim_end` on characters.
pub fn trim_end_chars(s: &Vec<char>) -> (r: Vec<char>)
    ensures
        r@ == trim_end(s@),
{
    let e = trim_end_pos(s, s.len(), 0);
    slice_chars(s, 0, e)
}

/// `p` occurs in `s` at position `i`.
pub open spec fn matches_at(s: Seq<char>, p: Seq<char>, i: int) -> bool {
    &&& 0 <= i
    &&& i + p.len() <= s.len()
    &&& forall|j: int| 0 <= j < p.len() ==> #[trigger] s[i + j] == p[j]
}

/// `str::contains` with a string pattern.
pub open spec fn has_sub(s: Seq<char>, p: Seq<char>) -> bool {
    exists|i: int| matches_at(s, p, i)
}

/// `str::starts_with` with a string pattern.
pub open spec fn starts_with(s: Seq<char>, p: Seq<char>) -> bool {
    matches_at(s, p, 0)
}

/// `str::ends_with` with a string pattern.
pub open spec fn ends_with(s: Seq<char>, p: Seq<char>) -> bool {
    p.len() <= s.len() && matches_at(s, p, s.len() - p.len())
}

/// First position at or after `k` where `p` occurs in `s`.
pub open spec fn find_from(s: Seq<char>, p: Seq<char>, k: int) -> Option<int>
    decreases s.len() + 1 - k,
{
    if k < 0 || k + p.len() > s.len() {
        None
    } else if matches_at(s, p, k) {
        Some(k)
    } else {
        find_from(s, p, k + 1)
    }
}

/// `str::find` with a string pattern.
pub open spec fn find_sub(s: Seq<char>, p: Seq<char>) -> Option<int> {
    find_from(s, p, 0)
}

pub proof fn lemma_find_from_none(s: Seq<char>, p: Seq<char>, k: int)
    requires
        0 <= k,
        find_from(s, p, k) is None,
    ensures
        forall|i: int| k <= i ==> !matches_at(s, p, i),
    decreases s.len() + 1 - k,
{
    if k + p.len() <= s.len() {
        lemma_find_from_none(s, p, k + 1);
    }
}

pub proof fn lemma_find_from_some(s: Seq<char>, p: Seq<char>, k: int)
    requires
        0 <= k,
        find_from(s, p, k) is Some,
    ensures
        matches_at(s, p, find_from(s, p, k)->0),
        k <= find_from(s, p, k)->0,
        forall|i: int| k <= i < find_from(s, p, k)->0 ==> !matches_at(s, p, i),
    decreases s.len() + 1 - k,
{
    if !matches_at(s, p, k) {
        lemma_find_from_some(s, p, k + 1);
    }
}

pub proof fn lemma_find_iff_has(s: Seq<char>, p: Seq<char>)
    ensures
        find_sub(s, p) is Some <==> has_sub(s, p),
{
    if find_sub(s, p) is Some {
        lemma_find_from_some(s, p, 0);
    } else {
        lemma_find_from_none(s, p, 0);
    }
}

/// Whether `p` occurs at position `i` of `s`.
pub fn matches_at_exec(s: &Vec<char>, p: &Vec<char>, i: usize) -> (r: bool)
    ensures
        r == matches_at(s@, p@, i as int),
{
    if i > s.len() || p.len() > s.len() - i {
        return false;
    }
    let mut j: usize = 0;
    while j < p.len()
        invariant
            i + p.len() <= s.len(),
            j <= p.len(),
            forall|t: int| 0 <= t < j ==> s@[i + t] == p@[t],
        decreases p.len() - j,
    {
        if s[i + j] != p[j] {
            assert(!(s@[i + j as int] == p@[j as int]));
            return false;
        }
        j += 1;
    }
    true
}

/// First position at or after `k` where `p` occurs in `s`.
pub fn find_from_exec(s: &Vec<char>, p: &Vec<char>, k: usize) -> (r: Option<usize>)
    ensures
        r matches Some(i) ==> find_from(s@, p@, k as int) == Some(i as int),
        r is None ==> find_from(s@, p@, k as int) is None,
{
    let mut i = k;
    while i <= s.len() && p.len() <= s.len() - i
        invariant
            k <= i,
            find_from(s@, p@, i as int) == find_from(s@, p@, k as int),
        decreases s.len() + 1 - i,
    {
        if matches_at_exec(s, p, i) {
            return Some(i);
        }
        i += 1;
    }
    None
}

/// `str::contains` on characters.
pub fn contains(s: &Vec<char>, p: &Vec<char>) -> (r: bool)
    ensures
        r == has_sub(s@, p@),
{
    proof {
        lemma_find_iff_has(s@, p@);
    }
    find_from_exec(s, p, 0).is_some()
}

/// `str::contains` with a string slice pattern.
pub fn contains_str(s: &Vec<char>, p: &str) -> (r: bool)
    ensures
        r == has_sub(s@, p@),
{
    let pc = chars_of(p);
    contains(s, &pc)
}

/// `str::starts_with` with a string slice pattern.
pub fn starts_with_str(s: &Vec<char>, p: &str) -> (r: bool)
    ensures
        r == starts_with(s@, p@),
{
    let pc = chars_of(p);
    matches_at_exec(s, &pc, 0)
}

/// `str::ends_with` with a string slice pattern.
pub fn ends_with_str(s: &Vec<char>, p: &str) -> (r: bool)
    ensures
        r == ends_with(s@, p@),
{
    let pc = chars_of(p);
    if pc.len() > s.len() {
        return false;
    }
    matches_at_exec(s, &pc, s.len() - pc.len())
}

/// The characters of `s` equal those of `t`.
pub fn eq_str(s: &Vec<char>, t: &str) -> (r: bool)
    ensures
        r == (s@ == t@),
{
    let tc = chars_of(t);
    if s.len() != tc.len() {
        return false;
    }
    let r = matches_at_exec(s, &tc, 0);
    proof {
        if r {
            assert forall|j: int| 0 <= j < s@.len() implies s@[j] == tc@[j] by {
                assert(s@[0 + j] == tc@[j]);
            }
            assert(s@ =~= tc@);
        }
    }
    r
}

/// Two character sequences are equal.
pub fn eq_chars(s: &Vec<char>, t: &Vec<char>) -> (r: bool)
    ensures
        r == (s@ == t@),
{
    if s.len() != t.len() {
        return false;
    }
    let r = matches_at_exec(s, t, 0);
    proof {
        if r {
            assert forall|j: int| 0 <= j < s@.len() implies s@[j] == t@[j] by {
                assert(s@[0 + j] == t@[j]);
            }
            assert(s@ =~= t@);
        }
    }
    r
}


/// A line as `str::lines` yields it: one `\r` before the `\n` is dropped.
pub open spec fn strip_cr(l: Seq<char>) -> Seq<char> {
    if l.len() > 0 && l.last() == '\r' {
        l.drop_last()
    } else {
        l
    }
}

/// The lines of `s` that start at or after position `start` (`str::lines`).
pub open spec fn lines_from(s: Seq<char>, start: int) -> Seq<Seq<char>>
    decreases s.len() - start,
{
    if start < 0 || start >= s.len() {
        Seq::empty()
    } else {
        match find_from(s, seq!['\n'], start) {
            Some(i) => {
                if i < start {
                    Seq::empty()
                } else {
                    proof {
                        lemma_find_from_some(s, seq!['\n'], start);
                    }
                    seq![strip_cr(s.subrange(start, i))] + lines_from(s, i + 1)
                }
            },
            None => seq![s.subrange(start, s.len() as int)],
        }
    }
}

/// `str::lines`.
pub open spec fn lines_of(s: Seq<char>) -> Seq<Seq<char>> {
    lines_from(s, 0)
}

/// The view of each line.
pub open spec fn views(v: Seq<Vec<char>>) -> Seq<Seq<char>> {
    v.map_values(|l: Vec<char>| l@)
}

/// `strip_cr` on characters.
pub fn strip_cr_chars(l: Vec<char>) -> (r: Vec<char>)
    ensures
        r@ == strip_cr(l@),
{
    let mut l = l;
    if l.len() > 0 && l[l.len() - 1] == '\r' {
        l.pop();
    }
    l
}

/// `str::lines` on characters.
pub fn lines(s: &Vec<char>) -> (r: Vec<Vec<char>>)
    ensures
        views(r@) == lines_of(s@),
{
    let nl: Vec<char> = vec!['\n'];
    assert(nl@ =~= seq!['\n']);
    let mut r: Vec<Vec<char>> = Vec::new();
    let mut start: usize = 0;
    while start < s.len()
        invariant
            start <= s.len(),
            nl@ == seq!['\n'],
            views(r@) + lines_from(s@, start as int) == lines_of(s@),
        decreases s.len() - start,
    {
        match find_from_exec(s, &nl, start) {
            Some(i) => {
                proof {
                    lemma_find_from_some(s@, nl@, start as int);
                }
                let line = strip_cr_chars(slice_chars(s, start, i));
                let ghost old_r = r@;
                r.push(line);
                assert(views(r@) =~= views(old_r).push(line@));
                assert(lines_from(s@, start as int) == seq![line@] + lines_from(s@, i + 1));
                assert(views(r@) + lines_from(s@, (i + 1) as int) =~= views(old_r) + lines_from(
                    s@,
                    start as int,
                ));
                start = i + 1;
            },
            None => {
                let line = slice_chars(s, start, s.len());
                let ghost old_r = r@;
                r.push(line);
                assert(views(r@) =~= views(old_r).push(line@));
                assert(lines_from(s@, s.len() as int) =~= Seq::<Seq<char>>::empty());
                assert(views(r@) + lines_from(s@, s.len() as int) =~= views(old_r) + lines_from(
                    s@,
                    start as int,
                ));
                start = s.len();
            },
        }
    }
    assert(lines_from(s@, start as int) =~= Seq::<Seq<char>>::empty());
    assert(views(r@) =~= views(r@) + lines_from(s@, start as int));
    r
}

/// `str::split_once` at the first occurrence of character `c`.
pub open spec fn split_once(s: Seq<char>, c: char) -> Option<(Seq<char>, Seq<char>)> {
    match find_from(s, seq![c], 0) {
        Some(i) => Some((s.subrange(0, i), s.subrange(i + 1, s.len() as int))),
        None => None,
    }
}

/// `str::split_once` on characters.
pub fn split_once_chars(s: &Vec<char>, c: char) -> (r: Option<(Vec<char>, Vec<char>)>)
    ensures
        r matches Some(p) ==> split_once(s@, c) == Some((p.0@, p.1@)),
        r is None ==> split_once(s@, c) is None,
{
    let pat: Vec<char> = vec![c];
    assert(pat@ =~= seq![c]);
    match find_from_exec(s, &pat, 0) {
        Some(i) => {
            proof {
                lemma_find_from_some(s@, pat@, 0);
                assert(pat@.len() == 1);
                assert(i + 1 <= s@.len());
                assert(s@.len() == s.len());
            }
            let a = slice_chars(s, 0, i);
            let b = slice_chars(s, i + 1, s.len());
            Some((a, b))
        },
        None => None,
    }
}

/// End of the whitespace-free run that starts at `k`.
pub open spec fn word_end_from(s: Seq<char>, k: int) -> int
    decreases s.len() - k,
{
    if k >= s.len() {
        s.len() as int
    } else if is_ws(s[k]) {
        k
    } else {
        word_end_from(s, k + 1)
    }
}

/// `str::split_whitespace().next()`.
pub open spec fn first_word(s: Seq<char>) -> Option<Seq<char>> {
    let a = skip_ws_from(s, 0);
    if a >= s.len() {
        None
    } else {
        Some(s.subrange(a, word_end_from(s, a)))
    }
}

/// `str::split_whitespace().next()` on characters.
pub fn first_word_chars(s: &Vec<char>) -> (r: Option<Vec<char>>)
    ensures
        r matches Some(w) ==> first_word(s@) == Some(w@),
        r is None ==> first_word(s@) is None,
{
    let a = skip_ws(s, 0);
    if a >= s.len() {
        return None;
    }
    let mut e = a;
    while e < s.len() && !char_is_ws(s[e])
        invariant
            a <= e <= s.len(),
            word_end_from(s@, e as int) == word_end_from(s@, a as int),
        decreases s.len() - e,
    {
        e += 1;
    }
    Some(slice_chars(s, a, e))
}

/// Index of the first character at or after `k` that is not in `set`.
pub open spec fn skip_set_from(s: Seq<char>, k: int, set: Seq<char>) -> int
    decreases s.len() - k,
{
    if k >= s.len() {
        s.len() as int
    } else if set.contains(s[k]) {
        skip_set_from(s, k + 1, set)
    } else {
        k
    }
}

/// End of `s[lo..e]` once trailing characters in `set` are removed.
pub open spec fn trim_set_end_to(s: Seq<char>, e: int, lo: int, set: Seq<char>) -> int
    decreases e - lo,
{
    if e <= lo {
        lo
    } else if set.contains(s[e - 1]) {
        trim_set_end_to(s, e - 1, lo, set)
    } else {
        e
    }
}

/// `str::trim_matches` with the characters of `set`.
pub open spec fn trim_set(s: Seq<char>, set: Seq<char>) -> Seq<char> {
    let a = skip_set_from(s, 0, set);
    s.subrange(a, trim_set_end_to(s, s.len() as int, a, set))
}

/// `str::trim_start_matches` with the characters of `set`.
pub open spec fn trim_set_start(s: Seq<char>, set: Seq<char>) -> Seq<char> {
    s.subrange(skip_set_from(s, 0, set), s.len() as int)
}

/// `str::trim_end_matches` with the characters of `set`.
pub open spec fn trim_set_end(s: Seq<char>, set: Seq<char>) -> Seq<char> {
    s.subrange(0, trim_set_end_to(s, s.len() as int, 0, set))
}

/// Membership of a character in a small set.
pub fn in_set(c: char, set: &Vec<char>) -> (r: bool)
    ensures
        r == set@.contains(c),
{
    let mut i: usize = 0;
    while i < set.len()
        invariant
            i <= set.len(),
            forall|j: int| 0 <= j < i ==> set@[j] != c,
        decreases set.len() - i,
    {
        if set[i] == c {
            return true;
        }
        i += 1;
    }
    false
}

fn skip_set(s: &Vec<char>, k: usize, set: &Vec<char>) -> (r: usize)
    requires
        k <= s.len(),
    ensures
        r as int == skip_set_from(s@, k as int, set@),
        k <= r <= s.len(),
{
    let mut i = k;
    while i < s.len() && in_set(s[i], set)
        invariant
            k <= i <= s.len(),
            skip_set_from(s@, i as int, set@) == skip_set_from(s@, k as int, set@),
        decreases s.len() - i,
    {
        i += 1;
    }
    i
}

fn trim_set_end_pos(s: &Vec<char>, e: usize, lo: usize, set: &Vec<char>) -> (r: usize)
    requires
        lo <= e <= s.len(),
    ensures
        r as int == trim_set_end_to(s@, e as int, lo as int, set@),
        lo <= r <= e,
{
    let mut j = e;
    while j > lo && in_set(s[j - 1], set)
        invariant
            lo <= j <= e,
            e <= s.len(),
            trim_set_end_to(s@, j as int, lo as int, set@) == trim_set_end_to(
                s@,
                e as int,
                lo as int,
                set@,
            ),
        decreases j,
    {
        j -= 1;
    }
    j
}

/// `str::trim_matches` with a set of characters.
pub fn trim_set_chars(s: &Vec<char>, set: &Vec<char>) -> (r: Vec<char>)
    ensures
        r@ == trim_set(s@, set@),
{
    let a = skip_set(s, 0, set);
    let e = trim_set_end_pos(s, s.len(), a, set);
    slice_chars(s, a, e)
}

/// `str::trim_start_matches` with a set of characters.
pub fn trim_set_start_chars(s: &Vec<char>, set: &Vec<char>) -> (r: Vec<char>)
    ensures
        r@ == trim_set_start(s@, set@),
{
    let a = skip_set(s, 0, set);
    slice_chars(s, a, s.len())
}

/// `str::trim_end_matches` with a set of characters.
pub fn trim_set_end_chars(s: &Vec<char>, set: &Vec<char>) -> (r: Vec<char>)
    ensures
        r@ == trim_set_end(s@, set@),
{
    let e = trim_set_end_pos(s, s.len(), 0, set);
    slice_chars(s, 0, e)
}

/// `s` without any of the characters in `set` (`str::replace` with an empty replacement).
pub open spec fn remove_set(s: Seq<char>, set: Seq<char>) -> Seq<char>
    decreases s.len(),
{
    if s.len() == 0 {
        s
    } else if set.contains(s.last()) {
        remove_set(s.drop_last(), set)
    } else {
        remove_set(s.drop_last(), set).push(s.last())
    }
}

/// `remove_set` on characters.
pub fn remove_set_chars(s: &Vec<char>, set: &Vec<char>) -> (r: Vec<char>)
    ensures
        r@ == remove_set(s@, set@),
{
    let mut r: Vec<char> = Vec::new();
    let mut i: usize = 0;
    while i < s.len()
        invariant
            i <= s.len(),
            r@ == remove_set(s@.take(i as int), set@),
        decreases s.len() - i,
    {
        assert(s@.take(i + 1).drop_last() =~= s@.take(i as int));
        assert(s@.take(i + 1).last() == s@[i as int]);
        if !in_set(s[i], set) {
            r.push(s[i]);
        }
        i += 1;
    }
    assert(s@.take(s.len() as int) =~= s@);
    r
}

/// `compact`: at most `max` characters, the last replaced by `…` when cut.
pub open spec fn compact(s: Seq<char>, max: int) -> Seq<char> {
    if s.len() <= max {
        s
    } else {
        s.take(if max >= 1 { max - 1 } else { 0 }).push('…')
    }
}

/// At most `max` characters of `s`; a cut string ends in `…`.
pub fn compact_chars(s: &Vec<char>, max: usize) -> (r: Vec<char>)
    ensures
        r@ == compact(s@, max as int),
{
    if s.len() <= max {
        return slice_chars(s, 0, s.len());
    }
    let keep = if max >= 1 {
        max - 1
    } else {
        0
    };
    let mut r = slice_chars(s, 0, keep);
    r.push('…');
    r
}

/// Case folding as `str::to_lowercase` computes it.
pub uninterp spec fn lowercase(s: Seq<char>) -> Seq<char>;

/// Case folding as `str::to_uppercase` computes it.
pub uninterp spec fn uppercase(s: Seq<char>) -> Seq<char>;

/// Every character is ASCII.
pub open spec fn is_ascii_chars(s: Seq<char>) -> bool {
    forall|i: int| 0 <= i < s.len() ==> (#[trigger] s[i] as u32) < 128
}

/// `char::to_ascii_lowercase`.
pub open spec fn ascii_lower_char(c: char) -> char {
    if 'A' <= c && c <= 'Z' {
        ((c as u32) + 32) as char
    } else {
        c
    }
}

/// `char::to_ascii_uppercase`.
pub open spec fn ascii_upper_char(c: char) -> char {
    if 'a' <= c && c <= 'z' {
        ((c as u32) - 32) as char
    } else {
        c
    }
}

/// `str::to_ascii_lowercase` on characters.
pub open spec fn ascii_lowercase(s: Seq<char>) -> Seq<char> {
    s.map_values(|c: char| ascii_lower_char(c))
}

/// `str::to_ascii_uppercase` on characters.
pub open spec fn ascii_uppercase(s: Seq<char>) -> Seq<char> {
    s.map_values(|c: char| ascii_upper_char(c))
}

/// `str::to_lowercase`: the result is the Unicode lowercase mapping of `s`,
/// named `lowercase`; the mapping's tables are not restated here. On ASCII
/// text it is the ASCII lowercase.
#[verifier::external_body]
pub(crate) fn str_to_lowercase(s: &str) -> (r: String)
    ensures
        r@ == lowercase(s@),
        is_ascii_chars(s@) ==> r@ == ascii_lowercase(s@),
{
    s.to_lowercase()
}

/// `str::to_uppercase`: the result is the Unicode uppercase mapping of `s`,
/// named `uppercase`; the mapping's tables are not restated here. On ASCII
/// text it is the ASCII uppercase.
#[verifier::external_body]
pub(crate) fn str_to_uppercase(s: &str) -> (r: String)
    ensures
        r@ == uppercase(s@),
        is_ascii_chars(s@) ==> r@ == ascii_uppercase(s@),
{
    s.to_uppercase()
}

/// Lowercase of a character sequence.
pub fn lower_chars(s: &Vec<char>) -> (r: Vec<char>)
    ensures
        r@ == lowercase(s@),
        is_ascii_chars(s@) ==> r@ == ascii_lowercase(s@),
{
    let t = string_of(s);
    let l = str_to_lowercase(t.as_str());
    chars_of(l.as_str())
}

/// Lowercase of a string slice, as characters.
pub fn lower_str(s: &str) -> (r: Vec<char>)
    ensures
        r@ == lowercase(s@),
        is_ascii_chars(s@) ==> r@ == ascii_lowercase(s@),
{
    let l = str_to_lowercase(s);
    chars_of(l.as_str())
}

/// A string slice holding the given characters, owned.
pub fn string_from_str(s: &str) -> (r: String)
    ensures
        r@ == s@,
{
    s.to_owned()
}

/// `a` followed by `b`.
pub fn concat2(a: &str, b: &str) -> (r: String)
    ensures
        r@ == a@ + b@,
{
    let mut r = s_owned(a);
    push_str(&mut r, b);
    r
}

/// `a`, `b` and `c` in order.
pub fn concat3(a: &str, b: &str, c: &str) -> (r: String)
    ensures
        r@ == a@ + b@ + c@,
{
    let mut r = s_owned(a);
    push_str(&mut r, b);
    push_str(&mut r, c);
    r
}

/// `a`, `b`, `c` and `d` in order.
pub fn concat4(a: &str, b: &str, c: &str, d: &str) -> (r: String)
    ensures
        r@ == a@ + b@ + c@ + d@,
{
    let mut r = s_owned(a);
    push_str(&mut r, b);
    push_str(&mut r, c);
    push_str(&mut r, d);
    r
}

/// `a` through `e` in order.
pub fn concat5(a: &str, b: &str, c: &str, d: &str, e: &str) -> (r: String)
    ensures
        r@ == a@ + b@ + c@ + d@ + e@,
{
    let mut r = s_owned(a);
    push_str(&mut r, b);
    push_str(&mut r, c);
    push_str(&mut r, d);
    push_str(&mut r, e);
    r
}

fn s_owned(a: &str) -> (r: String)
    ensures
        r@ == a@,
{
    a.to_owned()
}

/// Number of UTF-8 bytes that encode `c`.
pub open spec fn utf8_width(c: char) -> int {
    let u = c as u32;
    if u < 0x80 {
        1
    } else if u < 0x800 {
        2
    } else if u < 0x10000 {
        3
    } else {
        4
    }
}

/// Number of UTF-8 bytes that encode `s`.
pub open spec fn utf8_len(s: Seq<char>) -> int
    decreases s.len(),
{
    if s.len() == 0 {
        0
    } else {
        utf8_len(s.drop_last()) + utf8_width(s.last())
    }
}

/// The number of characters of `s` that make up its first `b` bytes, when `b`
/// falls on a character boundary.
pub open spec fn char_index_at_byte(s: Seq<char>, b: int) -> Option<int>
    decreases s.len(),
{
    if b == utf8_len(s) {
        Some(s.len() as int)
    } else if s.len() == 0 {
        None
    } else {
        char_index_at_byte(s.drop_last(), b)
    }
}

pub fn utf8_width_exec(c: char) -> (r: u128)
    ensures
        r as int == utf8_width(c),
        1 <= r <= 4,
{
    let u = c as u32;
    if u < 0x80 {
        1
    } else if u < 0x800 {
        2
    } else if u < 0x10000 {
        3
    } else {
        4
    }
}

pub proof fn lemma_utf8_len_take(s: Seq<char>, i: int)
    requires
        0 <= i < s.len(),
    ensures
        utf8_len(s.take(i + 1)) == utf8_len(s.take(i)) + utf8_width(s[i]),
{
    assert(s.take(i + 1).drop_last() =~= s.take(i));
}

pub proof fn lemma_utf8_len_mono(s: Seq<char>, i: int, j: int)
    requires
        0 <= i <= j <= s.len(),
    ensures
        utf8_len(s.take(i)) + (j - i) <= utf8_len(s.take(j)),
    decreases j - i,
{
    if i < j {
        lemma_utf8_len_mono(s, i, j - 1);
        lemma_utf8_len_take(s, j - 1);
    }
}

/// char_index_at_byte(s.take(n), b) for all prefixes at once.
pub proof fn lemma_char_index_prefix(s: Seq<char>, n: int, b: int)
    requires
        0 <= n <= s.len(),
    ensures
        char_index_at_byte(s.take(n), b) matches Some(k) ==> 0 <= k <= n && utf8_len(s.take(k))
            == b,
        char_index_at_byte(s.take(n), b) is None ==> forall|k: int|
            0 <= k <= n ==> utf8_len(s.take(k)) != b,
    decreases n,
{
    if n > 0 {
        assert(s.take(n).drop_last() =~= s.take(n - 1));
        lemma_char_index_prefix(s, n - 1, b);
        if char_index_at_byte(s.take(n), b) is None {
            assert forall|k: int| 0 <= k <= n implies utf8_len(s.take(k)) != b by {
                if k == n {
                } else {
                }
            }
        }
    } else {
        assert(s.take(0) =~= Seq::<char>::empty());
    }
}

pub proof fn lemma_char_index_unique(s: Seq<char>, b: int, k: int)
    requires
        0 <= k <= s.len(),
        utf8_len(s.take(k)) == b,
    ensures
        char_index_at_byte(s, b) == Some(k),
{
    lemma_char_index_from_top(s, s.len() as int, b, k);
    assert(s.take(s.len() as int) =~= s);
}

pub proof fn lemma_char_index_from_top(s: Seq<char>, n: int, b: int, k: int)
    requires
        0 <= k <= n <= s.len(),
        utf8_len(s.take(k)) == b,
    ensures
        char_index_at_byte(s.take(n), b) == Some(k),
    decreases n,
{
    if n == k {
        assert(s.take(n) =~= s.take(k));
    } else {
        lemma_utf8_len_mono(s, k, n);
        assert(s.take(n).drop_last() =~= s.take(n - 1));
        lemma_char_index_from_top(s, n - 1, b, k);
    }
}

/// Number of UTF-8 bytes that encode `s`.
pub fn utf8_len_exec(s: &Vec<char>) -> (r: u128)
    ensures
        r as int == utf8_len(s@),
{
    let mut n: u128 = 0;
    let mut i: usize = 0;
    while i < s.len()
        invariant
            i <= s.len(),
            n as int == utf8_len(s@.take(i as int)),
            n <= 4 * i,
        decreases s.len() - i,
    {
        proof {
            lemma_utf8_len_take(s@, i as int);
        }
        n = n + utf8_width_exec(s[i]);
        i += 1;
    }
    assert(s@.take(s.len() as int) =~= s@);
    n
}

/// The number of characters of `s` that its first `b` bytes hold, when `b`
/// is a character boundary.
pub fn char_index_at_byte_exec(s: &Vec<char>, b: u128) -> (r: Option<usize>)
    ensures
        r matches Some(k) ==> char_index_at_byte(s@, b as int) == Some(k as int) && k <= s.len(),
        r is None ==> char_index_at_byte(s@, b as int) is None,
{
    let mut acc: u128 = 0;
    let mut k: usize = 0;
    while k < s.len() && acc < b
        invariant
            k <= s.len(),
            acc as int == utf8_len(s@.take(k as int)),
            acc <= 4 * k,
            forall|j: int| 0 <= j < k ==> utf8_len(s@.take(j)) < b,
        decreases s.len() - k,
    {
        proof {
            lemma_utf8_len_take(s@, k as int);
        }
        acc = acc + utf8_width_exec(s[k]);
        k += 1;
    }
    if acc == b {
        proof {
            lemma_char_index_unique(s@, b as int, k as int);
        }
        Some(k)
    } else {
        proof {
            lemma_char_index_prefix(s@, s@.len() as int, b as int);
            assert(s@.take(s@.len() as int) =~= s@);
            if char_index_at_byte(s@, b as int) is Some {
                let j = char_index_at_byte(s@, b as int)->0;
                if j > k {
                    lemma_utf8_len_mono(s@, k as int, j);
                }
                if j == k {
                }
            }
        }
        None
    }
}


/// Code of the ASCII lowercase of one character; other characters keep their code.
pub open spec fn ascii_lower(c: char) -> u32 {
    if 'A' <= c && c <= 'Z' {
        ((c as u32) + 32) as u32
    } else {
        c as u32
    }
}

/// `str::eq_ignore_ascii_case`.
pub open spec fn eq_ignore_ascii_case(a: Seq<char>, b: Seq<char>) -> bool {
    a.len() == b.len() && forall|i: int| 0 <= i < a.len() ==> ascii_lower(#[trigger] a[i]) == ascii_lower(b[i])
}

fn ascii_lower_exec(c: char) -> (r: u32)
    ensures
        r == ascii_lower(c),
{
    if 'A' <= c && c <= 'Z' {
        (c as u32) + 32
    } else {
        c as u32
    }
}

/// `str::eq_ignore_ascii_case` with a string slice.
pub fn eq_ignore_ascii_case_str(a: &Vec<char>, b: &str) -> (r: bool)
    ensures
        r == eq_ignore_ascii_case(a@, b@),
{
    let bc = chars_of(b);
    if a.len() != bc.len() {
        return false;
    }
    let mut i: usize = 0;
    while i < a.len()
        invariant
            i <= a.len(),
            a.len() == bc.len(),
            bc@ == b@,
            forall|j: int| 0 <= j < i ==> ascii_lower(#[trigger] a@[j]) == ascii_lower(bc@[j]),
        decreases a.len() - i,
    {
        if ascii_lower_exec(a[i]) != ascii_lower_exec(bc[i]) {
            return false;
        }
        i += 1;
    }
    true
}

/// Strings joined with a separator.
pub open spec fn join(parts: Seq<Seq<char>>, sep: Seq<char>) -> Seq<char>
    decreases parts.len(),
{
    if parts.len() == 0 {
        Seq::empty()
    } else if parts.len() == 1 {
        parts[0]
    } else {
        join(parts.drop_last(), sep) + sep + parts.last()
    }
}


/// The views of a sequence of strings.
pub open spec fn string_views(v: Seq<String>) -> Seq<Seq<char>> {
    v.map_values(|s: String| s@)
}

/// `parts` joined with `sep` between neighbours, as `[String]::join` does.
pub fn join_strings(parts: &Vec<String>, sep: &str) -> (r: String)
    ensures
        r@ == join(string_views(parts@), sep@),
{
    let mut out = String::new();
    let mut i: usize = 0;
    while i < parts.len()
        invariant
            i <= parts.len(),
            out@ == join(string_views(parts@).take(i as int), sep@),
        decreases parts.len() - i,
    {
        let ghost ps = string_views(parts@);
        if i > 0 {
            push_str(&mut out, sep);
        }
        push_str(&mut out, parts[i].as_str());
        proof {
            assert(ps.take(i + 1).drop_last() =~= ps.take(i as int));
            assert(ps.take(i + 1).last() == parts@[i as int]@);
            if i == 0 {
                assert(ps.take(0) =~= Seq::<Seq<char>>::empty());
                assert(out@ =~= parts@[0]@);
            } else {
                assert(out@ =~= join(ps.take(i as int), sep@) + sep@ + parts@[i as int]@);
            }
        }
        i += 1;
    }
    proof {
        assert(string_views(parts@).take(parts.len() as int) =~= string_views(parts@));
    }
    out
}

/// The decimal digit for `d` (below ten).
pub open spec fn digit_char(d: nat) -> char {
    if d == 0 {
        '0'
    } else if d == 1 {
        '1'
    } else if d == 2 {
        '2'
    } else if d == 3 {
        '3'
    } else if d == 4 {
        '4'
    } else if d == 5 {
        '5'
    } else if d == 6 {
        '6'
    } else if d == 7 {
        '7'
    } else if d == 8 {
        '8'
    } else {
        '9'
    }
}

/// `n` written in decimal, as `Display` writes an unsigned integer.
pub open spec fn decimal(n: nat) -> Seq<char>
    decreases n,
{
    if n < 10 {
        seq![digit_char(n)]
    } else {
        decimal(n / 10) + seq![digit_char(n % 10)]
    }
}

fn digit_exec(d: usize) -> (r: char)
    requires
        d < 10,
    ensures
        r == digit_char(d as nat),
{
    if d == 0 {
        '0'
    } else if d == 1 {
        '1'
    } else if d == 2 {
        '2'
    } else if d == 3 {
        '3'
    } else if d == 4 {
        '4'
    } else if d == 5 {
        '5'
    } else if d == 6 {
        '6'
    } else if d == 7 {
        '7'
    } else if d == 8 {
        '8'
    } else {
        '9'
    }
}

/// `n` in decimal.
pub fn decimal_text(n: usize) -> (r: String)
    ensures
        r@ == decimal(n as nat),
    decreases n,
{
    if n < 10 {
        let mut r = String::new();
        push_char(&mut r, digit_exec(n));
        assert(r@ =~= seq![digit_char(n as nat)]);
        r
    } else {
        let mut r = decimal_text(n / 10);
        push_char(&mut r, digit_exec(n % 10));
        r
    }
}

} // verus!
