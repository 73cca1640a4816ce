//! Small verified helpers over strings and character sequences.

use vstd::prelude::*;
use vstd::string::*;

verus! {

/// Equality of two owned strings, tied to their character views.
pub fn string_eq(a: &String, b: &String) -> (r: bool)
    ensures
        r == (a@ == b@),
{
    a.eq(b)
}

/// Equality of two string slices, tied to their character views.
pub fn str_eq(a: &str, b: &str) -> (r: bool)
    ensures
        r == (a@ == b@),
{
    let an = a.unicode_len();
    let bn = b.unicode_len();
    if an != bn {
        return false;
    }
    let mut k: usize = 0;
    while k < an
        invariant
            k <= an,
            an == a@.len(),
            an == b@.len(),
            forall|t: int| 0 <= t < k ==> a@[t] == b@[t],
        decreases an - k,
    {
        if a.get_char(k) != b.get_char(k) {
            return false;
        }
        k = k + 1;
    }
    proof {
        assert(a@ =~= b@);
    }
    true
}

/// The characters of a string, as an owned vector.
pub fn chars_vec(s: &str) -> (r: Vec<char>)
    ensures
        r@ == s@,
{
    let n = s.unicode_len();
    let mut r: Vec<char> = Vec::new();
    let mut k: usize = 0;
    while k < n
        invariant
            k <= n,
            n == s@.len(),
            r@ == s@.subrange(0, k as int),
        decreases n - k,
    {
        r.push(s.get_char(k));
        proof {
            assert(r@ =~= s@.subrange(0, k + 1));
        }
        k = k + 1;
    }
    proof {
        assert(r@ =~= s@);
    }
    r
}

/// Relies on String's FromIterator over characters: collecting characters
/// yields the string made of exactly those characters, in order.
#[verifier::external_body]
pub fn string_from_chars(v: &Vec<char>) -> (r: String)
    ensures
        r@ == v@,
{
    v.iter().collect()
}

/// Whether `p` occurs in `s` at position `i`.
pub open spec fn match_at(s: Seq<char>, p: Seq<char>, i: int) -> bool {
    0 <= i && i + p.len() <= s.len() && s.subrange(i, i + p.len() as int) == p
}

/// The first position at or after `i` where `p` occurs in `s`, if any.
pub open spec fn spec_find(s: Seq<char>, p: Seq<char>, i: int) -> Option<int>
    decreases s.len() - i,
{
    if i < 0 || i + p.len() > s.len() {
        Option::None
    } else if p.len() == 0 {
        Option::Some(i)
    } else if s.subrange(i, i + p.len() as int) == p {
        Option::Some(i)
    } else {
        spec_find(s, p, i + 1)
    }
}

/// Whether `s` begins with `p`.
pub open spec fn spec_starts_with(s: Seq<char>, p: Seq<char>) -> bool {
    p.len() <= s.len() && s.subrange(0, p.len() as int) == p
}

/// The views of a sequence of owned strings.
pub open spec fn string_views(s: Seq<String>) -> Seq<Seq<char>> {
    s.map_values(|x: String| x@)
}

/// The views of a sequence of character vectors.
pub open spec fn char_views(s: Seq<Vec<char>>) -> Seq<Seq<char>> {
    s.map_values(|v: Vec<char>| v@)
}

/// A character sequence with leading and trailing whitespace removed.
pub uninterp spec fn trim_of(s: Seq<char>) -> Seq<char>;

/// Relies on str::trim: removes leading and trailing whitespace, depends
/// on the characters alone, and an empty string stays empty.
#[verifier::external_body]
pub fn trim_str(s: &str) -> (r: String)
    ensures
        r@ == trim_of(s@),
        s@.len() == 0 ==> r@.len() == 0,
{
    s.trim().to_string()
}

/// The lowercase form of a character sequence.
pub uninterp spec fn lower_of(s: Seq<char>) -> Seq<char>;

/// Relies on str::to_lowercase: the result depends on the characters
/// alone, and an empty string stays empty.
#[verifier::external_body]
pub(crate) fn lowercase_str(s: &str) -> (r: String)
    ensures
        r@ == lower_of(s@),
        s@.len() == 0 ==> r@.len() == 0,
{
    s.to_lowercase()
}

/// The lowercase form of a string: the sort key under which agent and
/// project listings are ordered by name.
pub fn lowercase_key(s: &str) -> (r: String)
    ensures
        r@ == lower_of(s@),
{
    lowercase_str(s)
}

/// An owned copy of a character vector.
pub fn copy_chars(v: &Vec<char>) -> (r: Vec<char>)
    ensures
        r@ == v@,
{
    let n = v.len();
    let mut r: Vec<char> = Vec::new();
    let mut k: usize = 0;
    while k < n
        invariant
            k <= n,
            n == v@.len(),
            r@ == v@.subrange(0, k as int),
        decreases n - k,
    {
        r.push(v[k]);
        proof {
            assert(r@ =~= v@.subrange(0, k + 1));
        }
        k = k + 1;
    }
    proof {
        assert(r@ =~= v@);
    }
    r
}

/// The suffix of a character vector from position `i` on.
pub fn tail_from(v: &Vec<char>, i: usize) -> (r: Vec<char>)
    requires
        i <= v@.len(),
    ensures
        r@ == v@.skip(i as int),
{
    let n = v.len();
    let mut r: Vec<char> = Vec::new();
    let mut k: usize = i;
    while k < n
        invariant
            i <= k <= n,
            n == v@.len(),
            r@ == v@.subrange(i as int, k as int),
        decreases n - k,
    {
        r.push(v[k]);
        proof {
            assert(r@ =~= v@.subrange(i as int, k + 1));
        }
        k = k + 1;
    }
    proof {
        assert(r@ =~= v@.skip(i as int));
    }
    r
}

/// Split around a separator, accumulating the current piece.
pub open spec fn split_acc(s: Seq<char>, c: char, cur: Seq<char>) -> Seq<Seq<char>>
    decreases s.len(),
{
    if s.len() == 0 {
        seq![cur]
    } else if s[0] == c {
        seq![cur] + split_acc(s.skip(1), c, Seq::empty())
    } else {
        split_acc(s.skip(1), c, cur.push(s[0]))
    }
}

/// The pieces of `s` split around every occurrence of `c`: one piece more
/// than there are separators, empty pieces kept.
pub open spec fn spec_split_char(s: Seq<char>, c: char) -> Seq<Seq<char>> {
    split_acc(s, c, Seq::empty())
}

/// A split yields at least one piece.
pub proof fn lemma_split_at_least_one(s: Seq<char>, c: char, cur: Seq<char>)
    ensures
        split_acc(s, c, cur).len() >= 1,
    decreases s.len(),
{
    if s.len() != 0 && s[0] != c {
        lemma_split_at_least_one(s.skip(1), c, cur.push(s[0]));
    }
}

/// Split a character vector around every occurrence of `c`.
pub fn split_on_char(v: &Vec<char>, c: char) -> (r: Vec<Vec<char>>)
    ensures
        char_views(r@) == spec_split_char(v@, c),
        r@.len() >= 1,
{
    let n = v.len();
    let mut parts: Vec<Vec<char>> = Vec::new();
    let mut cur: Vec<char> = Vec::new();
    let mut k: usize = 0;
    proof {
        assert(v@.skip(0) =~= v@);
        assert(char_views(parts@) =~= Seq::<Seq<char>>::empty());
        assert(char_views(parts@) + split_acc(v@, c, Seq::<char>::empty()) =~= split_acc(
            v@,
            c,
            Seq::<char>::empty(),
        ));
    }
    while k < n
        invariant
            k <= n,
            n == v@.len(),
            spec_split_char(v@, c) == char_views(parts@) + split_acc(
                v@.skip(k as int),
                c,
                cur@,
            ),
        decreases n - k,
    {
        let ch = v[k];
        proof {
            assert(v@.skip(k as int)[0] == v@[k as int]);
            assert(v@.skip(k as int).skip(1) =~= v@.skip(k as int + 1));
        }
        if ch == c {
            let ghost pviews = char_views(parts@);
            let ghost done_view = cur@;
            let done = cur;
            cur = Vec::new();
            parts.push(done);
            proof {
                assert(char_views(parts@) =~= pviews.push(done_view));
                assert(pviews + (seq![done_view] + split_acc(
                    v@.skip(k as int + 1),
                    c,
                    Seq::empty(),
                )) =~= char_views(parts@) + split_acc(v@.skip(k as int + 1), c, Seq::empty()));
            }
        } else {
            cur.push(ch);
        }
        k = k + 1;
    }
    proof {
        assert(v@.skip(n as int) =~= Seq::<char>::empty());
    }
    let ghost pviews = char_views(parts@);
    let ghost done_view = cur@;
    parts.push(cur);
    proof {
        assert(char_views(parts@) =~= pviews.push(done_view));
        assert(pviews + seq![done_view] =~= char_views(parts@));
        lemma_split_at_least_one(v@, c, Seq::<char>::empty());
    }
    parts
}

/// A line with one trailing carriage return removed.
pub open spec fn strip_cr(l: Seq<char>) -> Seq<char> {
    if l.len() > 0 && l.last() == '\r' {
        l.drop_last()
    } else {
        l
    }
}

/// Every line with its trailing carriage return removed.
pub open spec fn strip_all(ls: Seq<Seq<char>>) -> Seq<Seq<char>> {
    ls.map_values(|l: Seq<char>| strip_cr(l))
}

/// The lines of `s`: pieces split around newlines, without a final empty
/// piece from a trailing newline, each without its trailing carriage
/// return.
pub open spec fn spec_lines(s: Seq<char>) -> Seq<Seq<char>> {
    let parts = spec_split_char(s, '\n');
    let kept = if parts.last().len() == 0 {
        parts.drop_last()
    } else {
        parts
    };
    strip_all(kept)
}

/// `line` with one trailing carriage return removed.
pub fn strip_cr_exec(line: Vec<char>) -> (r: Vec<char>)
    ensures
        r@ == strip_cr(line@),
{
    let mut line = line;
    let n = line.len();
    if n > 0 && line[n - 1] == '\r' {
        line.pop();
    }
    line
}

/// The lines of a character vector.
pub fn split_lines(v: &Vec<char>) -> (r: Vec<Vec<char>>)
    ensures
        char_views(r@) == spec_lines(v@),
{
    let mut parts = split_on_char(v, '\n');
    let last_len = parts[parts.len() - 1].len();
    proof {
        assert(char_views(parts@).last() == parts@.last()@);
    }
    if last_len == 0 {
        parts.pop();
        proof {
            assert(char_views(parts@) =~= spec_split_char(v@, '\n').drop_last());
        }
    }
    let ghost kept = char_views(parts@);
    let m = parts.len();
    let mut out: Vec<Vec<char>> = Vec::new();
    let mut k: usize = 0;
    while k < m
        invariant
            k <= m,
            m == parts@.len(),
            kept == char_views(parts@),
            char_views(out@) == strip_all(kept.subrange(0, k as int)),
        decreases m - k,
    {
        let ghost oviews = char_views(out@);
        let piece = strip_cr_exec(copy_chars(&parts[k]));
        let ghost piece_view = piece@;
        out.push(piece);
        proof {
            assert(char_views(out@) =~= oviews.push(piece_view));
            assert(char_views(out@) =~= strip_all(kept.subrange(0, k + 1)));
        }
        k = k + 1;
    }
    proof {
        assert(kept.subrange(0, m as int) =~= kept);
        assert(char_views(out@) =~= spec_lines(v@));
    }
    out
}

/// What a successful find means: the needle occurs at the found position,
/// which lies at or after the search start and within the haystack.
pub proof fn lemma_spec_find_some(s: Seq<char>, p: Seq<char>, i: int, j: int)
    requires
        spec_find(s, p, i) == Option::Some(j),
    ensures
        i <= j,
        j + p.len() <= s.len(),
        p.len() > 0 ==> s.subrange(j, j + p.len() as int) == p,
    decreases s.len() - i,
{
    if !(i < 0 || i + p.len() > s.len()) && p.len() != 0 && s.subrange(i, i + p.len() as int)
        != p {
        lemma_spec_find_some(s, p, i + 1, j);
    }
}

/// Whether `needle` occurs in `hay` at position `i`.
pub fn match_at_exec(hay: &Vec<char>, needle: &Vec<char>, i: usize) -> (r: bool)
    requires
        i + needle@.len() <= hay@.len(),
    ensures
        r == match_at(hay@, needle@, i as int),
{
    let hn: usize = hay.len();
    let nn: usize = needle.len();
    let mut j: usize = 0;
    while j < nn
        invariant
            hn == hay@.len(),
            nn == needle@.len(),
            i + nn <= hn,
            j <= nn,
            forall|t: int| 0 <= t < j ==> hay@[i + t] == needle@[t],
        decreases nn - j,
    {
        if hay[i + j] != needle[j] {
            proof {
                let sub = hay@.subrange(i as int, i as int + needle@.len() as int);
                assert(sub[j as int] == hay@[i + j]);
            }
            return false;
        }
        j = j + 1;
    }
    proof {
        assert(hay@.subrange(i as int, i as int + needle@.len() as int) =~= needle@);
    }
    true
}

/// The first occurrence of `needle` in `hay`, if any.
pub fn find_seq(hay: &Vec<char>, needle: &Vec<char>) -> (r: Option<usize>)
    ensures
        match r {
            Option::Some(i) => spec_find(hay@, needle@, 0) == Option::Some(i as int),
            Option::None => spec_find(hay@, needle@, 0) is None,
        },
{
    let hn: usize = hay.len();
    let nn: usize = needle.len();
    if nn > hn {
        return Option::None;
    }
    let mut i: usize = 0;
    while i <= hn - nn
        invariant
            hn == hay@.len(),
            nn == needle@.len(),
            nn <= hn,
            i <= hn - nn + 1,
            spec_find(hay@, needle@, 0) == spec_find(hay@, needle@, i as int),
        decreases hn - i,
    {
        if nn == 0 {
            return Option::Some(i);
        }
        if match_at_exec(hay, needle, i) {
            return Option::Some(i);
        }
        i = i + 1;
    }
    Option::None
}

} // verus!
