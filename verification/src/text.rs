//! Character-level text operations: searching, splitting and conversion
//! between strings and character vectors.

use vstd::prelude::*;

verus! {

/// `String::push` appends one character to the end of the string.
pub assume_specification[ String::push ](s: &mut String, ch: char)
    ensures
        final(s)@ == old(s)@.push(ch),
;

/// `p` stands at the start of `s`.
pub open spec fn has_prefix(s: Seq<char>, p: Seq<char>) -> bool {
    p.len() <= s.len() && s.take(p.len() as int) == p
}

/// `p` stands at the end of `s`.
pub open spec fn has_suffix(s: Seq<char>, p: Seq<char>) -> bool {
    p.len() <= s.len() && s.skip(s.len() - p.len()) == p
}

/// `p` stands in `s` at position `i`.
pub open spec fn occurs_at(s: Seq<char>, p: Seq<char>, i: int) -> bool {
    0 <= i && i + p.len() <= s.len() && s.subrange(i, i + p.len()) == p
}

/// `p` stands somewhere in `s`.
pub open spec fn contains_text(s: Seq<char>, p: Seq<char>) -> bool {
    exists|i: int| occurs_at(s, p, i)
}

/// The position of the first occurrence of `p` in `s`, or `s.len()` when
/// there is none.
pub open spec fn find(s: Seq<char>, p: Seq<char>) -> int
    decreases s.len(),
{
    if s.len() == 0 || has_prefix(s, p) {
        0
    } else {
        1 + find(s.skip(1), p)
    }
}

/// The position of the first separator in `s`, or `s.len()` when there is
/// none. A separator is a character equal to `a` or to `b`.
pub open spec fn first_separator(s: Seq<char>, a: char, b: char) -> int
    decreases s.len(),
{
    if s.len() == 0 || s[0] == a || s[0] == b {
        0
    } else {
        1 + first_separator(s.skip(1), a, b)
    }
}

/// The pieces of `s` between separators, in order. Every separator ends one
/// piece and starts the next, so `n` separators give `n + 1` pieces, some of
/// which may be empty.
pub open spec fn split(s: Seq<char>, a: char, b: char) -> Seq<Seq<char>>
    decreases s.len(),
{
    let i = first_separator(s, a, b);
    if 0 <= i < s.len() {
        seq![s.take(i)] + split(s.skip(i + 1), a, b)
    } else {
        seq![s]
    }
}

/// What follows the last separator `p` in `s`, where separators are found
/// from the left and do not overlap; `s` itself when `p` is empty or absent.
pub open spec fn after_last(s: Seq<char>, p: Seq<char>) -> Seq<char>
    decreases s.len(),
{
    let i = find(s, p);
    if p.len() > 0 && 0 <= i && i + p.len() <= s.len() {
        after_last(s.skip(i + p.len()), p)
    } else {
        s
    }
}

/// The views of a sequence of strings.
pub open spec fn texts(v: Seq<String>) -> Seq<Seq<char>> {
    Seq::new(v.len(), |i: int| v[i]@)
}

/// The views of a sequence of character vectors.
pub open spec fn pieces(v: Seq<Vec<char>>) -> Seq<Seq<char>> {
    Seq::new(v.len(), |i: int| v[i]@)
}

/// An occurrence in `s.skip(k)` at `j` is an occurrence in `s` at `k + j`.
pub proof fn lemma_occurs_shift(s: Seq<char>, p: Seq<char>, k: int, j: int)
    requires
        0 <= k <= s.len(),
        0 <= j,
    ensures
        occurs_at(s.skip(k), p, j) <==> occurs_at(s, p, k + j),
        has_prefix(s.skip(k), p) <==> occurs_at(s, p, k),
{
    let t = s.skip(k);
    if k + j + p.len() <= s.len() {
        assert(t.subrange(j, j + p.len()) == s.subrange(k + j, k + j + p.len()));
    }
    if k + p.len() <= s.len() {
        assert(t.take(p.len() as int) == s.subrange(k, k + p.len()));
    }
}

/// `find` returns `k` when `p` occurs at no position before `k` and either
/// occurs at `k` or `k` is the end of `s`.
pub proof fn lemma_find_is(s: Seq<char>, p: Seq<char>, k: int)
    requires
        0 <= k <= s.len(),
        forall|j: int| 0 <= j < k ==> !occurs_at(s, p, j),
        k == s.len() || occurs_at(s, p, k),
    ensures
        find(s, p) == k,
    decreases k,
{
    lemma_occurs_shift(s, p, 0, 0);
    assert(s.skip(0) == s);
    if s.len() == 0 {
    } else if k == 0 {
    } else {
        assert(!occurs_at(s, p, 0));
        let t = s.skip(1);
        assert forall|j: int| 0 <= j < k - 1 implies !occurs_at(t, p, j) by {
            lemma_occurs_shift(s, p, 1, j);
        }
        lemma_occurs_shift(s, p, 1, k - 1);
        lemma_find_is(t, p, k - 1);
    }
}

/// `find` stays within `s`, names an occurrence when it ends inside `s`, and
/// no occurrence comes before it.
pub proof fn lemma_find(s: Seq<char>, p: Seq<char>)
    ensures
        0 <= find(s, p) <= s.len(),
        find(s, p) < s.len() ==> occurs_at(s, p, find(s, p)),
        forall|j: int| 0 <= j < find(s, p) ==> !occurs_at(s, p, j),
        p.len() > 0 ==> (contains_text(s, p) <==> find(s, p) + p.len() <= s.len()),
    decreases s.len(),
{
    lemma_occurs_shift(s, p, 0, 0);
    assert(s.skip(0) == s);
    if s.len() == 0 {
    } else if has_prefix(s, p) {
    } else {
        let t = s.skip(1);
        lemma_find(t, p);
        let k = find(t, p);
        assert forall|j: int| 0 <= j < k + 1 implies !occurs_at(s, p, j) by {
            if j > 0 {
                lemma_occurs_shift(s, p, 1, j - 1);
            }
        }
        lemma_occurs_shift(s, p, 1, k);
        if p.len() > 0 && contains_text(s, p) {
            let i = choose|i: int| occurs_at(s, p, i);
            assert(i >= k + 1);
        }
    }
}

/// `first_separator` returns `k` when no separator stands before `k` and
/// either one stands at `k` or `k` is the end of `s`.
pub proof fn lemma_first_separator_is(s: Seq<char>, a: char, b: char, k: int)
    requires
        0 <= k <= s.len(),
        forall|j: int| 0 <= j < k ==> s[j] != a && s[j] != b,
        k == s.len() || s[k] == a || s[k] == b,
    ensures
        first_separator(s, a, b) == k,
    decreases k,
{
    if k > 0 {
        let t = s.skip(1);
        assert(s[0] != a && s[0] != b);
        assert forall|j: int| 0 <= j < k - 1 implies t[j] != a && t[j] != b by {
            assert(t[j] == s[j + 1]);
        }
        lemma_first_separator_is(t, a, b, k - 1);
    }
}

/// A split always gives at least one piece.
pub proof fn lemma_split_nonempty(s: Seq<char>, a: char, b: char)
    ensures
        split(s, a, b).len() >= 1,
{
}

/// Copies the characters of `s` into a vector, in order.
pub fn chars_of(s: &str) -> (v: Vec<char>)
    ensures
        v@ == s@,
{
    let mut v: Vec<char> = Vec::new();
    for c in it: s.chars()
        invariant
            it.seq() == s@,
            v@ == it.seq().take(it.index()),
    {
        v.push(c);
    }
    v
}

/// Builds the string that holds the characters of `chars`, in order.
pub fn string_of(chars: &Vec<char>) -> (s: String)
    ensures
        s@ == chars@,
{
    let mut s = String::new();
    let mut i: usize = 0;
    while i < chars.len()
        invariant
            i <= chars.len(),
            s@ == chars@.take(i as int),
        decreases chars.len() - i,
    {
        s.push(chars[i]);
        i += 1;
    }
    s
}

/// Tells whether `p` stands in `v` at position `i`.
pub fn matches_at(v: &Vec<char>, p: &Vec<char>, i: usize) -> (b: bool)
    ensures
        b == occurs_at(v@, p@, i as int),
{
    if i > v.len() || p.len() > v.len() - i {
        return false;
    }
    let mut k: usize = 0;
    while k < p.len()
        invariant
            k <= p.len(),
            i + p.len() <= v.len(),
            forall|j: int| 0 <= j < k ==> v@[i + j] == p@[j],
        decreases p.len() - k,
    {
        if v[i + k] != p[k] {
            proof {
                assert(v@.subrange(i as int, i + p.len())[k as int] == v@[i + k]);
            }
            return false;
        }
        k += 1;
    }
    proof {
        assert(v@.subrange(i as int, i + p.len()) =~= p@);
    }
    true
}

/// Tells whether `v` starts with `p`.
pub fn starts_with(v: &Vec<char>, p: &Vec<char>) -> (b: bool)
    ensures
        b == has_prefix(v@, p@),
{
    let b = matches_at(v, p, 0);
    proof {
        lemma_occurs_shift(v@, p@, 0, 0);
        assert(v@.skip(0) == v@);
    }
    b
}

/// Tells whether `v` ends with `p`.
pub fn ends_with(v: &Vec<char>, p: &Vec<char>) -> (b: bool)
    ensures
        b == has_suffix(v@, p@),
{
    if p.len() > v.len() {
        return false;
    }
    let b = matches_at(v, p, v.len() - p.len());
    proof {
        assert(v@.subrange(v.len() - p.len(), v.len() as int) == v@.skip(v.len() - p.len()));
    }
    b
}

/// Finds the first position at or after `from` where `p` stands in `v`;
/// returns `v.len()` when there is none.
pub fn find_from(v: &Vec<char>, p: &Vec<char>, from: usize) -> (i: usize)
    requires
        from <= v.len(),
    ensures
        from <= i <= v.len(),
        i == from + find(v@.skip(from as int), p@),
{
    let mut i: usize = from;
    while i < v.len()
        invariant
            from <= i <= v.len(),
            forall|j: int| from <= j < i ==> !occurs_at(v@, p@, j),
        ensures
            i == v.len() || occurs_at(v@, p@, i as int),
        decreases v.len() - i,
    {
        if matches_at(v, p, i) {
            break;
        }
        i += 1;
    }
    proof {
        let t = v@.skip(from as int);
        assert forall|j: int| 0 <= j < i - from implies !occurs_at(t, p@, j) by {
            lemma_occurs_shift(v@, p@, from as int, j);
        }
        lemma_occurs_shift(v@, p@, from as int, i - from);
        lemma_find_is(t, p@, i - from);
    }
    i
}

/// Tells whether `p` stands somewhere in `v`.
pub fn contains(v: &Vec<char>, p: &Vec<char>) -> (b: bool)
    ensures
        b == contains_text(v@, p@),
{
    if p.len() == 0 {
        proof {
            assert(v@.subrange(0, 0) =~= p@);
            assert(occurs_at(v@, p@, 0));
        }
        return true;
    }
    let i = find_from(v, p, 0);
    proof {
        assert(v@.skip(0) =~= v@);
        lemma_find(v@, p@);
    }
    i < v.len() && p.len() <= v.len() - i
}

/// Copies the characters of `v` from position `lo` up to `hi`.
pub fn copy_range(v: &Vec<char>, lo: usize, hi: usize) -> (r: Vec<char>)
    requires
        lo <= hi <= v.len(),
    ensures
        r@ == v@.subrange(lo as int, hi as int),
{
    let mut r: Vec<char> = Vec::new();
    let mut i: usize = lo;
    while i < hi
        invariant
            lo <= i <= hi <= v.len(),
            r@ == v@.subrange(lo as int, i as int),
        decreases hi - i,
    {
        r.push(v[i]);
        i += 1;
    }
    r
}

/// Splits `v` at every character equal to `a` or to `b`.
pub fn split_at(v: &Vec<char>, a: char, b: char) -> (out: Vec<Vec<char>>)
    ensures
        pieces(out@) == split(v@, a, b),
{
    let mut out: Vec<Vec<char>> = Vec::new();
    let mut start: usize = 0;
    let mut i: usize = 0;
    proof {
        assert(v@.skip(0) == v@);
        assert(pieces(out@) + split(v@, a, b) == split(v@, a, b));
    }
    while i < v.len()
        invariant
            start <= i <= v.len(),
            forall|j: int| start <= j < i ==> v@[j] != a && v@[j] != b,
            split(v@, a, b) == pieces(out@) + split(v@.skip(start as int), a, b),
        decreases v.len() - i,
    {
        let c = v[i];
        if c == a || c == b {
            let piece = copy_range(v, start, i);
            proof {
                let t = v@.skip(start as int);
                assert forall|j: int| 0 <= j < i - start implies t[j] != a && t[j] != b by {
                    assert(t[j] == v@[start + j]);
                }
                lemma_first_separator_is(t, a, b, i - start);
                assert(t.take(i - start) == piece@);
                assert(t.skip(i - start + 1) == v@.skip(i + 1));
                assert(pieces(out@.push(piece)) == pieces(out@) + seq![piece@]);
            }
            out.push(piece);
            start = i + 1;
        }
        i += 1;
    }
    let piece = copy_range(v, start, v.len());
    proof {
        let t = v@.skip(start as int);
        assert forall|j: int| 0 <= j < t.len() implies t[j] != a && t[j] != b by {
            assert(t[j] == v@[start + j]);
        }
        lemma_first_separator_is(t, a, b, t.len() as int);
        assert(t == piece@);
        assert(pieces(out@.push(piece)) == pieces(out@) + seq![piece@]);
    }
    out.push(piece);
    out
}

/// Returns what follows the last separator `p` in `v`.
pub fn last_piece(v: &Vec<char>, p: &Vec<char>) -> (r: Vec<char>)
    ensures
        r@ == after_last(v@, p@),
{
    if p.len() == 0 {
        proof {
            assert(v@.subrange(0, v.len() as int) == v@);
        }
        return copy_range(v, 0, v.len());
    }
    let mut start: usize = 0;
    proof {
        assert(v@.skip(0) == v@);
    }
    loop
        invariant
            start <= v.len(),
            p.len() > 0,
            after_last(v@, p@) == after_last(v@.skip(start as int), p@),
        decreases v.len() - start,
    {
        let i = find_from(v, p, start);
        if i < v.len() && p.len() <= v.len() - i {
            proof {
                assert(v@.skip(start as int).skip(i - start + p.len()) == v@.skip(i + p.len()));
            }
            start = i + p.len();
        } else {
            proof {
                assert(v@.subrange(start as int, v.len() as int) == v@.skip(start as int));
            }
            return copy_range(v, start, v.len());
        }
    }
}

} // verus!
