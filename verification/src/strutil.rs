use vstd::prelude::*;
use vstd::string::*;

verus! {

/// Concatenation of two string slices.
pub fn concat2(a: &str, b: &str) -> (r: String)
    ensures
        r@ == a@ + b@,
{
    let mut s = a.to_owned();
    s.append(b);
    s
}

/// Concatenation of three string slices.
pub fn concat3(a: &str, b: &str, c: &str) -> (r: String)
    ensures
        r@ == a@ + b@ + c@,
{
    let mut s = a.to_owned();
    s.append(b);
    s.append(c);
    s
}

/// Concatenation of five string slices.
pub fn concat5(a: &str, b: &str, c: &str, d: &str, e: &str) -> (r: String)
    ensures
        r@ == a@ + b@ + c@ + d@ + e@,
{
    let mut s = a.to_owned();
    s.append(b);
    s.append(c);
    s.append(d);
    s.append(e);
    s
}

/// String slice equality, decided on the character sequences.
pub fn str_eq(a: &str, b: &str) -> (r: bool)
    ensures
        r == (a@ == b@),
{
    let sa = a.to_owned();
    let sb = b.to_owned();
    sa.eq(&sb)
}

/// `p` is a prefix of `s`.
pub open spec fn spec_has_prefix(s: Seq<char>, p: Seq<char>) -> bool {
    p.len() <= s.len() && s.subrange(0, p.len() as int) == p
}

/// Whether the characters of `p` open the string `s`.
pub fn has_prefix(s: &str, p: &str) -> (r: bool)
    ensures
        r == spec_has_prefix(s@, p@),
{
    let sl = s.unicode_len();
    let pl = p.unicode_len();
    if pl > sl {
        return false;
    }
    let mut i: usize = 0;
    while i < pl
        invariant
            i <= pl,
            pl == p@.len(),
            pl <= sl == s@.len(),
            forall|k: int| 0 <= k < i ==> s@[k] == p@[k],
        decreases pl - i,
    {
        if s.get_char(i) != p.get_char(i) {
            assert(s@.subrange(0, p@.len() as int) != p@) by {
                assert(s@.subrange(0, p@.len() as int)[i as int] == s@[i as int]);
            }
            return false;
        }
        i = i + 1;
    }
    assert(s@.subrange(0, p@.len() as int) =~= p@);
    true
}

/// The index of the last `/` in `s`, or `-1` if there is none.
pub open spec fn last_slash_index(s: Seq<char>) -> int
    decreases s.len(),
{
    if s.len() == 0 {
        -1
    } else if s.last() == '/' {
        s.len() - 1
    } else {
        last_slash_index(s.drop_last())
    }
}

pub proof fn lemma_last_slash_index_bounds(s: Seq<char>)
    ensures
        -1 <= last_slash_index(s) < s.len(),
        last_slash_index(s) >= 0 ==> s[last_slash_index(s)] == '/',
        forall|k: int| last_slash_index(s) < k < s.len() ==> s[k] != '/',
    decreases s.len(),
{
    if s.len() > 0 && s.last() != '/' {
        lemma_last_slash_index_bounds(s.drop_last());
        assert(forall|k: int| 0 <= k < s.len() - 1 ==> s[k] == s.drop_last()[k]);
    }
}

/// The trailing segment of `s` after its last `/`; the whole of `s` when it
/// holds no `/`.
pub open spec fn spec_last_segment(s: Seq<char>) -> Seq<char> {
    s.subrange(last_slash_index(s) + 1, s.len() as int)
}

/// The part of `s` after its last `/` (all of `s` if there is none), as
/// `split('/').last()` would give it.
pub fn last_segment(s: &str) -> (r: String)
    ensures
        r@ == spec_last_segment(s@),
{
    proof {
        lemma_last_slash_index_bounds(s@);
        assert(s@.take(s@.len() as int) =~= s@);
    }
    let len = s.unicode_len();
    let mut i: usize = len;
    while i > 0
        invariant
            i <= len,
            len == s@.len(),
            last_slash_index(s@) == last_slash_index(s@.take(i as int)),
        decreases i,
    {
        let c = s.get_char(i - 1);
        proof {
            assert(s@.take(i as int).last() == s@[i as int - 1]);
            assert(s@.take(i as int).drop_last() =~= s@.take(i as int - 1));
        }
        if c == '/' {
            assert(last_slash_index(s@) == i - 1);
            let seg = s.substring_char(i, len);
            return seg.to_owned();
        }
        i = i - 1;
    }
    assert(s@.take(0) =~= Seq::<char>::empty());
    assert(last_slash_index(s@) == -1);
    let seg = s.substring_char(0, len);
    assert(seg@ =~= spec_last_segment(s@));
    seg.to_owned()
}

/// The first index at or after `from` where `s` holds a `;`, or `-1`.
pub open spec fn first_semi(s: Seq<char>, from: int) -> int
    decreases s.len() - from when 0 <= from <= s.len()
{
    if from >= s.len() {
        -1
    } else if s[from] == ';' {
        from
    } else {
        first_semi(s, from + 1)
    }
}

pub proof fn lemma_first_semi_bounds(s: Seq<char>, from: int)
    requires
        0 <= from <= s.len(),
    ensures
        first_semi(s, from) == -1 || from <= first_semi(s, from) < s.len(),
        first_semi(s, from) >= 0 ==> s[first_semi(s, from)] == ';',
        forall|k: int|
            from <= k < s.len() && (first_semi(s, from) == -1 || k < first_semi(s, from))
                ==> s[k] != ';',
    decreases s.len() - from,
{
    if from < s.len() && s[from] != ';' {
        lemma_first_semi_bounds(s, from + 1);
    }
}

/// `first_semi` finds exactly the least `;` at or after `from`.
pub proof fn lemma_first_semi_found(s: Seq<char>, from: int, j: int)
    requires
        0 <= from <= j < s.len(),
        s[j] == ';',
        forall|k: int| from <= k < j ==> s[k] != ';',
    ensures
        first_semi(s, from) == j,
    decreases j - from,
{
    if from < j {
        lemma_first_semi_found(s, from + 1, j);
    }
}

/// The first `;` at or after `from`, or `None`.
pub fn find_semi(s: &str, from: usize) -> (r: Option<usize>)
    requires
        from <= s@.len(),
    ensures
        match r {
            Some(j) => first_semi(s@, from as int) == j,
            None => first_semi(s@, from as int) == -1,
        },
{
    let len = s.unicode_len();
    let mut i: usize = from;
    while i < len
        invariant
            from <= i <= len,
            len == s@.len(),
            first_semi(s@, from as int) == first_semi(s@, i as int),
        decreases len - i,
    {
        if s.get_char(i) == ';' {
            return Some(i);
        }
        i = i + 1;
    }
    None
}

/// The characters of `s` between `from` and `to`, as an owned string.
pub fn substring_owned(s: &str, from: usize, to: usize) -> (r: String)
    requires
        from <= to <= s@.len(),
    ensures
        r@ == s@.subrange(from as int, to as int),
{
    s.substring_char(from, to).to_owned()
}

} // verus!
