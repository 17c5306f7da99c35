//! Character-level helpers over `str` and `String`.
use vstd::prelude::*;

verus! {

/// Relies on `String::push`: the character is appended at the end.
#[verifier::external_body]
pub(crate) fn push_char(s: &mut String, c: char)
    ensures
        final(s)@ == old(s)@.push(c),
{
    s.push(c)
}

/// The characters of `s`, in order.
pub fn chars_of(s: &str) -> (r: Vec<char>)
    ensures
        r@ == s@,
{
    let mut r: Vec<char> = Vec::new();
    for c in it: s.chars()
        invariant
            it.seq() == s@,
            r@ == it.seq().subrange(0, it.index() as int),
    {
        r.push(c);
    }
    r
}

/// The string made of the characters `v[from..to]`.
pub fn string_from(v: &Vec<char>, from: usize, to: usize) -> (r: String)
    requires
        from <= to <= v.len(),
    ensures
        r@ == v@.subrange(from as int, to as int),
{
    let mut r = String::new();
    let mut i: usize = from;
    while i < to
        invariant
            from <= i <= to <= v.len(),
            r@ == v@.subrange(from as int, i as int),
        decreases to - i,
    {
        push_char(&mut r, v[i]);
        i = i + 1;
    }
    r
}

/// Whether `v` begins with `p`.
pub fn starts_with(v: &Vec<char>, p: &Vec<char>) -> (r: bool)
    ensures
        r == p@.is_prefix_of(v@),
{
    if p.len() > v.len() {
        return false;
    }
    let mut i: usize = 0;
    while i < p.len()
        invariant
            p.len() <= v.len(),
            i <= p.len(),
            forall|k: int| 0 <= k < i ==> p@[k] == v@[k],
        decreases p.len() - i,
    {
        if p[i] != v[i] {
            assert(p@[i as int] != v@.subrange(0, p.len() as int)[i as int]);
            return false;
        }
        i = i + 1;
    }
    assert(p@ =~= v@.subrange(0, p.len() as int));
    true
}

/// The characters `v[from..]`.
pub fn chars_after(v: &Vec<char>, from: usize) -> (r: Vec<char>)
    requires
        from <= v.len(),
    ensures
        r@ == v@.subrange(from as int, v.len() as int),
{
    let mut r: Vec<char> = Vec::new();
    let mut i: usize = from;
    while i < v.len()
        invariant
            from <= i <= v.len(),
            r@ == v@.subrange(from as int, i as int),
        decreases v.len() - i,
    {
        r.push(v[i]);
        i = i + 1;
    }
    r
}

/// The position of the last occurrence of `c` in `s`, if any.
pub open spec fn last_index_of(s: Seq<char>, c: char) -> Option<int>
    decreases s.len(),
{
    if s.len() == 0 {
        None
    } else if s.last() == c {
        Some(s.len() - 1)
    } else {
        last_index_of(s.drop_last(), c)
    }
}

/// The position of the last occurrence of `c` in `v`, if any.
pub fn rfind_char(v: &Vec<char>, c: char) -> (r: Option<usize>)
    ensures
        r matches Some(i) ==> i < v.len() && last_index_of(v@, c) == Some(i as int),
        r is None ==> last_index_of(v@, c) is None,
{
    let mut i: usize = v.len();
    assert(v@.subrange(0, i as int) =~= v@);
    while i > 0
        invariant
            i <= v.len(),
            last_index_of(v@, c) == last_index_of(v@.subrange(0, i as int), c),
        decreases i,
    {
        assert(v@.subrange(0, i as int).drop_last() =~= v@.subrange(0, i - 1));
        if v[i - 1] == c {
            return Some(i - 1);
        }
        i = i - 1;
    }
    None
}

/// Whether `p` occurs in `v` at position `i`.
pub fn occurs_at(v: &Vec<char>, p: &Vec<char>, i: usize) -> (r: bool)
    requires
        i <= v.len(),
    ensures
        r == p@.is_prefix_of(v@.subrange(i as int, v.len() as int)),
{
    if p.len() > v.len() - i {
        return false;
    }
    let mut k: usize = 0;
    while k < p.len()
        invariant
            i + p.len() <= v.len(),
            k <= p.len(),
            forall|j: int| 0 <= j < k ==> p@[j] == v@[i + j],
        decreases p.len() - k,
    {
        if p[k] != v[i + k] {
            assert(p@[k as int] != v@.subrange(i as int, v.len() as int).subrange(
                0,
                p.len() as int,
            )[k as int]);
            return false;
        }
        k = k + 1;
    }
    assert(p@ =~= v@.subrange(i as int, v.len() as int).subrange(0, p.len() as int));
    true
}

/// The position of the first occurrence of `n` in `s` at or after `i`, if any.
pub open spec fn first_from(s: Seq<char>, n: Seq<char>, i: int) -> Option<int>
    decreases s.len() - i,
{
    if i < 0 || i + n.len() > s.len() {
        None
    } else if n.is_prefix_of(s.subrange(i, s.len() as int)) {
        Some(i)
    } else {
        first_from(s, n, i + 1)
    }
}

/// The position of the first occurrence of `n` in `v`, if any.
pub fn find_chars(v: &Vec<char>, n: &Vec<char>) -> (r: Option<usize>)
    ensures
        r matches Some(i) ==> i + n.len() <= v.len() && first_from(v@, n@, 0) == Some(i as int),
        r is None ==> first_from(v@, n@, 0) is None,
{
    if n.len() > v.len() {
        return None;
    }
    let last = v.len() - n.len();
    let mut i: usize = 0;
    while i <= last
        invariant
            last + n.len() == v.len(),
            i <= last + 1,
            first_from(v@, n@, 0) == first_from(v@, n@, i as int),
        decreases last + 1 - i,
    {
        if occurs_at(v, n, i) {
            return Some(i);
        }
        i = i + 1;
    }
    None
}

/// The characters of `v` without `v[from..to]`.
pub fn cut_chars(v: &Vec<char>, from: usize, to: usize) -> (r: Vec<char>)
    requires
        from <= to <= v.len(),
    ensures
        r@ == v@.subrange(0, from as int) + v@.subrange(to as int, v.len() as int),
{
    let mut r: Vec<char> = Vec::new();
    let mut i: usize = 0;
    while i < from
        invariant
            i <= from <= to <= v.len(),
            r@ == v@.subrange(0, i as int),
        decreases from - i,
    {
        r.push(v[i]);
        i = i + 1;
    }
    let mut j: usize = to;
    while j < v.len()
        invariant
            from <= to <= j <= v.len(),
            r@ == v@.subrange(0, from as int) + v@.subrange(to as int, j as int),
        decreases v.len() - j,
    {
        r.push(v[j]);
        assert(v@.subrange(to as int, j + 1) =~= v@.subrange(to as int, j as int).push(v@[j as int]));
        j = j + 1;
    }
    r
}

} // verus!
