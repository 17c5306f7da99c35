//! Target platforms and the resolution of the requested platform list.
use vstd::prelude::*;

verus! {

/// An operating system that a bundle can target.
#[derive(Clone, Copy, Debug, PartialEq, Eq, Structural)]
pub enum Platform {
    Linux,
    Windows,
    MacOs,
}

/// The tag of a platform, as it appears in bundle directory names.
pub open spec fn platform_tag(p: Platform) -> Seq<char> {
    match p {
        Platform::Linux => "linux"@,
        Platform::Windows => "windows"@,
        Platform::MacOs => "macos"@,
    }
}

/// The platform named by an operating-system identifier: `"linux"` and
/// `"windows"` name themselves, anything else stands for macOS.
pub open spec fn platform_of(os: Seq<char>) -> Platform {
    if os == "linux"@ {
        Platform::Linux
    } else if os == "windows"@ {
        Platform::Windows
    } else {
        Platform::MacOs
    }
}

impl Platform {
    /// The tag of this platform (`linux`, `windows` or `macos`).
    pub fn tag(&self) -> (r: &'static str)
        ensures
            r@ == platform_tag(*self),
    {
        match self {
            Platform::Linux => "linux",
            Platform::Windows => "windows",
            Platform::MacOs => "macos",
        }
    }
}

impl<'a> From<&'a str> for Platform {
    fn from(os: &'a str) -> (r: Platform) {
        let s = os.to_owned();
        if s == "linux".to_owned() {
            Platform::Linux
        } else if s == "windows".to_owned() {
            Platform::Windows
        } else {
            Platform::MacOs
        }
    }
}

impl<'a> vstd::std_specs::convert::FromSpecImpl<&'a str> for Platform {
    open spec fn obeys_from_spec() -> bool {
        true
    }

    open spec fn from_spec(os: &'a str) -> Platform {
        platform_of(os@)
    }
}

/// The elements of `s` without repetitions, each kept where it is first seen.
pub open spec fn distinct_in_order<A>(s: Seq<A>) -> Seq<A>
    decreases s.len(),
{
    if s.len() == 0 {
        s
    } else {
        let d = distinct_in_order(s.drop_last());
        if d.contains(s.last()) {
            d
        } else {
            d.push(s.last())
        }
    }
}

/// The position where `x` first occurs in `s` (meaningful when `s` holds `x`).
pub open spec fn first_seen<A>(s: Seq<A>, x: A) -> int
    decreases s.len(),
{
    if s.len() == 0 {
        0
    } else if s.drop_last().contains(x) {
        first_seen(s.drop_last(), x)
    } else {
        s.len() - 1
    }
}

/// The platforms to bundle for: the host alone when none was requested, else
/// the requested ones without repetitions, in the order they were first named.
pub open spec fn resolved_platforms(requested: Seq<Platform>, host: Platform) -> Seq<Platform> {
    if requested.len() == 0 {
        seq![host]
    } else {
        distinct_in_order(requested)
    }
}

fn holds(v: &Vec<Platform>, p: Platform) -> (r: bool)
    ensures
        r == v@.contains(p),
{
    let mut i: usize = 0;
    while i < v.len()
        invariant
            i <= v.len(),
            forall|k: int| 0 <= k < i ==> v@[k] != p,
        decreases v.len() - i,
    {
        if v[i] == p {
            return true;
        }
        i = i + 1;
    }
    false
}

/// Resolves the requested target platforms against the host platform.
pub fn resolve_platforms(requested: &Vec<Platform>, host: Platform) -> (r: Vec<Platform>)
    ensures
        r@ == resolved_platforms(requested@, host),
{
    let mut r: Vec<Platform> = Vec::new();
    if requested.len() == 0 {
        r.push(host);
        return r;
    }
    let mut i: usize = 0;
    while i < requested.len()
        invariant
            i <= requested.len(),
            r@ == distinct_in_order(requested@.subrange(0, i as int)),
        decreases requested.len() - i,
    {
        let p = requested[i];
        assert(requested@.subrange(0, i + 1).drop_last() =~= requested@.subrange(0, i as int));
        if !holds(&r, p) {
            r.push(p);
        }
        i = i + 1;
    }
    assert(requested@.subrange(0, requested.len() as int) =~= requested@);
    r
}

/// `first_seen` finds the first occurrence of every element that `s` holds.
pub proof fn lemma_first_seen<A>(s: Seq<A>, x: A)
    requires
        s.contains(x),
    ensures
        0 <= first_seen(s, x) < s.len(),
        s[first_seen(s, x)] == x,
        forall|k: int| 0 <= k < first_seen(s, x) ==> s[k] != x,
    decreases s.len(),
{
    if s.drop_last().contains(x) {
        lemma_first_seen(s.drop_last(), x);
        assert forall|k: int| 0 <= k < first_seen(s, x) implies s[k] != x by {
            assert(s.drop_last()[k] == s[k]);
        }
    } else {
        let j = choose|j: int| 0 <= j < s.len() && s[j] == x;
        if j < s.len() - 1 {
            assert(s.drop_last()[j] == x);
        }
        assert forall|k: int| 0 <= k < s.len() - 1 implies s[k] != x by {
            if s[k] == x {
                assert(s.drop_last()[k] == x);
            }
        }
    }
}

/// Resolving the platforms drops every repetition, keeps every platform that
/// was asked for and nothing else, and keeps them in the order in which each
/// was first named; with nothing asked for, the host platform alone remains.
pub proof fn lemma_resolved_platforms(requested: Seq<Platform>, host: Platform)
    ensures
        resolved_platforms(requested, host).no_duplicates(),
        requested.len() == 0 ==> resolved_platforms(requested, host) == seq![host],
        requested.len() > 0 ==> forall|p: Platform|
            resolved_platforms(requested, host).contains(p) <==> requested.contains(p),
        requested.len() > 0 ==> forall|i: int, j: int|
            0 <= i < j < resolved_platforms(requested, host).len() ==> first_seen(
                requested,
                resolved_platforms(requested, host)[i],
            ) < first_seen(requested, resolved_platforms(requested, host)[j]),
{
    if requested.len() > 0 {
        lemma_distinct_in_order(requested);
    }
}

/// The facts behind `lemma_resolved_platforms`, for any sequence.
pub proof fn lemma_distinct_in_order<A>(s: Seq<A>)
    ensures
        distinct_in_order(s).no_duplicates(),
        forall|x: A| distinct_in_order(s).contains(x) <==> s.contains(x),
        forall|i: int, j: int|
            0 <= i < j < distinct_in_order(s).len() ==> first_seen(s, distinct_in_order(s)[i])
                < first_seen(s, distinct_in_order(s)[j]),
    decreases s.len(),
{
    if s.len() > 0 {
        let t = s.drop_last();
        let y = s.last();
        lemma_distinct_in_order(t);
        let d = distinct_in_order(t);
        assert forall|x: A| t.contains(x) implies s.contains(x) by {
            let k = choose|k: int| 0 <= k < t.len() && t[k] == x;
            assert(s[k] == x);
        }
        assert forall|x: A| s.contains(x) implies t.contains(x) || x == y by {
            let k = choose|k: int| 0 <= k < s.len() && s[k] == x;
            if k < s.len() - 1 {
                assert(t[k] == x);
            }
        }
        assert forall|x: A| t.contains(x) implies first_seen(s, x) == first_seen(t, x) by {}
        if d.contains(y) {
            assert forall|x: A| distinct_in_order(s).contains(x) <==> s.contains(x) by {
                if x == y {
                    assert(s[s.len() - 1] == y);
                }
            }
        } else {
            let e = d.push(y);
            assert(e[e.len() - 1] == y);
            assert forall|x: A| e.contains(x) <==> s.contains(x) by {
                if e.contains(x) && x != y {
                    let k = choose|k: int| 0 <= k < e.len() && e[k] == x;
                    assert(d[k] == x);
                }
                if s.contains(x) && x != y {
                    assert(d.contains(x));
                    let k = choose|k: int| 0 <= k < d.len() && d[k] == x;
                    assert(e[k] == x);
                }
                if x == y {
                    assert(s[s.len() - 1] == y);
                }
            }
            assert forall|i: int, j: int| 0 <= i < j < e.len() implies e[i] != e[j] by {
                if j == e.len() - 1 {
                    assert(d[i] == e[i]);
                }
            }
            assert forall|i: int, j: int|
                0 <= i < j < e.len() implies first_seen(s, e[i]) < first_seen(s, e[j]) by {
                if j == e.len() - 1 {
                    assert(d[i] == e[i]);
                    assert(d.contains(e[i]));
                    lemma_first_seen(t, e[i]);
                    assert(!t.contains(y));
                } else {
                    assert(d[i] == e[i] && d[j] == e[j]);
                    assert(d.contains(e[i]) && d.contains(e[j]));
                }
            }
        }
    }
}

} // verus!
