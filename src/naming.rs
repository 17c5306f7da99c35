//! Parsing of the target address and derivation of the application name.
use crate::error::NatyError;
use crate::text::{
    chars_after, chars_of, cut_chars, find_chars, first_from, last_index_of, rfind_char, starts_with,
    string_from,
};
use vstd::prelude::*;

verus! {

/// The error of `url::Url::parse`, carried through opaquely.
#[verifier::external_type_specification]
#[verifier::external_body]
pub struct ExUrlParseError(url::ParseError);

/// Whether the URL parser accepts the text as an absolute URL.
pub uninterp spec fn url_accepts(s: Seq<char>) -> bool;

/// The domain of the URL that the parser reads from the text; `None` when its
/// host is an IP address or when it has no host.
pub uninterp spec fn url_domain(s: Seq<char>) -> Option<Seq<char>>;

/// What the packaging pipeline reads of a parsed target address.
#[derive(Debug)]
pub struct ParsedUrl {
    /// The domain name of the host, if the host is one.
    pub domain: Option<String>,
}

/// The view of an optional string.
pub open spec fn opt_chars(o: Option<String>) -> Option<Seq<char>> {
    match o {
        Some(s) => Some(s@),
        None => None,
    }
}

/// Relies on `url::Url::parse` to accept or refuse the text, and on
/// `url::Url::domain` for the domain of what it accepted.
#[verifier::external_body]
fn parse_with_url_crate(s: &str) -> (r: Result<ParsedUrl, url::ParseError>)
    ensures
        r is Ok <==> url_accepts(s@),
        r matches Ok(u) ==> opt_chars(u.domain) == url_domain(s@),
{
    match url::Url::parse(s) {
        Ok(u) => Ok(ParsedUrl { domain: u.domain().map(str::to_string) }),
        Err(e) => Err(e),
    }
}

impl ParsedUrl {
    /// Parses the target address; a text that is not a URL is a configuration error.
    pub fn parse(s: &str) -> (r: Result<ParsedUrl, NatyError>)
        ensures
            r is Ok <==> url_accepts(s@),
            r matches Ok(u) ==> opt_chars(u.domain) == url_domain(s@),
            r matches Err(e) ==> e == NatyError::InvalidUrl,
    {
        match parse_with_url_crate(s) {
            Ok(u) => Ok(u),
            Err(_) => Err(NatyError::InvalidUrl),
        }
    }
}

/// `s` without the leading `p`, if it begins with `p`.
pub open spec fn strip_prefix(s: Seq<char>, p: Seq<char>) -> Seq<char> {
    if p.is_prefix_of(s) {
        s.subrange(p.len() as int, s.len() as int)
    } else {
        s
    }
}

/// `s` without the first occurrence of `n`, if `n` occurs in it.
pub open spec fn cut_first(s: Seq<char>, n: Seq<char>) -> Seq<char> {
    match first_from(s, n, 0) {
        Some(i) => s.subrange(0, i) + s.subrange(i + n.len(), s.len() as int),
        None => s,
    }
}

/// `s` after cutting the first occurrence of each of `needles`, in turn.
pub open spec fn without_needles(s: Seq<char>, needles: Seq<Seq<char>>) -> Seq<char>
    decreases needles.len(),
{
    if needles.len() == 0 {
        s
    } else {
        cut_first(without_needles(s, needles.drop_last()), needles.last())
    }
}

/// The views of a sequence of string slices.
pub open spec fn views_of(v: Seq<&str>) -> Seq<Seq<char>> {
    v.map_values(|n: &str| n@)
}

/// Cuts from the text the first occurrence of each needle, in order, each
/// one searched in what the needles before it left.
pub fn maybe_remove(text: &str, needles: &[&str]) -> (r: String)
    ensures
        r@ == without_needles(text@, views_of(needles@)),
{
    let mut v = chars_of(text);
    let mut i: usize = 0;
    while i < needles.len()
        invariant
            i <= needles@.len(),
            v@ == without_needles(text@, views_of(needles@.subrange(0, i as int))),
        decreases needles.len() - i,
    {
        let n = chars_of(needles[i]);
        assert(views_of(needles@.subrange(0, i + 1)).drop_last() =~= views_of(
            needles@.subrange(0, i as int),
        ));
        match find_chars(&v, &n) {
            Some(k) => {
                v = cut_chars(&v, k, k + n.len());
            },
            None => {},
        }
        i = i + 1;
    }
    assert(needles@.subrange(0, needles@.len() as int) =~= needles@);
    string_from(&v, 0, v.len())
}

/// The name used when none can be derived from the target address.
pub open spec fn fallback_name() -> Seq<char> {
    "App Name"@
}

/// The name used when none can be derived from the target address.
pub fn fallback_app_name() -> (r: &'static str)
    ensures
        r@ == fallback_name(),
{
    "App Name"
}

/// The default application title.
pub fn def_name() -> (r: &'static str)
    ensures
        r@ == "Application Title"@,
{
    "Application Title"
}

/// The name derived from a domain: without a leading `www.`, cut at its last
/// dot (which drops the top-level domain); the default name where there is
/// no domain or no dot is left.
pub open spec fn name_of_domain(domain: Option<Seq<char>>) -> Seq<char> {
    match domain {
        Some(d) => {
            let e = strip_prefix(d, "www."@);
            match last_index_of(e, '.') {
                Some(i) => e.subrange(0, i),
                None => fallback_name(),
            }
        },
        None => fallback_name(),
    }
}

/// The display name of the app: the given one, else the one derived from the domain.
pub open spec fn webpage_name(name: Option<Seq<char>>, domain: Option<Seq<char>>) -> Seq<char> {
    match name {
        Some(n) => n,
        None => name_of_domain(domain),
    }
}

/// The display name of the app: `name` when given, else derived from the
/// domain of the target address.
pub fn get_webpage_name(name: Option<&str>, url: &ParsedUrl) -> (r: String)
    ensures
        r@ == webpage_name(
            match name {
                Some(n) => Some(n@),
                None => None,
            },
            opt_chars(url.domain),
        ),
{
    if let Some(n) = name {
        return n.to_owned();
    }
    match &url.domain {
        Some(d) => {
            let www = chars_of("www.");
            let mut v = chars_of(d.as_str());
            if starts_with(&v, &www) {
                v = chars_after(&v, www.len());
            }
            match rfind_char(&v, '.') {
                Some(i) => string_from(&v, 0, i),
                None => fallback_app_name().to_owned(),
            }
        },
        None => fallback_app_name().to_owned(),
    }
}

} // verus!
