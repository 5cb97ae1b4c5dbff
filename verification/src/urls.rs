//! Trusted boundary to the `url` crate: parsing a base URL, reading its
//! explicit port, and joining a relative path against it.
//!
//! What a parse or a join returns is a function of the input strings alone,
//! but stating it exactly would mean writing out the WHATWG URL algorithm, so
//! the results are only named here; callers state their contracts over the
//! names, and the names are pinned down by nothing but these wrappers.

use vstd::prelude::*;

verus! {

/// The canonical serialization of the absolute URL that `s` parses to, or
/// `None` where `s` is not an absolute URL.
pub uninterp spec fn url_norm(s: Seq<char>) -> Option<Seq<char>>;

/// The explicit port of the absolute URL that `s` parses to; `None` where
/// `s` does not parse, carries no port, or carries its scheme's default port.
pub uninterp spec fn url_port(s: Seq<char>) -> Option<u16>;

/// The canonical serialization of `rel` joined against the absolute URL that
/// `base` parses to, or `None` where `base` does not parse or the join is
/// rejected.
pub uninterp spec fn url_join(base: Seq<char>, rel: Seq<char>) -> Option<Seq<char>>;

/// Relies on `url::Url::parse`: an input either parses to a URL value, whose
/// canonical serialization `String::from` returns, or is rejected; the
/// outcome depends on the input string alone.
#[verifier::external_body]
pub(crate) fn parse_url(s: &str) -> (r: Option<String>)
    ensures
        r is Some <==> url_norm(s@) is Some,
        r is Some ==> r->Some_0@ == url_norm(s@)->Some_0,
{
    match url::Url::parse(s) {
        Ok(u) => Some(String::from(u)),
        Err(_) => None,
    }
}

/// Relies on `url::Url::port`: the port a parsed URL carries explicitly,
/// already elided by the parser where it is the scheme's default.
#[verifier::external_body]
pub(crate) fn parsed_url_port(s: &str) -> (r: Option<u16>)
    ensures
        r == url_port(s@),
{
    match url::Url::parse(s) {
        Ok(u) => u.port(),
        Err(_) => None,
    }
}

/// Relies on `url::Url::join` (with `url::Url::parse` converting the base
/// string): the joined URL's canonical serialization, or `None` where either
/// step is rejected.
#[verifier::external_body]
pub(crate) fn join_url(base: &str, rel: &str) -> (r: Option<String>)
    ensures
        r is Some <==> url_join(base@, rel@) is Some,
        r is Some ==> r->Some_0@ == url_join(base@, rel@)->Some_0,
{
    let b = match url::Url::parse(base) {
        Ok(b) => b,
        Err(_) => return None,
    };
    match b.join(rel) {
        Ok(u) => Some(String::from(u)),
        Err(_) => None,
    }
}

} // verus!
