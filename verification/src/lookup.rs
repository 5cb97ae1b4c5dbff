//! Resolving and vetting the remote server: normalizing the host the player
//! typed into a base URL candidate, and checking the descriptor the server
//! returns — its identity string and its version — before any session is
//! built. The HTTP call that fetches the descriptor is transport work and
//! surrounds this module.

use crate::text::{spec_starts_with, str_starts_with};
use crate::urls::{join_url, parse_url, parsed_url_port, url_join, url_norm, url_port};
use vstd::prelude::*;

verus! {

/// Endpoint returning the server's descriptor.
pub const DETAILS_ENDPOINT: &'static str = "api/server";

/// The identifier a proper server reports in its descriptor.
pub const SERVER_IDENT: &'static str = "POCKET_ARK_SERVER";

/// A server version: the release triple, and whether the version carries
/// prerelease identifiers. The ordering below is exact semantic-version
/// precedence whenever at most one of the two sides carries prerelease
/// identifiers; two prerelease versions with an equal triple are not ordered
/// here, and the minimum this client compares against is a plain release.
#[derive(Debug, Clone, Copy, PartialEq, Eq, Structural)]
pub struct Version {
    /// Major version.
    pub major: u64,
    /// Minor version.
    pub minor: u64,
    /// Patch version.
    pub patch: u64,
    /// Whether the version carries prerelease identifiers.
    pub has_pre: bool,
}

/// `a` precedes `b`: the triples compare lexicographically, and on an equal
/// triple a prerelease precedes the plain release.
pub open spec fn version_precedes(a: Version, b: Version) -> bool {
    ||| a.major < b.major
    ||| (a.major == b.major && a.minor < b.minor)
    ||| (a.major == b.major && a.minor == b.minor && a.patch < b.patch)
    ||| (a.major == b.major && a.minor == b.minor && a.patch == b.patch && a.has_pre && !b.has_pre)
}

impl Version {
    /// Decides `version_precedes`.
    pub fn precedes(&self, other: &Version) -> (r: bool)
        ensures
            r == version_precedes(*self, *other),
    {
        if self.major != other.major {
            self.major < other.major
        } else if self.minor != other.minor {
            self.minor < other.minor
        } else if self.patch != other.patch {
            self.patch < other.patch
        } else {
            self.has_pre && !other.has_pre
        }
    }
}

/// The minimum server version this client supports.
pub open spec fn spec_min_server_version() -> Version {
    Version { major: 0, minor: 1, patch: 0, has_pre: false }
}

/// The minimum server version this client supports.
pub fn min_server_version() -> (v: Version)
    ensures
        v == spec_min_server_version(),
{
    Version { major: 0, minor: 1, patch: 0, has_pre: false }
}

/// The host with a scheme already written out.
pub open spec fn spec_host_has_scheme(h: Seq<char>) -> bool {
    spec_starts_with(h, "http://"@) || spec_starts_with(h, "https://"@)
}

/// `u` with a trailing slash guaranteed, so that a later join keeps the
/// whole path.
pub open spec fn spec_with_trailing_slash(u: Seq<char>) -> Seq<char> {
    if u.len() > 0 && u[u.len() - 1] == '/' {
        u
    } else {
        u + "/"@
    }
}

/// The base URL candidate built from the host: the plain scheme is written
/// in front where none is present, and a trailing slash is guaranteed.
pub open spec fn spec_candidate_url(h: Seq<char>) -> Seq<char> {
    if spec_host_has_scheme(h) {
        spec_with_trailing_slash(h)
    } else {
        spec_with_trailing_slash("http://"@ + h)
    }
}

/// The candidate rewritten to the secure scheme, for a host that named the
/// secure port while its scheme was only inferred.
pub open spec fn spec_https_candidate(h: Seq<char>) -> Seq<char> {
    spec_with_trailing_slash("https://"@ + h)
}

/// What the host resolves to: the candidate's canonical serialization; where
/// the scheme was inferred and the candidate carries the secure port, the
/// secure candidate's serialization instead; `None` where parsing rejects
/// the string.
pub open spec fn spec_resolved_base(h: Seq<char>) -> Option<Seq<char>> {
    let c = spec_candidate_url(h);
    if url_norm(c) is None {
        None
    } else if !spec_host_has_scheme(h) && url_port(c) == Some(443u16) {
        url_norm(spec_https_candidate(h))
    } else {
        url_norm(c)
    }
}

/// The URL of the descriptor endpoint under a base URL, or `None` where the
/// join is rejected.
pub fn details_url(base: &str) -> (r: Option<String>)
    ensures
        r is Some <==> url_join(base@, DETAILS_ENDPOINT@) is Some,
        r matches Some(u) ==> u@ == url_join(base@, DETAILS_ENDPOINT@)->Some_0,
{
    join_url(base, DETAILS_ENDPOINT)
}

/// Why a lookup failed.
#[derive(Debug)]
pub enum LookupError {
    /// The connection URL could not be parsed.
    InvalidHostTarget,
    /// The server could not be reached.
    ConnectionFailed,
    /// The server answered the descriptor request with an error status.
    ErrorResponse,
    /// The descriptor could not be read or decoded.
    InvalidResponse,
    /// The descriptor's identifier is missing or wrong: not a proper server.
    NotPocketArk,
    /// The server's version precedes the minimum this client supports; the
    /// server's version first, the minimum second.
    ServerOutdated(Version, Version),
}

/// What a lookup returns: the resolved base URL, the server's version, and
/// the association token where the server issued one.
#[derive(Debug)]
pub struct LookupData {
    /// Resolved base URL.
    pub url: String,
    /// The server's version.
    pub version: Version,
    /// Association token, where the server issued one.
    pub association: Option<String>,
}

fn ends_with_slash(s: &str) -> (r: bool)
    ensures
        r == (s@.len() > 0 && s@[s@.len() - 1] == '/'),
{
    let n = s.unicode_len();
    n > 0 && s.get_char(n - 1) == '/'
}

/// Builds the base URL candidate from the host as typed, and reports whether
/// the scheme had to be inferred.
pub fn normalize_host(host: &str) -> (r: (String, bool))
    ensures
        r.0@ == spec_candidate_url(host@),
        r.1 == !spec_host_has_scheme(host@),
{
    let has_scheme = str_starts_with(host, "http://") || str_starts_with(host, "https://");
    let mut url = if has_scheme {
        String::from_str(host)
    } else {
        let mut u = String::from_str("http://");
        u.append(host);
        u
    };
    if !ends_with_slash(url.as_str()) {
        url.append("/");
    }
    (url, !has_scheme)
}

fn https_candidate(host: &str) -> (r: String)
    ensures
        r@ == spec_https_candidate(host@),
{
    let mut u = String::from_str("https://");
    u.append(host);
    if !ends_with_slash(u.as_str()) {
        u.append("/");
    }
    u
}

/// Resolves the host the player typed to the canonical base URL: writes the
/// plain scheme in front where none is given, guarantees the trailing slash,
/// parses, and — where the scheme was only inferred and the host named the
/// secure port — switches to the secure scheme. The only failure is a string
/// the URL parser rejects.
pub fn resolve_base_url(host: &str) -> (r: Result<String, LookupError>)
    ensures
        r is Ok <==> spec_resolved_base(host@) is Some,
        r matches Ok(u) ==> u@ == spec_resolved_base(host@)->Some_0,
        r matches Err(e) ==> e matches LookupError::InvalidHostTarget,
{
    let (candidate, inferred) = normalize_host(host);
    let base = match parse_url(candidate.as_str()) {
        Some(u) => u,
        None => {
            return Err(LookupError::InvalidHostTarget);
        },
    };
    if inferred {
        if let Some(port) = parsed_url_port(candidate.as_str()) {
            if port == 443 {
                let secure = https_candidate(host);
                return match parse_url(secure.as_str()) {
                    Some(u) => Ok(u),
                    None => Err(LookupError::InvalidHostTarget),
                };
            }
        }
    }
    Ok(base)
}

/// Vets the descriptor the server returned against the resolved base URL:
/// the identifier must be present and exact, and the server's version must
/// not precede the minimum. Exactly on those terms the lookup data is
/// produced, carrying the base URL, the version and the association token
/// through unchanged.
pub fn check_server_details(
    base_url: String,
    ident: Option<String>,
    version: Version,
    association: Option<String>,
) -> (r: Result<LookupData, LookupError>)
    ensures
        r matches Err(LookupError::NotPocketArk) <==> !(ident matches Some(i) && i@
            == SERVER_IDENT@),
        r matches Err(LookupError::ServerOutdated(v, m)) ==> (v == version && m
            == spec_min_server_version() && version_precedes(version, spec_min_server_version())),
        ((ident matches Some(i) && i@ == SERVER_IDENT@) && version_precedes(
            version,
            spec_min_server_version(),
        )) ==> r matches Err(LookupError::ServerOutdated(v, m)),
        r is Ok <==> ((ident matches Some(i) && i@ == SERVER_IDENT@) && !version_precedes(
            version,
            spec_min_server_version(),
        )),
        r matches Ok(d) ==> (d.url@ == base_url@ && d.version == version && (match (
            d.association,
            association,
        ) {
            (Some(ref da), Some(ref a)) => da@ == a@,
            (None, None) => true,
            _ => false,
        })),
{
    let ident_ok = match ident {
        Some(ref i) => crate::text::str_eq(i.as_str(), SERVER_IDENT),
        None => false,
    };
    if !ident_ok {
        return Err(LookupError::NotPocketArk);
    }
    let min = min_server_version();
    if version.precedes(&min) {
        return Err(LookupError::ServerOutdated(version, min));
    }
    Ok(LookupData { url: base_url, version, association })
}

} // verus!
