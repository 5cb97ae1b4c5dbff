//! The tunnel bridge's negotiation logic: the two upgrade requests — the
//! authenticated game stream and the anonymous tunnel — and the rule that
//! decides, from the remote status, whether any byte may be relayed. The
//! transport performs the upgrade and, only on success, splices the duplex
//! stream to the local socket byte for byte.

use crate::headers::{copy_bytes, str_value_bytes, Header, Headers};
use crate::session::SessionContext;
use crate::urls::{join_url, url_join};
use vstd::prelude::*;
use vstd::string::StringSliceAdditionalSpecFns;

verus! {

/// Endpoint of the authenticated game-stream upgrade.
pub const UPGRADE_ENDPOINT: &'static str = "api/server/upgrade";

/// Endpoint of the anonymous tunnel upgrade.
pub const TUNNEL_ENDPOINT: &'static str = "api/server/tunnel";

/// Failures of an upgrade negotiation.
#[derive(Debug)]
pub enum ServerStreamError {
    /// The upgrade request could not be sent or produced no response.
    RequestFailed,
    /// The server answered with a non-success status; it carries that
    /// status.
    ServerError(u16),
    /// The status permitted the upgrade but completing it failed.
    UpgradeFailure,
}

/// One planned upgrade request: the resolved endpoint URL and the headers to
/// send.
#[derive(Debug)]
pub struct UpgradeRequest {
    /// The resolved endpoint URL.
    pub url: String,
    /// The headers of the upgrade request.
    pub headers: Headers,
}

/// The optional association header, appended where the server issued a
/// token.
pub open spec fn association_entry(association: Option<Seq<u8>>) -> Seq<(Seq<char>, Seq<u8>)> {
    match association {
        Some(a) => seq![("x-association"@, a)],
        None => Seq::empty(),
    }
}

/// Headers of the authenticated stream upgrade: the upgrade negotiation
/// pair, the bearer token, and the association token where present.
pub open spec fn stream_upgrade_headers(token: Seq<u8>, association: Option<Seq<u8>>) -> Seq<
    (Seq<char>, Seq<u8>),
> {
    seq![
        ("connection"@, "Upgrade".spec_bytes()),
        ("upgrade"@, "blaze".spec_bytes()),
        ("x-token"@, token),
    ] + association_entry(association)
}

/// Headers of the anonymous tunnel upgrade: the upgrade negotiation pair and
/// the association token where present — no bearer token.
pub open spec fn tunnel_upgrade_headers(association: Option<Seq<u8>>) -> Seq<
    (Seq<char>, Seq<u8>),
> {
    seq![("connection"@, "Upgrade".spec_bytes()), ("upgrade"@, "tunnel".spec_bytes())]
        + association_entry(association)
}

/// Plans the authenticated stream upgrade. `None` only where the endpoint
/// cannot be joined against the session's base URL; no request is sent in
/// that case.
pub fn build_stream_upgrade(session: &SessionContext) -> (r: Option<UpgradeRequest>)
    requires
        session.wf(),
    ensures
        r is Some <==> url_join(session.spec_base_url(), UPGRADE_ENDPOINT@) is Some,
        r matches Some(u) ==> u.url@ == url_join(session.spec_base_url(), UPGRADE_ENDPOINT@)->Some_0
            && u.headers@ == stream_upgrade_headers(
            session.spec_token(),
            session.spec_association(),
        ),
{
    let url = match join_url(session.base_url_str(), UPGRADE_ENDPOINT) {
        Some(u) => u,
        None => {
            return None;
        },
    };
    let mut entries: Vec<Header> = Vec::new();
    entries.push(
        Header { name: String::from_str("connection"), value: str_value_bytes("Upgrade") },
    );
    entries.push(Header { name: String::from_str("upgrade"), value: str_value_bytes("blaze") });
    entries.push(
        Header { name: String::from_str("x-token"), value: copy_bytes(session.token_slice()) },
    );
    if let Some(a) = session.association_slice() {
        entries.push(Header { name: String::from_str("x-association"), value: copy_bytes(a) });
    }
    proof {
        assert(entries@.map_values(|h: Header| h@) =~= stream_upgrade_headers(
            session.spec_token(),
            session.spec_association(),
        ));
    }
    Some(UpgradeRequest { url, headers: Headers { entries } })
}

/// Plans the anonymous tunnel upgrade. `None` only where the endpoint cannot
/// be joined against the session's base URL.
pub fn build_tunnel_upgrade(session: &SessionContext) -> (r: Option<UpgradeRequest>)
    requires
        session.wf(),
    ensures
        r is Some <==> url_join(session.spec_base_url(), TUNNEL_ENDPOINT@) is Some,
        r matches Some(u) ==> u.url@ == url_join(session.spec_base_url(), TUNNEL_ENDPOINT@)->Some_0
            && u.headers@ == tunnel_upgrade_headers(session.spec_association()),
{
    let url = match join_url(session.base_url_str(), TUNNEL_ENDPOINT) {
        Some(u) => u,
        None => {
            return None;
        },
    };
    let mut entries: Vec<Header> = Vec::new();
    entries.push(
        Header { name: String::from_str("connection"), value: str_value_bytes("Upgrade") },
    );
    entries.push(Header { name: String::from_str("upgrade"), value: str_value_bytes("tunnel") });
    if let Some(a) = session.association_slice() {
        entries.push(Header { name: String::from_str("x-association"), value: copy_bytes(a) });
    }
    proof {
        assert(entries@.map_values(|h: Header| h@) =~= tunnel_upgrade_headers(
            session.spec_association(),
        ));
    }
    Some(UpgradeRequest { url, headers: Headers { entries } })
}

/// Decides from the remote status whether the upgrade may proceed: only a
/// success-class status permits it. On any other status the setup has
/// failed — the connection must not be used and no byte is relayed.
pub fn check_upgrade_status(status: u16) -> (r: Result<(), ServerStreamError>)
    ensures
        r is Ok <==> 200 <= status < 300,
        r matches Err(e) ==> e matches ServerStreamError::ServerError(s) && s == status,
{
    if 200 <= status && status < 300 {
        Ok(())
    } else {
        Err(ServerStreamError::ServerError(status))
    }
}

} // verus!
