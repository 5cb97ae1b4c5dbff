//! The HTTP proxy handler's per-request logic: derive the remote URL from
//! the inbound target, rewrite the headers, carry the fully buffered body,
//! and reconstruct the local response from the remote one. One outbound call
//! is made per inbound request; the transport that performs it surrounds
//! this module.

use crate::headers::{copy_bytes, forwarded_headers, outbound_headers, Headers};
use crate::session::SessionContext;
use crate::text::{spec_strip_slash, strip_leading_slash};
use crate::urls::{join_url, url_join};
use vstd::prelude::*;

verus! {

/// One framed inbound HTTP request, as the transport hands it over: method,
/// the target's path and query (absent on some request forms), the headers
/// in wire order, and the fully drained body.
#[derive(Debug)]
pub struct InboundRequest {
    /// Request method.
    pub method: String,
    /// Path and query of the request target, where the target carries one.
    pub target: Option<String>,
    /// Inbound headers.
    pub headers: Headers,
    /// The whole inbound body: every frame, drained before forwarding.
    pub body: Vec<u8>,
}

/// The outbound request the transport must send to the remote server.
#[derive(Debug)]
pub struct OutboundRequest {
    /// Request method, copied from the inbound request.
    pub method: String,
    /// The joined remote URL.
    pub url: String,
    /// The rewritten headers.
    pub headers: Headers,
    /// The forwarded body.
    pub body: Vec<u8>,
}

/// A response received from the remote server, fully read.
#[derive(Debug)]
pub struct RemoteResponse {
    /// Remote status code.
    pub status: u16,
    /// Remote headers.
    pub headers: Headers,
    /// The fully read remote body.
    pub body: Vec<u8>,
}

/// The response served to the local client.
#[derive(Debug)]
pub struct LocalResponse {
    /// Local status code.
    pub status: u16,
    /// Local headers.
    pub headers: Headers,
    /// Local body.
    pub body: Vec<u8>,
}

/// Failures of the one outbound call a proxied request makes.
#[derive(Debug)]
pub enum ProxyError {
    /// The outbound request could not be sent or produced no response.
    RequestFailed,
    /// The remote response's body could not be read to its end.
    BodyFailed,
}

/// The path and query the inbound request contributes: as framed, or empty
/// where the target carries none.
pub open spec fn raw_target(req: InboundRequest) -> Seq<char> {
    match req.target {
        Some(ref t) => t@,
        None => ""@,
    }
}

/// What is joined against the base URL: the target with one leading slash
/// stripped.
pub open spec fn proxied_target(req: InboundRequest) -> Seq<char> {
    spec_strip_slash(raw_target(req))
}

/// Plans the one outbound call for an inbound request. On success the
/// outbound request carries the inbound method and body unchanged, the URL
/// joined from the session's base, and the rewritten headers — the session's
/// credential present exactly once, the transport-framing headers gone. A
/// join failure yields the service-unavailable response at once; the caller
/// makes no remote call in that case.
pub fn plan_proxy_request(req: &InboundRequest, session: &SessionContext) -> (r: Result<
    OutboundRequest,
    LocalResponse,
>)
    requires
        session.wf(),
    ensures
        r matches Ok(out) ==> {
            &&& url_join(session.spec_base_url(), proxied_target(*req)) is Some
            &&& out.url@ == url_join(session.spec_base_url(), proxied_target(*req))->Some_0
            &&& out.method@ == req.method@
            &&& out.body@ == req.body@
            &&& out.headers@ == forwarded_headers(req.headers@, session.spec_token())
        },
        r matches Err(resp) ==> {
            &&& url_join(session.spec_base_url(), proxied_target(*req)) is None
            &&& resp.status == 503
            &&& resp.headers@.len() == 0
            &&& resp.body@.len() == 0
        },
{
    let target: &str = match req.target {
        Some(ref t) => t.as_str(),
        None => "",
    };
    let stripped = strip_leading_slash(target);
    match join_url(session.base_url_str(), stripped) {
        Some(url) => {
            let headers = outbound_headers(&req.headers, session.token_slice());
            Ok(
                OutboundRequest {
                    method: req.method.clone(),
                    url,
                    headers,
                    body: copy_bytes(req.body.as_slice()),
                },
            )
        },
        None => Err(LocalResponse { status: 503, headers: Headers::empty(), body: Vec::new() }),
    }
}

/// Reconstructs the local response from the remote one: status, headers and
/// body are carried over verbatim — no reinterpretation, no truncation, no
/// added framing.
pub fn relay_remote_response(remote: RemoteResponse) -> (r: LocalResponse)
    ensures
        r.status == remote.status,
        r.headers@ == remote.headers@,
        r.body@ == remote.body@,
{
    LocalResponse { status: remote.status, headers: remote.headers, body: remote.body }
}

/// The response served when the outbound call itself failed: an
/// internal-error status, never a dropped socket.
pub fn proxy_error_response(err: &ProxyError) -> (r: LocalResponse)
    ensures
        r.status == 500,
        r.headers@.len() == 0,
        r.body@.len() == 0,
{
    match err {
        ProxyError::RequestFailed => LocalResponse {
            status: 500,
            headers: Headers::empty(),
            body: Vec::new(),
        },
        ProxyError::BodyFailed => LocalResponse {
            status: 500,
            headers: Headers::empty(),
            body: Vec::new(),
        },
    }
}

/// The response served when the inbound body could not be read to its end.
pub fn inbound_body_failure_response() -> (r: LocalResponse)
    ensures
        r.status == 503,
        r.headers@.len() == 0,
        r.body@.len() == 0,
{
    LocalResponse { status: 503, headers: Headers::empty(), body: Vec::new() }
}

} // verus!
