//! The immutable per-session bundle: the resolved remote base URL, the
//! bearer token and the optional association token. Both credential strings
//! are validated once, here, so that no per-request header construction can
//! fail late; after construction no field ever changes, and the bundle is
//! shared read-only across every concurrent connection.

use crate::headers::{is_valid_header_value, valid_header_value};
use vstd::prelude::*;

verus! {

/// Why a session context could not be built.
#[derive(Debug)]
pub enum SessionError {
    /// The bearer token holds a byte a header value may not carry.
    InvalidToken,
    /// The association token holds such a byte.
    InvalidAssociation,
}

/// The view of an optional byte string.
pub open spec fn opt_bytes_view(o: Option<Vec<u8>>) -> Option<Seq<u8>> {
    match o {
        Some(v) => Some(v@),
        None => None,
    }
}

/// The session context. The outbound HTTP client that accompanies it is part
/// of the transport and lives with the binary that owns the sockets.
#[derive(Debug)]
pub struct SessionContext {
    base_url: String,
    token: Vec<u8>,
    association: Option<Vec<u8>>,
}

impl SessionContext {
    /// The resolved remote base URL.
    pub closed spec fn spec_base_url(&self) -> Seq<char> {
        self.base_url@
    }

    /// The bearer token bytes.
    pub closed spec fn spec_token(&self) -> Seq<u8> {
        self.token@
    }

    /// The association token bytes, where the server issued one.
    pub closed spec fn spec_association(&self) -> Option<Seq<u8>> {
        match self.association {
            Some(ref a) => Some(a@),
            None => None,
        }
    }

    /// Well-formed: both credential strings passed the one-time validation,
    /// so they can stand in outbound headers.
    pub open spec fn wf(&self) -> bool {
        &&& valid_header_value(self.spec_token())
        &&& match self.spec_association() {
            Some(a) => valid_header_value(a),
            None => true,
        }
    }

    /// Builds the session context, validating the bearer token and the
    /// association token exactly once. Construction fails — rather than any
    /// later per-request step — precisely when one of them holds a byte a
    /// header value may not carry.
    pub fn new(base_url: String, token: Vec<u8>, association: Option<Vec<u8>>) -> (r: Result<
        SessionContext,
        SessionError,
    >)
        ensures
            r is Ok <==> valid_header_value(token@) && (match association {
                Some(ref a) => valid_header_value(a@),
                None => true,
            }),
            r matches Ok(s) ==> s.wf() && s.spec_base_url() == base_url@ && s.spec_token()
                == token@ && s.spec_association() == opt_bytes_view(association),
            r matches Err(e) ==> (e matches SessionError::InvalidToken <==> !valid_header_value(
                token@,
            )),
    {
        if !is_valid_header_value(token.as_slice()) {
            return Err(SessionError::InvalidToken);
        }
        if let Some(ref a) = association {
            if !is_valid_header_value(a.as_slice()) {
                return Err(SessionError::InvalidAssociation);
            }
        }
        Ok(SessionContext { base_url, token, association })
    }

    /// The base URL as a string slice.
    pub fn base_url_str(&self) -> (r: &str)
        ensures
            r@ == self.spec_base_url(),
    {
        self.base_url.as_str()
    }

    /// The bearer token bytes.
    pub fn token_slice(&self) -> (r: &[u8])
        ensures
            r@ == self.spec_token(),
    {
        self.token.as_slice()
    }

    /// The association token bytes, where the server issued one.
    pub fn association_slice(&self) -> (r: Option<&[u8]>)
        ensures
            r is Some <==> self.spec_association() is Some,
            r matches Some(a) ==> Some(a@) == self.spec_association(),
    {
        match self.association {
            Some(ref a) => Some(a.as_slice()),
            None => None,
        }
    }
}

} // verus!
