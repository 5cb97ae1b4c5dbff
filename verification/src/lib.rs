//! Core logic for a localhost relay that lets a fixed legacy game client
//! reach a modern remote game server.
//!
//! The client only speaks one outdated TLS version and performs a hardcoded
//! service-discovery call, so a set of localhost-only services intercepts its
//! connections: a discovery emulator answers the hardcoded lookup, an HTTP
//! proxy rewrites and forwards requests with the session's credentials, and a
//! tunnel bridge negotiates HTTP upgrades for the game's binary protocol.
//! This crate holds the decision and rewriting logic of those services,
//! verified; the sockets, TLS handshakes and HTTP transport live in the
//! surrounding binary.

use vstd::prelude::*;

pub mod text;
pub mod headers;
pub mod urls;
pub mod session;
pub mod proxy;
pub mod discovery;
pub mod tunnel;
pub mod lookup;
pub mod auth;
pub mod tls;

verus! {

/// Local port of the discovery emulator.
pub const REDIRECTOR_PORT: u16 = 42127;

/// Local port of the main game-protocol server the client is pointed at.
pub const BLAZE_PORT: u16 = 42128;

/// Local port of the TLS-terminating HTTP proxy.
pub const HTTP_PORT: u16 = 42131;

} // verus!
