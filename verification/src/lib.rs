//! A SOCKS5-to-SOCKS5 relay library.
//!
//! The library holds the protocol logic of a relay that accepts a SOCKS5
//! client, negotiates "no authentication" with it, authenticates to an
//! upstream SOCKS5 proxy with username/password credentials, and then
//! splices the two connections together. The surrounding program performs
//! the socket I/O and drives the session state machine defined here.

use vstd::prelude::*;

pub mod auth;
pub mod credentials;
pub mod negotiate;
pub mod relay;
pub mod session;

verus! {

/// The SOCKS protocol version byte.
pub const SOCKS_VERSION: u8 = 0x05;

/// The username/password sub-negotiation version byte (distinct from the
/// SOCKS version).
pub const AUTH_VERSION: u8 = 0x01;

/// Method identifier: no authentication required.
pub const METHOD_NO_AUTH: u8 = 0x00;

/// Method identifier: username/password authentication.
pub const METHOD_USERPASS: u8 = 0x02;

/// Method-selection reply byte: no acceptable method was offered.
pub const METHOD_REJECT: u8 = 0xFF;

/// Username/password sub-negotiation status byte: credentials accepted.
pub const AUTH_SUCCESS: u8 = 0x00;

} // verus!
