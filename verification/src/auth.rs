//! The upstream-side username/password handshake: the greeting offered to
//! the upstream proxy, the authentication request built from credentials,
//! and the checks on the proxy's two replies.

use vstd::prelude::*;

use crate::credentials::Credentials;
use crate::session::SessionError;
use crate::AUTH_SUCCESS;
use crate::AUTH_VERSION;
use crate::METHOD_USERPASS;
use crate::SOCKS_VERSION;

verus! {

/// The three-byte greeting sent to the upstream proxy: version 5, one
/// method offered, username/password.
pub open spec fn greeting_bytes() -> Seq<u8> {
    seq![SOCKS_VERSION, 1u8, METHOD_USERPASS]
}

/// The authentication request wire format: auth version, one-byte username
/// length, username, one-byte password length, password — nothing else.
pub open spec fn auth_request_bytes(username: Seq<u8>, password: Seq<u8>) -> Seq<u8> {
    seq![AUTH_VERSION, username.len() as u8] + username + seq![password.len() as u8] + password
}

/// Build the greeting offered to the upstream proxy.
pub fn upstream_greeting() -> (g: Vec<u8>)
    ensures
        g@ == greeting_bytes(),
{
    let mut g: Vec<u8> = Vec::new();
    g.push(SOCKS_VERSION);
    g.push(1u8);
    g.push(METHOD_USERPASS);
    proof {
        assert(g@ =~= greeting_bytes());
    }
    g
}

/// Build the username/password authentication request from the credentials.
pub fn build_auth_request(creds: &Credentials) -> (req: Vec<u8>)
    requires
        creds.wf(),
    ensures
        req@ == auth_request_bytes(creds.username@, creds.password@),
{
    let mut req: Vec<u8> = Vec::new();
    req.push(AUTH_VERSION);
    req.push(creds.username.len() as u8);
    let mut i: usize = 0;
    while i < creds.username.len()
        invariant
            0 <= i <= creds.username@.len(),
            req@ == seq![AUTH_VERSION, creds.username@.len() as u8]
                + creds.username@.subrange(0, i as int),
        decreases creds.username@.len() - i,
    {
        req.push(creds.username[i]);
        i += 1;
        proof {
            assert(creds.username@.subrange(0, i as int)
                =~= creds.username@.subrange(0, i - 1) + seq![creds.username@[i - 1]]);
        }
    }
    proof {
        assert(creds.username@.subrange(0, creds.username@.len() as int) =~= creds.username@);
    }
    req.push(creds.password.len() as u8);
    let mut j: usize = 0;
    while j < creds.password.len()
        invariant
            0 <= j <= creds.password@.len(),
            req@ == seq![AUTH_VERSION, creds.username@.len() as u8] + creds.username@
                + seq![creds.password@.len() as u8] + creds.password@.subrange(0, j as int),
        decreases creds.password@.len() - j,
    {
        req.push(creds.password[j]);
        j += 1;
        proof {
            assert(creds.password@.subrange(0, j as int)
                =~= creds.password@.subrange(0, j - 1) + seq![creds.password@[j - 1]]);
        }
    }
    proof {
        assert(creds.password@.subrange(0, creds.password@.len() as int) =~= creds.password@);
        assert(req@ =~= auth_request_bytes(creds.username@, creds.password@));
    }
    req
}

/// What the check of the upstream proxy's method-selection reply yields:
/// the version byte must name SOCKS version 5 and the selected method must
/// be username/password.
pub open spec fn method_selection_check(version: u8, method: u8) -> Result<(), SessionError> {
    if version != SOCKS_VERSION {
        Err(SessionError::UnsupportedSocksVersion)
    } else if method != METHOD_USERPASS {
        Err(SessionError::UserPassNotSupported)
    } else {
        Ok(())
    }
}

/// What the check of the upstream proxy's authentication reply yields: the
/// version byte must name sub-negotiation version 1 and the status byte
/// must report success.
pub open spec fn auth_reply_check(version: u8, status: u8) -> Result<(), SessionError> {
    if version != AUTH_VERSION {
        Err(SessionError::UnsupportedAuthVersion)
    } else if status != AUTH_SUCCESS {
        Err(SessionError::CredentialsRejected)
    } else {
        Ok(())
    }
}

/// Check the upstream proxy's method-selection reply.
pub fn check_method_selection(version: u8, method: u8) -> (r: Result<(), SessionError>)
    ensures
        r == method_selection_check(version, method),
{
    if version != SOCKS_VERSION {
        Err(SessionError::UnsupportedSocksVersion)
    } else if method != METHOD_USERPASS {
        Err(SessionError::UserPassNotSupported)
    } else {
        Ok(())
    }
}

/// Check the upstream proxy's authentication reply.
pub fn check_auth_reply(version: u8, status: u8) -> (r: Result<(), SessionError>)
    ensures
        r == auth_reply_check(version, status),
{
    if version != AUTH_VERSION {
        Err(SessionError::UnsupportedAuthVersion)
    } else if status != AUTH_SUCCESS {
        Err(SessionError::CredentialsRejected)
    } else {
        Ok(())
    }
}

} // verus!
