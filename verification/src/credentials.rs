//! Process-wide credentials for the upstream proxy: a username and a
//! password, each at most 255 bytes so it fits the protocol's one-byte
//! length prefix. Supplied once at startup and shared read-only by every
//! session.

use vstd::prelude::*;

verus! {

/// Username and password for the upstream proxy's username/password
/// sub-negotiation.
pub struct Credentials {
    pub username: Vec<u8>,
    pub password: Vec<u8>,
}

impl Credentials {
    /// Both fields fit the protocol's single-byte length prefix.
    pub open spec fn wf(&self) -> bool {
        self.username@.len() <= 255 && self.password@.len() <= 255
    }

    /// Accept the credential pair exactly when each part fits the one-byte
    /// length field of the authentication request.
    pub fn new(username: Vec<u8>, password: Vec<u8>) -> (r: Option<Credentials>)
        ensures
            username@.len() <= 255 && password@.len() <= 255 ==> (r matches Some(c)
                && c.username@ == username@ && c.password@ == password@ && c.wf()),
            username@.len() > 255 || password@.len() > 255 ==> r is None,
    {
        if username.len() <= 255 && password.len() <= 255 {
            Some(Credentials { username, password })
        } else {
            None
        }
    }
}

} // verus!
