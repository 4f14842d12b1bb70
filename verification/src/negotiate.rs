//! The local-side method negotiation: given the method set a SOCKS5 client
//! offered, decide whether to accept it and which two-byte reply to send.

use vstd::prelude::*;

use crate::METHOD_NO_AUTH;
use crate::METHOD_REJECT;
use crate::SOCKS_VERSION;

verus! {

/// The offered method set admits the "no authentication" method.
pub open spec fn offers_no_auth(methods: Seq<u8>) -> bool {
    methods.contains(METHOD_NO_AUTH)
}

/// The two-byte reply selecting "no authentication".
pub open spec fn accept_reply() -> Seq<u8> {
    seq![SOCKS_VERSION, METHOD_NO_AUTH]
}

/// The two-byte reply rejecting every offered method.
pub open spec fn reject_reply() -> Seq<u8> {
    seq![SOCKS_VERSION, METHOD_REJECT]
}

/// Scan the offered methods for the "no authentication" identifier.
pub fn contains_no_auth(methods: &Vec<u8>) -> (found: bool)
    ensures
        found == offers_no_auth(methods@),
{
    let mut i: usize = 0;
    while i < methods.len()
        invariant
            0 <= i <= methods@.len(),
            forall|j: int| 0 <= j < i ==> methods@[j] != METHOD_NO_AUTH,
        decreases methods@.len() - i,
    {
        if methods[i] == METHOD_NO_AUTH {
            proof {
                assert(methods@[i as int] == METHOD_NO_AUTH);
            }
            return true;
        }
        i += 1;
    }
    false
}

/// Choose the reply to a client's method set: accept with "no authentication"
/// when the set offers it, otherwise reject with the no-acceptable-method
/// byte. Returns the reply bytes and whether the set was accepted.
pub fn select_method(methods: &Vec<u8>) -> (r: (Vec<u8>, bool))
    ensures
        r.1 == offers_no_auth(methods@),
        r.1 ==> r.0@ == accept_reply(),
        !r.1 ==> r.0@ == reject_reply(),
{
    let accepted = contains_no_auth(methods);
    let mut reply: Vec<u8> = Vec::new();
    reply.push(SOCKS_VERSION);
    if accepted {
        reply.push(METHOD_NO_AUTH);
        proof {
            assert(reply@ =~= accept_reply());
        }
    } else {
        reply.push(METHOD_REJECT);
        proof {
            assert(reply@ =~= reject_reply());
        }
    }
    (reply, accepted)
}

} // verus!
