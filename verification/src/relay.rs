//! One direction of the relay phase, modelled as a pipe: each chunk read
//! from the source is handed through unchanged, and the pipe records the
//! whole stream it has forwarded so far.

use vstd::prelude::*;

verus! {

/// One relay direction. `forwarded` is the stream handed through so far:
/// the concatenation, in order, of every chunk the pipe has forwarded.
pub struct RelayPipe {
    pub forwarded: Ghost<Seq<u8>>,
}

impl RelayPipe {
    /// A fresh pipe that has forwarded nothing.
    pub fn new() -> (r: RelayPipe)
        ensures
            r.forwarded@ == Seq::<u8>::empty(),
    {
        RelayPipe { forwarded: Ghost(Seq::empty()) }
    }

    /// Hand one chunk through: the bytes written to the destination are
    /// exactly the bytes read from the source, and they are appended, in
    /// order, to the stream forwarded so far.
    pub fn forward(&mut self, chunk: Vec<u8>) -> (out: Vec<u8>)
        ensures
            out@ == chunk@,
            final(self).forwarded@ == old(self).forwarded@ + chunk@,
    {
        proof {
            self.forwarded@ = self.forwarded@ + chunk@;
        }
        chunk
    }
}

} // verus!
