//! The output of one session on its way to the client: what the terminal
//! writes is collected, and handed to the transport whole at every flush.

use vstd::prelude::*;

verus! {

/// The bytes written since the last flush that went through.
pub struct Sink {
    bytes: Vec<u8>,
}

impl View for Sink {
    type V = Seq<u8>;

    closed spec fn view(&self) -> Seq<u8> {
        self.bytes@
    }
}

impl Sink {
    /// A sink without bytes.
    pub fn new() -> (sink: Sink)
        ensures
            sink@ == Seq::<u8>::empty(),
    {
        Sink { bytes: Vec::new() }
    }

    /// Takes all of `buf` behind what is waiting already, and returns how
    /// many bytes it took.
    pub fn write(&mut self, buf: &[u8]) -> (taken: usize)
        ensures
            final(self)@ == old(self)@ + buf@,
            taken == buf@.len(),
    {
        self.bytes.extend_from_slice(buf);
        buf.len()
    }

    /// A copy of the bytes that wait, for the transport to send.
    pub fn pending(&self) -> (bytes: Vec<u8>)
        ensures
            bytes@ == self@,
    {
        self.bytes.clone()
    }

    /// Ends a flush. If the transport took the bytes, none of them waits
    /// any longer; if it did not, they all stay and the flush has failed.
    /// Returns whether the flush went through.
    pub fn flushed(&mut self, delivered: bool) -> (ok: bool)
        ensures
            ok == delivered,
            final(self)@ == if delivered {
                Seq::<u8>::empty()
            } else {
                old(self)@
            },
    {
        if delivered {
            self.bytes.clear();
        }
        delivered
    }
}

} // verus!
