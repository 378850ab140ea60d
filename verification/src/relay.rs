//! The buffering half of the I/O relay.
//!
//! For each command the host runs three concurrent workers: one forwards the
//! host's standard input to the child, two read the child's standard output
//! and error, echo each chunk live, and accumulate it.  The workers' reads
//! and writes are host I/O; what each chunk does to the accumulated buffer,
//! and when the stdin forwarder stops, is decided here.

use vstd::prelude::*;

verus! {

/// The private buffer one relay worker accumulates its stream into.
pub struct StreamCapture {
    data: Vec<u8>,
}

impl View for StreamCapture {
    type V = Seq<u8>;

    closed spec fn view(&self) -> Seq<u8> {
        self.data@
    }
}

impl StreamCapture {
    /// An empty capture, made before the worker's first read.
    pub fn new() -> (c: StreamCapture)
        ensures
            c@ == Seq::<u8>::empty(),
    {
        StreamCapture { data: Vec::new() }
    }

    /// Appends the `n` bytes a read delivered: the capture grows by exactly
    /// that chunk, in order, losing and reordering nothing.
    pub fn absorb_chunk(&mut self, chunk: &[u8], n: usize)
        requires
            n <= chunk@.len(),
        ensures
            final(self)@ == old(self)@ + chunk@.subrange(0, n as int),
    {
        let mut i: usize = 0;
        while i < n
            invariant
                i <= n <= chunk@.len(),
                self.data@ == old(self).data@ + chunk@.subrange(0, i as int),
            decreases n - i,
        {
            self.data.push(chunk[i]);
            proof {
                assert(self.data@ =~= old(self).data@ + chunk@.subrange(0, i + 1));
            }
            i += 1;
        }
    }

    /// The accumulated bytes, retrieved after the worker joins.
    pub fn into_bytes(self) -> (b: Vec<u8>)
        ensures
            b@ == self@,
    {
        self.data
    }

    /// How many bytes have been captured.
    pub fn len(&self) -> (n: usize)
        ensures
            n == self@.len(),
    {
        self.data.len()
    }
}

/// What one pass of the stdin forwarder observed: a chunk of host input, end
/// of input, or a read failure.
pub enum HostRead {
    Chunk { len: usize },
    EndOfInput,
    Failed,
}

/// Whether the stdin forwarder keeps running after a pass: only when the
/// host delivered a chunk and the write into the child succeeded.  End of
/// input, a read failure and a closed child stdin all stop it; each is a
/// normal termination, not an error.
pub fn stdin_forward_continues(read: &HostRead, write_ok: bool) -> (c: bool)
    ensures
        c == ((*read matches HostRead::Chunk { .. }) && write_ok),
{
    match read {
        HostRead::Chunk { .. } => write_ok,
        HostRead::EndOfInput => false,
        HostRead::Failed => false,
    }
}

} // verus!
