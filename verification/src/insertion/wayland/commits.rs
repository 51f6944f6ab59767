//! A commit request sent to the input method, and the record that it was buffered.
use vstd::prelude::*;
use crate::text_chunks::str_byte_len;
use crate::text_chunks::utf8_len;

verus! {

/// One `commit_string` + `commit` pair: the chunk and the serial it commits under.
#[derive(Clone, Debug, PartialEq, Eq)]
pub struct CommitRequest {
    pub serial: u32,
    pub chunk: String,
}

impl CommitRequest {
    /// The UTF-8 bytes that the request sends.
    pub fn sent_bytes(&self) -> (r: usize)
        ensures
            r == utf8_len(self.chunk@),
    {
        str_byte_len(self.chunk.as_str())
    }
}

/// A commit request that entered the client's outgoing buffer.
#[derive(Debug, PartialEq, Eq)]
pub struct BufferedCommit {
    sent_bytes: usize,
}

impl BufferedCommit {
    /// The bytes that the buffered request carries.
    pub closed spec fn spec_sent_bytes(self) -> nat {
        self.sent_bytes as nat
    }

    pub fn new(sent_bytes: usize) -> (r: BufferedCommit)
        ensures
            r.spec_sent_bytes() == sent_bytes,
    {
        BufferedCommit { sent_bytes }
    }

    pub fn into_sent_bytes(self) -> (r: usize)
        ensures
            r == self.spec_sent_bytes(),
    {
        self.sent_bytes
    }
}

} // verus!
