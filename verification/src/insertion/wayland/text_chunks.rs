//! The chunks of one insertion request and the queue that hands them out.
use std::collections::VecDeque;
use vstd::prelude::*;
use crate::insertion::outcome::InsertionText;
use crate::text_chunks::is_greedy_split;
use crate::text_chunks::split_at_byte_limit;
use crate::text_chunks::string_views;
use crate::text_chunks::utf8_len;

verus! {

/// The largest string, in UTF-8 bytes, that one `commit_string` request may carry.
pub const MAX_COMMIT_STRING_BYTES: usize = 4000;

/// One piece of the text to commit.
#[derive(Clone, Debug, PartialEq, Eq)]
pub struct CommitChunk {
    pub chunk: String,
}

/// The characters of each chunk.
pub open spec fn chunk_views(chunks: Seq<CommitChunk>) -> Seq<Seq<char>> {
    chunks.map_values(|c: CommitChunk| c.chunk@)
}

/// All chunks of a request, taken at once: the first and the rest in order.
#[derive(Debug)]
pub struct CommitBatch {
    pub current: CommitChunk,
    pub remaining: VecDeque<CommitChunk>,
}

/// The chunks of one insertion request: at least one, each within the byte limit.
#[derive(Debug)]
pub struct CommitChunks {
    chunks: VecDeque<CommitChunk>,
}

impl CommitChunks {
    #[verifier::type_invariant]
    spec fn chunks_are_valid(self) -> bool {
        &&& self.chunks@.len() > 0
        &&& forall|i: int|
            0 <= i < self.chunks@.len() ==> utf8_len(#[trigger] self.chunks@[i].chunk@)
                <= MAX_COMMIT_STRING_BYTES
    }

    /// The characters of each chunk, in order.
    pub closed spec fn view(self) -> Seq<Seq<char>> {
        chunk_views(self.chunks@)
    }

    /// Splits the text greedily into chunks of at most `MAX_COMMIT_STRING_BYTES` bytes.
    pub fn from_text(text: InsertionText<'_>) -> (r: CommitChunks)
        ensures
            is_greedy_split(text.view(), r.view(), MAX_COMMIT_STRING_BYTES as nat),
    {
        let text = text.as_str();
        let chunks = split_at_byte_limit(text, MAX_COMMIT_STRING_BYTES);
        proof {
            let views = string_views(chunks@);
            assert(crate::text_chunks::concat_all(views) == text@);
            if views.len() == 0 {
                assert(crate::text_chunks::concat_all(views) =~= Seq::<char>::empty());
            }
            assert forall|i: int| 0 <= i < chunks@.len() implies utf8_len(
                #[trigger] chunks@[i]@,
            ) <= MAX_COMMIT_STRING_BYTES by {
                assert(views[i] == chunks@[i]@);
            }
        }
        Self::from_validated_chunks(chunks)
    }

    /// Chunks that are already known to be valid.
    pub fn from_validated_chunks(chunks: Vec<String>) -> (r: CommitChunks)
        requires
            chunks@.len() > 0,
            forall|i: int|
                0 <= i < chunks@.len() ==> utf8_len(#[trigger] chunks@[i]@)
                    <= MAX_COMMIT_STRING_BYTES,
        ensures
            r.view() == string_views(chunks@),
    {
        let mut queue: VecDeque<CommitChunk> = VecDeque::new();
        let mut i: usize = 0;
        while i < chunks.len()
            invariant
                i <= chunks@.len(),
                queue@.len() == i,
                forall|j: int| 0 <= j < i ==> (#[trigger] queue@[j]).chunk == chunks@[j],
            decreases chunks@.len() - i,
        {
            queue.push_back(CommitChunk { chunk: chunks[i].clone() });
            i = i + 1;
        }
        let r = CommitChunks { chunks: queue };
        proof {
            assert(r.view() =~= string_views(chunks@));
        }
        r
    }

    /// Chunks given directly, as a test fixture would give them.
    pub fn from_test_chunks(chunks: Vec<String>) -> (r: CommitChunks)
        requires
            chunks@.len() > 0,
            forall|i: int|
                0 <= i < chunks@.len() ==> utf8_len(#[trigger] chunks@[i]@)
                    <= MAX_COMMIT_STRING_BYTES,
        ensures
            r.view() == string_views(chunks@),
    {
        Self::from_validated_chunks(chunks)
    }

    /// The number of chunks.
    pub fn len(&self) -> (r: usize)
        ensures
            r == self.view().len(),
            r > 0,
    {
        proof {
            use_type_invariant(self);
        }
        self.chunks.len()
    }

    /// The chunks as strings, in order.
    pub fn to_strings(&self) -> (r: Vec<String>)
        ensures
            string_views(r@) == self.view(),
    {
        let mut out: Vec<String> = Vec::new();
        let mut i: usize = 0;
        while i < self.chunks.len()
            invariant
                i <= self.chunks@.len(),
                out@.len() == i,
                forall|j: int| 0 <= j < i ==> (#[trigger] out@[j])@ == self.chunks@[j].chunk@,
            decreases self.chunks@.len() - i,
        {
            let s = self.chunks[i].chunk.clone();
            out.push(s);
            i = i + 1;
        }
        proof {
            assert(string_views(out@) =~= self.view());
        }
        out
    }
}

/// The chunks not yet handed out, with the bytes that may have been sent and those
/// known to have been flushed.
#[derive(Debug)]
pub struct ChunkQueue {
    chunks: VecDeque<CommitChunk>,
    maybe_sent_bytes: usize,
    sent_bytes: usize,
}

impl ChunkQueue {
    /// Flushed bytes never exceed buffered ones.
    pub closed spec fn wf(self) -> bool {
        self.sent_bytes <= self.maybe_sent_bytes
    }

    /// The chunks not yet handed out.
    pub closed spec fn pending(self) -> Seq<Seq<char>> {
        chunk_views(self.chunks@)
    }

    /// Bytes that entered the outgoing buffer.
    pub closed spec fn maybe_sent(self) -> nat {
        self.maybe_sent_bytes as nat
    }

    /// Bytes whose flush completed.
    pub closed spec fn sent(self) -> nat {
        self.sent_bytes as nat
    }

    pub fn new(chunks: CommitChunks) -> (r: ChunkQueue)
        ensures
            r.wf(),
            r.pending() == chunks.view(),
            r.maybe_sent() == 0,
            r.sent() == 0,
    {
        ChunkQueue { chunks: chunks.chunks, maybe_sent_bytes: 0, sent_bytes: 0 }
    }

    /// Hands out the next chunk.
    pub fn take_next(&mut self) -> (r: Option<CommitChunk>)
        ensures
            r is None <==> old(self).pending().len() == 0,
            r matches Some(c) ==> c.chunk@ == old(self).pending()[0] && final(self).pending()
                == old(self).pending().drop_first(),
            r is None ==> final(self).pending() == old(self).pending(),
            final(self).maybe_sent() == old(self).maybe_sent(),
            final(self).sent() == old(self).sent(),
            final(self).wf() == old(self).wf(),
    {
        let r = self.chunks.pop_front();
        proof {
            if r is Some {
                assert(chunk_views(self.chunks@) =~= chunk_views(old(self).chunks@).drop_first());
            }
        }
        r
    }

    /// Hands out all chunks at once.
    pub fn take_commit_batch(&mut self) -> (r: Option<CommitBatch>)
        ensures
            r is None <==> old(self).pending().len() == 0,
            r matches Some(b) ==> b.current.chunk@ == old(self).pending()[0] && chunk_views(
                b.remaining@,
            ) == old(self).pending().drop_first() && final(self).pending().len() == 0,
            r is None ==> final(self).pending() == old(self).pending(),
            final(self).maybe_sent() == old(self).maybe_sent(),
            final(self).sent() == old(self).sent(),
            final(self).wf() == old(self).wf(),
    {
        let current = match self.take_next() {
            Some(c) => c,
            None => return None,
        };
        let ghost rest = self.pending();
        let mut remaining: VecDeque<CommitChunk> = VecDeque::new();
        loop
            invariant
                chunk_views(remaining@) + self.pending() == rest,
                self.maybe_sent() == old(self).maybe_sent(),
                self.sent() == old(self).sent(),
                self.wf() == old(self).wf(),
            ensures
                chunk_views(remaining@) == rest,
                self.pending().len() == 0,
                self.maybe_sent() == old(self).maybe_sent(),
                self.sent() == old(self).sent(),
                self.wf() == old(self).wf(),
            decreases self.pending().len(),
        {
            let ghost before = remaining@;
            match self.take_next() {
                Some(chunk) => {
                    remaining.push_back(chunk);
                    proof {
                        assert(chunk_views(remaining@) =~= chunk_views(before).push(chunk.chunk@));
                    }
                },
                None => {
                    proof {
                        assert(chunk_views(remaining@) + self.pending() =~= chunk_views(
                            remaining@,
                        ));
                    }
                    break ;
                },
            }
        }
        Some(CommitBatch { current, remaining })
    }

    /// Counts `bytes` as possibly sent.
    pub fn record_commit_buffered(&mut self, bytes: usize)
        requires
            old(self).maybe_sent() + bytes <= usize::MAX,
        ensures
            final(self).maybe_sent() == old(self).maybe_sent() + bytes,
            final(self).sent() == old(self).sent(),
            final(self).pending() == old(self).pending(),
            old(self).wf() ==> final(self).wf(),
    {
        self.maybe_sent_bytes = self.maybe_sent_bytes + bytes;
    }

    /// Counts `bytes` as flushed; flushed bytes never exceed buffered ones.
    pub fn record_commit_flushed(&mut self, bytes: usize)
        requires
            old(self).sent() + bytes <= old(self).maybe_sent(),
        ensures
            final(self).sent() == old(self).sent() + bytes,
            final(self).maybe_sent() == old(self).maybe_sent(),
            final(self).pending() == old(self).pending(),
            final(self).wf(),
    {
        self.sent_bytes = self.sent_bytes + bytes;
    }

    pub fn maybe_sent_bytes(&self) -> (r: usize)
        ensures
            r == self.maybe_sent(),
    {
        self.maybe_sent_bytes
    }

    pub fn sent_bytes(&self) -> (r: usize)
        ensures
            r == self.sent(),
    {
        self.sent_bytes
    }
}

} // verus!
