//! Incremental assembly of a byte stream into lines.
//!
//! A line ends at `\n` or `\r`; both terminators are treated alike, so LF,
//! CR-only and CRLF streams are all handled (a CRLF pair yields one empty
//! line, which the consumer drops after trimming). Bytes after the last
//! terminator stay buffered until the next chunk arrives or the stream ends.

use vstd::prelude::*;

verus! {

/// A line terminator byte: LF or CR.
pub open spec fn is_terminator(b: u8) -> bool {
    b == 10 || b == 13
}

/// The bytes of `s` after its last terminator (the still-unterminated tail).
pub open spec fn stream_tail(s: Seq<u8>) -> Seq<u8>
    decreases s.len(),
{
    if s.len() == 0 {
        Seq::<u8>::empty()
    } else if is_terminator(s.last()) {
        Seq::<u8>::empty()
    } else {
        stream_tail(s.drop_last()).push(s.last())
    }
}

/// Every terminated line of `s`, in stream order.
pub open spec fn stream_lines(s: Seq<u8>) -> Seq<Seq<u8>>
    decreases s.len(),
{
    if s.len() == 0 {
        Seq::<Seq<u8>>::empty()
    } else if is_terminator(s.last()) {
        stream_lines(s.drop_last()).push(stream_tail(s.drop_last()))
    } else {
        stream_lines(s.drop_last())
    }
}

/// Reassembles one output stream into lines, one instance per stream.
///
/// Feed each chunk read from the stream with [`Self::push_chunk`]; at end of
/// stream, [`Self::flush`] hands back whatever trailing bytes never saw a
/// terminator.
pub struct LineAssembler {
    pending: Vec<u8>,
    consumed: Ghost<Seq<u8>>,
}

impl LineAssembler {
    /// The whole byte stream this assembler has been fed so far.
    pub closed spec fn consumed(self) -> Seq<u8> {
        self.consumed@
    }

    /// The buffered bytes are exactly the unterminated tail of the stream.
    pub closed spec fn wf(self) -> bool {
        self.pending@ == stream_tail(self.consumed@)
    }

    /// A fresh assembler that has consumed nothing.
    pub fn new() -> (r: Self)
        ensures
            r.wf(),
            r.consumed() == Seq::<u8>::empty(),
    {
        LineAssembler { pending: Vec::new(), consumed: Ghost(Seq::empty()) }
    }

    /// Consumes one chunk of the stream and returns the lines it completes.
    ///
    /// The terminated lines of the whole stream grow by exactly the returned
    /// lines, so the line sequence is a function of the concatenated stream
    /// alone, independent of chunk boundaries.
    pub fn push_chunk(&mut self, chunk: &[u8]) -> (lines: Vec<Vec<u8>>)
        requires
            old(self).wf(),
        ensures
            final(self).wf(),
            final(self).consumed() == old(self).consumed() + chunk@,
            stream_lines(final(self).consumed()) == stream_lines(old(self).consumed())
                + lines@.map_values(|l: Vec<u8>| l@),
    {
        let mut lines: Vec<Vec<u8>> = Vec::new();
        let mut k: usize = 0;
        while k < chunk.len()
            invariant
                k <= chunk@.len(),
                self.wf(),
                self.consumed@ == old(self).consumed() + chunk@.subrange(0, k as int),
                stream_lines(self.consumed@) == stream_lines(old(self).consumed())
                    + lines@.map_values(|l: Vec<u8>| l@),
            decreases chunk@.len() - k,
        {
            let b = chunk[k];
            let ghost s = self.consumed@;
            proof {
                self.consumed@ = s.push(b);
                assert(s.push(b).drop_last() =~= s);
                assert(chunk@.subrange(0, k + 1 as int)
                    =~= chunk@.subrange(0, k as int).push(b));
                assert(self.consumed@ =~= old(self).consumed() + chunk@.subrange(
                    0,
                    k + 1 as int,
                ));
            }
            if is_terminator_byte(b) {
                let line = self.take_pending();
                proof {
                    assert(stream_lines(s.push(b)) == stream_lines(s).push(stream_tail(s)));
                    assert(lines@.push(line).map_values(|l: Vec<u8>| l@)
                        =~= lines@.map_values(|l: Vec<u8>| l@).push(line@));
                }
                lines.push(line);
            } else {
                self.pending.push(b);
            }
            k = k + 1;
        }
        proof {
            assert(chunk@.subrange(0, chunk@.len() as int) =~= chunk@);
        }
        lines
    }

    /// Ends the stream, handing back the unterminated tail (possibly empty).
    pub fn flush(self) -> (tail: Vec<u8>)
        requires
            self.wf(),
        ensures
            tail@ == stream_tail(self.consumed()),
    {
        self.pending
    }

    /// Moves the buffered tail out, leaving the buffer empty.
    fn take_pending(&mut self) -> (r: Vec<u8>)
        ensures
            r@ == old(self).pending@,
            final(self).pending@ == Seq::<u8>::empty(),
            final(self).consumed == old(self).consumed,
    {
        let r = self.pending.clone();
        self.pending.clear();
        r
    }
}

/// Exec mirror of `is_terminator`.
pub fn is_terminator_byte(b: u8) -> (r: bool)
    ensures
        r == is_terminator(b),
{
    b == 10 || b == 13
}

/// One step of assembly: a terminator byte completes the pending line
/// (possibly empty), any other byte extends it. The state is the pair of
/// the emitted lines and the pending tail.
pub open spec fn feed_byte(state: (Seq<Seq<u8>>, Seq<u8>), b: u8) -> (Seq<Seq<u8>>, Seq<u8>) {
    if is_terminator(b) {
        (state.0.push(state.1), Seq::<u8>::empty())
    } else {
        (state.0, state.1.push(b))
    }
}

/// Feeds every byte of one chunk, in order.
pub open spec fn feed_chunk(state: (Seq<Seq<u8>>, Seq<u8>), chunk: Seq<u8>) -> (
    Seq<Seq<u8>>,
    Seq<u8>,
)
    decreases chunk.len(),
{
    if chunk.len() == 0 {
        state
    } else {
        feed_chunk(feed_byte(state, chunk[0]), chunk.drop_first())
    }
}

/// Feeds a whole list of chunks, in order.
pub open spec fn feed_chunks(state: (Seq<Seq<u8>>, Seq<u8>), chunks: Seq<Seq<u8>>) -> (
    Seq<Seq<u8>>,
    Seq<u8>,
)
    decreases chunks.len(),
{
    if chunks.len() == 0 {
        state
    } else {
        feed_chunks(feed_chunk(state, chunks[0]), chunks.drop_first())
    }
}

/// Feeding one chunk on top of an already-consumed stream lands in the state
/// of the concatenated stream.
pub proof fn lemma_feed_chunk(consumed: Seq<u8>, chunk: Seq<u8>)
    ensures
        feed_chunk((stream_lines(consumed), stream_tail(consumed)), chunk) == (
            stream_lines(consumed + chunk),
            stream_tail(consumed + chunk),
        ),
    decreases chunk.len(),
{
    if chunk.len() == 0 {
        assert(consumed + chunk =~= consumed);
    } else {
        let b = chunk[0];
        let grown = consumed.push(b);
        assert(grown.drop_last() =~= consumed);
        assert(feed_byte((stream_lines(consumed), stream_tail(consumed)), b) == (
            stream_lines(grown),
            stream_tail(grown),
        ));
        lemma_feed_chunk(grown, chunk.drop_first());
        assert(grown + chunk.drop_first() =~= consumed + chunk);
    }
}

/// Feeding a list of chunks on top of an already-consumed stream lands in
/// the state of the stream extended by their concatenation.
pub proof fn lemma_feed_chunks(consumed: Seq<u8>, chunks: Seq<Seq<u8>>)
    ensures
        feed_chunks((stream_lines(consumed), stream_tail(consumed)), chunks) == (
            stream_lines(consumed + chunks.flatten()),
            stream_tail(consumed + chunks.flatten()),
        ),
    decreases chunks.len(),
{
    if chunks.len() == 0 {
        assert(consumed + chunks.flatten() =~= consumed);
    } else {
        lemma_feed_chunk(consumed, chunks[0]);
        lemma_feed_chunks(consumed + chunks[0], chunks.drop_first());
        assert(chunks.flatten() == chunks[0] + chunks.drop_first().flatten());
        assert((consumed + chunks[0]) + chunks.drop_first().flatten() =~= consumed
            + chunks.flatten());
    }
}

/// Chunking invariance: however a byte stream is cut into chunks, feeding
/// the chunks one by one emits exactly the terminated lines of the whole
/// stream and buffers exactly its unterminated tail — so two chunkings of
/// the same stream assemble to the same lines.
pub proof fn lemma_lines_chunk_invariant(chunks: Seq<Seq<u8>>, other: Seq<Seq<u8>>)
    requires
        chunks.flatten() == other.flatten(),
    ensures
        feed_chunks((Seq::<Seq<u8>>::empty(), Seq::<u8>::empty()), chunks) == (
            stream_lines(chunks.flatten()),
            stream_tail(chunks.flatten()),
        ),
        feed_chunks((Seq::<Seq<u8>>::empty(), Seq::<u8>::empty()), chunks) == feed_chunks(
            (Seq::<Seq<u8>>::empty(), Seq::<u8>::empty()),
            other,
        ),
{
    let none = Seq::<u8>::empty();
    lemma_feed_chunks(none, chunks);
    lemma_feed_chunks(none, other);
    assert(none + chunks.flatten() =~= chunks.flatten());
    assert(none + other.flatten() =~= other.flatten());
}

} // verus!
