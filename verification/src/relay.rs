//! The streaming relay: forwarding a chunked response body.
//!
//! A streamed body is an ordered, finite sequence of byte chunks,
//! possibly cut short by a transport fault after the chunks that did
//! arrive.  Push mode writes every chunk to a caller-supplied sink as
//! it arrives; pull mode hands the caller a lazy, single-pass reader
//! driven at the caller's own pace.  Either way the bytes delivered are
//! exactly the concatenation of the chunks, in arrival order, and a
//! fault surfaces as a terminal error without retracting anything
//! already delivered.

use crate::error::{Error, ErrorModel};
use vstd::prelude::*;

verus! {

/// The concatenation of a sequence of chunks.
pub open spec fn concat_chunks(chunks: Seq<Seq<u8>>) -> Seq<u8>
    decreases chunks.len(),
{
    if chunks.len() == 0 {
        Seq::empty()
    } else {
        concat_chunks(chunks.drop_last()) + chunks.last()
    }
}

/// The total length of a sequence of chunks.
pub open spec fn total_len(chunks: Seq<Seq<u8>>) -> nat
    decreases chunks.len(),
{
    if chunks.len() == 0 {
        0
    } else {
        total_len(chunks.drop_last()) + chunks.last().len()
    }
}

/// The bytes a relay delivers are as many as the chunks held: the
/// concatenation of N chunks is exactly as long as their sizes sum.
pub proof fn lemma_concat_chunks_len(chunks: Seq<Seq<u8>>)
    ensures
        concat_chunks(chunks).len() == total_len(chunks),
    decreases chunks.len(),
{
    if chunks.len() > 0 {
        lemma_concat_chunks_len(chunks.drop_last());
    }
}

/// A streamed response body: the chunks that arrived, in order, and
/// the transport fault that cut the stream short, if one did.
#[derive(Debug, Clone, PartialEq)]
pub struct StreamedBody {
    pub chunks: Vec<Vec<u8>>,
    pub fault: Option<String>,
}

impl StreamedBody {
    /// The chunks as mathematical sequences.
    pub open spec fn chunk_seq(self) -> Seq<Seq<u8>> {
        self.chunks@.map_values(|c: Vec<u8>| c@)
    }

    /// Every byte the body delivers before it ends or faults.
    pub open spec fn spec_bytes(self) -> Seq<u8> {
        concat_chunks(self.chunk_seq())
    }
}

/// Anything accepting sequential byte writes: the consumer a push-mode
/// relay drives.
pub trait ChunkSink {
    /// Every byte written to the sink so far, in order.
    spec fn sunk(&self) -> Seq<u8>;

    /// Accepts one chunk, appending it to what was already written.
    fn write_chunk(&mut self, chunk: &Vec<u8>)
        ensures
            final(self).sunk() == old(self).sunk() + chunk@,
    ;
}

/// A sink gathering everything written to it in memory.
#[derive(Debug, Clone, PartialEq)]
pub struct ByteSink {
    pub data: Vec<u8>,
}

impl ByteSink {
    /// A sink holding nothing yet.
    pub fn new() -> (r: ByteSink)
        ensures
            r.data@ == Seq::<u8>::empty(),
    {
        ByteSink { data: Vec::new() }
    }
}

impl ChunkSink for ByteSink {
    open spec fn sunk(&self) -> Seq<u8> {
        self.data@
    }

    fn write_chunk(&mut self, chunk: &Vec<u8>) {
        crate::json::append_bytes(&mut self.data, chunk.as_slice());
    }
}

/// Push mode: writes every chunk of the body to the sink, in arrival
/// order, and returns only at end-of-stream or fault.  The sink
/// receives exactly the concatenation of the chunks; a fault surfaces
/// as a terminal transport error, after everything delivered stays
/// delivered.
pub fn relay_push<S: ChunkSink>(sink: &mut S, body: &StreamedBody) -> (r: Result<(), Error>)
    ensures
        final(sink).sunk() == old(sink).sunk() + body.spec_bytes(),
        final(sink).sunk().len() == old(sink).sunk().len() + total_len(body.chunk_seq()),
        body.fault is None ==> r is Ok,
        body.fault matches Some(m) ==> (r matches Err(e) && e@ == ErrorModel::TransportError(m@)),
{
    proof {
        lemma_concat_chunks_len(body.chunk_seq());
    }
    let n = body.chunks.len();
    let mut i: usize = 0;
    proof {
        assert(body.chunk_seq().take(0) =~= Seq::<Seq<u8>>::empty());
        assert(old(sink).sunk() + concat_chunks(body.chunk_seq().take(0)) =~= old(sink).sunk());
    }
    while i < n
        invariant
            n == body.chunks@.len(),
            0 <= i <= n,
            sink.sunk() == old(sink).sunk() + concat_chunks(body.chunk_seq().take(i as int)),
        decreases n - i,
    {
        sink.write_chunk(&body.chunks[i]);
        proof {
            let taken = body.chunk_seq().take(i as int);
            let taken1 = body.chunk_seq().take(i as int + 1);
            assert(taken1.drop_last() =~= taken);
            assert(taken1.last() == body.chunk_seq()[i as int]);
            assert(sink.sunk() =~= old(sink).sunk() + concat_chunks(taken1));
        }
        i = i + 1;
    }
    proof {
        assert(body.chunk_seq().take(n as int) =~= body.chunk_seq());
    }
    match &body.fault {
        Some(m) => Err(Error::TransportError(m.clone())),
        None => Ok(()),
    }
}

/// A pull-mode reader: a lazy, single-pass, finite sequence of chunks
/// the caller drives at its own pace.  It is not restartable: once the
/// underlying body is exhausted it yields nothing, forever.
#[derive(Debug, Clone, PartialEq)]
pub struct PullRelay {
    pub body: StreamedBody,
    pub pos: usize,
    pub finished: bool,
}

impl PullRelay {
    /// Positions stay within the body.
    pub open spec fn wf(self) -> bool {
        self.pos <= self.body.chunks@.len() && (self.finished ==> self.pos
            == self.body.chunks@.len())
    }

    /// Every byte the reader can still deliver.
    pub open spec fn remaining_bytes(self) -> Seq<u8> {
        if self.finished {
            Seq::empty()
        } else {
            concat_chunks(self.body.chunk_seq().skip(self.pos as int))
        }
    }

    /// Starts a pull-mode relay over a streamed body.
    pub fn start(body: StreamedBody) -> (r: PullRelay)
        ensures
            r.body == body,
            r.pos == 0,
            !r.finished,
            r.wf(),
    {
        PullRelay { body, pos: 0, finished: false }
    }

    /// The next chunk, driven by the caller: one chunk per call in
    /// arrival order, then the terminal fault if the body was cut
    /// short, then nothing, forever — the sequence cannot restart.
    pub fn next(&mut self) -> (r: Option<Result<Vec<u8>, Error>>)
        requires
            old(self).wf(),
        ensures
            final(self).wf(),
            final(self).body == old(self).body,
            old(self).pos < old(self).body.chunks@.len() ==> (final(self).pos == old(self).pos + 1
                && final(self).finished == old(self).finished && (r matches Some(Ok(c)) && c@
                == old(self).body.chunk_seq()[old(self).pos as int])),
            old(self).pos == old(self).body.chunks@.len() && !old(self).finished ==> (
            final(self).pos == old(self).pos && final(self).finished && (match old(
                self,
            ).body.fault {
                Some(m) => r matches Some(Err(e)) && e@ == ErrorModel::TransportError(m@),
                None => r is None,
            })),
            old(self).finished ==> (*final(self) == *old(self) && r is None),
    {
        if self.finished {
            return None;
        }
        if self.pos < self.body.chunks.len() {
            let chunk = duplicate_bytes(&self.body.chunks[self.pos]);
            self.pos = self.pos + 1;
            return Some(Ok(chunk));
        }
        self.finished = true;
        match &self.body.fault {
            Some(m) => Some(Err(Error::TransportError(m.clone()))),
            None => None,
        }
    }
}

/// An exact copy of a byte chunk.
fn duplicate_bytes(c: &Vec<u8>) -> (r: Vec<u8>)
    ensures
        r@ == c@,
{
    let mut out: Vec<u8> = Vec::new();
    crate::json::append_bytes(&mut out, c.as_slice());
    out
}

/// Drains a pull-mode reader into a sink: what the caller would pull,
/// chunk by chunk, is what a push-mode relay would have written.
pub fn drain_to_sink<S: ChunkSink>(reader: &mut PullRelay, sink: &mut S) -> (r: Result<(), Error>)
    requires
        old(reader).wf(),
    ensures
        final(reader).wf(),
        final(reader).finished,
        final(sink).sunk() == old(sink).sunk() + old(reader).remaining_bytes(),
        old(reader).finished || old(reader).body.fault is None ==> r is Ok,
        !old(reader).finished ==> (old(reader).body.fault matches Some(m) ==> (r matches Err(e)
            && e@ == ErrorModel::TransportError(m@))),
{
    if reader.finished {
        proof {
            assert(old(sink).sunk() + old(reader).remaining_bytes() =~= old(sink).sunk());
        }
        return Ok(());
    }
    let ghost chunks = reader.body.chunk_seq();
    let ghost start = reader.pos as int;
    let n = reader.body.chunks.len();
    proof {
        assert(chunks.skip(start).take(0) =~= Seq::<Seq<u8>>::empty());
        assert(old(sink).sunk() + concat_chunks(chunks.skip(start).take(0)) =~= old(sink).sunk());
    }
    while reader.pos < n
        invariant
            reader.wf(),
            !reader.finished,
            reader.body == old(reader).body,
            n == reader.body.chunks@.len(),
            chunks == reader.body.chunk_seq(),
            0 <= start <= reader.pos as int <= n,
            sink.sunk() == old(sink).sunk() + concat_chunks(
                chunks.skip(start).take(reader.pos - start),
            ),
        decreases n - reader.pos,
    {
        let ghost pos0 = reader.pos as int;
        let item = reader.next();
        match item {
            Some(Ok(chunk)) => {
                sink.write_chunk(&chunk);
                proof {
                    let m = pos0 - start;
                    let rest = chunks.skip(start);
                    assert(rest.len() == n - start);
                    let taken = rest.take(m);
                    let taken1 = rest.take(m + 1);
                    assert(taken1.drop_last() =~= taken);
                    assert(taken1.last() == rest[m]);
                    assert(rest[m] == chunks[pos0]);
                    assert(sink.sunk() =~= old(sink).sunk() + concat_chunks(taken1));
                }
            },
            _ => {
                proof {
                    assert(false);
                }
            },
        }
    }
    proof {
        assert(chunks.skip(start).take(n - start) =~= chunks.skip(start));
    }
    reader.next();
    match &reader.body.fault {
        Some(m) => Err(Error::TransportError(m.clone())),
        None => Ok(()),
    }
}

/// Pull mode reproduces push mode: over one and the same streamed body,
/// the bytes a freshly started pull-mode reader can ever deliver are
/// exactly the bytes a push-mode relay writes to its sink.
pub proof fn lemma_pull_matches_push(reader: PullRelay)
    requires
        reader.pos == 0,
        !reader.finished,
    ensures
        reader.remaining_bytes() == reader.body.spec_bytes(),
{
    assert(reader.body.chunk_seq().skip(0) =~= reader.body.chunk_seq());
}

} // verus!
