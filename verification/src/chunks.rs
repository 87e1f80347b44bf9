//! The chunked-transfer model.
//!
//! A streamed response body arrives as a finite sequence of byte chunks,
//! written sequentially into the destination file. The writer side of
//! that transfer is modelled and verified here: a writer that appends
//! chunks in order ends up holding exactly the flattening of the chunks,
//! so a body delivered in any chunking is written out byte-identical.

use vstd::prelude::*;

verus! {

/// The bytes of a sequence of chunks, in order.
pub open spec fn flatten_chunks(chunks: Seq<Seq<u8>>) -> Seq<u8>
    decreases chunks.len(),
{
    if chunks.len() == 0 {
        Seq::empty()
    } else {
        flatten_chunks(chunks.drop_last()) + chunks.last()
    }
}

/// A consumer of a streamed body: chunks go in sequentially, the written
/// bytes come out. Models the buffered writer of the download operation.
pub struct ChunkWriter {
    pub data: Vec<u8>,
}

impl ChunkWriter {
    /// A writer that has written nothing.
    pub fn new() -> (w: Self)
        ensures
            w.data@ == Seq::<u8>::empty(),
    {
        let w = ChunkWriter { data: Vec::new() };
        proof {
            assert(w.data@ =~= Seq::<u8>::empty());
        }
        w
    }

    /// Appends one chunk to what has been written.
    pub fn write_chunk(&mut self, chunk: &Vec<u8>)
        ensures
            final(self).data@ == old(self).data@ + chunk@,
    {
        let mut i: usize = 0;
        while i < chunk.len()
            invariant
                i <= chunk@.len(),
                self.data@ == old(self).data@ + chunk@.take(i as int),
            decreases chunk@.len() - i,
        {
            self.data.push(chunk[i]);
            proof {
                assert(self.data@ =~= old(self).data@ + chunk@.take(i + 1));
            }
            i = i + 1;
        }
        proof {
            assert(chunk@.take(chunk@.len() as int) =~= chunk@);
        }
    }

    /// Hands the written bytes out.
    pub fn into_bytes(self) -> (r: Vec<u8>)
        ensures
            r@ == self.data@,
    {
        self.data
    }
}

/// Writes a whole sequence of chunks in order: the writer ends holding
/// what it held before, followed by the flattening of the chunks. A body
/// split into chunks by the transfer is therefore reassembled exactly.
pub fn write_all_chunks(w: &mut ChunkWriter, chunks: &Vec<Vec<u8>>)
    ensures
        final(w).data@ == old(w).data@ + flatten_chunks(chunks.deep_view()),
{
    let mut i: usize = 0;
    proof {
        assert(chunks.deep_view().take(0) =~= Seq::<Seq<u8>>::empty());
        assert(old(w).data@ + flatten_chunks(chunks.deep_view().take(0)) =~= old(w).data@);
    }
    while i < chunks.len()
        invariant
            i <= chunks@.len(),
            chunks.deep_view().len() == chunks@.len(),
            w.data@ == old(w).data@ + flatten_chunks(chunks.deep_view().take(i as int)),
        decreases chunks@.len() - i,
    {
        let ghost prefix = chunks.deep_view().take(i as int);
        let ghost next = chunks.deep_view().take(i + 1);
        w.write_chunk(&chunks[i]);
        proof {
            assert(next.drop_last() =~= prefix);
            assert(next.last() == chunks@[i as int]@);
            assert(w.data@ =~= old(w).data@ + flatten_chunks(next));
        }
        i = i + 1;
    }
    proof {
        assert(chunks.deep_view().take(chunks.deep_view().len() as int) =~= chunks.deep_view());
    }
}

} // verus!
