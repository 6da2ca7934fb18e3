//! The chunked transport input both decoders consume.
//!
//! The transport hands over an ordered sequence of byte chunks whose
//! boundaries carry no meaning. Specifications therefore speak of the
//! concatenation of the chunks: the byte stream itself.

use vstd::prelude::*;

verus! {

/// The bytes of a chunk sequence, in arrival order.
pub open spec fn concat_chunks(chunks: Seq<Seq<u8>>) -> Seq<u8>
    decreases chunks.len(),
{
    if chunks.len() == 0 {
        Seq::empty()
    } else {
        chunks[0] + concat_chunks(chunks.skip(1))
    }
}

/// Taking one more chunk extends the concatenation by exactly that chunk.
pub proof fn lemma_concat_take_succ(chunks: Seq<Seq<u8>>, i: int)
    requires
        0 <= i < chunks.len(),
    ensures
        concat_chunks(chunks.take(i + 1)) == concat_chunks(chunks.take(i)) + chunks[i],
    decreases i,
{
    if i == 0 {
        assert(chunks.take(1)[0] == chunks[0]);
        assert(chunks.take(1).skip(1) =~= Seq::<Seq<u8>>::empty());
        assert(concat_chunks(chunks.take(1)) == chunks[0] + concat_chunks(
            Seq::<Seq<u8>>::empty(),
        ));
        assert(chunks[0] + Seq::<u8>::empty() =~= chunks[0]);
        assert(chunks.take(0) =~= Seq::<Seq<u8>>::empty());
        assert(Seq::<u8>::empty() + chunks[0] =~= chunks[0]);
    } else {
        lemma_concat_take_succ(chunks.skip(1), i - 1);
        assert(chunks.take(i + 1).skip(1) =~= chunks.skip(1).take(i));
        assert(chunks.take(i).skip(1) =~= chunks.skip(1).take(i - 1));
        assert(chunks.take(i + 1)[0] == chunks[0]);
        assert(chunks.take(i)[0] == chunks[0]);
        assert(chunks.skip(1)[i - 1] == chunks[i]);
        assert(chunks[0] + (concat_chunks(chunks.skip(1).take(i - 1)) + chunks[i]) =~= (chunks[0]
            + concat_chunks(chunks.skip(1).take(i - 1))) + chunks[i]);
    }
}

} // verus!
