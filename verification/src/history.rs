//! Histories of sink operations: what a run of appends and drains leaves in
//! the sink and what its drains hand out.

use crate::sink::after_drain;
use crate::sink::appended;
use crate::sink::drained;
use vstd::prelude::*;

verus! {

/// One operation on a sink.
pub enum SinkOp {
    /// An append of the given chunk.
    Append(Seq<u8>),
    /// A drain.
    Drain,
}

/// The history that appends `chunks` one after another.
pub open spec fn appends(chunks: Seq<Seq<u8>>) -> Seq<SinkOp> {
    Seq::new(chunks.len(), |i: int| SinkOp::Append(chunks[i]))
}

/// What a sink that held `start` holds after `ops`.
pub open spec fn contents_after(start: Seq<u8>, ops: Seq<SinkOp>) -> Seq<u8>
    decreases ops.len(),
{
    if ops.len() == 0 {
        start
    } else {
        let before = contents_after(start, ops.drop_last());
        match ops.last() {
            SinkOp::Append(chunk) => appended(before, chunk),
            SinkOp::Drain => after_drain(before),
        }
    }
}

/// What the drains among `ops` returned on a sink that held `start`: one
/// entry for each drain, in order.
pub open spec fn drain_results(start: Seq<u8>, ops: Seq<SinkOp>) -> Seq<Seq<u8>>
    decreases ops.len(),
{
    if ops.len() == 0 {
        Seq::empty()
    } else {
        let earlier = drain_results(start, ops.drop_last());
        match ops.last() {
            SinkOp::Append(_) => earlier,
            SinkOp::Drain => earlier.push(drained(contents_after(start, ops.drop_last()))),
        }
    }
}

/// The chunks that `ops` appended, in order.
pub open spec fn appended_chunks(ops: Seq<SinkOp>) -> Seq<Seq<u8>>
    decreases ops.len(),
{
    if ops.len() == 0 {
        Seq::empty()
    } else {
        let earlier = appended_chunks(ops.drop_last());
        match ops.last() {
            SinkOp::Append(chunk) => earlier.push(chunk),
            SinkOp::Drain => earlier,
        }
    }
}

/// The chunks that `ops` appended after its last drain, in order.
pub open spec fn pending_chunks(ops: Seq<SinkOp>) -> Seq<Seq<u8>>
    decreases ops.len(),
{
    if ops.len() == 0 {
        Seq::empty()
    } else {
        match ops.last() {
            SinkOp::Append(chunk) => pending_chunks(ops.drop_last()).push(chunk),
            SinkOp::Drain => Seq::empty(),
        }
    }
}

/// Nothing is lost and nothing is reordered: after any history, the bytes
/// that the drains returned, followed by the bytes still buffered, are the
/// bytes the sink started with followed by every appended chunk in order.
pub proof fn lemma_bytes_conserved(start: Seq<u8>, ops: Seq<SinkOp>)
    ensures
        drain_results(start, ops).flatten() + contents_after(start, ops) == start
            + appended_chunks(ops).flatten(),
    decreases ops.len(),
{
    let delivered = drain_results(start, ops).flatten();
    let buffered = contents_after(start, ops);
    let written = appended_chunks(ops).flatten();
    if ops.len() == 0 {
        assert(delivered + buffered =~= start + written);
    } else {
        let earlier = ops.drop_last();
        lemma_bytes_conserved(start, earlier);
        let before = contents_after(start, earlier);
        match ops.last() {
            SinkOp::Append(chunk) => {
                appended_chunks(earlier).lemma_flatten_push(chunk);
                assert(delivered + buffered =~= (drain_results(start, earlier).flatten() + before)
                    + chunk);
                assert(start + written =~= (start + appended_chunks(earlier).flatten()) + chunk);
            },
            SinkOp::Drain => {
                drain_results(start, earlier).lemma_flatten_push(before);
                assert(delivered + buffered =~= drain_results(start, earlier).flatten() + before);
            },
        }
    }
}

/// A history on an empty sink that ends in a drain has handed out, over all
/// its drains, exactly the appended bytes: the same count, the same bytes,
/// the same order.
pub proof fn lemma_drains_return_all_appended(ops: Seq<SinkOp>)
    requires
        ops.len() > 0,
        ops.last() == SinkOp::Drain,
    ensures
        drain_results(Seq::empty(), ops).flatten() == appended_chunks(ops).flatten(),
        drain_results(Seq::empty(), ops).flatten().len() == appended_chunks(ops).flatten().len(),
        contents_after(Seq::empty(), ops) == Seq::<u8>::empty(),
{
    lemma_bytes_conserved(Seq::empty(), ops);
    assert(drain_results(Seq::empty(), ops).flatten() =~= drain_results(
        Seq::empty(),
        ops,
    ).flatten() + contents_after(Seq::empty(), ops));
    assert(appended_chunks(ops).flatten() =~= Seq::<u8>::empty() + appended_chunks(
        ops,
    ).flatten());
}

/// Appends alone keep every chunk, in call order, behind what the sink held.
pub proof fn lemma_appends_accumulate(start: Seq<u8>, chunks: Seq<Seq<u8>>)
    ensures
        contents_after(start, appends(chunks)) == start + chunks.flatten(),
        drain_results(start, appends(chunks)) == Seq::<Seq<u8>>::empty(),
    decreases chunks.len(),
{
    let ops = appends(chunks);
    if chunks.len() == 0 {
        assert(contents_after(start, ops) =~= start + chunks.flatten());
    } else {
        let earlier = chunks.drop_last();
        lemma_appends_accumulate(start, earlier);
        assert(ops.drop_last() =~= appends(earlier));
        assert(ops.last() == SinkOp::Append(chunks.last()));
        earlier.lemma_flatten_push(chunks.last());
        assert(earlier.push(chunks.last()) =~= chunks);
        assert(contents_after(start, ops) =~= (start + earlier.flatten()) + chunks.last());
    }
}

/// A drain that follows a run of appends on an empty sink returns the chunks
/// joined in call order, and leaves the sink empty.
pub proof fn lemma_drain_returns_appends_in_order(chunks: Seq<Seq<u8>>)
    ensures
        drained(contents_after(Seq::empty(), appends(chunks))) == chunks.flatten(),
        drain_results(Seq::empty(), appends(chunks).push(SinkOp::Drain)) == seq![
            chunks.flatten(),
        ],
        contents_after(Seq::empty(), appends(chunks).push(SinkOp::Drain)) == Seq::<u8>::empty(),
{
    let ops = appends(chunks);
    let then_drain = ops.push(SinkOp::Drain);
    lemma_appends_accumulate(Seq::empty(), chunks);
    assert(contents_after(Seq::empty(), ops) =~= chunks.flatten());
    assert(then_drain.drop_last() =~= ops);
    assert(then_drain.last() == SinkOp::Drain);
    assert(drain_results(Seq::empty(), then_drain) =~= seq![chunks.flatten()]);
}

/// Of two drains in a row, the first returns something exactly when the sink
/// held something, and the second returns nothing.
pub proof fn lemma_second_drain_is_empty(contents: Seq<u8>)
    ensures
        drained(contents).len() > 0 <==> contents.len() > 0,
        drained(after_drain(contents)) == Seq::<u8>::empty(),
        after_drain(after_drain(contents)) == Seq::<u8>::empty(),
{
}

/// A sink never holds part of a chunk: after any history on an empty sink it
/// holds exactly the chunks appended since the last drain, each of them
/// whole. So a drain returns every chunk either whole or not at all.
pub proof fn lemma_sink_holds_whole_chunks(ops: Seq<SinkOp>)
    ensures
        contents_after(Seq::empty(), ops) == pending_chunks(ops).flatten(),
    decreases ops.len(),
{
    if ops.len() == 0 {
    } else {
        let earlier = ops.drop_last();
        lemma_sink_holds_whole_chunks(earlier);
        match ops.last() {
            SinkOp::Append(chunk) => {
                pending_chunks(earlier).lemma_flatten_push(chunk);
            },
            SinkOp::Drain => {},
        }
    }
}

} // verus!
