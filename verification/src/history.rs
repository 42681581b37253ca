//! What holds of every history of the shared buffer.
//!
//! The lock around the buffer makes each `append` and each `drain` one
//! indivisible step, so a run with any number of workers is one sequence of
//! such steps: the order in which the lock was taken. The laws below speak
//! of all such sequences. `append` and `drain` of the buffer take each step
//! as `buffer_after` describes it.

use vstd::prelude::*;
use vstd::seq_lib::lemma_multiset_commutative;
use crate::capture::Stream;

verus! {

/// One step on the shared buffer.
pub enum BufferOp {
    /// The worker of `source` appends `chunk`.
    Append { source: Stream, chunk: Seq<u8> },
    /// The display loop takes out all that is there.
    Drain,
}

/// A byte together with the stream it was read from.
pub struct TaggedByte {
    pub source: Stream,
    pub byte: u8,
}

/// What the buffer holds after `ops`, starting empty.
pub open spec fn buffer_after(ops: Seq<BufferOp>) -> Seq<u8>
    decreases ops.len(),
{
    if ops.len() == 0 {
        Seq::empty()
    } else {
        match ops.last() {
            BufferOp::Append { source, chunk } => buffer_after(ops.drop_last()) + chunk,
            BufferOp::Drain => Seq::empty(),
        }
    }
}

/// What all drains in `ops` returned, one result after the other.
pub open spec fn drained(ops: Seq<BufferOp>) -> Seq<u8>
    decreases ops.len(),
{
    if ops.len() == 0 {
        Seq::empty()
    } else {
        match ops.last() {
            BufferOp::Append { source, chunk } => drained(ops.drop_last()),
            BufferOp::Drain => drained(ops.drop_last()) + buffer_after(ops.drop_last()),
        }
    }
}

/// All chunks appended in `ops`, one after the other, whoever appended them.
pub open spec fn appended(ops: Seq<BufferOp>) -> Seq<u8>
    decreases ops.len(),
{
    if ops.len() == 0 {
        Seq::empty()
    } else {
        match ops.last() {
            BufferOp::Append { source, chunk } => appended(ops.drop_last()) + chunk,
            BufferOp::Drain => appended(ops.drop_last()),
        }
    }
}

/// The chunks that the worker of `stream` appended in `ops`, one after the
/// other: the bytes of that stream in the order in which they were read.
pub open spec fn appended_by(ops: Seq<BufferOp>, stream: Stream) -> Seq<u8>
    decreases ops.len(),
{
    if ops.len() == 0 {
        Seq::empty()
    } else {
        match ops.last() {
            BufferOp::Append { source, chunk } => if source == stream {
                appended_by(ops.drop_last(), stream) + chunk
            } else {
                appended_by(ops.drop_last(), stream)
            },
            BufferOp::Drain => appended_by(ops.drop_last(), stream),
        }
    }
}

/// Whether every append in `ops` comes from the worker of `stream`.
pub open spec fn only_from(ops: Seq<BufferOp>, stream: Stream) -> bool {
    forall|i: int|
        0 <= i < ops.len() ==> (#[trigger] ops[i] matches BufferOp::Append { source, chunk }
            ==> source == stream)
}

/// `chunk` with each byte marked as read from `source`.
pub open spec fn tag(source: Stream, chunk: Seq<u8>) -> Seq<TaggedByte> {
    Seq::new(chunk.len(), |i: int| TaggedByte { source, byte: chunk[i] })
}

/// All bytes appended in `ops` in the order in which the display loop gets
/// them, each marked with the stream it was read from.
pub open spec fn appended_tagged(ops: Seq<BufferOp>) -> Seq<TaggedByte>
    decreases ops.len(),
{
    if ops.len() == 0 {
        Seq::empty()
    } else {
        match ops.last() {
            BufferOp::Append { source, chunk } => appended_tagged(ops.drop_last()) + tag(
                source,
                chunk,
            ),
            BufferOp::Drain => appended_tagged(ops.drop_last()),
        }
    }
}

/// The bytes of `tagged` without their marks.
pub open spec fn untagged(tagged: Seq<TaggedByte>) -> Seq<u8> {
    Seq::new(tagged.len(), |i: int| tagged[i].byte)
}

/// The bytes of `tagged` that were read from `stream`, in the order in which
/// they stand in `tagged`.
pub open spec fn bytes_from(tagged: Seq<TaggedByte>, stream: Stream) -> Seq<u8>
    decreases tagged.len(),
{
    if tagged.len() == 0 {
        Seq::empty()
    } else if tagged.last().source == stream {
        bytes_from(tagged.drop_last(), stream).push(tagged.last().byte)
    } else {
        bytes_from(tagged.drop_last(), stream)
    }
}

proof fn lemma_bytes_from_concat(left: Seq<TaggedByte>, right: Seq<TaggedByte>, stream: Stream)
    ensures
        bytes_from(left + right, stream) == bytes_from(left, stream) + bytes_from(right, stream),
    decreases right.len(),
{
    if right.len() > 0 {
        assert((left + right).drop_last() =~= left + right.drop_last());
        lemma_bytes_from_concat(left, right.drop_last(), stream);
    }
}

proof fn lemma_bytes_from_tag(source: Stream, chunk: Seq<u8>, stream: Stream)
    ensures
        bytes_from(tag(source, chunk), stream) == if source == stream {
            chunk
        } else {
            Seq::empty()
        },
    decreases chunk.len(),
{
    if chunk.len() > 0 {
        assert(tag(source, chunk).drop_last() =~= tag(source, chunk.drop_last()));
        lemma_bytes_from_tag(source, chunk.drop_last(), stream);
    }
}

/// Nothing is lost and nothing comes twice: after any history, what the
/// drains returned, in call order, followed by what is still in the buffer
/// is what was appended, in the order of the appends. Right after a drain
/// the drains alone have returned all of it.
pub proof fn law_drains_return_what_was_appended(ops: Seq<BufferOp>)
    ensures
        drained(ops) + buffer_after(ops) == appended(ops),
        ops.len() > 0 && ops.last() is Drain ==> drained(ops) == appended(ops),
    decreases ops.len(),
{
    if ops.len() > 0 {
        law_drains_return_what_was_appended(ops.drop_last());
    }
}

/// With a single worker the display loop gets that worker's chunks joined
/// in order: what the drains returned, followed by what is still in the
/// buffer, is the concatenation of the worker's chunks. Right after a drain
/// the drains alone have returned all of it.
pub proof fn law_single_worker_output(ops: Seq<BufferOp>, stream: Stream)
    requires
        only_from(ops, stream),
    ensures
        drained(ops) + buffer_after(ops) == appended_by(ops, stream),
        ops.len() > 0 && ops.last() is Drain ==> drained(ops) == appended_by(ops, stream),
{
    law_drains_return_what_was_appended(ops);
    lemma_single_worker_appended(ops, stream);
}

proof fn lemma_single_worker_appended(ops: Seq<BufferOp>, stream: Stream)
    requires
        only_from(ops, stream),
    ensures
        appended(ops) == appended_by(ops, stream),
    decreases ops.len(),
{
    if ops.len() > 0 {
        let before = ops.drop_last();
        assert forall|i: int| 0 <= i < before.len() implies (#[trigger] before[i] matches BufferOp::Append {
            source,
            chunk,
        } ==> source == stream) by {}
        lemma_single_worker_appended(before, stream);
    }
}

/// With two workers whose appends interleave in any way, the bytes that the
/// display loop gets are the bytes of both streams together, each as often
/// as it was written, and the bytes of each stream come in the order in
/// which that stream produced them. Between the streams no order is
/// promised.
pub proof fn law_streams_keep_their_order(ops: Seq<BufferOp>)
    ensures
        drained(ops) + buffer_after(ops) == untagged(appended_tagged(ops)),
        bytes_from(appended_tagged(ops), Stream::Stdout) == appended_by(ops, Stream::Stdout),
        bytes_from(appended_tagged(ops), Stream::Stderr) == appended_by(ops, Stream::Stderr),
        (drained(ops) + buffer_after(ops)).to_multiset() == appended_by(
            ops,
            Stream::Stdout,
        ).to_multiset().add(appended_by(ops, Stream::Stderr).to_multiset()),
{
    law_drains_return_what_was_appended(ops);
    lemma_tagged_history(ops);
}

proof fn lemma_tagged_history(ops: Seq<BufferOp>)
    ensures
        appended(ops) == untagged(appended_tagged(ops)),
        bytes_from(appended_tagged(ops), Stream::Stdout) == appended_by(ops, Stream::Stdout),
        bytes_from(appended_tagged(ops), Stream::Stderr) == appended_by(ops, Stream::Stderr),
        appended(ops).to_multiset() == appended_by(ops, Stream::Stdout).to_multiset().add(
            appended_by(ops, Stream::Stderr).to_multiset(),
        ),
    decreases ops.len(),
{
    if ops.len() == 0 {
        let nothing = Seq::<u8>::empty();
        lemma_multiset_commutative(nothing, nothing);
    } else {
        let before = ops.drop_last();
        lemma_tagged_history(before);
        match ops.last() {
            BufferOp::Append { source, chunk } => {
                let marked = tag(source, chunk);
                lemma_bytes_from_concat(appended_tagged(before), marked, Stream::Stdout);
                lemma_bytes_from_concat(appended_tagged(before), marked, Stream::Stderr);
                lemma_bytes_from_tag(source, chunk, Stream::Stdout);
                lemma_bytes_from_tag(source, chunk, Stream::Stderr);
                let out = appended_by(before, Stream::Stdout);
                let err = appended_by(before, Stream::Stderr);
                lemma_multiset_commutative(appended(before), chunk);
                lemma_multiset_commutative(out, chunk);
                lemma_multiset_commutative(err, chunk);
            },
            BufferOp::Drain => {},
        }
    }
}

} // verus!
