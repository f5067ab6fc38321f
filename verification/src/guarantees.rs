//! What the protocol guarantees, proved of the state machine in
//! [`crate::protocol`].

use crate::buffer::transfer_len;
use crate::protocol::run;
use crate::protocol::Op;
use crate::protocol::Poll;
use crate::protocol::State;
use vstd::prelude::*;

verus! {

/// Every operation keeps the queue within the capacity, and keeps the
/// capacity itself.
pub proof fn lemma_step_keeps_bound(s: State, op: Op)
    requires
        s.wf(),
    ensures
        s.apply(op).next.wf(),
        s.apply(op).next.capacity == s.capacity,
{
}

/// No operation opens a closed pipe.
pub proof fn lemma_step_keeps_closed(s: State, op: Op)
    requires
        s.closed,
    ensures
        s.apply(op).next.closed,
{
}

/// Each slot holds a waker only if the side it belongs to has registered
/// one: an operation that fires a slot leaves it empty, and only a read sets
/// the reader's slot, only a write the writer's.
pub proof fn lemma_slots_are_single(s: State, op: Op)
    ensures
        s.apply(op).wakes_reader ==> s.reader_slot && !s.apply(op).next.reader_slot,
        s.apply(op).wakes_writer ==> s.writer_slot && !s.apply(op).next.writer_slot,
        s.apply(op).next.reader_slot && !s.reader_slot ==> op is Read,
        s.apply(op).next.writer_slot && !s.writer_slot ==> op is Write,
{
}

/// Bytes written to a fresh pipe with room for them all come back from the
/// next read, in the order they were written, as far as the destination has
/// room. Left out is the read that asks for bytes when none were written: it
/// suspends.
pub proof fn lemma_write_then_read(capacity: nat, bytes: Seq<u8>, dest: Seq<u8>)
    requires
        capacity >= 1,
        bytes.len() <= capacity,
        bytes.len() > 0 || dest.len() == 0,
    ensures
        ({
            let written = State::fresh(capacity).write(bytes);
            let n = transfer_len(bytes.len(), dest.len());
            &&& written.result == Poll::Ready(bytes.len())
            &&& written.next.queue == bytes
            &&& written.next.read(dest).result == Poll::Ready(n)
            &&& written.next.read_into(dest).take(n as int) == bytes.take(n as int)
            &&& written.next.read_into(dest).skip(n as int) == dest.skip(n as int)
            &&& written.next.read(dest).next.queue == bytes.skip(n as int)
        }),
{
    let fresh = State::fresh(capacity);
    let written = fresh.write(bytes);
    let n = transfer_len(bytes.len(), dest.len());
    assert(bytes.take(bytes.len() as int) =~= bytes);
    assert(written.next.queue =~= bytes);
    assert(written.next.read_into(dest).take(n as int) =~= bytes.take(n as int));
    assert(written.next.read_into(dest).skip(n as int) =~= dest.skip(n as int));
}

/// Whatever operations are run on a fresh pipe, in whatever order: the queue
/// stays within the capacity, and the bytes handed out so far, followed by
/// those still queued, are exactly the bytes taken in so far. So no read
/// ever hands out a byte that was not written, nor one byte twice, nor bytes
/// out of order.
pub proof fn lemma_run_conserves(capacity: nat, ops: Seq<Op>)
    ensures
        ({
            let now = run(capacity, ops);
            &&& now.state.wf()
            &&& now.state.capacity == capacity
            &&& now.delivered + now.state.queue == now.accepted
            &&& now.delivered.is_prefix_of(now.accepted)
            &&& now.delivered.len() <= now.accepted.len()
        }),
    decreases ops.len(),
{
    let now = run(capacity, ops);
    if ops.len() == 0 {
        assert(now.delivered + now.state.queue =~= now.accepted);
    } else {
        let before = run(capacity, ops.drop_last());
        lemma_run_conserves(capacity, ops.drop_last());
        let op = ops.last();
        assert(now.delivered + now.state.queue =~= now.accepted) by {
            assert(before.delivered + before.state.queue == before.accepted);
            match op {
                Op::Read(dest) => {
                    let n = transfer_len(before.state.queue.len(), dest.len());
                    assert(before.state.queue =~= before.state.queue.take(n as int)
                        + before.state.queue.skip(n as int));
                    if before.state.is_empty() {
                        assert(now.state.queue =~= before.state.queue.skip(n as int));
                    }
                    assert(now.delivered + now.state.queue =~= before.delivered + (
                        before.state.queue.take(n as int) + before.state.queue.skip(n as int)
                    ));
                },
                Op::Write(src) => {
                    assert(now.delivered + now.state.queue =~= (before.delivered
                        + before.state.queue) + before.state.accepted_by(op));
                },
                _ => {
                    assert(before.state.accepted_by(op) =~= Seq::<u8>::empty());
                    assert(before.state.delivered_by(op) =~= Seq::<u8>::empty());
                },
            }
        }
    }
    assert(now.delivered =~= now.accepted.take(now.delivered.len() as int));
}

/// A pipe that is closed after some operations is closed after any more.
pub proof fn lemma_closed_for_good(capacity: nat, ops: Seq<Op>, more: Seq<Op>)
    requires
        run(capacity, ops).state.closed,
    ensures
        run(capacity, ops + more).state.closed,
    decreases more.len(),
{
    if more.len() == 0 {
        assert(ops + more =~= ops);
    } else {
        lemma_closed_for_good(capacity, ops, more.drop_last());
        assert((ops + more).drop_last() =~= ops + more.drop_last());
        assert((ops + more).last() == more.last());
        lemma_step_keeps_closed(run(capacity, ops + more.drop_last()).state, more.last());
    }
}

/// A read that asks for bytes from an empty, open pipe suspends: it moves
/// nothing and leaves its waker in the reader's slot.
pub proof fn lemma_read_suspends_when_empty(s: State, dest: Seq<u8>)
    requires
        s.is_empty(),
        !s.closed,
        dest.len() > 0,
    ensures
        s.read(dest).result == Poll::<nat>::Pending,
        s.read(dest).next == (State { reader_slot: true, ..s }),
        s.read_into(dest) == dest,
        !s.read(dest).wakes_writer,
{
    assert(s.read_into(dest) =~= dest);
}

/// A waiting reader is woken by exactly these operations: a write that finds
/// the pipe open and not full, a close, and the release of the writer.
pub proof fn lemma_reader_woken_by(s: State, op: Op)
    requires
        s.reader_slot,
    ensures
        s.apply(op).wakes_reader <==> match op {
            Op::Write(src) => !s.closed && !s.is_full(),
            Op::Close => true,
            Op::ReleaseWriter => true,
            _ => false,
        },
{
}

/// A reader that was suspended on an empty pipe and then woken by a write
/// that took `n > 0` bytes gets those bytes from its next read, as far as
/// its destination has room.
pub proof fn lemma_reader_resumes_with_data(s: State, src: Seq<u8>, dest: Seq<u8>)
    requires
        s.wf(),
        s.is_empty(),
        s.reader_slot,
        s.write(src).result is Ready,
        s.write(src).result->Ready_0 > 0,
    ensures
        ({
            let w = s.write(src);
            let n = w.result->Ready_0;
            let m = transfer_len(n, dest.len());
            &&& w.wakes_reader
            &&& w.next.queue == src.take(n as int)
            &&& w.next.read(dest).result == Poll::Ready(m)
            &&& w.next.read_into(dest).take(m as int) == src.take(m as int)
        }),
{
    let w = s.write(src);
    let n = w.result->Ready_0;
    let m = transfer_len(n, dest.len());
    assert(w.next.queue =~= src.take(n as int));
    assert(w.next.read_into(dest).take(m as int) =~= src.take(m as int));
}

/// A write to an open pipe that is full suspends: it takes nothing and
/// leaves its waker in the writer's slot.
pub proof fn lemma_write_suspends_when_full(s: State, src: Seq<u8>)
    requires
        s.is_full(),
        !s.closed,
    ensures
        s.write(src).result == Poll::<nat>::Pending,
        s.write(src).next == (State { writer_slot: true, ..s }),
        !s.write(src).wakes_reader,
{
}

/// A waiting writer is woken by exactly these operations: a read that finds
/// bytes in the pipe, a close, and the release of the reader.
pub proof fn lemma_writer_woken_by(s: State, op: Op)
    requires
        s.writer_slot,
    ensures
        s.apply(op).wakes_writer <==> match op {
            Op::Read(dest) => !s.is_empty(),
            Op::Close => true,
            Op::ReleaseReader => true,
            _ => false,
        },
{
}

/// A writer that was suspended on a full pipe and then woken by a read that
/// took `n > 0` bytes finds room for `n` bytes in its next write.
pub proof fn lemma_writer_resumes_with_room(s: State, dest: Seq<u8>, src: Seq<u8>)
    requires
        s.wf(),
        s.is_full(),
        !s.closed,
        s.writer_slot,
        s.read(dest).result is Ready,
        s.read(dest).result->Ready_0 > 0,
    ensures
        ({
            let r = s.read(dest);
            let n = r.result->Ready_0;
            &&& r.wakes_writer
            &&& r.next.write(src).result == Poll::Ready(transfer_len(src.len(), n))
        }),
{
}

/// A writer that is woken because the pipe was closed, by itself or by the
/// release of the reader, takes nothing in its next write and is not
/// suspended again.
pub proof fn lemma_writer_resumes_closed(s: State, src: Seq<u8>)
    requires
        s.writer_slot,
    ensures
        s.close().wakes_writer,
        s.release_reader().wakes_writer,
        s.close().next.write(src).result == Poll::Ready(0nat),
        s.release_reader().next.write(src).result == Poll::Ready(0nat),
{
}

/// A result of 0 means what it is meant to: a read that asks for bytes
/// returns 0 only from a pipe that is closed and empty, and a write that
/// offers bytes returns 0 only on a closed pipe.
pub proof fn lemma_zero_is_telling(s: State, dest: Seq<u8>, src: Seq<u8>)
    requires
        s.wf(),
        dest.len() > 0,
        src.len() > 0,
    ensures
        s.read(dest).result == Poll::Ready(0nat) <==> s.closed && s.is_empty(),
        s.write(src).result == Poll::Ready(0nat) <==> s.closed,
{
}

/// On a closed pipe every write completes at once with nothing taken and
/// nothing changed.
pub proof fn lemma_write_after_close(s: State, src: Seq<u8>)
    requires
        s.closed,
    ensures
        s.write(src).result == Poll::Ready(0nat),
        s.write(src).next == s,
        s.close().next.closed,
{
}

/// On a closed pipe no read suspends, and bytes that were queued before the
/// close still come out first: a read that asks for bytes returns 0 exactly
/// when the queue is empty, and otherwise takes bytes from its front.
pub proof fn lemma_read_after_close(s: State, dest: Seq<u8>)
    requires
        s.closed,
        dest.len() > 0,
    ensures
        s.close().next.queue == s.queue,
        s.read(dest).result is Ready,
        s.read(dest).result == Poll::Ready(0nat) <==> s.is_empty(),
        !s.is_empty() ==> {
            let n = transfer_len(s.queue.len(), dest.len());
            &&& n > 0
            &&& s.read(dest).result == Poll::Ready(n)
            &&& s.read_into(dest).take(n as int) == s.queue.take(n as int)
            &&& s.read(dest).next.queue == s.queue.skip(n as int)
        },
{
    let n = transfer_len(s.queue.len(), dest.len());
    assert(s.read_into(dest).take(n as int) =~= s.queue.take(n as int));
}

/// Releasing the writer while the reader waits wakes the reader. Its next
/// read is at the end of the stream if the queue is empty, and otherwise
/// takes what is queued.
pub proof fn lemma_release_writer_unblocks_reader(s: State, dest: Seq<u8>)
    requires
        s.reader_slot,
        dest.len() > 0,
    ensures
        ({
            let released = s.release_writer();
            let n = transfer_len(s.queue.len(), dest.len());
            &&& released.wakes_reader
            &&& released.next.closed
            &&& released.next.queue == s.queue
            &&& released.next.read(dest).result == Poll::Ready(n)
            &&& n == 0 <==> s.is_empty()
            &&& released.next.read_into(dest).take(n as int) == s.queue.take(n as int)
        }),
{
    let n = transfer_len(s.queue.len(), dest.len());
    assert(s.release_writer().next.read_into(dest).take(n as int) =~= s.queue.take(n as int));
}

} // verus!
