//! The protocol at the grain at which the two ends really run.
//!
//! In [`crate::protocol`] one operation is one step. Here every look at the
//! shared state and every change to it is a move of its own, and the moves of
//! the reader and of the writer may fall in any order. The moves of one end
//! are those of [`crate::pipe::Reader::poll_read`],
//! [`crate::pipe::Writer::poll_write`], `poll_close` and `release`, in the
//! order in which these functions make them, and they decide by the same
//! [`Entry`] and [`Recheck`].
//!
//! A task that was suspended runs again once its waker was woken; it may
//! also run again for no reason at all. [`World::holds`] is what stays true
//! under every schedule, and the lemmas below it say what follows.

use crate::buffer::after_drain;
use crate::buffer::after_fill;
use crate::buffer::transfer_len;
use crate::decision::Entry;
use crate::decision::Recheck;
use crate::protocol::Poll;
use crate::protocol::State;
use vstd::prelude::*;

verus! {

/// Where the reader stands.
pub enum ReaderAt {
    /// Between calls, and not waiting.
    Idle,
    /// In a read: found the queue empty, about to register its waker.
    Registering,
    /// In a read: registered, about to read the closed flag.
    ReadingFlag,
    /// In a read: read the flag as `closed`, about to look at the queue again.
    Rechecking { closed: bool },
    /// In a read: found bytes, about to clear its own slot.
    Clearing,
    /// In a read: about to take bytes from the queue.
    Taking,
    /// In a read: took bytes, about to fire the writer's slot.
    Waking,
    /// Between calls: its last read returned `Pending`.
    Suspended,
    /// Being released: set the closed flag, about to fire the writer's slot.
    Releasing,
    /// Released.
    Gone,
}

/// Where the writer stands.
pub enum WriterAt {
    /// Between calls, and not waiting.
    Idle,
    /// In a write: read the closed flag as `closed`, about to look at the
    /// queue.
    Looking { closed: bool },
    /// In a write: found the pipe open and full, about to register its waker.
    Registering,
    /// In a write: registered, about to look at the queue again.
    Rechecking,
    /// In a write: registered and found the queue full or not, about to read
    /// the closed flag.
    ReadingFlag { full: bool },
    /// In a write: found room, about to clear its own slot.
    Clearing,
    /// In a write: about to append bytes to the queue.
    Appending,
    /// In a write: appended bytes, about to fire the reader's slot.
    Waking,
    /// Between calls: its last write returned `Pending`.
    Suspended,
    /// In a close: set the closed flag, about to fire the reader's slot.
    ClosingReader,
    /// In a close: fired the reader's slot, about to fire its own.
    ClosingWriter,
    /// Being released: set the closed flag, about to fire the reader's slot.
    Releasing,
    /// Released.
    Gone,
}

/// One move of the reader.
pub enum ReaderMove {
    /// Starts a read into a destination of length `wanted` and looks at the
    /// queue.
    Begin { wanted: nat },
    /// Leaves the waker in the reader's slot.
    Register,
    /// Reads the closed flag.
    ReadFlag,
    /// Looks at the queue again and decides.
    Recheck,
    /// Empties the reader's slot.
    Clear,
    /// Takes bytes from the queue, under the lock.
    Take,
    /// Fires the writer's slot and completes the read.
    Wake,
    /// Starts the release: sets the closed flag.
    Release,
    /// Fires the writer's slot and is gone.
    ReleaseWake,
}

/// One move of the writer.
pub enum WriterMove {
    /// Starts a write of `offered` and reads the closed flag.
    Begin { offered: Seq<u8> },
    /// Looks at the queue and decides.
    Look,
    /// Leaves the waker in the writer's slot.
    Register,
    /// Looks at the queue again.
    Recheck,
    /// Reads the closed flag and decides.
    ReadFlag,
    /// Empties the writer's slot.
    Clear,
    /// Appends bytes to the queue, under the lock.
    Append,
    /// Fires the reader's slot and completes the write.
    Wake,
    /// Starts a close: sets the closed flag.
    Close,
    /// In a close, fires the reader's slot.
    CloseWakeReader,
    /// In a close, fires the writer's slot and completes the close.
    CloseWakeWriter,
    /// Starts the release: sets the closed flag.
    Release,
    /// Fires the reader's slot and is gone.
    ReleaseWake,
}

/// One move of one end.
pub enum Move {
    Reader(ReaderMove),
    Writer(WriterMove),
}

/// The pipe and its two ends at one moment.
pub struct World {
    /// The shared state.
    pub shared: State,
    pub reader: ReaderAt,
    pub writer: WriterAt,
    /// The length of the destination of the reader's current or last read.
    pub wanted: nat,
    /// The source of the writer's current or last write.
    pub offered: Seq<u8>,
    /// What the reader's last finished read returned.
    pub read_result: Poll<nat>,
    /// What the writer's last finished write returned.
    pub write_result: Poll<nat>,
    /// Whether the reader's waker was woken since the reader last started a
    /// read.
    pub reader_woken: bool,
    /// Whether the writer's waker was woken since the writer last started a
    /// write.
    pub writer_woken: bool,
    /// Whether a read that asked for bytes has returned 0.
    pub ended: bool,
    /// All bytes that writes have appended, in order.
    pub accepted: Seq<u8>,
    /// All bytes that reads have taken, in order.
    pub delivered: Seq<u8>,
}

impl ReaderAt {
    /// The reader still holds its end.
    pub open spec fn alive(self) -> bool {
        !(self is Releasing || self is Gone)
    }

    /// The reader is between calls and may start one.
    pub open spec fn at_rest(self) -> bool {
        self is Idle || self is Suspended
    }

    /// The reader has changed the shared state and not yet fired the
    /// writer's slot for it.
    pub open spec fn owes_wake(self) -> bool {
        self is Waking || self is Releasing
    }

    /// The reader has registered and not yet decided.
    pub open spec fn registered(self) -> bool {
        self is ReadingFlag || self is Rechecking
    }
}

impl WriterAt {
    /// The writer is between calls and may start one.
    pub open spec fn at_rest(self) -> bool {
        self is Idle || self is Suspended
    }

    /// The writer is in a write, has found the pipe open, and has not yet
    /// appended.
    pub open spec fn may_append(self) -> bool {
        self == (WriterAt::Looking { closed: false }) || self is Registering || self is Rechecking
            || self is ReadingFlag || self is Clearing || self is Appending
    }

    /// The writer has changed the shared state and not yet fired the
    /// reader's slot for it.
    pub open spec fn owes_wake(self) -> bool {
        self is Waking || self is ClosingReader || self is Releasing
    }

    /// The writer has registered and not yet decided.
    pub open spec fn registered(self) -> bool {
        self is Rechecking || self is ReadingFlag
    }
}

impl World {
    /// A pipe that was just made, with both ends at rest.
    pub open spec fn fresh(capacity: nat) -> World {
        World {
            shared: State::fresh(capacity),
            reader: ReaderAt::Idle,
            writer: WriterAt::Idle,
            wanted: 0,
            offered: Seq::empty(),
            read_result: Poll::Ready(0),
            write_result: Poll::Ready(0),
            reader_woken: false,
            writer_woken: false,
            ended: false,
            accepted: Seq::empty(),
            delivered: Seq::empty(),
        }
    }

    /// The reader's slot is fired: a waker that is there is woken and
    /// leaves the slot.
    pub open spec fn fire_reader(self) -> World {
        World {
            shared: State { reader_slot: false, ..self.shared },
            reader_woken: self.reader_woken || self.shared.reader_slot,
            ..self
        }
    }

    /// The writer's slot is fired.
    pub open spec fn fire_writer(self) -> World {
        World {
            shared: State { writer_slot: false, ..self.shared },
            writer_woken: self.writer_woken || self.shared.writer_slot,
            ..self
        }
    }

    /// The closed flag is set.
    pub open spec fn shut(self) -> World {
        World { shared: State { closed: true, ..self.shared }, ..self }
    }

    /// Whether `m` is the reader's next move.
    pub open spec fn reader_may(self, m: ReaderMove) -> bool {
        match m {
            ReaderMove::Begin { .. } => self.reader.at_rest(),
            ReaderMove::Register => self.reader is Registering,
            ReaderMove::ReadFlag => self.reader is ReadingFlag,
            ReaderMove::Recheck => self.reader is Rechecking,
            ReaderMove::Clear => self.reader is Clearing,
            ReaderMove::Take => self.reader is Taking,
            ReaderMove::Wake => self.reader is Waking,
            ReaderMove::Release => self.reader.at_rest(),
            ReaderMove::ReleaseWake => self.reader is Releasing,
        }
    }

    /// Whether `m` is the writer's next move.
    pub open spec fn writer_may(self, m: WriterMove) -> bool {
        match m {
            WriterMove::Begin { .. } => self.writer.at_rest(),
            WriterMove::Look => self.writer is Looking,
            WriterMove::Register => self.writer is Registering,
            WriterMove::Recheck => self.writer is Rechecking,
            WriterMove::ReadFlag => self.writer is ReadingFlag,
            WriterMove::Clear => self.writer is Clearing,
            WriterMove::Append => self.writer is Appending,
            WriterMove::Wake => self.writer is Waking,
            WriterMove::Close => self.writer.at_rest(),
            WriterMove::CloseWakeReader => self.writer is ClosingReader,
            WriterMove::CloseWakeWriter => self.writer is ClosingWriter,
            WriterMove::Release => self.writer.at_rest(),
            WriterMove::ReleaseWake => self.writer is Releasing,
        }
    }

    /// The world after the reader's move `m`, which is its next.
    pub open spec fn reader_does(self, m: ReaderMove) -> World {
        match m {
            ReaderMove::Begin { wanted } => {
                let begun = World { wanted, reader_woken: false, ..self };
                match Entry::of_read(self.shared.queue.len(), wanted) {
                    Entry::Transfer => World { reader: ReaderAt::Clearing, ..begun },
                    Entry::Finish => World {
                        reader: ReaderAt::Idle,
                        read_result: Poll::Ready(0),
                        ..begun
                    },
                    Entry::Register => World { reader: ReaderAt::Registering, ..begun },
                }
            },
            ReaderMove::Register => World {
                shared: State { reader_slot: true, ..self.shared },
                reader: ReaderAt::ReadingFlag,
                ..self
            },
            ReaderMove::ReadFlag => World {
                reader: ReaderAt::Rechecking { closed: self.shared.closed },
                ..self
            },
            ReaderMove::Recheck => match Recheck::of_read(
                self.reader->closed,
                self.shared.queue.len(),
            ) {
                Recheck::Transfer => World { reader: ReaderAt::Clearing, ..self },
                Recheck::Finish => World {
                    reader: ReaderAt::Idle,
                    read_result: Poll::Ready(0),
                    ended: true,
                    ..self
                },
                Recheck::Suspend => World {
                    reader: ReaderAt::Suspended,
                    read_result: Poll::Pending,
                    ..self
                },
            },
            ReaderMove::Clear => World {
                shared: State { reader_slot: false, ..self.shared },
                reader: ReaderAt::Taking,
                ..self
            },
            ReaderMove::Take => {
                let n = transfer_len(self.shared.queue.len(), self.wanted);
                World {
                    shared: State { queue: after_drain(self.shared.queue, n), ..self.shared },
                    reader: ReaderAt::Waking,
                    read_result: Poll::Ready(n),
                    delivered: self.delivered + self.shared.queue.take(n as int),
                    ..self
                }
            },
            ReaderMove::Wake => World { reader: ReaderAt::Idle, ..self.fire_writer() },
            ReaderMove::Release => World { reader: ReaderAt::Releasing, ..self.shut() },
            ReaderMove::ReleaseWake => World { reader: ReaderAt::Gone, ..self.fire_writer() },
        }
    }

    /// The world after the writer's move `m`, which is its next.
    pub open spec fn writer_does(self, m: WriterMove) -> World {
        match m {
            WriterMove::Begin { offered } => World {
                offered,
                writer_woken: false,
                writer: WriterAt::Looking { closed: self.shared.closed },
                ..self
            },
            WriterMove::Look => match Entry::of_write(self.writer->closed, self.shared.is_full()) {
                Entry::Transfer => World { writer: WriterAt::Clearing, ..self },
                Entry::Finish => World {
                    writer: WriterAt::Idle,
                    write_result: Poll::Ready(0),
                    ..self
                },
                Entry::Register => World { writer: WriterAt::Registering, ..self },
            },
            WriterMove::Register => World {
                shared: State { writer_slot: true, ..self.shared },
                writer: WriterAt::Rechecking,
                ..self
            },
            WriterMove::Recheck => World {
                writer: WriterAt::ReadingFlag { full: self.shared.is_full() },
                ..self
            },
            WriterMove::ReadFlag => match Recheck::of_write(
                self.writer->full,
                self.shared.closed,
            ) {
                Recheck::Transfer => World { writer: WriterAt::Clearing, ..self },
                Recheck::Finish => World {
                    writer: WriterAt::Idle,
                    write_result: Poll::Ready(0),
                    ..self
                },
                Recheck::Suspend => World {
                    writer: WriterAt::Suspended,
                    write_result: Poll::Pending,
                    ..self
                },
            },
            WriterMove::Clear => World {
                shared: State { writer_slot: false, ..self.shared },
                writer: WriterAt::Appending,
                ..self
            },
            WriterMove::Append => {
                let n = transfer_len(self.offered.len(), self.shared.room());
                World {
                    shared: State {
                        queue: after_fill(self.shared.queue, self.offered, n),
                        ..self.shared
                    },
                    writer: WriterAt::Waking,
                    write_result: Poll::Ready(n),
                    accepted: self.accepted + self.offered.take(n as int),
                    ..self
                }
            },
            WriterMove::Wake => World { writer: WriterAt::Idle, ..self.fire_reader() },
            WriterMove::Close => World { writer: WriterAt::ClosingReader, ..self.shut() },
            WriterMove::CloseWakeReader => World {
                writer: WriterAt::ClosingWriter,
                ..self.fire_reader()
            },
            WriterMove::CloseWakeWriter => World { writer: WriterAt::Idle, ..self.fire_writer() },
            WriterMove::Release => World { writer: WriterAt::Releasing, ..self.shut() },
            WriterMove::ReleaseWake => World { writer: WriterAt::Gone, ..self.fire_reader() },
        }
    }

    /// The world after the reader's move `m`. A move that is not the
    /// reader's next changes nothing.
    pub open spec fn reader_moves(self, m: ReaderMove) -> World {
        if self.reader_may(m) {
            self.reader_does(m)
        } else {
            self
        }
    }

    /// The world after the writer's move `m`. A move that is not the
    /// writer's next changes nothing.
    pub open spec fn writer_moves(self, m: WriterMove) -> World {
        if self.writer_may(m) {
            self.writer_does(m)
        } else {
            self
        }
    }

    /// The world after the move `m`.
    pub open spec fn advance(self, m: Move) -> World {
        match m {
            Move::Reader(r) => self.reader_moves(r),
            Move::Writer(w) => self.writer_moves(w),
        }
    }

    /// The world after the moves `moves`, one after the other.
    pub open spec fn play(self, moves: Seq<Move>) -> World
        decreases moves.len(),
    {
        if moves.len() == 0 {
            self
        } else {
            self.play(moves.drop_last()).advance(moves.last())
        }
    }

    /// The world after a whole read into a destination of length `wanted`,
    /// with no move of the writer in between.
    pub open spec fn read_alone(self, wanted: nat) -> World {
        let begun = self.reader_moves(ReaderMove::Begin { wanted });
        let settled = if begun.reader is Registering {
            begun.reader_moves(ReaderMove::Register).reader_moves(
                ReaderMove::ReadFlag,
            ).reader_moves(ReaderMove::Recheck)
        } else {
            begun
        };
        if settled.reader is Clearing {
            settled.reader_moves(ReaderMove::Clear).reader_moves(ReaderMove::Take).reader_moves(
                ReaderMove::Wake,
            )
        } else {
            settled
        }
    }

    /// The world after a whole write of `offered`, with no move of the
    /// reader in between.
    pub open spec fn write_alone(self, offered: Seq<u8>) -> World {
        let looked = self.writer_moves(WriterMove::Begin { offered }).writer_moves(
            WriterMove::Look,
        );
        let settled = if looked.writer is Registering {
            looked.writer_moves(WriterMove::Register).writer_moves(
                WriterMove::Recheck,
            ).writer_moves(WriterMove::ReadFlag)
        } else {
            looked
        };
        if settled.writer is Clearing {
            settled.writer_moves(WriterMove::Clear).writer_moves(
                WriterMove::Append,
            ).writer_moves(WriterMove::Wake)
        } else {
            settled
        }
    }

    /// The world after a whole close, with no move of the reader in between.
    pub open spec fn close_alone(self) -> World {
        self.writer_moves(WriterMove::Close).writer_moves(
            WriterMove::CloseWakeReader,
        ).writer_moves(WriterMove::CloseWakeWriter)
    }

    /// The world after the reader was released, with no move of the writer
    /// in between.
    pub open spec fn release_reader_alone(self) -> World {
        self.reader_moves(ReaderMove::Release).reader_moves(ReaderMove::ReleaseWake)
    }

    /// The world after the writer was released, with no move of the reader
    /// in between.
    pub open spec fn release_writer_alone(self) -> World {
        self.writer_moves(WriterMove::Release).writer_moves(WriterMove::ReleaseWake)
    }

    /// The reader waits and nothing has woken it.
    pub open spec fn reader_asleep(self) -> bool {
        self.reader is Suspended && !self.reader_woken
    }

    /// The writer waits and nothing has woken it.
    pub open spec fn writer_asleep(self) -> bool {
        self.writer is Suspended && !self.writer_woken
    }

    /// The queue is within its bound, and no byte was made up, lost,
    /// repeated or moved out of order: what was taken out, followed by what
    /// is queued, is what was put in.
    pub open spec fn conserves(self) -> bool {
        &&& self.shared.wf()
        &&& self.delivered + self.shared.queue == self.accepted
    }

    /// No wakeup of the reader is lost.
    pub open spec fn reader_is_woken(self) -> bool {
        // A reader that has registered is still in its slot or was woken.
        &&& self.reader.registered() || self.reader is Suspended ==> self.shared.reader_slot
            || self.reader_woken
        // A reader that saw the flag set has seen right; one that saw it
        // clear and is not woken has missed nothing but what the writer is
        // about to wake it for.
        &&& self.reader == (ReaderAt::Rechecking { closed: true }) ==> self.shared.closed
        &&& self.reader == (ReaderAt::Rechecking { closed: false }) && self.shared.closed
            ==> self.reader_woken || self.writer.owes_wake()
        // A reader that sleeps while there is something for it to find is
        // about to be woken.
        &&& self.reader_asleep() && (!self.shared.is_empty() || self.shared.closed)
            ==> self.writer.owes_wake()
    }

    /// No wakeup of the writer is lost.
    pub open spec fn writer_is_woken(self) -> bool {
        // A writer that has registered is still in its slot or was woken.
        &&& self.writer.registered() || self.writer is Suspended ==> self.shared.writer_slot
            || self.writer_woken
        // A writer that found the queue full and is not woken has missed no
        // room but what the reader is about to wake it for.
        &&& self.writer == (WriterAt::ReadingFlag { full: true }) && !self.shared.is_full()
            ==> self.writer_woken || self.reader.owes_wake()
        // A writer that sleeps while there is something for it to find is
        // about to be woken.
        &&& self.writer_asleep() && (!self.shared.is_full() || self.shared.closed)
            ==> self.reader.owes_wake()
    }

    /// The end of the stream is for good.
    pub open spec fn end_is_final(self) -> bool {
        // While the reader holds its end, a closed pipe takes no more bytes.
        &&& self.shared.closed && self.reader.alive() ==> !self.writer.may_append()
        // The end of the stream is reported only of a pipe that is closed
        // and empty, and that will take no more bytes.
        &&& self.ended ==> self.shared.closed && self.shared.is_empty()
            && !self.writer.may_append()
    }

    /// A transfer finds what its end has seen. Only the reader takes bytes
    /// out, so bytes that it has seen are still there when it takes them;
    /// only the writer puts bytes in, so room that it has seen is still
    /// there when it appends.
    pub open spec fn transfers_find(self) -> bool {
        &&& self.reader is Clearing || self.reader is Taking ==> !self.shared.is_empty()
        &&& self.reader is Waking && self.wanted > 0 ==> self.read_result is Ready
            && self.read_result->Ready_0 > 0
        &&& self.writer is Clearing || self.writer is Appending || self.writer == (
            WriterAt::ReadingFlag { full: false }
        ) ==> !self.shared.is_full()
        &&& self.writer is Waking && self.offered.len() > 0 ==> self.write_result is Ready
            && self.write_result->Ready_0 > 0
    }

    /// A result of 0 means what it is meant to. Between calls, a reader whose
    /// last read asked for bytes and got none has been told the end of the
    /// stream, and a writer whose last write offered bytes and saw none
    /// taken is on a closed pipe.
    pub open spec fn zero_is_telling(self) -> bool {
        &&& self.writer == (WriterAt::Looking { closed: true }) || self.writer is ClosingReader
            || self.writer is ClosingWriter || self.writer is Releasing || self.writer is Gone
            ==> self.shared.closed
        &&& self.reader is Idle && self.read_result == Poll::Ready(0nat) && self.wanted > 0
            ==> self.ended
        &&& self.writer is Idle && self.write_result == Poll::Ready(0nat) && self.offered.len() > 0
            ==> self.shared.closed
    }

    /// What is true of the pipe at every moment, whatever the order of the
    /// moves.
    pub open spec fn holds(self) -> bool {
        &&& self.conserves()
        &&& self.reader_is_woken()
        &&& self.writer_is_woken()
        &&& self.end_is_final()
        &&& self.transfers_find()
        &&& self.zero_is_telling()
    }
}

/// A pipe that was just made is in order.
pub proof fn lemma_fresh_holds(capacity: nat)
    ensures
        World::fresh(capacity).holds(),
{
    let w = World::fresh(capacity);
    assert(w.delivered + w.shared.queue =~= w.accepted);
}

/// No move changes the capacity, opens a closed pipe, takes back the end of
/// the stream, or takes back a byte that has passed.
pub proof fn lemma_move_is_forward(w: World, m: Move)
    ensures
        w.advance(m).shared.capacity == w.shared.capacity,
        w.shared.closed ==> w.advance(m).shared.closed,
        w.ended ==> w.advance(m).ended,
        w.accepted.is_prefix_of(w.advance(m).accepted),
        w.delivered.is_prefix_of(w.advance(m).delivered),
{
    let next = w.advance(m);
    assert(w.accepted =~= next.accepted.take(w.accepted.len() as int));
    assert(w.delivered =~= next.delivered.take(w.delivered.len() as int));
}

proof fn lemma_reader_conserves(w: World, m: ReaderMove)
    requires
        w.conserves(),
        w.reader_may(m),
    ensures
        w.reader_does(m).conserves(),
{
    if m is Take {
        let n = transfer_len(w.shared.queue.len(), w.wanted);
        let next = w.reader_does(m);
        assert(w.shared.queue =~= w.shared.queue.take(n as int) + w.shared.queue.skip(n as int));
        assert(next.delivered + next.shared.queue =~= w.delivered + w.shared.queue);
    }
}

proof fn lemma_writer_conserves(w: World, m: WriterMove)
    requires
        w.conserves(),
        w.writer_may(m),
    ensures
        w.writer_does(m).conserves(),
{
    if m is Append {
        let n = transfer_len(w.offered.len(), w.shared.room());
        let next = w.writer_does(m);
        assert(next.delivered + next.shared.queue =~= (w.delivered + w.shared.queue)
            + w.offered.take(n as int));
    }
}

proof fn lemma_reader_keeps_reader_woken(w: World, m: ReaderMove)
    requires
        w.reader_is_woken(),
        w.reader_may(m),
    ensures
        w.reader_does(m).reader_is_woken(),
{
}

proof fn lemma_writer_keeps_reader_woken(w: World, m: WriterMove)
    requires
        w.reader_is_woken(),
        w.writer_may(m),
    ensures
        w.writer_does(m).reader_is_woken(),
{
}

proof fn lemma_reader_keeps_writer_woken(w: World, m: ReaderMove)
    requires
        w.writer_is_woken(),
        w.reader_may(m),
    ensures
        w.reader_does(m).writer_is_woken(),
{
}

proof fn lemma_writer_keeps_writer_woken(w: World, m: WriterMove)
    requires
        w.writer_is_woken(),
        w.writer_may(m),
    ensures
        w.writer_does(m).writer_is_woken(),
{
}

proof fn lemma_reader_keeps_end(w: World, m: ReaderMove)
    requires
        w.end_is_final(),
        w.reader_is_woken(),
        w.reader_may(m),
    ensures
        w.reader_does(m).end_is_final(),
{
}

proof fn lemma_writer_keeps_end(w: World, m: WriterMove)
    requires
        w.end_is_final(),
        w.writer_may(m),
    ensures
        w.writer_does(m).end_is_final(),
{
}

proof fn lemma_reader_keeps_transfers(w: World, m: ReaderMove)
    requires
        w.transfers_find(),
        w.conserves(),
        w.reader_may(m),
    ensures
        w.reader_does(m).transfers_find(),
{
    if m is Take {
        let n = transfer_len(w.shared.queue.len(), w.wanted);
        assert(w.reader_does(m).shared.queue.len() == w.shared.queue.len() - n);
    }
}

proof fn lemma_writer_keeps_transfers(w: World, m: WriterMove)
    requires
        w.transfers_find(),
        w.conserves(),
        w.writer_may(m),
    ensures
        w.writer_does(m).transfers_find(),
{
    if m is Append {
        let n = transfer_len(w.offered.len(), w.shared.room());
        assert(w.offered.take(n as int).len() == n);
        assert(w.writer_does(m).shared.queue.len() == w.shared.queue.len() + n);
    }
}

proof fn lemma_reader_keeps_zero(w: World, m: ReaderMove)
    requires
        w.zero_is_telling(),
        w.transfers_find(),
        w.reader_may(m),
    ensures
        w.reader_does(m).zero_is_telling(),
{
}

proof fn lemma_writer_keeps_zero(w: World, m: WriterMove)
    requires
        w.zero_is_telling(),
        w.transfers_find(),
        w.writer_may(m),
    ensures
        w.writer_does(m).zero_is_telling(),
{
}

/// No move of either end, at any moment, puts the pipe out of order.
pub proof fn lemma_move_keeps(w: World, m: Move)
    requires
        w.holds(),
    ensures
        w.advance(m).holds(),
{
    match m {
        Move::Reader(r) => {
            if w.reader_may(r) {
                lemma_reader_conserves(w, r);
                lemma_reader_keeps_reader_woken(w, r);
                lemma_reader_keeps_writer_woken(w, r);
                lemma_reader_keeps_end(w, r);
                lemma_reader_keeps_transfers(w, r);
                lemma_reader_keeps_zero(w, r);
            }
        },
        Move::Writer(x) => {
            if w.writer_may(x) {
                lemma_writer_conserves(w, x);
                lemma_writer_keeps_reader_woken(w, x);
                lemma_writer_keeps_writer_woken(w, x);
                lemma_writer_keeps_end(w, x);
                lemma_writer_keeps_transfers(w, x);
                lemma_writer_keeps_zero(w, x);
            }
        },
    }
}

/// Under every schedule the pipe stays in order. In particular, however the
/// moves of reads and writes fall, what the reads have taken out is the front
/// of what the writes have put in.
pub proof fn lemma_always_holds(capacity: nat, moves: Seq<Move>)
    ensures
        World::fresh(capacity).play(moves).holds(),
        World::fresh(capacity).play(moves).shared.capacity == capacity,
    decreases moves.len(),
{
    if moves.len() == 0 {
        lemma_fresh_holds(capacity);
    } else {
        let before = World::fresh(capacity).play(moves.drop_last());
        lemma_always_holds(capacity, moves.drop_last());
        lemma_move_keeps(before, moves.last());
        lemma_move_is_forward(before, moves.last());
    }
}

/// Only the writer wakes the reader, and only by firing the reader's slot
/// at the end of a write that appended, in a close, or in its release. Only
/// the reader wakes the writer, at the end of a read that took bytes or in
/// its release; the writer's own close wakes it too.
pub proof fn lemma_who_wakes_whom(w: World, m: Move)
    ensures
        !w.reader_woken && w.advance(m).reader_woken ==> m == Move::Writer(WriterMove::Wake) || m
            == Move::Writer(WriterMove::CloseWakeReader) || m == Move::Writer(
            WriterMove::ReleaseWake,
        ),
        !w.writer_woken && w.advance(m).writer_woken ==> m == Move::Reader(ReaderMove::Wake) || m
            == Move::Reader(ReaderMove::ReleaseWake) || m == Move::Writer(
            WriterMove::CloseWakeWriter,
        ),
{
}

/// A reader that sleeps while the writer owes it no wakeup has nothing to
/// find: the pipe is open and empty.
pub proof fn lemma_sleeping_reader_misses_nothing(w: World)
    requires
        w.holds(),
        w.reader_asleep(),
        !w.writer.owes_wake(),
    ensures
        w.shared.is_empty(),
        !w.shared.closed,
{
}

/// A wakeup that the writer owes a sleeping reader arrives with the writer's
/// next move.
pub proof fn lemma_owed_wake_reaches_reader(w: World)
    requires
        w.holds(),
        w.reader_asleep(),
        w.writer.owes_wake(),
    ensures
        w.writer is Waking ==> w.writer_moves(WriterMove::Wake).reader_woken,
        w.writer is ClosingReader ==> w.writer_moves(WriterMove::CloseWakeReader).reader_woken,
        w.writer is Releasing ==> w.writer_moves(WriterMove::ReleaseWake).reader_woken,
{
}

/// A writer that sleeps while the reader owes it no wakeup has nothing to
/// find: the pipe is open and full.
pub proof fn lemma_sleeping_writer_misses_nothing(w: World)
    requires
        w.holds(),
        w.writer_asleep(),
        !w.reader.owes_wake(),
    ensures
        w.shared.is_full(),
        !w.shared.closed,
{
}

/// A wakeup that the reader owes a sleeping writer arrives with the reader's
/// next move.
pub proof fn lemma_owed_wake_reaches_writer(w: World)
    requires
        w.holds(),
        w.writer_asleep(),
        w.reader.owes_wake(),
    ensures
        w.reader is Waking ==> w.reader_moves(ReaderMove::Wake).writer_woken,
        w.reader is Releasing ==> w.reader_moves(ReaderMove::ReleaseWake).writer_woken,
{
}

/// A read that asked for bytes and returned 0 has reported the end of the
/// stream, and a write that offered bytes and returned 0 found the pipe
/// closed: an open pipe never answers 0 to an end that could have waited.
pub proof fn lemma_zero_is_telling(w: World)
    requires
        w.holds(),
    ensures
        w.reader is Idle && w.read_result == Poll::Ready(0nat) && w.wanted > 0 ==> w.ended,
        w.writer is Idle && w.write_result == Poll::Ready(0nat) && w.offered.len() > 0
            ==> w.shared.closed,
{
}

/// When the end of the stream was reported, the pipe is closed and empty and
/// every byte that was written has been read.
pub proof fn lemma_end_leaves_nothing(w: World)
    requires
        w.holds(),
        w.ended,
    ensures
        w.shared.closed,
        w.shared.is_empty(),
        w.delivered == w.accepted,
{
    assert(w.delivered + w.shared.queue =~= w.delivered);
}

/// Once the end of the stream was reported, no move brings another byte.
pub proof fn lemma_end_is_for_good(w: World, moves: Seq<Move>)
    requires
        w.holds(),
        w.ended,
    ensures
        w.play(moves).holds(),
        w.play(moves).ended,
        w.play(moves).accepted == w.accepted,
        w.play(moves).delivered == w.delivered,
    decreases moves.len(),
{
    if moves.len() > 0 {
        lemma_end_is_for_good(w, moves.drop_last());
        let before = w.play(moves.drop_last());
        let after = before.advance(moves.last());
        lemma_move_keeps(before, moves.last());
        lemma_move_is_forward(before, moves.last());
        lemma_end_leaves_nothing(before);
        lemma_end_leaves_nothing(after);
        lemma_end_takes_nothing(before, moves.last());
    }
}

proof fn lemma_end_takes_nothing(w: World, m: Move)
    requires
        w.holds(),
        w.ended,
    ensures
        w.advance(m).accepted == w.accepted,
{
}

/// A read that no move of the writer falls into is one step of the state
/// machine.
pub proof fn lemma_read_alone_is_one_step(w: World, dest: Seq<u8>)
    requires
        w.reader.at_rest(),
    ensures
        ({
            let after = w.read_alone(dest.len());
            let step = w.shared.read(dest);
            &&& after.shared == step.next
            &&& after.read_result == step.result
            &&& after.reader.at_rest()
            &&& after.reader is Suspended <==> step.result is Pending
            &&& after.writer_woken == (w.writer_woken || step.wakes_writer)
        }),
{
    let begun = w.reader_moves(ReaderMove::Begin { wanted: dest.len() });
    if begun.reader is Registering {
        let registered = begun.reader_moves(ReaderMove::Register);
        let flagged = registered.reader_moves(ReaderMove::ReadFlag);
        assert(flagged.reader == ReaderAt::Rechecking { closed: w.shared.closed });
        assert(flagged.shared == w.shared.with_reader_registered());
        let settled = flagged.reader_moves(ReaderMove::Recheck);
        assert(settled.reader.at_rest());
    } else if begun.reader is Clearing {
        let cleared = begun.reader_moves(ReaderMove::Clear);
        assert(cleared.reader is Taking);
        let taken = cleared.reader_moves(ReaderMove::Take);
        assert(taken.reader is Waking);
        let done = taken.reader_moves(ReaderMove::Wake);
        assert(done.shared == w.shared.take_bytes(dest).next);
    }
}

/// A write that no move of the reader falls into is one step of the state
/// machine.
pub proof fn lemma_write_alone_is_one_step(w: World, src: Seq<u8>)
    requires
        w.writer.at_rest(),
    ensures
        ({
            let after = w.write_alone(src);
            let step = w.shared.write(src);
            &&& after.shared == step.next
            &&& after.write_result == step.result
            &&& after.writer.at_rest()
            &&& after.writer is Suspended <==> step.result is Pending
            &&& after.reader_woken == (w.reader_woken || step.wakes_reader)
        }),
{
    let begun = w.writer_moves(WriterMove::Begin { offered: src });
    assert(begun.writer == WriterAt::Looking { closed: w.shared.closed });
    let looked = begun.writer_moves(WriterMove::Look);
    if looked.writer is Registering {
        let registered = looked.writer_moves(WriterMove::Register);
        let rechecked = registered.writer_moves(WriterMove::Recheck);
        assert(rechecked.writer == WriterAt::ReadingFlag { full: true });
        assert(rechecked.shared == w.shared.with_writer_registered());
        let settled = rechecked.writer_moves(WriterMove::ReadFlag);
        assert(settled.writer.at_rest());
    } else if looked.writer is Clearing {
        let cleared = looked.writer_moves(WriterMove::Clear);
        assert(cleared.writer is Appending);
        let appended = cleared.writer_moves(WriterMove::Append);
        assert(appended.writer is Waking);
        let done = appended.writer_moves(WriterMove::Wake);
        assert(done.shared == w.shared.put_bytes(src).next);
    }
}

/// A close, and the release of either end, that no move of the other end
/// falls into is one step of the state machine.
pub proof fn lemma_close_alone_is_one_step(w: World)
    ensures
        w.writer.at_rest() ==> w.close_alone().shared == w.shared.close().next,
        w.writer.at_rest() ==> w.release_writer_alone().shared == w.shared.release_writer().next,
        w.reader.at_rest() ==> w.release_reader_alone().shared == w.shared.release_reader().next,
{
    if w.writer.at_rest() {
        let shut = w.writer_moves(WriterMove::Close);
        let first = shut.writer_moves(WriterMove::CloseWakeReader);
        assert(first.writer is ClosingWriter);
        let released = w.writer_moves(WriterMove::Release);
        assert(released.writer is Releasing);
    }
    if w.reader.at_rest() {
        let released = w.reader_moves(ReaderMove::Release);
        assert(released.reader is Releasing);
    }
}

} // verus!
