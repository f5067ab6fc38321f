use byte_pipe::pipe::pipe;
use byte_pipe::protocol::Poll;
use std::sync::atomic::AtomicUsize;
use std::sync::atomic::Ordering;
use std::sync::Arc;
use std::task::Wake;
use std::task::Waker;

struct Count(AtomicUsize);

impl Wake for Count {
    fn wake(self: Arc<Self>) {
        self.0.fetch_add(1, Ordering::SeqCst);
    }
}

fn counting_waker() -> (Arc<Count>, Waker) {
    let count = Arc::new(Count(AtomicUsize::new(0)));
    (count.clone(), Waker::from(count))
}

fn woken(count: &Arc<Count>) -> usize {
    count.0.load(Ordering::SeqCst)
}

#[test]
fn a_read_on_an_empty_pipe_waits_for_a_write() {
    let (reads, read_waker) = counting_waker();
    let (writes, write_waker) = counting_waker();
    let (mut reader, mut writer) = pipe(4);
    let mut buf = [0u8; 4];

    assert_eq!(reader.poll_read(&read_waker, &mut buf), Poll::Pending);
    assert_eq!(woken(&reads), 0);
    // looking at the pipe wakes nobody
    assert_eq!(reader.len(), 0);
    assert_eq!(writer.poll_flush(), Poll::Ready(()));
    assert_eq!(woken(&reads), 0);

    assert_eq!(writer.poll_write(&write_waker, &[1, 2]), Poll::Ready(2));
    assert_eq!(woken(&reads), 1);
    assert_eq!(woken(&writes), 0);

    assert_eq!(reader.poll_read(&read_waker, &mut buf), Poll::Ready(2));
    assert_eq!(&buf[..2], &[1, 2]);
    // the slot was emptied by the wakeup: a second write wakes nobody
    assert_eq!(writer.poll_write(&write_waker, &[3]), Poll::Ready(1));
    assert_eq!(woken(&reads), 1);
}

#[test]
fn a_read_on_an_empty_pipe_waits_for_a_close() {
    let (reads, read_waker) = counting_waker();
    let (mut reader, mut writer) = pipe(4);
    let mut buf = [0u8; 4];
    assert_eq!(reader.poll_read(&read_waker, &mut buf), Poll::Pending);
    assert_eq!(woken(&reads), 0);
    assert_eq!(writer.poll_close(), Poll::Ready(()));
    assert_eq!(woken(&reads), 1);
    assert_eq!(reader.poll_read(&read_waker, &mut buf), Poll::Ready(0));
}

#[test]
fn a_later_registration_replaces_an_earlier_one() {
    let (first, first_waker) = counting_waker();
    let (second, second_waker) = counting_waker();
    let (mut reader, mut writer) = pipe(4);
    let mut buf = [0u8; 4];
    assert_eq!(reader.poll_read(&first_waker, &mut buf), Poll::Pending);
    assert_eq!(reader.poll_read(&second_waker, &mut buf), Poll::Pending);
    assert_eq!(writer.poll_write(Waker::noop(), &[1]), Poll::Ready(1));
    assert_eq!(woken(&first), 0);
    assert_eq!(woken(&second), 1);
}

#[test]
fn a_write_on_a_full_pipe_waits_for_a_read() {
    let (reads, read_waker) = counting_waker();
    let (writes, write_waker) = counting_waker();
    let (mut reader, mut writer) = pipe(3);
    let mut buf = [0u8; 2];

    assert_eq!(writer.poll_write(&write_waker, &[1, 2, 3]), Poll::Ready(3));
    assert_eq!(writer.poll_write(&write_waker, &[4, 5]), Poll::Pending);
    assert_eq!(writer.len(), 3);
    assert_eq!(woken(&writes), 0);

    assert_eq!(reader.poll_read(&read_waker, &mut buf), Poll::Ready(2));
    assert_eq!(buf, [1, 2]);
    assert_eq!(woken(&writes), 1);
    assert_eq!(woken(&reads), 0);

    assert_eq!(writer.poll_write(&write_waker, &[4, 5, 6]), Poll::Ready(2));
    let mut rest = [0u8; 8];
    assert_eq!(reader.poll_read(&read_waker, &mut rest), Poll::Ready(3));
    assert_eq!(&rest[..3], &[3, 4, 5]);
}

#[test]
fn a_write_on_a_full_pipe_waits_for_a_close() {
    let (writes, write_waker) = counting_waker();
    let (reader, mut writer) = pipe(2);
    assert_eq!(writer.poll_write(&write_waker, &[1, 2]), Poll::Ready(2));
    assert_eq!(writer.poll_write(&write_waker, &[3]), Poll::Pending);
    assert_eq!(woken(&writes), 0);
    assert_eq!(writer.poll_close(), Poll::Ready(()));
    assert_eq!(woken(&writes), 1);
    assert_eq!(writer.poll_write(&write_waker, &[3]), Poll::Ready(0));
    assert_eq!(reader.len(), 2);
}

#[test]
fn a_write_on_a_full_pipe_waits_for_the_reader_to_go() {
    let (writes, write_waker) = counting_waker();
    let (reader, mut writer) = pipe(2);
    assert_eq!(writer.poll_write(&write_waker, &[1, 2]), Poll::Ready(2));
    assert_eq!(writer.poll_write(&write_waker, &[3]), Poll::Pending);
    assert_eq!(woken(&writes), 0);
    reader.release();
    assert_eq!(woken(&writes), 1);
    assert_eq!(writer.poll_write(&write_waker, &[3]), Poll::Ready(0));
}

#[test]
fn releasing_the_writer_ends_an_empty_stream() {
    let (reads, read_waker) = counting_waker();
    let (mut reader, writer) = pipe(4);
    let mut buf = [0u8; 4];
    assert_eq!(reader.poll_read(&read_waker, &mut buf), Poll::Pending);
    writer.release();
    assert_eq!(woken(&reads), 1);
    assert_eq!(reader.poll_read(&read_waker, &mut buf), Poll::Ready(0));
}

#[test]
fn releasing_the_writer_lets_the_reader_drain() {
    let (reads, read_waker) = counting_waker();
    let (mut reader, mut writer) = pipe(4);
    let mut buf = [0u8; 2];
    assert_eq!(reader.poll_read(&read_waker, &mut buf), Poll::Pending);
    assert_eq!(writer.poll_write(Waker::noop(), &[1, 2, 3]), Poll::Ready(3));
    assert_eq!(woken(&reads), 1);
    writer.release();
    assert_eq!(reader.poll_read(&read_waker, &mut buf), Poll::Ready(2));
    assert_eq!(buf, [1, 2]);
    assert_eq!(reader.poll_read(&read_waker, &mut buf), Poll::Ready(1));
    assert_eq!(buf[0], 3);
    assert_eq!(reader.poll_read(&read_waker, &mut buf), Poll::Ready(0));
}

#[test]
fn releasing_the_reader_wakes_only_the_writer() {
    let (reads, read_waker) = counting_waker();
    let (writes, write_waker) = counting_waker();
    let (mut reader, mut writer) = pipe(0);
    let mut buf = [0u8; 1];
    assert_eq!(reader.poll_read(&read_waker, &mut buf), Poll::Pending);
    assert_eq!(writer.poll_write(&write_waker, &[1]), Poll::Pending);
    reader.release();
    assert_eq!(woken(&reads), 0);
    assert_eq!(woken(&writes), 1);
}

#[test]
fn releasing_the_writer_wakes_only_the_reader() {
    let (reads, read_waker) = counting_waker();
    let (writes, write_waker) = counting_waker();
    let (mut reader, mut writer) = pipe(0);
    let mut buf = [0u8; 1];
    assert_eq!(reader.poll_read(&read_waker, &mut buf), Poll::Pending);
    assert_eq!(writer.poll_write(&write_waker, &[1]), Poll::Pending);
    writer.release();
    assert_eq!(woken(&reads), 1);
    assert_eq!(woken(&writes), 0);
}

#[test]
fn close_wakes_both_ends() {
    let (reads, read_waker) = counting_waker();
    let (writes, write_waker) = counting_waker();
    let (mut reader, mut writer) = pipe(0);
    let mut buf = [0u8; 1];
    assert_eq!(reader.poll_read(&read_waker, &mut buf), Poll::Pending);
    assert_eq!(writer.poll_write(&write_waker, &[1]), Poll::Pending);
    assert_eq!(writer.poll_close(), Poll::Ready(()));
    assert_eq!(woken(&reads), 1);
    assert_eq!(woken(&writes), 1);
}

#[test]
fn a_read_of_nothing_registers_nothing() {
    let (reads, read_waker) = counting_waker();
    let (mut reader, mut writer) = pipe(4);
    let mut nothing: [u8; 0] = [];
    assert_eq!(reader.poll_read(&read_waker, &mut nothing), Poll::Ready(0));
    assert_eq!(writer.poll_write(Waker::noop(), &[1]), Poll::Ready(1));
    assert_eq!(woken(&reads), 0);
}

#[test]
fn a_write_of_nothing_still_wakes_the_reader() {
    let (reads, read_waker) = counting_waker();
    let (mut reader, mut writer) = pipe(4);
    let mut buf = [0u8; 1];
    assert_eq!(reader.poll_read(&read_waker, &mut buf), Poll::Pending);
    assert_eq!(writer.poll_write(Waker::noop(), &[]), Poll::Ready(0));
    assert_eq!(woken(&reads), 1);
    assert_eq!(reader.poll_read(&read_waker, &mut buf), Poll::Pending);
}

#[test]
fn a_read_that_finds_bytes_clears_its_own_registration() {
    let (reads, read_waker) = counting_waker();
    let (mut reader, mut writer) = pipe(4);
    let mut buf = [0u8; 1];
    assert_eq!(reader.poll_read(&read_waker, &mut buf), Poll::Pending);
    assert_eq!(writer.poll_write(Waker::noop(), &[1, 2]), Poll::Ready(2));
    assert_eq!(woken(&reads), 1);
    // the reader registers again, then finds bytes on its own
    assert_eq!(reader.poll_read(&read_waker, &mut buf), Poll::Ready(1));
    assert_eq!(reader.poll_read(&read_waker, &mut buf), Poll::Ready(1));
    assert_eq!(writer.poll_write(Waker::noop(), &[3]), Poll::Ready(1));
    assert_eq!(woken(&reads), 1);
}
