use byte_pipe::pipe::pipe;
use byte_pipe::pipe::Reader;
use byte_pipe::pipe::Writer;
use byte_pipe::protocol::Poll;
use std::task::Waker;

fn is_send_and_sync<T: Send + Sync>() {}

#[test]
fn ends_can_cross_threads() {
    is_send_and_sync::<Reader>();
    is_send_and_sync::<Writer>();
}

#[test]
fn write_read_fill_close_drain() {
    let waker = Waker::noop();
    let (mut reader, mut writer) = pipe(4);

    assert_eq!(writer.poll_write(waker, &[1, 2, 3]), Poll::Ready(3));
    let mut buf = [0u8; 10];
    assert_eq!(reader.poll_read(waker, &mut buf), Poll::Ready(3));
    assert_eq!(&buf[..3], &[1, 2, 3]);
    assert_eq!(&buf[3..], &[0u8; 7]);

    assert_eq!(writer.poll_write(waker, &[4, 5, 6, 7, 8]), Poll::Ready(4));
    assert_eq!(writer.poll_close(), Poll::Ready(()));

    let mut buf = [0u8; 10];
    assert_eq!(reader.poll_read(waker, &mut buf), Poll::Ready(4));
    assert_eq!(&buf[..4], &[4, 5, 6, 7]);
    assert_eq!(reader.poll_read(waker, &mut buf), Poll::Ready(0));
}

#[test]
fn new_pipe_is_empty() {
    let (reader, writer) = pipe(16);
    assert_eq!(reader.len(), 0);
    assert_eq!(writer.len(), 0);
}

#[test]
fn both_ends_see_the_same_length() {
    let waker = Waker::noop();
    let (mut reader, mut writer) = pipe(8);
    assert_eq!(writer.poll_write(waker, &[1, 2, 3, 4, 5]), Poll::Ready(5));
    assert_eq!(reader.len(), 5);
    assert_eq!(writer.len(), 5);
    let mut buf = [0u8; 2];
    assert_eq!(reader.poll_read(waker, &mut buf), Poll::Ready(2));
    assert_eq!(reader.len(), 3);
    assert_eq!(writer.len(), 3);
}

#[test]
fn what_is_written_is_read_back_in_order() {
    let waker = Waker::noop();
    for capacity in 1..=9usize {
        for len in 1..=capacity {
            let bytes: Vec<u8> = (0..len).map(|i| (i * 7 + capacity) as u8).collect();
            let (mut reader, mut writer) = pipe(capacity);
            assert_eq!(writer.poll_write(waker, &bytes), Poll::Ready(len));
            let mut buf = vec![0u8; capacity + 3];
            assert_eq!(reader.poll_read(waker, &mut buf), Poll::Ready(len));
            assert_eq!(&buf[..len], &bytes[..]);
            assert!(buf[len..].iter().all(|b| *b == 0));
            assert_eq!(reader.len(), 0);
        }
    }
}

#[test]
fn length_stays_within_capacity() {
    let waker = Waker::noop();
    let (mut reader, mut writer) = pipe(5);
    let mut buf = [0u8; 3];
    for round in 0..40usize {
        let chunk = vec![round as u8; round % 7];
        let _ = writer.poll_write(waker, &chunk);
        assert!(writer.len() <= 5);
        if round % 3 == 0 {
            let _ = reader.poll_read(waker, &mut buf);
            assert!(reader.len() <= 5);
        }
    }
}

#[test]
fn a_write_that_does_not_fit_is_cut_short() {
    let waker = Waker::noop();
    let (mut reader, mut writer) = pipe(4);
    let data = [1u8, 2, 3, 4, 5, 6, 7, 8, 9];
    let mut sent = 0;
    let mut got = Vec::new();
    let mut buf = [0u8; 3];
    while got.len() < data.len() {
        if sent < data.len() {
            if let Poll::Ready(n) = writer.poll_write(waker, &data[sent..]) {
                assert!(n <= 4);
                sent += n;
            }
        }
        if let Poll::Ready(n) = reader.poll_read(waker, &mut buf) {
            got.extend_from_slice(&buf[..n]);
        }
    }
    assert_eq!(sent, data.len());
    assert_eq!(got, data);
}

#[test]
fn reads_never_hand_out_more_than_was_written() {
    let waker = Waker::noop();
    let (mut reader, mut writer) = pipe(6);
    let mut written = Vec::new();
    let mut read = Vec::new();
    let mut buf = [0u8; 4];
    let mut next = 0u8;
    for round in 0..60usize {
        let chunk: Vec<u8> = (0..(round % 5)).map(|i| next.wrapping_add(i as u8)).collect();
        if let Poll::Ready(n) = writer.poll_write(waker, &chunk) {
            written.extend_from_slice(&chunk[..n]);
            next = next.wrapping_add(n as u8);
        }
        if round % 2 == 1 {
            if let Poll::Ready(n) = reader.poll_read(waker, &mut buf) {
                read.extend_from_slice(&buf[..n]);
            }
        }
        assert!(read.len() <= written.len());
        assert_eq!(&written[..read.len()], &read[..]);
        assert_eq!(written.len() - read.len(), reader.len());
    }
}

#[test]
fn flush_completes_at_once() {
    let waker = Waker::noop();
    let (_reader, mut writer) = pipe(2);
    assert_eq!(writer.poll_flush(), Poll::Ready(()));
    assert_eq!(writer.poll_write(waker, &[1, 2]), Poll::Ready(2));
    assert_eq!(writer.poll_flush(), Poll::Ready(()));
    assert_eq!(writer.len(), 2);
}

#[test]
fn writes_after_close_take_nothing() {
    let waker = Waker::noop();
    let (reader, mut writer) = pipe(4);
    assert_eq!(writer.poll_write(waker, &[1]), Poll::Ready(1));
    assert_eq!(writer.poll_close(), Poll::Ready(()));
    assert_eq!(writer.poll_write(waker, &[2, 3]), Poll::Ready(0));
    assert_eq!(writer.poll_write(waker, &[]), Poll::Ready(0));
    assert_eq!(writer.poll_write(waker, &[4]), Poll::Ready(0));
    assert_eq!(reader.len(), 1);
}

#[test]
fn close_twice_is_harmless() {
    let waker = Waker::noop();
    let (mut reader, mut writer) = pipe(4);
    assert_eq!(writer.poll_write(waker, &[5, 6]), Poll::Ready(2));
    assert_eq!(writer.poll_close(), Poll::Ready(()));
    assert_eq!(writer.poll_close(), Poll::Ready(()));
    let mut buf = [0u8; 4];
    assert_eq!(reader.poll_read(waker, &mut buf), Poll::Ready(2));
    assert_eq!(&buf[..2], &[5, 6]);
    assert_eq!(reader.poll_read(waker, &mut buf), Poll::Ready(0));
}

#[test]
fn reads_after_close_drain_before_the_end() {
    let waker = Waker::noop();
    let (mut reader, mut writer) = pipe(8);
    assert_eq!(writer.poll_write(waker, &[1, 2, 3, 4, 5]), Poll::Ready(5));
    assert_eq!(writer.poll_close(), Poll::Ready(()));
    let mut buf = [0u8; 2];
    assert_eq!(reader.poll_read(waker, &mut buf), Poll::Ready(2));
    assert_eq!(buf, [1, 2]);
    assert_eq!(reader.poll_read(waker, &mut buf), Poll::Ready(2));
    assert_eq!(buf, [3, 4]);
    assert_eq!(reader.poll_read(waker, &mut buf), Poll::Ready(1));
    assert_eq!(buf[0], 5);
    assert_eq!(reader.poll_read(waker, &mut buf), Poll::Ready(0));
    assert_eq!(reader.poll_read(waker, &mut buf), Poll::Ready(0));
}

#[test]
fn a_read_of_nothing_never_waits() {
    let waker = Waker::noop();
    let (mut reader, mut writer) = pipe(4);
    let mut nothing: [u8; 0] = [];
    assert_eq!(reader.poll_read(waker, &mut nothing), Poll::Ready(0));
    assert_eq!(writer.poll_write(waker, &[1, 2]), Poll::Ready(2));
    assert_eq!(reader.poll_read(waker, &mut nothing), Poll::Ready(0));
    assert_eq!(reader.len(), 2);
    assert_eq!(writer.poll_close(), Poll::Ready(()));
    assert_eq!(reader.poll_read(waker, &mut nothing), Poll::Ready(0));
    assert_eq!(reader.len(), 2);
}

#[test]
fn a_pipe_without_room_passes_nothing() {
    let waker = Waker::noop();
    let (mut reader, mut writer) = pipe(0);
    let mut buf = [0u8; 4];
    assert_eq!(writer.poll_write(waker, &[1, 2]), Poll::Pending);
    assert_eq!(writer.poll_write(waker, &[]), Poll::Pending);
    assert_eq!(reader.poll_read(waker, &mut buf), Poll::Pending);
    assert_eq!(reader.len(), 0);
    assert_eq!(writer.poll_close(), Poll::Ready(()));
    assert_eq!(writer.poll_write(waker, &[1, 2]), Poll::Ready(0));
    assert_eq!(reader.poll_read(waker, &mut buf), Poll::Ready(0));
    assert_eq!(buf, [0, 0, 0, 0]);
}

#[test]
fn a_suspended_read_leaves_the_destination_alone() {
    let waker = Waker::noop();
    let (mut reader, _writer) = pipe(4);
    let mut buf = [7u8; 5];
    assert_eq!(reader.poll_read(waker, &mut buf), Poll::Pending);
    assert_eq!(buf, [7, 7, 7, 7, 7]);
}

#[test]
fn writes_after_the_reader_is_released_take_nothing() {
    let waker = Waker::noop();
    let (reader, mut writer) = pipe(4);
    assert_eq!(writer.poll_write(waker, &[1]), Poll::Ready(1));
    reader.release();
    assert_eq!(writer.poll_write(waker, &[2]), Poll::Ready(0));
    assert_eq!(writer.len(), 1);
}
