use byte_pipe::buffer::Buffer;

#[test]
fn new_buffer_is_empty() {
    let b = Buffer::new(4);
    assert_eq!(b.len(), 0);
    assert_eq!(b.capacity(), 4);
    assert!(b.is_empty());
    assert!(!b.is_full());
}

#[test]
fn zero_capacity_buffer_is_empty_and_full() {
    let mut b = Buffer::new(0);
    assert!(b.is_empty());
    assert!(b.is_full());
    assert_eq!(b.fill_from(&[1, 2, 3]), 0);
    assert_eq!(b.len(), 0);
    let mut dest = [9u8; 2];
    assert_eq!(b.drain_into(&mut dest), 0);
    assert_eq!(dest, [9, 9]);
}

#[test]
fn fill_takes_all_that_fits() {
    let mut b = Buffer::new(4);
    assert_eq!(b.fill_from(&[1, 2, 3]), 3);
    assert_eq!(b.len(), 3);
    assert!(!b.is_full());
    // one place left: min(5, 4 - 3) = 1
    assert_eq!(b.fill_from(&[4, 5, 6, 7, 8]), 1);
    assert_eq!(b.len(), 4);
    assert!(b.is_full());
    assert_eq!(b.fill_from(&[9]), 0);
    assert_eq!(b.len(), 4);

    let mut dest = [0u8; 8];
    assert_eq!(b.drain_into(&mut dest), 4);
    assert_eq!(dest, [1, 2, 3, 4, 0, 0, 0, 0]);
    assert!(b.is_empty());
}

#[test]
fn fill_from_nothing_changes_nothing() {
    let mut b = Buffer::new(2);
    assert_eq!(b.fill_from(&[7]), 1);
    assert_eq!(b.fill_from(&[]), 0);
    assert_eq!(b.len(), 1);
    let mut dest = [0u8; 1];
    assert_eq!(b.drain_into(&mut dest), 1);
    assert_eq!(dest, [7]);
}

#[test]
fn drain_takes_no_more_than_the_destination_holds() {
    let mut b = Buffer::new(8);
    assert_eq!(b.fill_from(&[10, 20, 30, 40, 50]), 5);
    let mut dest = [0u8; 2];
    // min(5, 2) = 2
    assert_eq!(b.drain_into(&mut dest), 2);
    assert_eq!(dest, [10, 20]);
    assert_eq!(b.len(), 3);
    assert_eq!(b.drain_into(&mut dest), 2);
    assert_eq!(dest, [30, 40]);
    // min(1, 2) = 1: the second place keeps what it held
    assert_eq!(b.drain_into(&mut dest), 1);
    assert_eq!(dest, [50, 40]);
    assert_eq!(b.drain_into(&mut dest), 0);
    assert_eq!(dest, [50, 40]);
}

#[test]
fn drain_into_nothing_changes_nothing() {
    let mut b = Buffer::new(3);
    assert_eq!(b.fill_from(&[1, 2]), 2);
    let mut dest: [u8; 0] = [];
    assert_eq!(b.drain_into(&mut dest), 0);
    assert_eq!(b.len(), 2);
}

#[test]
fn bytes_keep_their_order_across_refills() {
    let mut b = Buffer::new(3);
    let mut out = Vec::new();
    let mut next = 0u8;
    for round in 0..20usize {
        let chunk: Vec<u8> = (0..(round % 4)).map(|_| { next = next.wrapping_add(1); next }).collect();
        let taken = b.fill_from(&chunk);
        assert!(b.len() <= b.capacity());
        // what did not fit is offered again first
        next = next.wrapping_sub((chunk.len() - taken) as u8);
        let mut dest = [0u8; 2];
        let n = b.drain_into(&mut dest);
        out.extend_from_slice(&dest[..n]);
    }
    let mut dest = [0u8; 3];
    let n = b.drain_into(&mut dest);
    out.extend_from_slice(&dest[..n]);
    let expected: Vec<u8> = (1..=next).collect();
    assert_eq!(out, expected);
}
