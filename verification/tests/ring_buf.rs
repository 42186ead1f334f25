use embassy_drivers::ring_buf::{RingBuf, RINGBUF_SIZE};

#[test]
fn new_ring_is_empty() {
    let r = RingBuf::new();
    assert_eq!(r.pop_buf(), (0, 0));
    assert_eq!(r.push_buf(), (0, RINGBUF_SIZE));
    assert!(r.filled().is_empty());
}

#[test]
fn wrap_folds_end_only() {
    assert_eq!(RingBuf::wrap(RINGBUF_SIZE), 0);
    assert_eq!(RingBuf::wrap(0), 0);
    assert_eq!(RingBuf::wrap(17), 17);
    assert_eq!(RingBuf::wrap(RINGBUF_SIZE - 1), RINGBUF_SIZE - 1);
}

#[test]
fn bytes_come_out_in_order() {
    let mut r = RingBuf::new();
    assert_eq!(r.push_slice(&[1, 2, 3]), 3);
    assert_eq!(r.push_slice(&[4, 5]), 2);
    assert_eq!(r.filled(), vec![1, 2, 3, 4, 5]);
    r.pop(2);
    assert_eq!(r.filled(), vec![3, 4, 5]);
    assert_eq!(r.pop_buf(), (2, 3));
    assert_eq!(r.read(2), 3);
    assert_eq!(r.read(4), 5);
    r.pop(3);
    assert_eq!(r.pop_buf(), (0, 0));
}

#[test]
fn push_with_write_then_commit() {
    let mut r = RingBuf::new();
    let (pos, n) = r.push_buf();
    assert_eq!((pos, n), (0, RINGBUF_SIZE));
    r.write(pos, 9);
    r.write(pos + 1, 8);
    r.push(2);
    assert_eq!(r.filled(), vec![9, 8]);
    r.push(0);
    assert_eq!(r.filled(), vec![9, 8]);
}

#[test]
fn full_ring_offers_no_room() {
    let mut r = RingBuf::new();
    let data = vec![7u8; RINGBUF_SIZE + 10];
    assert_eq!(r.push_slice(&data), RINGBUF_SIZE);
    assert_eq!(r.push_buf(), (0, 0));
    assert_eq!(r.push_slice(&[1]), 0);
    assert_eq!(r.pop_buf(), (0, RINGBUF_SIZE));
    r.pop(RINGBUF_SIZE);
    assert_eq!(r.pop_buf(), (0, 0));
    assert_eq!(r.push_buf(), (0, RINGBUF_SIZE));
}

#[test]
fn regions_wrap_around_the_end() {
    let mut r = RingBuf::new();
    let data = vec![0u8; RINGBUF_SIZE - 2];
    assert_eq!(r.push_slice(&data), RINGBUF_SIZE - 2);
    r.pop(RINGBUF_SIZE - 2);
    assert_eq!(r.push_buf(), (RINGBUF_SIZE - 2, 2));
    assert_eq!(r.push_slice(&[10, 11, 12]), 2);
    assert_eq!(r.push_buf(), (0, RINGBUF_SIZE - 2));
    assert_eq!(r.push_slice(&[12, 13, 14]), 3);
    assert_eq!(r.pop_buf(), (RINGBUF_SIZE - 2, 2));
    assert_eq!(r.filled(), vec![10, 11]);
    r.pop(2);
    assert_eq!(r.pop_buf(), (0, 3));
    assert_eq!(r.filled(), vec![12, 13, 14]);
    assert_eq!(r.push_buf(), (3, RINGBUF_SIZE - 3));
}

#[test]
fn pushing_whole_free_region_fills_ring() {
    let mut r = RingBuf::new();
    r.push(RINGBUF_SIZE);
    assert_eq!(r.push_buf(), (0, 0));
    assert_eq!(r.pop_buf(), (0, RINGBUF_SIZE));
    r.pop(0);
    assert_eq!(r.pop_buf(), (0, RINGBUF_SIZE));
    r.pop(RINGBUF_SIZE);
    assert_eq!(r.push_buf(), (0, RINGBUF_SIZE));
}

#[test]
fn interleaved_writes_and_reads_keep_fifo_order() {
    let mut r = RingBuf::new();
    let mut written: Vec<u8> = Vec::new();
    let mut out: Vec<u8> = Vec::new();
    let mut next: u8 = 0;
    for round in 0..40usize {
        let (pos, room) = r.push_buf();
        let k = room.min(17 + round % 5);
        for i in 0..k {
            r.write(pos + i, next);
            written.push(next);
            next = next.wrapping_add(1);
        }
        r.push(k);
        let (start, avail) = r.pop_buf();
        let m = avail.min(13 + round % 7);
        for i in 0..m {
            out.push(r.read(start + i));
        }
        r.pop(m);
        assert_eq!(&written[..out.len()], &out[..]);
        let held = r.filled();
        assert!(written.len() - out.len() <= RINGBUF_SIZE);
        assert_eq!(&held[..], &written[out.len()..out.len() + held.len()]);
    }
}
