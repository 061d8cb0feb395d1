use gb_rs::resampler::fifo::{Fifo, BUFFER_SIZE};

#[test]
fn fifo_starts_empty() {
    let mut f: Fifo<i16> = Fifo::new();
    assert!(f.empty());
    assert!(!f.full());
    assert_eq!(f.len(), 0);
    assert_eq!(f.capacity(), BUFFER_SIZE);
    assert_eq!(f.pop(), None);
}

#[test]
fn fifo_keeps_order() {
    let mut f: Fifo<i16> = Fifo::new();
    for v in 0..10i16 {
        assert_eq!(f.push(v), Ok(()));
    }
    assert_eq!(f.len(), 10);
    for v in 0..10i16 {
        assert_eq!(f.pop(), Some(v));
    }
    assert!(f.empty());
}

#[test]
fn fifo_full_refuses_push() {
    let mut f: Fifo<u8> = Fifo::new();
    for i in 0..BUFFER_SIZE {
        assert_eq!(f.push((i % 256) as u8), Ok(()));
    }
    assert!(f.full());
    assert_eq!(f.len(), BUFFER_SIZE);
    assert_eq!(f.push(0xff), Err(()));
    assert_eq!(f.len(), BUFFER_SIZE);
    assert_eq!(f.pop(), Some(0));
    assert!(!f.full());
    assert_eq!(f.push(0xff), Ok(()));
}

#[test]
fn fifo_wraps_around() {
    let mut f: Fifo<u32> = Fifo::new();
    // Go around the ring buffer several times
    for round in 0..3 * BUFFER_SIZE as u32 {
        assert_eq!(f.push(round), Ok(()));
        assert_eq!(f.push(round + 1), Ok(()));
        assert_eq!(f.pop(), Some(round));
        assert_eq!(f.pop(), Some(round + 1));
        assert!(f.empty());
    }
}
