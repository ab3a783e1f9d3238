use pico_shell::constants::MAX_LINE_LENGTH;
use pico_shell::constants::QUEUE_CAPACITY;
use pico_shell::queue::InputQueue;

#[test]
fn queue_starts_empty() {
    let mut q = InputQueue::new();
    assert_eq!(q.len(), 0);
    assert_eq!(q.capacity(), QUEUE_CAPACITY);
    assert_eq!(q.capacity(), MAX_LINE_LENGTH);
    assert_eq!(q.drain_all(), Vec::<u8>::new());
}

#[test]
fn queue_preserves_order() {
    let mut q = InputQueue::new();
    let bytes: Vec<u8> = vec![0x68, 0x65, 0x6C, 0x6C, 0x6F, 0x00, 0xFF, 0x0D];
    for &b in &bytes {
        assert!(q.enqueue(b));
    }
    assert_eq!(q.len(), bytes.len());
    assert_eq!(q.drain_all(), bytes);
    assert_eq!(q.len(), 0);
}

#[test]
fn queue_fills_to_capacity_exactly() {
    let mut q = InputQueue::new();
    let bytes: Vec<u8> = (0..QUEUE_CAPACITY as u8).collect();
    for &b in &bytes {
        assert!(q.enqueue(b));
    }
    assert_eq!(q.len(), QUEUE_CAPACITY);
    assert_eq!(q.drain_all(), bytes);
}

#[test]
fn queue_overflow_drops_the_tail() {
    let mut q = InputQueue::new();
    let extra = 7usize;
    for i in 0..QUEUE_CAPACITY + extra {
        let accepted = q.enqueue(i as u8);
        assert_eq!(accepted, i < QUEUE_CAPACITY);
    }
    assert_eq!(q.len(), QUEUE_CAPACITY);
    let drained = q.drain_all();
    let expected: Vec<u8> = (0..QUEUE_CAPACITY as u8).collect();
    assert_eq!(drained, expected);
    assert_eq!(q.len(), 0);
}

#[test]
fn queue_usable_after_overflow() {
    let mut q = InputQueue::new();
    for i in 0..QUEUE_CAPACITY + 1 {
        let _ = q.enqueue(i as u8);
    }
    let _ = q.drain_all();
    assert!(q.enqueue(0x41));
    assert_eq!(q.drain_all(), vec![0x41]);
}
