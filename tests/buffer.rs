use raflow::buffer::RingBuffer;

#[test]
fn test_ring_buffer_creation() {
    let buffer: RingBuffer<f32> = RingBuffer::new(10, 100);
    assert_eq!(buffer.capacity(), 10);
    assert_eq!(buffer.len(), 0);
    assert!(buffer.is_empty());
}

#[test]
fn test_push_pop() {
    let mut buffer = RingBuffer::new(5, 10);
    let data = vec![1.0f32, 2.0, 3.0, 4.0, 5.0];

    assert!(buffer.push(&data));
    assert_eq!(buffer.len(), 1);
    assert!(!buffer.is_empty());

    let popped = buffer.pop();
    assert!(popped.is_some());
    assert_eq!(popped.unwrap(), data);
    assert_eq!(buffer.len(), 0);
    assert!(buffer.is_empty());
}

#[test]
fn test_buffer_full() {
    let mut buffer = RingBuffer::new(3, 10);
    let data = vec![1.0f32; 10];

    assert!(buffer.push(&data));
    assert!(buffer.push(&data));
    assert!(buffer.push(&data));

    assert!(!buffer.push(&data));
}

#[test]
fn test_recycle() {
    let mut buffer = RingBuffer::new(5, 10);
    let data = vec![1.0f32; 10];

    let initial_pool = buffer.pool_available();

    buffer.push(&data);
    let popped = buffer.pop().unwrap();

    buffer.recycle(popped);

    assert_eq!(buffer.pool_available(), initial_pool);
}

#[test]
fn test_object_pool_efficiency() {
    let mut buffer = RingBuffer::new(10, 100);
    let data = vec![1.0f32; 100];

    let initial_pool = buffer.pool_available();
    assert_eq!(initial_pool, 10);

    buffer.push(&data);
    let popped = buffer.pop().unwrap();

    assert_eq!(buffer.pool_available(), initial_pool - 1);

    buffer.recycle(popped);
    assert_eq!(buffer.pool_available(), initial_pool);
}

#[test]
fn fifo_order_and_contents_kept() {
    let mut buffer = RingBuffer::new(4, 3);
    let frames = vec![vec![1.0f32, 2.0, 3.0], vec![4.0f32], vec![], vec![5.0f32, 6.0]];
    for f in &frames {
        assert!(buffer.push(f));
    }
    for f in &frames {
        assert_eq!(buffer.pop().unwrap(), *f);
    }
    assert!(buffer.pop().is_none());
}

#[test]
fn push_when_full_keeps_queued_frames() {
    let mut buffer = RingBuffer::new(2, 2);
    assert!(buffer.push(&[1i32, 2]));
    assert!(buffer.push(&[3i32, 4]));
    let pool_before = buffer.pool_available();
    assert!(!buffer.push(&[9i32, 9]));
    assert_eq!(buffer.len(), 2);
    assert_eq!(buffer.pool_available(), pool_before);
    assert_eq!(buffer.pop().unwrap(), vec![1, 2]);
    assert_eq!(buffer.pop().unwrap(), vec![3, 4]);
}

#[test]
fn recycle_mismatched_capacity_leaves_pool() {
    let mut buffer: RingBuffer<f32> = RingBuffer::new(4, 10);
    let _ = buffer.push(&[0.0f32; 10]);
    let _ = buffer.pop();
    let before = buffer.pool_available();
    buffer.recycle_with_capacity(Vec::new(), 11);
    assert_eq!(buffer.pool_available(), before);
    buffer.recycle_with_capacity(Vec::new(), 10);
    assert_eq!(buffer.pool_available(), before + 1);
}

#[test]
fn recycle_never_exceeds_capacity() {
    let mut buffer: RingBuffer<u8> = RingBuffer::new(2, 4);
    assert_eq!(buffer.pool_available(), 2);
    buffer.recycle_with_capacity(Vec::new(), 4);
    assert_eq!(buffer.pool_available(), 2);
}

#[test]
fn push_with_empty_pool_still_queues() {
    let mut buffer: RingBuffer<u8> = RingBuffer::new(2, 4);
    assert!(buffer.push(&[1]));
    assert!(buffer.push(&[2]));
    assert_eq!(buffer.pool_available(), 0);
    assert_eq!(buffer.pop().unwrap(), vec![1]);
    assert!(buffer.push(&[3, 3]));
    assert_eq!(buffer.pool_available(), 0);
    assert_eq!(buffer.pop().unwrap(), vec![2]);
    assert_eq!(buffer.pop().unwrap(), vec![3, 3]);
}
