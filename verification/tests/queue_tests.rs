use audio_host::SampleQueue;

#[test]
fn test_overflow_drops_newest() {
    // Push capacity + 1 samples, pop capacity: the first `capacity` pushed
    // values come out in order; the overflowing sample was dropped, not the
    // oldest.
    let capacity: usize = 4;
    let mut q = SampleQueue::with_capacity(capacity);
    let pushed: Vec<u32> = (1..=5u32).map(|v| (v as f32).to_bits()).collect();
    for &s in &pushed {
        q.try_push(s);
    }
    assert_eq!(q.len(), capacity);
    for expected in pushed.iter().take(capacity) {
        assert_eq!(q.try_pop(), Some(*expected));
    }
    assert_eq!(q.try_pop(), None);
}

#[test]
fn test_push_full_reports_failure() {
    let mut q = SampleQueue::with_capacity(2);
    assert!(q.try_push(1));
    assert!(q.try_push(2));
    assert!(!q.try_push(3));
    assert_eq!(q.len(), 2);
    assert_eq!(q.capacity(), 2);
}

#[test]
fn test_pop_block_substitutes_silence() {
    let mut q = SampleQueue::with_capacity(8);
    q.try_push(0.5f32.to_bits());
    q.try_push(0.25f32.to_bits());
    let out = q.pop_block(4);
    assert_eq!(out.len(), 4);
    assert_eq!(out[0], 0.5f32.to_bits());
    assert_eq!(out[1], 0.25f32.to_bits());
    // Underrun: the remaining slots are silence, the bit pattern of 0.0.
    assert_eq!(out[2], 0u32);
    assert_eq!(out[3], 0u32);
    assert_eq!(q.len(), 0);
}

#[test]
fn test_push_block_fifo_order() {
    let mut q = SampleQueue::with_capacity(3);
    let block: Vec<u32> = vec![10, 20, 30, 40];
    q.push_block(&block);
    assert_eq!(q.len(), 3);
    let out = q.pop_block(3);
    assert_eq!(out, vec![10, 20, 30]);
}
