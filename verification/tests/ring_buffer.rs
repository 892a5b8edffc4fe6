use spoke_voice::ring::RingBuffer;

#[test]
fn push_within_cap_keeps_everything_in_order() {
    let mut rb = RingBuffer::new(10);
    rb.push_samples(&[1, 2, 3]);
    assert_eq!(rb.len(), 3);
    assert_eq!(rb.capacity(), 10);
    assert_eq!(rb.pop(), Some(1));
    assert_eq!(rb.pop(), Some(2));
    assert_eq!(rb.pop(), Some(3));
    assert_eq!(rb.pop(), None);
}

#[test]
fn overflow_discards_oldest_first() {
    let mut rb = RingBuffer::new(4);
    rb.push_samples(&[1, 2, 3]);
    rb.push_samples(&[4, 5, 6]);
    assert_eq!(rb.len(), 4);
    assert_eq!(rb.pop(), Some(3));
    assert_eq!(rb.pop(), Some(4));
    assert_eq!(rb.pop(), Some(5));
    assert_eq!(rb.pop(), Some(6));
    assert_eq!(rb.pop(), None);
}

#[test]
fn length_never_exceeds_cap_across_many_pushes() {
    let mut rb = RingBuffer::new(7);
    for batch in 0..50 {
        let samples: Vec<i16> = (0..5).map(|k| (batch * 5 + k) as i16).collect();
        rb.push_samples(&samples);
        assert!(rb.len() <= 7);
    }
}

#[test]
fn two_hundred_thousand_samples_into_cap_192000() {
    // Push 200,000 mono samples sequentially into a buffer capped at
    // 192,000: the resulting length is exactly 192,000 and the contents
    // are the original samples with the oldest 8,000 evicted.
    let total: usize = 200_000;
    let cap: usize = 192_000;
    let samples: Vec<i16> = (0..total).map(|i| (i % 30_000) as i16).collect();
    let mut rb = RingBuffer::new(cap);
    rb.push_samples(&samples);
    assert_eq!(rb.len(), cap);
    for j in 0..cap {
        assert_eq!(rb.pop(), Some(samples[total - cap + j]));
    }
    assert_eq!(rb.len(), 0);
}

#[test]
fn underrun_yields_silence_not_stale_audio() {
    let mut rb = RingBuffer::new(8);
    assert_eq!(rb.pop_or_silence(), 0);
    rb.push_samples(&[7]);
    assert_eq!(rb.pop_or_silence(), 7);
    assert_eq!(rb.pop_or_silence(), 0);
    assert_eq!(rb.pop_or_silence(), 0);
}
