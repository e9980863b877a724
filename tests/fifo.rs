use phantomlink::fifo::SharedBuffer;

#[test]
fn full_buffer_evicts_exactly_one_oldest() {
    let mut b: SharedBuffer<f32> = SharedBuffer::new(3);
    b.push_frame(&[1.0, 2.0, 3.0]);
    assert_eq!(b.len(), 3);
    b.push(4.0);
    assert_eq!(b.len(), 3);
    assert_eq!(b.drain(3, 0.0), vec![2.0, 3.0, 4.0]);
}

#[test]
fn underrun_fills_with_silence() {
    let mut b: SharedBuffer<f32> = SharedBuffer::new(8);
    b.push_frame(&[0.5, -0.5]);
    assert_eq!(b.drain(4, 0.0), vec![0.5, -0.5, 0.0, 0.0]);
    assert_eq!(b.len(), 0);
    assert_eq!(b.drain(2, 0.0), vec![0.0, 0.0]);
}

#[test]
fn pop_is_fifo() {
    let mut b: SharedBuffer<i32> = SharedBuffer::new(4);
    assert_eq!(b.pop(), None);
    b.push(7);
    b.push(8);
    assert_eq!(b.pop(), Some(7));
    assert_eq!(b.pop(), Some(8));
    assert_eq!(b.pop(), None);
}

#[test]
fn long_frame_keeps_newest_capacity_samples() {
    let mut b: SharedBuffer<u32> = SharedBuffer::new(4);
    let frame: Vec<u32> = (0..10).collect();
    b.push_frame(&frame);
    assert_eq!(b.capacity(), 4);
    assert_eq!(b.drain(5, 99), vec![6, 7, 8, 9, 99]);
}
