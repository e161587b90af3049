use mycelium::ring::{ring_capacity, RingBuffer, SpscRingBuffer};

#[test]
fn test_ring_buffer_push_and_read() {
    let mut rb = RingBuffer::new(8);
    rb.push(&[1.0, 2.0, 3.0, 4.0]);
    let mut out = [0.0f32; 4];
    rb.read_last_into(&mut out);
    assert_eq!(out, [1.0, 2.0, 3.0, 4.0]);
}

#[test]
fn test_ring_buffer_wraps() {
    let mut rb = RingBuffer::new(4);
    rb.push(&[1.0, 2.0, 3.0, 4.0]);
    rb.push(&[5.0, 6.0]);
    let mut out = [0.0f32; 4];
    rb.read_last_into(&mut out);
    assert_eq!(out, [3.0, 4.0, 5.0, 6.0]);
}

#[test]
fn test_ring_buffer_read_less_than_capacity() {
    let mut rb = RingBuffer::new(8);
    rb.push(&[1.0, 2.0, 3.0, 4.0, 5.0]);
    let mut out = [0.0f32; 3];
    rb.read_last_into(&mut out);
    assert_eq!(out, [3.0, 4.0, 5.0]);
}

#[test]
fn ring_read_more_than_capacity_fills_prefix() {
    let mut rb = RingBuffer::new(3);
    rb.push(&[1u32, 2, 3, 4, 5, 6, 7]);
    let mut out = [9u32; 5];
    let n = rb.read_last_into(&mut out);
    assert_eq!(n, 3);
    assert_eq!(out, [5, 6, 7, 9, 9]);
}

#[test]
fn ring_unwritten_slots_read_as_default() {
    let mut rb = RingBuffer::new(4);
    rb.push(&[7i16]);
    let mut out = [1i16; 4];
    assert_eq!(rb.read_last_into(&mut out), 4);
    assert_eq!(out, [0, 0, 0, 7]);
}

#[test]
fn spsc_ring_reports_new_data_once() {
    let ring = SpscRingBuffer::<f32>::new(8);
    assert_eq!(ring.capacity(), 8);
    let mut out = [0.0f32; 2];
    assert!(!ring.read_last_into(&mut out));
    assert_eq!(out, [0.0, 0.0]);
    ring.push(&[1.0, 2.0, 3.0]);
    assert!(ring.read_last_into(&mut out));
    assert_eq!(out, [2.0, 3.0]);
    let mut again = [5.0f32; 2];
    assert!(!ring.read_last_into(&mut again));
    assert_eq!(again, [5.0, 5.0]);
}

#[test]
fn capture_ring_holds_a_fifth_of_a_second() {
    assert_eq!(ring_capacity(48000), 9600);
    assert_eq!(ring_capacity(192000), 38400);
    assert_eq!(ring_capacity(44100), 8820);
    assert_eq!(ring_capacity(8000), 8192);
    assert_eq!(ring_capacity(0), 8192);
}

#[test]
fn spsc_ring_leaves_slots_beyond_capacity() {
    let ring = SpscRingBuffer::<u8>::new(2);
    ring.push(&[1, 2, 3]);
    let mut out = [9u8; 4];
    assert!(ring.read_last_into(&mut out));
    assert_eq!(out, [2, 3, 9, 9]);
}

#[test]
fn spsc_ring_of_no_samples_has_no_new_data() {
    let ring = SpscRingBuffer::<f32>::new(0);
    assert_eq!(ring.capacity(), 0);
    let mut out = [4.0f32; 2];
    assert!(!ring.read_last_into(&mut out));
    assert_eq!(out, [4.0, 4.0]);
}
