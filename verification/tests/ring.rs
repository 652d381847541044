use heapless::CircularBuffer;

#[test]
fn fresh_buffer_is_empty_with_given_capacity() {
    let buf: CircularBuffer<i32, [i32; 5]> = CircularBuffer::new([0; 5]);
    assert_eq!(buf.capacity(), 5);
    assert_eq!(buf.as_slice().len(), 0);
    let one: CircularBuffer<i32, [i32; 1]> = CircularBuffer::new([0; 1]);
    assert_eq!(one.capacity(), 1);
    assert_eq!(one.as_slice().len(), 0);
}

#[test]
fn partial_fill_keeps_push_order() {
    let mut buf: CircularBuffer<i32, [i32; 5]> = CircularBuffer::new([0; 5]);
    buf.push(10);
    buf.push(20);
    buf.push(30);
    assert_eq!(buf.as_slice(), &[10, 20, 30]);
    assert_eq!(buf.as_slice().len(), 3);
}

#[test]
fn push_into_full_buffer_overwrites_one_slot() {
    let mut buf: CircularBuffer<u8, [u8; 3]> = CircularBuffer::new([0; 3]);
    buf.push(1);
    buf.push(2);
    buf.push(3);
    assert_eq!(buf.as_slice().len(), 3);
    let before: Vec<u8> = buf.as_slice().to_vec();
    buf.push(4);
    let after: Vec<u8> = buf.as_slice().to_vec();
    assert_eq!(after.len(), 3);
    let changed: Vec<usize> = (0..3).filter(|&i| before[i] != after[i]).collect();
    assert_eq!(changed, vec![0]);
    assert_eq!(after[0], 4);
}

#[test]
fn capacity_is_constant_across_pushes() {
    let mut buf: CircularBuffer<u16, [u16; 4]> = CircularBuffer::new([0; 4]);
    assert_eq!(buf.capacity(), 4);
    for i in 0..10u16 {
        buf.push(i);
        assert_eq!(buf.capacity(), 4);
    }
}

#[test]
fn wraparound_exposes_storage_order() {
    let mut buf: CircularBuffer<i32, [i32; 3]> = CircularBuffer::new([0; 3]);
    buf.push(1);
    buf.push(2);
    buf.push(3);
    buf.push(4);
    assert_eq!(buf.as_slice(), &[4, 2, 3]);
}

#[test]
fn zero_capacity_push_is_a_no_op() {
    let mut buf: CircularBuffer<i32, [i32; 0]> = CircularBuffer::new([]);
    assert_eq!(buf.capacity(), 0);
    buf.push(7);
    assert_eq!(buf.capacity(), 0);
    assert_eq!(buf.as_slice().len(), 0);
}

#[test]
fn ring_with_vector_backed_storage() {
    let mut buf: CircularBuffer<i32, Vec<i32>> = CircularBuffer::new(vec![0; 3]);
    assert_eq!(buf.capacity(), 3);
    buf.push(1);
    buf.push(2);
    buf.push(3);
    buf.push(4);
    assert_eq!(buf.as_slice(), &[4, 2, 3]);
}
