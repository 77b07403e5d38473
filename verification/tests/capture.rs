use playdeck::capture::CaptureBuffer;

#[test]
fn new_buffer_is_empty() {
    let buffer: CaptureBuffer<f32> = CaptureBuffer::new();
    assert!(buffer.is_empty());
    assert_eq!(buffer.len(), 0);
}

#[test]
fn chunks_queue_up_in_order() {
    let mut buffer = CaptureBuffer::new();
    buffer.append(&[0.5f32, -0.25]);
    buffer.append(&[]);
    buffer.append(&[1.0]);
    assert!(!buffer.is_empty());
    assert_eq!(buffer.len(), 3);
    assert_eq!(buffer.drain(), vec![0.5, -0.25, 1.0]);
}

#[test]
fn drain_leaves_buffer_empty() {
    let mut buffer = CaptureBuffer::new();
    buffer.append(&[1i16, 2, 3]);
    assert_eq!(buffer.drain(), vec![1, 2, 3]);
    assert!(buffer.is_empty());
    assert_eq!(buffer.len(), 0);
    assert_eq!(buffer.drain(), Vec::<i16>::new());
    buffer.append(&[4]);
    assert_eq!(buffer.drain(), vec![4]);
}
