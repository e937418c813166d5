use cookie_core::channel::FrameChannel;
use cookie_core::recorder::read;

#[test]
fn test_frames_received_in_push_order() {
    let mut channel = FrameChannel::new(8);
    for value in 0..5i16 {
        let accepted = channel.try_send(vec![value, value + 100]);
        assert!(accepted);
    }
    for value in 0..5i16 {
        let frame = channel.try_recv().expect("frame missing");
        assert_eq!(frame, vec![value, value + 100]);
    }
    assert!(channel.try_recv().is_none());
}

#[test]
fn test_backpressure_drops_without_blocking() {
    let mut channel = FrameChannel::new(2);
    assert!(channel.try_send(vec![1]));
    assert!(channel.try_send(vec![2]));
    // The queue is full: further sends drop the frame and return at once.
    assert!(!channel.try_send(vec![3]));
    assert!(!channel.try_send(vec![4]));
    assert_eq!(channel.len(), 2);

    // The consumer still sees the accepted frames, in order.
    assert_eq!(channel.try_recv().unwrap(), vec![1]);
    assert_eq!(channel.try_recv().unwrap(), vec![2]);

    // Once the backlog drained, normal operation resumes.
    assert!(channel.try_send(vec![5]));
    assert_eq!(channel.try_recv().unwrap(), vec![5]);
}

#[test]
fn test_capacity_and_len() {
    let mut channel = FrameChannel::new(3);
    assert_eq!(channel.capacity(), 3);
    assert!(channel.is_empty());
    channel.try_send(vec![7]);
    assert_eq!(channel.len(), 1);
    assert!(!channel.is_empty());
}

#[test]
fn test_read_copies_frame_prefix() {
    let mut channel = FrameChannel::new(4);
    channel.try_send(vec![10, 20]);
    let mut buffer = vec![0i16; 4];
    read(&mut channel, &mut buffer);
    assert_eq!(buffer, vec![10, 20, 0, 0]);
}

#[test]
fn test_read_truncates_long_frame() {
    let mut channel = FrameChannel::new(4);
    channel.try_send(vec![1, 2, 3, 4, 5]);
    let mut buffer = vec![0i16; 3];
    read(&mut channel, &mut buffer);
    assert_eq!(buffer, vec![1, 2, 3]);
}

#[test]
fn test_read_on_empty_channel_leaves_buffer() {
    let mut channel = FrameChannel::new(4);
    let mut buffer = vec![9i16; 3];
    read(&mut channel, &mut buffer);
    assert_eq!(buffer, vec![9, 9, 9]);
}
