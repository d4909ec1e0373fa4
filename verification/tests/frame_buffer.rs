use gv_net::frame_buffer::{FramedUpdates, InsertError};

#[test]
fn advance_increments_frame_offset_each_call() {
    let mut buffer: FramedUpdates<u32> = FramedUpdates::new(4);
    assert_eq!(buffer.current_frame_number(), 0);
    for expected in 1..=7u64 {
        let batch = buffer.advance();
        assert!(batch.is_empty());
        assert_eq!(buffer.current_frame_number(), expected);
    }
}

#[test]
fn advance_returns_the_slot_that_was_oldest() {
    let mut buffer: FramedUpdates<u32> = FramedUpdates::new(4);
    buffer.insert(0, 10).unwrap();
    buffer.insert(1, 11).unwrap();
    buffer.insert(1, 12).unwrap();
    buffer.insert(3, 13).unwrap();
    assert_eq!(buffer.advance(), vec![10]);
    assert_eq!(buffer.advance(), vec![11, 12]);
    assert_eq!(buffer.advance(), Vec::<u32>::new());
    assert_eq!(buffer.advance(), vec![13]);
}

#[test]
fn insert_lands_in_the_contiguous_slot_for_its_frame() {
    let mut buffer: FramedUpdates<u32> = FramedUpdates::new(3);
    for _ in 0..5 {
        buffer.advance();
    }
    assert_eq!(buffer.current_frame_number(), 5);
    buffer.insert(6, 60).unwrap();
    buffer.insert(5, 50).unwrap();
    buffer.insert(7, 70).unwrap();
    assert_eq!(buffer.advance(), vec![50]);
    assert_eq!(buffer.advance(), vec![60]);
    assert_eq!(buffer.advance(), vec![70]);
}

#[test]
fn insert_stale_is_silently_dropped_and_slots_unchanged() {
    let mut buffer: FramedUpdates<u32> = FramedUpdates::new(3);
    buffer.insert(0, 11).unwrap();
    buffer.insert(1, 22).unwrap();
    assert_eq!(buffer.advance(), vec![11]);
    assert_eq!(buffer.current_frame_number(), 1);
    // Frame 0 is now one older than the oldest retained slot.
    assert!(buffer.insert(0, 99).is_ok());
    assert_eq!(buffer.advance(), vec![22]);
    assert_eq!(buffer.advance(), Vec::<u32>::new());
    assert_eq!(buffer.advance(), Vec::<u32>::new());
}

#[test]
fn insert_one_past_window_fails_and_leaves_buffer_unchanged() {
    let mut buffer: FramedUpdates<u32> = FramedUpdates::new(5);
    buffer.insert(2, 7).unwrap();
    let refused = buffer.insert(5, 8);
    assert_eq!(refused, Err(InsertError::OutOfWindow));
    let refused_far = buffer.insert(1_000_000, 9);
    assert_eq!(refused_far, Err(InsertError::OutOfWindow));
    assert_eq!(buffer.advance(), Vec::<u32>::new());
    assert_eq!(buffer.advance(), Vec::<u32>::new());
    assert_eq!(buffer.advance(), vec![7]);
    assert_eq!(buffer.advance(), Vec::<u32>::new());
    assert_eq!(buffer.advance(), Vec::<u32>::new());
}

#[test]
fn end_to_end_client_updates_returned_at_their_frames() {
    // A client schedules three action updates for frames 10, 11 and 12
    // while the buffer's oldest retained frame is 5; each one comes back
    // exactly when its frame is consumed.
    let mut buffer: FramedUpdates<&'static str> = FramedUpdates::new(10);
    for _ in 0..5 {
        buffer.advance();
    }
    assert_eq!(buffer.current_frame_number(), 5);
    buffer.insert(10, "walk").unwrap();
    buffer.insert(11, "look").unwrap();
    buffer.insert(12, "cast").unwrap();
    let mut replayed: Vec<(u64, Vec<&'static str>)> = Vec::new();
    for _ in 0..8 {
        let frame = buffer.current_frame_number();
        let batch = buffer.advance();
        if !batch.is_empty() {
            replayed.push((frame, batch));
        }
    }
    assert_eq!(
        replayed,
        vec![(10, vec!["walk"]), (11, vec!["look"]), (12, vec!["cast"])]
    );
}
