use audio_multisample::{CaptureBuffer, ErrorSlot};

#[test]
fn a_new_buffer_is_empty() {
    let buffer: CaptureBuffer<f32> = CaptureBuffer::new(8);
    assert_eq!(buffer.len(), 0);
    assert_eq!(buffer.capacity_limit(), 8);
}

#[test]
fn samples_are_appended_in_order() {
    let mut buffer: CaptureBuffer<f32> = CaptureBuffer::new(8);
    buffer.append_bounded(&[0.5, -0.5]);
    buffer.append_bounded(&[]);
    buffer.append_bounded(&[0.25]);
    assert_eq!(buffer.len(), 3);
    assert_eq!(buffer.swap_out(), vec![0.5, -0.5, 0.25]);
}

#[test]
fn samples_beyond_the_limit_are_dropped() {
    let mut buffer: CaptureBuffer<i16> = CaptureBuffer::new(4);
    buffer.append_bounded(&[1, 2, 3]);
    buffer.append_bounded(&[4, 5, 6]);
    buffer.append_bounded(&[7]);
    assert_eq!(buffer.len(), 4);
    assert_eq!(buffer.swap_out(), vec![1, 2, 3, 4]);
}

#[test]
fn a_batch_that_fills_the_buffer_exactly_is_kept_whole() {
    let mut buffer: CaptureBuffer<i16> = CaptureBuffer::new(3);
    buffer.append_bounded(&[1, 2, 3]);
    assert_eq!(buffer.swap_out(), vec![1, 2, 3]);
}

#[test]
fn a_buffer_with_limit_zero_keeps_nothing() {
    let mut buffer: CaptureBuffer<i16> = CaptureBuffer::new(0);
    buffer.append_bounded(&[1, 2, 3]);
    assert_eq!(buffer.len(), 0);
    assert_eq!(buffer.swap_out(), Vec::<i16>::new());
}

#[test]
fn swapping_out_leaves_the_buffer_empty_and_usable() {
    let mut buffer: CaptureBuffer<i16> = CaptureBuffer::new(3);
    buffer.append_bounded(&[1, 2, 3, 4]);
    assert_eq!(buffer.swap_out(), vec![1, 2, 3]);
    assert_eq!(buffer.len(), 0);
    assert_eq!(buffer.capacity_limit(), 3);
    buffer.append_bounded(&[9, 8]);
    assert_eq!(buffer.swap_out(), vec![9, 8]);
    assert_eq!(buffer.swap_out(), Vec::<i16>::new());
}

#[test]
fn clearing_drops_the_samples_and_keeps_the_limit() {
    let mut buffer: CaptureBuffer<i16> = CaptureBuffer::new(3);
    buffer.append_bounded(&[1, 2]);
    buffer.clear_and_reserve();
    assert_eq!(buffer.len(), 0);
    assert_eq!(buffer.capacity_limit(), 3);
    buffer.append_bounded(&[5, 6, 7, 8]);
    assert_eq!(buffer.swap_out(), vec![5, 6, 7]);
}

#[test]
fn reserving_for_a_limit_that_cannot_be_had_does_not_fail() {
    let mut buffer: CaptureBuffer<f32> = CaptureBuffer::new(usize::MAX);
    buffer.clear_and_reserve();
    buffer.append_bounded(&[1.0, 2.0]);
    assert_eq!(buffer.swap_out(), vec![1.0, 2.0]);
}

#[test]
fn an_empty_slot_holds_nothing() {
    let mut slot: ErrorSlot<String> = ErrorSlot::new();
    assert!(!slot.is_set());
    assert_eq!(slot.take(), None);
}

#[test]
fn the_first_error_wins() {
    let mut slot: ErrorSlot<String> = ErrorSlot::new();
    slot.record("device lost".to_string());
    slot.record("backend failure".to_string());
    assert!(slot.is_set());
    assert_eq!(slot.take(), Some("device lost".to_string()));
}

#[test]
fn taking_the_error_empties_the_slot() {
    let mut slot: ErrorSlot<u8> = ErrorSlot::new();
    slot.record(3);
    assert_eq!(slot.take(), Some(3));
    assert!(!slot.is_set());
    assert_eq!(slot.take(), None);
    slot.record(4);
    assert_eq!(slot.take(), Some(4));
}
