use nokhwa_bindings_windows::error::NokhwaError;
use nokhwa_bindings_windows::frames::{next_frame_step, FrameEvent, FrameStep, LockedBuffer};

fn read_error(text: &str) -> NokhwaError {
    NokhwaError::ReadFrameError(text.to_string())
}

#[test]
fn frame_is_read_step_by_step() {
    assert_eq!(next_frame_step(FrameEvent::Requested), FrameStep::ReadSample);
    assert_eq!(next_frame_step(FrameEvent::Sample(Ok(true))), FrameStep::MakeContiguous);
    assert_eq!(next_frame_step(FrameEvent::Buffer(Ok(()))), FrameStep::Lock);
    assert_eq!(
        next_frame_step(FrameEvent::Locked(Ok(LockedBuffer { is_null: false, length: 3 }))),
        FrameStep::Copy(3)
    );
    assert_eq!(
        next_frame_step(FrameEvent::Copied(vec![1, 2, 3])),
        FrameStep::Finished(Ok(vec![1, 2, 3]))
    );
}

#[test]
fn reader_without_a_sample_is_asked_again() {
    assert_eq!(next_frame_step(FrameEvent::Sample(Ok(false))), FrameStep::ReadSample);
}

#[test]
fn failures_end_the_read() {
    let failed = |text: &str| FrameStep::Finished(Err(read_error(text)));
    assert_eq!(next_frame_step(FrameEvent::Sample(Err("a".to_string()))), failed("a"));
    assert_eq!(next_frame_step(FrameEvent::Buffer(Err("b".to_string()))), failed("b"));
    assert_eq!(next_frame_step(FrameEvent::Locked(Err("c".to_string()))), failed("c"));
}

#[test]
fn buffer_without_address_or_bytes_is_unlocked_and_refused() {
    assert_eq!(
        next_frame_step(FrameEvent::Locked(Ok(LockedBuffer { is_null: true, length: 16 }))),
        FrameStep::Unlock(read_error("Buffer Pointer Null"))
    );
    assert_eq!(
        next_frame_step(FrameEvent::Locked(Ok(LockedBuffer { is_null: true, length: 0 }))),
        FrameStep::Unlock(read_error("Buffer Pointer Null"))
    );
    assert_eq!(
        next_frame_step(FrameEvent::Locked(Ok(LockedBuffer { is_null: false, length: 0 }))),
        FrameStep::Unlock(read_error("Buffer Size is 0"))
    );
}

#[test]
fn empty_frame_is_never_delivered() {
    assert_eq!(
        next_frame_step(FrameEvent::Copied(vec![])),
        FrameStep::Finished(Err(read_error("Buffer Size is 0")))
    );
    assert_eq!(next_frame_step(FrameEvent::Copied(vec![0])), FrameStep::Finished(Ok(vec![0])));
}
