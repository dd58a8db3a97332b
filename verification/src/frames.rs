//! Reading one frame: what to ask of the platform next, and what to make of
//! each of its answers.
//!
//! The reader is polled until it hands out a sample. The sample is made into
//! one contiguous buffer, the buffer is locked, its bytes are copied out and
//! the lock is released. A buffer without an address or without bytes is an
//! error, and the lock is released on that path as well.

use vstd::prelude::*;
use crate::error::{ErrorView, NokhwaError};

verus! {

/// What locking a buffer gave: whether the address of its bytes is null, and
/// how many of its bytes are valid.
#[derive(Debug, Clone, Copy, PartialEq, Eq, Structural)]
pub struct LockedBuffer {
    pub is_null: bool,
    pub length: u32,
}

/// What happened while a frame was being read. Each failure carries the
/// platform's diagnostic.
#[derive(Debug, PartialEq, Eq)]
pub enum FrameEvent {
    /// A frame is wanted.
    Requested,
    /// The reader was asked for a sample: it failed, or it says whether it
    /// handed one out.
    Sample(Result<bool, String>),
    /// The sample was made into one contiguous buffer, or could not be.
    Buffer(Result<(), String>),
    /// The buffer was locked, or could not be.
    Locked(Result<LockedBuffer, String>),
    /// The valid bytes were copied out and the lock was released.
    Copied(Vec<u8>),
}

/// What to do next while reading a frame.
#[derive(Debug, PartialEq, Eq)]
pub enum FrameStep {
    /// Ask the reader for a sample and report `Sample`.
    ReadSample,
    /// Make the sample into one contiguous buffer and report `Buffer`.
    MakeContiguous,
    /// Lock the buffer and report `Locked`.
    Lock,
    /// Copy so many bytes out of the buffer, release the lock, and report
    /// `Copied`.
    Copy(u32),
    /// Release the lock, then fail with the error.
    Unlock(NokhwaError),
    /// Nothing is left to do: here is the frame, or why there is none.
    Finished(Result<Vec<u8>, NokhwaError>),
}

/// The mathematical content of a [`FrameStep`].
pub enum FrameStepView {
    ReadSample,
    MakeContiguous,
    Lock,
    Copy(u32),
    Unlock(ErrorView),
    Finished(Result<Seq<u8>, ErrorView>),
}

impl View for FrameStep {
    type V = FrameStepView;

    open spec fn view(&self) -> FrameStepView {
        match *self {
            FrameStep::ReadSample => FrameStepView::ReadSample,
            FrameStep::MakeContiguous => FrameStepView::MakeContiguous,
            FrameStep::Lock => FrameStepView::Lock,
            FrameStep::Copy(length) => FrameStepView::Copy(length),
            FrameStep::Unlock(e) => FrameStepView::Unlock(e@),
            FrameStep::Finished(Ok(bytes)) => FrameStepView::Finished(Ok(bytes@)),
            FrameStep::Finished(Err(e)) => FrameStepView::Finished(Err(e@)),
        }
    }
}

/// The next step of reading a frame. A reader that has no sample yet is
/// asked again; a failure ends the read. A locked buffer is copied only if
/// it has an address and at least one valid byte, and a frame is delivered
/// only if it holds at least one byte.
pub open spec fn frame_step(event: FrameEvent) -> FrameStepView {
    match event {
        FrameEvent::Requested => FrameStepView::ReadSample,
        FrameEvent::Sample(Err(why)) => FrameStepView::Finished(
            Err(ErrorView::ReadFrameError(why@)),
        ),
        FrameEvent::Sample(Ok(present)) => if present {
            FrameStepView::MakeContiguous
        } else {
            FrameStepView::ReadSample
        },
        FrameEvent::Buffer(Err(why)) => FrameStepView::Finished(
            Err(ErrorView::ReadFrameError(why@)),
        ),
        FrameEvent::Buffer(Ok(_)) => FrameStepView::Lock,
        FrameEvent::Locked(Err(why)) => FrameStepView::Finished(
            Err(ErrorView::ReadFrameError(why@)),
        ),
        FrameEvent::Locked(Ok(buffer)) => if buffer.is_null {
            FrameStepView::Unlock(ErrorView::ReadFrameError("Buffer Pointer Null"@))
        } else if buffer.length == 0 {
            FrameStepView::Unlock(ErrorView::ReadFrameError("Buffer Size is 0"@))
        } else {
            FrameStepView::Copy(buffer.length)
        },
        FrameEvent::Copied(bytes) => if bytes@.len() == 0 {
            FrameStepView::Finished(Err(ErrorView::ReadFrameError("Buffer Size is 0"@)))
        } else {
            FrameStepView::Finished(Ok(bytes@))
        },
    }
}

/// Takes one step of reading a frame.
///
/// The caller reports `Requested` first, does what each step asks for and
/// reports what came of it, until a step is `Finished`; after `Unlock` it
/// releases the lock and returns the error.
pub fn next_frame_step(event: FrameEvent) -> (step: FrameStep)
    ensures
        step@ == frame_step(event),
        step matches FrameStep::Finished(Ok(bytes)) ==> bytes.len() > 0,
        step matches FrameStep::Copy(length) ==> length > 0,
{
    match event {
        FrameEvent::Requested => FrameStep::ReadSample,
        FrameEvent::Sample(Err(why)) => FrameStep::Finished(Err(NokhwaError::ReadFrameError(why))),
        FrameEvent::Sample(Ok(present)) => {
            if present {
                FrameStep::MakeContiguous
            } else {
                FrameStep::ReadSample
            }
        },
        FrameEvent::Buffer(Err(why)) => FrameStep::Finished(Err(NokhwaError::ReadFrameError(why))),
        FrameEvent::Buffer(Ok(_)) => FrameStep::Lock,
        FrameEvent::Locked(Err(why)) => FrameStep::Finished(Err(NokhwaError::ReadFrameError(why))),
        FrameEvent::Locked(Ok(buffer)) => {
            if buffer.is_null {
                FrameStep::Unlock(
                    NokhwaError::ReadFrameError(String::from_str("Buffer Pointer Null")),
                )
            } else if buffer.length == 0 {
                FrameStep::Unlock(NokhwaError::ReadFrameError(String::from_str("Buffer Size is 0")))
            } else {
                FrameStep::Copy(buffer.length)
            }
        },
        FrameEvent::Copied(bytes) => {
            if bytes.len() == 0 {
                FrameStep::Finished(
                    Err(NokhwaError::ReadFrameError(String::from_str("Buffer Size is 0"))),
                )
            } else {
                FrameStep::Finished(Ok(bytes))
            }
        },
    }
}

/// No step delivers an empty frame, and a buffer without an address or
/// without valid bytes is never copied from: it is unlocked and reported as
/// a read error.
pub proof fn lemma_no_empty_frame(event: FrameEvent)
    ensures
        frame_step(event) matches FrameStepView::Finished(Ok(bytes)) ==> bytes.len() > 0,
        event matches FrameEvent::Locked(Ok(buffer)) && (buffer.is_null || buffer.length == 0)
            ==> frame_step(event) matches FrameStepView::Unlock(ErrorView::ReadFrameError(_)),
        frame_step(event) is Finished ==> !(event is Requested) && !(event matches FrameEvent::Sample(
            Ok(_),
        )),
        frame_step(event) is ReadSample <==> event is Requested || event matches FrameEvent::Sample(
            Ok(false),
        ),
{
}

} // verus!
