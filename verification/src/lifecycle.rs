//! The life of the capture subsystem: started once for the whole process,
//! shared by every open device, shut down when the last device is closed.
//!
//! Starting and stopping the subsystem is the platform's work. What has to be
//! done next, and what each answer of the platform means, is decided here,
//! one step at a time.
//!
//! The state is one value for the whole process. Every step takes it by
//! exclusive reference, so no two steps ever overlap: where devices are
//! opened and closed on several threads, the state is kept under a lock and
//! a whole start, stop, open or close is made while holding it.

use vstd::prelude::*;
use crate::error::{ApiBackend, ErrorView, NokhwaError};

verus! {

/// The state of the capture subsystem: whether it is started, and how many
/// devices are open.
#[derive(Debug, PartialEq, Eq)]
pub struct Lifecycle {
    initialized: bool,
    sessions: usize,
}

impl Lifecycle {
    /// Whether the subsystem is started.
    pub closed spec fn ready(&self) -> bool {
        self.initialized
    }

    /// The number of open devices.
    pub closed spec fn open_sessions(&self) -> nat {
        self.sessions as nat
    }

    /// Whether one more device can be counted.
    pub closed spec fn has_room(&self) -> bool {
        self.sessions < usize::MAX
    }

    /// The state after one more device was opened.
    pub closed spec fn after_open(self) -> Lifecycle {
        Lifecycle { initialized: self.initialized, sessions: (self.sessions + 1) as usize }
    }

    /// The state after one device was closed. Closing with no device open
    /// changes nothing.
    pub closed spec fn after_close(self) -> Lifecycle {
        Lifecycle {
            initialized: self.initialized,
            sessions: if self.sessions > 0 {
                (self.sessions - 1) as usize
            } else {
                0
            },
        }
    }

    /// The state with the subsystem started or stopped.
    pub closed spec fn with_ready(self, ready: bool) -> Lifecycle {
        Lifecycle { initialized: ready, sessions: self.sessions }
    }

    /// A subsystem that was never started, with no device open.
    pub fn new() -> (lifecycle: Lifecycle)
        ensures
            !lifecycle.ready(),
            lifecycle.open_sessions() == 0,
    {
        Lifecycle { initialized: false, sessions: 0 }
    }

    /// Whether the subsystem is started.
    pub fn is_initialized(&self) -> (ready: bool)
        ensures
            ready == self.ready(),
    {
        self.initialized
    }

    /// The number of open devices.
    pub fn session_count(&self) -> (count: usize)
        ensures
            count == self.open_sessions(),
    {
        self.sessions
    }

    /// Whether one more device can be counted.
    pub fn can_open(&self) -> (room: bool)
        ensures
            room == self.has_room(),
    {
        self.sessions < usize::MAX
    }

    /// Counts one more open device.
    pub(crate) fn session_opened(&mut self)
        requires
            old(self).has_room(),
        ensures
            *final(self) == old(self).after_open(),
            final(self).open_sessions() == old(self).open_sessions() + 1,
            final(self).ready() == old(self).ready(),
    {
        self.sessions = self.sessions + 1;
    }

    /// Counts one open device less, and says whether none is left.
    pub(crate) fn session_closed(&mut self) -> (last: bool)
        ensures
            *final(self) == old(self).after_close(),
            final(self).open_sessions() == if old(self).open_sessions() > 0 {
                old(self).open_sessions() - 1
            } else {
                0
            },
            final(self).ready() == old(self).ready(),
            last == (final(self).open_sessions() == 0),
    {
        if self.sessions > 0 {
            self.sessions = self.sessions - 1;
        }
        self.sessions == 0
    }

    /// What the state with the subsystem started or stopped holds.
    pub proof fn lemma_with_ready(self, ready: bool)
        ensures
            self.with_ready(ready).ready() == ready,
            self.with_ready(ready).open_sessions() == self.open_sessions(),
            self.with_ready(self.ready()) == self,
    {
    }

    /// Opening a device adds one to the number of open devices and closing
    /// one takes one off; neither starts or stops the subsystem.
    pub proof fn lemma_counting(self)
        ensures
            self.has_room() <==> self.open_sessions() < usize::MAX,
            self.has_room() ==> self.after_open().open_sessions() == self.open_sessions() + 1,
            self.open_sessions() > 0 ==> self.after_close().open_sessions() == self.open_sessions()
                - 1,
            self.open_sessions() == 0 ==> self.after_close() == self,
            self.after_open().ready() == self.ready(),
            self.after_close().ready() == self.ready(),
    {
    }

    /// A device that is opened and closed again leaves the state of the
    /// subsystem as it was before the device was opened. A device is only
    /// ever opened where one more can be counted.
    pub proof fn lemma_open_then_close(self)
        requires
            self.has_room(),
        ensures
            self.after_open().after_close() == self,
            self.after_open().after_close().open_sessions() == self.open_sessions(),
    {
    }

    /// The state after `n` more devices were opened.
    pub closed spec fn opened(self, n: nat) -> Lifecycle
        decreases n,
    {
        if n == 0 {
            self
        } else {
            self.after_open().opened((n - 1) as nat)
        }
    }

    /// The state after `n` devices were closed.
    pub closed spec fn closed(self, n: nat) -> Lifecycle
        decreases n,
    {
        if n == 0 {
            self
        } else {
            self.after_close().closed((n - 1) as nat)
        }
    }

    proof fn lemma_opened(self, n: nat)
        requires
            self.sessions + n <= usize::MAX,
        ensures
            self.opened(n).sessions == self.sessions + n,
            self.opened(n).initialized == self.initialized,
        decreases n,
    {
        if n > 0 {
            self.after_open().lemma_opened((n - 1) as nat);
        }
    }

    proof fn lemma_closed(self, n: nat)
        requires
            n <= self.sessions,
        ensures
            self.closed(n).sessions == self.sessions - n,
            self.closed(n).initialized == self.initialized,
        decreases n,
    {
        if n > 0 {
            self.after_close().lemma_closed((n - 1) as nat);
        }
    }

    /// Devices that are opened and closed in between do not change this:
    /// where `others` further devices are opened after one and closed again
    /// before it, closing the one restores the state from before it was
    /// opened.
    pub proof fn lemma_nested_sessions(self, others: nat)
        requires
            self.open_sessions() + 1 + others <= usize::MAX,
        ensures
            self.after_open().opened(others).open_sessions() == self.open_sessions() + 1 + others,
            self.after_open().opened(others).closed(others).after_close() == self,
    {
        let one = self.after_open();
        one.lemma_opened(others);
        one.opened(others).lemma_closed(others);
    }
}

/// What happened while the subsystem was being started.
#[derive(Debug, PartialEq, Eq)]
pub enum StartupEvent {
    /// Somebody needs the subsystem.
    Requested,
    /// The component object library was initialized, or could not be.
    ComStarted(Result<(), String>),
    /// The media foundation was started, or could not be.
    FoundationStarted(Result<(), String>),
}

/// What to do next while starting the subsystem.
#[derive(Debug, PartialEq, Eq)]
pub enum StartupStep {
    /// Initialize the component object library and report `ComStarted`.
    InitializeCom,
    /// Start the media foundation and report `FoundationStarted`.
    StartFoundation,
    /// Release the component object library again, then fail with the error.
    ReleaseCom(NokhwaError),
    /// Nothing is left to do: the subsystem is started, or starting failed.
    Finished(Result<(), NokhwaError>),
}

/// The mathematical content of a [`StartupStep`].
pub enum StartupStepView {
    InitializeCom,
    StartFoundation,
    ReleaseCom(ErrorView),
    Finished(Result<(), ErrorView>),
}

impl View for StartupStep {
    type V = StartupStepView;

    open spec fn view(&self) -> StartupStepView {
        match *self {
            StartupStep::InitializeCom => StartupStepView::InitializeCom,
            StartupStep::StartFoundation => StartupStepView::StartFoundation,
            StartupStep::ReleaseCom(e) => StartupStepView::ReleaseCom(e@),
            StartupStep::Finished(Ok(_)) => StartupStepView::Finished(Ok(())),
            StartupStep::Finished(Err(e)) => StartupStepView::Finished(Err(e@)),
        }
    }
}

/// The error of a subsystem that could not be started.
pub open spec fn startup_fault(why: Seq<char>) -> ErrorView {
    ErrorView::InitializeError { backend: ApiBackend::MediaFoundation, error: why }
}

/// The error of a subsystem that could not be shut down.
pub open spec fn shutdown_fault(why: Seq<char>) -> ErrorView {
    ErrorView::ShutdownError { backend: ApiBackend::MediaFoundation, error: why }
}

/// The next step of starting the subsystem. A subsystem that is started
/// already needs nothing; otherwise the component object library comes
/// first and the media foundation second, and if the second fails the first
/// is released again.
pub open spec fn startup_step(ready: bool, event: StartupEvent) -> StartupStepView {
    match event {
        StartupEvent::Requested => if ready {
            StartupStepView::Finished(Ok(()))
        } else {
            StartupStepView::InitializeCom
        },
        StartupEvent::ComStarted(Ok(_)) => StartupStepView::StartFoundation,
        StartupEvent::ComStarted(Err(why)) => StartupStepView::Finished(Err(startup_fault(why@))),
        StartupEvent::FoundationStarted(Ok(_)) => StartupStepView::Finished(Ok(())),
        StartupEvent::FoundationStarted(Err(why)) => StartupStepView::ReleaseCom(startup_fault(why@)),
    }
}

/// Whether the subsystem is started after `event`: it becomes started when
/// the media foundation has started, and no other event changes it.
pub open spec fn startup_ready(ready: bool, event: StartupEvent) -> bool {
    ready || event matches StartupEvent::FoundationStarted(Ok(_))
}

/// Takes one step of starting the capture subsystem.
///
/// The caller reports `Requested` first, does what each step asks for and
/// reports what came of it, until a step is `Finished`; after `ReleaseCom`
/// it releases the library and returns the error.
pub fn initialize_mf(lifecycle: &mut Lifecycle, event: StartupEvent) -> (step: StartupStep)
    ensures
        step@ == startup_step(old(lifecycle).ready(), event),
        *final(lifecycle) == old(lifecycle).with_ready(startup_ready(old(lifecycle).ready(), event)),
        final(lifecycle).ready() == startup_ready(old(lifecycle).ready(), event),
        final(lifecycle).open_sessions() == old(lifecycle).open_sessions(),
        old(lifecycle).ready() && event is Requested ==> *final(lifecycle) == *old(
            lifecycle,
        ) && step@ == StartupStepView::Finished(Ok(())),
{
    match event {
        StartupEvent::Requested => {
            if lifecycle.initialized {
                StartupStep::Finished(Ok(()))
            } else {
                StartupStep::InitializeCom
            }
        },
        StartupEvent::ComStarted(Ok(_)) => StartupStep::StartFoundation,
        StartupEvent::ComStarted(Err(why)) => StartupStep::Finished(
            Err(NokhwaError::InitializeError { backend: ApiBackend::MediaFoundation, error: why }),
        ),
        StartupEvent::FoundationStarted(Ok(_)) => {
            lifecycle.initialized = true;
            StartupStep::Finished(Ok(()))
        },
        StartupEvent::FoundationStarted(Err(why)) => StartupStep::ReleaseCom(
            NokhwaError::InitializeError { backend: ApiBackend::MediaFoundation, error: why },
        ),
    }
}

/// What happened while the subsystem was being shut down.
#[derive(Debug, PartialEq, Eq)]
pub enum ShutdownEvent {
    /// Nobody needs the subsystem any more.
    Requested,
    /// The media foundation was shut down, or could not be.
    FoundationStopped(Result<(), String>),
    /// The component object library was released.
    ComReleased,
}

/// What to do next while shutting the subsystem down.
#[derive(Debug, PartialEq, Eq)]
pub enum ShutdownStep {
    /// Shut the media foundation down and report `FoundationStopped`.
    StopFoundation,
    /// Release the component object library and report `ComReleased`.
    ReleaseCom,
    /// Nothing is left to do: the subsystem is down, or stopping failed.
    Finished(Result<(), NokhwaError>),
}

/// The mathematical content of a [`ShutdownStep`].
pub enum ShutdownStepView {
    StopFoundation,
    ReleaseCom,
    Finished(Result<(), ErrorView>),
}

impl View for ShutdownStep {
    type V = ShutdownStepView;

    open spec fn view(&self) -> ShutdownStepView {
        match *self {
            ShutdownStep::StopFoundation => ShutdownStepView::StopFoundation,
            ShutdownStep::ReleaseCom => ShutdownStepView::ReleaseCom,
            ShutdownStep::Finished(Ok(_)) => ShutdownStepView::Finished(Ok(())),
            ShutdownStep::Finished(Err(e)) => ShutdownStepView::Finished(Err(e@)),
        }
    }
}

/// The next step of shutting the subsystem down. A subsystem that is not
/// started needs nothing; otherwise the media foundation is shut down, and
/// only when that has succeeded the component object library is released,
/// which ends the shutdown with success.
pub open spec fn shutdown_step(ready: bool, event: ShutdownEvent) -> ShutdownStepView {
    match event {
        ShutdownEvent::Requested => if ready {
            ShutdownStepView::StopFoundation
        } else {
            ShutdownStepView::Finished(Ok(()))
        },
        ShutdownEvent::FoundationStopped(Ok(_)) => ShutdownStepView::ReleaseCom,
        ShutdownEvent::FoundationStopped(Err(why)) => ShutdownStepView::Finished(
            Err(shutdown_fault(why@)),
        ),
        ShutdownEvent::ComReleased => ShutdownStepView::Finished(Ok(())),
    }
}

/// Whether the subsystem is started after `event`: it stops being started
/// when the media foundation has shut down, and no other event changes it.
pub open spec fn shutdown_ready(ready: bool, event: ShutdownEvent) -> bool {
    ready && !(event matches ShutdownEvent::FoundationStopped(Ok(_)))
}

/// Takes one step of shutting the capture subsystem down.
///
/// The caller reports `Requested` first, does what each step asks for and
/// reports what came of it, until a step is `Finished`.
pub fn de_initialize_mf(lifecycle: &mut Lifecycle, event: ShutdownEvent) -> (step: ShutdownStep)
    ensures
        step@ == shutdown_step(old(lifecycle).ready(), event),
        *final(lifecycle) == old(lifecycle).with_ready(shutdown_ready(old(lifecycle).ready(), event)),
        final(lifecycle).ready() == shutdown_ready(old(lifecycle).ready(), event),
        final(lifecycle).open_sessions() == old(lifecycle).open_sessions(),
        !old(lifecycle).ready() && event is Requested ==> *final(lifecycle) == *old(
            lifecycle,
        ) && step@ == ShutdownStepView::Finished(Ok(())),
{
    match event {
        ShutdownEvent::Requested => {
            if lifecycle.initialized {
                ShutdownStep::StopFoundation
            } else {
                ShutdownStep::Finished(Ok(()))
            }
        },
        ShutdownEvent::FoundationStopped(Ok(_)) => {
            lifecycle.initialized = false;
            ShutdownStep::ReleaseCom
        },
        ShutdownEvent::FoundationStopped(Err(why)) => ShutdownStep::Finished(
            Err(NokhwaError::ShutdownError { backend: ApiBackend::MediaFoundation, error: why }),
        ),
        ShutdownEvent::ComReleased => ShutdownStep::Finished(Ok(())),
    }
}

} // verus!
