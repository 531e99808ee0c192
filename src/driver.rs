//! The decisions of the run loop. The caller pumps the window's events, hands
//! each one to a `Driver`, performs the action that comes back, and reports
//! how acquiring the next surface texture went.

use vstd::prelude::*;
use crate::session::{FramePlan, FrugInstance};
use crate::surface::PhysicalSize;

verus! {

/// Why the next surface texture could not be had.
#[derive(Clone, Copy, Debug, PartialEq, Eq, Structural)]
pub enum SurfaceError {
    /// Acquiring took too long.
    Timeout,
    /// The surface no longer matches the window.
    Outdated,
    /// The surface was invalidated.
    Lost,
    /// The device or driver ran out of memory.
    OutOfMemory,
}

/// An event of the session's window, as the run loop sees it.
#[derive(Clone, Copy, Debug, PartialEq, Eq, Structural)]
pub enum LoopEvent {
    CloseRequested,
    Resized(PhysicalSize),
    ScaleFactorChanged(PhysicalSize),
    RedrawRequested,
    MainEventsCleared,
    Other,
}

/// What the caller does next.
#[derive(Clone, Copy)]
pub enum Action {
    /// Nothing.
    Idle,
    /// Configure the surface with the session's configuration.
    Configure,
    /// Acquire the next surface texture, record this frame, submit and present.
    Draw(FramePlan),
    /// Ask the window for a redraw.
    RequestRedraw,
    /// Report this error and carry on; the next frame retries.
    Report(SurfaceError),
    /// Leave the loop.
    Exit,
}

/// The run loop's state: the session and whether the loop still runs.
pub struct Driver {
    pub session: FrugInstance,
    pub running: bool,
}

impl Driver {
    pub open spec fn wf(&self) -> bool {
        self.session.wf()
    }

    /// The state and action that follow `event`. Once the loop has stopped,
    /// nothing happens.
    pub open spec fn on_event(self, event: LoopEvent) -> (Driver, Action) {
        if !self.running {
            (self, Action::Idle)
        } else {
            match event {
                LoopEvent::CloseRequested => (Driver { running: false, ..self }, Action::Exit),
                LoopEvent::Resized(s) | LoopEvent::ScaleFactorChanged(s) => (
                    Driver { session: self.session.spec_resized(s), ..self },
                    if s.spec_is_drawable() { Action::Configure } else { Action::Idle },
                ),
                LoopEvent::RedrawRequested => (self, Action::Draw(self.session.spec_frame())),
                LoopEvent::MainEventsCleared => (self, Action::RequestRedraw),
                LoopEvent::Other => (self, Action::Idle),
            }
        }
    }

    /// The state and action that follow a frame whose surface texture was,
    /// or was not, acquired. A lost surface is resized to the last known size;
    /// running out of memory stops the loop; other errors are reported.
    pub open spec fn on_frame_result(self, result: Result<(), SurfaceError>) -> (Driver, Action) {
        if !self.running {
            (self, Action::Idle)
        } else {
            match result {
                Ok(()) => (self, Action::Idle),
                Err(SurfaceError::Lost) => (
                    Driver { session: self.session.spec_resized(self.session.spec_size()), ..self },
                    if self.session.spec_size().spec_is_drawable() {
                        Action::Configure
                    } else {
                        Action::Idle
                    },
                ),
                Err(SurfaceError::OutOfMemory) => (Driver { running: false, ..self }, Action::Exit),
                Err(e) => (self, Action::Report(e)),
            }
        }
    }

    /// A running loop over `session`.
    pub fn new(session: FrugInstance) -> (r: Driver)
        ensures
            r.session == session,
            r.running,
    {
        Driver { session, running: true }
    }

    /// Decides what follows `event`.
    pub fn handle_event(&mut self, event: LoopEvent) -> (r: Action)
        requires
            old(self).wf(),
        ensures
            final(self).wf(),
            (*final(self), r) == old(self).on_event(event),
    {
        if !self.running {
            return Action::Idle;
        }
        match event {
            LoopEvent::CloseRequested => {
                self.running = false;
                Action::Exit
            },
            LoopEvent::Resized(s) | LoopEvent::ScaleFactorChanged(s) => {
                if self.session.resize(s) {
                    Action::Configure
                } else {
                    Action::Idle
                }
            },
            LoopEvent::RedrawRequested => Action::Draw(self.session.frame_plan()),
            LoopEvent::MainEventsCleared => Action::RequestRedraw,
            LoopEvent::Other => Action::Idle,
        }
    }

    /// Decides what follows a frame, given how acquiring its surface texture
    /// went.
    pub fn handle_frame_result(&mut self, result: Result<(), SurfaceError>) -> (r: Action)
        requires
            old(self).wf(),
        ensures
            final(self).wf(),
            (*final(self), r) == old(self).on_frame_result(result),
    {
        if !self.running {
            return Action::Idle;
        }
        match result {
            Ok(()) => Action::Idle,
            Err(SurfaceError::Lost) => {
                let last = self.session.size();
                if self.session.resize(last) {
                    Action::Configure
                } else {
                    Action::Idle
                }
            },
            Err(SurfaceError::OutOfMemory) => {
                self.running = false;
                Action::Exit
            },
            Err(e) => Action::Report(e),
        }
    }
}

/// A lost surface is resized once, to the last known size, and the session
/// is otherwise left as it was: the caller configures the surface again
/// before the next frame is drawn.
pub proof fn lemma_lost_surface_reconfigures(d: Driver)
    requires
        d.wf(),
        d.running,
        d.session.spec_size().spec_is_drawable(),
    ensures
        d.on_frame_result(Err(SurfaceError::Lost)).0 == d,
        d.on_frame_result(Err(SurfaceError::Lost)).1 == Action::Configure,
{
    crate::session::lemma_resize_to_own_size(d.session);
}

/// Running out of memory ends the loop: no event that follows yields a frame
/// to draw, nor changes the state.
pub proof fn lemma_out_of_memory_ends_loop(d: Driver, event: LoopEvent)
    requires
        d.running,
    ensures
        d.on_frame_result(Err(SurfaceError::OutOfMemory)).1 == Action::Exit,
        !d.on_frame_result(Err(SurfaceError::OutOfMemory)).0.running,
        d.on_frame_result(Err(SurfaceError::OutOfMemory)).0.on_event(event) == (
        d.on_frame_result(Err(SurfaceError::OutOfMemory)).0, Action::Idle),
{
}

} // verus!
