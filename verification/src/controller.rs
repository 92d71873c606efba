//! The frame loop controller: a state machine from window events and
//! acquisition outcomes to the actions the application must take.
//!
//! The application owns the event loop and the GPU; the controller owns
//! every decision. `Running` issues a frame per tick. `Resizing` records
//! that the surface must be reconfigured before the next acquisition,
//! which is how a transient surface error is recovered. `Exiting` is
//! terminal: no further frame is issued, already-submitted GPU work is
//! left to drain.

use vstd::prelude::*;

use crate::error::SurfaceError;
use crate::error::spec_is_transient;
use crate::surface::SurfaceConfig;
use crate::surface::spec_reconfigure_changes;
use crate::surface::spec_reconfigured;

verus! {

/// The controller's state.
#[derive(Clone, Copy, PartialEq, Eq, Structural, Debug)]
pub enum ControlState {
    /// Issue a frame every tick.
    Running,
    /// A reconfigure is owed before the next acquisition.
    Resizing,
    /// Terminal: stop issuing frames and unwind.
    Exiting,
}

/// A window-system event, as plain values.
#[derive(Clone, Copy, PartialEq, Eq, Structural, Debug)]
pub enum LoopEvent {
    CloseRequested,
    ExitKeyPressed,
    Resized { width: u32, height: u32 },
    ScaleFactorChanged { width: u32, height: u32 },
}

/// What the application must do right after handing over an event.
#[derive(Clone, Copy, PartialEq, Eq, Structural, Debug)]
pub enum EventResponse {
    /// Configure the GPU surface to the controller's stored configuration.
    Reconfigure,
    /// Nothing.
    Ignore,
    /// Stop the loop; let submitted GPU work drain, then release
    /// resources.
    BeginExit,
}

/// What the application must do at a redraw tick.
#[derive(Clone, Copy, PartialEq, Eq, Structural, Debug)]
pub enum TickPlan {
    /// Configure the surface to the stored configuration, then acquire a
    /// frame.
    ReconfigureThenAcquire,
    /// Acquire a frame directly.
    Acquire,
    /// No frame: the loop is over.
    Skip,
}

/// What acquiring the frame came to.
#[derive(Clone, Copy, PartialEq, Eq, Structural, Debug)]
pub enum AcquireOutcome {
    /// A presentable frame is in hand.
    Acquired,
    /// No frame; the error says whether a retry can help.
    Failed(SurfaceError),
}

/// What the application must do with the acquisition's outcome.
#[derive(Clone, Copy, PartialEq, Eq, Structural, Debug)]
pub enum FrameDirective {
    /// Step the simulation, render the read snapshot, present the frame.
    Proceed,
    /// Drop this tick; the controller retries after a reconfigure.
    SkipFrame,
    /// Unrecoverable: end the loop.
    Abort,
}

/// The size a resize or scale-change event carries, if it carries one.
pub open spec fn spec_event_size(ev: LoopEvent) -> Option<(u32, u32)> {
    match ev {
        LoopEvent::CloseRequested => None,
        LoopEvent::ExitKeyPressed => None,
        LoopEvent::Resized { width, height } => Some((width, height)),
        LoopEvent::ScaleFactorChanged { width, height } => Some((width, height)),
    }
}

/// The frame loop's decisions, over the surface configuration it tracks.
pub struct FrameLoopController {
    pub state: ControlState,
    pub config: SurfaceConfig,
    pub fatal: bool,
    /// Whether an acquired frame has not been presented or dropped yet.
    /// At most one frame is ever outstanding.
    pub frame_outstanding: bool,
}

impl FrameLoopController {
    /// The stored configuration always has a positive area.
    pub open spec fn wf(self) -> bool {
        self.config.wf()
    }

    /// Starts the loop over a window of the given size.
    pub fn new(width: u32, height: u32) -> (r: FrameLoopController)
        requires
            width > 0,
            height > 0,
        ensures
            r.state is Running,
            r.config.width == width,
            r.config.height == height,
            !r.fatal,
            !r.frame_outstanding,
            r.wf(),
    {
        FrameLoopController {
            state: ControlState::Running,
            config: SurfaceConfig::new(width, height),
            fatal: false,
            frame_outstanding: false,
        }
    }

    /// Decides on a window event. A close request or the exit key ends
    /// the loop gracefully. A size event updates the stored configuration
    /// under the reconfigure rules — a zero dimension is ignored — and
    /// demands a surface reconfigure exactly when the configuration
    /// changed, so the configuration reflects the most recent known size
    /// before the next acquisition and no resize passes silently.
    pub fn handle_event(&mut self, ev: LoopEvent) -> (r: EventResponse)
        requires
            old(self).wf(),
        ensures
            final(self).wf(),
            final(self).fatal == old(self).fatal,
            final(self).frame_outstanding == old(self).frame_outstanding,
            ev is CloseRequested || ev is ExitKeyPressed ==> {
                &&& final(self).state is Exiting
                &&& final(self).config == old(self).config
                &&& r is BeginExit
            },
            spec_event_size(ev) matches Some(sz) ==> {
                &&& final(self).state == old(self).state
                &&& final(self).config == spec_reconfigured(old(self).config, sz.0, sz.1)
                &&& (r is Reconfigure <==> spec_reconfigure_changes(old(self).config, sz.0, sz.1))
                &&& (r is Reconfigure || r is Ignore)
            },
    {
        match ev {
            LoopEvent::CloseRequested => {
                self.state = ControlState::Exiting;
                EventResponse::BeginExit
            },
            LoopEvent::ExitKeyPressed => {
                self.state = ControlState::Exiting;
                EventResponse::BeginExit
            },
            LoopEvent::Resized { width, height } => self.apply_size(width, height),
            LoopEvent::ScaleFactorChanged { width, height } => self.apply_size(width, height),
        }
    }

    /// Folds a reported size into the stored configuration.
    fn apply_size(&mut self, width: u32, height: u32) -> (r: EventResponse)
        requires
            old(self).wf(),
        ensures
            final(self).wf(),
            final(self).state == old(self).state,
            final(self).fatal == old(self).fatal,
            final(self).frame_outstanding == old(self).frame_outstanding,
            final(self).config == spec_reconfigured(old(self).config, width, height),
            r is Reconfigure <==> spec_reconfigure_changes(old(self).config, width, height),
            r is Reconfigure || r is Ignore,
    {
        if self.config.reconfigure(width, height) {
            EventResponse::Reconfigure
        } else {
            EventResponse::Ignore
        }
    }

    /// Decides what the redraw tick does. In `Resizing` the owed
    /// reconfigure is discharged first and the loop is running again; an
    /// acquisition failure would put it back. A tick begins only with no
    /// frame outstanding: the previous frame was presented or dropped
    /// within its own tick.
    pub fn begin_tick(&mut self) -> (r: TickPlan)
        requires
            old(self).wf(),
            !old(self).frame_outstanding,
        ensures
            final(self).wf(),
            final(self).config == old(self).config,
            final(self).fatal == old(self).fatal,
            !final(self).frame_outstanding,
            old(self).state is Exiting ==> r is Skip && final(self).state is Exiting,
            old(self).state is Running ==> r is Acquire && final(self).state is Running,
            old(self).state is Resizing ==> r is ReconfigureThenAcquire
                && final(self).state is Running,
    {
        match self.state {
            ControlState::Exiting => TickPlan::Skip,
            ControlState::Running => TickPlan::Acquire,
            ControlState::Resizing => {
                self.state = ControlState::Running;
                TickPlan::ReconfigureThenAcquire
            },
        }
    }

    /// Decides on the acquisition's outcome. A transient failure — the
    /// surface was lost or is outdated — skips the frame and owes a
    /// reconfigure, so the next tick retries; it never ends the loop. An
    /// unrecoverable failure ends the loop with a fatal mark.
    pub fn handle_acquire(&mut self, outcome: AcquireOutcome) -> (r: FrameDirective)
        requires
            old(self).wf(),
            old(self).state is Running,
            !old(self).frame_outstanding,
        ensures
            final(self).wf(),
            final(self).config == old(self).config,
            final(self).frame_outstanding == (outcome is Acquired),
            outcome is Acquired ==> {
                &&& r is Proceed
                &&& final(self).state is Running
                &&& final(self).fatal == old(self).fatal
            },
            outcome matches AcquireOutcome::Failed(e) && spec_is_transient(e) ==> {
                &&& r is SkipFrame
                &&& final(self).state is Resizing
                &&& final(self).fatal == old(self).fatal
            },
            outcome matches AcquireOutcome::Failed(e) && !spec_is_transient(e) ==> {
                &&& r is Abort
                &&& final(self).state is Exiting
                &&& final(self).fatal
            },
    {
        match outcome {
            AcquireOutcome::Acquired => {
                self.frame_outstanding = true;
                FrameDirective::Proceed
            },
            AcquireOutcome::Failed(e) => {
                if e.is_transient() {
                    self.state = ControlState::Resizing;
                    FrameDirective::SkipFrame
                } else {
                    self.state = ControlState::Exiting;
                    self.fatal = true;
                    FrameDirective::Abort
                }
            },
        }
    }

    /// Records that the acquired frame left the loop's hands: it was
    /// presented, or dropped on an error path. Frames live within a
    /// single tick and are never persisted across ticks.
    pub fn frame_retired(&mut self)
        requires
            old(self).frame_outstanding,
        ensures
            *final(self) == (FrameLoopController { frame_outstanding: false, ..*old(self) }),
    {
        self.frame_outstanding = false;
    }

    /// Whether the loop is over.
    pub fn should_exit(&self) -> (r: bool)
        ensures
            r == (self.state is Exiting),
    {
        match self.state {
            ControlState::Exiting => true,
            ControlState::Running => false,
            ControlState::Resizing => false,
        }
    }

    /// The process exit code: zero for a graceful close, non-zero after
    /// an unrecoverable device error.
    pub fn exit_code(&self) -> (r: i32)
        ensures
            r == 0 <==> !self.fatal,
    {
        if self.fatal {
            1
        } else {
            0
        }
    }
}

} // verus!
