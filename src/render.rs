//! The decisions of the render loop: when to set up the GPU, what time to
//! draw each frame at, and when to stop. The host performs the GPU work and
//! schedules the animation callbacks.

use vstd::prelude::*;

verus! {

/// How far the shader time advances on each animation callback.
pub const TIME_STEP: u64 = 20;

/// Where the render loop of one drawing surface stands.
#[derive(Clone, Copy, Debug, PartialEq, Eq, Structural)]
pub enum RenderPhase {
    /// Nothing has been set up yet.
    Uninitialized,
    /// Setup was handed to the host and has not reported back.
    Initialized,
    /// Frames are being drawn; the time of the last one drawn.
    Running(u64),
    /// The loop has ended, by cancellation or failed setup.
    Stopped,
}

/// What the host does on an animation callback.
#[derive(Clone, Copy, Debug, PartialEq, Eq, Structural)]
pub enum FrameAction {
    /// Set the time uniform to this value, draw, and schedule the next callback.
    Draw(u64),
    /// Draw nothing and schedule nothing.
    Halt,
}

/// The render loop of one drawing surface.
#[derive(Clone, Copy, Debug, PartialEq, Eq, Structural)]
pub struct RenderLoop {
    pub phase: RenderPhase,
}

/// The time that follows `t`, held at the largest value once it is reached.
pub open spec fn next_time(t: u64) -> u64 {
    if t + TIME_STEP <= u64::MAX {
        (t + TIME_STEP) as u64
    } else {
        u64::MAX
    }
}

impl RenderLoop {
    pub fn new() -> (r: RenderLoop)
        ensures
            r.phase == RenderPhase::Uninitialized,
    {
        RenderLoop { phase: RenderPhase::Uninitialized }
    }

    /// Asks to start the loop. Only the first request is granted: it returns
    /// `true`, and the host then sets up the GPU once. Any later request
    /// returns `false` and changes nothing, so no second loop is started.
    pub fn start(&mut self) -> (granted: bool)
        ensures
            granted == (old(self).phase == RenderPhase::Uninitialized),
            granted ==> final(self).phase == RenderPhase::Initialized,
            !granted ==> *final(self) == *old(self),
    {
        match self.phase {
            RenderPhase::Uninitialized => {
                self.phase = RenderPhase::Initialized;
                true
            },
            _ => false,
        }
    }

    /// The host reports how setup went. On success the first frame is drawn
    /// at time zero; a failed setup ends the loop. A report that answers no
    /// pending setup changes nothing and draws nothing.
    pub fn setup_done(&mut self, succeeded: bool) -> (action: FrameAction)
        ensures
            old(self).phase == RenderPhase::Initialized && succeeded ==> final(self).phase
                == RenderPhase::Running(0) && action == FrameAction::Draw(0),
            old(self).phase == RenderPhase::Initialized && !succeeded ==> final(self).phase
                == RenderPhase::Stopped && action == FrameAction::Halt,
            old(self).phase != RenderPhase::Initialized ==> *final(self) == *old(self) && action
                == FrameAction::Halt,
    {
        match self.phase {
            RenderPhase::Initialized => {
                if succeeded {
                    self.phase = RenderPhase::Running(0);
                    FrameAction::Draw(0)
                } else {
                    self.phase = RenderPhase::Stopped;
                    FrameAction::Halt
                }
            },
            _ => FrameAction::Halt,
        }
    }

    /// One animation callback. While running and not cancelled, the time
    /// advances by one step and the frame is drawn at the new time. A
    /// cancellation seen here stops the loop; outside the running phase a
    /// callback draws nothing.
    pub fn frame(&mut self, cancelled: bool) -> (action: FrameAction)
        ensures
            match old(self).phase {
                RenderPhase::Running(t) => if cancelled {
                    final(self).phase == RenderPhase::Stopped && action == FrameAction::Halt
                } else {
                    final(self).phase == RenderPhase::Running(next_time(t)) && action
                        == FrameAction::Draw(next_time(t))
                },
                _ => *final(self) == *old(self) && action == FrameAction::Halt,
            },
    {
        match self.phase {
            RenderPhase::Running(t) => {
                if cancelled {
                    self.phase = RenderPhase::Stopped;
                    FrameAction::Halt
                } else {
                    let next = t.saturating_add(TIME_STEP);
                    self.phase = RenderPhase::Running(next);
                    FrameAction::Draw(next)
                }
            },
            _ => FrameAction::Halt,
        }
    }

    /// Ends the loop, whatever its phase.
    pub fn stop(&mut self)
        ensures
            final(self).phase == RenderPhase::Stopped,
    {
        self.phase = RenderPhase::Stopped;
    }
}

} // verus!
