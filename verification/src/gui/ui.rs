//! The simulation's control state, how a frame consumes it, and the overlay
//! that shares it.
use std::cell::RefCell;
use std::rc::Rc;
use vstd::prelude::*;

verus! {

/// Declares `std::cell::RefCell` to Verus as an opaque type, so that the
/// overlay can hold the shared state; nothing about its contents is claimed.
#[verifier::external_type_specification]
#[verifier::external_body]
#[verifier::reject_recursive_types(T)]
pub struct ExRefCell<T: ?Sized>(RefCell<T>);

/// What the controls set: whether the simulation runs, whether one step was
/// asked for, how many steps a frame runs, the steps run so far, the aperture
/// kind to place (-1 sink, 1 source) and the scale level.
pub struct SimulationState {
    pub is_running: bool,
    pub single_step: bool,
    pub ticks_per_frame: u32,
    pub total_ticks: u64,
    pub selected_aperture_type: i32,
    pub active_scale_level: u32,
}

impl Default for SimulationState {
    fn default() -> (r: Self)
        ensures
            r.is_running,
            !r.single_step,
            r.ticks_per_frame == 1,
            r.total_ticks == 0,
            r.selected_aperture_type == -1,
            r.active_scale_level == 0,
    {
        Self {
            is_running: true,
            single_step: false,
            ticks_per_frame: 1,
            total_ticks: 0,
            selected_aperture_type: -1,
            active_scale_level: 0,
        }
    }
}

/// The simulation steps that the next frame runs: one for a requested single
/// step, the configured number while running, none while paused.
pub open spec fn frame_ticks(s: SimulationState) -> int {
    if s.single_step {
        1
    } else if s.is_running {
        s.ticks_per_frame as int
    } else {
        0
    }
}

/// The state after a frame: the steps it ran are counted and a single-step
/// request is used up; a paused frame with no request changes nothing.
pub open spec fn after_frame(s: SimulationState) -> SimulationState {
    if s.is_running || s.single_step {
        SimulationState {
            single_step: false,
            total_ticks: (s.total_ticks + frame_ticks(s)) as u64,
            ..s
        }
    } else {
        s
    }
}

impl SimulationState {
    /// Starts a frame: returns how many simulation steps to run in it, counts
    /// them into the total, and uses up a single-step request.
    pub fn begin_frame(&mut self) -> (r: u32)
        requires
            old(self).total_ticks + frame_ticks(*old(self)) <= u64::MAX,
        ensures
            r == frame_ticks(*old(self)),
            *final(self) == after_frame(*old(self)),
            old(self).single_step ==> r == 1,
            !old(self).single_step && old(self).is_running ==> r == old(self).ticks_per_frame,
            !old(self).single_step && !old(self).is_running ==> r == 0,
            final(self).total_ticks == old(self).total_ticks + r,
            !final(self).single_step,
            final(self).is_running == old(self).is_running,
            final(self).ticks_per_frame == old(self).ticks_per_frame,
            final(self).selected_aperture_type == old(self).selected_aperture_type,
            final(self).active_scale_level == old(self).active_scale_level,
    {
        if self.is_running || self.single_step {
            let ticks = if self.single_step {
                1
            } else {
                self.ticks_per_frame
            };
            self.total_ticks = self.total_ticks + ticks as u64;
            self.single_step = false;
            ticks
        } else {
            0
        }
    }
}

/// Steps run over a frame are all counted, and no step request outlives the
/// frame.
pub proof fn lemma_frame_accounting(s: SimulationState)
    requires
        s.total_ticks + frame_ticks(s) <= u64::MAX,
    ensures
        after_frame(s).total_ticks == s.total_ticks + frame_ticks(s),
        !after_frame(s).single_step,
        after_frame(s).is_running == s.is_running,
        after_frame(s).ticks_per_frame == s.ticks_per_frame,
{
}

/// How a frame is scheduled: a requested single step runs exactly one tick,
/// a running simulation runs exactly `ticks_per_frame` ticks, a paused one
/// none; the ticks run are added to the total and the request is used up,
/// while the controls' settings stay as they were.
pub proof fn lemma_frame_schedule(s: SimulationState)
    requires
        s.total_ticks + frame_ticks(s) <= u64::MAX,
    ensures
        s.single_step ==> frame_ticks(s) == 1,
        !s.single_step && s.is_running ==> frame_ticks(s) == s.ticks_per_frame,
        !s.single_step && !s.is_running ==> frame_ticks(s) == 0 && after_frame(s) == s,
        s.single_step ==> after_frame(s).total_ticks == s.total_ticks + 1,
        !s.single_step && s.is_running ==> after_frame(s).total_ticks == s.total_ticks
            + s.ticks_per_frame,
        !after_frame(s).single_step,
        after_frame(s).is_running == s.is_running,
        after_frame(s).ticks_per_frame == s.ticks_per_frame,
        after_frame(s).selected_aperture_type == s.selected_aperture_type,
        after_frame(s).active_scale_level == s.active_scale_level,
{
}

/// The control overlay, sharing the simulation state with the frame loop.
pub struct GuiOverlay {
    pub state: Rc<RefCell<SimulationState>>,
}

impl GuiOverlay {
    /// An overlay over the given shared state.
    pub fn new(state: Rc<RefCell<SimulationState>>) -> (r: Self)
        ensures
            r.state == state,
    {
        Self { state }
    }
}

} // verus!
