//! The motion planner's state machine.
//!
//! The trajectory itself (positions, velocities, the jerk-limited generator)
//! is floating-point work done outside this crate; what is decided here is
//! which phase the planner is in, when a trajectory step is taken, and how
//! each request and each generator outcome moves the planner between phases.

use vstd::prelude::*;

verus! {

/// Phase of the motion planner.
#[derive(Debug, Clone, Copy, PartialEq, Eq, Structural)]
pub enum PlannerState {
    Idle,
    Moving,
    /// Decelerating to zero velocity. `preserve_target` controls whether
    /// the motion target is kept for a later `resume()` (`true` = pause)
    /// or discarded (`false` = full stop).
    Stopping { preserve_target: bool },
    Paused,
}

/// What the trajectory generator reported for one update.
#[derive(Debug, Clone, Copy, PartialEq, Eq, Structural)]
pub enum UpdateOutcome {
    /// The update call itself failed.
    Failed,
    /// A step was computed and the trajectory goes on.
    Working,
    /// A step was computed and the trajectory reached its target.
    Finished,
    /// Any other result of the generator (an error code).
    Unexpected,
}

/// What the caller must do with the trajectory after one planner step.
#[derive(Debug, Clone, Copy, PartialEq, Eq, Structural)]
pub enum StepAction {
    /// No trajectory is active: nothing was computed.
    Skip,
    /// The generator failed: reset the trajectory to home and report no step.
    Reset,
    /// Report the computed step and feed it back into the generator input.
    Emit,
}

impl PlannerState {
    /// Whether a trajectory is being followed (`Moving` or `Stopping`).
    pub open spec fn spec_is_active(self) -> bool {
        self is Moving || self is Stopping
    }

    /// Whether a new target is accepted (`Idle` or `Moving`).
    pub open spec fn spec_accepts_target(self) -> bool {
        self is Idle || self is Moving
    }

    /// Whether the planner keeps a motion target in this phase.
    pub open spec fn spec_has_target(self) -> bool {
        !(self is Idle)
    }

    /// Whether a trajectory is being followed (`Moving` or `Stopping`).
    pub fn is_active(self) -> (b: bool)
        ensures
            b == self.spec_is_active(),
    {
        match self {
            PlannerState::Moving => true,
            PlannerState::Stopping { .. } => true,
            _ => false,
        }
    }

    /// Whether a new target is accepted (`Idle` or `Moving`).
    pub fn accepts_target(self) -> (b: bool)
        ensures
            b == self.spec_accepts_target(),
    {
        match self {
            PlannerState::Idle => true,
            PlannerState::Moving => true,
            _ => false,
        }
    }
}

/// The phase after one step in phase `s` with generator outcome `o`, and
/// what to do with the trajectory.
pub open spec fn step_transition(s: PlannerState, o: UpdateOutcome) -> (PlannerState, StepAction) {
    if !s.spec_is_active() {
        (s, StepAction::Skip)
    } else {
        match o {
            UpdateOutcome::Failed => (PlannerState::Idle, StepAction::Reset),
            UpdateOutcome::Unexpected => (PlannerState::Idle, StepAction::Reset),
            UpdateOutcome::Working => (s, StepAction::Emit),
            UpdateOutcome::Finished => if s == (PlannerState::Stopping { preserve_target: true }) {
                (PlannerState::Paused, StepAction::Emit)
            } else {
                (PlannerState::Idle, StepAction::Emit)
            },
        }
    }
}

/// The phase after a target request in phase `s`; `finite` tells whether the
/// requested position and velocity were finite numbers.
pub open spec fn target_transition(s: PlannerState, finite: bool) -> PlannerState {
    if s.spec_accepts_target() && finite {
        PlannerState::Moving
    } else {
        s
    }
}

/// The phase after a stop request in phase `s`.
pub open spec fn stop_transition(s: PlannerState, preserve_target: bool) -> PlannerState {
    if s.spec_is_active() {
        PlannerState::Stopping { preserve_target }
    } else {
        s
    }
}

/// The phase after a resume request in phase `s`.
pub open spec fn resume_transition(s: PlannerState) -> PlannerState {
    if s == PlannerState::Paused {
        PlannerState::Moving
    } else {
        s
    }
}

/// The planner's phase, driven by requests and by the outcomes of the
/// trajectory generator.
#[derive(Debug, Clone, Copy)]
pub struct PlannerMachine {
    state: PlannerState,
}

impl PlannerMachine {
    pub closed spec fn spec_state(&self) -> PlannerState {
        self.state
    }

    /// A planner at rest at the home position.
    pub fn new() -> (p: Self)
        ensures
            p.spec_state() == PlannerState::Idle,
    {
        PlannerMachine { state: PlannerState::Idle }
    }

    /// The current phase.
    pub fn state(&self) -> (s: PlannerState)
        ensures
            s == self.spec_state(),
    {
        self.state
    }

    /// Account for one tick: `outcome` is what the generator reported. When
    /// no trajectory is active the outcome is not looked at (no update is
    /// made) and `Skip` is returned. A generator failure resets the planner
    /// to `Idle`. When the generator reports `Finished`, a pause
    /// (`Stopping { preserve_target: true }`) ends in `Paused` and anything
    /// else ends in `Idle`.
    pub fn step(&mut self, outcome: UpdateOutcome) -> (a: StepAction)
        ensures
            (final(self).spec_state(), a) == step_transition(old(self).spec_state(), outcome),
    {
        if !self.state.is_active() {
            return StepAction::Skip;
        }
        match outcome {
            UpdateOutcome::Failed => {
                self.state = PlannerState::Idle;
                StepAction::Reset
            },
            UpdateOutcome::Unexpected => {
                self.state = PlannerState::Idle;
                StepAction::Reset
            },
            UpdateOutcome::Working => StepAction::Emit,
            UpdateOutcome::Finished => {
                match self.state {
                    PlannerState::Stopping { preserve_target: true } => {
                        self.state = PlannerState::Paused;
                    },
                    _ => {
                        self.state = PlannerState::Idle;
                    },
                }
                StepAction::Emit
            },
        }
    }

    /// Request a new motion target. Accepted (returns `true`, and the caller
    /// then installs the clamped target) from `Idle` or `Moving` when the
    /// request is finite; `Idle` becomes `Moving`. Ignored during
    /// `Stopping` or `Paused`, or for a non-finite request.
    pub fn set_target(&mut self, finite: bool) -> (accepted: bool)
        ensures
            accepted == (old(self).spec_state().spec_accepts_target() && finite),
            final(self).spec_state() == target_transition(old(self).spec_state(), finite),
    {
        if !self.state.accepts_target() || !finite {
            return false;
        }
        self.state = PlannerState::Moving;
        true
    }

    /// Request a jerk-limited deceleration to zero velocity. Accepted (returns
    /// `true`) only while `Moving` or `Stopping`.
    pub fn stop(&mut self, preserve_target: bool) -> (accepted: bool)
        ensures
            accepted == old(self).spec_state().spec_is_active(),
            final(self).spec_state() == stop_transition(old(self).spec_state(), preserve_target),
    {
        if !self.state.is_active() {
            return false;
        }
        self.state = PlannerState::Stopping { preserve_target };
        true
    }

    /// Resume from `Paused` (returns `true`); ignored otherwise.
    pub fn resume(&mut self) -> (accepted: bool)
        ensures
            accepted == (old(self).spec_state() == PlannerState::Paused),
            final(self).spec_state() == resume_transition(old(self).spec_state()),
    {
        if self.state != PlannerState::Paused {
            return false;
        }
        self.state = PlannerState::Moving;
        true
    }

    /// Whether the current position may be overwritten: only in `Idle`, and
    /// only with a finite position.
    pub fn accepts_position(&self, finite: bool) -> (b: bool)
        ensures
            b == (self.spec_state() == PlannerState::Idle && finite),
    {
        self.state == PlannerState::Idle && finite
    }

    /// Back to `Idle` at position 0 with no target, from any phase.
    pub fn home(&mut self)
        ensures
            final(self).spec_state() == PlannerState::Idle,
    {
        self.state = PlannerState::Idle;
    }

    /// Force the planner back to `Idle`; the same as `home`.
    pub fn reset(&mut self)
        ensures
            final(self).spec_state() == PlannerState::Idle,
    {
        self.home();
    }
}

/// A pause that runs to completion can be resumed: from `Moving`, a stop that
/// preserves the target, any number of working steps and then a finished step
/// end in `Paused`, and a resume goes back to `Moving`.
pub proof fn lemma_pause_then_resume(working_steps: nat)
    ensures
        ({
            let s0 = stop_transition(PlannerState::Moving, true);
            let s1 = step_transition(s0, UpdateOutcome::Working).0;
            let s2 = step_transition(s1, UpdateOutcome::Finished).0;
            &&& s1 == s0
            &&& s2 == PlannerState::Paused
            &&& resume_transition(s2) == PlannerState::Moving
        }),
{
}

/// A full stop discards the target: from `Moving` or `Stopping`, a stop that
/// does not preserve the target ends in `Idle` once the generator finishes.
pub proof fn lemma_full_stop_ends_idle(s: PlannerState)
    requires
        s.spec_is_active(),
    ensures
        step_transition(stop_transition(s, false), UpdateOutcome::Finished).0 == PlannerState::Idle,
{
}

/// Requests never start motion from `Paused` or `Stopping` except `resume`:
/// a target request leaves those phases unchanged.
pub proof fn lemma_target_ignored_while_stopping_or_paused(s: PlannerState, finite: bool)
    requires
        s is Stopping || s is Paused,
    ensures
        target_transition(s, finite) == s,
{
}

/// The planner only ever takes a trajectory step while a trajectory is
/// active, and a generator failure always leaves it `Idle`.
pub proof fn lemma_step_only_when_active(s: PlannerState, o: UpdateOutcome)
    ensures
        step_transition(s, o).1 == StepAction::Skip <==> !s.spec_is_active(),
        s.spec_is_active() && (o == UpdateOutcome::Failed || o == UpdateOutcome::Unexpected)
            ==> step_transition(s, o) == (PlannerState::Idle, StepAction::Reset),
{
}

/// A step in which the generator is still working never changes the phase:
/// only a finished or failed trajectory moves the planner on, and an active
/// trajectory emits its step.
pub proof fn lemma_working_step_keeps_phase(s: PlannerState)
    ensures
        step_transition(s, UpdateOutcome::Working).0 == s,
        s.spec_is_active() ==> step_transition(s, UpdateOutcome::Working).1 == StepAction::Emit,
{
}

} // verus!
