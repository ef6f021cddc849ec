//! The motion controller's decisions.
//!
//! The controller ties the board (enable, disable, home, follow positions) to
//! the planner and answers state commands. Board operations are asynchronous
//! I/O done by the caller; here every decision is a function from the
//! controller's state and an event (a state command, a move command, a
//! planner step, the outcome of a board operation, a board fault) to the next
//! state and the action the caller performs.

use vstd::prelude::*;
use crate::planner::{
    step_transition, target_transition, PlannerMachine, PlannerState, StepAction, UpdateOutcome,
};

verus! {

/// Power/homing state of the board.
#[derive(Debug, Clone, Copy, PartialEq, Eq, Structural)]
pub enum BoardState {
    Disabled,
    Enabled,
    Ready,
}

/// What the controller does once the planner has finished decelerating.
#[derive(Debug, Clone, Copy, PartialEq, Eq, Structural)]
pub enum PendingAction {
    Disable,
    Home,
}

/// A state change requested of the controller.
#[derive(Debug, Clone, Copy, PartialEq, Eq, Structural)]
pub enum StateCommand {
    Enable,
    Disable,
    Home,
    Pause,
    Resume,
}

/// The controller's answer to a state command.
#[derive(Debug, Clone, Copy, PartialEq, Eq, Structural)]
pub enum StateResponse {
    Completed,
    Fault,
    InvalidTransition,
}

/// What the caller performs for a state command.
#[derive(Debug, Clone, Copy, PartialEq, Eq, Structural)]
pub enum StatePlan {
    /// Answer at once with this response; nothing else happens.
    Respond(StateResponse),
    /// Enable the board, then report the outcome with `finish_enable`.
    EnableBoard,
    /// Signal the in-flight move as cancelled if `cancel_move`, disable the
    /// board (a failure is only logged), reset the trajectory, and answer
    /// `Completed`.
    DisableBoard { cancel_move: bool },
    /// Signal the in-flight move as cancelled if `cancel_move`, then start a
    /// full stop of the trajectory; the answer comes when the stop finishes.
    StopFirst { cancel_move: bool },
    /// Signal the in-flight move as cancelled if `cancel_move`, run the
    /// homing procedure, and report its outcome with `finish_home`.
    HomeBoard { cancel_move: bool },
    /// Start a pausing stop of the trajectory and answer `Completed`.
    PauseMotion,
    /// Resume the trajectory, apply the torque limit, and answer `Completed`.
    ResumeMotion,
}

/// How the homing procedure went: the board's homing, then moving the board
/// to the minimum position.
#[derive(Debug, Clone, Copy, PartialEq, Eq, Structural)]
pub enum HomeOutcome {
    /// The board failed to home; nothing else was done.
    BoardFailed,
    /// The board homed, the trajectory was reset to home, and moving the board
    /// to the minimum position failed.
    PositionFailed,
    /// Homing completed.
    Done,
}

/// What follows a planner transition observed in a tick.
#[derive(Debug, Clone, Copy, PartialEq, Eq, Structural)]
pub enum TransitionEffect {
    /// Nothing.
    Nothing,
    /// Signal the in-flight move as completed.
    CompleteMove,
    /// Disable the board (a failure is only logged), reset the trajectory,
    /// and answer the pending state command `Completed`.
    DisableBoard,
    /// Run the homing procedure and report its outcome with `finish_home`.
    HomeBoard,
}

/// What the caller performs for one tick of the planner.
#[derive(Debug, Clone, Copy, PartialEq, Eq, Structural)]
pub struct TickPlan {
    /// What to do with the trajectory step.
    pub step: StepAction,
    /// What follows the planner's transition, if it changed phase.
    pub effect: TransitionEffect,
}

/// What the caller performs for a move command.
#[derive(Debug, Clone, Copy, PartialEq, Eq, Structural)]
pub enum MovePlan {
    /// The board is not ready or the planner is stopping or paused: drop it.
    Ignore,
    /// Record the command's torque limit and apply it; install the target in
    /// the trajectory only when `target_accepted`.
    Apply { target_accepted: bool },
}

/// What the caller signals when the board reports a fault.
#[derive(Debug, Clone, Copy, PartialEq, Eq, Structural)]
pub enum FaultSignal {
    Nothing,
    /// Signal the in-flight move as cancelled.
    CancelMove,
    /// Answer the pending state command with `Fault`.
    RespondFault,
}

/// The controller's state as a plain value.
#[derive(Debug, Clone, Copy, PartialEq, Eq, Structural)]
pub struct ControllerView {
    pub board: BoardState,
    pub pending: Option<PendingAction>,
    pub planner: PlannerState,
}

/// The controller's invariant: an action is pending only during a full stop,
/// and the planner leaves `Idle` only on a homed (`Ready`) board.
pub open spec fn controller_inv(v: ControllerView) -> bool {
    &&& v.pending is Some ==> v.planner == (PlannerState::Stopping { preserve_target: false })
    &&& v.planner != PlannerState::Idle ==> v.board == BoardState::Ready
}

/// The disabled controller: board disabled, nothing pending, planner idle.
pub open spec fn disabled_view() -> ControllerView {
    ControllerView { board: BoardState::Disabled, pending: None, planner: PlannerState::Idle }
}

/// The decision for state command `cmd` in state `v`: the next state and the plan.
pub open spec fn command_transition(v: ControllerView, cmd: StateCommand) -> (ControllerView, StatePlan) {
    let invalid = (v, StatePlan::Respond(StateResponse::InvalidTransition));
    if v.board == BoardState::Disabled {
        match cmd {
            StateCommand::Enable => (v, StatePlan::EnableBoard),
            StateCommand::Disable => (v, StatePlan::Respond(StateResponse::Completed)),
            _ => invalid,
        }
    } else {
        match cmd {
            StateCommand::Enable => (v, StatePlan::Respond(StateResponse::Completed)),
            StateCommand::Disable => match v.planner {
                PlannerState::Idle => (disabled_view(), StatePlan::DisableBoard { cancel_move: false }),
                PlannerState::Paused => (disabled_view(), StatePlan::DisableBoard { cancel_move: true }),
                PlannerState::Moving => (
                    ControllerView {
                        pending: Some(PendingAction::Disable),
                        planner: PlannerState::Stopping { preserve_target: false },
                        ..v
                    },
                    StatePlan::StopFirst { cancel_move: true },
                ),
                PlannerState::Stopping { .. } => (
                    ControllerView {
                        pending: Some(PendingAction::Disable),
                        planner: PlannerState::Stopping { preserve_target: false },
                        ..v
                    },
                    StatePlan::StopFirst { cancel_move: false },
                ),
            },
            StateCommand::Home => match v.planner {
                PlannerState::Idle => (v, StatePlan::HomeBoard { cancel_move: false }),
                PlannerState::Paused => (v, StatePlan::HomeBoard { cancel_move: true }),
                PlannerState::Moving => (
                    ControllerView {
                        pending: Some(PendingAction::Home),
                        planner: PlannerState::Stopping { preserve_target: false },
                        ..v
                    },
                    StatePlan::StopFirst { cancel_move: true },
                ),
                PlannerState::Stopping { .. } => invalid,
            },
            StateCommand::Pause => if v.planner == PlannerState::Moving {
                (
                    ControllerView { planner: PlannerState::Stopping { preserve_target: true }, ..v },
                    StatePlan::PauseMotion,
                )
            } else {
                invalid
            },
            StateCommand::Resume => if v.planner == PlannerState::Paused {
                (ControllerView { planner: PlannerState::Moving, ..v }, StatePlan::ResumeMotion)
            } else {
                invalid
            },
        }
    }
}

/// The state and answer after the board's enable reported `ok`.
pub open spec fn enable_transition(v: ControllerView, ok: bool) -> (ControllerView, StateResponse) {
    if ok {
        (ControllerView { board: BoardState::Enabled, ..v }, StateResponse::Completed)
    } else {
        (v, StateResponse::Fault)
    }
}

/// The state and answer after the homing procedure ended with `o`.
pub open spec fn home_transition(v: ControllerView, o: HomeOutcome) -> (ControllerView, StateResponse) {
    match o {
        HomeOutcome::BoardFailed => (v, StateResponse::Fault),
        HomeOutcome::PositionFailed => (
            ControllerView { planner: PlannerState::Idle, ..v },
            StateResponse::Fault,
        ),
        HomeOutcome::Done => (
            ControllerView { board: BoardState::Ready, planner: PlannerState::Idle, ..v },
            StateResponse::Completed,
        ),
    }
}

/// The effect of the planner moving from phase `from` to phase `to` with
/// `pending` outstanding, and what is left pending afterwards.
pub open spec fn transition_effect(from: PlannerState, to: PlannerState, pending: Option<PendingAction>) -> (TransitionEffect, Option<PendingAction>) {
    if from is Stopping && to == PlannerState::Idle {
        match pending {
            Some(PendingAction::Disable) => (TransitionEffect::DisableBoard, None),
            Some(PendingAction::Home) => (TransitionEffect::HomeBoard, None),
            None => (TransitionEffect::CompleteMove, None),
        }
    } else if from == PlannerState::Moving && to == PlannerState::Idle {
        (TransitionEffect::CompleteMove, pending)
    } else {
        (TransitionEffect::Nothing, pending)
    }
}

/// The state and plan after one planner step whose generator outcome is `o`.
pub open spec fn tick_transition(v: ControllerView, o: UpdateOutcome) -> (ControllerView, TickPlan) {
    let (to, step) = step_transition(v.planner, o);
    if to == v.planner {
        (v, TickPlan { step, effect: TransitionEffect::Nothing })
    } else {
        let (effect, pending) = transition_effect(v.planner, to, v.pending);
        if effect == TransitionEffect::DisableBoard {
            (disabled_view(), TickPlan { step, effect })
        } else {
            (ControllerView { pending, planner: to, ..v }, TickPlan { step, effect })
        }
    }
}

/// The state and plan for a move command; `finite` tells whether its
/// position and speed are finite numbers.
pub open spec fn move_transition(v: ControllerView, finite: bool) -> (ControllerView, MovePlan) {
    if v.board != BoardState::Ready || !v.planner.spec_accepts_target() {
        (v, MovePlan::Ignore)
    } else {
        (
            ControllerView { planner: target_transition(v.planner, finite), ..v },
            MovePlan::Apply { target_accepted: finite },
        )
    }
}

/// What is signalled when the board faults in state `v`.
pub open spec fn fault_signal(v: ControllerView) -> FaultSignal {
    match v.planner {
        PlannerState::Moving => FaultSignal::CancelMove,
        PlannerState::Paused => FaultSignal::CancelMove,
        PlannerState::Stopping { preserve_target } => if preserve_target {
            FaultSignal::CancelMove
        } else if v.pending is Some {
            FaultSignal::RespondFault
        } else {
            FaultSignal::Nothing
        },
        PlannerState::Idle => FaultSignal::Nothing,
    }
}

/// A disabled board accepts only `Enable` and `Disable`: every other state
/// command is answered `InvalidTransition` and changes nothing.
pub proof fn lemma_disabled_accepts_only_enable_disable(v: ControllerView, cmd: StateCommand)
    requires
        v.board == BoardState::Disabled,
        cmd != StateCommand::Enable,
        cmd != StateCommand::Disable,
    ensures
        command_transition(v, cmd) == (v, StatePlan::Respond(StateResponse::InvalidTransition)),
{
}

/// A state command answered at once changes nothing.
pub proof fn lemma_immediate_answer_changes_nothing(v: ControllerView, cmd: StateCommand)
    requires
        command_transition(v, cmd).1 is Respond,
    ensures
        command_transition(v, cmd).0 == v,
{
}

/// Pause then resume: on a homed board with the planner moving, `Pause` starts
/// a pausing stop; the stop runs to `Paused` without signalling the move as
/// completed; `Resume` then brings the planner back to `Moving`.
pub proof fn lemma_pause_then_resume(v: ControllerView)
    requires
        controller_inv(v),
        v.planner == PlannerState::Moving,
    ensures
        ({
            let (v1, p1) = command_transition(v, StateCommand::Pause);
            let (v2, t2) = tick_transition(v1, UpdateOutcome::Working);
            let (v3, t3) = tick_transition(v2, UpdateOutcome::Finished);
            let (v4, p4) = command_transition(v3, StateCommand::Resume);
            &&& p1 == StatePlan::PauseMotion
            &&& v2 == v1 && t2.effect == TransitionEffect::Nothing
            &&& v3.planner == PlannerState::Paused && t3.effect == TransitionEffect::Nothing
            &&& p4 == StatePlan::ResumeMotion
            &&& v4 == ControllerView { planner: PlannerState::Moving, ..v }
        }),
{
}

/// Disabling while moving cancels the move at once, waits for the full stop,
/// and disables the board when the stop ends.
pub proof fn lemma_disable_while_moving(v: ControllerView)
    requires
        controller_inv(v),
        v.planner == PlannerState::Moving,
    ensures
        ({
            let (v1, p1) = command_transition(v, StateCommand::Disable);
            let (v2, t2) = tick_transition(v1, UpdateOutcome::Finished);
            &&& p1 == StatePlan::StopFirst { cancel_move: true }
            &&& v1.pending == Some(PendingAction::Disable)
            &&& t2.effect == TransitionEffect::DisableBoard
            &&& v2 == disabled_view()
        }),
{
}

/// Homing while moving cancels the move at once, waits for the full stop,
/// and homes when the stop ends; a successful homing leaves the board `Ready`
/// and the planner `Idle`.
pub proof fn lemma_home_while_moving(v: ControllerView)
    requires
        controller_inv(v),
        v.planner == PlannerState::Moving,
    ensures
        ({
            let (v1, p1) = command_transition(v, StateCommand::Home);
            let (v2, t2) = tick_transition(v1, UpdateOutcome::Finished);
            let (v3, r3) = home_transition(v2, HomeOutcome::Done);
            &&& p1 == StatePlan::StopFirst { cancel_move: true }
            &&& t2.effect == TransitionEffect::HomeBoard
            &&& v2.pending is None
            &&& r3 == StateResponse::Completed
            &&& v3 == ControllerView { board: BoardState::Ready, pending: None, planner: PlannerState::Idle }
        }),
{
}

/// A pending action is carried out as soon as the stop ends, whether the
/// trajectory finishes or the generator fails: `Disable` disables the board,
/// `Home` starts homing, and nothing is left pending.
pub proof fn lemma_pending_action_runs_when_stop_ends(v: ControllerView, o: UpdateOutcome)
    requires
        controller_inv(v),
        v.pending is Some,
        o != UpdateOutcome::Working,
    ensures
        tick_transition(v, o).0.pending is None,
        v.pending == Some(PendingAction::Disable) ==> tick_transition(v, o).1.effect
            == TransitionEffect::DisableBoard && tick_transition(v, o).0 == disabled_view(),
        v.pending == Some(PendingAction::Home) ==> tick_transition(v, o).1.effect
            == TransitionEffect::HomeBoard,
{
}

/// Moves are followed only on a homed board: a move command is dropped unless
/// the board is `Ready` and the planner is `Idle` or `Moving`.
pub proof fn lemma_moves_need_ready_board(v: ControllerView, finite: bool)
    requires
        v.board != BoardState::Ready || v.planner is Stopping || v.planner == PlannerState::Paused,
    ensures
        move_transition(v, finite) == (v, MovePlan::Ignore),
{
}

/// A homed controller follows every move while the planner is `Idle` or
/// `Moving`: the move is applied (its target taken when finite), a move in
/// flight is replaced by the new target and keeps moving, and neither the
/// board nor the pending action changes.
pub proof fn lemma_moves_followed_when_ready(v: ControllerView, finite: bool)
    requires
        v.board == BoardState::Ready,
        v.planner == PlannerState::Idle || v.planner == PlannerState::Moving,
    ensures
        move_transition(v, finite).1 == (MovePlan::Apply { target_accepted: finite }),
        move_transition(v, finite).0.board == v.board,
        move_transition(v, finite).0.pending == v.pending,
        finite ==> move_transition(v, finite).0.planner == PlannerState::Moving,
        !finite ==> move_transition(v, finite).0.planner == v.planner,
        v.planner == PlannerState::Moving ==> move_transition(v, finite).0.planner
            == PlannerState::Moving,
{
}

/// Every decision keeps the controller's invariant.
pub proof fn lemma_decisions_keep_invariant(
    v: ControllerView,
    cmd: StateCommand,
    o: UpdateOutcome,
    finite: bool,
    ok: bool,
    h: HomeOutcome,
)
    requires
        controller_inv(v),
    ensures
        controller_inv(command_transition(v, cmd).0),
        controller_inv(tick_transition(v, o).0),
        controller_inv(move_transition(v, finite).0),
        v.board == BoardState::Disabled ==> controller_inv(enable_transition(v, ok).0),
        v.pending is None && v.board != BoardState::Disabled ==> controller_inv(
            home_transition(v, h).0,
        ),
        controller_inv(disabled_view()),
{
}

/// The controller's decision state: board state, pending action, planner.
pub struct ControllerMachine {
    board: BoardState,
    pending: Option<PendingAction>,
    planner: PlannerMachine,
}

impl View for ControllerMachine {
    type V = ControllerView;

    closed spec fn view(&self) -> ControllerView {
        ControllerView {
            board: self.board,
            pending: self.pending,
            planner: self.planner.spec_state(),
        }
    }
}

impl ControllerMachine {
    /// Whether the controller's invariant holds.
    pub open spec fn inv(&self) -> bool {
        controller_inv(self@)
    }

    /// A controller with the board disabled and the planner idle.
    pub fn new() -> (c: Self)
        ensures
            c@ == disabled_view(),
            c.inv(),
    {
        ControllerMachine { board: BoardState::Disabled, pending: None, planner: PlannerMachine::new() }
    }

    pub fn board_state(&self) -> (b: BoardState)
        ensures
            b == self@.board,
    {
        self.board
    }

    pub fn pending_action(&self) -> (p: Option<PendingAction>)
        ensures
            p == self@.pending,
    {
        self.pending
    }

    pub fn planner_state(&self) -> (s: PlannerState)
        ensures
            s == self@.planner,
    {
        self.planner.state()
    }

    fn go_disabled(&mut self)
        ensures
            final(self)@ == disabled_view(),
    {
        self.planner.reset();
        self.pending = None;
        self.board = BoardState::Disabled;
    }

    fn respond(r: StateResponse) -> (p: StatePlan)
        ensures
            p == StatePlan::Respond(r),
    {
        StatePlan::Respond(r)
    }

    /// Decide what a state command does (see `command_transition`).
    pub fn plan_state_command(&mut self, cmd: StateCommand) -> (plan: StatePlan)
        requires
            old(self).inv(),
        ensures
            (final(self)@, plan) == command_transition(old(self)@, cmd),
            final(self).inv(),
    {
        if self.board == BoardState::Disabled {
            return match cmd {
                StateCommand::Enable => StatePlan::EnableBoard,
                StateCommand::Disable => Self::respond(StateResponse::Completed),
                _ => Self::respond(StateResponse::InvalidTransition),
            };
        }
        let invalid = StatePlan::Respond(StateResponse::InvalidTransition);
        match (self.planner.state(), cmd) {
            (_, StateCommand::Enable) => Self::respond(StateResponse::Completed),
            (PlannerState::Idle, StateCommand::Disable) => {
                self.go_disabled();
                StatePlan::DisableBoard { cancel_move: false }
            },
            (PlannerState::Paused, StateCommand::Disable) => {
                self.go_disabled();
                StatePlan::DisableBoard { cancel_move: true }
            },
            (PlannerState::Moving, StateCommand::Disable) => {
                self.pending = Some(PendingAction::Disable);
                self.planner.stop(false);
                StatePlan::StopFirst { cancel_move: true }
            },
            (PlannerState::Stopping { .. }, StateCommand::Disable) => {
                self.pending = Some(PendingAction::Disable);
                self.planner.stop(false);
                StatePlan::StopFirst { cancel_move: false }
            },
            (PlannerState::Idle, StateCommand::Home) => StatePlan::HomeBoard { cancel_move: false },
            (PlannerState::Moving, StateCommand::Home) => {
                self.pending = Some(PendingAction::Home);
                self.planner.stop(false);
                StatePlan::StopFirst { cancel_move: true }
            },
            (PlannerState::Paused, StateCommand::Home) => StatePlan::HomeBoard { cancel_move: true },
            (PlannerState::Moving, StateCommand::Pause) => {
                self.planner.stop(true);
                StatePlan::PauseMotion
            },
            (PlannerState::Paused, StateCommand::Resume) => {
                self.planner.resume();
                StatePlan::ResumeMotion
            },
            _ => invalid,
        }
    }

    /// Record the outcome of enabling the board (after `EnableBoard`).
    pub fn finish_enable(&mut self, ok: bool) -> (r: StateResponse)
        requires
            old(self).inv(),
            old(self)@.board == BoardState::Disabled,
        ensures
            (final(self)@, r) == enable_transition(old(self)@, ok),
            final(self).inv(),
    {
        if ok {
            self.board = BoardState::Enabled;
            StateResponse::Completed
        } else {
            StateResponse::Fault
        }
    }

    /// Record the outcome of the homing procedure (after `HomeBoard`). The
    /// caller returns the board's error when the answer is `Fault`.
    pub fn finish_home(&mut self, outcome: HomeOutcome) -> (r: StateResponse)
        requires
            old(self).inv(),
            old(self)@.pending is None,
            old(self)@.board != BoardState::Disabled,
        ensures
            (final(self)@, r) == home_transition(old(self)@, outcome),
            final(self).inv(),
    {
        match outcome {
            HomeOutcome::BoardFailed => StateResponse::Fault,
            HomeOutcome::PositionFailed => {
                self.planner.home();
                StateResponse::Fault
            },
            HomeOutcome::Done => {
                self.planner.home();
                self.board = BoardState::Ready;
                StateResponse::Completed
            },
        }
    }

    /// Account for one tick of the planner whose generator reported `outcome`
    /// (not consulted when no trajectory is active), and decide what follows
    /// a change of planner phase.
    pub fn tick(&mut self, outcome: UpdateOutcome) -> (plan: TickPlan)
        requires
            old(self).inv(),
        ensures
            (final(self)@, plan) == tick_transition(old(self)@, outcome),
            final(self).inv(),
    {
        let prev = self.planner.state();
        let step = self.planner.step(outcome);
        let curr = self.planner.state();
        if prev == curr {
            return TickPlan { step, effect: TransitionEffect::Nothing };
        }
        let effect = match (prev, curr) {
            (PlannerState::Stopping { .. }, PlannerState::Idle) => {
                match self.pending {
                    Some(PendingAction::Disable) => {
                        self.go_disabled();
                        TransitionEffect::DisableBoard
                    },
                    Some(PendingAction::Home) => {
                        self.pending = None;
                        TransitionEffect::HomeBoard
                    },
                    None => TransitionEffect::CompleteMove,
                }
            },
            (PlannerState::Moving, PlannerState::Idle) => TransitionEffect::CompleteMove,
            _ => TransitionEffect::Nothing,
        };
        TickPlan { step, effect }
    }

    /// Decide what a move command does; `finite` tells whether its position
    /// and speed are finite numbers.
    pub fn plan_move(&mut self, finite: bool) -> (plan: MovePlan)
        requires
            old(self).inv(),
        ensures
            (final(self)@, plan) == move_transition(old(self)@, finite),
            final(self).inv(),
    {
        if self.board != BoardState::Ready || !self.planner.state().accepts_target() {
            return MovePlan::Ignore;
        }
        let accepted = self.planner.set_target(finite);
        MovePlan::Apply { target_accepted: accepted }
    }

    /// The board reported a fault: decide what to signal, then disable
    /// everything (planner reset, nothing pending, board disabled).
    pub fn enter_fault(&mut self) -> (s: FaultSignal)
        requires
            old(self).inv(),
        ensures
            s == fault_signal(old(self)@),
            final(self)@ == disabled_view(),
            final(self).inv(),
    {
        let signal = match self.planner.state() {
            PlannerState::Moving => FaultSignal::CancelMove,
            PlannerState::Paused => FaultSignal::CancelMove,
            PlannerState::Stopping { preserve_target: true } => FaultSignal::CancelMove,
            PlannerState::Stopping { preserve_target: false } => {
                if self.pending.is_some() {
                    FaultSignal::RespondFault
                } else {
                    FaultSignal::Nothing
                }
            },
            PlannerState::Idle => FaultSignal::Nothing,
        };
        self.go_disabled();
        signal
    }
}

} // verus!
