use ossm::motion::{
    BoardState, ControllerMachine, FaultSignal, HomeOutcome, MovePlan, PendingAction, StateCommand,
    StatePlan, StateResponse, TransitionEffect,
};
use ossm::planner::{PlannerMachine, PlannerState, StepAction, UpdateOutcome};

fn homed_controller() -> ControllerMachine {
    let mut c = ControllerMachine::new();
    assert_eq!(c.plan_state_command(StateCommand::Enable), StatePlan::EnableBoard);
    assert_eq!(c.finish_enable(true), StateResponse::Completed);
    assert_eq!(
        c.plan_state_command(StateCommand::Home),
        StatePlan::HomeBoard { cancel_move: false }
    );
    assert_eq!(c.finish_home(HomeOutcome::Done), StateResponse::Completed);
    assert_eq!(c.board_state(), BoardState::Ready);
    c
}

#[test]
fn planner_pause_then_resume() {
    let mut p = PlannerMachine::new();
    assert_eq!(p.step(UpdateOutcome::Working), StepAction::Skip);
    assert!(p.set_target(true));
    assert_eq!(p.state(), PlannerState::Moving);
    assert!(p.stop(true));
    assert_eq!(p.state(), PlannerState::Stopping { preserve_target: true });
    assert!(!p.set_target(true));
    assert_eq!(p.step(UpdateOutcome::Working), StepAction::Emit);
    assert_eq!(p.step(UpdateOutcome::Finished), StepAction::Emit);
    assert_eq!(p.state(), PlannerState::Paused);
    assert_eq!(p.step(UpdateOutcome::Finished), StepAction::Skip);
    assert!(p.resume());
    assert_eq!(p.state(), PlannerState::Moving);
}

#[test]
fn planner_full_stop_and_failures() {
    let mut p = PlannerMachine::new();
    assert!(!p.set_target(false));
    assert_eq!(p.state(), PlannerState::Idle);
    assert!(!p.stop(false));
    assert!(!p.resume());
    assert!(p.accepts_position(true));
    assert!(!p.accepts_position(false));
    assert!(p.set_target(true));
    assert!(!p.accepts_position(true));
    assert!(p.stop(false));
    assert_eq!(p.step(UpdateOutcome::Finished), StepAction::Emit);
    assert_eq!(p.state(), PlannerState::Idle);
    assert!(p.set_target(true));
    assert_eq!(p.step(UpdateOutcome::Unexpected), StepAction::Reset);
    assert_eq!(p.state(), PlannerState::Idle);
    assert!(p.set_target(true));
    assert_eq!(p.step(UpdateOutcome::Failed), StepAction::Reset);
    assert_eq!(p.state(), PlannerState::Idle);
    assert!(p.set_target(true));
    p.home();
    assert_eq!(p.state(), PlannerState::Idle);
}

#[test]
fn disabled_board_accepts_only_enable_and_disable() {
    let mut c = ControllerMachine::new();
    for cmd in [StateCommand::Home, StateCommand::Pause, StateCommand::Resume] {
        assert_eq!(
            c.plan_state_command(cmd),
            StatePlan::Respond(StateResponse::InvalidTransition)
        );
        assert_eq!(c.board_state(), BoardState::Disabled);
    }
    assert_eq!(
        c.plan_state_command(StateCommand::Disable),
        StatePlan::Respond(StateResponse::Completed)
    );
    assert_eq!(c.plan_state_command(StateCommand::Enable), StatePlan::EnableBoard);
    assert_eq!(c.finish_enable(false), StateResponse::Fault);
    assert_eq!(c.board_state(), BoardState::Disabled);
}

#[test]
fn moves_need_a_homed_board() {
    let mut c = ControllerMachine::new();
    assert_eq!(c.plan_move(true), MovePlan::Ignore);
    c.plan_state_command(StateCommand::Enable);
    c.finish_enable(true);
    assert_eq!(c.board_state(), BoardState::Enabled);
    assert_eq!(c.plan_move(true), MovePlan::Ignore);
    let mut c = homed_controller();
    assert_eq!(c.plan_move(false), MovePlan::Apply { target_accepted: false });
    assert_eq!(c.planner_state(), PlannerState::Idle);
    assert_eq!(c.plan_move(true), MovePlan::Apply { target_accepted: true });
    assert_eq!(c.planner_state(), PlannerState::Moving);
}

#[test]
fn move_completes_when_planner_finishes() {
    let mut c = homed_controller();
    c.plan_move(true);
    let t = c.tick(UpdateOutcome::Working);
    assert_eq!(t.step, StepAction::Emit);
    assert_eq!(t.effect, TransitionEffect::Nothing);
    let t = c.tick(UpdateOutcome::Finished);
    assert_eq!(t.effect, TransitionEffect::CompleteMove);
    assert_eq!(c.planner_state(), PlannerState::Idle);
}

#[test]
fn pause_then_resume_controller() {
    let mut c = homed_controller();
    c.plan_move(true);
    assert_eq!(c.plan_state_command(StateCommand::Pause), StatePlan::PauseMotion);
    assert_eq!(c.plan_move(true), MovePlan::Ignore);
    let t = c.tick(UpdateOutcome::Finished);
    assert_eq!(t.effect, TransitionEffect::Nothing);
    assert_eq!(c.planner_state(), PlannerState::Paused);
    assert_eq!(c.plan_state_command(StateCommand::Resume), StatePlan::ResumeMotion);
    assert_eq!(c.planner_state(), PlannerState::Moving);
    assert_eq!(
        c.plan_state_command(StateCommand::Resume),
        StatePlan::Respond(StateResponse::InvalidTransition)
    );
}

#[test]
fn disable_while_moving_waits_for_stop() {
    let mut c = homed_controller();
    c.plan_move(true);
    assert_eq!(
        c.plan_state_command(StateCommand::Disable),
        StatePlan::StopFirst { cancel_move: true }
    );
    assert_eq!(c.pending_action(), Some(PendingAction::Disable));
    assert_eq!(c.planner_state(), PlannerState::Stopping { preserve_target: false });
    assert_eq!(c.tick(UpdateOutcome::Working).effect, TransitionEffect::Nothing);
    let t = c.tick(UpdateOutcome::Finished);
    assert_eq!(t.effect, TransitionEffect::DisableBoard);
    assert_eq!(c.board_state(), BoardState::Disabled);
    assert_eq!(c.pending_action(), None);
}

#[test]
fn home_while_moving_waits_for_stop() {
    let mut c = homed_controller();
    c.plan_move(true);
    assert_eq!(
        c.plan_state_command(StateCommand::Home),
        StatePlan::StopFirst { cancel_move: true }
    );
    assert_eq!(
        c.plan_state_command(StateCommand::Home),
        StatePlan::Respond(StateResponse::InvalidTransition)
    );
    let t = c.tick(UpdateOutcome::Failed);
    assert_eq!(t.step, StepAction::Reset);
    assert_eq!(t.effect, TransitionEffect::HomeBoard);
    assert_eq!(c.finish_home(HomeOutcome::PositionFailed), StateResponse::Fault);
    assert_eq!(c.board_state(), BoardState::Ready);
    assert_eq!(c.planner_state(), PlannerState::Idle);
}

#[test]
fn disable_and_home_from_paused() {
    let mut c = homed_controller();
    c.plan_move(true);
    c.plan_state_command(StateCommand::Pause);
    c.tick(UpdateOutcome::Finished);
    assert_eq!(
        c.plan_state_command(StateCommand::Home),
        StatePlan::HomeBoard { cancel_move: true }
    );
    assert_eq!(c.finish_home(HomeOutcome::BoardFailed), StateResponse::Fault);
    assert_eq!(c.planner_state(), PlannerState::Paused);
    assert_eq!(
        c.plan_state_command(StateCommand::Disable),
        StatePlan::DisableBoard { cancel_move: true }
    );
    assert_eq!(c.board_state(), BoardState::Disabled);
    assert_eq!(c.planner_state(), PlannerState::Idle);
}

#[test]
fn fault_signals() {
    let mut c = ControllerMachine::new();
    assert_eq!(c.enter_fault(), FaultSignal::Nothing);
    let mut c = homed_controller();
    c.plan_move(true);
    assert_eq!(c.enter_fault(), FaultSignal::CancelMove);
    assert_eq!(c.board_state(), BoardState::Disabled);
    assert_eq!(c.planner_state(), PlannerState::Idle);
    let mut c = homed_controller();
    c.plan_move(true);
    c.plan_state_command(StateCommand::Disable);
    assert_eq!(c.enter_fault(), FaultSignal::RespondFault);
    assert_eq!(c.pending_action(), None);
    let mut c = homed_controller();
    c.plan_move(true);
    c.plan_state_command(StateCommand::Pause);
    assert_eq!(c.enter_fault(), FaultSignal::CancelMove);
}

#[test]
fn enable_when_enabled_completes() {
    let mut c = homed_controller();
    assert_eq!(
        c.plan_state_command(StateCommand::Enable),
        StatePlan::Respond(StateResponse::Completed)
    );
    assert_eq!(
        c.plan_state_command(StateCommand::Pause),
        StatePlan::Respond(StateResponse::InvalidTransition)
    );
    assert_eq!(
        c.plan_state_command(StateCommand::Disable),
        StatePlan::DisableBoard { cancel_move: false }
    );
    assert_eq!(c.board_state(), BoardState::Disabled);
}
