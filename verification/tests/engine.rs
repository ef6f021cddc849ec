use ossm::engine::{
    current_state, dispatch_playback, pattern_description, pattern_list, Activity, EngineCommand,
    EngineState, PatternEngine, PatternMeta, PlaybackCommand,
};

fn engine() -> PatternEngine {
    PatternEngine::new(vec![
        PatternMeta { name: "Simple", description: "In and out" },
        PatternMeta { name: "Teasing", description: "Short strokes" },
    ])
}

#[test]
fn pattern_metadata() {
    let e = engine();
    assert_eq!(e.pattern_count(), 2);
    assert_eq!(e.pattern_name(1), Some("Teasing"));
    assert_eq!(e.pattern_name(2), None);
    assert_eq!(e.pattern_description(0), Some("In and out"));
    assert_eq!(e.pattern_description(5), None);
    assert_eq!(
        e.pattern_list(),
        vec![(0, "Simple", "In and out"), (1, "Teasing", "Short strokes")]
    );
    assert_eq!(pattern_list(&e).len(), 2);
    assert_eq!(pattern_description(&e, 1), Some("Short strokes"));
    assert_eq!(pattern_description(&e, 2), None);
}

#[test]
fn play_pause_resume_stop() {
    let mut e = engine();
    assert_eq!(e.activity(), Activity::AwaitCommand);
    e.handle_command(EngineCommand::Play(1));
    assert_eq!(e.state(), EngineState::Playing(1));
    assert_eq!(e.activity(), Activity::RunPattern(1));
    e.handle_command(EngineCommand::Pause);
    assert_eq!(e.state(), EngineState::Paused(1));
    assert_eq!(e.activity(), Activity::AwaitCommand);
    e.handle_command(EngineCommand::Resume);
    assert_eq!(e.state(), EngineState::Playing(1));
    e.handle_command(EngineCommand::Stop);
    assert_eq!(e.state(), EngineState::Idle);
    e.handle_command(EngineCommand::Resume);
    assert_eq!(e.state(), EngineState::Idle);
}

#[test]
fn play_out_of_range_is_ignored() {
    let mut e = engine();
    e.handle_command(EngineCommand::Play(0));
    e.handle_command(EngineCommand::Play(2));
    assert_eq!(e.state(), EngineState::Playing(0));
    e.pattern_returned();
    assert_eq!(e.state(), EngineState::Idle);
}

#[test]
fn dispatch_playback_commands() {
    let mut e = engine();
    assert!(!dispatch_playback(&mut e, PlaybackCommand::Play(0)));
    assert_eq!(current_state(&e), EngineState::Playing(0));
    assert!(!dispatch_playback(&mut e, PlaybackCommand::Pause));
    assert_eq!(current_state(&e), EngineState::Paused(0));
    assert!(dispatch_playback(&mut e, PlaybackCommand::Home));
    assert_eq!(current_state(&e), EngineState::Paused(0));
    assert!(!dispatch_playback(&mut e, PlaybackCommand::Resume));
    assert_eq!(current_state(&e), EngineState::Playing(0));
    assert!(!dispatch_playback(&mut e, PlaybackCommand::Stop));
    assert_eq!(current_state(&e), EngineState::Idle);
}
