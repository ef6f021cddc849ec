//! The pattern engine: which pattern plays, and the playback commands that
//! remotes send to it.

use vstd::prelude::*;

verus! {

/// Name and description of a pattern.
#[derive(Debug, Clone, Copy)]
pub struct PatternMeta {
    pub name: &'static str,
    pub description: &'static str,
}

/// Commands sent to the engine from UI/BLE/etc.
#[derive(Debug, Clone, Copy, PartialEq, Eq, Structural)]
pub enum EngineCommand {
    /// Start playing the pattern at the given index.
    Play(usize),
    /// Pause the currently playing pattern. Remembers which pattern was active.
    Pause,
    /// Resume the most recently paused pattern.
    Resume,
    /// Stop playback entirely. Forgets the paused pattern.
    Stop,
}

/// Playback state of the engine.
#[derive(Debug, Clone, Copy, PartialEq, Eq, Structural)]
pub enum EngineState {
    /// No pattern running, nothing to resume.
    Idle,
    /// Pattern at index is actively running.
    Playing(usize),
    /// Pattern at index was paused. Can be resumed.
    Paused(usize),
}

/// What the engine's run loop does next.
#[derive(Debug, Clone, Copy, PartialEq, Eq, Structural)]
pub enum Activity {
    /// Wait for the next command.
    AwaitCommand,
    /// Run the pattern at this index until it returns or a command arrives.
    RunPattern(usize),
}

/// Playback commands a remote can send.
#[derive(Debug, Clone, Copy, PartialEq, Eq, Structural)]
pub enum PlaybackCommand {
    Play(usize),
    Pause,
    Resume,
    Stop,
    Home,
}

/// The state after command `cmd` in state `s` of an engine holding `n` patterns.
pub open spec fn engine_transition(s: EngineState, cmd: EngineCommand, n: nat) -> EngineState {
    match cmd {
        EngineCommand::Play(idx) => if idx < n {
            EngineState::Playing(idx)
        } else {
            s
        },
        EngineCommand::Pause => match s {
            EngineState::Playing(idx) => EngineState::Paused(idx),
            _ => s,
        },
        EngineCommand::Resume => match s {
            EngineState::Paused(idx) => EngineState::Playing(idx),
            _ => s,
        },
        EngineCommand::Stop => EngineState::Idle,
    }
}

/// Whether state `s` only refers to patterns among `n`.
pub open spec fn engine_state_in_range(s: EngineState, n: nat) -> bool {
    match s {
        EngineState::Idle => true,
        EngineState::Playing(idx) => idx < n,
        EngineState::Paused(idx) => idx < n,
    }
}

/// The engine command a playback command stands for, if any (`Home` is not
/// an engine command: it is addressed to the motion side).
pub open spec fn engine_command_for(cmd: PlaybackCommand) -> Option<EngineCommand> {
    match cmd {
        PlaybackCommand::Play(idx) => Some(EngineCommand::Play(idx)),
        PlaybackCommand::Pause => Some(EngineCommand::Pause),
        PlaybackCommand::Resume => Some(EngineCommand::Resume),
        PlaybackCommand::Stop => Some(EngineCommand::Stop),
        PlaybackCommand::Home => None,
    }
}

/// Manages a collection of patterns and tracks which one plays.
pub struct PatternEngine {
    patterns: Vec<PatternMeta>,
    state: EngineState,
}

impl PatternEngine {
    pub closed spec fn spec_patterns(&self) -> Seq<PatternMeta> {
        self.patterns@
    }

    pub closed spec fn spec_state(&self) -> EngineState {
        self.state
    }

    /// The engine's invariant: the state refers only to existing patterns.
    pub open spec fn inv(&self) -> bool {
        engine_state_in_range(self.spec_state(), self.spec_patterns().len())
    }

    /// An idle engine over `patterns`.
    pub fn new(patterns: Vec<PatternMeta>) -> (e: Self)
        ensures
            e.spec_patterns() == patterns@,
            e.spec_state() == EngineState::Idle,
            e.inv(),
    {
        PatternEngine { patterns, state: EngineState::Idle }
    }

    /// Number of patterns available.
    pub fn pattern_count(&self) -> (n: usize)
        ensures
            n == self.spec_patterns().len(),
    {
        self.patterns.len()
    }

    /// Name of the pattern at `index`, or `None` if out of bounds.
    pub fn pattern_name(&self, index: usize) -> (r: Option<&'static str>)
        ensures
            index < self.spec_patterns().len() ==> r == Some(self.spec_patterns()[index as int].name),
            index >= self.spec_patterns().len() ==> r is None,
    {
        if index < self.patterns.len() {
            Some(self.patterns[index].name)
        } else {
            None
        }
    }

    /// Description of the pattern at `index`, or `None` if out of bounds.
    pub fn pattern_description(&self, index: usize) -> (r: Option<&'static str>)
        ensures
            index < self.spec_patterns().len() ==> r == Some(
                self.spec_patterns()[index as int].description,
            ),
            index >= self.spec_patterns().len() ==> r is None,
    {
        if index < self.patterns.len() {
            Some(self.patterns[index].description)
        } else {
            None
        }
    }

    /// `(index, name, description)` for all patterns, in order.
    pub fn pattern_list(&self) -> (r: Vec<(usize, &'static str, &'static str)>)
        ensures
            r@.len() == self.spec_patterns().len(),
            forall|i: int|
                0 <= i < r@.len() ==> #[trigger] r@[i] == (
                    i as usize,
                    self.spec_patterns()[i].name,
                    self.spec_patterns()[i].description,
                ),
    {
        let mut r: Vec<(usize, &'static str, &'static str)> = Vec::new();
        let n = self.patterns.len();
        let mut i: usize = 0;
        while i < n
            invariant
                n == self.spec_patterns().len(),
                i <= n,
                r@.len() == i,
                forall|j: int|
                    0 <= j < i ==> #[trigger] r@[j] == (
                        j as usize,
                        self.spec_patterns()[j].name,
                        self.spec_patterns()[j].description,
                    ),
            decreases n - i,
        {
            let p = self.patterns[i];
            r.push((i, p.name, p.description));
            i = i + 1;
        }
        r
    }

    /// All patterns, in order.
    pub fn patterns(&self) -> (r: &[PatternMeta])
        ensures
            r@ == self.spec_patterns(),
    {
        self.patterns.as_slice()
    }

    /// The current playback state.
    pub fn state(&self) -> (s: EngineState)
        ensures
            s == self.spec_state(),
    {
        self.state
    }

    /// Apply a command: `Play(idx)` starts pattern `idx` when it exists (and
    /// is ignored otherwise); `Pause` pauses a playing pattern; `Resume`
    /// resumes a paused one; `Stop` always goes idle.
    pub fn handle_command(&mut self, cmd: EngineCommand)
        requires
            old(self).inv(),
        ensures
            final(self).spec_patterns() == old(self).spec_patterns(),
            final(self).spec_state() == engine_transition(
                old(self).spec_state(),
                cmd,
                old(self).spec_patterns().len(),
            ),
            final(self).inv(),
    {
        match cmd {
            EngineCommand::Play(idx) => {
                if idx < self.patterns.len() {
                    self.state = EngineState::Playing(idx);
                }
            },
            EngineCommand::Pause => {
                if let EngineState::Playing(idx) = self.state {
                    self.state = EngineState::Paused(idx);
                }
            },
            EngineCommand::Resume => {
                if let EngineState::Paused(idx) = self.state {
                    self.state = EngineState::Playing(idx);
                }
            },
            EngineCommand::Stop => {
                self.state = EngineState::Idle;
            },
        }
    }

    /// Start playing the pattern at `idx` (ignored if there is none).
    pub fn play(&mut self, idx: usize)
        requires
            old(self).inv(),
        ensures
            final(self).spec_patterns() == old(self).spec_patterns(),
            final(self).spec_state() == engine_transition(
                old(self).spec_state(),
                EngineCommand::Play(idx),
                old(self).spec_patterns().len(),
            ),
            final(self).inv(),
    {
        self.handle_command(EngineCommand::Play(idx));
    }

    /// Pause the playing pattern.
    pub fn pause(&mut self)
        requires
            old(self).inv(),
        ensures
            final(self).spec_patterns() == old(self).spec_patterns(),
            final(self).spec_state() == engine_transition(
                old(self).spec_state(),
                EngineCommand::Pause,
                old(self).spec_patterns().len(),
            ),
            final(self).inv(),
    {
        self.handle_command(EngineCommand::Pause);
    }

    /// Resume the paused pattern.
    pub fn resume(&mut self)
        requires
            old(self).inv(),
        ensures
            final(self).spec_patterns() == old(self).spec_patterns(),
            final(self).spec_state() == engine_transition(
                old(self).spec_state(),
                EngineCommand::Resume,
                old(self).spec_patterns().len(),
            ),
            final(self).inv(),
    {
        self.handle_command(EngineCommand::Resume);
    }

    /// Stop playback.
    pub fn stop(&mut self)
        requires
            old(self).inv(),
        ensures
            final(self).spec_patterns() == old(self).spec_patterns(),
            final(self).spec_state() == EngineState::Idle,
            final(self).inv(),
    {
        self.handle_command(EngineCommand::Stop);
    }

    /// What the run loop does next: wait for a command when idle or paused,
    /// run the playing pattern otherwise.
    pub fn activity(&self) -> (a: Activity)
        requires
            self.inv(),
        ensures
            self.spec_state() matches EngineState::Playing(idx) ==> a == Activity::RunPattern(idx),
            !(self.spec_state() is Playing) ==> a == Activity::AwaitCommand,
            a matches Activity::RunPattern(idx) ==> idx < self.spec_patterns().len(),
    {
        match self.state {
            EngineState::Playing(idx) => Activity::RunPattern(idx),
            _ => Activity::AwaitCommand,
        }
    }

    /// The running pattern returned on its own: go idle.
    pub fn pattern_returned(&mut self)
        requires
            old(self).inv(),
        ensures
            final(self).spec_patterns() == old(self).spec_patterns(),
            final(self).spec_state() == EngineState::Idle,
            final(self).inv(),
    {
        self.state = EngineState::Idle;
    }
}

/// Forward a playback command to the engine. `Home` does not change playback;
/// it returns `true` so that the caller forwards the homing request to the
/// motion controller. Every other command returns `false`.
pub fn dispatch_playback(engine: &mut PatternEngine, cmd: PlaybackCommand) -> (home_requested: bool)
    requires
        old(engine).inv(),
    ensures
        home_requested == (cmd == PlaybackCommand::Home),
        final(engine).spec_patterns() == old(engine).spec_patterns(),
        final(engine).spec_state() == match engine_command_for(cmd) {
            Some(c) => engine_transition(old(engine).spec_state(), c, old(engine).spec_patterns().len()),
            None => old(engine).spec_state(),
        },
        final(engine).inv(),
{
    match cmd {
        PlaybackCommand::Play(idx) => {
            engine.play(idx);
            false
        },
        PlaybackCommand::Pause => {
            engine.pause();
            false
        },
        PlaybackCommand::Resume => {
            engine.resume();
            false
        },
        PlaybackCommand::Stop => {
            engine.stop();
            false
        },
        PlaybackCommand::Home => true,
    }
}

/// The engine's playback state.
pub fn current_state(engine: &PatternEngine) -> (s: EngineState)
    ensures
        s == engine.spec_state(),
{
    engine.state()
}

/// All patterns of the engine, in order.
pub fn pattern_list(engine: &PatternEngine) -> (r: &[PatternMeta])
    ensures
        r@ == engine.spec_patterns(),
{
    engine.patterns()
}

/// Description of the engine's pattern at `idx`, if any.
pub fn pattern_description(engine: &PatternEngine, idx: usize) -> (r: Option<&'static str>)
    ensures
        idx < engine.spec_patterns().len() ==> r == Some(engine.spec_patterns()[idx as int].description),
        idx >= engine.spec_patterns().len() ==> r is None,
{
    engine.pattern_description(idx)
}

/// Pause then resume returns to the same pattern; `Stop` forgets it, so a
/// later `Resume` does nothing.
pub proof fn lemma_pause_resume_same_pattern(idx: usize, n: nat)
    requires
        idx < n,
    ensures
        engine_transition(
            engine_transition(EngineState::Playing(idx), EngineCommand::Pause, n),
            EngineCommand::Resume,
            n,
        ) == EngineState::Playing(idx),
        engine_transition(
            engine_transition(EngineState::Paused(idx), EngineCommand::Stop, n),
            EngineCommand::Resume,
            n,
        ) == EngineState::Idle,
{
}

/// Every command keeps the state within the engine's patterns, and playing
/// an index that does not exist changes nothing.
pub proof fn lemma_commands_stay_in_range(s: EngineState, cmd: EngineCommand, n: nat)
    requires
        engine_state_in_range(s, n),
    ensures
        engine_state_in_range(engine_transition(s, cmd, n), n),
        cmd matches EngineCommand::Play(idx) && idx >= n ==> engine_transition(s, cmd, n) == s,
{
}

/// `Play` of an existing pattern plays it, whatever the engine was doing
/// (another pattern playing or paused, or idle); `Play` of an index past the
/// patterns changes nothing.
pub proof fn lemma_play_selects_pattern(s: EngineState, idx: usize, n: nat)
    ensures
        idx < n ==> engine_transition(s, EngineCommand::Play(idx), n) == EngineState::Playing(idx),
        idx >= n ==> engine_transition(s, EngineCommand::Play(idx), n) == s,
{
}

} // verus!
