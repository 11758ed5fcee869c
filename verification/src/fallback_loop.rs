//! The sleep loop that drives scroll frames when the display link fails,
//! as a state machine: it creates and tags its own event source, then, on
//! a thread of its own, drives a frame and sleeps for as long as the engine
//! runs, and finally gives its event source back. The platform layer
//! performs each command in order and reports what the creating and
//! checking commands observed.

use vstd::prelude::*;

verus! {

/// Time the sleep loop waits between frames, in microseconds (about 120
/// frames per second).
pub const FALLBACK_FRAME_INTERVAL_US: u64 = 8333;

/// A step of the sleep loop.
#[derive(Clone, Copy, Debug, PartialEq, Eq, Structural)]
pub enum FallbackCommand {
    /// Create a private event source; report `SourceCreated`.
    CreateSource,
    ReportSourceFailure,
    /// Tag the event source so that the tap recognises its events.
    TagSource,
    /// Spawn the loop thread; it performs all commands that follow.
    SpawnLoopThread,
    /// Read the engine's running flag; report `RunningChecked`.
    CheckRunning,
    /// Process one scroll frame, posting through the event source.
    DriveFrame,
    /// Sleep for this many microseconds.
    Sleep { micros: u64 },
    ReleaseSource,
}

/// What the platform layer observed.
#[derive(Clone, Copy, Debug, PartialEq, Eq, Structural)]
pub enum FallbackEvent {
    /// `CreateSource` gave a non-null source (`ok`) or null.
    SourceCreated { ok: bool },
    /// `CheckRunning` read this value of the running flag.
    RunningChecked { running: bool },
}

#[derive(Clone, Copy, Debug, PartialEq, Eq, Structural)]
pub enum FallbackPhase {
    AwaitSource,
    AwaitRunning,
    Finished,
}

/// The next phase and the commands of one step.
pub open spec fn spec_fallback_step(phase: FallbackPhase, event: FallbackEvent) -> (FallbackPhase, Seq<FallbackCommand>) {
    match (phase, event) {
        (FallbackPhase::AwaitSource, FallbackEvent::SourceCreated { ok }) => if ok {
            (FallbackPhase::AwaitRunning, seq![
                FallbackCommand::TagSource,
                FallbackCommand::SpawnLoopThread,
                FallbackCommand::CheckRunning,
            ])
        } else {
            (FallbackPhase::Finished, seq![FallbackCommand::ReportSourceFailure])
        },
        (FallbackPhase::AwaitRunning, FallbackEvent::RunningChecked { running }) => if running {
            (FallbackPhase::AwaitRunning, seq![
                FallbackCommand::DriveFrame,
                FallbackCommand::Sleep { micros: FALLBACK_FRAME_INTERVAL_US },
                FallbackCommand::CheckRunning,
            ])
        } else {
            (FallbackPhase::Finished, seq![FallbackCommand::ReleaseSource])
        },
        _ => (phase, Seq::empty()),
    }
}

/// The sleep loop.
pub struct FallbackLoop {
    phase: FallbackPhase,
}

impl FallbackLoop {
    pub closed spec fn view(&self) -> FallbackPhase {
        self.phase
    }

    /// Begin with an event source of the loop's own.
    pub fn begin() -> (result: (FallbackLoop, Vec<FallbackCommand>))
        ensures
            result.0@ == FallbackPhase::AwaitSource,
            result.1@ == seq![FallbackCommand::CreateSource],
    {
        let mut commands: Vec<FallbackCommand> = Vec::new();
        commands.push(FallbackCommand::CreateSource);
        (FallbackLoop { phase: FallbackPhase::AwaitSource }, commands)
    }

    pub fn phase(&self) -> (phase: FallbackPhase)
        ensures
            phase == self@,
    {
        self.phase
    }

    /// Take in what the last command observed and give the commands that
    /// follow. An observation the loop does not wait for changes nothing.
    pub fn step(&mut self, event: FallbackEvent) -> (commands: Vec<FallbackCommand>)
        ensures
            (final(self)@, commands@) == spec_fallback_step(old(self)@, event),
    {
        let mut commands: Vec<FallbackCommand> = Vec::new();
        match (self.phase, event) {
            (FallbackPhase::AwaitSource, FallbackEvent::SourceCreated { ok }) => {
                if ok {
                    commands.push(FallbackCommand::TagSource);
                    commands.push(FallbackCommand::SpawnLoopThread);
                    commands.push(FallbackCommand::CheckRunning);
                    self.phase = FallbackPhase::AwaitRunning;
                } else {
                    commands.push(FallbackCommand::ReportSourceFailure);
                    self.phase = FallbackPhase::Finished;
                }
            },
            (FallbackPhase::AwaitRunning, FallbackEvent::RunningChecked { running }) => {
                if running {
                    commands.push(FallbackCommand::DriveFrame);
                    commands.push(FallbackCommand::Sleep { micros: FALLBACK_FRAME_INTERVAL_US });
                    commands.push(FallbackCommand::CheckRunning);
                } else {
                    commands.push(FallbackCommand::ReleaseSource);
                    self.phase = FallbackPhase::Finished;
                }
            },
            _ => {},
        }
        assert(commands@ =~= spec_fallback_step(old(self)@, event).1);
        commands
    }
}

/// Whether the loop in `phase` waits for `event`.
pub open spec fn fallback_expects(phase: FallbackPhase, event: FallbackEvent) -> bool {
    match (phase, event) {
        (FallbackPhase::AwaitSource, FallbackEvent::SourceCreated { .. }) => true,
        (FallbackPhase::AwaitRunning, FallbackEvent::RunningChecked { .. }) => true,
        _ => false,
    }
}

/// Whether the loop holds its event source in `phase`.
pub open spec fn fallback_holds_source(phase: FallbackPhase) -> bool {
    phase == FallbackPhase::AwaitRunning
}

/// Whether the loop holds its event source after `event` in a loop that
/// held it or not (`held`).
pub open spec fn fallback_event_effect(held: bool, event: FallbackEvent) -> bool {
    match event {
        FallbackEvent::SourceCreated { ok } => held || ok,
        FallbackEvent::RunningChecked { .. } => held,
    }
}

/// Whether the loop holds its event source after `commands`, or `None`
/// if one of them uses or gives back a source it does not hold.
pub open spec fn run_fallback_commands(held: bool, commands: Seq<FallbackCommand>) -> Option<bool>
    decreases commands.len(),
{
    if commands.len() == 0 {
        Some(held)
    } else {
        let command = commands[0];
        let needs_source = command == FallbackCommand::TagSource || command == FallbackCommand::DriveFrame
            || command == FallbackCommand::ReleaseSource;
        if needs_source && !held {
            None
        } else {
            run_fallback_commands(
                if command == FallbackCommand::ReleaseSource { false } else { held },
                commands.drop_first(),
            )
        }
    }
}

/// Every step of the loop tags, uses and gives back only a source it
/// holds, and leaves it holding the source exactly while it waits on the
/// running flag; a finished loop holds no source.
pub proof fn lemma_fallback_step_resources(phase: FallbackPhase, event: FallbackEvent)
    requires
        fallback_expects(phase, event),
    ensures
        run_fallback_commands(
            fallback_event_effect(fallback_holds_source(phase), event),
            spec_fallback_step(phase, event).1,
        ) == Some(fallback_holds_source(spec_fallback_step(phase, event).0)),
        !fallback_holds_source(FallbackPhase::Finished),
{
    reveal_with_fuel(run_fallback_commands, 4);
}

/// Whether the loop holds its source after taking in `events` one by one
/// from `phase` (an event it does not wait for changes nothing), with the
/// phase it ends in; `None` once a command is not allowed.
pub open spec fn fallback_run(phase: FallbackPhase, held: Option<bool>, events: Seq<FallbackEvent>) -> (FallbackPhase, Option<bool>)
    decreases events.len(),
{
    if events.len() == 0 {
        (phase, held)
    } else {
        let event = events[0];
        if !fallback_expects(phase, event) {
            fallback_run(phase, held, events.drop_first())
        } else {
            let (next, commands) = spec_fallback_step(phase, event);
            let after = match held {
                None => None,
                Some(h) => run_fallback_commands(fallback_event_effect(h, event), commands),
            };
            fallback_run(next, after, events.drop_first())
        }
    }
}

/// Whatever the loop observes, every command of its whole run is allowed
/// and it holds its source exactly while it runs; once finished, the
/// source it created has been given back exactly once.
pub proof fn lemma_fallback_run_resources(events: Seq<FallbackEvent>)
    ensures
        fallback_run(FallbackPhase::AwaitSource, Some(false), events).1 == Some(
            fallback_holds_source(fallback_run(FallbackPhase::AwaitSource, Some(false), events).0),
        ),
        fallback_run(FallbackPhase::AwaitSource, Some(false), events).0 == FallbackPhase::Finished
            ==> fallback_run(FallbackPhase::AwaitSource, Some(false), events).1 == Some(false),
{
    lemma_fallback_run_from(FallbackPhase::AwaitSource, events);
}

proof fn lemma_fallback_run_from(phase: FallbackPhase, events: Seq<FallbackEvent>)
    ensures
        fallback_run(phase, Some(fallback_holds_source(phase)), events).1 == Some(
            fallback_holds_source(fallback_run(phase, Some(fallback_holds_source(phase)), events).0),
        ),
    decreases events.len(),
{
    if events.len() > 0 {
        let event = events[0];
        if fallback_expects(phase, event) {
            lemma_fallback_step_resources(phase, event);
            lemma_fallback_run_from(spec_fallback_step(phase, event).0, events.drop_first());
        } else {
            lemma_fallback_run_from(phase, events.drop_first());
        }
    }
}

/// The loop drives a frame, then sleeps one frame interval, exactly when
/// it has just read the running flag as set; once it reads it cleared, it
/// gives back its source and stops. Its thread is spawned only with a
/// tagged source.
pub proof fn lemma_fallback_frames(phase: FallbackPhase, event: FallbackEvent)
    requires
        fallback_expects(phase, event),
    ensures
        spec_fallback_step(phase, event).1.contains(FallbackCommand::DriveFrame) <==> (event
            == (FallbackEvent::RunningChecked { running: true })),
        event == (FallbackEvent::RunningChecked { running: true }) ==> spec_fallback_step(phase, event).1
            == seq![
            FallbackCommand::DriveFrame,
            (FallbackCommand::Sleep { micros: FALLBACK_FRAME_INTERVAL_US }),
            FallbackCommand::CheckRunning,
        ],
        event == (FallbackEvent::RunningChecked { running: false }) ==> spec_fallback_step(phase, event)
            == (FallbackPhase::Finished, seq![FallbackCommand::ReleaseSource]),
        event == (FallbackEvent::SourceCreated { ok: true }) ==> spec_fallback_step(phase, event).1[0]
            == FallbackCommand::TagSource && spec_fallback_step(phase, event).1[1]
            == FallbackCommand::SpawnLoopThread,
{
    let cmds = spec_fallback_step(phase, event).1;
    let drive_again = FallbackEvent::RunningChecked { running: true };
    if event == drive_again {
        assert(cmds[0] == FallbackCommand::DriveFrame);
    } else {
        assert forall|i: int| 0 <= i < cmds.len() implies cmds[i] != FallbackCommand::DriveFrame by {}
    }
}

} // verus!
