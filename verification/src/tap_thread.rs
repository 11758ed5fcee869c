//! The event-tap thread as a state machine: it creates the tap and its run
//! loop source, runs the run loop while the engine is running, and tears
//! everything down again. The platform layer performs each command in order
//! and reports what the creating and checking commands observed.

use vstd::prelude::*;

verus! {

/// A step the event-tap thread performs.
#[derive(Clone, Copy, Debug, PartialEq, Eq, Structural)]
pub enum TapCommand {
    /// Allocate the context that the tap callback receives.
    AllocateContext,
    /// Create the scroll-wheel event tap; report `TapCreated`.
    CreateTap,
    /// Store the tap in the context, so that the callback can re-enable it.
    RecordTapPort,
    /// Create the run loop source of the tap; report `SourceCreated`.
    CreateRunLoopSource,
    /// Publish the thread's run loop, so that the engine can stop it.
    PublishRunLoop,
    AddSourceToRunLoop,
    EnableTap,
    StartDisplayLink,
    /// Read the engine's running flag; report `RunningChecked`.
    CheckRunning,
    /// Run the run loop until it is stopped.
    RunLoop,
    StopDisplayLink,
    /// Withdraw the published run loop.
    ClearRunLoop,
    DisableTap,
    ReleaseSource,
    ReleaseTap,
    FreeContext,
    /// Clear the engine's running flag.
    MarkStopped,
    ReportTapFailure,
    ReportSourceFailure,
}

/// What the platform layer observed when performing a creating or checking
/// command.
#[derive(Clone, Copy, Debug, PartialEq, Eq, Structural)]
pub enum TapEvent {
    /// `CreateTap` gave a non-null tap (`ok`) or null.
    TapCreated { ok: bool },
    /// `CreateRunLoopSource` gave a non-null source (`ok`) or null.
    SourceCreated { ok: bool },
    /// `CheckRunning` read this value of the running flag.
    RunningChecked { running: bool },
}

/// Where the thread stands: which observation it waits for.
#[derive(Clone, Copy, Debug, PartialEq, Eq, Structural)]
pub enum TapPhase {
    AwaitTap,
    AwaitSource,
    AwaitRunning,
    Finished,
}

/// The next phase and the commands of one step.
pub open spec fn spec_tap_step(phase: TapPhase, event: TapEvent) -> (TapPhase, Seq<TapCommand>) {
    match (phase, event) {
        (TapPhase::AwaitTap, TapEvent::TapCreated { ok }) => if ok {
            (TapPhase::AwaitSource, seq![TapCommand::RecordTapPort, TapCommand::CreateRunLoopSource])
        } else {
            (TapPhase::Finished, seq![
                TapCommand::ReportTapFailure,
                TapCommand::MarkStopped,
                TapCommand::FreeContext,
            ])
        },
        (TapPhase::AwaitSource, TapEvent::SourceCreated { ok }) => if ok {
            (TapPhase::AwaitRunning, seq![
                TapCommand::PublishRunLoop,
                TapCommand::AddSourceToRunLoop,
                TapCommand::EnableTap,
                TapCommand::StartDisplayLink,
                TapCommand::CheckRunning,
            ])
        } else {
            (TapPhase::Finished, seq![
                TapCommand::ReportSourceFailure,
                TapCommand::MarkStopped,
                TapCommand::ReleaseTap,
                TapCommand::FreeContext,
            ])
        },
        (TapPhase::AwaitRunning, TapEvent::RunningChecked { running }) => if running {
            (TapPhase::AwaitRunning, seq![TapCommand::RunLoop, TapCommand::CheckRunning])
        } else {
            (TapPhase::Finished, seq![
                TapCommand::StopDisplayLink,
                TapCommand::ClearRunLoop,
                TapCommand::DisableTap,
                TapCommand::ReleaseSource,
                TapCommand::ReleaseTap,
                TapCommand::FreeContext,
            ])
        },
        _ => (phase, Seq::empty()),
    }
}

/// The event-tap thread.
pub struct TapThread {
    phase: TapPhase,
}

impl TapThread {
    pub closed spec fn view(&self) -> TapPhase {
        self.phase
    }

    /// Start the thread: allocate the callback context and create the tap.
    pub fn begin() -> (result: (TapThread, Vec<TapCommand>))
        ensures
            result.0@ == TapPhase::AwaitTap,
            result.1@ == seq![TapCommand::AllocateContext, TapCommand::CreateTap],
    {
        let mut commands: Vec<TapCommand> = Vec::new();
        commands.push(TapCommand::AllocateContext);
        commands.push(TapCommand::CreateTap);
        (TapThread { phase: TapPhase::AwaitTap }, commands)
    }

    pub fn phase(&self) -> (phase: TapPhase)
        ensures
            phase == self@,
    {
        self.phase
    }

    /// Take in what the last command observed and give the commands that
    /// follow. An observation the thread does not wait for changes nothing.
    pub fn step(&mut self, event: TapEvent) -> (commands: Vec<TapCommand>)
        ensures
            (final(self)@, commands@) == spec_tap_step(old(self)@, event),
    {
        let mut commands: Vec<TapCommand> = Vec::new();
        match (self.phase, event) {
            (TapPhase::AwaitTap, TapEvent::TapCreated { ok }) => {
                if ok {
                    commands.push(TapCommand::RecordTapPort);
                    commands.push(TapCommand::CreateRunLoopSource);
                    self.phase = TapPhase::AwaitSource;
                } else {
                    commands.push(TapCommand::ReportTapFailure);
                    commands.push(TapCommand::MarkStopped);
                    commands.push(TapCommand::FreeContext);
                    self.phase = TapPhase::Finished;
                }
            },
            (TapPhase::AwaitSource, TapEvent::SourceCreated { ok }) => {
                if ok {
                    commands.push(TapCommand::PublishRunLoop);
                    commands.push(TapCommand::AddSourceToRunLoop);
                    commands.push(TapCommand::EnableTap);
                    commands.push(TapCommand::StartDisplayLink);
                    commands.push(TapCommand::CheckRunning);
                    self.phase = TapPhase::AwaitRunning;
                } else {
                    commands.push(TapCommand::ReportSourceFailure);
                    commands.push(TapCommand::MarkStopped);
                    commands.push(TapCommand::ReleaseTap);
                    commands.push(TapCommand::FreeContext);
                    self.phase = TapPhase::Finished;
                }
            },
            (TapPhase::AwaitRunning, TapEvent::RunningChecked { running }) => {
                if running {
                    commands.push(TapCommand::RunLoop);
                    commands.push(TapCommand::CheckRunning);
                } else {
                    commands.push(TapCommand::StopDisplayLink);
                    commands.push(TapCommand::ClearRunLoop);
                    commands.push(TapCommand::DisableTap);
                    commands.push(TapCommand::ReleaseSource);
                    commands.push(TapCommand::ReleaseTap);
                    commands.push(TapCommand::FreeContext);
                    self.phase = TapPhase::Finished;
                }
            },
            _ => {},
        }
        assert(commands@ =~= spec_tap_step(old(self)@, event).1);
        commands
    }
}


/// The resources of the thread that must be given back: each flag says
/// whether the thread holds that resource.
#[derive(Clone, Copy, Debug, PartialEq, Eq, Structural)]
pub struct TapResources {
    pub context: bool,
    pub tap: bool,
    pub source: bool,
    pub run_loop_published: bool,
    pub tap_enabled: bool,
    pub display_link: bool,
}

/// Nothing held.
pub open spec fn no_tap_resources() -> TapResources {
    TapResources {
        context: false,
        tap: false,
        source: false,
        run_loop_published: false,
        tap_enabled: false,
        display_link: false,
    }
}

/// What the thread holds in each phase.
pub open spec fn tap_held(phase: TapPhase) -> TapResources {
    match phase {
        TapPhase::AwaitTap => TapResources { context: true, ..no_tap_resources() },
        TapPhase::AwaitSource => TapResources { context: true, tap: true, ..no_tap_resources() },
        TapPhase::AwaitRunning => TapResources {
            context: true,
            tap: true,
            source: true,
            run_loop_published: true,
            tap_enabled: true,
            display_link: true,
        },
        TapPhase::Finished => no_tap_resources(),
    }
}

/// Whether the thread in `phase` waits for `event`.
pub open spec fn tap_expects(phase: TapPhase, event: TapEvent) -> bool {
    match (phase, event) {
        (TapPhase::AwaitTap, TapEvent::TapCreated { .. }) => true,
        (TapPhase::AwaitSource, TapEvent::SourceCreated { .. }) => true,
        (TapPhase::AwaitRunning, TapEvent::RunningChecked { .. }) => true,
        _ => false,
    }
}

/// What a successful creation hands to the thread.
pub open spec fn tap_event_effect(held: TapResources, event: TapEvent) -> TapResources {
    match event {
        TapEvent::TapCreated { ok } => if ok { TapResources { tap: true, ..held } } else { held },
        TapEvent::SourceCreated { ok } => if ok { TapResources { source: true, ..held } } else { held },
        TapEvent::RunningChecked { .. } => held,
    }
}

/// What one command does to the held resources; `None` when it acquires
/// what is already held or gives back what is not held.
pub open spec fn tap_command_effect(held: TapResources, command: TapCommand) -> Option<TapResources> {
    match command {
        TapCommand::AllocateContext => if held.context { None } else {
            Some(TapResources { context: true, ..held })
        },
        TapCommand::FreeContext => if held.context {
            Some(TapResources { context: false, ..held })
        } else { None },
        TapCommand::ReleaseTap => if held.tap { Some(TapResources { tap: false, ..held }) } else { None },
        TapCommand::ReleaseSource => if held.source {
            Some(TapResources { source: false, ..held })
        } else { None },
        TapCommand::PublishRunLoop => if held.run_loop_published { None } else {
            Some(TapResources { run_loop_published: true, ..held })
        },
        TapCommand::ClearRunLoop => if held.run_loop_published {
            Some(TapResources { run_loop_published: false, ..held })
        } else { None },
        TapCommand::EnableTap => if held.tap_enabled { None } else {
            Some(TapResources { tap_enabled: true, ..held })
        },
        TapCommand::DisableTap => if held.tap_enabled {
            Some(TapResources { tap_enabled: false, ..held })
        } else { None },
        TapCommand::StartDisplayLink => if held.display_link { None } else {
            Some(TapResources { display_link: true, ..held })
        },
        TapCommand::StopDisplayLink => if held.display_link {
            Some(TapResources { display_link: false, ..held })
        } else { None },
        _ => Some(held),
    }
}

/// The resources held after performing `commands` in order, or `None` if
/// one of them acquires twice or gives back what is not held.
pub open spec fn run_tap_commands(held: TapResources, commands: Seq<TapCommand>) -> Option<TapResources>
    decreases commands.len(),
{
    if commands.len() == 0 {
        Some(held)
    } else {
        match tap_command_effect(held, commands[0]) {
            None => None,
            Some(next) => run_tap_commands(next, commands.drop_first()),
        }
    }
}

/// The commands that wait for an observation.
pub open spec fn is_tap_query(command: TapCommand) -> bool {
    command == TapCommand::CreateTap || command == TapCommand::CreateRunLoopSource
        || command == TapCommand::CheckRunning
}

/// The thread starts holding only its callback context and waits for the
/// tap.
pub proof fn lemma_tap_begin_resources()
    ensures
        run_tap_commands(no_tap_resources(), seq![TapCommand::AllocateContext, TapCommand::CreateTap])
            == Some(tap_held(TapPhase::AwaitTap)),
{
    reveal_with_fuel(run_tap_commands, 3);
}

/// Every step of the thread acquires nothing twice and gives back nothing
/// it does not hold, and leaves it holding exactly what its new phase
/// holds; a finished thread holds nothing. So every run of the thread gives
/// back each resource it acquired exactly once.
pub proof fn lemma_tap_step_resources(phase: TapPhase, event: TapEvent)
    requires
        tap_expects(phase, event),
    ensures
        run_tap_commands(tap_event_effect(tap_held(phase), event), spec_tap_step(phase, event).1)
            == Some(tap_held(spec_tap_step(phase, event).0)),
        tap_held(TapPhase::Finished) == no_tap_resources(),
{
    reveal_with_fuel(run_tap_commands, 7);
}

/// The phase and held resources after the thread, in `phase` holding
/// `held`, takes in `events` one by one (an event it does not wait for
/// changes nothing); held resources become `None` once a command is not
/// allowed where it stands.
pub open spec fn tap_run(phase: TapPhase, held: Option<TapResources>, events: Seq<TapEvent>) -> (TapPhase, Option<TapResources>)
    decreases events.len(),
{
    if events.len() == 0 {
        (phase, held)
    } else {
        let event = events[0];
        if !tap_expects(phase, event) {
            tap_run(phase, held, events.drop_first())
        } else {
            let (next, commands) = spec_tap_step(phase, event);
            let after = match held {
                None => None,
                Some(h) => run_tap_commands(tap_event_effect(h, event), commands),
            };
            tap_run(next, after, events.drop_first())
        }
    }
}

/// Whatever the thread observes, every command of its whole run is allowed
/// where it stands and it always holds exactly what its phase holds; once
/// finished it holds nothing: each resource it acquired was given back
/// exactly once.
pub proof fn lemma_tap_run_resources(events: Seq<TapEvent>)
    ensures
        tap_run(
            TapPhase::AwaitTap,
            run_tap_commands(no_tap_resources(), seq![TapCommand::AllocateContext, TapCommand::CreateTap]),
            events,
        ).1 == Some(tap_held(tap_run(TapPhase::AwaitTap, Some(tap_held(TapPhase::AwaitTap)), events).0)),
        tap_run(TapPhase::AwaitTap, Some(tap_held(TapPhase::AwaitTap)), events).0 == TapPhase::Finished
            ==> tap_run(TapPhase::AwaitTap, Some(tap_held(TapPhase::AwaitTap)), events).1 == Some(
            no_tap_resources(),
        ),
{
    lemma_tap_begin_resources();
    lemma_tap_run_from(TapPhase::AwaitTap, events);
}

proof fn lemma_tap_run_from(phase: TapPhase, events: Seq<TapEvent>)
    ensures
        tap_run(phase, Some(tap_held(phase)), events).1 == Some(tap_held(tap_run(phase, Some(tap_held(phase)), events).0)),
    decreases events.len(),
{
    if events.len() > 0 {
        let event = events[0];
        if tap_expects(phase, event) {
            lemma_tap_step_resources(phase, event);
            lemma_tap_run_from(spec_tap_step(phase, event).0, events.drop_first());
        } else {
            lemma_tap_run_from(phase, events.drop_first());
        }
    }
}

/// A step leaves the thread waiting exactly when its last command is the
/// one query it waits on; a step that finishes the thread queries nothing.
pub proof fn lemma_tap_step_queries(phase: TapPhase, event: TapEvent)
    requires
        tap_expects(phase, event),
    ensures
        ({
            let (next, commands) = spec_tap_step(phase, event);
            &&& next != TapPhase::Finished ==> commands.len() > 0 && is_tap_query(commands.last())
                && forall|i: int| 0 <= i < commands.len() - 1 ==> !is_tap_query(#[trigger] commands[i])
            &&& next == TapPhase::Finished ==> forall|i: int| 0 <= i < commands.len() ==> !is_tap_query(#[trigger] commands[i])
        }),
{
}

/// A thread that fails to set up its tap clears the engine's running flag;
/// a thread that stops because the flag was cleared does not touch it.
pub proof fn lemma_tap_failure_marks_stopped(phase: TapPhase, event: TapEvent)
    requires
        tap_expects(phase, event),
    ensures
        spec_tap_step(phase, event).1.contains(TapCommand::MarkStopped) <==> (
            event == TapEvent::TapCreated { ok: false } || event == TapEvent::SourceCreated { ok: false }),
{
    let cmds = spec_tap_step(phase, event).1;
    if event == (TapEvent::TapCreated { ok: false }) {
        assert(cmds[1] == TapCommand::MarkStopped);
    } else if event == (TapEvent::SourceCreated { ok: false }) {
        assert(cmds[1] == TapCommand::MarkStopped);
    } else {
        assert forall|i: int| 0 <= i < cmds.len() implies cmds[i] != TapCommand::MarkStopped by {}
    }
}

} // verus!
