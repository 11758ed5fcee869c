//! The display link that drives scroll frames at the display's refresh
//! rate, as a state machine: its setup, where every failure hands frames to
//! the sleep loop, and its shutdown. The platform layer performs each
//! command in order and reports what the creating commands observed.

use vstd::prelude::*;

verus! {

/// Status a CoreVideo call returns on success.
pub const CV_RETURN_SUCCESS: i32 = 0;

/// A step of setting up or shutting down the display link.
#[derive(Clone, Copy, Debug, PartialEq, Eq, Structural)]
pub enum LinkCommand {
    /// Create a private event source; report `SourceCreated`.
    CreateSource,
    /// Tag the event source so that the tap recognises its events.
    TagSource,
    /// Allocate the context that the frame callback receives; it owns the
    /// event source.
    AllocateContext,
    /// Create a display link for the active displays; report `LinkCreated`.
    CreateLink,
    /// Install the frame callback; report `CallbackSet`.
    SetOutputCallback,
    /// Start the display link; report `LinkStarted`.
    StartLink,
    StopLink,
    ReleaseLink,
    ReleaseSource,
    FreeContext,
    /// Drive frames from a sleep loop instead.
    StartFallbackLoop,
    ReportSourceFailure,
    ReportLinkFailure { status: i32 },
    ReportCallbackFailure,
    ReportStartFailure,
}

/// What the platform layer observed, or a request to shut down.
#[derive(Clone, Copy, Debug, PartialEq, Eq, Structural)]
pub enum LinkEvent {
    SourceCreated { ok: bool },
    LinkCreated { status: i32, non_null: bool },
    CallbackSet { status: i32 },
    LinkStarted { status: i32 },
    StopRequested,
}

#[derive(Clone, Copy, Debug, PartialEq, Eq, Structural)]
pub enum LinkPhase {
    AwaitSource,
    AwaitLink,
    AwaitCallback,
    AwaitStart,
    /// The display link drives frames.
    Running,
    /// No display link runs (never started, abandoned, or stopped).
    Inactive,
}

/// The next phase and the commands of one step.
pub open spec fn spec_link_step(phase: LinkPhase, event: LinkEvent) -> (LinkPhase, Seq<LinkCommand>) {
    match (phase, event) {
        (LinkPhase::AwaitSource, LinkEvent::SourceCreated { ok }) => if ok {
            (LinkPhase::AwaitLink, seq![
                LinkCommand::TagSource,
                LinkCommand::AllocateContext,
                LinkCommand::CreateLink,
            ])
        } else {
            (LinkPhase::Inactive, seq![LinkCommand::ReportSourceFailure, LinkCommand::StartFallbackLoop])
        },
        (LinkPhase::AwaitLink, LinkEvent::LinkCreated { status, non_null }) =>
            if status == CV_RETURN_SUCCESS && non_null {
                (LinkPhase::AwaitCallback, seq![LinkCommand::SetOutputCallback])
            } else {
                (LinkPhase::Inactive, seq![
                    LinkCommand::ReportLinkFailure { status },
                    LinkCommand::ReleaseSource,
                    LinkCommand::FreeContext,
                    LinkCommand::StartFallbackLoop,
                ])
            },
        (LinkPhase::AwaitCallback, LinkEvent::CallbackSet { status }) => if status == CV_RETURN_SUCCESS {
            (LinkPhase::AwaitStart, seq![LinkCommand::StartLink])
        } else {
            (LinkPhase::Inactive, seq![
                LinkCommand::ReportCallbackFailure,
                LinkCommand::ReleaseLink,
                LinkCommand::ReleaseSource,
                LinkCommand::FreeContext,
                LinkCommand::StartFallbackLoop,
            ])
        },
        (LinkPhase::AwaitStart, LinkEvent::LinkStarted { status }) => if status == CV_RETURN_SUCCESS {
            (LinkPhase::Running, Seq::empty())
        } else {
            (LinkPhase::Inactive, seq![
                LinkCommand::ReportStartFailure,
                LinkCommand::ReleaseLink,
                LinkCommand::ReleaseSource,
                LinkCommand::FreeContext,
                LinkCommand::StartFallbackLoop,
            ])
        },
        (LinkPhase::Running, LinkEvent::StopRequested) => (LinkPhase::Inactive, seq![
            LinkCommand::StopLink,
            LinkCommand::ReleaseLink,
            LinkCommand::ReleaseSource,
            LinkCommand::FreeContext,
        ]),
        _ => (phase, Seq::empty()),
    }
}

/// The display link of the scroll engine.
pub struct DisplayLink {
    phase: LinkPhase,
}

impl DisplayLink {
    pub closed spec fn view(&self) -> LinkPhase {
        self.phase
    }

    /// Begin the setup with a tagged event source.
    pub fn begin() -> (result: (DisplayLink, Vec<LinkCommand>))
        ensures
            result.0@ == LinkPhase::AwaitSource,
            result.1@ == seq![LinkCommand::CreateSource],
    {
        let mut commands: Vec<LinkCommand> = Vec::new();
        commands.push(LinkCommand::CreateSource);
        (DisplayLink { phase: LinkPhase::AwaitSource }, commands)
    }

    pub fn phase(&self) -> (phase: LinkPhase)
        ensures
            phase == self@,
    {
        self.phase
    }

    /// Whether the display link drives frames.
    pub fn is_running(&self) -> (running: bool)
        ensures
            running == (self@ == LinkPhase::Running),
    {
        match self.phase {
            LinkPhase::Running => true,
            _ => false,
        }
    }

    /// Take in an observation or a shutdown request and give the commands
    /// that follow. An event the link does not wait for changes nothing; in
    /// particular, shutting down a link that never ran does nothing.
    pub fn step(&mut self, event: LinkEvent) -> (commands: Vec<LinkCommand>)
        ensures
            (final(self)@, commands@) == spec_link_step(old(self)@, event),
    {
        let mut commands: Vec<LinkCommand> = Vec::new();
        match (self.phase, event) {
            (LinkPhase::AwaitSource, LinkEvent::SourceCreated { ok }) => {
                if ok {
                    commands.push(LinkCommand::TagSource);
                    commands.push(LinkCommand::AllocateContext);
                    commands.push(LinkCommand::CreateLink);
                    self.phase = LinkPhase::AwaitLink;
                } else {
                    commands.push(LinkCommand::ReportSourceFailure);
                    commands.push(LinkCommand::StartFallbackLoop);
                    self.phase = LinkPhase::Inactive;
                }
            },
            (LinkPhase::AwaitLink, LinkEvent::LinkCreated { status, non_null }) => {
                if status == CV_RETURN_SUCCESS && non_null {
                    commands.push(LinkCommand::SetOutputCallback);
                    self.phase = LinkPhase::AwaitCallback;
                } else {
                    commands.push(LinkCommand::ReportLinkFailure { status });
                    commands.push(LinkCommand::ReleaseSource);
                    commands.push(LinkCommand::FreeContext);
                    commands.push(LinkCommand::StartFallbackLoop);
                    self.phase = LinkPhase::Inactive;
                }
            },
            (LinkPhase::AwaitCallback, LinkEvent::CallbackSet { status }) => {
                if status == CV_RETURN_SUCCESS {
                    commands.push(LinkCommand::StartLink);
                    self.phase = LinkPhase::AwaitStart;
                } else {
                    commands.push(LinkCommand::ReportCallbackFailure);
                    commands.push(LinkCommand::ReleaseLink);
                    commands.push(LinkCommand::ReleaseSource);
                    commands.push(LinkCommand::FreeContext);
                    commands.push(LinkCommand::StartFallbackLoop);
                    self.phase = LinkPhase::Inactive;
                }
            },
            (LinkPhase::AwaitStart, LinkEvent::LinkStarted { status }) => {
                if status == CV_RETURN_SUCCESS {
                    self.phase = LinkPhase::Running;
                } else {
                    commands.push(LinkCommand::ReportStartFailure);
                    commands.push(LinkCommand::ReleaseLink);
                    commands.push(LinkCommand::ReleaseSource);
                    commands.push(LinkCommand::FreeContext);
                    commands.push(LinkCommand::StartFallbackLoop);
                    self.phase = LinkPhase::Inactive;
                }
            },
            (LinkPhase::Running, LinkEvent::StopRequested) => {
                commands.push(LinkCommand::StopLink);
                commands.push(LinkCommand::ReleaseLink);
                commands.push(LinkCommand::ReleaseSource);
                commands.push(LinkCommand::FreeContext);
                self.phase = LinkPhase::Inactive;
            },
            _ => {},
        }
        assert(commands@ =~= spec_link_step(old(self)@, event).1);
        commands
    }
}

/// The resources of the display link that must be given back.
#[derive(Clone, Copy, Debug, PartialEq, Eq, Structural)]
pub struct LinkResources {
    pub source: bool,
    pub context: bool,
    pub link: bool,
    pub link_running: bool,
}

pub open spec fn no_link_resources() -> LinkResources {
    LinkResources { source: false, context: false, link: false, link_running: false }
}

/// What the display link holds in each phase.
pub open spec fn link_held(phase: LinkPhase) -> LinkResources {
    match phase {
        LinkPhase::AwaitSource => no_link_resources(),
        LinkPhase::AwaitLink => LinkResources { source: true, context: true, ..no_link_resources() },
        LinkPhase::AwaitCallback => LinkResources { source: true, context: true, link: true, link_running: false },
        LinkPhase::AwaitStart => LinkResources { source: true, context: true, link: true, link_running: false },
        LinkPhase::Running => LinkResources { source: true, context: true, link: true, link_running: true },
        LinkPhase::Inactive => no_link_resources(),
    }
}

/// Whether the display link in `phase` waits for `event`.
pub open spec fn link_expects(phase: LinkPhase, event: LinkEvent) -> bool {
    match (phase, event) {
        (LinkPhase::AwaitSource, LinkEvent::SourceCreated { .. }) => true,
        (LinkPhase::AwaitLink, LinkEvent::LinkCreated { .. }) => true,
        (LinkPhase::AwaitCallback, LinkEvent::CallbackSet { .. }) => true,
        (LinkPhase::AwaitStart, LinkEvent::LinkStarted { .. }) => true,
        (LinkPhase::Running, LinkEvent::StopRequested) => true,
        _ => false,
    }
}

/// What a successful creation or start hands over.
pub open spec fn link_event_effect(held: LinkResources, event: LinkEvent) -> LinkResources {
    match event {
        LinkEvent::SourceCreated { ok } => if ok { LinkResources { source: true, ..held } } else { held },
        LinkEvent::LinkCreated { status, non_null } => if status == CV_RETURN_SUCCESS && non_null {
            LinkResources { link: true, ..held }
        } else {
            held
        },
        LinkEvent::LinkStarted { status } => if status == CV_RETURN_SUCCESS {
            LinkResources { link_running: true, ..held }
        } else {
            held
        },
        _ => held,
    }
}

/// What one command does to the held resources; `None` when it acquires
/// what is held, gives back what is not held, or releases a running link.
pub open spec fn link_command_effect(held: LinkResources, command: LinkCommand) -> Option<LinkResources> {
    match command {
        LinkCommand::AllocateContext => if held.context { None } else {
            Some(LinkResources { context: true, ..held })
        },
        LinkCommand::FreeContext => if held.context {
            Some(LinkResources { context: false, ..held })
        } else { None },
        LinkCommand::ReleaseSource => if held.source {
            Some(LinkResources { source: false, ..held })
        } else { None },
        LinkCommand::StopLink => if held.link_running {
            Some(LinkResources { link_running: false, ..held })
        } else { None },
        LinkCommand::ReleaseLink => if held.link && !held.link_running {
            Some(LinkResources { link: false, ..held })
        } else { None },
        _ => Some(held),
    }
}

/// The resources held after performing `commands` in order, or `None` if
/// one of them is not allowed where it stands.
pub open spec fn run_link_commands(held: LinkResources, commands: Seq<LinkCommand>) -> Option<LinkResources>
    decreases commands.len(),
{
    if commands.len() == 0 {
        Some(held)
    } else {
        match link_command_effect(held, commands[0]) {
            None => None,
            Some(next) => run_link_commands(next, commands.drop_first()),
        }
    }
}

/// Every step of the display link acquires nothing twice, gives back
/// nothing it does not hold, never releases a running link, and leaves it
/// holding exactly what its new phase holds; an inactive link holds
/// nothing. So whether the setup fails at any point or the link is
/// stopped, everything acquired is given back exactly once.
pub proof fn lemma_link_step_resources(phase: LinkPhase, event: LinkEvent)
    requires
        link_expects(phase, event),
    ensures
        run_link_commands(link_event_effect(link_held(phase), event), spec_link_step(phase, event).1)
            == Some(link_held(spec_link_step(phase, event).0)),
        link_held(LinkPhase::AwaitSource) == no_link_resources(),
        link_held(LinkPhase::Inactive) == no_link_resources(),
{
    reveal_with_fuel(run_link_commands, 6);
}

/// The phase and held resources after the display link, in `phase`
/// holding `held`, takes in `events` one by one (an event it does not wait
/// for changes nothing); held resources become `None` once a command is
/// not allowed where it stands.
pub open spec fn link_run(phase: LinkPhase, held: Option<LinkResources>, events: Seq<LinkEvent>) -> (LinkPhase, Option<LinkResources>)
    decreases events.len(),
{
    if events.len() == 0 {
        (phase, held)
    } else {
        let event = events[0];
        if !link_expects(phase, event) {
            link_run(phase, held, events.drop_first())
        } else {
            let (next, commands) = spec_link_step(phase, event);
            let after = match held {
                None => None,
                Some(h) => run_link_commands(link_event_effect(h, event), commands),
            };
            link_run(next, after, events.drop_first())
        }
    }
}

/// Whatever the display link observes, from its setup to its shutdown,
/// every command is allowed where it stands and it always holds exactly
/// what its phase holds; once inactive it holds nothing.
pub proof fn lemma_link_run_resources(events: Seq<LinkEvent>)
    ensures
        link_run(LinkPhase::AwaitSource, Some(no_link_resources()), events).1 == Some(
            link_held(link_run(LinkPhase::AwaitSource, Some(no_link_resources()), events).0),
        ),
        link_run(LinkPhase::AwaitSource, Some(no_link_resources()), events).0 == LinkPhase::Inactive
            ==> link_run(LinkPhase::AwaitSource, Some(no_link_resources()), events).1 == Some(
            no_link_resources(),
        ),
{
    lemma_link_run_from(LinkPhase::AwaitSource, events);
}

proof fn lemma_link_run_from(phase: LinkPhase, events: Seq<LinkEvent>)
    ensures
        link_run(phase, Some(link_held(phase)), events).1 == Some(link_held(link_run(phase, Some(link_held(phase)), events).0)),
    decreases events.len(),
{
    if events.len() > 0 {
        let event = events[0];
        if link_expects(phase, event) {
            lemma_link_step_resources(phase, event);
            lemma_link_run_from(spec_link_step(phase, event).0, events.drop_first());
        } else {
            lemma_link_run_from(phase, events.drop_first());
        }
    }
}

/// Whether `event` reports that the display link could not be set up.
pub open spec fn is_link_failure(event: LinkEvent) -> bool {
    match event {
        LinkEvent::SourceCreated { ok } => !ok,
        LinkEvent::LinkCreated { status, non_null } => !(status == CV_RETURN_SUCCESS && non_null),
        LinkEvent::CallbackSet { status } => status != CV_RETURN_SUCCESS,
        LinkEvent::LinkStarted { status } => status != CV_RETURN_SUCCESS,
        LinkEvent::StopRequested => false,
    }
}

/// Whenever the display link fails, at whichever stage of its setup, the
/// sleep loop takes over driving frames; it never does otherwise, so frames
/// are driven by exactly one of the two.
pub proof fn lemma_link_fallback(phase: LinkPhase, event: LinkEvent)
    requires
        link_expects(phase, event),
    ensures
        spec_link_step(phase, event).1.contains(LinkCommand::StartFallbackLoop) <==> is_link_failure(event),
        is_link_failure(event) ==> spec_link_step(phase, event).0 == LinkPhase::Inactive,
        spec_link_step(phase, event).0 == LinkPhase::Running ==> !is_link_failure(event),
{
    let cmds = spec_link_step(phase, event).1;
    if is_link_failure(event) {
        assert(cmds.last() == LinkCommand::StartFallbackLoop);
        assert(cmds[cmds.len() - 1] == LinkCommand::StartFallbackLoop);
    } else {
        assert forall|i: int| 0 <= i < cmds.len() implies cmds[i] != LinkCommand::StartFallbackLoop by {}
    }
}

/// An event source is tagged as soon as it exists, before any display
/// link or frame can use it, so every event the display link posts carries
/// the marker.
pub proof fn lemma_link_source_tagged_first()
    ensures
        spec_link_step(LinkPhase::AwaitSource, LinkEvent::SourceCreated { ok: true }).1[0]
            == LinkCommand::TagSource,
{
}

} // verus!
