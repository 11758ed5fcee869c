//! Starting and stopping the scroll engine. The engine's run state is
//! shared with the event-tap thread and the frame loops; these functions
//! decide what a start or stop request does to it.

use vstd::prelude::*;

verus! {

/// What a start request does next.
#[derive(Clone, Copy, Debug, PartialEq, Eq, Structural)]
pub enum StartStep {
    /// The engine already runs: the request succeeds and changes nothing.
    AlreadyRunning,
    /// Ask the system whether this process may watch input events.
    CheckPermission,
    /// Permission is missing: the request fails and the engine stays
    /// stopped.
    PermissionDenied,
    /// The engine is marked running: spawn the event-tap thread.
    SpawnTapThread,
}

/// The first step of a start request on an engine whose running flag is
/// `running`.
pub open spec fn spec_request_start(running: bool) -> StartStep {
    if running { StartStep::AlreadyRunning } else { StartStep::CheckPermission }
}

/// The running flag and the step after the permission check.
pub open spec fn spec_permission_checked(running: bool, granted: bool) -> (bool, StartStep) {
    if granted { (true, StartStep::SpawnTapThread) } else { (running, StartStep::PermissionDenied) }
}

/// Whether the engine runs: set by a granted start request, cleared by a
/// stop request or by an event-tap thread that could not set up its tap.
pub struct EngineRunState {
    running: bool,
}

impl EngineRunState {
    pub closed spec fn view(&self) -> bool {
        self.running
    }

    /// A new engine is stopped.
    pub fn new() -> (state: EngineRunState)
        ensures
            !state@,
    {
        EngineRunState { running: false }
    }

    pub fn is_running(&self) -> (running: bool)
        ensures
            running == self@,
    {
        self.running
    }

    /// Begin a start request.
    pub fn request_start(&self) -> (step: StartStep)
        ensures
            step == spec_request_start(self@),
            self@ ==> step == StartStep::AlreadyRunning,
            !self@ ==> step == StartStep::CheckPermission,
    {
        if self.running {
            StartStep::AlreadyRunning
        } else {
            StartStep::CheckPermission
        }
    }

    /// Continue a start request once the permission is known: with it, the
    /// engine is marked running before its thread is spawned; without it,
    /// nothing changes.
    pub fn permission_checked(&mut self, granted: bool) -> (step: StartStep)
        ensures
            (final(self)@, step) == spec_permission_checked(old(self)@, granted),
            granted ==> final(self)@ && step == StartStep::SpawnTapThread,
            !granted ==> final(self)@ == old(self)@ && step == StartStep::PermissionDenied,
    {
        if granted {
            self.running = true;
            StartStep::SpawnTapThread
        } else {
            StartStep::PermissionDenied
        }
    }

    /// Mark the engine stopped (a stop request, or a tap that could not be
    /// set up); the event-tap thread and the frame loops wind down when they
    /// next read it.
    pub fn stop(&mut self)
        ensures
            !final(self)@,
    {
        self.running = false;
    }
}

/// The error a start request without permission fails with.
pub fn permission_denied_message() -> (message: String)
    ensures
        message@ == "Accessibility permission not granted"@,
{
    "Accessibility permission not granted".to_owned()
}

/// The run loop that the event-tap thread published for the engine.
#[derive(Clone, Copy, Debug, PartialEq, Eq, Structural)]
pub enum RunLoopSlot {
    /// No run loop is published.
    Empty,
    /// A run loop is published; `live` when its reference is not null.
    Published { live: bool },
}

/// Whether a stop request must stop the published run loop, so that the
/// event-tap thread wakes up and sees the engine stopped: only a published
/// run loop that is not null is stopped.
pub fn must_stop_run_loop(run_loop: RunLoopSlot) -> (stop: bool)
    ensures
        stop == (run_loop == RunLoopSlot::Published { live: true }),
{
    match run_loop {
        RunLoopSlot::Published { live } => live,
        RunLoopSlot::Empty => false,
    }
}

/// A new engine is stopped; a start request on a running engine succeeds
/// and changes nothing; a stopped engine stays stopped when permission is
/// missing; a stopped engine (new or after a stop request) asks for
/// permission again on a start request and, granted, runs.
pub proof fn lemma_start_stop(granted: bool)
    ensures
        spec_request_start(true) == StartStep::AlreadyRunning,
        spec_permission_checked(false, false) == (false, StartStep::PermissionDenied),
        spec_request_start(false) == StartStep::CheckPermission,
        spec_permission_checked(false, granted) == (if granted {
            (true, StartStep::SpawnTapThread)
        } else {
            (false, StartStep::PermissionDenied)
        }),
{
}

} // verus!
