use smooth_scroll::display_link::{DisplayLink, LinkCommand, LinkEvent, LinkPhase};
use smooth_scroll::engine::{
    must_stop_run_loop, permission_denied_message, EngineRunState, RunLoopSlot, StartStep,
};
use smooth_scroll::fallback_loop::{
    FallbackCommand, FallbackEvent, FallbackLoop, FallbackPhase, FALLBACK_FRAME_INTERVAL_US,
};
use smooth_scroll::tap_thread::{TapCommand, TapEvent, TapPhase, TapThread};

#[test]
fn tap_thread_full_run() {
    let (mut thread, first) = TapThread::begin();
    assert_eq!(first, vec![TapCommand::AllocateContext, TapCommand::CreateTap]);
    assert_eq!(thread.phase(), TapPhase::AwaitTap);
    assert_eq!(thread.step(TapEvent::TapCreated { ok: true }), vec![TapCommand::RecordTapPort, TapCommand::CreateRunLoopSource]);
    assert_eq!(
        thread.step(TapEvent::SourceCreated { ok: true }),
        vec![TapCommand::PublishRunLoop, TapCommand::AddSourceToRunLoop, TapCommand::EnableTap, TapCommand::StartDisplayLink, TapCommand::CheckRunning]
    );
    assert_eq!(thread.step(TapEvent::RunningChecked { running: true }), vec![TapCommand::RunLoop, TapCommand::CheckRunning]);
    assert_eq!(thread.step(TapEvent::RunningChecked { running: true }), vec![TapCommand::RunLoop, TapCommand::CheckRunning]);
    assert_eq!(thread.phase(), TapPhase::AwaitRunning);
    assert_eq!(
        thread.step(TapEvent::RunningChecked { running: false }),
        vec![TapCommand::StopDisplayLink, TapCommand::ClearRunLoop, TapCommand::DisableTap, TapCommand::ReleaseSource, TapCommand::ReleaseTap, TapCommand::FreeContext]
    );
    assert_eq!(thread.phase(), TapPhase::Finished);
    assert_eq!(thread.step(TapEvent::RunningChecked { running: true }), vec![]);
}

#[test]
fn tap_creation_failure_stops_engine() {
    let (mut thread, _) = TapThread::begin();
    assert_eq!(
        thread.step(TapEvent::TapCreated { ok: false }),
        vec![TapCommand::ReportTapFailure, TapCommand::MarkStopped, TapCommand::FreeContext]
    );
    assert_eq!(thread.phase(), TapPhase::Finished);
}

#[test]
fn source_creation_failure_releases_tap() {
    let (mut thread, _) = TapThread::begin();
    thread.step(TapEvent::TapCreated { ok: true });
    assert_eq!(
        thread.step(TapEvent::SourceCreated { ok: false }),
        vec![TapCommand::ReportSourceFailure, TapCommand::MarkStopped, TapCommand::ReleaseTap, TapCommand::FreeContext]
    );
    assert_eq!(thread.phase(), TapPhase::Finished);
}

#[test]
fn tap_thread_ignores_unexpected_events() {
    let (mut thread, _) = TapThread::begin();
    assert_eq!(thread.step(TapEvent::SourceCreated { ok: true }), vec![]);
    assert_eq!(thread.step(TapEvent::RunningChecked { running: false }), vec![]);
    assert_eq!(thread.phase(), TapPhase::AwaitTap);
}

#[test]
fn display_link_runs_and_stops() {
    let (mut link, first) = DisplayLink::begin();
    assert_eq!(first, vec![LinkCommand::CreateSource]);
    assert_eq!(link.step(LinkEvent::SourceCreated { ok: true }), vec![LinkCommand::TagSource, LinkCommand::AllocateContext, LinkCommand::CreateLink]);
    assert_eq!(link.step(LinkEvent::LinkCreated { status: 0, non_null: true }), vec![LinkCommand::SetOutputCallback]);
    assert_eq!(link.step(LinkEvent::CallbackSet { status: 0 }), vec![LinkCommand::StartLink]);
    assert_eq!(link.step(LinkEvent::LinkStarted { status: 0 }), vec![]);
    assert!(link.is_running());
    assert_eq!(link.step(LinkEvent::StopRequested), vec![LinkCommand::StopLink, LinkCommand::ReleaseLink, LinkCommand::ReleaseSource, LinkCommand::FreeContext]);
    assert_eq!(link.phase(), LinkPhase::Inactive);
    assert!(!link.is_running());
    assert_eq!(link.step(LinkEvent::StopRequested), vec![]);
}

#[test]
fn missing_source_falls_back() {
    let (mut link, _) = DisplayLink::begin();
    assert_eq!(link.step(LinkEvent::SourceCreated { ok: false }), vec![LinkCommand::ReportSourceFailure, LinkCommand::StartFallbackLoop]);
    assert_eq!(link.phase(), LinkPhase::Inactive);
    assert_eq!(link.step(LinkEvent::StopRequested), vec![]);
}

#[test]
fn failed_link_creation_falls_back() {
    let (mut link, _) = DisplayLink::begin();
    link.step(LinkEvent::SourceCreated { ok: true });
    assert_eq!(
        link.step(LinkEvent::LinkCreated { status: -6661, non_null: false }),
        vec![LinkCommand::ReportLinkFailure { status: -6661 }, LinkCommand::ReleaseSource, LinkCommand::FreeContext, LinkCommand::StartFallbackLoop]
    );
    let (mut null_link, _) = DisplayLink::begin();
    null_link.step(LinkEvent::SourceCreated { ok: true });
    assert_eq!(
        null_link.step(LinkEvent::LinkCreated { status: 0, non_null: false }),
        vec![LinkCommand::ReportLinkFailure { status: 0 }, LinkCommand::ReleaseSource, LinkCommand::FreeContext, LinkCommand::StartFallbackLoop]
    );
}

#[test]
fn failed_callback_or_start_falls_back() {
    let (mut link, _) = DisplayLink::begin();
    link.step(LinkEvent::SourceCreated { ok: true });
    link.step(LinkEvent::LinkCreated { status: 0, non_null: true });
    assert_eq!(
        link.step(LinkEvent::CallbackSet { status: -6660 }),
        vec![
            LinkCommand::ReportCallbackFailure,
            LinkCommand::ReleaseLink,
            LinkCommand::ReleaseSource,
            LinkCommand::FreeContext,
            LinkCommand::StartFallbackLoop,
        ]
    );
    assert_eq!(link.phase(), LinkPhase::Inactive);

    let (mut link, _) = DisplayLink::begin();
    link.step(LinkEvent::SourceCreated { ok: true });
    link.step(LinkEvent::LinkCreated { status: 0, non_null: true });
    link.step(LinkEvent::CallbackSet { status: 0 });
    assert_eq!(
        link.step(LinkEvent::LinkStarted { status: -6670 }),
        vec![
            LinkCommand::ReportStartFailure,
            LinkCommand::ReleaseLink,
            LinkCommand::ReleaseSource,
            LinkCommand::FreeContext,
            LinkCommand::StartFallbackLoop,
        ]
    );
    assert!(!link.is_running());
}

#[test]
fn fallback_loop_without_source_gives_up() {
    let (mut fallback, first) = FallbackLoop::begin();
    assert_eq!(first, vec![FallbackCommand::CreateSource]);
    assert_eq!(
        fallback.step(FallbackEvent::SourceCreated { ok: false }),
        vec![FallbackCommand::ReportSourceFailure]
    );
    assert_eq!(fallback.phase(), FallbackPhase::Finished);
    assert_eq!(fallback.step(FallbackEvent::RunningChecked { running: true }), vec![]);
}

#[test]
fn fallback_loop_drives_frames_while_running() {
    let (mut fallback, _) = FallbackLoop::begin();
    assert_eq!(
        fallback.step(FallbackEvent::SourceCreated { ok: true }),
        vec![FallbackCommand::TagSource, FallbackCommand::SpawnLoopThread, FallbackCommand::CheckRunning]
    );
    for _ in 0..3 {
        assert_eq!(
            fallback.step(FallbackEvent::RunningChecked { running: true }),
            vec![
                FallbackCommand::DriveFrame,
                FallbackCommand::Sleep { micros: 8333 },
                FallbackCommand::CheckRunning,
            ]
        );
        assert_eq!(fallback.phase(), FallbackPhase::AwaitRunning);
    }
    assert_eq!(
        fallback.step(FallbackEvent::RunningChecked { running: false }),
        vec![FallbackCommand::ReleaseSource]
    );
    assert_eq!(fallback.phase(), FallbackPhase::Finished);
    assert_eq!(FALLBACK_FRAME_INTERVAL_US, 8333);
}

#[test]
fn new_engine_is_stopped() {
    let state = EngineRunState::new();
    assert!(!state.is_running());
    assert_eq!(state.request_start(), StartStep::CheckPermission);
}

#[test]
fn start_while_running_is_a_no_op() {
    let mut state = EngineRunState::new();
    state.permission_checked(true);
    assert_eq!(state.request_start(), StartStep::AlreadyRunning);
    assert!(state.is_running());
}

#[test]
fn start_checks_permission() {
    let mut state = EngineRunState::new();
    assert_eq!(state.permission_checked(true), StartStep::SpawnTapThread);
    assert!(state.is_running());
}

#[test]
fn start_without_permission_fails() {
    let mut state = EngineRunState::new();
    assert_eq!(state.permission_checked(false), StartStep::PermissionDenied);
    assert!(!state.is_running());
    assert_eq!(permission_denied_message(), "Accessibility permission not granted");
}

#[test]
fn stop_clears_running() {
    let mut state = EngineRunState::new();
    state.permission_checked(true);
    state.stop();
    assert!(!state.is_running());
    state.stop();
    assert!(!state.is_running());
}

#[test]
fn stop_wakes_live_run_loop_only() {
    assert!(must_stop_run_loop(RunLoopSlot::Published { live: true }));
    assert!(!must_stop_run_loop(RunLoopSlot::Published { live: false }));
    assert!(!must_stop_run_loop(RunLoopSlot::Empty));
}

#[test]
fn stop_then_start_restarts() {
    let mut state = EngineRunState::new();
    state.permission_checked(true);
    state.stop();
    assert_eq!(state.request_start(), StartStep::CheckPermission);
    assert_eq!(state.permission_checked(true), StartStep::SpawnTapThread);
    assert!(state.is_running());
}

/// Count what a command sequence acquires and gives back.
fn tally_tap(commands: &[TapCommand], held: &mut i32) {
    for c in commands {
        match c {
            TapCommand::AllocateContext | TapCommand::PublishRunLoop | TapCommand::EnableTap
            | TapCommand::StartDisplayLink => *held += 1,
            TapCommand::FreeContext | TapCommand::ClearRunLoop | TapCommand::DisableTap
            | TapCommand::StopDisplayLink | TapCommand::ReleaseTap | TapCommand::ReleaseSource => {
                *held -= 1;
                assert!(*held >= 0);
            }
            _ => {}
        }
    }
}

#[test]
fn tap_thread_gives_back_everything() {
    for scenario in 0..3 {
        let (mut thread, first) = TapThread::begin();
        let mut held = 0;
        tally_tap(&first, &mut held);
        let tap_ok = scenario != 0;
        let cmds = thread.step(TapEvent::TapCreated { ok: tap_ok });
        if tap_ok { held += 1; }
        tally_tap(&cmds, &mut held);
        if thread.phase() != TapPhase::Finished {
            let source_ok = scenario != 1;
            let cmds = thread.step(TapEvent::SourceCreated { ok: source_ok });
            if source_ok { held += 1; }
            tally_tap(&cmds, &mut held);
        }
        if thread.phase() != TapPhase::Finished {
            let cmds = thread.step(TapEvent::RunningChecked { running: true });
            tally_tap(&cmds, &mut held);
            let cmds = thread.step(TapEvent::RunningChecked { running: false });
            tally_tap(&cmds, &mut held);
        }
        assert_eq!(thread.phase(), TapPhase::Finished);
        assert_eq!(held, 0);
    }
}
