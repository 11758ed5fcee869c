//! Decisions behind the settings window's commands and the tray menu.

use vstd::prelude::*;

verus! {

/// Flip the user's on/off switch and report its new value.
pub fn toggle_enabled(enabled: &mut bool) -> (now_enabled: bool)
    ensures
        *final(enabled) == !*old(enabled),
        now_enabled == *final(enabled),
{
    *enabled = !*enabled;
    *enabled
}

/// What the settings window shows about the engine.
#[derive(Clone, Copy, Debug, PartialEq, Eq, Structural)]
pub struct EngineStatus {
    pub running: bool,
    pub accessibility_granted: bool,
    pub enabled: bool,
}

/// Build the engine status. `engine_running` is `None` when no engine is
/// installed, else whether the installed engine runs.
pub fn engine_status(engine_running: Option<bool>, enabled: bool, accessibility_granted: bool) -> (status: EngineStatus)
    ensures
        status == (EngineStatus {
            running: engine_running == Some(true),
            accessibility_granted,
            enabled,
        }),
{
    let running = match engine_running {
        Some(r) => r,
        None => false,
    };
    EngineStatus { running, accessibility_granted, enabled }
}

/// What a start command does with the installed engine.
#[derive(Clone, Copy, Debug, PartialEq, Eq, Structural)]
pub enum StartCommandPlan {
    /// An installed engine runs: succeed and keep it.
    KeepRunningEngine,
    /// The installed engine, if any, has been dropped (which stops it):
    /// start a new one and pass its result to `finish_start_command`.
    StartNewEngine,
}

/// Plan a start command on the engine slot `installed`, where
/// `engine_running` is `None` when no engine is installed, else whether the
/// installed engine runs. A running engine is kept; otherwise the slot is
/// emptied.
pub fn plan_start_command<T>(installed: &mut Option<T>, engine_running: Option<bool>) -> (plan: StartCommandPlan)
    ensures
        plan == (if engine_running == Some(true) {
            StartCommandPlan::KeepRunningEngine
        } else {
            StartCommandPlan::StartNewEngine
        }),
        plan == StartCommandPlan::KeepRunningEngine ==> *final(installed) == *old(installed),
        plan == StartCommandPlan::StartNewEngine ==> *final(installed) is None,
{
    match engine_running {
        Some(true) => StartCommandPlan::KeepRunningEngine,
        _ => {
            *installed = None;
            StartCommandPlan::StartNewEngine
        },
    }
}

/// Finish a start command with what starting the new `engine` gave: a
/// started engine is installed and the command succeeds; otherwise the
/// engine is dropped, the slot is left as it was and the command fails
/// with the start's error.
pub fn finish_start_command<T, E>(installed: &mut Option<T>, engine: T, started: Result<(), E>) -> (result: Result<(), E>)
    ensures
        match started {
            Ok(()) => *final(installed) == Some(engine) && result is Ok,
            Err(e) => *final(installed) == *old(installed) && result == Err::<(), E>(e),
        },
{
    match started {
        Ok(()) => {
            *installed = Some(engine);
            Ok(())
        },
        Err(e) => Err(e),
    }
}

/// An entry of the tray menu.
#[derive(Clone, Copy, Debug, PartialEq, Eq, Structural)]
pub enum MenuCommand {
    /// Flip the on/off switch.
    Toggle,
    /// Show and focus the settings window.
    ShowSettings,
    /// Flip launching at login.
    ToggleLaunchAtLogin,
    /// Stop the engine and quit.
    Quit,
    /// Not a menu entry of this utility.
    Ignore,
}

/// The tray menu entry with this identifier.
pub open spec fn spec_menu_command(id: Seq<char>) -> MenuCommand {
    if id == "toggle"@ {
        MenuCommand::Toggle
    } else if id == "settings"@ {
        MenuCommand::ShowSettings
    } else if id == "launch_at_login"@ {
        MenuCommand::ToggleLaunchAtLogin
    } else if id == "quit"@ {
        MenuCommand::Quit
    } else {
        MenuCommand::Ignore
    }
}

/// Identify the tray menu entry that was clicked.
pub fn menu_command(id: &str) -> (command: MenuCommand)
    ensures
        command == spec_menu_command(id@),
        (command == MenuCommand::Toggle) == (id@ == "toggle"@),
        (command == MenuCommand::Quit) ==> id@ == "quit"@,
        (command == MenuCommand::ShowSettings) ==> id@ == "settings"@,
        (command == MenuCommand::ToggleLaunchAtLogin) ==> id@ == "launch_at_login"@,
{
    let id: String = id.to_owned();
    if id == "toggle".to_owned() {
        MenuCommand::Toggle
    } else if id == "settings".to_owned() {
        MenuCommand::ShowSettings
    } else if id == "launch_at_login".to_owned() {
        MenuCommand::ToggleLaunchAtLogin
    } else if id == "quit".to_owned() {
        MenuCommand::Quit
    } else {
        MenuCommand::Ignore
    }
}

/// Whether launching at login counts as on, from the system's answer
/// (`None` when it could not be asked): an unanswered query counts as off.
pub fn launch_at_login_enabled(query: Option<bool>) -> (enabled: bool)
    ensures
        enabled == (query == Some(true)),
{
    match query {
        Some(e) => e,
        None => false,
    }
}

/// A change to launching at login.
#[derive(Clone, Copy, Debug, PartialEq, Eq, Structural)]
pub enum LaunchAtLoginChange {
    Enable,
    Disable,
}

/// Flip launching at login from the system's answer (`None` when it could
/// not be asked, which counts as off).
pub fn toggle_launch_at_login(query: Option<bool>) -> (change: LaunchAtLoginChange)
    ensures
        change == (if query == Some(true) { LaunchAtLoginChange::Disable } else { LaunchAtLoginChange::Enable }),
{
    if launch_at_login_enabled(query) {
        LaunchAtLoginChange::Disable
    } else {
        LaunchAtLoginChange::Enable
    }
}

} // verus!
