//! Decisions taken as the application starts and as it is asked to exit.
use vstd::prelude::*;
use crate::broker::AccessibilityPermissionStatus;

verus! {

/// Which process this invocation runs.
#[derive(Debug, Clone, Copy, PartialEq, Eq, Structural)]
pub enum Launch {
    /// The settings application, which lives in the tray.
    Main,
    /// The screen highlighter, standalone or under a parent process that
    /// supplies its configuration.
    Highlighter { has_parent: bool },
}

/// The process to run for the command line: the highlighter when its
/// subcommand was given (`no_parent` being its flag), the main application
/// otherwise.
pub fn launch_for(highlighter_subcommand: Option<bool>) -> (launch: Launch)
    ensures
        launch == match highlighter_subcommand {
            Some(no_parent) => Launch::Highlighter { has_parent: !no_parent },
            None => Launch::Main,
        },
{
    match highlighter_subcommand {
        Some(no_parent) => Launch::Highlighter { has_parent: !no_parent },
        None => Launch::Main,
    }
}

/// Whether this is the first launch, given whether the main configuration
/// exists (`None` when that could not be checked): only a configuration known
/// to be missing makes a first launch, which saves a fresh configuration and
/// shows the settings window.
pub fn is_first_launch(config_exists: Option<bool>) -> (first: bool)
    ensures
        first == (config_exists == Some(false)),
{
    match config_exists {
        Some(exists) => !exists,
        None => false,
    }
}

/// Whether the highlighter service starts with the application: only when
/// accessibility access is granted and the user left the service enabled.
pub fn starts_highlighter(status: AccessibilityPermissionStatus, service_enabled: bool) -> (start: bool)
    ensures
        start == (status == AccessibilityPermissionStatus::Granted && service_enabled),
{
    match status {
        AccessibilityPermissionStatus::Granted => service_enabled,
        _ => false,
    }
}

/// Whether a request to exit with `code` is refused on Windows, where the
/// application lives in the tray: closing the last window asks to exit with no
/// code and must not quit, while an explicit quit carries a code and is let
/// through.
pub fn keeps_running(code: Option<i32>) -> (keep: bool)
    ensures
        keep == code is None,
{
    code.is_none()
}

/// When the highlighter asks its parent process for the configuration.
#[derive(Debug, Clone, Copy, PartialEq, Eq, Structural)]
pub enum ConfigFetch {
    /// Once, as the highlighter starts.
    Startup,
    /// Whenever the settings change and the highlighter is asked to refresh.
    Refresh,
}

/// What the highlighter does with the configuration its parent answered.
#[derive(Debug, Clone, Copy, PartialEq, Eq, Structural)]
pub enum ConfigReply {
    /// Use the configuration received.
    Apply,
    /// Carry on with the default configuration.
    UseDefaults,
    /// Exit the highlighter process with this code: the parent is gone.
    Exit(i32),
}

/// Whether the highlighter asks a parent process for its configuration: only
/// when it runs under one. A standalone highlighter starts with the defaults,
/// and refreshing its configuration does nothing.
pub fn fetches_config(has_parent: bool) -> (fetch: bool)
    ensures
        fetch == has_parent,
{
    has_parent
}

/// What the highlighter does after asking its parent for the configuration
/// `when`, given whether the answer arrived (`received`).
///
/// A configuration that arrived is applied. At startup a failed fetch falls
/// back to the defaults, so highlighting still begins; a failed refresh means
/// the parent is no longer answering, and the highlighter exits with code 1.
pub fn config_reply(when: ConfigFetch, received: bool) -> (reply: ConfigReply)
    ensures
        reply == if received {
            ConfigReply::Apply
        } else {
            match when {
                ConfigFetch::Startup => ConfigReply::UseDefaults,
                ConfigFetch::Refresh => ConfigReply::Exit(1),
            }
        },
{
    if received {
        ConfigReply::Apply
    } else {
        match when {
            ConfigFetch::Startup => ConfigReply::UseDefaults,
            ConfigFetch::Refresh => ConfigReply::Exit(1),
        }
    }
}

} // verus!
