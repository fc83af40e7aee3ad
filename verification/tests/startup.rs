use harper_desktop::broker::AccessibilityPermissionStatus;
use harper_desktop::startup::{
    config_reply, fetches_config, is_first_launch, keeps_running, launch_for, starts_highlighter,
    ConfigFetch, ConfigReply, Launch,
};

#[test]
fn the_command_line_picks_the_process() {
    assert_eq!(launch_for(None), Launch::Main);
    assert_eq!(launch_for(Some(false)), Launch::Highlighter { has_parent: true });
    assert_eq!(launch_for(Some(true)), Launch::Highlighter { has_parent: false });
}

#[test]
fn only_a_missing_configuration_is_a_first_launch() {
    assert!(is_first_launch(Some(false)));
    assert!(!is_first_launch(Some(true)));
    assert!(!is_first_launch(None));
}

#[test]
fn the_highlighter_starts_when_granted_and_enabled() {
    assert!(starts_highlighter(AccessibilityPermissionStatus::Granted, true));
    assert!(!starts_highlighter(AccessibilityPermissionStatus::Granted, false));
    assert!(!starts_highlighter(AccessibilityPermissionStatus::NotGranted, true));
    assert!(!starts_highlighter(AccessibilityPermissionStatus::Unsupported, true));
}

#[test]
fn closing_the_last_window_does_not_quit() {
    assert!(keeps_running(None));
    assert!(!keeps_running(Some(0)));
}

#[test]
fn only_a_highlighter_with_a_parent_fetches_its_configuration() {
    assert!(fetches_config(true));
    assert!(!fetches_config(false));
}

#[test]
fn a_failed_fetch_falls_back_at_startup_and_exits_on_refresh() {
    assert_eq!(config_reply(ConfigFetch::Startup, true), ConfigReply::Apply);
    assert_eq!(config_reply(ConfigFetch::Refresh, true), ConfigReply::Apply);
    assert_eq!(config_reply(ConfigFetch::Startup, false), ConfigReply::UseDefaults);
    assert_eq!(config_reply(ConfigFetch::Refresh, false), ConfigReply::Exit(1));
}
