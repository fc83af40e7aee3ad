use harper_desktop::integration::Integration;
use harper_desktop::broker::{
    executable_name_from_path, highlight_plan, is_editable_text_element, launch_outcome,
    next_read_step, FocusedText, ReadStep,
    AccessibilityPermissionStatus, NoopBroker, WindowsBroker, DOCUMENT_CONTROL_TYPE,
    EDIT_CONTROL_TYPE,
};

#[test]
fn reports_permission_granted() {
    let broker = WindowsBroker::default();
    assert_eq!(
        broker.accessibility_permission_status(),
        AccessibilityPermissionStatus::Granted
    );
}

#[test]
fn requesting_permission_reports_the_same_status() {
    assert_eq!(
        WindowsBroker::default().request_accessibility_permission(),
        AccessibilityPermissionStatus::Granted
    );
    assert_eq!(
        NoopBroker.request_accessibility_permission(),
        AccessibilityPermissionStatus::Unsupported
    );
}

#[test]
fn default_broker_starts_with_the_curated_windows_integrations() {
    let broker = WindowsBroker::default();
    let integrations = broker.integrations().lock().unwrap();
    let ids: Vec<&str> = integrations.iter().map(|i| i.bundle_id.as_str()).collect();
    assert_eq!(
        ids,
        vec!["notepad.exe", "olk.exe", "ms-teams.exe", "slack.exe", "discord.exe"]
    );
    assert!(integrations.iter().all(|i| i.enabled));
}

#[test]
fn known_executables_get_friendly_names() {
    let broker = WindowsBroker::default();
    assert_eq!(broker.system_integration_display_name("olk.exe"), "Outlook (new)");
    assert_eq!(broker.system_integration_display_name("wt.exe"), "Windows Terminal");
    assert_eq!(broker.integration_display_name("code.exe"), "Visual Studio Code");
}

#[test]
fn other_executables_are_prettified() {
    let broker = WindowsBroker::default();
    assert_eq!(broker.system_integration_display_name("some-app.exe"), "Some App");
    assert_eq!(broker.system_integration_display_name("my_tool.v2.exe"), "My Tool V2");
    assert_eq!(broker.system_integration_display_name("--x--"), "X");
    assert_eq!(broker.system_integration_display_name("éclair.EXE"), "Éclair EXE");
    assert_eq!(broker.system_integration_display_name("ß.exe"), "SS");
}

#[test]
fn names_with_no_words_fall_back_to_the_executable() {
    let broker = WindowsBroker::default();
    assert_eq!(broker.system_integration_display_name(".exe"), ".exe");
    assert_eq!(broker.system_integration_display_name("-_-.exe"), "-_-.exe");
    assert_eq!(broker.system_integration_display_name(""), "");
}

#[test]
fn search_finds_by_name_and_executable_sorted_by_name() {
    let broker = WindowsBroker::default();
    let running = vec!["zed.exe".to_string()];
    let registered = vec!["chrome.exe".to_string()];

    let results = broker.search_apps("  MICROSOFT ", &running, &registered).unwrap();
    let names: Vec<&str> = results.iter().map(|r| r.name.as_str()).collect();
    assert_eq!(
        names,
        vec![
            "Microsoft Excel",
            "Microsoft OneNote",
            "Microsoft PowerPoint",
            "Microsoft Teams",
            "Microsoft Word"
        ]
    );

    let results = broker.search_apps("zed", &running, &registered).unwrap();
    assert_eq!(results.len(), 1);
    assert_eq!(results[0].name, "Zed");
    assert_eq!(results[0].bundle_id, "zed.exe");

    let results = broker.search_apps("olk", &running, &registered).unwrap();
    assert_eq!(results.len(), 1);
    assert_eq!(results[0].name, "Outlook (new)");
}

#[test]
fn an_empty_query_lists_every_application() {
    let broker = WindowsBroker::default();
    let results = broker.search_apps("   ", &[], &["chrome.exe".to_string()]).unwrap();
    assert_eq!(results.len(), 13);
    let names: Vec<String> = results.iter().map(|r| r.name.clone()).collect();
    let mut sorted = names.clone();
    sorted.sort();
    assert_eq!(names, sorted);
    assert_eq!(results[0].name, "Discord");
}

#[test]
fn equal_names_keep_executable_order() {
    let broker = WindowsBroker::default();
    let results = broker
        .search_apps("terminal", &["wt.exe".to_string(), "windowsterminal.exe".to_string()], &[])
        .unwrap();
    let ids: Vec<&str> = results.iter().map(|r| r.bundle_id.as_str()).collect();
    assert_eq!(ids, vec!["windowsterminal.exe", "wt.exe"]);
}

#[test]
fn noop_broker_reports_unsupported_operations() {
    let broker = NoopBroker;
    assert_eq!(
        broker.accessibility_permission_status(),
        AccessibilityPermissionStatus::Unsupported
    );
    assert_eq!(broker.system_integration_display_name("olk.exe"), "olk.exe");
    assert_eq!(
        broker.installed_application_bundle_ids(),
        Err("Listing installed application bundle IDs is only supported on macOS.".to_string())
    );
    assert_eq!(
        broker.application_icon_png("x"),
        Err("Reading application icons by bundle ID is only supported on macOS.".to_string())
    );
    assert_eq!(
        broker.launch_app_bundle("x"),
        Err("Launching apps by bundle ID is only supported on macOS.".to_string())
    );
    assert_eq!(
        broker.search_apps("x").unwrap_err(),
        "App search is only supported on macOS."
    );
}

#[test]
fn launch_codes_above_thirty_two_succeed() {
    assert_eq!(launch_outcome("notepad.exe", 42), Ok(()));
    assert_eq!(
        launch_outcome("nope.exe", 2),
        Err("could not launch nope.exe (code 2)".to_string())
    );
    assert_eq!(
        launch_outcome("nope.exe", 32),
        Err("could not launch nope.exe (code 32)".to_string())
    );
    assert_eq!(
        launch_outcome("x", 0),
        Err("could not launch x (code 0)".to_string())
    );
}

#[test]
fn executable_names_are_the_lowercase_last_component() {
    assert_eq!(
        executable_name_from_path("C:\\Program Files\\Microsoft\\OLK.EXE"),
        "olk.exe"
    );
    assert_eq!(executable_name_from_path("C:/tools/Code.exe"), "code.exe");
    assert_eq!(executable_name_from_path("notepad.exe"), "notepad.exe");
    assert_eq!(executable_name_from_path("C:\\dir\\"), "");
}

#[test]
fn only_writable_edit_and_document_controls_are_linted() {
    assert!(is_editable_text_element(EDIT_CONTROL_TYPE, false));
    assert!(is_editable_text_element(DOCUMENT_CONTROL_TYPE, false));
    assert!(!is_editable_text_element(EDIT_CONTROL_TYPE, true));
    assert!(!is_editable_text_element(50020, false));
}

#[test]
fn integrations_are_listed_under_friendly_names() {
    let broker = WindowsBroker::default();
    let integrations = vec![
        Integration { bundle_id: "olk.exe".to_string(), enabled: false },
        Integration { bundle_id: "my-editor.exe".to_string(), enabled: true },
    ];
    let views = broker.integration_views(&integrations);
    assert_eq!(views.len(), 2);
    assert_eq!(views[0].bundle_id, "olk.exe");
    assert_eq!(views[0].display_name, "Outlook (new)");
    assert!(!views[0].enabled);
    assert_eq!(views[1].display_name, "My Editor");
    assert!(views[1].enabled);
}

#[test]
fn windows_broker_reports_macos_only_operations() {
    let broker = WindowsBroker::default();
    assert_eq!(
        broker.installed_application_bundle_ids(),
        Err("Listing installed application bundle IDs is only supported on macOS.".to_string())
    );
    assert_eq!(
        broker.application_icon_png("notepad.exe"),
        Err("Reading application icons by bundle ID is only supported on macOS.".to_string())
    );
}

#[test]
fn an_application_that_is_not_enabled_gets_no_highlights() {
    assert_eq!(highlight_plan(false, "teh cat", &[(0, 3)]), Vec::new());
    assert_eq!(highlight_plan(true, "", &[(0, 0), (0, 3)]), Vec::new());
}

#[test]
fn highlights_are_placed_in_utf16_units_and_skip_empty_spans() {
    // The emoji takes two UTF-16 units, so the word after it starts at 10.
    let text = "I like 🦀 teh crab";
    assert_eq!(
        highlight_plan(true, text, &[(9, 12), (3, 3), (5, 2), (0, 1)]),
        vec![(0, 10, 13), (3, 0, 1)]
    );
}

#[test]
fn whitespace_around_a_query_is_ignored() {
    let broker = WindowsBroker::default();
    let results = broker.search_apps("\u{3000}\tzed\u{a0}\n", &["zed.exe".to_string()], &[]).unwrap();
    assert_eq!(results.len(), 1);
    assert_eq!(results[0].bundle_id, "zed.exe");
}

#[test]
fn a_disabled_application_is_neither_inspected_nor_read() {
    for editable in [None, Some(false), Some(true)] {
        for text in [FocusedText::Unread, FocusedText::Unreadable, FocusedText::Chars(0), FocusedText::Chars(5)] {
            assert_eq!(next_read_step(false, editable, text), ReadStep::Stop);
        }
    }
}

#[test]
fn text_is_read_and_linted_step_by_step() {
    assert_eq!(next_read_step(true, None, FocusedText::Unread), ReadStep::InspectFocus);
    assert_eq!(next_read_step(true, Some(false), FocusedText::Unread), ReadStep::Stop);
    assert_eq!(next_read_step(true, Some(true), FocusedText::Unread), ReadStep::ReadText);
    assert_eq!(next_read_step(true, Some(true), FocusedText::Unreadable), ReadStep::Stop);
    assert_eq!(next_read_step(true, Some(true), FocusedText::Chars(0)), ReadStep::Stop);
    assert_eq!(next_read_step(true, Some(true), FocusedText::Chars(12)), ReadStep::Lint);
}
