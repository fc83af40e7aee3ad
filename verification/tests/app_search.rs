use harper_desktop::app_search::{curated, discover_executables, is_noise, registered_executable};

fn strings(names: &[&str]) -> Vec<String> {
    names.iter().map(|name| name.to_string()).collect()
}

/// Executables as a Windows session reports them: a few visible windows and a
/// few `App Paths` registrations, noise included.
fn session() -> (Vec<String>, Vec<String>) {
    (
        strings(&["explorer.exe", "chrome.exe", "harper-desktop.exe", "notepad.exe"]),
        strings(&["chrome.exe", "firefox.exe", "msedgewebview2.exe", "wordpad.exe"]),
    )
}

#[test]
fn discovery_includes_curated_apps_and_excludes_noise() {
    let (running, registered) = session();
    let executables = discover_executables(&running, &registered);
    assert!(executables.contains(&"notepad.exe".to_string()));
    assert!(executables.contains(&"ms-teams.exe".to_string()));
    assert!(!executables.contains(&"harper-desktop.exe".to_string()));
    assert!(!executables.contains(&"msedgewebview2.exe".to_string()));
}

#[test]
fn discovery_finds_at_least_one_running_or_registered_app() {
    // Any Windows session has visible windows and App Paths entries beyond
    // the curated dozen.
    let (running, registered) = session();
    assert!(discover_executables(&running, &registered).len() > 12);
}

#[test]
fn discovery_is_sorted_and_deduplicated() {
    let (running, registered) = session();
    let executables = discover_executables(&running, &registered);
    let mut expected = executables.clone();
    expected.sort();
    expected.dedup();
    assert_eq!(executables, expected);
    assert_eq!(executables.len(), 15);
}

#[test]
fn curated_apps_are_offered_without_any_other_source() {
    let executables = discover_executables(&[], &[]);
    let mut expected = curated();
    expected.sort();
    assert_eq!(executables, expected);
    assert_eq!(curated().len(), 12);
}

#[test]
fn noise_is_recognized() {
    assert!(is_noise("explorer.exe"));
    assert!(is_noise("systemsettings.exe"));
    assert!(!is_noise("notepad.exe"));
    assert!(!is_noise("Explorer.exe"));
}

#[test]
fn app_paths_keys_become_lowercase_executables() {
    assert_eq!(registered_executable("Chrome.EXE"), Some("chrome.exe".to_string()));
    assert_eq!(registered_executable("winword.exe"), Some("winword.exe".to_string()));
    assert_eq!(registered_executable("SomeTool"), None);
    assert_eq!(registered_executable("tool.exe.config"), None);
}
