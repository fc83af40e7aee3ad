use harper_desktop::integration::{Integration, Platform};

fn integration(bundle_id: &str, enabled: bool) -> Integration {
    Integration { bundle_id: bundle_id.to_string(), enabled }
}

#[test]
fn curated_integrations_depend_on_the_platform() {
    let windows = Integration::curated_integrations(Platform::Windows);
    let ids: Vec<&str> = windows.iter().map(|i| i.bundle_id.as_str()).collect();
    assert_eq!(ids, vec!["notepad.exe", "olk.exe", "ms-teams.exe", "slack.exe", "discord.exe"]);
    assert!(windows.iter().all(|i| i.enabled));

    let mac = Integration::curated_integrations(Platform::MacOs);
    assert_eq!(mac.len(), 6);
    assert_eq!(mac[0].bundle_id, "com.apple.TextEdit");

    assert!(Integration::curated_integrations(Platform::Other).is_empty());
}

#[test]
fn only_enabled_integrations_count() {
    let integrations = vec![integration("notepad.exe", true), integration("slack.exe", false)];
    assert!(Integration::is_integration_enabled_in(&integrations, "notepad.exe"));
    assert!(!Integration::is_integration_enabled_in(&integrations, "slack.exe"));
    assert!(!Integration::is_integration_enabled_in(&integrations, "Notepad.exe"));
    assert!(!Integration::is_integration_enabled_in(&[], "notepad.exe"));
}

#[test]
fn a_duplicate_enabled_entry_is_enough() {
    let integrations = vec![integration("olk.exe", false), integration("olk.exe", true)];
    assert!(Integration::is_integration_enabled_in(&integrations, "olk.exe"));
}

#[test]
fn integrations_compare_by_identifier_and_state() {
    assert_eq!(integration("olk.exe", true), integration("olk.exe", true));
    assert_ne!(integration("olk.exe", true), integration("olk.exe", false));
    assert_ne!(integration("olk.exe", true), integration("slack.exe", true));
}
