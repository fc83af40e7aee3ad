//! Per-application integrations: which applications the overlay highlights in.
//!
//! An integration is keyed by the application's bundle identifier on macOS and
//! by the lowercase executable name of the foreground window's process on
//! Windows, which has no bundle identifiers.
use vstd::prelude::*;
use crate::text::str_equal;

verus! {

/// The operating system the application was built for, which decides the
/// curated defaults.
#[derive(Clone, Copy, Debug, PartialEq, Eq, Structural)]
pub enum Platform {
    MacOs,
    Windows,
    /// A platform with no highlighter broker yet.
    Other,
}

/// Whether the overlay highlights in the application `bundle_id`.
#[derive(Clone, Debug)]
pub struct Integration {
    pub bundle_id: String,
    pub enabled: bool,
}

impl PartialEq for Integration {
    fn eq(&self, other: &Self) -> (equal: bool) {
        self.enabled == other.enabled && self.bundle_id == other.bundle_id
    }
}

impl vstd::std_specs::cmp::PartialEqSpecImpl for Integration {
    open spec fn obeys_eq_spec() -> bool {
        true
    }

    open spec fn eq_spec(&self, other: &Self) -> bool {
        self.enabled == other.enabled && self.bundle_id@ == other.bundle_id@
    }
}

impl Eq for Integration {

}

/// The applications enabled by default on `platform`.
///
/// On Windows, olk.exe is new Outlook and ms-teams.exe is new Teams. No broker
/// exists for other platforms yet, so there are no meaningful defaults there.
pub open spec fn curated_bundle_ids(platform: Platform) -> Seq<Seq<char>> {
    match platform {
        Platform::MacOs => seq![
            "com.apple.TextEdit"@,
            "com.apple.mail"@,
            "com.apple.MobileSMS"@,
            "com.apple.Notes"@,
            "com.tinyspeck.slackmacgap"@,
            "com.hnc.Discord"@,
        ],
        Platform::Windows => seq![
            "notepad.exe"@,
            "olk.exe"@,
            "ms-teams.exe"@,
            "slack.exe"@,
            "discord.exe"@,
        ],
        Platform::Other => seq![],
    }
}

/// Whether some integration in `integrations` is for `bundle_id` and enabled.
pub open spec fn enabled_in(integrations: Seq<Integration>, bundle_id: Seq<char>) -> bool {
    exists|i: int|
        0 <= i < integrations.len() && (#[trigger] integrations[i]).bundle_id@ == bundle_id
            && integrations[i].enabled
}

fn curated_ids(platform: Platform) -> (ids: Vec<&'static str>)
    ensures
        ids@.len() == curated_bundle_ids(platform).len(),
        forall|i: int| 0 <= i < ids@.len() ==> (#[trigger] ids@[i])@ == curated_bundle_ids(platform)[i],
{
    match platform {
        Platform::MacOs => vec![
            "com.apple.TextEdit",
            "com.apple.mail",
            "com.apple.MobileSMS",
            "com.apple.Notes",
            "com.tinyspeck.slackmacgap",
            "com.hnc.Discord",
        ],
        Platform::Windows => vec!["notepad.exe", "olk.exe", "ms-teams.exe", "slack.exe", "discord.exe"],
        Platform::Other => vec![],
    }
}

impl Integration {
    /// The integrations enabled by default on `platform`: every curated
    /// application, enabled.
    pub fn curated_integrations(platform: Platform) -> (integrations: Vec<Integration>)
        ensures
            integrations@.len() == curated_bundle_ids(platform).len(),
            forall|i: int|
                0 <= i < integrations@.len() ==> (#[trigger] integrations@[i]).bundle_id@
                    == curated_bundle_ids(platform)[i] && integrations@[i].enabled,
    {
        let ids = curated_ids(platform);
        let mut integrations: Vec<Integration> = Vec::new();
        let mut i: usize = 0;
        while i < ids.len()
            invariant
                i <= ids@.len(),
                ids@.len() == curated_bundle_ids(platform).len(),
                forall|j: int| 0 <= j < ids@.len() ==> (#[trigger] ids@[j])@ == curated_bundle_ids(platform)[j],
                integrations@.len() == i,
                forall|j: int|
                    0 <= j < i ==> (#[trigger] integrations@[j]).bundle_id@
                        == curated_bundle_ids(platform)[j] && integrations@[j].enabled,
            decreases ids@.len() - i,
        {
            integrations.push(Integration { bundle_id: ids[i].to_owned(), enabled: true });
            i = i + 1;
        }
        integrations
    }

    /// Whether `bundle_id` has an integration in `integrations` that is enabled.
    pub fn is_integration_enabled_in(integrations: &[Integration], bundle_id: &str) -> (enabled: bool)
        ensures
            enabled == enabled_in(integrations@, bundle_id@),
    {
        let mut i: usize = 0;
        while i < integrations.len()
            invariant
                i <= integrations@.len(),
                forall|j: int|
                    0 <= j < i ==> !((#[trigger] integrations@[j]).bundle_id@ == bundle_id@
                        && integrations@[j].enabled),
            decreases integrations@.len() - i,
        {
            if integrations[i].enabled && str_equal(integrations[i].bundle_id.as_str(), bundle_id) {
                return true;
            }
            i = i + 1;
        }
        false
    }
}

} // verus!
