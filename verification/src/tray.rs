//! The tray icon's status line: a colored bar along the bottom of the icon
//! that shows whether the highlighter service is running.
use vstd::prelude::*;
use crate::text::str_equal;

verus! {

/// The RGBA color of the status line: green while the service runs, red
/// otherwise.
pub open spec fn status_color(is_running: bool) -> Seq<u8> {
    if is_running {
        seq![34u8, 197u8, 94u8, 255u8]
    } else {
        seq![239u8, 68u8, 68u8, 255u8]
    }
}

/// The RGBA color of the status line.
pub fn service_status_color(is_running: bool) -> (color: [u8; 4])
    ensures
        color@ == status_color(is_running),
{
    if is_running {
        [34, 197, 94, 255]
    } else {
        [239, 68, 68, 255]
    }
}

/// The height of the status line for an icon of `width` by `height`: a
/// fourteenth of its smaller side, and at least three pixels.
pub open spec fn line_height(width: u32, height: u32) -> u32 {
    let side = if height < width {
        height
    } else {
        width
    };
    if side / 14 > 3 {
        (side / 14) as u32
    } else {
        3
    }
}

/// The first row of the status line.
pub open spec fn line_start(width: u32, height: u32) -> u32 {
    if height >= line_height(width, height) {
        (height - line_height(width, height)) as u32
    } else {
        0
    }
}

/// Whether byte `i` of an RGBA image of `width` by `height` belongs to the
/// status line.
pub open spec fn in_status_line(i: int, width: u32, height: u32) -> bool {
    line_start(width, height) * width * 4 <= i < height * width * 4
}

/// Paints the status line in `color` over the bottom rows of the RGBA image
/// `rgba`, `width` by `height` pixels, leaving every other byte as it was.
pub fn draw_status_line(rgba: &mut [u8], width: u32, height: u32, color: [u8; 4])
    requires
        width as int * height as int * 4 <= u32::MAX,
        old(rgba)@.len() >= width as int * height as int * 4,
    ensures
        final(rgba)@.len() == old(rgba)@.len(),
        forall|i: int|
            0 <= i < old(rgba)@.len() ==> #[trigger] final(rgba)@[i] == if in_status_line(i, width, height) {
                color@[i % 4]
            } else {
                old(rgba)@[i]
            },
{
    let side = if height < width {
        height
    } else {
        width
    };
    let line_height = if side / 14 > 3 {
        side / 14
    } else {
        3
    };
    let start_y = height.saturating_sub(line_height);
    assert(start_y == line_start(width, height));
    proof {
        assert(start_y as int * width as int * 4 <= height as int * width as int * 4) by (nonlinear_arith)
            requires
                start_y <= height,
        ;
        assert(height as int * width as int == width as int * height as int) by (nonlinear_arith);
    }
    let end = height * width * 4;
    let mut index: u32 = start_y * width * 4;
    let ghost first = index;
    while index < end
        invariant
            first == line_start(width, height) * width * 4,
            end == height * width * 4,
            end <= rgba@.len(),
            first <= index <= end,
            index % 4 == 0,
            first % 4 == 0,
            rgba@.len() == old(rgba)@.len(),
            forall|i: int|
                0 <= i < rgba@.len() ==> #[trigger] rgba@[i] == if first <= i < index {
                    color@[i % 4]
                } else {
                    old(rgba)@[i]
                },
        decreases end - index,
    {
        let i = index as usize;
        rgba[i] = color[0];
        rgba[i + 1] = color[1];
        rgba[i + 2] = color[2];
        rgba[i + 3] = color[3];
        index = index + 4;
    }
}


/// The service state the tray icon currently shows.
///
/// The icon is only touched when the state actually changes: re-decoding and
/// re-setting it several times a second regardless is pure waste, and the shell
/// eventually starts rejecting the updates. A failed update leaves the shown
/// state alone so the next poll retries.
#[derive(Debug, Clone, Copy, PartialEq, Eq, Structural)]
pub struct TrayIndicator {
    pub shown_is_running: bool,
}

impl TrayIndicator {
    /// An indicator showing `is_running`.
    pub fn new(is_running: bool) -> (indicator: Self)
        ensures
            indicator.shown_is_running == is_running,
    {
        TrayIndicator { shown_is_running: is_running }
    }

    /// Whether the icon must change to show `is_running`.
    pub fn needs_update(&self, is_running: bool) -> (update: bool)
        ensures
            update == (is_running != self.shown_is_running),
    {
        is_running != self.shown_is_running
    }

    /// Records the outcome of setting the icon to show `is_running`: only a
    /// successful update changes what is shown.
    pub fn icon_set(&mut self, is_running: bool, succeeded: bool)
        ensures
            final(self).shown_is_running == if succeeded {
                is_running
            } else {
                old(self).shown_is_running
            },
    {
        if succeeded {
            self.shown_is_running = is_running;
        }
    }
}


/// What choosing a tray menu item does.
#[derive(Debug, Clone, Copy, PartialEq, Eq, Structural)]
pub enum TrayAction {
    ToggleService,
    OpenEditor,
    OpenSettings,
    ReportIssue,
    Quit,
    /// An item this menu does not have.
    Unknown,
}

/// The tray menu, top to bottom: each item's identifier and label.
pub open spec fn menu_items() -> Seq<(Seq<char>, Seq<char>)> {
    seq![
        ("toggle-service"@, "Toggle Service"@),
        ("open-editor"@, "Open Editor"@),
        ("settings"@, "Settings"@),
        ("report-issue"@, "Report Issue"@),
        ("quit"@, "Quit"@),
    ]
}

/// The action of the menu item with identifier `id`.
pub open spec fn action_for(id: Seq<char>) -> TrayAction {
    if id == "toggle-service"@ {
        TrayAction::ToggleService
    } else if id == "open-editor"@ {
        TrayAction::OpenEditor
    } else if id == "settings"@ {
        TrayAction::OpenSettings
    } else if id == "report-issue"@ {
        TrayAction::ReportIssue
    } else if id == "quit"@ {
        TrayAction::Quit
    } else {
        TrayAction::Unknown
    }
}

/// The tray menu's items, top to bottom: identifier and label.
pub fn tray_menu_items() -> (items: Vec<(&'static str, &'static str)>)
    ensures
        items@.len() == menu_items().len(),
        forall|i: int|
            0 <= i < items@.len() ==> (#[trigger] items@[i]).0@ == menu_items()[i].0 && items@[i].1@
                == menu_items()[i].1,
{
    vec![
        ("toggle-service", "Toggle Service"),
        ("open-editor", "Open Editor"),
        ("settings", "Settings"),
        ("report-issue", "Report Issue"),
        ("quit", "Quit"),
    ]
}

/// What choosing the tray menu item `id` does.
pub fn tray_action(id: &str) -> (action: TrayAction)
    ensures
        action == action_for(id@),
{
    if str_equal(id, "toggle-service") {
        TrayAction::ToggleService
    } else if str_equal(id, "open-editor") {
        TrayAction::OpenEditor
    } else if str_equal(id, "settings") {
        TrayAction::OpenSettings
    } else if str_equal(id, "report-issue") {
        TrayAction::ReportIssue
    } else if str_equal(id, "quit") {
        TrayAction::Quit
    } else {
        TrayAction::Unknown
    }
}

/// Every item of the tray menu does something: none of them is unknown.
pub proof fn lemma_menu_items_have_actions(i: int)
    requires
        0 <= i < menu_items().len(),
    ensures
        action_for(menu_items()[i].0) != TrayAction::Unknown,
{
    reveal_strlit("toggle-service");
    reveal_strlit("open-editor");
    reveal_strlit("settings");
    reveal_strlit("report-issue");
    reveal_strlit("quit");
    if i == 1 {
        assert("open-editor"@ != "toggle-service"@) by {
            assert("open-editor"@[0] != "toggle-service"@[0]);
        }
    } else if i == 2 {
        assert("settings"@ != "toggle-service"@) by {
            assert("settings"@[0] != "toggle-service"@[0]);
        }
        assert("settings"@ != "open-editor"@) by {
            assert("settings"@[0] != "open-editor"@[0]);
        }
    } else if i == 3 {
        assert("report-issue"@ != "toggle-service"@) by {
            assert("report-issue"@[0] != "toggle-service"@[0]);
        }
        assert("report-issue"@ != "open-editor"@) by {
            assert("report-issue"@[0] != "open-editor"@[0]);
        }
        assert("report-issue"@ != "settings"@) by {
            assert("report-issue"@[0] != "settings"@[0]);
        }
    } else if i == 4 {
        assert("quit"@ != "toggle-service"@) by {
            assert("quit"@[0] != "toggle-service"@[0]);
        }
        assert("quit"@ != "open-editor"@) by {
            assert("quit"@[0] != "open-editor"@[0]);
        }
        assert("quit"@ != "settings"@) by {
            assert("quit"@[0] != "settings"@[0]);
        }
        assert("quit"@ != "report-issue"@) by {
            assert("quit"@[0] != "report-issue"@[0]);
        }
    }
}

} // verus!
