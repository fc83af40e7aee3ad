use harper_desktop::tray::{tray_action, tray_menu_items, TrayAction, TrayIndicator};
use harper_desktop::tray::{draw_status_line, service_status_color};

#[test]
fn running_is_green_and_stopped_is_red() {
    assert_eq!(service_status_color(true), [34, 197, 94, 255]);
    assert_eq!(service_status_color(false), [239, 68, 68, 255]);
}

#[test]
fn the_status_line_covers_the_bottom_rows() {
    let (width, height) = (4u32, 5u32);
    let mut rgba = vec![7u8; (width * height * 4) as usize + 3];
    draw_status_line(&mut rgba, width, height, [1, 2, 3, 4]);
    // Three rows at least: rows 2, 3 and 4 of five.
    for (i, byte) in rgba.iter().enumerate() {
        let expected = if (2 * 4 * 4..5 * 4 * 4).contains(&i) {
            [1, 2, 3, 4][i % 4]
        } else {
            7
        };
        assert_eq!(*byte, expected, "byte {i}");
    }
}

#[test]
fn a_large_icon_gets_a_fourteenth_of_its_height() {
    let (width, height) = (64u32, 56u32);
    let mut rgba = vec![0u8; (width * height * 4) as usize];
    draw_status_line(&mut rgba, width, height, [9, 9, 9, 9]);
    // 56 / 14 = 4 rows.
    let first = (52 * width * 4) as usize;
    assert!(rgba[..first].iter().all(|b| *b == 0));
    assert!(rgba[first..].iter().all(|b| *b == 9));
}

#[test]
fn an_empty_icon_is_left_alone() {
    let mut rgba: Vec<u8> = vec![5, 5];
    draw_status_line(&mut rgba, 0, 10, [1, 1, 1, 1]);
    assert_eq!(rgba, vec![5, 5]);
}

#[test]
fn the_tray_icon_changes_only_with_the_service_state() {
    let mut indicator = TrayIndicator::new(false);
    assert!(!indicator.needs_update(false));
    assert!(indicator.needs_update(true));
    // A failed update is retried on the next poll.
    indicator.icon_set(true, false);
    assert!(indicator.needs_update(true));
    indicator.icon_set(true, true);
    assert!(!indicator.needs_update(true));
}

#[test]
fn every_menu_item_has_its_action() {
    let actions: Vec<TrayAction> = tray_menu_items().iter().map(|(id, _)| tray_action(id)).collect();
    assert_eq!(
        actions,
        vec![
            TrayAction::ToggleService,
            TrayAction::OpenEditor,
            TrayAction::OpenSettings,
            TrayAction::ReportIssue,
            TrayAction::Quit
        ]
    );
    assert_eq!(tray_menu_items()[4], ("quit", "Quit"));
    assert_eq!(tray_action("Quit"), TrayAction::Unknown);
    assert_eq!(tray_action(""), TrayAction::Unknown);
}
