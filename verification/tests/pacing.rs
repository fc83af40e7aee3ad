use harper_desktop::pacing::{
    cursor_hittest_update, monitor_refresh_interval, shortest_refresh_interval, Pacing,
    CONFIG_POLL_INTERVAL, DEFAULT_READ_INTERVAL, HEARTBEAT_INTERVAL, RESUME_GAP,
};
use harper_desktop::pacing::{window_event_actions, WindowEventKind};
use harper_desktop::popup::HitTarget;

const START: u64 = 1_000_000_000_000;

#[test]
fn the_first_tick_reads_at_once() {
    let mut pacing = Pacing::new(START);
    let plan = pacing.tick(START);
    assert!(plan.read);
    assert!(!plan.refresh_config);
    assert!(!plan.recreate_windows);
    assert_eq!(pacing.next_wake(), START + DEFAULT_READ_INTERVAL);
}

#[test]
fn configuration_is_polled_every_second() {
    let mut pacing = Pacing::new(START);
    assert!(!pacing.tick(START + CONFIG_POLL_INTERVAL - 1).refresh_config);
    assert!(pacing.tick(START + CONFIG_POLL_INTERVAL).refresh_config);
    assert!(!pacing.tick(START + CONFIG_POLL_INTERVAL + 1).refresh_config);
}

#[test]
fn a_long_gap_means_resume() {
    let mut pacing = Pacing::new(START);
    pacing.render_needed(START, false);
    assert!(!pacing.tick(START + RESUME_GAP).recreate_windows);
    let plan = pacing.tick(START + 2 * RESUME_GAP + 1);
    assert!(plan.recreate_windows);
    assert!(pacing.render_needed(START + 2 * RESUME_GAP + 1, false));
}

#[test]
fn the_accessibility_read_runs_every_sixth_update() {
    let mut pacing = Pacing::new(START);
    let reads: Vec<bool> = (0..13).map(|_| pacing.begin_read()).collect();
    assert_eq!(
        reads,
        vec![true, false, false, false, false, false, true, false, false, false, false, false, true]
    );
}

#[test]
fn unchanged_scenes_are_not_repainted() {
    let mut pacing = Pacing::new(START);
    assert!(pacing.render_needed(START, false));
    pacing.rendered(false);
    pacing.scene_read(0);
    assert!(!pacing.render_needed(START + 1, false));
    pacing.scene_read(42);
    assert!(pacing.render_needed(START + 2, false));
    assert!(!pacing.render_needed(START + 3, false));
}

#[test]
fn an_open_popup_repaints_until_one_frame_after_it_closes() {
    let mut pacing = Pacing::new(START);
    pacing.render_needed(START, false);
    pacing.rendered(false);
    assert!(pacing.render_needed(START + 1, true));
    pacing.rendered(true);
    // Closed between frames: one more frame erases the card.
    assert!(pacing.render_needed(START + 2, false));
    pacing.rendered(false);
    assert!(!pacing.render_needed(START + 3, false));
}

#[test]
fn the_heartbeat_repaints_a_still_scene() {
    let mut pacing = Pacing::new(START);
    pacing.render_needed(START, false);
    pacing.rendered(false);
    assert!(!pacing.render_needed(START + HEARTBEAT_INTERVAL - 1, false));
    assert!(pacing.render_needed(START + HEARTBEAT_INTERVAL, false));
    assert!(!pacing.render_needed(START + HEARTBEAT_INTERVAL + 1, false));
}

#[test]
fn marking_dirty_forces_a_repaint() {
    let mut pacing = Pacing::new(START);
    pacing.render_needed(START, false);
    pacing.mark_dirty();
    assert!(pacing.render_needed(START + 1, false));
}

#[test]
fn refresh_rates_become_frame_intervals() {
    assert_eq!(monitor_refresh_interval(Some(60_000)), Some(16_666_666));
    assert_eq!(monitor_refresh_interval(Some(144_000)), Some(6_944_444));
    assert_eq!(monitor_refresh_interval(Some(0)), None);
    assert_eq!(monitor_refresh_interval(None), None);
    assert_eq!(
        shortest_refresh_interval(&[Some(60_000), None, Some(120_000), Some(0)]),
        Some(8_333_333)
    );
    assert_eq!(shortest_refresh_interval(&[None, Some(0)]), None);
}

#[test]
fn hit_testing_follows_the_cursor_target() {
    let update = cursor_hittest_update(false, HitTarget::Lint(2));
    assert_eq!(update.hovered_lint, Some(2));
    assert_eq!(update.switch_to, Some(true));
    let update = cursor_hittest_update(true, HitTarget::Popup);
    assert_eq!(update.hovered_lint, None);
    assert_eq!(update.switch_to, None);
    let update = cursor_hittest_update(true, HitTarget::Nothing);
    assert_eq!(update.switch_to, Some(false));
    assert_eq!(cursor_hittest_update(false, HitTarget::Nothing).switch_to, None);
}

#[test]
fn window_events_map_to_actions() {
    let press = window_event_actions(WindowEventKind::LeftPress);
    assert!(press.select_hit_lint && press.forward_to_egui && !press.render && !press.exit);
    let redraw = window_event_actions(WindowEventKind::RedrawRequested);
    assert!(redraw.render && !redraw.forward_to_egui);
    assert!(window_event_actions(WindowEventKind::Moved).mark_dirty);
    assert!(window_event_actions(WindowEventKind::Focused).mark_dirty);
    assert!(window_event_actions(WindowEventKind::Occluded).mark_dirty);
    assert!(window_event_actions(WindowEventKind::CloseRequested).exit);
    let other = window_event_actions(WindowEventKind::Other);
    assert!(other.forward_to_egui && !other.render && !other.mark_dirty && !other.exit);
}
