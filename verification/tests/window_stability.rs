use harper_desktop::window_stability::{frame_changed, Frame, WindowMovement, SETTLE_DURATION};

const WINDOW: isize = 0x1234;
const OTHER_WINDOW: isize = 0x5678;

/// One millisecond on the monotonic clock, in nanoseconds.
const MS: u64 = 1_000_000;

/// A clock reading well past its origin, as `Instant::now()` is.
fn now() -> u64 {
    3_600_000 * MS
}

fn rect(left: i32, top: i32) -> Frame {
    Frame {
        left,
        top,
        right: left + 800,
        bottom: top + 600,
    }
}

#[test]
fn a_newly_seen_window_highlights_immediately() {
    let mut movement = WindowMovement::default();

    assert!(
        !movement.observe(WINDOW, rect(0, 0), now()),
        "focusing a window is not movement; waiting would delay every switch"
    );
}

#[test]
fn a_moved_window_is_moving() {
    let mut movement = WindowMovement::default();
    let now = now();

    movement.observe(WINDOW, rect(0, 0), now);

    assert!(
        movement.observe(WINDOW, rect(40, 0), now + 16 * MS),
        "the frame changed, which is the definition of moving"
    );
}

#[test]
fn a_resized_window_is_moving() {
    let mut movement = WindowMovement::default();
    let now = now();

    movement.observe(WINDOW, rect(0, 0), now);
    let mut resized = rect(0, 0);
    resized.right += 120;

    assert!(
        movement.observe(WINDOW, resized, now + 16 * MS),
        "a drag on the window edge moves text just as a drag on the title bar does"
    );
}

#[test]
fn highlights_stay_hidden_until_the_window_settles() {
    let mut movement = WindowMovement::default();
    let start = now();

    movement.observe(WINDOW, rect(0, 0), start);
    movement.observe(WINDOW, rect(40, 0), start);

    assert!(
        movement.observe(WINDOW, rect(40, 0), start + 100 * MS),
        "still within the settle window, so highlights stay hidden"
    );
    assert!(
        !movement.observe(WINDOW, rect(40, 0), start + SETTLE_DURATION),
        "the window has held still long enough to draw on"
    );
}

#[test]
fn switching_windows_does_not_count_as_movement() {
    let mut movement = WindowMovement::default();
    let now = now();

    movement.observe(WINDOW, rect(0, 0), now);
    movement.observe(WINDOW, rect(40, 0), now);

    // Mid-settle for the first window, but this is a different one.
    assert!(
        !movement.observe(OTHER_WINDOW, rect(900, 300), now + 20 * MS),
        "a window at a different position is not the previous one having moved"
    );
}

#[test]
fn a_still_window_keeps_highlighting_indefinitely() {
    let mut movement = WindowMovement::default();
    let start = now();

    movement.observe(WINDOW, rect(0, 0), start);

    assert!(
        !movement.observe(WINDOW, rect(0, 0), start + 3600 * 1000 * MS),
        "a window that never moves must never stop highlighting"
    );
}

#[test]
fn unreadable_geometry_counts_as_movement_and_forgets_the_window() {
    let mut movement = WindowMovement::default();
    let start = now();

    movement.observe(WINDOW, rect(40, 0), start);
    assert!(movement.is_moving(None, start + MS));
    // Seen afresh, the window is not moving.
    assert!(!movement.is_moving(Some((WINDOW, rect(0, 0))), start + 2 * MS));
}

#[test]
fn frames_differ_in_any_edge() {
    assert!(!frame_changed(rect(0, 0), rect(0, 0)));
    let mut taller = rect(0, 0);
    taller.bottom += 1;
    assert!(frame_changed(rect(0, 0), taller));
    assert!(frame_changed(rect(0, 0), rect(0, 1)));
}

#[test]
fn a_window_seen_at_the_start_of_the_clock_waits_out_the_settle_duration() {
    // Too early on the clock to backdate: the change time is the sighting.
    let mut movement = WindowMovement::default();
    movement.observe(WINDOW, rect(0, 0), 10 * MS);
    assert!(movement.observe(WINDOW, rect(0, 0), 20 * MS));
    assert!(!movement.observe(WINDOW, rect(0, 0), 10 * MS + SETTLE_DURATION));
}
