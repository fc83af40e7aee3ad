//! Pacing of the overlay's event loop: when to read the accessibility tree,
//! when to poll for configuration, when to repaint, and when to rebuild the
//! overlay after the system resumes.
//!
//! Reading the accessibility tree is cross-process and expensive, so it runs on
//! every Nth poll tick; repainting unchanged scenes is skipped, with a
//! low-frequency heartbeat to recover surfaces that went blank while the
//! display slept; and a long gap between ticks means the machine was suspended
//! and the overlay windows must be rebuilt.
//!
//! Time is a reading of a monotonic clock in nanoseconds.
use vstd::prelude::*;
use crate::popup::{accepts_clicks, HitTarget};

verus! {

/// Read interval used until the monitors' refresh rates are known: one frame
/// at 60 Hz.
pub const DEFAULT_READ_INTERVAL: u64 = 16_666_667;

/// How often the configuration is polled: one second.
pub const CONFIG_POLL_INTERVAL: u64 = 1_000_000_000;

/// The accessibility read runs on every Nth poll tick (~10 Hz at 60 Hz).
pub const READ_TICK_DIVIDER: u32 = 6;

/// An unchanged scene is repainted at least this often: five seconds.
pub const HEARTBEAT_INTERVAL: u64 = 5_000_000_000;

/// A gap between ticks longer than this means the system was suspended:
/// thirty seconds.
pub const RESUME_GAP: u64 = 30_000_000_000;

/// Time elapsed from `earlier` to `now`, zero when `now` comes first.
pub open spec fn since(earlier: u64, now: u64) -> int {
    if now >= earlier {
        now - earlier
    } else {
        0
    }
}

/// What one event-loop tick must do.
#[derive(Debug, Clone, Copy, PartialEq, Eq, Structural)]
pub struct TickPlan {
    /// Rebuild the overlay windows: the system resumed from suspend.
    pub recreate_windows: bool,
    /// Run a rectangle update.
    pub read: bool,
    /// Poll the configuration.
    pub refresh_config: bool,
}

/// The pacing state of the overlay's event loop.
pub struct Pacing {
    pub read_interval: u64,
    pub last_read: u64,
    pub last_config_poll: u64,
    pub last_tick: u64,
    pub last_heartbeat: u64,
    /// Poll ticks since the last accessibility read, modulo the divider.
    pub read_tick: u32,
    /// Signature of the last scene handed to the renderer.
    pub scene_signature: u64,
    /// Whether the scene changed since it was last rendered.
    pub scene_dirty: bool,
    /// Whether a popup was open after the previous render.
    pub popup_was_open: bool,
}

/// The plan for a tick at `now`.
pub open spec fn plan_for(pacing: Pacing, now: u64) -> TickPlan {
    TickPlan {
        recreate_windows: since(pacing.last_tick, now) > RESUME_GAP,
        read: since(pacing.last_read, now) >= pacing.read_interval,
        refresh_config: since(pacing.last_config_poll, now) >= CONFIG_POLL_INTERVAL,
    }
}

/// The pacing state after the tick at `now`.
pub open spec fn after_tick(pacing: Pacing, now: u64) -> Pacing {
    let plan = plan_for(pacing, now);
    Pacing {
        last_tick: now,
        last_read: if plan.read {
            now
        } else {
            pacing.last_read
        },
        last_config_poll: if plan.refresh_config {
            now
        } else {
            pacing.last_config_poll
        },
        scene_dirty: pacing.scene_dirty || plan.recreate_windows,
        ..pacing
    }
}

/// The pacing state after rectangles with `signature` were read.
pub open spec fn after_scene_read(pacing: Pacing, signature: u64) -> Pacing {
    if signature != pacing.scene_signature {
        Pacing { scene_signature: signature, scene_dirty: true, ..pacing }
    } else {
        pacing
    }
}

/// Whether the repaint decision at `now`, with `popup_open`, renders.
pub open spec fn renders(pacing: Pacing, now: u64, popup_open: bool) -> bool {
    pacing.scene_dirty || popup_open || pacing.popup_was_open || since(pacing.last_heartbeat, now)
        >= HEARTBEAT_INTERVAL
}

/// The read tick after `tick`.
pub open spec fn next_read_tick(tick: u32) -> u32 {
    ((tick + 1) % (READ_TICK_DIVIDER as int)) as u32
}

/// The read tick after `n` rectangle updates from the start.
pub open spec fn read_tick_after(n: nat) -> u32
    decreases n,
{
    if n == 0 {
        0
    } else {
        next_read_tick(read_tick_after((n - 1) as nat))
    }
}

/// A tick that does not read leaves the time of the last read alone, so a read
/// is due once the interval has passed since the last tick that read, however
/// many ticks came in between; a tick that reads records its own time.
pub proof fn lemma_read_time_moves_only_on_reads(pacing: Pacing, now: u64)
    ensures
        plan_for(pacing, now).read == if now >= pacing.last_read {
            now - pacing.last_read >= pacing.read_interval
        } else {
            pacing.read_interval == 0
        },
        !plan_for(pacing, now).read ==> after_tick(pacing, now).last_read == pacing.last_read,
        plan_for(pacing, now).read ==> after_tick(pacing, now).last_read == now,
{
}

/// Ticks that do not read do not delay the next read: after a tick at `first`
/// that did not read, a tick at `later` reads exactly when it would have
/// without the earlier tick.
pub proof fn lemma_skipped_ticks_do_not_delay_reads(pacing: Pacing, first: u64, later: u64)
    requires
        !plan_for(pacing, first).read,
    ensures
        plan_for(after_tick(pacing, first), later).read == plan_for(pacing, later).read,
{
}

/// The same holds of configuration polls: a tick that does not poll leaves the
/// time of the last poll alone.
pub proof fn lemma_poll_time_moves_only_on_polls(pacing: Pacing, now: u64)
    ensures
        plan_for(pacing, now).refresh_config == if now >= pacing.last_config_poll {
            now - pacing.last_config_poll >= CONFIG_POLL_INTERVAL
        } else {
            false
        },
        !plan_for(pacing, now).refresh_config ==> after_tick(pacing, now).last_config_poll
            == pacing.last_config_poll,
        plan_for(pacing, now).refresh_config ==> after_tick(pacing, now).last_config_poll == now,
{
}

impl Pacing {
    /// Pacing for an event loop starting at `now`: a read is due at once, the
    /// scene is dirty, and no popup was open.
    pub fn new(now: u64) -> (pacing: Self)
        ensures
            pacing.read_interval == DEFAULT_READ_INTERVAL,
            pacing.last_read == (if now >= DEFAULT_READ_INTERVAL {
                now - DEFAULT_READ_INTERVAL
            } else {
                0
            }),
            pacing.last_config_poll == now,
            pacing.last_tick == now,
            pacing.last_heartbeat == now,
            pacing.read_tick == 0,
            pacing.scene_signature == 0,
            pacing.scene_dirty,
            !pacing.popup_was_open,
    {
        Pacing {
            read_interval: DEFAULT_READ_INTERVAL,
            last_read: now.saturating_sub(DEFAULT_READ_INTERVAL),
            last_config_poll: now,
            last_tick: now,
            last_heartbeat: now,
            read_tick: 0,
            scene_signature: 0,
            scene_dirty: true,
            popup_was_open: false,
        }
    }

    /// Decides what the tick at `now` does, and records it: a resume marks the
    /// scene dirty, and the tick, a due read and a due poll are timestamped.
    pub fn tick(&mut self, now: u64) -> (plan: TickPlan)
        ensures
            plan == plan_for(*old(self), now),
            *final(self) == after_tick(*old(self), now),
            plan.read == if now >= old(self).last_read {
                now - old(self).last_read >= old(self).read_interval
            } else {
                old(self).read_interval == 0
            },
            final(self).last_read == if plan.read {
                now
            } else {
                old(self).last_read
            },
            final(self).last_config_poll == if plan.refresh_config {
                now
            } else {
                old(self).last_config_poll
            },
    {
        let recreate_windows = now.saturating_sub(self.last_tick) > RESUME_GAP;
        if recreate_windows {
            self.scene_dirty = true;
        }
        self.last_tick = now;
        let read = now.saturating_sub(self.last_read) >= self.read_interval;
        if read {
            self.last_read = now;
        }
        let refresh_config = now.saturating_sub(self.last_config_poll) >= CONFIG_POLL_INTERVAL;
        if refresh_config {
            self.last_config_poll = now;
        }
        TickPlan { recreate_windows, read, refresh_config }
    }

    /// When the loop should wake next: the earlier of the next read and the
    /// next configuration poll.
    pub fn next_wake(&self) -> (wake: u64)
        ensures
            wake == vstd::math::min(
                vstd::math::min(self.last_read + self.read_interval, u64::MAX as int),
                vstd::math::min(self.last_config_poll + CONFIG_POLL_INTERVAL, u64::MAX as int),
            ),
    {
        let next_read = self.last_read.saturating_add(self.read_interval);
        let next_poll = self.last_config_poll.saturating_add(CONFIG_POLL_INTERVAL);
        if next_read < next_poll {
            next_read
        } else {
            next_poll
        }
    }

    /// Whether this rectangle update reads the accessibility tree, advancing
    /// the divider: between reads the previous rectangles are reused.
    pub fn begin_read(&mut self) -> (read_now: bool)
        ensures
            read_now == (old(self).read_tick == 0),
            *final(self) == (Pacing { read_tick: next_read_tick(old(self).read_tick), ..*old(self) }),
    {
        let read_now = self.read_tick == 0;
        self.read_tick = ((self.read_tick as u64 + 1) % (READ_TICK_DIVIDER as u64)) as u32;
        read_now
    }

    /// Records the signature of freshly read rectangles: a different scene
    /// needs repainting.
    pub fn scene_read(&mut self, signature: u64)
        ensures
            *final(self) == after_scene_read(*old(self), signature),
    {
        if signature != self.scene_signature {
            self.scene_signature = signature;
            self.scene_dirty = true;
        }
    }

    /// Marks the scene dirty: display wake, occlusion and focus changes can
    /// follow a period in which the surface was invalidated.
    pub fn mark_dirty(&mut self)
        ensures
            *final(self) == (Pacing { scene_dirty: true, ..*old(self) }),
    {
        self.scene_dirty = true;
    }

    /// Whether the overlay must be repainted at `now` while `popup_open` says
    /// whether a popup is open: the scene changed, a popup is open (its widgets
    /// animate), one just closed (the erase frame), or the heartbeat is due. A
    /// repaint clears the dirty mark; the heartbeat is restarted when due.
    pub fn render_needed(&mut self, now: u64, popup_open: bool) -> (render: bool)
        ensures
            render == renders(*old(self), now, popup_open),
            *final(self) == (Pacing {
                last_heartbeat: if since(old(self).last_heartbeat, now) >= HEARTBEAT_INTERVAL {
                    now
                } else {
                    old(self).last_heartbeat
                },
                scene_dirty: false,
                ..*old(self)
            }),
    {
        if now.saturating_sub(self.last_heartbeat) >= HEARTBEAT_INTERVAL {
            self.last_heartbeat = now;
            self.scene_dirty = true;
        }
        let render = self.scene_dirty || popup_open || self.popup_was_open;
        if render {
            self.scene_dirty = false;
        }
        render
    }

    /// Records whether a popup is open once rendering is done, so that the
    /// frame after it closes erases it.
    pub fn rendered(&mut self, popup_open: bool)
        ensures
            *final(self) == (Pacing { popup_was_open: popup_open, ..*old(self) }),
    {
        self.popup_was_open = popup_open;
    }
}

/// The read interval for a monitor refreshing at `millihertz`: one frame, in
/// nanoseconds; `None` for an unknown or zero rate.
pub fn monitor_refresh_interval(millihertz: Option<u32>) -> (interval: Option<u64>)
    ensures
        interval == monitor_interval(millihertz),
{
    match millihertz {
        Some(rate) => if rate > 0 {
            Some(1_000_000_000_000u64 / (rate as u64))
        } else {
            None
        },
        None => None,
    }
}

/// The shortest frame interval among monitors refreshing at `rates`, if any
/// monitor reports one: reads keep pace with the fastest display.
pub fn shortest_refresh_interval(rates: &[Option<u32>]) -> (interval: Option<u64>)
    ensures
        match interval {
            Some(shortest) => (exists|i: int| 0 <= i < rates@.len() && monitor_interval(rates@[i]) == Some(shortest))
                && forall|i: int| 0 <= i < rates@.len() ==> ((#[trigger] monitor_interval(rates@[i])) matches Some(other) ==> shortest <= other),
            None => forall|i: int| 0 <= i < rates@.len() ==> (#[trigger] monitor_interval(rates@[i])) is None,
        },
{
    let mut shortest: Option<u64> = None;
    let mut i: usize = 0;
    while i < rates.len()
        invariant
            i <= rates@.len(),
            match shortest {
                Some(s) => (exists|k: int| 0 <= k < i && monitor_interval(rates@[k]) == Some(s))
                    && forall|k: int| 0 <= k < i ==> ((#[trigger] monitor_interval(rates@[k])) matches Some(other) ==> s <= other),
                None => forall|k: int| 0 <= k < i ==> (#[trigger] monitor_interval(rates@[k])) is None,
            },
        decreases rates@.len() - i,
    {
        let candidate = monitor_refresh_interval(rates[i]);
        assert(candidate == monitor_interval(rates@[i as int]));
        match candidate {
            Some(c) => {
                match shortest {
                    Some(s) => {
                        if c < s {
                            shortest = Some(c);
                        }
                    },
                    None => {
                        shortest = Some(c);
                    },
                }
            },
            None => {},
        }
        i = i + 1;
    }
    shortest
}

/// The frame interval of a monitor refreshing at `millihertz`.
pub open spec fn monitor_interval(millihertz: Option<u32>) -> Option<u64> {
    match millihertz {
        Some(rate) => if rate > 0 {
            Some((1_000_000_000_000u64 / (rate as u64)) as u64)
        } else {
            None
        },
        None => None,
    }
}

/// How the overlay's click-through changes for the cursor over `target`,
/// while hit-testing is currently `enabled`.
#[derive(Debug, Clone, Copy, PartialEq, Eq, Structural)]
pub struct HittestUpdate {
    /// The lint under the cursor, if any.
    pub hovered_lint: Option<usize>,
    /// The hit-testing state to switch the windows to, when it changes.
    pub switch_to: Option<bool>,
}

/// Hit-testing is enabled exactly while the cursor is over a lint or the
/// popup, so that clicks elsewhere reach the application below; the windows
/// are only touched when that changes.
pub fn cursor_hittest_update(enabled: bool, target: HitTarget) -> (update: HittestUpdate)
    ensures
        update.hovered_lint == match target {
            HitTarget::Lint(index) => Some(index),
            _ => None::<usize>,
        },
        update.switch_to == if enabled == accepts_clicks(target) {
            None::<bool>
        } else {
            Some(accepts_clicks(target))
        },
{
    let hovered_lint = match target {
        HitTarget::Lint(index) => Some(index),
        _ => None,
    };
    let should_enable = match target {
        HitTarget::Nothing => false,
        _ => true,
    };
    let switch_to = if enabled == should_enable {
        None
    } else {
        Some(should_enable)
    };
    HittestUpdate { hovered_lint, switch_to }
}

/// The kinds of window event the overlay reacts to.
#[derive(Debug, Clone, Copy, PartialEq, Eq, Structural)]
pub enum WindowEventKind {
    /// The left mouse button went down.
    LeftPress,
    /// The OS asked for a repaint.
    RedrawRequested,
    /// The window was occluded or revealed.
    Occluded,
    /// The window gained or lost focus.
    Focused,
    /// The window moved.
    Moved,
    /// The window was asked to close.
    CloseRequested,
    /// Any other event.
    Other,
}

/// What the overlay does with one window event.
#[derive(Debug, Clone, Copy, PartialEq, Eq, Structural)]
pub struct WindowEventActions {
    /// Hand the event to egui. Repaint requests are not: egui answers any
    /// processed event with another repaint request, a self-sustaining loop.
    pub forward_to_egui: bool,
    /// Render the window now.
    pub render: bool,
    /// Open the popup of the lint under the cursor, if any.
    pub select_hit_lint: bool,
    /// Repaint promptly: the surface may have been invalidated.
    pub mark_dirty: bool,
    /// Leave the event loop.
    pub exit: bool,
}

/// What the overlay does with a window event of `kind`.
pub open spec fn actions_for(kind: WindowEventKind) -> WindowEventActions {
    WindowEventActions {
        forward_to_egui: kind != WindowEventKind::RedrawRequested,
        render: kind == WindowEventKind::RedrawRequested,
        select_hit_lint: kind == WindowEventKind::LeftPress,
        mark_dirty: kind == WindowEventKind::Occluded || kind == WindowEventKind::Focused || kind
            == WindowEventKind::Moved,
        exit: kind == WindowEventKind::CloseRequested,
    }
}

/// What the overlay does with a window event of `kind`.
pub fn window_event_actions(kind: WindowEventKind) -> (actions: WindowEventActions)
    ensures
        actions == actions_for(kind),
{
    let redraw = match kind {
        WindowEventKind::RedrawRequested => true,
        _ => false,
    };
    WindowEventActions {
        forward_to_egui: !redraw,
        render: redraw,
        select_hit_lint: match kind {
            WindowEventKind::LeftPress => true,
            _ => false,
        },
        mark_dirty: match kind {
            WindowEventKind::Occluded | WindowEventKind::Focused | WindowEventKind::Moved => true,
            _ => false,
        },
        exit: match kind {
            WindowEventKind::CloseRequested => true,
            _ => false,
        },
    }
}

/// Reads come every [`READ_TICK_DIVIDER`]th rectangle update: after `n`
/// updates from the start, the next one reads exactly when `n` is a multiple
/// of the divider.
pub proof fn lemma_reads_every_nth_update(n: nat)
    ensures
        read_tick_after(n) == n % (READ_TICK_DIVIDER as nat),
        (read_tick_after(n) == 0) <==> n % (READ_TICK_DIVIDER as nat) == 0,
    decreases n,
{
    if n > 0 {
        lemma_reads_every_nth_update((n - 1) as nat);
    }
}

/// A tick after a gap longer than [`RESUME_GAP`] rebuilds the overlay
/// windows, and the next repaint decision renders them, whatever it is asked
/// at whatever time.
pub proof fn lemma_resume_forces_repaint(pacing: Pacing, now: u64, later: u64, popup_open: bool)
    requires
        since(pacing.last_tick, now) > RESUME_GAP,
    ensures
        plan_for(pacing, now).recreate_windows,
        renders(after_tick(pacing, now), later, popup_open),
{
}

/// A changed scene is always repainted: after rectangles with a new
/// signature are read, the next repaint decision renders.
pub proof fn lemma_changed_scene_is_rendered(pacing: Pacing, signature: u64, now: u64, popup_open: bool)
    requires
        signature != pacing.scene_signature,
    ensures
        renders(after_scene_read(pacing, signature), now, popup_open),
{
}

} // verus!
