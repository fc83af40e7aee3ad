//! Withholding highlights while a window is being dragged or resized.
//!
//! Highlight rectangles are captured at one instant and drawn at another. While
//! a window is in motion those two instants disagree, and the underlines slide
//! along behind the text they belong to. Highlights are therefore withheld while
//! the foreground window moves, and return once it has held still for
//! [`SETTLE_DURATION`].
//!
//! State is keyed by window, not process: the foreground window's handle
//! identifies it exactly, so focusing another window starts afresh instead of
//! counting as movement. Frames are compared exactly, since the OS reports them
//! as integers that do not jitter.
//!
//! Time is a reading of a monotonic clock in nanoseconds.
use vstd::prelude::*;

verus! {

/// How long a window must hold still before highlights return: 150 ms, in
/// nanoseconds. Long enough that the pause between two drag gestures does not
/// flash highlights back on, short enough not to feel like a delay after
/// releasing the mouse.
pub const SETTLE_DURATION: u64 = 150_000_000;

/// A window's screen rectangle in physical pixels.
#[derive(Clone, Copy, Debug, PartialEq, Eq, Structural)]
pub struct Frame {
    pub left: i32,
    pub top: i32,
    pub right: i32,
    pub bottom: i32,
}

/// The last observed state of the foreground window.
#[derive(Clone, Copy, Debug)]
pub struct Sample {
    /// The window's handle as a plain integer: an identity to compare, never a
    /// handle to use.
    pub window: isize,
    pub frame: Frame,
    /// When the frame last changed.
    pub last_changed_at: u64,
}

/// Time elapsed from `earlier` to `now`, zero when `now` comes first.
pub open spec fn elapsed(earlier: u64, now: u64) -> int {
    if now >= earlier {
        now - earlier
    } else {
        0
    }
}

/// The change time recorded for a window seen for the first time: backdated by
/// the settle duration where the clock allows, so it counts as already settled.
pub open spec fn backdated(now: u64) -> u64 {
    if now >= SETTLE_DURATION {
        (now - SETTLE_DURATION) as u64
    } else {
        now
    }
}

/// A sample that counts as already settled.
pub open spec fn settled_sample(window: isize, frame: Frame, now: u64) -> Sample {
    Sample { window, frame, last_changed_at: backdated(now) }
}

/// The sample kept after observing `window` at `frame` at time `now`.
pub open spec fn next_sample(previous: Option<Sample>, window: isize, frame: Frame, now: u64) -> Sample {
    match previous {
        None => settled_sample(window, frame, now),
        Some(sample) => if sample.window != window {
            settled_sample(window, frame, now)
        } else if sample.frame != frame {
            Sample { window, frame, last_changed_at: now }
        } else {
            sample
        },
    }
}

/// Whether observing `window` at `frame` at time `now` finds it moving, or
/// stopped too recently to trust.
pub open spec fn moving_after(previous: Option<Sample>, window: isize, frame: Frame, now: u64) -> bool {
    match previous {
        None => false,
        Some(sample) => sample.window == window && (sample.frame != frame || elapsed(
            sample.last_changed_at,
            now,
        ) < SETTLE_DURATION),
    }
}

/// The last observed position of the foreground window.
pub struct WindowMovement {
    last: Option<Sample>,
}

impl View for WindowMovement {
    type V = Option<Sample>;

    closed spec fn view(&self) -> Option<Sample> {
        self.last
    }
}

impl Default for WindowMovement {
    fn default() -> (movement: Self)
        ensures
            movement@ is None,
    {
        WindowMovement { last: None }
    }
}

fn settled(window: isize, frame: Frame, now: u64) -> (sample: Sample)
    ensures
        sample == settled_sample(window, frame, now),
{
    let last_changed_at = match now.checked_sub(SETTLE_DURATION) {
        Some(earlier) => earlier,
        None => now,
    };
    Sample { window, frame, last_changed_at }
}

/// Whether two frames differ in any edge.
pub fn frame_changed(previous: Frame, current: Frame) -> (changed: bool)
    ensures
        changed == (previous != current),
{
    previous.left != current.left || previous.top != current.top || previous.right
        != current.right || previous.bottom != current.bottom
}

impl WindowMovement {
    /// Whether the foreground window is moving, or stopped too recently to
    /// trust, given what was read of it at time `now`: its handle and frame, or
    /// `None` when no geometry could be read.
    ///
    /// Unreadable geometry counts as movement and forgets the last sample: the
    /// safe answer is to withhold highlights rather than draw them at a
    /// position that may no longer exist.
    pub fn is_moving(&mut self, foreground: Option<(isize, Frame)>, now: u64) -> (moving: bool)
        ensures
            match foreground {
                None => moving && final(self)@ is None,
                Some((window, frame)) => {
                    &&& moving == moving_after(old(self)@, window, frame, now)
                    &&& final(self)@ == Some(next_sample(old(self)@, window, frame, now))
                },
            },
    {
        match foreground {
            None => {
                self.last = None;
                true
            },
            Some((window, frame)) => self.observe(window, frame, now),
        }
    }

    /// The decision itself: observes `window` at `frame` at time `now` and
    /// reports whether it is moving.
    pub fn observe(&mut self, window: isize, frame: Frame, now: u64) -> (moving: bool)
        ensures
            moving == moving_after(old(self)@, window, frame, now),
            final(self)@ == Some(next_sample(old(self)@, window, frame, now)),
    {
        match self.last {
            None => {
                self.last = Some(settled(window, frame, now));
                false
            },
            Some(sample) => {
                if sample.window != window {
                    self.last = Some(settled(window, frame, now));
                    false
                } else if frame_changed(sample.frame, frame) {
                    self.last = Some(Sample { window, frame, last_changed_at: now });
                    true
                } else {
                    let since = now.saturating_sub(sample.last_changed_at);
                    since < SETTLE_DURATION
                }
            },
        }
    }
}


/// Focusing a window is not movement: the first sighting of any window never
/// withholds highlights, whatever was observed before.
pub proof fn lemma_new_window_is_still(previous: Option<Sample>, window: isize, frame: Frame, now: u64)
    requires
        previous matches Some(sample) ==> sample.window != window,
    ensures
        !moving_after(previous, window, frame, now),
        next_sample(previous, window, frame, now) == settled_sample(window, frame, now),
{
}

/// A window whose frame differs from the last one observed for it is moving,
/// whether it was dragged or resized.
pub proof fn lemma_changed_frame_is_moving(sample: Sample, frame: Frame, now: u64)
    requires
        sample.frame != frame,
    ensures
        moving_after(Some(sample), sample.window, frame, now),
        next_sample(Some(sample), sample.window, frame, now).last_changed_at == now,
{
}

/// After the frame last changed at `changed_at`, the unchanged window keeps
/// withholding highlights exactly until the settle duration has passed.
pub proof fn lemma_settles_after_duration(window: isize, frame: Frame, changed_at: u64, now: u64)
    requires
        changed_at <= now,
    ensures
        moving_after(Some(Sample { window, frame, last_changed_at: changed_at }), window, frame, now)
            <==> now - changed_at < SETTLE_DURATION,
        next_sample(Some(Sample { window, frame, last_changed_at: changed_at }), window, frame, now)
            == (Sample { window, frame, last_changed_at: changed_at }),
{
}

/// A window that never moves never stops highlighting: once a window has been
/// seen at time `first` (late enough on the clock to be backdated), every later
/// observation of it at the same frame reports it still and leaves the sample
/// as it was.
pub proof fn lemma_still_window_never_moves(
    previous: Option<Sample>,
    window: isize,
    frame: Frame,
    first: u64,
    later: u64,
)
    requires
        previous matches Some(sample) ==> sample.window != window,
        SETTLE_DURATION <= first <= later,
    ensures
        !moving_after(Some(next_sample(previous, window, frame, first)), window, frame, later),
        next_sample(Some(next_sample(previous, window, frame, first)), window, frame, later)
            == next_sample(previous, window, frame, first),
{
}

} // verus!
