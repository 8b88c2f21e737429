//! The input-gesture state machine for the tracked buttons.
//!
//! Power and Menu each have an independent tracker.  A press records the
//! timestamp and arms a deferred feedback action; the release measures the
//! held time against the long-press threshold and fires exactly one of the
//! two gestures, always clearing the press and cancelling the deferred
//! action if it has not fired yet.

use vstd::prelude::*;

verus! {

/// Held time in milliseconds at which a press becomes a long press.
pub const LONG_PRESS_MS: u64 = 500;

/// The gesture fired by a release.
#[derive(Clone, Copy, Debug, PartialEq, Eq, Structural)]
pub enum Gesture {
    /// Released before the threshold (Power: toggle sleep; Menu: switcher).
    Short,
    /// Held at least the threshold (Power: shut down; Menu: main menu).
    Long,
}

/// Tracker for one button: an optional press timestamp and whether the
/// deferred feedback action armed by the press is still pending.
#[derive(Clone, Copy, Debug, PartialEq, Eq, Structural)]
pub struct GestureTracker {
    pub pressed_at: Option<u64>,
    pub feedback_pending: bool,
}

impl GestureTracker {
    /// The state after a press at `now`.
    pub open spec fn spec_press(s: GestureTracker, now: u64) -> GestureTracker {
        GestureTracker { pressed_at: Some(now), feedback_pending: true }
    }

    /// The state after a release at `now`, with the gesture it fires (none
    /// when no press was tracked) and whether a still-pending deferred
    /// action must be cancelled.
    pub open spec fn spec_release(s: GestureTracker, now: u64) -> (
        GestureTracker,
        Option<Gesture>,
        bool,
    ) {
        match s.pressed_at {
            None => (s, None, false),
            Some(t) => {
                let gesture = if now - t >= LONG_PRESS_MS {
                    Gesture::Long
                } else {
                    Gesture::Short
                };
                (
                    GestureTracker { pressed_at: None, feedback_pending: false },
                    Some(gesture),
                    s.feedback_pending,
                )
            },
        }
    }

    /// An idle tracker.
    pub fn new() -> (r: GestureTracker)
        ensures
            r.pressed_at is None,
            !r.feedback_pending,
    {
        GestureTracker { pressed_at: None, feedback_pending: false }
    }

    /// Records a press at `now` and arms the deferred feedback action.
    pub fn press(&mut self, now: u64)
        ensures
            *final(self) == GestureTracker::spec_press(*old(self), now),
    {
        self.pressed_at = Some(now);
        self.feedback_pending = true;
    }

    /// The deferred feedback action fired before being cancelled.
    pub fn feedback_fired(&mut self)
        ensures
            *final(self) == (GestureTracker { feedback_pending: false, ..*old(self) }),
    {
        self.feedback_pending = false;
    }

    /// Handles a release at `now`: measures the held time against the
    /// threshold and fires exactly one gesture, or none when no press was
    /// tracked.  The tracked press is always cleared, and the second result
    /// tells the caller to cancel the deferred action if still pending.
    pub fn release(&mut self, now: u64) -> (r: (Option<Gesture>, bool))
        requires
            match old(self).pressed_at {
                Some(t) => t <= now,
                None => true,
            },
        ensures
            ({
                let (s, gesture, cancel) = GestureTracker::spec_release(*old(self), now);
                &&& *final(self) == s
                &&& r.0 == gesture
                &&& r.1 == cancel
            }),
    {
        match self.pressed_at {
            None => (None, false),
            Some(t) => {
                let cancel = self.feedback_pending;
                let gesture = if now - t >= LONG_PRESS_MS {
                    Gesture::Long
                } else {
                    Gesture::Short
                };
                self.pressed_at = None;
                self.feedback_pending = false;
                (Some(gesture), cancel)
            },
        }
    }
}

/// A press released before the threshold fires exactly one short gesture
/// and no long gesture, and leaves the tracker idle with the deferred
/// action cancelled.
pub proof fn lemma_short_press(s: GestureTracker, t: u64, held: u64)
    requires
        held < LONG_PRESS_MS,
        t + held <= u64::MAX,
    ensures
        ({
            let s1 = GestureTracker::spec_press(s, t);
            let (s2, gesture, cancel) = GestureTracker::spec_release(s1, (t + held) as u64);
            &&& gesture == Some(Gesture::Short)
            &&& cancel
            &&& s2.pressed_at is None
            &&& !s2.feedback_pending
        }),
{
}

/// A press held at least the threshold fires exactly one long gesture and
/// no short gesture, and leaves the tracker idle.
pub proof fn lemma_long_press(s: GestureTracker, t: u64, held: u64)
    requires
        held >= LONG_PRESS_MS,
        t + held <= u64::MAX,
    ensures
        ({
            let s1 = GestureTracker::spec_press(s, t);
            let (s2, gesture, cancel) = GestureTracker::spec_release(s1, (t + held) as u64);
            &&& gesture == Some(Gesture::Long)
            &&& s2.pressed_at is None
            &&& !s2.feedback_pending
        }),
{
}

} // verus!
