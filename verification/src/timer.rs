//! A pausable countdown timer over a monotonic millisecond clock.
//!
//! The timer holds no clock of its own: every operation whose outcome
//! depends on the current time takes a `now_ms` argument, a reading of a
//! monotonic clock in milliseconds. The caller supplies consecutive
//! readings; the contracts here hold for every possible reading.

use vstd::prelude::*;

use crate::text::{adapted_chars, clock_chars, format_clock, format_minutes};

verus! {

/// `a - b`, clamped at zero.
pub open spec fn sat_sub(a: u64, b: u64) -> u64 {
    if a >= b {
        (a - b) as u64
    } else {
        0
    }
}

/// Splits a number of seconds into hours, minutes and seconds.
pub open spec fn time_parts(total_secs: u64) -> (u64, u64, u64) {
    (
        (total_secs / 3600) as u64,
        ((total_secs / 60) % 60) as u64,
        (total_secs % 60) as u64,
    )
}

/// A countdown timer: a fixed duration, a start reference on the caller's
/// clock, and a pause flag. While paused, the elapsed time captured at the
/// moment of pausing is frozen in `paused_elapsed_ms`; resuming moves the
/// start reference forward so that the paused interval is excluded from
/// the countdown.
#[derive(Debug, Copy, Clone)]
pub struct Timer {
    /// Total configured duration, in milliseconds.
    pub duration_ms: u64,
    /// Clock reading the countdown is measured from.
    pub start_ms: u64,
    /// Elapsed time captured at the moment of pausing; meaningful only
    /// while `paused` is set.
    pub paused_elapsed_ms: u64,
    /// Whether the timer is paused.
    pub paused: bool,
}

impl Timer {
    /// Time spent running, as seen at clock reading `now_ms`.
    pub open spec fn spec_elapsed(self, now_ms: u64) -> u64 {
        sat_sub(now_ms, self.start_ms)
    }

    /// Remaining time at clock reading `now_ms`: the frozen value while
    /// paused, `duration - elapsed` clamped at zero while running.
    pub open spec fn spec_remaining(self, now_ms: u64) -> u64 {
        if self.paused {
            sat_sub(self.duration_ms, self.paused_elapsed_ms)
        } else {
            sat_sub(self.duration_ms, self.spec_elapsed(now_ms))
        }
    }

    /// Remaining whole seconds at clock reading `now_ms`.
    pub open spec fn spec_remaining_secs(self, now_ms: u64) -> u64 {
        (self.spec_remaining(now_ms) / 1000) as u64
    }

    /// The timer `new` returns: running, started at `now_ms`.
    pub open spec fn spec_new(duration_ms: u64, now_ms: u64) -> Timer {
        Timer { duration_ms, start_ms: now_ms, paused_elapsed_ms: 0, paused: false }
    }

    /// The timer after a pause request: a no-op while already paused.
    pub open spec fn spec_pause(self, now_ms: u64) -> Timer {
        if self.paused {
            self
        } else {
            Timer { paused_elapsed_ms: self.spec_elapsed(now_ms), paused: true, ..self }
        }
    }

    /// The timer after a resume request: a no-op while already running.
    /// The start reference is rebuilt as "now minus the time already
    /// spent", so later remaining times continue from the frozen value.
    pub open spec fn spec_resume(self, now_ms: u64) -> Timer {
        if self.paused {
            Timer { start_ms: sat_sub(now_ms, self.paused_elapsed_ms), paused: false, ..self }
        } else {
            self
        }
    }

    /// The timer after a pause toggle.
    pub open spec fn spec_toggle(self, now_ms: u64) -> Timer {
        if self.paused {
            self.spec_resume(now_ms)
        } else {
            self.spec_pause(now_ms)
        }
    }

    /// Creates a timer of `duration_ms` milliseconds, running from the
    /// clock reading `now_ms`.
    pub fn new(duration_ms: u64, now_ms: u64) -> (t: Timer)
        ensures
            t == Timer::spec_new(duration_ms, now_ms),
            t.spec_remaining(now_ms) == duration_ms,
    {
        Timer { duration_ms, start_ms: now_ms, paused_elapsed_ms: 0, paused: false }
    }

    /// Remaining time in milliseconds at clock reading `now_ms`.
    pub fn remaining(&self, now_ms: u64) -> (r: u64)
        ensures
            r == self.spec_remaining(now_ms),
    {
        if self.paused {
            self.duration_ms.saturating_sub(self.paused_elapsed_ms)
        } else {
            self.duration_ms.saturating_sub(now_ms.saturating_sub(self.start_ms))
        }
    }

    /// Whether more than one second remains at clock reading `now_ms`.
    pub fn is_remaining(&self, now_ms: u64) -> (r: bool)
        ensures
            r == (self.spec_remaining(now_ms) > 1000),
    {
        self.remaining(now_ms) > 1000
    }

    /// Pauses the timer; a no-op if it is already paused. The remaining
    /// time as seen at `now_ms` is unchanged.
    pub fn pause(&mut self, now_ms: u64)
        ensures
            *final(self) == old(self).spec_pause(now_ms),
            final(self).paused,
            final(self).spec_remaining(now_ms) == old(self).spec_remaining(now_ms),
    {
        if !self.paused {
            self.paused_elapsed_ms = now_ms.saturating_sub(self.start_ms);
            self.paused = true;
        }
    }

    /// Resumes the timer; a no-op if it is already running. For clock
    /// readings that have not run backwards past the captured elapsed
    /// time, the remaining time as seen at `now_ms` is unchanged.
    pub fn resume(&mut self, now_ms: u64)
        ensures
            *final(self) == old(self).spec_resume(now_ms),
            !final(self).paused,
            now_ms >= old(self).paused_elapsed_ms ==> final(self).spec_remaining(now_ms)
                == old(self).spec_remaining(now_ms),
    {
        if self.paused {
            self.start_ms = now_ms.saturating_sub(self.paused_elapsed_ms);
            self.paused = false;
        }
    }

    /// Toggles between paused and running.
    pub fn toggle_pause(&mut self, now_ms: u64)
        ensures
            *final(self) == old(self).spec_toggle(now_ms),
            final(self).paused == !old(self).paused,
            now_ms >= old(self).paused_elapsed_ms ==> final(self).spec_remaining(now_ms)
                == old(self).spec_remaining(now_ms),
    {
        if self.paused {
            self.resume(now_ms);
        } else {
            self.pause(now_ms);
        }
    }

    /// Whether the timer is currently paused.
    pub fn is_paused(&self) -> (r: bool)
        ensures
            r == self.paused,
    {
        self.paused
    }

    /// The remaining time at `now_ms`, split into hours, minutes and
    /// seconds.
    pub fn remaining_time_parts(&self, now_ms: u64) -> (r: (u64, u64, u64))
        ensures
            r == time_parts(self.spec_remaining_secs(now_ms)),
    {
        let secs: u64 = self.remaining(now_ms) / 1000;
        (secs / 3600, (secs / 60) % 60, secs % 60)
    }

    /// The total configured duration, split into hours, minutes and
    /// seconds.
    pub fn timer_time_parts(&self) -> (r: (u64, u64, u64))
        ensures
            r == time_parts((self.duration_ms / 1000) as u64),
    {
        let secs: u64 = self.duration_ms / 1000;
        (secs / 3600, (secs / 60) % 60, secs % 60)
    }

    /// The characters of the fixed `HH:MM:SS` display at `now_ms`.
    pub open spec fn spec_fixed_text(self, now_ms: u64) -> Seq<char> {
        clock_chars(
            time_parts(self.spec_remaining_secs(now_ms)).0,
            time_parts(self.spec_remaining_secs(now_ms)).1,
            time_parts(self.spec_remaining_secs(now_ms)).2,
        )
    }

    /// The characters of the adapted display at `now_ms`.
    pub open spec fn spec_adapted_text(self, now_ms: u64) -> Seq<char> {
        adapted_chars(
            time_parts(self.spec_remaining_secs(now_ms)).0,
            time_parts(self.spec_remaining_secs(now_ms)).1,
            time_parts(self.spec_remaining_secs(now_ms)).2,
        )
    }

    /// The remaining time at `now_ms` in the fixed `HH:MM:SS` format.
    pub fn remaining_str_fixed_format(&self, now_ms: u64) -> (r: String)
        ensures
            r@ == self.spec_fixed_text(now_ms),
    {
        let (h, m, s) = self.remaining_time_parts(now_ms);
        format_clock(h, m, s)
    }

    /// The remaining time at `now_ms` in the adapted format: `HH:MM:SS`
    /// while hours remain, otherwise `MM:SS` with the seconds rounded
    /// down ever more finely as the end approaches.
    pub fn remaining_str_adapted_format(&self, now_ms: u64) -> (r: String)
        ensures
            r@ == self.spec_adapted_text(now_ms),
    {
        let (h, m, s) = self.remaining_time_parts(now_ms);
        if h >= 1 {
            format_clock(h, m, s)
        } else if m >= 1 {
            format_minutes(m, s - s % 30)
        } else if s >= 10 {
            format_minutes(m, s - s % 10)
        } else {
            format_minutes(0, s)
        }
    }
}

/// The remaining time never leaves `[0, duration]`.
pub proof fn lemma_remaining_in_range(t: Timer, now_ms: u64)
    ensures
        t.spec_remaining(now_ms) <= t.duration_ms,
{
}

/// Once the full duration has elapsed on a running timer, the remaining
/// time is zero and stays zero at every later clock reading.
pub proof fn lemma_expired_stays_zero(t: Timer, t1: u64, t2: u64)
    requires
        !t.paused,
        t1 >= t.start_ms + t.duration_ms,
        t2 >= t1,
    ensures
        t.spec_remaining(t1) == 0,
        t.spec_remaining(t2) == 0,
{
}

/// While paused, the remaining time is frozen at the value it had at the
/// moment of pausing, whatever the clock later reads.
pub proof fn lemma_pause_freezes(t: Timer, tp: u64, now_ms: u64)
    ensures
        t.spec_pause(tp).spec_remaining(now_ms) == t.spec_remaining(tp),
{
}

/// Toggling a running timer twice — pausing at `tp`, resuming at `tr` —
/// leaves it running, and from the moment of resume its countdown
/// continues exactly where it stopped: `d` milliseconds after the resume
/// it shows what the untouched timer would have shown `d` milliseconds
/// after the pause. The wall-clock interval spent paused is excluded.
pub proof fn lemma_toggle_toggle_resumes_countdown(t: Timer, tp: u64, tr: u64, d: u64)
    requires
        !t.paused,
        t.start_ms <= tp <= tr,
        tp + d <= u64::MAX,
        tr + d <= u64::MAX,
    ensures
        !t.spec_toggle(tp).spec_toggle(tr).paused,
        t.spec_toggle(tp).spec_toggle(tr).duration_ms == t.duration_ms,
        t.spec_toggle(tp).spec_toggle(tr).spec_remaining((tr + d) as u64) == t.spec_remaining(
            (tp + d) as u64,
        ),
{
}

} // verus!
