//! The text of one live-display frame. Painting it to the terminal
//! once a second, and the cursor hiding around it, are I/O and live in
//! the binary around this crate.

use vstd::prelude::*;

use crate::timer::Timer;

verus! {

/// The characters of one display frame: the adapted remaining time,
/// with a paused annotation while the timer is paused.
pub open spec fn spec_display_line(t: Timer, now_ms: u64) -> Seq<char> {
    "Time remaining: "@ + t.spec_adapted_text(now_ms) + (if t.paused {
        " (PAUSED)"@
    } else {
        Seq::<char>::empty()
    })
}

/// Builds one display frame for the timer at clock reading `now_ms`.
pub fn display_line(timer: &Timer, now_ms: u64) -> (r: String)
    ensures
        r@ == spec_display_line(*timer, now_ms),
{
    let mut s = String::from_str("Time remaining: ");
    s.append(timer.remaining_str_adapted_format(now_ms).as_str());
    if timer.is_paused() {
        s.append(" (PAUSED)");
    }
    assert(s@ =~= spec_display_line(*timer, now_ms));
    s
}

} // verus!
