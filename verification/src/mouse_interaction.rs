//! Timing rules of mouse clicks: what counts as a click and what as a double click.
//! Points in time are given as nanoseconds since the application started.
use vstd::prelude::*;

verus! {

/// The maximum delay between two clicks for them to count as a double click, in milliseconds.
pub const DOUBLE_CLICK_TIME: u128 = 300;

/// The maximum duration a mouse button may be held for the press to count as a click, in
/// milliseconds.
pub const CLICK_TIME: u128 = 100;

/// Nanoseconds per millisecond.
pub const NANOS_PER_MILLI: u128 = 1_000_000;

/// The whole milliseconds between two points in time.
pub open spec fn elapsed_millis(from_nanos: u128, to_nanos: u128) -> int {
    (to_nanos - from_nanos) / (NANOS_PER_MILLI as int)
}

/// Whether a press that started at `start_nanos` and ends at `current_nanos` is a click.
pub fn counts_as_click(start_nanos: u128, current_nanos: u128) -> (b: bool)
    requires
        start_nanos <= current_nanos,
    ensures
        b == (elapsed_millis(start_nanos, current_nanos) < CLICK_TIME),
{
    (current_nanos - start_nanos) / NANOS_PER_MILLI < CLICK_TIME
}

/// The mouse interaction that ended last.
#[derive(PartialEq, Eq, Structural, Copy, Clone, Debug)]
pub struct LastMouseInteraction {
    pub counts_as_click: bool,
    pub click_end_nanos: u128,
}

impl LastMouseInteraction {
    /// Records an interaction that started at `start_nanos` and ended at `click_end_nanos`.
    pub fn from(start_nanos: u128, click_end_nanos: u128) -> (l: Self)
        requires
            start_nanos <= click_end_nanos,
        ensures
            l.counts_as_click == (elapsed_millis(start_nanos, click_end_nanos) < CLICK_TIME),
            l.click_end_nanos == click_end_nanos,
    {
        LastMouseInteraction {
            counts_as_click: counts_as_click(start_nanos, click_end_nanos),
            click_end_nanos,
        }
    }
}

/// Whether a press at `now_nanos` completes a double click: the last interaction was a click
/// that ended less than [DOUBLE_CLICK_TIME] milliseconds ago.
pub fn is_double_click(now_nanos: u128, last_mouse_interaction: Option<LastMouseInteraction>) -> (b:
    bool)
    requires
        match last_mouse_interaction {
            Some(l) => l.counts_as_click ==> l.click_end_nanos <= now_nanos,
            None => true,
        },
    ensures
        b == match last_mouse_interaction {
            Some(l) => l.counts_as_click && elapsed_millis(l.click_end_nanos, now_nanos)
                < DOUBLE_CLICK_TIME,
            None => false,
        },
{
    match last_mouse_interaction {
        Some(l) => l.counts_as_click && (now_nanos - l.click_end_nanos) / NANOS_PER_MILLI
            < DOUBLE_CLICK_TIME,
        None => false,
    }
}

/// The elapsed milliseconds are the whole milliseconds that fit between the two points in
/// time: a press counts as a click exactly when it was released before [CLICK_TIME]
/// milliseconds had passed.
pub proof fn law_elapsed_millis(from_nanos: u128, to_nanos: u128)
    requires
        from_nanos <= to_nanos,
    ensures
        elapsed_millis(from_nanos, to_nanos) * 1_000_000 <= to_nanos - from_nanos,
        to_nanos - from_nanos < (elapsed_millis(from_nanos, to_nanos) + 1) * 1_000_000,
        elapsed_millis(from_nanos, to_nanos) < CLICK_TIME <==> to_nanos - from_nanos < CLICK_TIME
            * 1_000_000,
{
    let d: int = to_nanos - from_nanos;
    let q: int = d / 1_000_000;
    assert(q * 1_000_000 <= d && d < (q + 1) * 1_000_000) by (nonlinear_arith)
        requires
            d >= 0,
            q == d / 1_000_000,
    ;
    assert(q < 100 <==> d < 100_000_000) by (nonlinear_arith)
        requires
            q * 1_000_000 <= d && d < (q + 1) * 1_000_000,
    ;
}

} // verus!
