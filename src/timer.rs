use vstd::prelude::*;
use crate::classify::{classify, classify_spec, ClassifiedOutcome, IntervalKind};

verus! {

/// One of the two opposed movement directions.
#[derive(Clone, Copy, Debug, PartialEq, Eq, Structural)]
pub enum Channel {
    Left,
    Right,
}

/// The bookkeeping of one movement channel.
#[derive(Clone, Copy, Debug, PartialEq, Eq, Structural)]
pub struct ChannelState {
    pub pressed: bool,
    /// When the channel was last released, until the other channel's next
    /// press has measured the gap from it.
    pub last_released_at: Option<u128>,
}

/// Measures a gap of `elapsed_micros` from a release to the other channel's
/// press, and forgets the release.
pub fn eval_understrafe(elapsed_micros: u128, released_time: &mut Option<u128>) -> (r: Option<
    ClassifiedOutcome,
>)
    ensures
        r == classify_spec(IntervalKind::Gap, elapsed_micros),
        *final(released_time) is None,
{
    *released_time = None;
    classify(IntervalKind::Gap, elapsed_micros)
}

/// Measures an overlap of `elapsed_micros` that has just ended, and closes the
/// overlap window.
pub fn eval_overstrafe(elapsed_micros: u128, both_pressed_time: &mut Option<u128>) -> (r: Option<
    ClassifiedOutcome,
>)
    ensures
        r == classify_spec(IntervalKind::Overlap, elapsed_micros),
        *final(both_pressed_time) is None,
{
    *both_pressed_time = None;
    classify(IntervalKind::Overlap, elapsed_micros)
}

} // verus!
