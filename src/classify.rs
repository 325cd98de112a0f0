use vstd::prelude::*;

verus! {

/// A gap shorter than this many microseconds counts as a perfect change of direction.
pub const PERFECT_LIMIT_MICROS: u128 = 1600;

/// A gap of this many microseconds or more is unrelated to the next press.
pub const GAP_CEILING_MICROS: u128 = 200_000;

/// An overlap of this many microseconds or more is not reported.
///
/// Two thresholds were in use for overlaps (200 ms and 300 ms); this engine
/// uses 200 ms, the same ceiling as for gaps.
pub const LATE_CEILING_MICROS: u128 = 200_000;

/// What was measured: the time between one channel's release and the other
/// channel's press, or the time both channels were held together.
#[derive(Clone, Copy, Debug, PartialEq, Eq, Structural)]
pub enum IntervalKind {
    Gap,
    Overlap,
}

/// The named quality of a measured interval.
#[derive(Clone, Copy, Debug, PartialEq, Eq, Structural)]
pub enum Category {
    Perfect,
    Early,
    Late,
}

/// A classified interval. A perfect gap carries a duration of zero.
#[derive(Clone, Copy, Debug, PartialEq, Eq, Structural)]
pub struct ClassifiedOutcome {
    pub category: Category,
    pub duration_micros: u128,
}

impl Category {
    /// The name under which the category is reported.
    pub fn name(&self) -> (r: &'static str)
        ensures
            *self == Category::Perfect ==> r@ == "Perfect"@,
            *self == Category::Early ==> r@ == "Early"@,
            *self == Category::Late ==> r@ == "Late"@,
    {
        proof {
            reveal_strlit("Perfect");
            reveal_strlit("Early");
            reveal_strlit("Late");
        }
        match self {
            Category::Perfect => "Perfect",
            Category::Early => "Early",
            Category::Late => "Late",
        }
    }
}

/// The outcome that `classify` gives for an interval of `d` microseconds.
pub open spec fn classify_spec(kind: IntervalKind, d: u128) -> Option<ClassifiedOutcome> {
    match kind {
        IntervalKind::Gap => if d < PERFECT_LIMIT_MICROS {
            Some(ClassifiedOutcome { category: Category::Perfect, duration_micros: 0 })
        } else if d < GAP_CEILING_MICROS {
            Some(ClassifiedOutcome { category: Category::Early, duration_micros: d })
        } else {
            None
        },
        IntervalKind::Overlap => if d < LATE_CEILING_MICROS {
            Some(ClassifiedOutcome { category: Category::Late, duration_micros: d })
        } else {
            None
        },
    }
}

/// Classifies an interval of `duration_micros` microseconds against the fixed thresholds.
pub fn classify(kind: IntervalKind, duration_micros: u128) -> (r: Option<ClassifiedOutcome>)
    ensures
        r == classify_spec(kind, duration_micros),
        kind == IntervalKind::Gap ==> {
            &&& (r == Some(ClassifiedOutcome { category: Category::Perfect, duration_micros: 0 })
                <==> duration_micros < 1600)
            &&& (r == Some(ClassifiedOutcome { category: Category::Early, duration_micros })
                <==> 1600 <= duration_micros < 200_000)
            &&& (r is None <==> duration_micros >= 200_000)
        },
        kind == IntervalKind::Overlap ==> {
            &&& (r == Some(ClassifiedOutcome { category: Category::Late, duration_micros })
                <==> duration_micros < LATE_CEILING_MICROS)
            &&& (r is None <==> duration_micros >= LATE_CEILING_MICROS)
        },
{
    match kind {
        IntervalKind::Gap => {
            if duration_micros < PERFECT_LIMIT_MICROS {
                Some(ClassifiedOutcome { category: Category::Perfect, duration_micros: 0 })
            } else if duration_micros < GAP_CEILING_MICROS {
                Some(ClassifiedOutcome { category: Category::Early, duration_micros })
            } else {
                None
            }
        },
        IntervalKind::Overlap => {
            if duration_micros < LATE_CEILING_MICROS {
                Some(ClassifiedOutcome { category: Category::Late, duration_micros })
            } else {
                None
            }
        },
    }
}

} // verus!
