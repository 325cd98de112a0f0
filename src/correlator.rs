use vstd::prelude::*;
use crate::classify::ClassifiedOutcome;

verus! {

/// How long, in microseconds, a classification stays eligible for a trigger press.
pub const VALIDITY_WINDOW_MICROS: u128 = 300_000;

/// A classification waiting for a trigger press, stamped with the tick (in
/// microseconds of a monotonic clock) at which it was produced.
#[derive(Clone, Copy, Debug, PartialEq, Eq, Structural)]
pub struct PendingResult {
    pub outcome: ClassifiedOutcome,
    pub created_at: u128,
}

/// A classification matched with a trigger press, and how many whole
/// milliseconds after the classification the press came.
#[derive(Clone, Copy, Debug, PartialEq, Eq, Structural)]
pub struct FinalizedResult {
    pub outcome: ClassifiedOutcome,
    pub trigger_delay_millis: u128,
}

/// The single slot that holds at most one pending classification.
#[derive(Clone, Copy, Debug, PartialEq, Eq, Structural)]
pub struct Correlator {
    pub pending: Option<PendingResult>,
}

/// Whether a result stamped `created_at` is still eligible at `now`.
pub open spec fn fresh(created_at: u128, now: u128) -> bool {
    created_at <= now && now - created_at < VALIDITY_WINDOW_MICROS
}

/// Whether a result stamped `created_at` has outlived the window at `now`.
/// A clock reading earlier than the stamp is neither fresh nor expired.
pub open spec fn expired(created_at: u128, now: u128) -> bool {
    created_at <= now && now - created_at >= VALIDITY_WINDOW_MICROS
}

/// The slot after a classification produced at `now` is installed.
pub open spec fn install_spec(c: Correlator, outcome: ClassifiedOutcome, now: u128) -> Correlator {
    Correlator { pending: Some(PendingResult { outcome, created_at: now }) }
}

/// The slot and the result after a trigger press at `now`.
pub open spec fn consume_spec(c: Correlator, now: u128) -> (Correlator, Option<FinalizedResult>) {
    match c.pending {
        None => (c, None),
        Some(p) => if fresh(p.created_at, now) {
            (
                Correlator { pending: None },
                Some(FinalizedResult {
                    outcome: p.outcome,
                    trigger_delay_millis: ((now - p.created_at) / 1000) as u128,
                }),
            )
        } else if expired(p.created_at, now) {
            (Correlator { pending: None }, None)
        } else {
            (c, None)
        },
    }
}

/// The slot after the expiry sweep at `now`.
pub open spec fn sweep_spec(c: Correlator, now: u128) -> Correlator {
    match c.pending {
        Some(p) => if expired(p.created_at, now) {
            Correlator { pending: None }
        } else {
            c
        },
        None => c,
    }
}

impl Correlator {
    /// An empty slot.
    pub fn new() -> (r: Correlator)
        ensures
            r.pending is None,
    {
        Correlator { pending: None }
    }

    /// Replaces whatever is pending by `outcome`, stamped `now`.
    pub fn install(&mut self, outcome: ClassifiedOutcome, now: u128)
        ensures
            *final(self) == install_spec(*old(self), outcome, now),
            final(self).pending == Some(PendingResult { outcome, created_at: now }),
    {
        self.pending = Some(PendingResult { outcome, created_at: now });
    }

    /// Matches the pending classification with a trigger press at `now`.
    ///
    /// A fresh pending result is removed and returned with its delay; an
    /// expired one is removed silently. A clock reading earlier than the
    /// stamp leaves the slot as it was.
    pub fn try_consume(&mut self, now: u128) -> (r: Option<FinalizedResult>)
        ensures
            (*final(self), r) == consume_spec(*old(self), now),
            r is Some <==> (old(self).pending is Some && fresh(old(self).pending->0.created_at, now)),
            r is Some ==> r->0 == (FinalizedResult {
                outcome: old(self).pending->0.outcome,
                trigger_delay_millis: ((now - old(self).pending->0.created_at) / 1000) as u128,
            }),
            r is Some ==> final(self).pending is None,
    {
        match self.pending {
            None => None,
            Some(p) => {
                if p.created_at <= now && now - p.created_at < VALIDITY_WINDOW_MICROS {
                    self.pending = None;
                    Some(FinalizedResult {
                        outcome: p.outcome,
                        trigger_delay_millis: (now - p.created_at) / 1000,
                    })
                } else if p.created_at <= now {
                    self.pending = None;
                    None
                } else {
                    None
                }
            },
        }
    }

    /// Clears a pending classification that has outlived the window at `now`.
    pub fn sweep(&mut self, now: u128)
        ensures
            *final(self) == sweep_spec(*old(self), now),
    {
        if let Some(p) = self.pending {
            if p.created_at <= now && now - p.created_at >= VALIDITY_WINDOW_MICROS {
                self.pending = None;
            }
        }
    }

    /// Drops whatever is pending.
    pub fn clear(&mut self)
        ensures
            final(self).pending is None,
    {
        self.pending = None;
    }
}

/// A second install discards the first: only the later classification can
/// be consumed, whatever the clock reads at the trigger press.
pub proof fn lemma_install_overwrites(
    c: Correlator,
    first: ClassifiedOutcome,
    t1: u128,
    second: ClassifiedOutcome,
    t2: u128,
)
    ensures
        install_spec(install_spec(c, first, t1), second, t2) == install_spec(c, second, t2),
        install_spec(install_spec(c, first, t1), second, t2).pending
            == Some(PendingResult { outcome: second, created_at: t2 }),
{
}

/// After one install, two trigger presses in a row consume the result at
/// most once: the second press finds the slot empty.
pub proof fn lemma_consume_at_most_once(
    c: Correlator,
    outcome: ClassifiedOutcome,
    t0: u128,
    t1: u128,
    t2: u128,
)
    requires
        t0 <= t1,
    ensures
        ({
            let (c1, r1) = consume_spec(install_spec(c, outcome, t0), t1);
            let (c2, r2) = consume_spec(c1, t2);
            &&& (r1 is Some <==> t1 - t0 < VALIDITY_WINDOW_MICROS)
            &&& r2 is None
            &&& c2.pending is None
        }),
{
}

/// A classification installed at `t0` is consumed anywhere in the 299th
/// millisecond after `t0` with a delay of 299 ms; a press at `t0` plus 300 ms or later gets nothing and
/// empties the slot.
pub proof fn lemma_validity_window(c: Correlator, outcome: ClassifiedOutcome, t0: u128, t: u128)
    requires
        t0 <= t,
    ensures
        299_000 <= t - t0 < 300_000 ==> consume_spec(install_spec(c, outcome, t0), t)
            == (Correlator { pending: None }, Some(FinalizedResult { outcome, trigger_delay_millis: 299 })),
        t - t0 >= 300_000 ==> consume_spec(install_spec(c, outcome, t0), t)
            == (Correlator { pending: None }, None::<FinalizedResult>),
{
}

} // verus!
