use strafe_timer::classify::{Category, ClassifiedOutcome};
use strafe_timer::correlator::{Correlator, FinalizedResult, PendingResult};

const EARLY: ClassifiedOutcome = ClassifiedOutcome { category: Category::Early, duration_micros: 4000 };
const LATE: ClassifiedOutcome = ClassifiedOutcome { category: Category::Late, duration_micros: 9000 };

#[test]
fn second_install_replaces_first() {
    let mut c = Correlator::new();
    c.install(EARLY, 1_000);
    c.install(LATE, 2_000);
    assert_eq!(c.pending, Some(PendingResult { outcome: LATE, created_at: 2_000 }));
    assert_eq!(
        c.try_consume(52_000),
        Some(FinalizedResult { outcome: LATE, trigger_delay_millis: 50 })
    );
    assert_eq!(c.try_consume(52_001), None);
}

#[test]
fn consume_twice_returns_result_once() {
    let mut c = Correlator::new();
    c.install(EARLY, 10);
    assert_eq!(
        c.try_consume(10),
        Some(FinalizedResult { outcome: EARLY, trigger_delay_millis: 0 })
    );
    assert_eq!(c.try_consume(11), None);
    assert_eq!(c.pending, None);
}

#[test]
fn consume_at_299_ms_succeeds() {
    let t0: u128 = 1_000_000;
    let mut c = Correlator::new();
    c.install(EARLY, t0);
    assert_eq!(
        c.try_consume(t0 + 299_000),
        Some(FinalizedResult { outcome: EARLY, trigger_delay_millis: 299 })
    );
    let mut c = Correlator::new();
    c.install(EARLY, t0);
    assert_eq!(
        c.try_consume(t0 + 299_999),
        Some(FinalizedResult { outcome: EARLY, trigger_delay_millis: 299 })
    );
}

#[test]
fn consume_at_300_ms_or_later_clears() {
    let t0: u128 = 1_000_000;
    for later in [300_000u128, 300_001, 10_000_000] {
        let mut c = Correlator::new();
        c.install(EARLY, t0);
        assert_eq!(c.try_consume(t0 + later), None);
        assert_eq!(c.pending, None);
    }
}

#[test]
fn consume_with_clock_behind_stamp_keeps_pending() {
    let mut c = Correlator::new();
    c.install(EARLY, 5_000);
    assert_eq!(c.try_consume(4_999), None);
    assert_eq!(c.pending, Some(PendingResult { outcome: EARLY, created_at: 5_000 }));
}

#[test]
fn consume_on_empty_slot_gives_nothing() {
    let mut c = Correlator::new();
    assert_eq!(c.try_consume(0), None);
    assert_eq!(c.pending, None);
}

#[test]
fn sweep_clears_only_expired() {
    let mut c = Correlator::new();
    c.install(LATE, 100);
    c.sweep(299_999 + 100);
    assert_eq!(c.pending, Some(PendingResult { outcome: LATE, created_at: 100 }));
    c.sweep(50);
    assert_eq!(c.pending, Some(PendingResult { outcome: LATE, created_at: 100 }));
    c.sweep(300_000 + 100);
    assert_eq!(c.pending, None);
}

#[test]
fn clear_drops_pending() {
    let mut c = Correlator::new();
    c.install(LATE, 100);
    c.clear();
    assert_eq!(c.pending, None);
}
