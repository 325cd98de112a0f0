use strafe_timer::classify::{Category, ClassifiedOutcome};
use strafe_timer::correlator::PendingResult;
use strafe_timer::engine::{Engine, KeySnapshot, Notification, StrafeReport};
use strafe_timer::layout::KeyboardLayout;
use strafe_timer::timer::Channel;

fn keys() -> KeySnapshot {
    KeySnapshot {
        a: false,
        q: false,
        d: false,
        left_arrow: false,
        right_arrow: false,
        num1: false,
        num2: false,
        num3: false,
        num4: false,
        num5: false,
        z: false,
        x: false,
        c: false,
        v: false,
        mouse_left: false,
    }
}

fn left_right(left: bool, right: bool) -> KeySnapshot {
    KeySnapshot { a: left, d: right, ..keys() }
}

fn strafe(category: Category, duration_micros: u128, delay: Option<u128>) -> Notification {
    Notification::Strafe(StrafeReport {
        outcome: ClassifiedOutcome { category, duration_micros },
        trigger_delay_millis: delay,
    })
}

#[test]
fn gap_then_overlap_scenario() {
    let mut e = Engine::new(KeyboardLayout::Primary, false, true);
    let t0: u128 = 1_000_000;
    assert_eq!(e.tick(left_right(false, true), t0 - 100_000), vec![Notification::Pressed(Channel::Right)]);
    assert_eq!(e.tick(left_right(false, false), t0), vec![Notification::Released(Channel::Right)]);
    assert_eq!(
        e.tick(left_right(true, false), t0 + 1000),
        vec![Notification::Pressed(Channel::Left), strafe(Category::Perfect, 0, None)]
    );
    assert_eq!(e.tick(left_right(true, true), t0 + 50_000), vec![Notification::Pressed(Channel::Right)]);
    assert_eq!(e.overlap_start, Some(t0 + 50_000));
    assert_eq!(
        e.tick(left_right(false, true), t0 + 60_000),
        vec![Notification::Released(Channel::Left), strafe(Category::Late, 10_000, None)]
    );
    assert_eq!(e.overlap_start, None);
}

#[test]
fn early_gap_reports_duration() {
    let mut e = Engine::new(KeyboardLayout::Primary, false, true);
    e.tick(left_right(true, false), 0);
    e.tick(left_right(false, false), 10_000);
    assert_eq!(
        e.tick(left_right(false, true), 10_000 + 1600),
        vec![Notification::Pressed(Channel::Right), strafe(Category::Early, 1600, None)]
    );
}

#[test]
fn stale_gap_reports_nothing() {
    let mut e = Engine::new(KeyboardLayout::Primary, false, true);
    e.tick(left_right(true, false), 0);
    e.tick(left_right(false, false), 10_000);
    assert_eq!(
        e.tick(left_right(false, true), 10_000 + 200_000),
        vec![Notification::Pressed(Channel::Right)]
    );
    assert_eq!(e.left.last_released_at, None);
}

#[test]
fn long_overlap_reports_nothing() {
    let mut e = Engine::new(KeyboardLayout::Primary, false, true);
    e.tick(left_right(true, true), 0);
    assert_eq!(
        e.tick(left_right(true, false), 200_000),
        vec![Notification::Released(Channel::Right)]
    );
    assert_eq!(e.overlap_start, None);
}

#[test]
fn steady_inputs_for_a_thousand_ticks_report_nothing() {
    let mut e = Engine::new(KeyboardLayout::Primary, false, true);
    e.tick(left_right(true, false), 0);
    for i in 1..=1000u128 {
        assert_eq!(e.tick(left_right(true, false), i * 1000), vec![]);
    }
    assert!(e.left.pressed);
    assert!(!e.right.pressed);
}

#[test]
fn alternate_layout_uses_q_for_left() {
    let mut e = Engine::new(KeyboardLayout::Alternate, false, true);
    assert_eq!(e.tick(KeySnapshot { a: true, ..keys() }, 0), vec![]);
    assert_eq!(e.tick(KeySnapshot { q: true, ..keys() }, 1000), vec![Notification::Pressed(Channel::Left)]);
    let mut e = Engine::new(KeyboardLayout::Primary, false, true);
    assert_eq!(e.tick(KeySnapshot { q: true, ..keys() }, 0), vec![]);
    assert_eq!(
        e.tick(KeySnapshot { left_arrow: true, ..keys() }, 1000),
        vec![Notification::Pressed(Channel::Left)]
    );
}

#[test]
fn arrow_keys_drive_right_channel() {
    let mut e = Engine::new(KeyboardLayout::Primary, false, true);
    assert_eq!(
        e.tick(KeySnapshot { right_arrow: true, ..keys() }, 0),
        vec![Notification::Pressed(Channel::Right)]
    );
    assert_eq!(
        e.tick(KeySnapshot { d: true, ..keys() }, 1000),
        vec![]
    );
    assert_eq!(e.tick(keys(), 2000), vec![Notification::Released(Channel::Right)]);
}

#[test]
fn correlated_result_waits_for_trigger() {
    let mut e = Engine::new(KeyboardLayout::Primary, true, true);
    e.tick(left_right(true, false), 0);
    e.tick(left_right(false, false), 10_000);
    assert_eq!(e.tick(left_right(false, true), 15_000), vec![Notification::Pressed(Channel::Right)]);
    assert_eq!(
        e.correlator.pending,
        Some(PendingResult {
            outcome: ClassifiedOutcome { category: Category::Early, duration_micros: 5000 },
            created_at: 15_000,
        })
    );
    let fire = KeySnapshot { d: true, mouse_left: true, ..keys() };
    assert_eq!(e.tick(fire, 15_000 + 120_500), vec![strafe(Category::Early, 5000, Some(120))]);
    assert_eq!(e.correlator.pending, None);
    assert_eq!(e.tick(left_right(false, true), 140_000), vec![]);
    assert_eq!(e.tick(fire, 141_000), vec![]);
}

#[test]
fn held_trigger_fires_once() {
    let mut e = Engine::new(KeyboardLayout::Primary, true, true);
    let fire = KeySnapshot { mouse_left: true, ..keys() };
    e.tick(fire, 0);
    e.tick(left_right(true, false), 1000);
    e.tick(left_right(false, false), 2000);
    e.tick(KeySnapshot { d: true, mouse_left: true, ..keys() }, 3000);
    assert!(e.correlator.pending.is_some());
    assert_eq!(e.tick(KeySnapshot { d: true, mouse_left: true, ..keys() }, 4000), vec![]);
    assert!(e.correlator.pending.is_some());
}

#[test]
fn expired_result_is_swept_without_trigger() {
    let mut e = Engine::new(KeyboardLayout::Primary, true, true);
    e.tick(left_right(true, false), 0);
    e.tick(left_right(false, false), 10_000);
    e.tick(left_right(false, true), 11_000);
    assert!(e.correlator.pending.is_some());
    e.tick(left_right(false, true), 11_000 + 299_999);
    assert!(e.correlator.pending.is_some());
    e.tick(left_right(false, true), 11_000 + 300_000);
    assert_eq!(e.correlator.pending, None);
    let fire = KeySnapshot { d: true, mouse_left: true, ..keys() };
    assert_eq!(e.tick(fire, 11_000 + 300_001), vec![]);
}

#[test]
fn inactive_trigger_context_drops_results() {
    let mut e = Engine::new(KeyboardLayout::Primary, true, false);
    e.tick(left_right(true, false), 0);
    e.tick(left_right(false, false), 10_000);
    assert_eq!(e.tick(left_right(false, true), 11_000), vec![Notification::Pressed(Channel::Right)]);
    assert_eq!(e.correlator.pending, None);
}

#[test]
fn context_keys_toggle_trigger_context() {
    let mut e = Engine::new(KeyboardLayout::Primary, true, true);
    e.tick(KeySnapshot { z: true, ..keys() }, 0);
    assert!(!e.trigger_context_active);
    e.tick(KeySnapshot { num2: true, ..keys() }, 1000);
    assert!(e.trigger_context_active);
    e.tick(KeySnapshot { num1: true, num4: true, ..keys() }, 2000);
    assert!(!e.trigger_context_active);
    e.tick(keys(), 3000);
    assert!(!e.trigger_context_active);
    e.tick(KeySnapshot { q: true, ..keys() }, 4000);
    assert!(e.trigger_context_active);
}

#[test]
fn disabling_correlation_clears_pending() {
    let mut e = Engine::new(KeyboardLayout::Primary, true, true);
    e.tick(left_right(true, false), 0);
    e.tick(left_right(false, false), 10_000);
    e.tick(left_right(false, true), 11_000);
    assert!(e.correlator.pending.is_some());
    e.set_correlation_enabled(false);
    assert!(!e.correlation_enabled);
    assert_eq!(e.correlator.pending, None);
    e.set_correlation_enabled(true);
    assert!(e.correlation_enabled);
    e.set_trigger_context_active(false);
    assert!(!e.trigger_context_active);
}

#[test]
fn emission_routing_follows_gate() {
    let o = ClassifiedOutcome { category: Category::Late, duration_micros: 3 };
    let mut out = Vec::new();
    let mut e = Engine::new(KeyboardLayout::Primary, false, true);
    e.handle_strafe_emission(o, 9, &mut out);
    assert_eq!(out, vec![strafe(Category::Late, 3, None)]);
    let mut out = Vec::new();
    let mut e = Engine::new(KeyboardLayout::Primary, true, true);
    e.handle_strafe_emission(o, 9, &mut out);
    assert!(out.is_empty());
    assert_eq!(e.correlator.pending, Some(PendingResult { outcome: o, created_at: 9 }));
    let mut e = Engine::new(KeyboardLayout::Primary, true, false);
    e.handle_strafe_emission(o, 9, &mut out);
    assert!(out.is_empty());
    assert_eq!(e.correlator.pending, None);
}

#[test]
fn clock_behind_release_stamp_measures_nothing() {
    let mut e = Engine::new(KeyboardLayout::Primary, false, true);
    e.tick(left_right(true, false), 0);
    e.tick(left_right(false, false), 10_000);
    assert_eq!(e.tick(left_right(false, true), 9_000), vec![Notification::Pressed(Channel::Right)]);
    assert_eq!(e.left.last_released_at, Some(10_000));
}
