use vstd::prelude::*;
use crate::classify::{classify_spec, ClassifiedOutcome, IntervalKind};
use crate::correlator::{consume_spec, expired, install_spec, sweep_spec, Correlator};
use crate::edge::{detect_edge, edge_spec, Edge};
use crate::layout::KeyboardLayout;
use crate::timer::{eval_overstrafe, eval_understrafe, Channel, ChannelState};

verus! {

/// The held state of every physical input that the engine reads, sampled
/// once per tick.
#[derive(Clone, Copy, Debug, PartialEq, Eq, Structural)]
pub struct KeySnapshot {
    pub a: bool,
    pub q: bool,
    pub d: bool,
    pub left_arrow: bool,
    pub right_arrow: bool,
    pub num1: bool,
    pub num2: bool,
    pub num3: bool,
    pub num4: bool,
    pub num5: bool,
    pub z: bool,
    pub x: bool,
    pub c: bool,
    pub v: bool,
    /// The trigger input (the primary mouse button).
    pub mouse_left: bool,
}

/// A classification as reported to the display layer, with the trigger delay
/// when it was matched with a trigger press.
#[derive(Clone, Copy, Debug, PartialEq, Eq, Structural)]
pub struct StrafeReport {
    pub outcome: ClassifiedOutcome,
    pub trigger_delay_millis: Option<u128>,
}

/// What the engine asks the display layer to show.
#[derive(Clone, Copy, Debug, PartialEq, Eq, Structural)]
pub enum Notification {
    Pressed(Channel),
    Released(Channel),
    Strafe(StrafeReport),
}

/// The whole state of the timing engine, advanced once per tick.
#[derive(Clone, Copy, Debug, PartialEq, Eq, Structural)]
pub struct Engine {
    pub layout: KeyboardLayout,
    /// Whether classifications wait for a trigger press before they are reported.
    pub correlation_enabled: bool,
    /// Whether a trigger press is meaningful at the moment.
    pub trigger_context_active: bool,
    pub left: ChannelState,
    pub right: ChannelState,
    /// When both channels became held together, until the overlap is measured.
    pub overlap_start: Option<u128>,
    /// The trigger input as read on the previous tick.
    pub trigger_held: bool,
    pub correlator: Correlator,
}

/// Whether the left channel is held under `layout`.
pub open spec fn left_held(layout: KeyboardLayout, k: KeySnapshot) -> bool {
    (match layout {
        KeyboardLayout::Primary => k.a,
        KeyboardLayout::Alternate => k.q,
    }) || k.left_arrow
}

/// Whether the right channel is held.
pub open spec fn right_held(k: KeySnapshot) -> bool {
    k.d || k.right_arrow
}

/// Whether a key that makes the trigger meaningful is held.
pub open spec fn activate_held(k: KeySnapshot) -> bool {
    k.num1 || k.num2 || k.q
}

/// Whether a key that makes the trigger meaningless is held.
pub open spec fn deactivate_held(k: KeySnapshot) -> bool {
    k.num3 || k.num4 || k.num5 || k.z || k.x || k.c || k.v
}

/// The opposite movement channel.
pub open spec fn other(ch: Channel) -> Channel {
    match ch {
        Channel::Left => Channel::Right,
        Channel::Right => Channel::Left,
    }
}

/// The bookkeeping of channel `ch`.
pub open spec fn channel_of(e: Engine, ch: Channel) -> ChannelState {
    match ch {
        Channel::Left => e.left,
        Channel::Right => e.right,
    }
}

/// `e` with the bookkeeping of channel `ch` replaced by `s`.
pub open spec fn with_channel(e: Engine, ch: Channel, s: ChannelState) -> Engine {
    match ch {
        Channel::Left => Engine { left: s, ..e },
        Channel::Right => Engine { right: s, ..e },
    }
}

/// A step of the engine: the new state and the notifications so far.
pub type Step = (Engine, Seq<Notification>);

/// What happens to a fresh classification: reported at once when correlation
/// is off, held for a trigger press when the trigger is meaningful, dropped
/// otherwise.
pub open spec fn route_spec(e: Engine, out: Seq<Notification>, o: ClassifiedOutcome, now: u128) -> Step {
    if !e.correlation_enabled {
        (e, out.push(Notification::Strafe(StrafeReport { outcome: o, trigger_delay_millis: None })))
    } else if e.trigger_context_active {
        (Engine { correlator: install_spec(e.correlator, o, now), ..e }, out)
    } else {
        (e, out)
    }
}

/// Routes a classification if there is one.
pub open spec fn route_opt_spec(
    e: Engine,
    out: Seq<Notification>,
    r: Option<ClassifiedOutcome>,
    now: u128,
) -> Step {
    match r {
        Some(o) => route_spec(e, out, o, now),
        None => (e, out),
    }
}

/// The trigger context after reading `k`: deactivating keys win over activating ones.
pub open spec fn context_spec(e: Engine, k: KeySnapshot) -> Engine {
    if deactivate_held(k) {
        Engine { trigger_context_active: false, ..e }
    } else if activate_held(k) {
        Engine { trigger_context_active: true, ..e }
    } else {
        e
    }
}

/// A trigger press consumes the pending classification when correlation is on.
pub open spec fn trigger_spec(e: Engine, out: Seq<Notification>, held: bool, now: u128) -> Step {
    let e1 = Engine { trigger_held: held, ..e };
    if edge_spec(e.trigger_held, held) == Some(Edge::Pressed) && e.correlation_enabled {
        let (c, r) = consume_spec(e.correlator, now);
        let e2 = Engine { correlator: c, ..e1 };
        match r {
            Some(f) => (
                e2,
                out.push(
                    Notification::Strafe(
                        StrafeReport {
                            outcome: f.outcome,
                            trigger_delay_millis: Some(f.trigger_delay_millis),
                        },
                    ),
                ),
            ),
            None => (e2, out),
        }
    } else {
        (e1, out)
    }
}

/// The expiry sweep: expired results go; with correlation off, everything goes.
pub open spec fn sweep_engine_spec(e: Engine, now: u128) -> Engine {
    if e.correlation_enabled {
        Engine { correlator: sweep_spec(e.correlator, now), ..e }
    } else {
        Engine { correlator: Correlator { pending: None }, ..e }
    }
}

/// A release edge on `ch`: the release time is recorded.
pub open spec fn release_spec(e: Engine, out: Seq<Notification>, ch: Channel, now: u128) -> Step {
    (
        with_channel(e, ch, ChannelState { pressed: false, last_released_at: Some(now) }),
        out.push(Notification::Released(ch)),
    )
}

/// A press edge on `ch`: the gap from the other channel's release is measured.
/// A release stamped later than `now` is kept and nothing is measured.
pub open spec fn press_spec(e: Engine, out: Seq<Notification>, ch: Channel, now: u128) -> Step {
    let e1 = with_channel(e, ch, ChannelState { pressed: true, ..channel_of(e, ch) });
    let out1 = out.push(Notification::Pressed(ch));
    let o = channel_of(e1, other(ch));
    match o.last_released_at {
        Some(t) => if t <= now {
            let e2 = with_channel(e1, other(ch), ChannelState { last_released_at: None, ..o });
            route_opt_spec(e2, out1, classify_spec(IntervalKind::Gap, (now - t) as u128), now)
        } else {
            (e1, out1)
        },
        None => (e1, out1),
    }
}

/// A release edge on `ch` if its read `held` says it went up.
pub open spec fn release_if_spec(s: Step, ch: Channel, held: bool, now: u128) -> Step {
    if edge_spec(channel_of(s.0, ch).pressed, held) == Some(Edge::Released) {
        release_spec(s.0, s.1, ch, now)
    } else {
        s
    }
}

/// A press edge on `ch` if its read `held` says it went down.
pub open spec fn press_if_spec(s: Step, ch: Channel, held: bool, now: u128) -> Step {
    if edge_spec(channel_of(s.0, ch).pressed, held) == Some(Edge::Pressed) {
        press_spec(s.0, s.1, ch, now)
    } else {
        s
    }
}

/// An overlap starts when both channels are held and none is open.
pub open spec fn overlap_start_spec(e: Engine, now: u128) -> Engine {
    if e.left.pressed && e.right.pressed && e.overlap_start is None {
        Engine { overlap_start: Some(now), ..e }
    } else {
        e
    }
}

/// An open overlap is measured once either channel is up.
/// A start stamped later than `now` is kept and nothing is measured.
pub open spec fn overlap_end_spec(e: Engine, out: Seq<Notification>, now: u128) -> Step {
    if !(e.left.pressed && e.right.pressed) && e.overlap_start is Some && e.overlap_start->0 <= now {
        let t = e.overlap_start->0;
        route_opt_spec(
            Engine { overlap_start: None, ..e },
            out,
            classify_spec(IntervalKind::Overlap, (now - t) as u128),
            now,
        )
    } else {
        (e, out)
    }
}

/// The movement channels: releases first, then presses, then the overlap window.
pub open spec fn movement_spec(e: Engine, out: Seq<Notification>, k: KeySnapshot, now: u128) -> Step {
    let l = left_held(e.layout, k);
    let r = right_held(k);
    let s1 = release_if_spec((e, out), Channel::Right, r, now);
    let s2 = release_if_spec(s1, Channel::Left, l, now);
    let s3 = press_if_spec(s2, Channel::Left, l, now);
    let s4 = press_if_spec(s3, Channel::Right, r, now);
    overlap_end_spec(overlap_start_spec(s4.0, now), s4.1, now)
}

/// One tick at time `now` (microseconds of a monotonic clock) with inputs `k`.
pub open spec fn tick_spec(e: Engine, k: KeySnapshot, now: u128) -> Step {
    let e1 = context_spec(e, k);
    let s2 = trigger_spec(e1, Seq::empty(), k.mouse_left, now);
    let e3 = sweep_engine_spec(s2.0, now);
    movement_spec(e3, s2.1, k, now)
}

/// Whether a notification reports a press or a release.
pub open spec fn is_edge_notification(n: Notification) -> bool {
    n is Pressed || n is Released
}

/// A tick whose inputs agree with the channels' recorded states reports no
/// press or release and leaves both channels' held states as they were.
pub proof fn lemma_steady_keys_emit_no_edges(e: Engine, k: KeySnapshot, now: u128)
    requires
        left_held(e.layout, k) == e.left.pressed,
        right_held(k) == e.right.pressed,
    ensures
        ({
            let (e2, out) = tick_spec(e, k, now);
            &&& e2.left.pressed == e.left.pressed
            &&& e2.right.pressed == e.right.pressed
            &&& e2.layout == e.layout
            &&& forall|i: int| 0 <= i < out.len() ==> !is_edge_notification(#[trigger] out[i])
        }),
{
    let e1 = context_spec(e, k);
    let s2 = trigger_spec(e1, Seq::empty(), k.mouse_left, now);
    let e3 = sweep_engine_spec(s2.0, now);
    let s4 = overlap_end_spec(overlap_start_spec(e3, now), s2.1, now);
    assert(s4 == tick_spec(e, k, now));
    assert forall|i: int| 0 <= i < s2.1.len() implies !is_edge_notification(#[trigger] s2.1[i]) by {}
    let o = overlap_start_spec(e3, now);
    if !(o.left.pressed && o.right.pressed) && o.overlap_start is Some && o.overlap_start->0 <= now {
        let r = classify_spec(IntervalKind::Overlap, (now - o.overlap_start->0) as u128);
        if r is Some {
            let o2 = Engine { overlap_start: None, ..o };
            if !o2.correlation_enabled {
                let n = Notification::Strafe(StrafeReport { outcome: r->0, trigger_delay_millis: None });
                assert forall|i: int| 0 <= i < s2.1.push(n).len() implies !is_edge_notification(
                    #[trigger] s2.1.push(n)[i],
                ) by {
                    if i < s2.1.len() {
                        assert(s2.1.push(n)[i] == s2.1[i]);
                    }
                }
            }
        }
    }
}

/// Ticks that keep reading the channels as they stand report no press or
/// release, however many of them run: each one leaves the held states as
/// they were, so the next one agrees with them too.
pub proof fn lemma_steady_ticks_emit_no_edges(e: Engine, keys: Seq<KeySnapshot>, times: Seq<u128>)
    requires
        keys.len() == times.len(),
        forall|i: int| 0 <= i < keys.len() ==> left_held(e.layout, #[trigger] keys[i]) == e.left.pressed
            && right_held(keys[i]) == e.right.pressed,
    ensures
        ({
            let (e2, out) = run_spec(e, keys, times);
            &&& e2.left.pressed == e.left.pressed
            &&& e2.right.pressed == e.right.pressed
            &&& e2.layout == e.layout
            &&& forall|i: int| 0 <= i < out.len() ==> !is_edge_notification(#[trigger] out[i])
        }),
    decreases keys.len(),
{
    if keys.len() > 0 {
        let (e1, out1) = tick_spec(e, keys[0], times[0]);
        lemma_steady_keys_emit_no_edges(e, keys[0], times[0]);
        assert forall|i: int| 0 <= i < keys.drop_first().len() implies left_held(
            e1.layout,
            #[trigger] keys.drop_first()[i],
        ) == e1.left.pressed && right_held(keys.drop_first()[i]) == e1.right.pressed by {
            assert(keys.drop_first()[i] == keys[i + 1]);
        }
        lemma_steady_ticks_emit_no_edges(e1, keys.drop_first(), times.drop_first());
        let (e2, out2) = run_spec(e1, keys.drop_first(), times.drop_first());
        assert forall|i: int| 0 <= i < (out1 + out2).len() implies !is_edge_notification(
            #[trigger] (out1 + out2)[i],
        ) by {
            if i < out1.len() {
                assert((out1 + out2)[i] == out1[i]);
            } else {
                assert((out1 + out2)[i] == out2[i - out1.len()]);
            }
        }
    }
}

/// A run of ticks: the state after all of them and everything they reported, in order.
pub open spec fn run_spec(e: Engine, keys: Seq<KeySnapshot>, times: Seq<u128>) -> Step
    decreases keys.len(),
{
    if keys.len() == 0 || times.len() == 0 {
        (e, Seq::empty())
    } else {
        let (e1, out1) = tick_spec(e, keys[0], times[0]);
        let (e2, out2) = run_spec(e1, keys.drop_first(), times.drop_first());
        (e2, out1 + out2)
    }
}

impl Engine {
    /// With correlation off nothing is ever pending.
    pub open spec fn wf(&self) -> bool {
        !self.correlation_enabled ==> self.correlator.pending is None
    }

    /// A fresh engine: no channel held, nothing pending.
    pub fn new(layout: KeyboardLayout, correlation_enabled: bool, trigger_context_active: bool) -> (r:
        Engine)
        ensures
            r.wf(),
            r.layout == layout,
            r.correlation_enabled == correlation_enabled,
            r.trigger_context_active == trigger_context_active,
            r.left == (ChannelState { pressed: false, last_released_at: None }),
            r.right == (ChannelState { pressed: false, last_released_at: None }),
            r.overlap_start is None,
            !r.trigger_held,
            r.correlator.pending is None,
    {
        Engine {
            layout,
            correlation_enabled,
            trigger_context_active,
            left: ChannelState { pressed: false, last_released_at: None },
            right: ChannelState { pressed: false, last_released_at: None },
            overlap_start: None,
            trigger_held: false,
            correlator: Correlator::new(),
        }
    }

    /// Turns correlation on or off; turning it off drops what is pending.
    pub fn set_correlation_enabled(&mut self, enabled: bool)
        requires
            old(self).wf(),
        ensures
            final(self).wf(),
            *final(self) == (Engine {
                correlation_enabled: enabled,
                correlator: if enabled { old(self).correlator } else { Correlator { pending: None } },
                ..*old(self)
            }),
    {
        self.correlation_enabled = enabled;
        if !enabled {
            self.correlator.clear();
        }
    }

    /// Says whether a trigger press is meaningful at the moment.
    pub fn set_trigger_context_active(&mut self, active: bool)
        ensures
            *final(self) == (Engine { trigger_context_active: active, ..*old(self) }),
    {
        self.trigger_context_active = active;
    }

    fn get_channel(&self, ch: Channel) -> (r: ChannelState)
        ensures
            r == channel_of(*self, ch),
    {
        match ch {
            Channel::Left => self.left,
            Channel::Right => self.right,
        }
    }

    fn set_channel(&mut self, ch: Channel, s: ChannelState)
        ensures
            *final(self) == with_channel(*old(self), ch, s),
    {
        match ch {
            Channel::Left => self.left = s,
            Channel::Right => self.right = s,
        }
    }

    /// Reports, holds or drops a fresh classification, according to the two mode flags.
    pub fn handle_strafe_emission(
        &mut self,
        outcome: ClassifiedOutcome,
        now: u128,
        out: &mut Vec<Notification>,
    )
        ensures
            (*final(self), final(out)@) == route_spec(*old(self), old(out)@, outcome, now),
    {
        if !self.correlation_enabled {
            out.push(Notification::Strafe(StrafeReport { outcome, trigger_delay_millis: None }));
        } else if self.trigger_context_active {
            self.correlator.install(outcome, now);
        }
    }

    fn handle_optional(&mut self, r: Option<ClassifiedOutcome>, now: u128, out: &mut Vec<Notification>)
        ensures
            (*final(self), final(out)@) == route_opt_spec(*old(self), old(out)@, r, now),
    {
        if let Some(o) = r {
            self.handle_strafe_emission(o, now, out);
        }
    }

    fn update_context(&mut self, k: KeySnapshot)
        ensures
            *final(self) == context_spec(*old(self), k),
    {
        if k.num3 || k.num4 || k.num5 || k.z || k.x || k.c || k.v {
            self.trigger_context_active = false;
        } else if k.num1 || k.num2 || k.q {
            self.trigger_context_active = true;
        }
    }

    fn handle_trigger(&mut self, held: bool, now: u128, out: &mut Vec<Notification>)
        ensures
            (*final(self), final(out)@) == trigger_spec(*old(self), old(out)@, held, now),
    {
        let edge = detect_edge(self.trigger_held, held);
        self.trigger_held = held;
        if edge == Some(Edge::Pressed) && self.correlation_enabled {
            if let Some(f) = self.correlator.try_consume(now) {
                out.push(
                    Notification::Strafe(
                        StrafeReport {
                            outcome: f.outcome,
                            trigger_delay_millis: Some(f.trigger_delay_millis),
                        },
                    ),
                );
            }
        }
    }

    fn sweep_pending(&mut self, now: u128)
        ensures
            *final(self) == sweep_engine_spec(*old(self), now),
    {
        if self.correlation_enabled {
            self.correlator.sweep(now);
        } else {
            self.correlator.clear();
        }
    }

    fn release(&mut self, ch: Channel, now: u128, out: &mut Vec<Notification>)
        ensures
            (*final(self), final(out)@) == release_spec(*old(self), old(out)@, ch, now),
    {
        self.set_channel(ch, ChannelState { pressed: false, last_released_at: Some(now) });
        out.push(Notification::Released(ch));
    }

    fn press(&mut self, ch: Channel, now: u128, out: &mut Vec<Notification>)
        ensures
            (*final(self), final(out)@) == press_spec(*old(self), old(out)@, ch, now),
    {
        let mut s = self.get_channel(ch);
        s.pressed = true;
        self.set_channel(ch, s);
        out.push(Notification::Pressed(ch));
        let oc = match ch {
            Channel::Left => Channel::Right,
            Channel::Right => Channel::Left,
        };
        let mut o = self.get_channel(oc);
        if let Some(t) = o.last_released_at {
            if t <= now {
                let r = eval_understrafe(now - t, &mut o.last_released_at);
                self.set_channel(oc, o);
                self.handle_optional(r, now, out);
            }
        }
    }

    fn release_if(&mut self, ch: Channel, held: bool, now: u128, out: &mut Vec<Notification>)
        ensures
            (*final(self), final(out)@) == release_if_spec((*old(self), old(out)@), ch, held, now),
    {
        let s = self.get_channel(ch);
        if detect_edge(s.pressed, held) == Some(Edge::Released) {
            self.release(ch, now, out);
        }
    }

    fn press_if(&mut self, ch: Channel, held: bool, now: u128, out: &mut Vec<Notification>)
        ensures
            (*final(self), final(out)@) == press_if_spec((*old(self), old(out)@), ch, held, now),
    {
        let s = self.get_channel(ch);
        if detect_edge(s.pressed, held) == Some(Edge::Pressed) {
            self.press(ch, now, out);
        }
    }

    fn close_overlap(&mut self, now: u128, out: &mut Vec<Notification>)
        ensures
            (*final(self), final(out)@) == overlap_end_spec(*old(self), old(out)@, now),
    {
        if !(self.left.pressed && self.right.pressed) {
            if let Some(t) = self.overlap_start {
                if t <= now {
                    let r = eval_overstrafe(now - t, &mut self.overlap_start);
                    self.handle_optional(r, now, out);
                }
            }
        }
    }

    fn advance_movement(&mut self, k: KeySnapshot, now: u128, out: &mut Vec<Notification>)
        ensures
            (*final(self), final(out)@) == movement_spec(*old(self), old(out)@, k, now),
    {
        let l = match self.layout {
            KeyboardLayout::Primary => k.a,
            KeyboardLayout::Alternate => k.q,
        } || k.left_arrow;
        let r = k.d || k.right_arrow;
        self.release_if(Channel::Right, r, now, out);
        self.release_if(Channel::Left, l, now, out);
        self.press_if(Channel::Left, l, now, out);
        self.press_if(Channel::Right, r, now, out);
        if self.left.pressed && self.right.pressed && self.overlap_start.is_none() {
            self.overlap_start = Some(now);
        }
        self.close_overlap(now, out);
    }

    /// Advances the engine by one tick at time `now` (microseconds of a
    /// monotonic clock) with the inputs `k`, and returns what to report, in order.
    pub fn tick(&mut self, k: KeySnapshot, now: u128) -> (r: Vec<Notification>)
        requires
            old(self).wf(),
        ensures
            final(self).wf(),
            (*final(self), r@) == tick_spec(*old(self), k, now),
            final(self).correlator.pending is Some ==> !expired(
                final(self).correlator.pending->0.created_at,
                now,
            ),
            final(self).overlap_start is Some ==> (final(self).left.pressed
                && final(self).right.pressed) || final(self).overlap_start->0 > now,
    {
        let mut out: Vec<Notification> = Vec::new();
        self.update_context(k);
        self.handle_trigger(k.mouse_left, now, &mut out);
        self.sweep_pending(now);
        self.advance_movement(k, now, &mut out);
        out
    }
}

} // verus!
