use wired_home::debounce::PushStep;
use wired_home::light::PwmLedDirection;
use wired_home::{
    join_outcome, next_pending, state_from_button, ButtonState, Channel, ConnectionConsistent,
    ConnectionInterrupting, DebounceStep, Debouncer, Either, Event, JoinEvent, JoinHandler,
    PairProbe, PushClassifier, PushState, PwmChannel, PwmLed, PwmLedEvent, SinglePwmLedInput,
};

use ButtonState::{High, Low};

/// A source whose initial element is handed out once.
struct Once<T>(Option<T>);

impl<T> Event for Once<T> {
    type Data = T;
    fn initial(&mut self) -> Option<T> {
        self.0.take()
    }
}

/// A source with no initial element.
struct Quiet;

impl Event for Quiet {
    type Data = ButtonState;
    fn initial(&mut self) -> Option<ButtonState> {
        None
    }
}

/// Feeds reads to a debouncer until it reports a change; returns the change
/// and how many reads it took, with the steps asked for on the way.
fn feed(d: &mut Debouncer, reads: &[ButtonState]) -> (Option<ButtonState>, usize, Vec<DebounceStep>) {
    let mut steps = Vec::new();
    for (i, &r) in reads.iter().enumerate() {
        let s = d.on_read(r);
        steps.push(s);
        if let DebounceStep::Changed(v) = s {
            return (Some(v), i + 1, steps);
        }
    }
    (None, reads.len(), steps)
}

#[test]
fn probe_accepts_agreeing_pair() {
    let mut p = PairProbe::new();
    assert_eq!(p.settle(Low), Err(DebounceStep::WaitWindow));
    assert_eq!(p.settle(Low), Ok(Low));
    assert_eq!(p.first, None);
}

#[test]
fn probe_retries_disagreeing_pair_at_once() {
    let mut p = PairProbe::new();
    assert_eq!(p.settle(Low), Err(DebounceStep::WaitWindow));
    assert_eq!(p.settle(High), Err(DebounceStep::ReadNow));
    assert_eq!(p.settle(High), Err(DebounceStep::WaitWindow));
    assert_eq!(p.settle(High), Ok(High));
}

#[test]
fn debounce_reports_change_seen_before_edge_wait() {
    let mut d = Debouncer::new(High);
    let (v, n, steps) = feed(&mut d, &[Low, Low]);
    assert_eq!(v, Some(Low));
    assert_eq!(n, 2);
    assert_eq!(steps, vec![DebounceStep::WaitWindow, DebounceStep::Changed(Low)]);
    assert_eq!(d.get(), Low);
}

#[test]
fn debounce_waits_for_edge_when_level_unchanged() {
    let mut d = Debouncer::new(High);
    let (v, _, steps) = feed(&mut d, &[High, High, Low, Low]);
    assert_eq!(v, Some(Low));
    assert_eq!(
        steps,
        vec![
            DebounceStep::WaitWindow,
            DebounceStep::WaitEdge,
            DebounceStep::WaitWindow,
            DebounceStep::Changed(Low)
        ]
    );
}

#[test]
fn debounce_rejects_bounce_back_after_edge() {
    let mut d = Debouncer::new(High);
    // Stable High, edge, a bounce that settles back High: no report, start over.
    let (v, _, steps) = feed(&mut d, &[High, High, High, High]);
    assert_eq!(v, None);
    assert_eq!(
        steps,
        vec![
            DebounceStep::WaitWindow,
            DebounceStep::WaitEdge,
            DebounceStep::WaitWindow,
            DebounceStep::ReadNow
        ]
    );
    assert_eq!(d.get(), High);
    let (v, _, _) = feed(&mut d, &[Low, Low]);
    assert_eq!(v, Some(Low));
}

#[test]
fn debounce_restart_drops_half_taken_probe() {
    let mut d = Debouncer::new(High);
    assert_eq!(d.on_read(Low), DebounceStep::WaitWindow);
    d.restart();
    assert_eq!(d.get(), High);
    assert_eq!(d, Debouncer::new(High));
    assert_eq!(d.on_read(Low), DebounceStep::WaitWindow);
}

#[test]
fn debounce_never_reports_on_disagreeing_reads() {
    let mut d = Debouncer::new(High);
    let (v, _, _) = feed(&mut d, &[Low, High, Low, High, High, Low]);
    assert_eq!(v, None);
    assert_eq!(d.get(), High);
}

#[test]
fn debounce_changes_alternate() {
    let mut d = Debouncer::new(High);
    let reads = [Low, Low, Low, Low, High, Low, High, High, High, High, Low, Low];
    let mut rest: &[ButtonState] = &reads;
    let mut reported = vec![];
    loop {
        let (v, n, _) = feed(&mut d, rest);
        rest = &rest[n..];
        match v {
            Some(v) => reported.push(v),
            None => break,
        }
    }
    assert_eq!(reported, vec![Low, High, Low]);
    for w in reported.windows(2) {
        assert_ne!(w[0], w[1]);
    }
}

#[test]
fn button_state_conversions() {
    assert!(bool::from(Low));
    assert!(!bool::from(High));
    assert_eq!(state_from_button(Low), PushState::On);
    assert_eq!(state_from_button(High), PushState::Off);
}

#[test]
fn press_short_tap_is_pushed_then_idle() {
    let gap_ms = 300u64;
    let mut c = PushClassifier::new(High);
    assert_eq!(c.state, PushState::Off);
    assert_eq!(c.on_change(Low), PushStep::RaceGap);
    // Released after 100 ms: the release wins the race against the gap.
    assert!(PushClassifier::is_release(High));
    let released_at = 100u64;
    let outcome = if released_at < gap_ms { Either::First(()) } else { Either::Second(()) };
    assert_eq!(c.on_race(outcome), PushState::Pushed);
    assert_eq!(c.state, PushState::Off);
}

#[test]
fn press_long_hold_is_on_then_idle_on_release() {
    let gap_ms = 300u64;
    let mut c = PushClassifier::new(High);
    assert_eq!(c.on_change(Low), PushStep::RaceGap);
    // Held for 400 ms: the gap runs out at 300 ms first.
    let released_at = 400u64;
    let outcome = if released_at < gap_ms { Either::First(()) } else { Either::Second(()) };
    assert_eq!(c.on_race(outcome), PushState::On);
    assert_eq!(c.state, PushState::On);
    assert_eq!(c.on_change(High), PushStep::Emit(PushState::Off));
    assert_eq!(c.state, PushState::Off);
}

#[test]
fn press_ignores_changes_that_cross_no_boundary() {
    let mut c = PushClassifier::new(Low);
    assert_eq!(c.state, PushState::On);
    assert_eq!(c.on_change(Low), PushStep::Ignore);
    assert!(!PushClassifier::is_release(Low));
    let mut idle = PushClassifier::new(High);
    assert_eq!(idle.on_change(High), PushStep::Ignore);
    assert_eq!(idle.state, PushState::Off);
}

#[test]
fn channel_sets() {
    let a = Channel::single(PwmChannel::Ch3);
    let b = Channel::single(PwmChannel::Ch1);
    let u = a.or(b);
    assert_eq!(u.members(), vec![PwmChannel::Ch1, PwmChannel::Ch3]);
    assert_eq!(u.first_channel(), PwmChannel::Ch1);
    assert!(u.contains(a) && u.contains(b));
    assert!(!a.contains(u));
    assert!(u.has(PwmChannel::Ch3) && !u.has(PwmChannel::Ch2));
    assert!(Channel::none().is_none());
    assert!(!u.is_none());
    assert_eq!(Channel::none().members(), vec![]);
}

#[test]
fn fade_event_conversions() {
    assert_eq!(PwmLedEvent::from(PushState::On), PwmLedEvent::Hold(true));
    assert_eq!(PwmLedEvent::from(PushState::Off), PwmLedEvent::Hold(false));
    assert_eq!(PwmLedEvent::from(PushState::Pushed), PwmLedEvent::Switched);
    assert_eq!(PwmLedEvent::from(Low), PwmLedEvent::OnOf(true));
    assert_eq!(PwmLedEvent::from(false), PwmLedEvent::OnOf(false));
    assert_eq!(PwmLedEvent::default(), PwmLedEvent::Switched);
    assert!(bool::from(PwmLedDirection::from(true)));
    assert_eq!(PwmLedDirection::default(), PwmLedDirection::On);
}

#[test]
fn upd_duty_saturates() {
    let mut p = PwmLed::new(100, 2_000_000);
    assert_eq!(p.upd_duty(5, PwmChannel::Ch2), 5);
    assert_eq!(p.upd_duty(-2, PwmChannel::Ch2), 3);
    assert_eq!(p.upd_duty(-10, PwmChannel::Ch2), 0);
    assert_eq!(p.upd_duty(95, PwmChannel::Ch2), 95);
    assert_eq!(p.upd_duty(4, PwmChannel::Ch2), 99);
    assert_eq!(p.upd_duty(1, PwmChannel::Ch2), 99);
    assert_eq!(p.upd_duty(i16::MAX, PwmChannel::Ch2), 99);
    assert_eq!(p.upd_duty(i16::MIN, PwmChannel::Ch2), 0);
    assert_eq!(p.upd_duty(0, PwmChannel::Ch2), 0);
    assert_eq!(p.duty(PwmChannel::Ch1), 0);
}

#[test]
fn fade_toggle_rises_from_zero_to_top() {
    let ch = Channel::single(PwmChannel::Ch1);
    let mut p = PwmLed::new(100, 2_000_000);
    // The initial direction is "on", so the first toggle falls: already at 0.
    let f = p.handle((PwmLedEvent::Switched, ch)).unwrap();
    assert!(!f.on);
    assert!(p.fade_done(&f));
    let f = p.handle((PwmLedEvent::Switched, ch)).unwrap();
    assert!(f.on);
    assert_eq!(f.limit, 99);
    assert_eq!(f.interval_us, 20_000);
    let mut seen = vec![p.duty(PwmChannel::Ch1)];
    while !p.fade_done(&f) {
        p.fade_step(&f);
        seen.push(p.duty(PwmChannel::Ch1));
    }
    assert_eq!(seen, (0..=99).collect::<Vec<u16>>());
    // Further steps hold the top duty.
    p.fade_step(&f);
    assert_eq!(p.duty(PwmChannel::Ch1), 99);
}

#[test]
fn fade_group_takes_lowest_channel_state() {
    let mut p = PwmLed::new(10, 1_000_000);
    p.upd_duty(4, PwmChannel::Ch2);
    p.upd_duty(9, PwmChannel::Ch4);
    let group = Channel::single(PwmChannel::Ch2).or(Channel::single(PwmChannel::Ch4));
    let f = p.on_onof(group, false).unwrap();
    assert_eq!(f.interval_us, 100_000);
    assert_eq!(f.limit, 0);
    assert_eq!(p.duty(PwmChannel::Ch2), 4);
    assert_eq!(p.duty(PwmChannel::Ch4), 4);
    assert_eq!(p.get_channel(PwmChannel::Ch4).last_direction, PwmLedDirection::Off);
    let mut steps = 0;
    while !p.fade_done(&f) {
        p.fade_step(&f);
        steps += 1;
        assert_eq!(p.duty(PwmChannel::Ch2), p.duty(PwmChannel::Ch4));
    }
    assert_eq!(steps, 4);
    assert_eq!(p.duty(PwmChannel::Ch1), 0);
    assert!(p.on_onof(Channel::none(), true).is_none());
}

#[test]
fn fade_hold_release_does_nothing() {
    let ch = Channel::single(PwmChannel::Ch3);
    let mut p = PwmLed::new(100, 2_000_000);
    p.upd_duty(50, PwmChannel::Ch3);
    assert!(p.handle((PwmLedEvent::Hold(false), ch)).is_none());
    assert_eq!(p.duty(PwmChannel::Ch3), 50);
    let f = p.handle((PwmLedEvent::Hold(true), ch)).unwrap();
    assert!(!f.on);
    let f2 = p.handle((PwmLedEvent::OnOf(false), ch)).unwrap();
    assert!(f2.on);
}

#[test]
fn interrupted_fade_keeps_last_duty() {
    let ch = Channel::single(PwmChannel::Ch1);
    let mut p = PwmLed::new(100, 2_000_000);
    p.handle((PwmLedEvent::Switched, ch));
    let f = p.handle((PwmLedEvent::Switched, ch)).unwrap();
    for _ in 0..10 {
        p.fade_step(&f);
    }
    // A new element arrives before the ramp is done: the ramp is abandoned.
    let pending = next_pending(Either::First((PwmLedEvent::Switched, ch)));
    assert_eq!(pending, Some((PwmLedEvent::Switched, ch)));
    assert_eq!(p.duty(PwmChannel::Ch1), 10);
    let g = p.handle(pending.unwrap()).unwrap();
    assert!(!g.on);
    assert_eq!(p.duty(PwmChannel::Ch1), 10);
    p.fade_step(&g);
    assert_eq!(p.duty(PwmChannel::Ch1), 9);
}

#[test]
fn handler_finishing_first_leaves_nothing_pending() {
    assert_eq!(next_pending::<u8>(Either::Second(())), None);
    assert_eq!(next_pending::<u8>(Either::First(7)), Some(7));
}

#[test]
fn join_event_takes_the_earlier_source() {
    // Source B resolves at 5 ms, before source A at 10 ms.
    let a_at = 10u64;
    let b_at = 5u64;
    let a = PwmLedEvent::Switched;
    let b = Low;
    let outcome = if a_at <= b_at { Either::First(a) } else { Either::Second(b) };
    assert_eq!(join_outcome::<PwmLedEvent, ButtonState>(outcome), PwmLedEvent::OnOf(true));
    assert_eq!(join_outcome::<PwmLedEvent, ButtonState>(Either::First(a)), a);
}

#[test]
fn join_event_initial_prefers_first_source() {
    let mut j = JoinEvent::new(Once(Some(PwmLedEvent::Switched)), Once(Some(Low)));
    assert_eq!(j.initial(), Some(PwmLedEvent::Switched));
    // Both sources were asked once: the second's element is not kept back.
    assert_eq!(j.initial(), None);
    let mut k = JoinEvent::new(Once::<PwmLedEvent>(None), Once(Some(High)));
    assert_eq!(k.initial(), Some(PwmLedEvent::OnOf(false)));
}

#[test]
fn repeated_initial_on_one_shot_sources_is_none() {
    let mut j = JoinEvent::new(Once::<PwmLedEvent>(None), Once(Some(Low)));
    assert_eq!(j.initial(), Some(PwmLedEvent::OnOf(true)));
    assert_eq!(j.initial(), None);
    let ch = Channel::single(PwmChannel::Ch4);
    let mut s = SinglePwmLedInput::new(Once(Some(High)), ch);
    assert_eq!(s.initial(), Some((PwmLedEvent::OnOf(false), ch)));
    assert_eq!(s.initial(), None);
}

#[test]
fn repeated_initial_is_none() {
    let mut j = JoinEvent::new(Once::<PwmLedEvent>(None), Quiet);
    assert_eq!(j.initial(), None);
    assert_eq!(j.initial(), None);
    let mut q = Quiet;
    assert_eq!(q.initial(), None);
    assert_eq!(q.initial(), None);
}

#[test]
fn single_input_tags_with_its_channels() {
    let ch = Channel::single(PwmChannel::Ch2);
    let mut s = SinglePwmLedInput::new(Once(Some(PushState::Pushed)), ch);
    assert_eq!(s.initial(), Some((PwmLedEvent::Switched, ch)));
    assert_eq!(s.initial(), None);
    assert_eq!(s.tag(PushState::On), (PwmLedEvent::Hold(true), ch));
}

#[test]
fn connections_own_their_parts() {
    let c = ConnectionConsistent::new(Quiet, 3u8);
    assert_eq!(c.handler, 3);
    let i = ConnectionInterrupting::new(Quiet, 4u8);
    assert_eq!(i.handler, 4);
    let h = JoinHandler::new(1u8, 2u8);
    assert_eq!((h.ev1, h.ev2), (1, 2));
}
