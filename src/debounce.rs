//! Debouncing of a digital input line and classification of presses.
//!
//! The types here make every decision of the debounce and press algorithms;
//! the caller performs the waits (the quiet window, the edge interrupt, the
//! hold-gap timer) and hands each observation back in.
use vstd::prelude::*;

use crate::event::Either;

verus! {

/// A stable level of an input line: `Low` is the asserted level.
#[derive(PartialEq, Eq, Structural, Clone, Copy, Debug)]
pub enum ButtonState {
    High,
    Low,
}

impl From<ButtonState> for bool {
    fn from(st: ButtonState) -> (r: bool)
        ensures
            r == (st == ButtonState::Low),
    {
        st == ButtonState::Low
    }
}

impl vstd::std_specs::convert::FromSpecImpl<ButtonState> for bool {
    open spec fn obeys_from_spec() -> bool {
        true
    }

    open spec fn from_spec(st: ButtonState) -> bool {
        st == ButtonState::Low
    }
}

/// What the caller does after handing a raw read to a [`PairProbe`] or a
/// [`Debouncer`].
#[derive(PartialEq, Eq, Structural, Clone, Copy, Debug)]
pub enum DebounceStep {
    /// Wait for the debounce window, then read the line again.
    WaitWindow,
    /// Read the line again at once.
    ReadNow,
    /// Wait for an edge on the line, then read it again.
    WaitEdge,
    /// The stable level changed to this value.
    Changed(ButtonState),
}

/// A two-read probe: a level is stable when two reads separated by the
/// debounce window agree.
#[derive(PartialEq, Eq, Structural, Clone, Copy, Debug)]
pub struct PairProbe {
    pub first: Option<ButtonState>,
}

impl PairProbe {
    pub fn new() -> (r: PairProbe)
        ensures
            r.first is None,
    {
        PairProbe { first: None }
    }

    /// Feeds one raw read. The first read of a pair asks for the window to
    /// pass; the second either yields the stable level (both agree) or asks
    /// for a fresh pair at once.
    pub fn on_read(&mut self, raw: ButtonState) -> (r: Option<DebounceStep>)
        ensures
            match old(self).first {
                None => final(self).first == Some(raw) && r == Some(DebounceStep::WaitWindow),
                Some(f) => final(self).first is None && (if f == raw {
                    r is None
                } else {
                    r == Some(DebounceStep::ReadNow)
                }),
            },
    {
        match self.first {
            None => {
                self.first = Some(raw);
                Some(DebounceStep::WaitWindow)
            },
            Some(f) => {
                self.first = None;
                if f == raw {
                    None
                } else {
                    Some(DebounceStep::ReadNow)
                }
            },
        }
    }

    /// Feeds one raw read and reports the stable level once a pair agrees.
    pub fn settle(&mut self, raw: ButtonState) -> (r: Result<ButtonState, DebounceStep>)
        ensures
            match old(self).first {
                None => final(self).first == Some(raw) && r == Err::<ButtonState, DebounceStep>(
                    DebounceStep::WaitWindow,
                ),
                Some(f) => final(self).first is None && (if f == raw {
                    r == Ok::<ButtonState, DebounceStep>(raw)
                } else {
                    r == Err::<ButtonState, DebounceStep>(DebounceStep::ReadNow)
                }),
            },
    {
        match self.on_read(raw) {
            None => Ok(raw),
            Some(step) => Err(step),
        }
    }
}

/// The decisions of "wait for the next stable change" on a debounced line.
///
/// `state` is the stable level last reported; `anchor` is the sample taken
/// before the last edge wait, which the sample after the edge is compared to.
#[derive(PartialEq, Eq, Structural, Clone, Copy, Debug)]
pub struct Debouncer {
    pub state: ButtonState,
    pub probe: PairProbe,
    pub anchor: Option<ButtonState>,
}

impl Debouncer {
    /// The sample held across an edge wait equals the stored level: it was
    /// only kept because it did not differ from it.
    pub open spec fn wf(self) -> bool {
        match self.anchor {
            Some(a) => a == self.state,
            None => true,
        }
    }

    /// One transition of the machine on a raw read: the next machine and
    /// what the caller does next.
    pub open spec fn step(self, raw: ButtonState) -> (Debouncer, DebounceStep) {
        match self.probe.first {
            None => (
                Debouncer { probe: PairProbe { first: Some(raw) }, ..self },
                DebounceStep::WaitWindow,
            ),
            Some(f) => if f != raw {
                (Debouncer { probe: PairProbe { first: None }, ..self }, DebounceStep::ReadNow)
            } else {
                match self.anchor {
                    None => if raw != self.state {
                        (
                            Debouncer { state: raw, probe: PairProbe { first: None }, anchor: None },
                            DebounceStep::Changed(raw),
                        )
                    } else {
                        (
                            Debouncer {
                                probe: PairProbe { first: None },
                                anchor: Some(raw),
                                ..self
                            },
                            DebounceStep::WaitEdge,
                        )
                    },
                    Some(a) => if raw != a {
                        (
                            Debouncer { state: raw, probe: PairProbe { first: None }, anchor: None },
                            DebounceStep::Changed(raw),
                        )
                    } else {
                        (
                            Debouncer { probe: PairProbe { first: None }, anchor: None, ..self },
                            DebounceStep::ReadNow,
                        )
                    },
                }
            },
        }
    }

    /// A machine whose stable level is `state`, found by an earlier probe.
    pub fn new(state: ButtonState) -> (r: Debouncer)
        ensures
            r.wf(),
            r.state == state,
            r.probe.first is None,
            r.anchor is None,
    {
        Debouncer { state, probe: PairProbe::new(), anchor: None }
    }

    /// Forgets a probe or edge wait left half done (by a caller that gave
    /// up waiting), keeping the stable level.
    pub fn restart(&mut self)
        ensures
            final(self).wf(),
            final(self).state == old(self).state,
            final(self).probe.first is None,
            final(self).anchor is None,
    {
        self.probe = PairProbe::new();
        self.anchor = None;
    }

    /// The stable level last reported.
    pub fn get(&self) -> (r: ButtonState)
        ensures
            r == self.state,
    {
        self.state
    }

    /// Feeds one raw read of the line.
    ///
    /// A change is reported only when this read and the one before it (taken
    /// one debounce window earlier) agree, and only with a level other than
    /// the one reported before.
    pub fn on_read(&mut self, raw: ButtonState) -> (r: DebounceStep)
        requires
            old(self).wf(),
        ensures
            final(self).wf(),
            (*final(self), r) == old(self).step(raw),
            r is Changed ==> old(self).probe.first == Some(raw) && r->Changed_0 == raw
                && raw != old(self).state && final(self).state == raw,
            !(r is Changed) ==> final(self).state == old(self).state,
    {
        match self.probe.settle(raw) {
            Err(step) => step,
            Ok(sample) => match self.anchor {
                None => {
                    if sample != self.state {
                        self.state = sample;
                        DebounceStep::Changed(sample)
                    } else {
                        self.anchor = Some(sample);
                        DebounceStep::WaitEdge
                    }
                },
                Some(a) => {
                    self.anchor = None;
                    if sample != a {
                        self.state = sample;
                        DebounceStep::Changed(sample)
                    } else {
                        DebounceStep::ReadNow
                    }
                },
            },
        }
    }
}

/// The press model: `Off` idle, `Pushed` a short tap, `On` held.
#[derive(PartialEq, Eq, Structural, Clone, Copy, Debug)]
pub enum PushState {
    Off,
    Pushed,
    On,
}

/// The press level of a stable line level: asserted (`Low`) is `On`.
pub open spec fn push_of(btn: ButtonState) -> PushState {
    match btn {
        ButtonState::High => PushState::Off,
        ButtonState::Low => PushState::On,
    }
}

pub fn state_from_button(btn: ButtonState) -> (r: PushState)
    ensures
        r == push_of(btn),
{
    match btn {
        ButtonState::High => PushState::Off,
        ButtonState::Low => PushState::On,
    }
}

/// What the caller does after handing a stable change to a [`PushClassifier`].
#[derive(PartialEq, Eq, Structural, Clone, Copy, Debug)]
pub enum PushStep {
    /// The change crossed no press boundary: wait for the next change.
    Ignore,
    /// Report this press state.
    Emit(PushState),
    /// Race a release (see [`PushClassifier::is_release`]) against the hold gap,
    /// and hand the outcome to [`PushClassifier::on_race`].
    RaceGap,
}

/// The decisions that classify stable changes into presses.
#[derive(PartialEq, Eq, Structural, Clone, Copy, Debug)]
pub struct PushClassifier {
    pub state: PushState,
}

impl PushClassifier {
    /// The stored state is a level, never the transient tap.
    pub open spec fn wf(self) -> bool {
        self.state != PushState::Pushed
    }

    /// Starts from the current stable level, with no wait.
    pub fn new(btn: ButtonState) -> (r: PushClassifier)
        ensures
            r.wf(),
            r.state == push_of(btn),
    {
        PushClassifier { state: state_from_button(btn) }
    }

    /// Handles the next stable change of the line.
    pub fn on_change(&mut self, btn: ButtonState) -> (r: PushStep)
        requires
            old(self).wf(),
        ensures
            final(self).wf(),
            push_of(btn) == old(self).state ==> r == PushStep::Ignore && *final(self) == *old(self),
            push_of(btn) != old(self).state && btn == ButtonState::High ==> r == PushStep::Emit(
                PushState::Off,
            ) && final(self).state == PushState::Off,
            push_of(btn) != old(self).state && btn == ButtonState::Low ==> r == PushStep::RaceGap
                && old(self).state == PushState::Off && *final(self) == *old(self),
    {
        let b = state_from_button(btn);
        if self.state == b {
            PushStep::Ignore
        } else if b == PushState::Off {
            self.state = PushState::Off;
            PushStep::Emit(PushState::Off)
        } else {
            PushStep::RaceGap
        }
    }

    /// While racing the hold gap: whether this stable change is the release
    /// that ends the race.
    pub fn is_release(btn: ButtonState) -> (r: bool)
        ensures
            r == (btn == ButtonState::High),
    {
        state_from_button(btn) == PushState::Off
    }

    /// Settles a race: a release before the gap is a tap and leaves the
    /// classifier idle; the gap running out first is a hold.
    pub fn on_race(&mut self, outcome: Either<(), ()>) -> (r: PushState)
        ensures
            final(self).wf(),
            outcome is First ==> r == PushState::Pushed && final(self).state == PushState::Off,
            outcome is Second ==> r == PushState::On && final(self).state == PushState::On,
    {
        match outcome {
            Either::First(_) => {
                self.state = PushState::Off;
                PushState::Pushed
            },
            Either::Second(_) => {
                self.state = PushState::On;
                self.state
            },
        }
    }
}

/// The machine after the first `i` reads of `reads`.
pub open spec fn after_reads(d: Debouncer, reads: Seq<ButtonState>, i: nat) -> Debouncer
    decreases i,
{
    if i == 0 {
        d
    } else {
        after_reads(d, reads, (i - 1) as nat).step(reads[i - 1]).0
    }
}

/// What the caller is told after read `i` of `reads`.
pub open spec fn report_at(d: Debouncer, reads: Seq<ButtonState>, i: nat) -> DebounceStep {
    after_reads(d, reads, i).step(reads[i as int]).1
}

proof fn lemma_after_reads_wf(d: Debouncer, reads: Seq<ButtonState>, i: nat)
    requires
        d.wf(),
        d.probe.first is None,
        i <= reads.len(),
    ensures
        after_reads(d, reads, i).wf(),
        after_reads(d, reads, i).probe.first is Some ==> i >= 1 && after_reads(
            d,
            reads,
            i,
        ).probe.first == Some(reads[i - 1]),
    decreases i,
{
    if i > 0 {
        lemma_after_reads_wf(d, reads, (i - 1) as nat);
    }
}

/// Over any sequence of raw reads fed to a machine that starts between
/// probes: a change is reported only at a read that agrees with the read
/// just before it (the two reads of one probe, a debounce window apart),
/// with that read's level, and only when that level differs from the level
/// reported before (the starting level, or the last change reported); the
/// stored level moves only when a change is reported.
pub proof fn lemma_debounce_stability(d: Debouncer, reads: Seq<ButtonState>)
    requires
        d.wf(),
        d.probe.first is None,
    ensures
        forall|i: nat|
            #![trigger report_at(d, reads, i)]
            i < reads.len() && report_at(d, reads, i) is Changed ==> i >= 1 && reads[i - 1]
                == reads[i as int] && report_at(d, reads, i)->Changed_0 == reads[i as int]
                && reads[i as int] != after_reads(d, reads, i).state && after_reads(
                d,
                reads,
                i + 1,
            ).state == reads[i as int],
        forall|i: nat|
            #![trigger report_at(d, reads, i)]
            i < reads.len() && !(report_at(d, reads, i) is Changed) ==> after_reads(
                d,
                reads,
                i + 1,
            ).state == after_reads(d, reads, i).state,
{
    assert forall|i: nat|
        #![trigger report_at(d, reads, i)]
        i < reads.len() implies (report_at(d, reads, i) is Changed ==> i >= 1 && reads[i - 1]
            == reads[i as int] && report_at(d, reads, i)->Changed_0 == reads[i as int]
            && reads[i as int] != after_reads(d, reads, i).state && after_reads(
            d,
            reads,
            i + 1,
        ).state == reads[i as int]) && (!(report_at(d, reads, i) is Changed) ==> after_reads(
            d,
            reads,
            i + 1,
        ).state == after_reads(d, reads, i).state) by {
        lemma_after_reads_wf(d, reads, i);
        assert(after_reads(d, reads, i + 1) == after_reads(d, reads, i).step(reads[i as int]).0);
    }
}

} // verus!
