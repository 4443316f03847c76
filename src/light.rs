//! Light outputs: the commands a fade controller understands, the channel
//! sets it addresses, and the fade controller's state and ramp decisions.
use vstd::prelude::*;

use vstd::std_specs::convert::IntoSpec;

use crate::debounce::{ButtonState, PushState};
use crate::event::Event;

verus! {

/// A command to the fade controller.
#[derive(PartialEq, Eq, Structural, Clone, Copy, Debug)]
pub enum PwmLedEvent {
    OnOf(bool),
    Switched,
    Hold(bool),
}

impl Default for PwmLedEvent {
    fn default() -> (r: PwmLedEvent)
        ensures
            r == PwmLedEvent::Switched,
    {
        PwmLedEvent::Switched
    }
}

impl From<bool> for PwmLedEvent {
    fn from(on: bool) -> (r: PwmLedEvent)
        ensures
            r == PwmLedEvent::OnOf(on),
    {
        PwmLedEvent::OnOf(on)
    }
}

impl vstd::std_specs::convert::FromSpecImpl<bool> for PwmLedEvent {
    open spec fn obeys_from_spec() -> bool {
        true
    }

    open spec fn from_spec(on: bool) -> PwmLedEvent {
        PwmLedEvent::OnOf(on)
    }
}

impl From<ButtonState> for PwmLedEvent {
    fn from(st: ButtonState) -> (r: PwmLedEvent)
        ensures
            r == PwmLedEvent::OnOf(st == ButtonState::Low),
    {
        PwmLedEvent::OnOf(bool::from(st))
    }
}

impl vstd::std_specs::convert::FromSpecImpl<ButtonState> for PwmLedEvent {
    open spec fn obeys_from_spec() -> bool {
        true
    }

    open spec fn from_spec(st: ButtonState) -> PwmLedEvent {
        PwmLedEvent::OnOf(st == ButtonState::Low)
    }
}

/// A tap toggles; a hold starts a ramp and its release stops it.
pub open spec fn event_of_push(p: PushState) -> PwmLedEvent {
    match p {
        PushState::On => PwmLedEvent::Hold(true),
        PushState::Off => PwmLedEvent::Hold(false),
        PushState::Pushed => PwmLedEvent::Switched,
    }
}

impl From<PushState> for PwmLedEvent {
    fn from(p: PushState) -> (r: PwmLedEvent)
        ensures
            r == event_of_push(p),
    {
        match p {
            PushState::On => PwmLedEvent::Hold(true),
            PushState::Off => PwmLedEvent::Hold(false),
            PushState::Pushed => PwmLedEvent::Switched,
        }
    }
}

impl vstd::std_specs::convert::FromSpecImpl<PushState> for PwmLedEvent {
    open spec fn obeys_from_spec() -> bool {
        true
    }

    open spec fn from_spec(p: PushState) -> PwmLedEvent {
        event_of_push(p)
    }
}

/// One hardware PWM channel.
#[derive(PartialEq, Eq, Structural, Clone, Copy, Debug)]
pub enum PwmChannel {
    Ch1,
    Ch2,
    Ch3,
    Ch4,
}

/// A set of PWM channels, updated together as one unit.
#[derive(PartialEq, Eq, Structural, Clone, Copy, Debug)]
pub struct Channel {
    pub ch1: bool,
    pub ch2: bool,
    pub ch3: bool,
    pub ch4: bool,
}

impl Channel {
    /// The set that holds `c` alone.
    pub fn single(c: PwmChannel) -> (r: Channel)
        ensures
            forall|d: PwmChannel| r.includes(d) == (d == c),
            !r.empty(),
            r.lowest() == c,
            r.member_seq() == seq![c],
    {
        let r = Channel {
            ch1: c == PwmChannel::Ch1,
            ch2: c == PwmChannel::Ch2,
            ch3: c == PwmChannel::Ch3,
            ch4: c == PwmChannel::Ch4,
        };
        assert(r.member_seq() =~= seq![c]);
        r
    }

    pub open spec fn includes(self, c: PwmChannel) -> bool {
        match c {
            PwmChannel::Ch1 => self.ch1,
            PwmChannel::Ch2 => self.ch2,
            PwmChannel::Ch3 => self.ch3,
            PwmChannel::Ch4 => self.ch4,
        }
    }

    pub open spec fn empty(self) -> bool {
        !self.ch1 && !self.ch2 && !self.ch3 && !self.ch4
    }

    /// The members in ascending channel order.
    pub open spec fn member_seq(self) -> Seq<PwmChannel> {
        (if self.ch1 { seq![PwmChannel::Ch1] } else { seq![] }) + (if self.ch2 {
            seq![PwmChannel::Ch2]
        } else {
            seq![]
        }) + (if self.ch3 { seq![PwmChannel::Ch3] } else { seq![] }) + (if self.ch4 {
            seq![PwmChannel::Ch4]
        } else {
            seq![]
        })
    }

    /// The lowest channel of a non-empty set.
    pub open spec fn lowest(self) -> PwmChannel {
        if self.ch1 {
            PwmChannel::Ch1
        } else if self.ch2 {
            PwmChannel::Ch2
        } else if self.ch3 {
            PwmChannel::Ch3
        } else {
            PwmChannel::Ch4
        }
    }

    pub fn none() -> (r: Channel)
        ensures
            r.empty(),
    {
        Channel { ch1: false, ch2: false, ch3: false, ch4: false }
    }

    pub fn is_none(&self) -> (r: bool)
        ensures
            r == self.empty(),
    {
        !self.ch1 && !self.ch2 && !self.ch3 && !self.ch4
    }

    /// Whether every channel of `other` is in this set.
    pub fn contains(&self, other: Channel) -> (r: bool)
        ensures
            r == (forall|c: PwmChannel| other.includes(c) ==> self.includes(c)),
    {
        let r = (!other.ch1 || self.ch1) && (!other.ch2 || self.ch2) && (!other.ch3 || self.ch3)
            && (!other.ch4 || self.ch4);
        assert(r == (forall|c: PwmChannel| other.includes(c) ==> self.includes(c))) by {
            if !r {
                if other.ch1 && !self.ch1 {
                    assert(other.includes(PwmChannel::Ch1));
                } else if other.ch2 && !self.ch2 {
                    assert(other.includes(PwmChannel::Ch2));
                } else if other.ch3 && !self.ch3 {
                    assert(other.includes(PwmChannel::Ch3));
                } else {
                    assert(other.includes(PwmChannel::Ch4));
                }
            }
        }
        r
    }

    /// Whether channel `c` is in this set.
    pub fn has(&self, c: PwmChannel) -> (r: bool)
        ensures
            r == self.includes(c),
    {
        match c {
            PwmChannel::Ch1 => self.ch1,
            PwmChannel::Ch2 => self.ch2,
            PwmChannel::Ch3 => self.ch3,
            PwmChannel::Ch4 => self.ch4,
        }
    }

    /// The union of two sets.
    pub fn or(self, other: Channel) -> (r: Channel)
        ensures
            forall|c: PwmChannel| r.includes(c) == (self.includes(c) || other.includes(c)),
    {
        Channel {
            ch1: self.ch1 || other.ch1,
            ch2: self.ch2 || other.ch2,
            ch3: self.ch3 || other.ch3,
            ch4: self.ch4 || other.ch4,
        }
    }

    /// The members, in ascending channel order.
    pub fn members(&self) -> (r: Vec<PwmChannel>)
        ensures
            r@ == self.member_seq(),
    {
        let mut r: Vec<PwmChannel> = Vec::new();
        if self.ch1 {
            r.push(PwmChannel::Ch1);
        }
        if self.ch2 {
            r.push(PwmChannel::Ch2);
        }
        if self.ch3 {
            r.push(PwmChannel::Ch3);
        }
        if self.ch4 {
            r.push(PwmChannel::Ch4);
        }
        proof {
            assert(r@ =~= self.member_seq());
        }
        r
    }

    /// The lowest channel of a non-empty set: the one a group reads its
    /// shared state from.
    pub fn first_channel(&self) -> (r: PwmChannel)
        requires
            !self.empty(),
        ensures
            r == self.lowest(),
            self.includes(r),
            r == self.member_seq()[0],
    {
        if self.ch1 {
            PwmChannel::Ch1
        } else if self.ch2 {
            PwmChannel::Ch2
        } else if self.ch3 {
            PwmChannel::Ch3
        } else {
            PwmChannel::Ch4
        }
    }
}

/// The direction a channel was last commanded to ramp in.
#[derive(PartialEq, Eq, Structural, Clone, Copy, Debug)]
pub enum PwmLedDirection {
    Off,
    On,
}

impl Default for PwmLedDirection {
    fn default() -> (r: PwmLedDirection)
        ensures
            r == PwmLedDirection::On,
    {
        PwmLedDirection::On
    }
}

pub open spec fn direction_of(on: bool) -> PwmLedDirection {
    if on {
        PwmLedDirection::On
    } else {
        PwmLedDirection::Off
    }
}

impl From<bool> for PwmLedDirection {
    fn from(on: bool) -> (r: PwmLedDirection)
        ensures
            r == direction_of(on),
    {
        if on {
            PwmLedDirection::On
        } else {
            PwmLedDirection::Off
        }
    }
}

impl vstd::std_specs::convert::FromSpecImpl<bool> for PwmLedDirection {
    open spec fn obeys_from_spec() -> bool {
        true
    }

    open spec fn from_spec(on: bool) -> PwmLedDirection {
        direction_of(on)
    }
}

impl From<PwmLedDirection> for bool {
    fn from(d: PwmLedDirection) -> (r: bool)
        ensures
            r == (d == PwmLedDirection::On),
    {
        d == PwmLedDirection::On
    }
}

impl vstd::std_specs::convert::FromSpecImpl<PwmLedDirection> for bool {
    open spec fn obeys_from_spec() -> bool {
        true
    }

    open spec fn from_spec(d: PwmLedDirection) -> bool {
        d == PwmLedDirection::On
    }
}

/// The state of one channel: its duty and the direction it last ramped in.
#[derive(PartialEq, Eq, Structural, Clone, Copy, Debug)]
pub struct PwmLedChannelState {
    pub duty: u16,
    pub last_direction: PwmLedDirection,
}

impl Default for PwmLedChannelState {
    fn default() -> (r: PwmLedChannelState)
        ensures
            r.duty == 0,
            r.last_direction == PwmLedDirection::On,
    {
        PwmLedChannelState { duty: 0, last_direction: PwmLedDirection::default() }
    }
}

/// The duty after a step of `n` from `duty`: a rise stops at `max_duty - 1`,
/// a fall stops at 0.
pub open spec fn stepped(duty: int, n: int, max_duty: int) -> int {
    if n >= 0 {
        if duty + n >= max_duty {
            max_duty - 1
        } else {
            duty + n
        }
    } else {
        if duty + n < 0 {
            0
        } else {
            duty + n
        }
    }
}

/// The limit a ramp heads for: the top duty when rising, 0 when falling.
pub open spec fn limit_of(on: bool, max_duty: int) -> int {
    if on {
        max_duty - 1
    } else {
        0
    }
}

/// A ramp in progress: the channels it moves, its direction, the duty it
/// stops at, and the time between two steps.
#[derive(PartialEq, Eq, Structural, Clone, Copy, Debug)]
pub struct Fade {
    pub channels: Channel,
    pub on: bool,
    pub limit: u16,
    pub interval_us: u64,
}

/// The state of a fade controller over four PWM channels.
///
/// The caller owns the PWM peripheral: after each call that changes duties
/// it writes [`PwmLed::duty`] of each channel of the fade to it, and between
/// two steps of a fade it waits `interval_us`.
#[derive(PartialEq, Eq, Structural, Clone, Copy, Debug)]
pub struct PwmLed {
    pub max_duty: u16,
    pub warming_us: u64,
    pub ch1: PwmLedChannelState,
    pub ch2: PwmLedChannelState,
    pub ch3: PwmLedChannelState,
    pub ch4: PwmLedChannelState,
}

impl PwmLed {
    pub open spec fn chan(self, c: PwmChannel) -> PwmLedChannelState {
        match c {
            PwmChannel::Ch1 => self.ch1,
            PwmChannel::Ch2 => self.ch2,
            PwmChannel::Ch3 => self.ch3,
            PwmChannel::Ch4 => self.ch4,
        }
    }

    /// Every duty lies in `[0, max_duty - 1]`.
    pub open spec fn wf(self) -> bool {
        &&& self.max_duty >= 1
        &&& forall|c: PwmChannel| #[trigger] self.chan(c).duty < self.max_duty
    }

    /// A ramp that this controller started and can continue.
    pub open spec fn fade_wf(self, f: Fade) -> bool {
        &&& !f.channels.empty()
        &&& f.limit == limit_of(f.on, self.max_duty as int)
    }

    /// How many steps a ramp still has to go on its lowest channel.
    pub open spec fn remaining(self, f: Fade) -> int {
        let d = self.chan(f.channels.lowest()).duty as int;
        if d >= f.limit {
            d - f.limit
        } else {
            f.limit - d
        }
    }

    /// The ramp that `on_onof(ch, on)` starts.
    pub open spec fn fade_of(self, ch: Channel, on: bool) -> Fade {
        Fade {
            channels: ch,
            on,
            limit: limit_of(on, self.max_duty as int) as u16,
            interval_us: self.warming_us / self.max_duty as u64,
        }
    }

    /// The channel state after `on_onof(ch, on)`: each channel of the set
    /// takes the lowest one's duty and the new direction.
    pub open spec fn joined(self, ch: Channel, on: bool, c: PwmChannel) -> PwmLedChannelState {
        if ch.includes(c) {
            PwmLedChannelState {
                duty: self.chan(ch.lowest()).duty,
                last_direction: direction_of(on),
            }
        } else {
            self.chan(c)
        }
    }

    /// The direction a toggle of the group `ch` ramps in: the opposite of
    /// its lowest channel's last one.
    pub open spec fn toggled(self, ch: Channel) -> bool {
        self.chan(ch.lowest()).last_direction != PwmLedDirection::On
    }

    /// Channel `c` after one step of the ramp `f`.
    pub open spec fn moved(self, f: Fade, c: PwmChannel) -> PwmLedChannelState {
        if f.channels.includes(c) {
            PwmLedChannelState {
                duty: stepped(
                    self.chan(c).duty as int,
                    if f.on {
                        1int
                    } else {
                        -1int
                    },
                    self.max_duty as int,
                ) as u16,
                last_direction: self.chan(c).last_direction,
            }
        } else {
            self.chan(c)
        }
    }

    /// The controller after one step of the ramp `f`.
    pub open spec fn next_state(self, f: Fade) -> PwmLed {
        PwmLed {
            ch1: self.moved(f, PwmChannel::Ch1),
            ch2: self.moved(f, PwmChannel::Ch2),
            ch3: self.moved(f, PwmChannel::Ch3),
            ch4: self.moved(f, PwmChannel::Ch4),
            ..self
        }
    }

    /// The controller after `k` steps of the ramp `f`.
    pub open spec fn after_steps(self, f: Fade, k: nat) -> PwmLed
        decreases k,
    {
        if k == 0 {
            self
        } else {
            self.after_steps(f, (k - 1) as nat).next_state(f)
        }
    }

    /// All channels at duty 0, last ramped up.
    pub fn new(max_duty: u16, warming_us: u64) -> (r: PwmLed)
        requires
            max_duty >= 1,
        ensures
            r.wf(),
            r.max_duty == max_duty,
            r.warming_us == warming_us,
            forall|c: PwmChannel|
                #[trigger] r.chan(c) == (PwmLedChannelState {
                    duty: 0,
                    last_direction: PwmLedDirection::On,
                }),
    {
        PwmLed {
            max_duty,
            warming_us,
            ch1: PwmLedChannelState::default(),
            ch2: PwmLedChannelState::default(),
            ch3: PwmLedChannelState::default(),
            ch4: PwmLedChannelState::default(),
        }
    }

    /// The state of channel `c`.
    pub fn get_channel(&self, c: PwmChannel) -> (r: PwmLedChannelState)
        ensures
            r == self.chan(c),
    {
        match c {
            PwmChannel::Ch1 => self.ch1,
            PwmChannel::Ch2 => self.ch2,
            PwmChannel::Ch3 => self.ch3,
            PwmChannel::Ch4 => self.ch4,
        }
    }

    /// The duty of channel `c`, to be written to the PWM peripheral.
    pub fn duty(&self, c: PwmChannel) -> (r: u16)
        ensures
            r == self.chan(c).duty,
    {
        self.get_channel(c).duty
    }

    fn set_channel(&mut self, c: PwmChannel, st: PwmLedChannelState)
        ensures
            final(self).chan(c) == st,
            forall|d: PwmChannel| d != c ==> #[trigger] final(self).chan(d) == old(self).chan(d),
            final(self).max_duty == old(self).max_duty,
            final(self).warming_us == old(self).warming_us,
    {
        match c {
            PwmChannel::Ch1 => self.ch1 = st,
            PwmChannel::Ch2 => self.ch2 = st,
            PwmChannel::Ch3 => self.ch3 = st,
            PwmChannel::Ch4 => self.ch4 = st,
        }
    }

    /// Moves the duty of channel `c` by `n`, saturating at `max_duty - 1`
    /// and at 0. Returns the new duty.
    pub fn upd_duty(&mut self, n: i16, c: PwmChannel) -> (r: u16)
        requires
            old(self).max_duty >= 1,
        ensures
            r == final(self).chan(c).duty,
            r as int == stepped(old(self).chan(c).duty as int, n as int, old(self).max_duty as int),
            final(self).chan(c).last_direction == old(self).chan(c).last_direction,
            forall|d: PwmChannel| d != c ==> #[trigger] final(self).chan(d) == old(self).chan(d),
            final(self).max_duty == old(self).max_duty,
            final(self).warming_us == old(self).warming_us,
    {
        let max_duty = self.max_duty;
        let mut st = self.get_channel(c);
        let mut duty = st.duty;
        if n >= 0 {
            let mut k: u16 = n as u16;
            if k > max_duty {
                k = max_duty;
            }
            if duty >= max_duty - k {
                duty = max_duty - 1;
            } else {
                duty = duty + k;
            }
        } else {
            let k: u16 = (0 - (n as i32)) as u16;
            if duty < k {
                duty = 0;
            } else {
                duty = duty - k;
            }
        }
        st.duty = duty;
        self.set_channel(c, st);
        duty
    }

    /// Joins channel `c` to a ramp: takes the group's duty and direction.
    fn join_group(&mut self, c: PwmChannel, duty: u16, on: bool)
        requires
            old(self).wf(),
            duty < old(self).max_duty,
        ensures
            final(self).wf(),
            final(self).chan(c) == (PwmLedChannelState {
                duty,
                last_direction: direction_of(on),
            }),
            forall|d: PwmChannel| d != c ==> #[trigger] final(self).chan(d) == old(self).chan(d),
            final(self).max_duty == old(self).max_duty,
            final(self).warming_us == old(self).warming_us,
    {
        self.set_channel(c, PwmLedChannelState { duty, last_direction: PwmLedDirection::from(on) });
        self.upd_duty(0, c);
        assert forall|d: PwmChannel| #[trigger] final(self).chan(d).duty < final(self).max_duty by {
            if d != c {
                assert(old(self).chan(d).duty < old(self).max_duty);
            }
        }
    }

    /// Starts a ramp of the channels `ch` towards full duty (`on`) or 0.
    ///
    /// Every channel of the set takes the duty of the lowest one and the new
    /// direction; the ramp steps one unit every `warming_us / max_duty` microseconds.
    /// Nothing is started for an empty set.
    pub fn on_onof(&mut self, ch: Channel, on: bool) -> (r: Option<Fade>)
        requires
            old(self).wf(),
        ensures
            final(self).wf(),
            final(self).max_duty == old(self).max_duty,
            final(self).warming_us == old(self).warming_us,
            ch.empty() <==> r is None,
            ch.empty() ==> *final(self) == *old(self),
            !ch.empty() ==> r == Some(old(self).fade_of(ch, on)) && final(self).fade_wf(
                old(self).fade_of(ch, on),
            ) && forall|c: PwmChannel| #[trigger] final(self).chan(c) == old(self).joined(ch, on, c),
    {
        if ch.is_none() {
            return None;
        }
        let max_duty = self.max_duty;
        let limit: u16 = if on {
            max_duty - 1
        } else {
            0
        };
        let interval_us = self.warming_us / (max_duty as u64);
        let first = ch.first_channel();
        let duty = self.get_channel(first).duty;
        if ch.ch1 {
            self.join_group(PwmChannel::Ch1, duty, on);
        }
        if ch.ch2 {
            self.join_group(PwmChannel::Ch2, duty, on);
        }
        if ch.ch3 {
            self.join_group(PwmChannel::Ch3, duty, on);
        }
        if ch.ch4 {
            self.join_group(PwmChannel::Ch4, duty, on);
        }
        Some(Fade { channels: ch, on, limit, interval_us })
    }

    /// Whether the ramp has brought its lowest channel to its limit.
    pub fn fade_done(&self, f: &Fade) -> (r: bool)
        requires
            self.fade_wf(*f),
        ensures
            r == (self.chan(f.channels.lowest()).duty == f.limit),
            r == (self.remaining(*f) == 0),
    {
        self.duty(f.channels.first_channel()) == f.limit
    }

    /// One step of a ramp: every channel of the fade moves one unit towards
    /// the ramp's limit, saturating there.
    pub fn fade_step(&mut self, f: &Fade)
        requires
            old(self).wf(),
            old(self).fade_wf(*f),
        ensures
            final(self).wf(),
            final(self).fade_wf(*f),
            final(self).max_duty == old(self).max_duty,
            final(self).warming_us == old(self).warming_us,
            *final(self) == old(self).next_state(*f),
            old(self).remaining(*f) > 0 ==> final(self).remaining(*f) == old(self).remaining(*f)
                - 1,
            old(self).remaining(*f) == 0 ==> final(self).remaining(*f) == 0,
    {
        let n: i16 = if f.on {
            1
        } else {
            -1
        };
        let ghost start = *self;
        if f.channels.ch1 {
            self.upd_duty(n, PwmChannel::Ch1);
        }
        if f.channels.ch2 {
            self.upd_duty(n, PwmChannel::Ch2);
        }
        if f.channels.ch3 {
            self.upd_duty(n, PwmChannel::Ch3);
        }
        if f.channels.ch4 {
            self.upd_duty(n, PwmChannel::Ch4);
        }
        assert forall|c: PwmChannel| #[trigger] self.chan(c).duty < self.max_duty by {
            assert(start.chan(c).duty < start.max_duty);
        }
        let ghost low = f.channels.lowest();
        assert(start.chan(low).duty < start.max_duty);
        assert(self.chan(PwmChannel::Ch1) == start.moved(*f, PwmChannel::Ch1));
        assert(self.chan(PwmChannel::Ch2) == start.moved(*f, PwmChannel::Ch2));
        assert(self.chan(PwmChannel::Ch3) == start.moved(*f, PwmChannel::Ch3));
        assert(self.chan(PwmChannel::Ch4) == start.moved(*f, PwmChannel::Ch4));
    }

    /// Starts a ramp in the direction opposite to the group's last one, read
    /// from its lowest channel.
    pub fn on_switched(&mut self, ch: Channel) -> (r: Option<Fade>)
        requires
            old(self).wf(),
            !ch.empty(),
        ensures
            final(self).wf(),
            final(self).max_duty == old(self).max_duty,
            final(self).warming_us == old(self).warming_us,
            r == Some(old(self).fade_of(ch, old(self).toggled(ch))),
            final(self).fade_wf(old(self).fade_of(ch, old(self).toggled(ch))),
            forall|c: PwmChannel|
                #[trigger] final(self).chan(c) == old(self).joined(ch, old(self).toggled(ch), c),
    {
        let first = ch.first_channel();
        let on: bool = bool::from(self.get_channel(first).last_direction);
        self.on_onof(ch, !on)
    }

    /// A hold starts a ramp as a toggle does; its release starts nothing (the
    /// connection that drives this controller abandons the ramp in flight).
    pub fn on_hold(&mut self, ch: Channel, hold: bool) -> (r: Option<Fade>)
        requires
            old(self).wf(),
            hold ==> !ch.empty(),
        ensures
            final(self).wf(),
            !hold ==> r is None && *final(self) == *old(self),
            hold ==> r == Some(old(self).fade_of(ch, old(self).toggled(ch))),
            hold ==> final(self).fade_wf(old(self).fade_of(ch, old(self).toggled(ch))),
            hold ==> forall|c: PwmChannel|
                #[trigger] final(self).chan(c) == old(self).joined(ch, old(self).toggled(ch), c),
            final(self).max_duty == old(self).max_duty,
            final(self).warming_us == old(self).warming_us,
    {
        if hold {
            self.on_switched(ch)
        } else {
            None
        }
    }
    /// Handles a command for a channel set: a level, a toggle or a hold
    /// starts a ramp opposite to the group's last direction; a released hold
    /// starts nothing.
    pub fn handle(&mut self, ev: (PwmLedEvent, Channel)) -> (r: Option<Fade>)
        requires
            old(self).wf(),
            ev.0 != PwmLedEvent::Hold(false) ==> !ev.1.empty(),
        ensures
            final(self).wf(),
            final(self).max_duty == old(self).max_duty,
            final(self).warming_us == old(self).warming_us,
            ev.0 == PwmLedEvent::Hold(false) ==> r is None && *final(self) == *old(self),
            ev.0 != PwmLedEvent::Hold(false) ==> r == Some(
                old(self).fade_of(ev.1, old(self).toggled(ev.1)),
            ) && final(self).fade_wf(old(self).fade_of(ev.1, old(self).toggled(ev.1)))
                && forall|c: PwmChannel|
                #[trigger] final(self).chan(c) == old(self).joined(ev.1, old(self).toggled(ev.1), c),
    {
        let ch = ev.1;
        match ev.0 {
            PwmLedEvent::OnOf(_) => self.on_switched(ch),
            PwmLedEvent::Switched => self.on_switched(ch),
            PwmLedEvent::Hold(hold) => self.on_hold(ch, hold),
        }
    }
}

/// A source whose elements become fade commands for one channel set.
pub struct SinglePwmLedInput<Ev> {
    pub event: Ev,
    pub ch: Channel,
}

impl<Ev: Event> SinglePwmLedInput<Ev> where Ev::Data: Into<PwmLedEvent> {
    pub fn new(event: Ev, ch: Channel) -> (r: Self)
        ensures
            r.event == event,
            r.ch == ch,
    {
        Self { event, ch }
    }

    /// An element of the wrapped source as a command for this set.
    pub fn tag(&self, d: Ev::Data) -> (r: (PwmLedEvent, Channel))
        ensures
            r.1 == self.ch,
            Ev::Data::obeys_into_spec() ==> r.0 == d.into_spec(),
    {
        (d.into(), self.ch)
    }
}

impl<Ev: Event> Event for SinglePwmLedInput<Ev> where Ev::Data: Into<PwmLedEvent> {
    type Data = (PwmLedEvent, Channel);

    open spec fn conversions_obey() -> bool {
        Ev::conversions_obey() && Ev::Data::obeys_into_spec()
    }

    /// The wrapped source's initial element, converted into a command and
    /// tagged with this set.
    open spec fn initial_spec(self) -> (Option<(PwmLedEvent, Channel)>, Self) {
        let (o, e) = self.event.initial_spec();
        let r = match o {
            Some(d) => Some((d.into_spec(), self.ch)),
            None => None,
        };
        (r, SinglePwmLedInput { event: e, ch: self.ch })
    }

    fn initial(&mut self) -> (r: Option<(PwmLedEvent, Channel)>) {
        match self.event.initial() {
            Some(d) => Some(self.tag(d)),
            None => None,
        }
    }
}

/// The duty of a channel after `k` steps of a ramp from `d`: a rise reaches
/// `max_duty - 1` and stays there, a fall reaches 0 and stays there.
pub open spec fn ramped(d: int, on: bool, k: int, max_duty: int) -> int {
    if on {
        if d + k >= max_duty - 1 {
            max_duty - 1
        } else {
            d + k
        }
    } else {
        if d - k <= 0 {
            0
        } else {
            d - k
        }
    }
}

/// A ramp moves each channel of its set by exactly one unit per step towards
/// its limit and then holds it there: after `k` steps a channel that started
/// at duty `d` stands at `min(d + k, max_duty - 1)` when rising and at
/// `max(d - k, 0)` when falling. Channels outside the set keep their state,
/// and every duty stays within `[0, max_duty - 1]` throughout.
pub proof fn lemma_fade_monotone(p: PwmLed, f: Fade, k: nat)
    requires
        p.wf(),
        p.fade_wf(f),
    ensures
        p.after_steps(f, k).wf(),
        p.after_steps(f, k).max_duty == p.max_duty,
        p.after_steps(f, k).warming_us == p.warming_us,
        forall|c: PwmChannel|
            #![trigger p.after_steps(f, k).chan(c)]
            f.channels.includes(c) ==> p.after_steps(f, k).chan(c).duty as int == ramped(
                p.chan(c).duty as int,
                f.on,
                k as int,
                p.max_duty as int,
            ) && p.after_steps(f, k).chan(c).last_direction == p.chan(c).last_direction,
        forall|c: PwmChannel|
            #![trigger p.after_steps(f, k).chan(c)]
            !f.channels.includes(c) ==> p.after_steps(f, k).chan(c) == p.chan(c),
    decreases k,
{
    if k > 0 {
        let k1 = (k - 1) as nat;
        lemma_fade_monotone(p, f, k1);
        let q = p.after_steps(f, k1);
        let r = p.after_steps(f, k);
        assert(r == q.next_state(f));
        assert forall|c: PwmChannel| #![trigger r.chan(c)] r.chan(c) == q.moved(f, c) by {
            match c {
                PwmChannel::Ch1 => {},
                PwmChannel::Ch2 => {},
                PwmChannel::Ch3 => {},
                PwmChannel::Ch4 => {},
            }
        }
        assert forall|c: PwmChannel| #[trigger] r.chan(c).duty < r.max_duty by {
            assert(q.chan(c).duty < q.max_duty);
        }
        assert forall|c: PwmChannel|
            #![trigger r.chan(c)]
            f.channels.includes(c) ==> r.chan(c).duty as int == ramped(
                p.chan(c).duty as int,
                f.on,
                k as int,
                p.max_duty as int,
            ) by {
            assert(q.chan(c).duty < q.max_duty);
            assert(p.chan(c).duty < p.max_duty);
        }
    }
}

} // verus!
