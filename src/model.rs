//! The device state that decoded events are folded into, with decaying transient signals.
use crate::muse_packet::{MuseMessage, MuseMessageType};
use crate::wire::FloatBits;
use vstd::math::max;
use vstd::prelude::*;

verus! {

/// Ticks that forehead contact counts as recently lost after a loss is reported.
pub const FOREHEAD_COUNTDOWN: u32 = 30;

/// Ticks that a reported blink stays active.
pub const BLINK_COUNTDOWN: u32 = 30;

/// Ticks that a reported jaw clench stays active.
pub const CLENCH_COUNTDOWN: u32 = 30;

/// A motion vector.
#[derive(Clone, Copy, Debug, PartialEq, Eq, Structural)]
pub struct Axes {
    pub x: FloatBits,
    pub y: FloatBits,
    pub z: FloatBits,
}

/// One value per electrode, channels TP9, AF7, AF8, TP10.
#[derive(Clone, Copy, Debug, PartialEq, Eq, Structural)]
pub struct Channels {
    pub a: FloatBits,
    pub b: FloatBits,
    pub c: FloatBits,
    pub d: FloatBits,
}

/// The transient signals, each held active by a decay counter.
#[derive(Clone, Copy, Debug, PartialEq, Eq, Structural)]
pub enum Transient {
    ForeheadContactLost,
    Blink,
    JawClench,
}

/// The counter value that arms `s`.
pub open spec fn window(s: Transient) -> u32 {
    match s {
        Transient::ForeheadContactLost => FOREHEAD_COUNTDOWN,
        Transient::Blink => BLINK_COUNTDOWN,
        Transient::JawClench => CLENCH_COUNTDOWN,
    }
}

impl MuseMessageType {
    /// Whether this event arms the counter of `s`. Losing forehead contact is what arms
    /// its counter; for blink and jaw clench it is the event being present.
    pub open spec fn arms(self, s: Transient) -> bool {
        match s {
            Transient::ForeheadContactLost => self matches MuseMessageType::TouchingForehead {
                touch,
            } && !touch,
            Transient::Blink => self matches MuseMessageType::Blink { blink } && blink,
            Transient::JawClench => self matches MuseMessageType::JawClench { clench } && clench,
        }
    }
}

/// One counter after a tick: one less, never below zero.
pub open spec fn decayed(c: u32) -> u32 {
    if c > 0 {
        (c - 1) as u32
    } else {
        0
    }
}

/// The current known state of the headset. Raw EEG is not kept here: it is meant to be
/// streamed on to a sink rather than held as a snapshot.
#[derive(Clone, Copy, Debug, PartialEq, Eq)]
pub struct Model {
    pub accelerometer: Axes,
    pub gyro: Axes,
    pub alpha: Channels,
    pub beta: Channels,
    pub gamma: Channels,
    pub delta: Channels,
    pub theta: Channels,
    pub batt: i32,
    pub horseshoe: Channels,
    pub blink_countdown: u32,
    pub touching_forehead_countdown: u32,
    pub jaw_clench_countdown: u32,
}

impl Model {
    /// The state at startup: every value zero, battery included, no signal active.
    pub open spec fn initial() -> Model {
        let zero3 = Axes { x: 0, y: 0, z: 0 };
        let zero4 = Channels { a: 0, b: 0, c: 0, d: 0 };
        Model {
            accelerometer: zero3,
            gyro: zero3,
            alpha: zero4,
            beta: zero4,
            gamma: zero4,
            delta: zero4,
            theta: zero4,
            batt: 0,
            horseshoe: zero4,
            blink_countdown: 0,
            touching_forehead_countdown: 0,
            jaw_clench_countdown: 0,
        }
    }

    /// The decay counter of `s`.
    pub open spec fn countdown(self, s: Transient) -> u32 {
        match s {
            Transient::ForeheadContactLost => self.touching_forehead_countdown,
            Transient::Blink => self.blink_countdown,
            Transient::JawClench => self.jaw_clench_countdown,
        }
    }

    /// The state after one event: a continuous signal overwrites its latest value, an
    /// arming event sets its counter to the window, anything else changes nothing.
    pub open spec fn applied(self, ev: MuseMessageType) -> Model {
        match ev {
            MuseMessageType::Eeg { .. } => self,
            MuseMessageType::Accelerometer { x, y, z } => Model {
                accelerometer: Axes { x, y, z },
                ..self
            },
            MuseMessageType::Gyro { x, y, z } => Model { gyro: Axes { x, y, z }, ..self },
            MuseMessageType::Alpha { a, b, c, d } => Model {
                alpha: Channels { a, b, c, d },
                ..self
            },
            MuseMessageType::Beta { a, b, c, d } => Model { beta: Channels { a, b, c, d }, ..self },
            MuseMessageType::Gamma { a, b, c, d } => Model {
                gamma: Channels { a, b, c, d },
                ..self
            },
            MuseMessageType::Delta { a, b, c, d } => Model {
                delta: Channels { a, b, c, d },
                ..self
            },
            MuseMessageType::Theta { a, b, c, d } => Model {
                theta: Channels { a, b, c, d },
                ..self
            },
            MuseMessageType::Batt { batt } => Model { batt, ..self },
            MuseMessageType::Horseshoe { a, b, c, d } => Model {
                horseshoe: Channels { a, b, c, d },
                ..self
            },
            MuseMessageType::TouchingForehead { touch } => if touch {
                self
            } else {
                Model { touching_forehead_countdown: FOREHEAD_COUNTDOWN, ..self }
            },
            MuseMessageType::Blink { blink } => if blink {
                Model { blink_countdown: BLINK_COUNTDOWN, ..self }
            } else {
                self
            },
            MuseMessageType::JawClench { clench } => if clench {
                Model { jaw_clench_countdown: CLENCH_COUNTDOWN, ..self }
            } else {
                self
            },
        }
    }

    /// The state after one tick: every counter decays by one, nothing else changes.
    pub open spec fn ticked(self) -> Model {
        Model {
            blink_countdown: decayed(self.blink_countdown),
            touching_forehead_countdown: decayed(self.touching_forehead_countdown),
            jaw_clench_countdown: decayed(self.jaw_clench_countdown),
            ..self
        }
    }

    /// The state after applying the events of `msgs` in order.
    pub open spec fn applied_all(self, msgs: Seq<MuseMessage>) -> Model
        decreases msgs.len(),
    {
        if msgs.len() == 0 {
            self
        } else {
            self.applied_all(msgs.drop_last()).applied(msgs.last().muse_message_type)
        }
    }

    /// The state after `n` ticks with no event in between.
    pub open spec fn ticked_times(self, n: nat) -> Model
        decreases n,
    {
        if n == 0 {
            self
        } else {
            self.ticked_times((n - 1) as nat).ticked()
        }
    }

    /// The state at startup.
    pub fn new() -> (r: Model)
        ensures
            r == Model::initial(),
    {
        let zero3 = Axes { x: 0, y: 0, z: 0 };
        let zero4 = Channels { a: 0, b: 0, c: 0, d: 0 };
        Model {
            accelerometer: zero3,
            gyro: zero3,
            alpha: zero4,
            beta: zero4,
            gamma: zero4,
            delta: zero4,
            theta: zero4,
            batt: 0,
            horseshoe: zero4,
            blink_countdown: 0,
            touching_forehead_countdown: 0,
            jaw_clench_countdown: 0,
        }
    }

    /// Folds one event into the state.
    pub fn handle_message(&mut self, muse_message: &MuseMessage)
        ensures
            *final(self) == old(self).applied(muse_message.muse_message_type),
    {
        match muse_message.muse_message_type {
            MuseMessageType::Eeg { .. } => {},
            MuseMessageType::Accelerometer { x, y, z } => {
                self.accelerometer = Axes { x, y, z };
            },
            MuseMessageType::Gyro { x, y, z } => {
                self.gyro = Axes { x, y, z };
            },
            MuseMessageType::Alpha { a, b, c, d } => {
                self.alpha = Channels { a, b, c, d };
            },
            MuseMessageType::Beta { a, b, c, d } => {
                self.beta = Channels { a, b, c, d };
            },
            MuseMessageType::Gamma { a, b, c, d } => {
                self.gamma = Channels { a, b, c, d };
            },
            MuseMessageType::Delta { a, b, c, d } => {
                self.delta = Channels { a, b, c, d };
            },
            MuseMessageType::Theta { a, b, c, d } => {
                self.theta = Channels { a, b, c, d };
            },
            MuseMessageType::Batt { batt } => {
                self.batt = batt;
            },
            MuseMessageType::Horseshoe { a, b, c, d } => {
                self.horseshoe = Channels { a, b, c, d };
            },
            MuseMessageType::TouchingForehead { touch } => {
                if !touch {
                    self.touching_forehead_countdown = FOREHEAD_COUNTDOWN;
                }
            },
            MuseMessageType::Blink { blink } => {
                if blink {
                    self.blink_countdown = BLINK_COUNTDOWN;
                }
            },
            MuseMessageType::JawClench { clench } => {
                if clench {
                    self.jaw_clench_countdown = CLENCH_COUNTDOWN;
                }
            },
        }
    }

    /// Advances the decay counters by one tick.
    pub fn tick(&mut self)
        ensures
            *final(self) == old(self).ticked(),
            final(self).blink_countdown == decayed(old(self).blink_countdown),
            final(self).touching_forehead_countdown == decayed(
                old(self).touching_forehead_countdown,
            ),
            final(self).jaw_clench_countdown == decayed(old(self).jaw_clench_countdown),
    {
        if self.blink_countdown > 0 {
            self.blink_countdown = self.blink_countdown - 1;
        }
        if self.jaw_clench_countdown > 0 {
            self.jaw_clench_countdown = self.jaw_clench_countdown - 1;
        }
        if self.touching_forehead_countdown > 0 {
            self.touching_forehead_countdown = self.touching_forehead_countdown - 1;
        }
    }

    /// One frame: applies the events drained for it in arrival order, then ticks once, so
    /// a counter armed in this frame is not decremented in the same frame.
    pub fn update(&mut self, messages: &Vec<MuseMessage>)
        ensures
            *final(self) == old(self).applied_all(messages@).ticked(),
    {
        let ghost start = *self;
        let mut i: usize = 0;
        while i < messages.len()
            invariant
                i <= messages@.len(),
                *self == start.applied_all(messages@.subrange(0, i as int)),
            decreases messages@.len() - i,
        {
            proof {
                let done = messages@.subrange(0, i + 1);
                assert(done.drop_last() =~= messages@.subrange(0, i as int));
            }
            self.handle_message(&messages[i]);
            i = i + 1;
        }
        assert(messages@.subrange(0, messages@.len() as int) =~= messages@);
        self.tick();
    }

    /// Whether a blink is currently active.
    pub fn is_blinking(&self) -> (r: bool)
        ensures
            r == (self.blink_countdown > 0),
    {
        self.blink_countdown > 0
    }

    /// Whether a jaw clench is currently active.
    pub fn is_jaw_clenched(&self) -> (r: bool)
        ensures
            r == (self.jaw_clench_countdown > 0),
    {
        self.jaw_clench_countdown > 0
    }

    /// Whether forehead contact has been lost recently.
    pub fn forehead_contact_lost(&self) -> (r: bool)
        ensures
            r == (self.touching_forehead_countdown > 0),
    {
        self.touching_forehead_countdown > 0
    }
}

/// Applying the same event twice leaves the state as applying it once: a continuous signal
/// is overwritten with the same value, and an arming event sets the same window.
pub proof fn lemma_apply_idempotent(m: Model, ev: MuseMessageType)
    ensures
        m.applied(ev).applied(ev) == m.applied(ev),
{
}

/// After a tick every decay counter is the greater of zero and its previous value less one.
pub proof fn lemma_tick_decays(m: Model, s: Transient)
    ensures
        m.ticked().countdown(s) == max(0, m.countdown(s) - 1),
{
}

/// An arming event sets the counter to the window, whatever it held before: re-arming an
/// active signal extends it rather than adding to it.
pub proof fn lemma_trigger_resets_window(m: Model, ev: MuseMessageType, s: Transient)
    requires
        ev.arms(s),
    ensures
        m.applied(ev).countdown(s) == window(s),
{
}

/// An event that does not arm a signal leaves that signal's counter as it was.
pub proof fn lemma_non_trigger_keeps_counter(m: Model, ev: MuseMessageType, s: Transient)
    requires
        !ev.arms(s),
    ensures
        m.applied(ev).countdown(s) == m.countdown(s),
{
}

/// Within one drain, an arming event followed by a non-arming one for the same signal
/// leaves the signal armed.
pub proof fn lemma_armed_within_drain(
    m: Model,
    first: MuseMessage,
    second: MuseMessage,
    s: Transient,
)
    requires
        first.muse_message_type.arms(s),
        !second.muse_message_type.arms(s),
    ensures
        m.applied_all(seq![first, second]).countdown(s) == window(s),
{
    let both = seq![first, second];
    assert(both.drop_last() =~= seq![first]);
    assert(seq![first].drop_last() =~= Seq::<MuseMessage>::empty());
    let armed = m.applied(first.muse_message_type);
    assert(m.applied_all(Seq::<MuseMessage>::empty()) == m);
    assert(seq![first].last() == first);
    assert(m.applied_all(seq![first]) == armed);
    assert(m.applied_all(both) == armed.applied(second.muse_message_type));
}

/// After `n` ticks with no event a counter has dropped by `n`, and stops at zero.
pub proof fn lemma_ticks_count_down(m: Model, n: nat, s: Transient)
    ensures
        m.ticked_times(n).countdown(s) == max(0, m.countdown(s) - n),
    decreases n,
{
    if n > 0 {
        lemma_ticks_count_down(m, (n - 1) as nat, s);
    }
}

/// A signal armed and then left for one tick less than its window is still active, and a
/// non-arming event then does not re-arm it; after the full window it is idle.
pub proof fn lemma_no_rearm_after_decay(
    m: Model,
    ev: MuseMessageType,
    later: MuseMessageType,
    s: Transient,
)
    requires
        ev.arms(s),
        !later.arms(s),
    ensures
        m.applied(ev).ticked_times((window(s) - 1) as nat).applied(later).countdown(s) == 1,
        m.applied(ev).ticked_times(window(s) as nat).countdown(s) == 0,
{
    lemma_ticks_count_down(m.applied(ev), (window(s) - 1) as nat, s);
    lemma_ticks_count_down(m.applied(ev), window(s) as nat, s);
}

} // verus!
