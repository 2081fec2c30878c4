//! The event multiplexer, as the decisions of its polling loop.
//!
//! The loop itself, which waits for readiness and reads the devices, belongs
//! to the caller. It tells the multiplexer what happened, one [`Signal`] at a
//! time, and gets back a [`Reaction`]: the action to carry out, if any, and
//! what to do next. Each device has a slot whose position is its token. A
//! slot is `Active` while the loop waits, `Draining` from a readiness signal
//! until the device has no event left, and `Removed` for good once a read
//! shows that the device is gone.

use vstd::prelude::*;
use crate::detector::{decided, observed, observed_all, Action, ModifierState, RawEvent};
use crate::keys::KeyMapping;
use crate::source::ReadFailure;

verus! {

/// Where a device's slot stands.
#[derive(Clone, Copy, Debug, PartialEq, Eq, Structural)]
pub enum SlotPhase {
    /// Registered; the loop waits for it to become readable.
    Active,
    /// Readable; its pending events are being read.
    Draining,
    /// Gone. Nothing is read from it again and its token is never reused.
    Removed,
}

/// What the polling loop reports.
#[derive(Clone, Copy, Debug, PartialEq, Eq, Structural)]
pub enum Signal {
    /// The device with this token became readable.
    Ready { token: usize },
    /// An event was read from the device.
    Event { token: usize, event: RawEvent },
    /// A read from the device failed.
    Failed { token: usize, failure: ReadFailure },
    /// The device has no event pending.
    Exhausted { token: usize },
}

/// What the polling loop has to do next.
#[derive(Clone, Copy, Debug, PartialEq, Eq, Structural)]
pub enum Directive {
    /// Go on with the other ready devices, then wait for readiness again.
    Wait,
    /// Read the next event of this device, or report that none is pending.
    Read { token: usize },
    /// Stop watching this device, then go on as for `Wait`.
    Deregister { token: usize },
}

/// The answer to one signal.
#[derive(Clone, Copy, Debug, PartialEq, Eq, Structural)]
pub struct Reaction {
    pub action: Option<Action>,
    pub next: Directive,
}

/// The multiplexer's state as plain values.
pub struct MultiplexerView {
    pub slots: Seq<SlotPhase>,
    pub modifiers: ModifierState,
    pub keys: KeyMapping,
}

/// The slots of the registered devices, the detector's modifiers and the key
/// mapping in use.
pub struct Multiplexer {
    slots: Vec<SlotPhase>,
    modifiers: ModifierState,
    keys: KeyMapping,
}

impl Signal {
    pub open spec fn spec_token(self) -> usize {
        match self {
            Signal::Ready { token } => token,
            Signal::Event { token, .. } => token,
            Signal::Failed { token, .. } => token,
            Signal::Exhausted { token } => token,
        }
    }

    /// The token of the device that the signal is about.
    #[verifier::when_used_as_spec(spec_token)]
    pub fn token(self) -> (token: usize)
        ensures
            token == self.spec_token(),
    {
        match self {
            Signal::Ready { token } => token,
            Signal::Event { token, .. } => token,
            Signal::Failed { token, .. } => token,
            Signal::Exhausted { token } => token,
        }
    }
}

/// The reaction that asks for nothing.
pub open spec fn idle() -> Reaction {
    Reaction { action: None, next: Directive::Wait }
}

impl MultiplexerView {
    /// The phase of the slot with this token, if there is such a slot.
    pub open spec fn phase(self, token: usize) -> Option<SlotPhase> {
        if token < self.slots.len() {
            Some(self.slots[token as int])
        } else {
            None
        }
    }

    /// This state with the slot of `token` in `phase`.
    pub open spec fn with_phase(self, token: usize, phase: SlotPhase) -> MultiplexerView {
        MultiplexerView {
            slots: self.slots.update(token as int, phase),
            modifiers: self.modifiers,
            keys: self.keys,
        }
    }

    /// This state after one more device has been registered.
    pub open spec fn registered(self) -> MultiplexerView {
        MultiplexerView {
            slots: self.slots.push(SlotPhase::Active),
            modifiers: self.modifiers,
            keys: self.keys,
        }
    }

    /// The state after `signal`.
    ///
    /// A readiness signal starts the draining of a slot that is not removed.
    /// While a slot drains, each event goes through the detector, a passing
    /// failure changes nothing, a failure that shows the device gone removes
    /// the slot, and the lack of a pending event makes the slot active again.
    /// A signal for a removed slot, for a token that was never given out, or
    /// about a read from a slot that is not draining changes nothing.
    pub open spec fn after(self, signal: Signal) -> MultiplexerView {
        let token = signal.token();
        match (self.phase(token), signal) {
            (Some(SlotPhase::Active), Signal::Ready { .. }) => self.with_phase(
                token,
                SlotPhase::Draining,
            ),
            (Some(SlotPhase::Draining), Signal::Event { event, .. }) => MultiplexerView {
                slots: self.slots,
                modifiers: observed(self.modifiers, event, self.keys),
                keys: self.keys,
            },
            (Some(SlotPhase::Draining), Signal::Failed { failure, .. }) => if failure.is_terminal() {
                self.with_phase(token, SlotPhase::Removed)
            } else {
                self
            },
            (Some(SlotPhase::Draining), Signal::Exhausted { .. }) => self.with_phase(
                token,
                SlotPhase::Active,
            ),
            _ => self,
        }
    }

    /// The reaction to `signal`.
    ///
    /// As long as a slot drains the loop is told to read on; it is told to
    /// wait only once the device has nothing pending, and to deregister the
    /// device when it is gone. An event's action is the detector's decision.
    pub open spec fn reaction(self, signal: Signal) -> Reaction {
        let token = signal.token();
        match (self.phase(token), signal) {
            (Some(SlotPhase::Active), Signal::Ready { .. }) => Reaction {
                action: None,
                next: Directive::Read { token },
            },
            (Some(SlotPhase::Draining), Signal::Ready { .. }) => Reaction {
                action: None,
                next: Directive::Read { token },
            },
            (Some(SlotPhase::Draining), Signal::Event { event, .. }) => Reaction {
                action: decided(observed(self.modifiers, event, self.keys), event, self.keys),
                next: Directive::Read { token },
            },
            (Some(SlotPhase::Draining), Signal::Failed { failure, .. }) => Reaction {
                action: None,
                next: if failure.is_terminal() {
                    Directive::Deregister { token }
                } else {
                    Directive::Read { token }
                },
            },
            _ => idle(),
        }
    }

    /// Whether `signal` hands an event to the detector: it reports an event
    /// of a slot that is draining.
    pub open spec fn dispatches(self, signal: Signal) -> bool {
        signal is Event && self.phase(signal.token()) == Some(SlotPhase::Draining)
    }

    /// The state after a run of signals.
    pub open spec fn after_all(self, signals: Seq<Signal>) -> MultiplexerView
        decreases signals.len(),
    {
        if signals.len() == 0 {
            self
        } else {
            self.after_all(signals.drop_last()).after(signals.last())
        }
    }

    /// The reactions to a run of signals, one for each.
    pub open spec fn reactions(self, signals: Seq<Signal>) -> Seq<Reaction>
        decreases signals.len(),
    {
        if signals.len() == 0 {
            Seq::empty()
        } else {
            self.reactions(signals.drop_last()).push(
                self.after_all(signals.drop_last()).reaction(signals.last()),
            )
        }
    }
}

impl MultiplexerView {
    /// The events that a run of signals hands to the detector, in order.
    pub open spec fn dispatched(self, signals: Seq<Signal>) -> Seq<RawEvent>
        decreases signals.len(),
    {
        if signals.len() == 0 {
            Seq::empty()
        } else {
            match signals.last() {
                Signal::Event { event, .. } => if self.after_all(signals.drop_last()).dispatches(
                    signals.last(),
                ) {
                    self.dispatched(signals.drop_last()).push(event)
                } else {
                    self.dispatched(signals.drop_last())
                },
                _ => self.dispatched(signals.drop_last()),
            }
        }
    }
}

impl View for Multiplexer {
    type V = MultiplexerView;

    closed spec fn view(&self) -> MultiplexerView {
        MultiplexerView { slots: self.slots@, modifiers: self.modifiers, keys: self.keys }
    }
}

impl Multiplexer {
    /// A multiplexer without devices and with no modifier held.
    pub fn new(keys: KeyMapping) -> (mux: Multiplexer)
        ensures
            mux@ == (MultiplexerView {
                slots: Seq::empty(),
                modifiers: ModifierState::new(),
                keys: keys,
            }),
    {
        Multiplexer { slots: Vec::new(), modifiers: ModifierState::new(), keys }
    }

    /// Gives the next device its slot and returns its token: the number of
    /// devices registered before it. The slots of those devices stay as they
    /// are.
    pub fn register(&mut self) -> (token: usize)
        ensures
            token == old(self)@.slots.len(),
            final(self)@ == old(self)@.registered(),
    {
        let token = self.slots.len();
        self.slots.push(SlotPhase::Active);
        token
    }

    /// The number of tokens given out.
    pub fn slot_count(&self) -> (n: usize)
        ensures
            n == self@.slots.len(),
    {
        self.slots.len()
    }

    /// The phase of the slot with this token, if there is such a slot.
    pub fn phase(&self, token: usize) -> (phase: Option<SlotPhase>)
        ensures
            phase == self@.phase(token),
    {
        if token < self.slots.len() {
            Some(self.slots[token])
        } else {
            None
        }
    }

    /// The modifiers as the detector has them now.
    pub fn modifiers(&self) -> (state: ModifierState)
        ensures
            state == self@.modifiers,
    {
        self.modifiers
    }

    /// The key mapping in use.
    pub fn keys(&self) -> (keys: KeyMapping)
        ensures
            keys == self@.keys,
    {
        self.keys
    }

    /// Takes one signal in and says what the loop has to do.
    pub fn step(&mut self, signal: Signal) -> (reaction: Reaction)
        ensures
            final(self)@ == old(self)@.after(signal),
            reaction == old(self)@.reaction(signal),
            final(self)@.slots.len() == old(self)@.slots.len(),
            final(self)@.keys == old(self)@.keys,
    {
        let token = signal.token();
        if token >= self.slots.len() {
            return Reaction { action: None, next: Directive::Wait };
        }
        let phase = self.slots[token];
        match signal {
            Signal::Ready { .. } => {
                match phase {
                    SlotPhase::Removed => Reaction { action: None, next: Directive::Wait },
                    SlotPhase::Draining => Reaction {
                        action: None,
                        next: Directive::Read { token },
                    },
                    SlotPhase::Active => {
                        self.slots.set(token, SlotPhase::Draining);
                        Reaction { action: None, next: Directive::Read { token } }
                    },
                }
            },
            Signal::Event { event, .. } => {
                match phase {
                    SlotPhase::Draining => {
                        let action = self.modifiers.classify(&event, &self.keys);
                        Reaction { action, next: Directive::Read { token } }
                    },
                    _ => Reaction { action: None, next: Directive::Wait },
                }
            },
            Signal::Failed { failure, .. } => {
                match phase {
                    SlotPhase::Draining => {
                        if failure.is_terminal() {
                            self.slots.set(token, SlotPhase::Removed);
                            Reaction { action: None, next: Directive::Deregister { token } }
                        } else {
                            Reaction { action: None, next: Directive::Read { token } }
                        }
                    },
                    _ => Reaction { action: None, next: Directive::Wait },
                }
            },
            Signal::Exhausted { .. } => {
                match phase {
                    SlotPhase::Draining => {
                        self.slots.set(token, SlotPhase::Active);
                        Reaction { action: None, next: Directive::Wait }
                    },
                    _ => Reaction { action: None, next: Directive::Wait },
                }
            },
        }
    }

    /// Takes a recorded run of signals in, in order, and returns the
    /// reaction to each.
    pub fn replay(&mut self, signals: &Vec<Signal>) -> (reactions: Vec<Reaction>)
        ensures
            final(self)@ == old(self)@.after_all(signals@),
            reactions@ == old(self)@.reactions(signals@),
    {
        let mut out: Vec<Reaction> = Vec::new();
        let mut i: usize = 0;
        assert(signals@.take(0) =~= Seq::empty());
        while i < signals.len()
            invariant
                i <= signals.len(),
                self@ == old(self)@.after_all(signals@.take(i as int)),
                out@ == old(self)@.reactions(signals@.take(i as int)),
            decreases signals.len() - i,
        {
            assert(signals@.take(i + 1).drop_last() =~= signals@.take(i as int));
            let reaction = self.step(signals[i]);
            out.push(reaction);
            i += 1;
        }
        assert(signals@.take(i as int) =~= signals@);
        out
    }
}

/// The signals of one drain: the device becomes readable, yields `evs` one
/// after the other, and then has nothing pending.
pub open spec fn drain_of(token: usize, evs: Seq<RawEvent>) -> Seq<Signal> {
    Seq::new(
        evs.len() + 2,
        |i: int|
            if i == 0 {
                Signal::Ready { token }
            } else if i <= evs.len() {
                Signal::Event { token, event: evs[i - 1] }
            } else {
                Signal::Exhausted { token }
            },
    )
}

/// There is one reaction for each signal, and each is the reaction of the
/// state that the signals before it have led to.
pub proof fn lemma_reaction_at(v: MultiplexerView, signals: Seq<Signal>, i: int)
    requires
        0 <= i < signals.len(),
    ensures
        v.reactions(signals).len() == signals.len(),
        v.reactions(signals)[i] == v.after_all(signals.take(i)).reaction(signals[i]),
    decreases signals.len(),
{
    let front = signals.drop_last();
    lemma_reactions_len(v, front);
    if i < signals.len() - 1 {
        lemma_reaction_at(v, front, i);
        assert(front.take(i) =~= signals.take(i));
    } else {
        assert(front =~= signals.take(i));
    }
}

proof fn lemma_reactions_len(v: MultiplexerView, signals: Seq<Signal>)
    ensures
        v.reactions(signals).len() == signals.len(),
    decreases signals.len(),
{
    if signals.len() > 0 {
        lemma_reactions_len(v, signals.drop_last());
    }
}

/// No signal changes the number of slots or the key mapping, so tokens stay
/// valid and keep their devices.
pub proof fn lemma_tokens_are_stable(v: MultiplexerView, signals: Seq<Signal>)
    ensures
        v.after_all(signals).slots.len() == v.slots.len(),
        v.after_all(signals).keys == v.keys,
        forall|token: usize|
            v.phase(token) is Some <==> v.after_all(signals).phase(token) is Some,
    decreases signals.len(),
{
    if signals.len() > 0 {
        lemma_tokens_are_stable(v, signals.drop_last());
    }
}

/// A signal changes the slot of its own token at most: every other slot is
/// left in its phase, so removing one device neither moves nor renumbers the
/// others.
pub proof fn lemma_signal_touches_its_slot_only(v: MultiplexerView, signal: Signal, other: usize)
    requires
        other != signal.token(),
    ensures
        v.after(signal).phase(other) == v.phase(other),
{
}

/// Registering a device gives it the first unused token and an active slot,
/// and leaves the slots of all earlier tokens as they are.
pub proof fn lemma_register_adds_one_slot(v: MultiplexerView, token: usize)
    ensures
        v.registered().phase(token) == if token == v.slots.len() {
            Some(SlotPhase::Active)
        } else {
            v.phase(token)
        },
{
}

/// Whatever is signalled, and for whichever devices, the modifiers are what
/// the events handed to the detector leave them, taken in the order of their
/// arrival; and a signal that hands no event to the detector triggers no
/// action.
pub proof fn lemma_modifiers_follow_dispatched_events(v: MultiplexerView, signals: Seq<Signal>)
    ensures
        v.after_all(signals).modifiers == observed_all(
            v.modifiers,
            v.dispatched(signals),
            v.keys,
        ),
        forall|i: int|
            0 <= i < signals.len() && !v.after_all(signals.take(i)).dispatches(signals[i])
                ==> (#[trigger] v.reactions(signals)[i]).action is None,
    decreases signals.len(),
{
    assert forall|i: int|
        0 <= i < signals.len() && !v.after_all(signals.take(i)).dispatches(
            signals[i],
        ) implies (#[trigger] v.reactions(signals)[i]).action is None by {
        lemma_reaction_at(v, signals, i);
    }
    if signals.len() > 0 {
        let front = signals.drop_last();
        lemma_modifiers_follow_dispatched_events(v, front);
        lemma_tokens_are_stable(v, front);
        if v.after_all(front).dispatches(signals.last()) {
            assert(v.dispatched(signals).drop_last() =~= v.dispatched(front));
        }
    }
}

/// A removed slot stays removed whatever is signalled, and every signal for
/// its token is answered with nothing to do: no read, no action.
pub proof fn lemma_removed_slot_is_left_alone(
    v: MultiplexerView,
    token: usize,
    signals: Seq<Signal>,
)
    requires
        v.phase(token) == Some(SlotPhase::Removed),
    ensures
        v.after_all(signals).phase(token) == Some(SlotPhase::Removed),
        v.reactions(signals).len() == signals.len(),
        forall|i: int|
            0 <= i < signals.len() && (#[trigger] signals[i]).token() == token ==> v.reactions(
                signals,
            )[i] == idle(),
    decreases signals.len(),
{
    lemma_reactions_len(v, signals);
    if signals.len() > 0 {
        let front = signals.drop_last();
        lemma_removed_slot_is_left_alone(v, token, front);
        assert forall|i: int|
            0 <= i < signals.len() && (#[trigger] signals[i]).token() == token implies v.reactions(
            signals,
        )[i] == idle() by {
            if i < front.len() {
                assert(front[i] == signals[i]);
            }
        }
    }
}

/// A signal for a removed slot changes nothing at all.
pub proof fn lemma_removed_slot_ignores_signal(v: MultiplexerView, signal: Signal)
    requires
        v.phase(signal.token()) == Some(SlotPhase::Removed),
    ensures
        v.after(signal) == v,
        v.reaction(signal) == idle(),
{
}

proof fn lemma_reading(v: MultiplexerView, token: usize, evs: Seq<RawEvent>, k: int)
    requires
        v.phase(token) == Some(SlotPhase::Active),
        0 <= k <= evs.len(),
    ensures
        v.after_all(drain_of(token, evs).take(k + 1)) == (MultiplexerView {
            slots: v.slots.update(token as int, SlotPhase::Draining),
            modifiers: observed_all(v.modifiers, evs.take(k), v.keys),
            keys: v.keys,
        }),
    decreases k,
{
    let signals = drain_of(token, evs);
    let upto = signals.take(k + 1);
    assert(upto.drop_last() =~= signals.take(k));
    assert(v.after_all(upto) == v.after_all(signals.take(k)).after(upto.last()));
    if k == 0 {
        assert(v.after_all(signals.take(0)) == v);
        assert(upto.last() == Signal::Ready { token });
        assert(observed_all(v.modifiers, evs.take(0), v.keys) == v.modifiers);
    } else {
        lemma_reading(v, token, evs, k - 1);
        assert(upto.last() == Signal::Event { token, event: evs[k - 1] });
        assert(evs.take(k).drop_last() =~= evs.take(k - 1));
        assert(evs.take(k).last() == evs[k - 1]);
    }
}

/// One drain of an active slot reaches every event. The readiness signal and
/// each of the events are answered with the order to read on, so the loop
/// does not wait before the device has nothing pending. Each event's action
/// is the detector's decision after all events up to it. In the end the slot
/// is active again and the modifiers are as the whole run leaves them.
pub proof fn lemma_drain_reaches_every_event(
    v: MultiplexerView,
    token: usize,
    evs: Seq<RawEvent>,
)
    requires
        v.phase(token) == Some(SlotPhase::Active),
    ensures
        v.reactions(drain_of(token, evs)).len() == evs.len() + 2,
        v.reactions(drain_of(token, evs))[0] == (Reaction {
            action: None,
            next: Directive::Read { token },
        }),
        forall|i: int|
            0 <= i < evs.len() ==> #[trigger] v.reactions(drain_of(token, evs))[i + 1]
                == (Reaction {
                action: decided(observed_all(v.modifiers, evs.take(i + 1), v.keys), evs[i], v.keys),
                next: Directive::Read { token },
            }),
        v.reactions(drain_of(token, evs))[evs.len() as int + 1] == idle(),
        v.after_all(drain_of(token, evs)) == (MultiplexerView {
            slots: v.slots,
            modifiers: observed_all(v.modifiers, evs, v.keys),
            keys: v.keys,
        }),
{
    let signals = drain_of(token, evs);
    let rs = v.reactions(signals);
    let n = evs.len() as int;
    lemma_reaction_at(v, signals, 0);
    assert(signals.take(0) =~= Seq::empty());
    assert forall|i: int| 0 <= i < n implies #[trigger] rs[i + 1] == (Reaction {
        action: decided(observed_all(v.modifiers, evs.take(i + 1), v.keys), evs[i], v.keys),
        next: Directive::Read { token },
    }) by {
        lemma_reaction_at(v, signals, i + 1);
        lemma_reading(v, token, evs, i);
        assert(evs.take(i + 1).drop_last() =~= evs.take(i));
        assert(evs.take(i + 1).last() == evs[i]);
    }
    lemma_reaction_at(v, signals, n + 1);
    lemma_reading(v, token, evs, n);
    assert(evs.take(n) =~= evs);
    assert(signals.drop_last() =~= signals.take(n + 1));
    assert(v.slots.update(token as int, SlotPhase::Draining).update(
        token as int,
        SlotPhase::Active,
    ) =~= v.slots);
}

} // verus!
