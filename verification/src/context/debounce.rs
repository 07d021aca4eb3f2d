//! Debouncing of typing events: a pause signal after a period of silence.

use vstd::prelude::*;

verus! {

/// Where the debounce loop stands.
#[derive(Debug, Clone, Copy, PartialEq, Eq, Structural)]
pub enum DebounceState {
    /// Waiting for the first keystroke of a burst.
    Idle,
    /// Inside a burst: waiting for another keystroke or for the delay to pass.
    Waiting,
    /// The typing channel has closed; the loop has ended.
    Closed,
}

/// What the debounce loop observed.
#[derive(Debug, Clone, Copy, PartialEq, Eq, Structural)]
pub enum DebounceEvent {
    /// A typing event arrived.
    Typed,
    /// The typing channel closed.
    ChannelClosed,
    /// The delay passed with no typing event.
    SilenceElapsed,
}

/// What the driver of the loop must do next.
#[derive(Debug, Clone, Copy, PartialEq, Eq, Structural)]
pub enum DebounceAction {
    /// Wait for the next typing event.
    AwaitTyping,
    /// Wait for the next typing event or for `delay_ms` milliseconds of silence,
    /// whichever comes first.
    AwaitTypingOrSilence { delay_ms: u64 },
    /// Send the pause signal, then wait for the next typing event.
    EmitPauseThenAwaitTyping,
    /// Stop the loop.
    Stop,
}

/// The transition of the debounce loop on one event.
pub open spec fn debounce_step(delay_ms: u64, state: DebounceState, event: DebounceEvent) -> (DebounceState, DebounceAction) {
    match state {
        DebounceState::Closed => (DebounceState::Closed, DebounceAction::Stop),
        DebounceState::Idle => match event {
            DebounceEvent::Typed => (DebounceState::Waiting, DebounceAction::AwaitTypingOrSilence { delay_ms }),
            DebounceEvent::ChannelClosed => (DebounceState::Closed, DebounceAction::Stop),
            DebounceEvent::SilenceElapsed => (DebounceState::Idle, DebounceAction::AwaitTyping),
        },
        DebounceState::Waiting => match event {
            DebounceEvent::Typed => (DebounceState::Waiting, DebounceAction::AwaitTypingOrSilence { delay_ms }),
            DebounceEvent::ChannelClosed => (DebounceState::Closed, DebounceAction::Stop),
            DebounceEvent::SilenceElapsed => (DebounceState::Idle, DebounceAction::EmitPauseThenAwaitTyping),
        },
    }
}

/// Whether an action sends the pause signal.
pub open spec fn emits_pause(action: DebounceAction) -> bool {
    action is EmitPauseThenAwaitTyping
}

/// The state reached and the number of pause signals sent after a sequence
/// of events.
pub open spec fn debounce_run(delay_ms: u64, state: DebounceState, events: Seq<DebounceEvent>) -> (DebounceState, nat)
    decreases events.len(),
{
    if events.len() == 0 {
        (state, 0)
    } else {
        let (next, action) = debounce_step(delay_ms, state, events[0]);
        let (last, pauses) = debounce_run(delay_ms, next, events.drop_first());
        (last, pauses + if emits_pause(action) { 1nat } else { 0nat })
    }
}

/// How many typing events a sequence holds.
pub open spec fn typed_count(events: Seq<DebounceEvent>) -> nat
    decreases events.len(),
{
    if events.len() == 0 {
        0
    } else {
        typed_count(events.drop_first()) + if events[0] is Typed { 1nat } else { 0nat }
    }
}

/// Debounces typing events: fires after a configurable pause in typing.
pub struct TypingDebouncer {
    delay_ms: u64,
}

impl TypingDebouncer {
    /// The silence, in milliseconds, after which a pause is signalled.
    pub closed spec fn delay(&self) -> u64 {
        self.delay_ms
    }

    pub fn new(delay_ms: u64) -> (d: Self)
        ensures
            d.delay() == delay_ms,
    {
        TypingDebouncer { delay_ms }
    }

    pub fn delay_ms(&self) -> (r: u64)
        ensures
            r == self.delay(),
    {
        self.delay_ms
    }

    /// The state and first action of the loop.
    pub fn start(&self) -> (r: (DebounceState, DebounceAction))
        ensures
            r == (DebounceState::Idle, DebounceAction::AwaitTyping),
    {
        (DebounceState::Idle, DebounceAction::AwaitTyping)
    }

    /// One step of the loop: the next state and what to do next.
    pub fn step(&self, state: DebounceState, event: DebounceEvent) -> (r: (DebounceState, DebounceAction))
        ensures
            r == debounce_step(self.delay(), state, event),
    {
        match state {
            DebounceState::Closed => (DebounceState::Closed, DebounceAction::Stop),
            DebounceState::Idle => match event {
                DebounceEvent::Typed => (DebounceState::Waiting, DebounceAction::AwaitTypingOrSilence { delay_ms: self.delay_ms }),
                DebounceEvent::ChannelClosed => (DebounceState::Closed, DebounceAction::Stop),
                DebounceEvent::SilenceElapsed => (DebounceState::Idle, DebounceAction::AwaitTyping),
            },
            DebounceState::Waiting => match event {
                DebounceEvent::Typed => (DebounceState::Waiting, DebounceAction::AwaitTypingOrSilence { delay_ms: self.delay_ms }),
                DebounceEvent::ChannelClosed => (DebounceState::Closed, DebounceAction::Stop),
                DebounceEvent::SilenceElapsed => (DebounceState::Idle, DebounceAction::EmitPauseThenAwaitTyping),
            },
        }
    }
}

/// Every pause signal is preceded by its own burst of typing: from any
/// state, the pauses sent never exceed the typing events received (plus one
/// for a burst already under way).
pub proof fn lemma_pauses_need_typing(delay_ms: u64, state: DebounceState, events: Seq<DebounceEvent>)
    ensures
        debounce_run(delay_ms, state, events).1 + (if debounce_run(delay_ms, state, events).0 is Waiting { 1nat } else { 0nat })
            <= typed_count(events) + (if state is Waiting { 1nat } else { 0nat }),
    decreases events.len(),
{
    if events.len() > 0 {
        let (next, _action) = debounce_step(delay_ms, state, events[0]);
        lemma_pauses_need_typing(delay_ms, next, events.drop_first());
    }
}

/// A burst of keystrokes.
pub open spec fn burst(k: nat) -> Seq<DebounceEvent> {
    Seq::new(k, |i: int| DebounceEvent::Typed)
}

/// Inside a burst, further keystrokes keep the loop waiting without a pause.
pub proof fn lemma_typing_keeps_waiting(delay_ms: u64, k: nat)
    ensures
        debounce_run(delay_ms, DebounceState::Waiting, burst(k)) == (DebounceState::Waiting, 0nat),
    decreases k,
{
    if k > 0 {
        assert(burst(k).drop_first() =~= burst((k - 1) as nat));
        lemma_typing_keeps_waiting(delay_ms, (k - 1) as nat);
    }
}

/// A burst of typing followed by the delay's silence sends exactly one pause
/// signal and returns the loop to idle.
pub proof fn lemma_burst_then_silence_pauses_once(delay_ms: u64, k: nat)
    requires
        k > 0,
    ensures
        debounce_run(delay_ms, DebounceState::Idle, burst(k).push(DebounceEvent::SilenceElapsed)) == (DebounceState::Idle, 1nat),
{
    let events = burst(k).push(DebounceEvent::SilenceElapsed);
    let rest = events.drop_first();
    assert(events[0] == DebounceEvent::Typed);
    assert(rest =~= burst((k - 1) as nat).push(DebounceEvent::SilenceElapsed));
    lemma_waiting_then_silence(delay_ms, (k - 1) as nat);
}

proof fn lemma_waiting_then_silence(delay_ms: u64, k: nat)
    ensures
        debounce_run(delay_ms, DebounceState::Waiting, burst(k).push(DebounceEvent::SilenceElapsed)) == (DebounceState::Idle, 1nat),
    decreases k,
{
    let events = burst(k).push(DebounceEvent::SilenceElapsed);
    if k == 0 {
        assert(events[0] == DebounceEvent::SilenceElapsed);
        assert(events.drop_first() =~= Seq::<DebounceEvent>::empty());
        assert(debounce_run(delay_ms, DebounceState::Idle, events.drop_first()) == (DebounceState::Idle, 0nat));
    } else {
        assert(events[0] == DebounceEvent::Typed);
        assert(events.drop_first() =~= burst((k - 1) as nat).push(DebounceEvent::SilenceElapsed));
        lemma_waiting_then_silence(delay_ms, (k - 1) as nat);
    }
}

/// Once the typing channel has closed the loop stays stopped and sends no
/// further pause signal.
pub proof fn lemma_closed_is_final(delay_ms: u64, events: Seq<DebounceEvent>)
    ensures
        debounce_run(delay_ms, DebounceState::Closed, events) == (DebounceState::Closed, 0nat),
    decreases events.len(),
{
    if events.len() > 0 {
        lemma_closed_is_final(delay_ms, events.drop_first());
    }
}

/// Silence alone never produces a pause: a loop that only sees the delay
/// pass, starting idle, sends nothing.
pub proof fn lemma_silence_without_typing_is_quiet(delay_ms: u64, events: Seq<DebounceEvent>)
    requires
        forall|i: int| 0 <= i < events.len() ==> #[trigger] events[i] is SilenceElapsed,
    ensures
        debounce_run(delay_ms, DebounceState::Idle, events) == (DebounceState::Idle, 0nat),
    decreases events.len(),
{
    if events.len() > 0 {
        let rest = events.drop_first();
        assert forall|i: int| 0 <= i < rest.len() implies #[trigger] rest[i] is SilenceElapsed by {
            assert(rest[i] == events[i + 1]);
        }
        lemma_silence_without_typing_is_quiet(delay_ms, rest);
    }
}

/// A typing event, in any state but the closed one, makes the loop wait for
/// another keystroke or exactly the configured delay of silence, whatever the
/// delay is.
pub proof fn lemma_typing_waits_the_configured_delay(delay_ms: u64, state: DebounceState)
    requires
        !(state is Closed),
    ensures
        debounce_step(delay_ms, state, DebounceEvent::Typed) == (DebounceState::Waiting, DebounceAction::AwaitTypingOrSilence { delay_ms }),
{
}

} // verus!
