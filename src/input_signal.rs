use vstd::prelude::*;

use crate::array_vec::ArrayVec;

verus! {

/// Number of consecutive quiet timer ticks after which a signal counts as stable.
pub const STABILIZATION_TICKS: u8 = 5;

/// Capacity of the signal registry: one slot per addressable pin.
pub const NUMBER_GPIO: usize = 63;

/// Pins are split into blocks of this many bits in the interrupt registers.
pub const PADS_PER_REGISTER: u8 = 32;

/// The pin that the application monitors.
pub const MONITORED_PIN: u8 = 37;

/// A sampled logic level.
#[derive(Clone, Copy, Debug, PartialEq, Eq, Structural)]
pub enum LogicState {
    Low,
    High,
    Unknown,
}

impl From<u64> for LogicState {
    /// Zero reads as `Low`, anything else as `High`.
    fn from(value: u64) -> (r: LogicState) {
        if value == 0 {
            LogicState::Low
        } else {
            LogicState::High
        }
    }
}

impl vstd::std_specs::convert::FromSpecImpl<u64> for LogicState {
    open spec fn obeys_from_spec() -> bool {
        true
    }

    open spec fn from_spec(v: u64) -> LogicState {
        if v == 0 {
            LogicState::Low
        } else {
            LogicState::High
        }
    }
}

/// Debounce state of one monitored input.
#[derive(Clone, Copy, Debug, PartialEq, Eq, Structural)]
pub enum InputSignalState {
    Unknown,
    StableLow,
    StabilizingHigh,
    StableHigh,
    StabilizingLow,
}

/// The policy applied when an edge is seen on a signal's pin.
#[derive(Clone, Copy, Debug, PartialEq, Eq, Structural)]
pub enum EdgeCallback {
    /// Restart stabilization towards the opposite level.
    Debounce,
}

/// One monitored digital input.
#[derive(Clone, Copy, Debug)]
pub struct Signal {
    pub pin_number: u8,
    pub state: InputSignalState,
    pub stabilization_counter: u8,
    pub logic_state: LogicState,
    pub edge_callback: EdgeCallback,
}

impl Signal {
    /// The pin lies in the 64-pin range and the counter is below the threshold.
    pub open spec fn wf(&self) -> bool {
        &&& self.pin_number < 64
        &&& self.stabilization_counter < STABILIZATION_TICKS
    }

    /// A freshly registered debounced signal on `pin`.
    pub open spec fn new_spec(pin: u8) -> Signal {
        Signal {
            pin_number: pin,
            state: InputSignalState::Unknown,
            stabilization_counter: 0,
            logic_state: LogicState::Unknown,
            edge_callback: EdgeCallback::Debounce,
        }
    }

    pub fn new(pin_number: u8, edge_callback: EdgeCallback) -> (r: Signal)
        requires
            pin_number < 64,
        ensures
            r.wf(),
            r.pin_number == pin_number,
            r.state == InputSignalState::Unknown,
            r.stabilization_counter == 0,
            r.logic_state == LogicState::Unknown,
            r.edge_callback == edge_callback,
    {
        Signal {
            pin_number,
            state: InputSignalState::Unknown,
            stabilization_counter: 0,
            logic_state: LogicState::Unknown,
            edge_callback,
        }
    }

    /// Moves to `state` and restarts the stabilization count.
    pub fn update_state(&mut self, state: InputSignalState)
        ensures
            *final(self) == with_state(*old(self), state),
    {
        self.state = state;
        self.stabilization_counter = 0;
    }
}

/// `s` moved to `state` with its counter reset.
pub open spec fn with_state(s: Signal, state: InputSignalState) -> Signal {
    Signal { state, stabilization_counter: 0, ..s }
}

/// What an edge reporting `level` does to `s`.
pub open spec fn edge_next(s: Signal, level: LogicState) -> Signal {
    match s.state {
        InputSignalState::StableLow => with_state(s, InputSignalState::StabilizingHigh),
        InputSignalState::StableHigh => with_state(s, InputSignalState::StabilizingLow),
        InputSignalState::StabilizingLow => Signal { stabilization_counter: 0, ..s },
        InputSignalState::StabilizingHigh => Signal { stabilization_counter: 0, ..s },
        InputSignalState::Unknown => match level {
            LogicState::Low => with_state(s, InputSignalState::StabilizingLow),
            LogicState::High => with_state(s, InputSignalState::StabilizingHigh),
            LogicState::Unknown => s,
        },
    }
}

/// Whether an edge reporting `level` contradicts the stable state it leaves.
pub open spec fn unexpected_level(state: InputSignalState, level: LogicState) -> bool {
    (state == InputSignalState::StableLow && level == LogicState::Low)
        || (state == InputSignalState::StableHigh && level == LogicState::High)
}

/// What one timer tick does to `s`.
pub open spec fn tick_next(s: Signal) -> Signal {
    match s.state {
        InputSignalState::StabilizingLow => if s.stabilization_counter + 1 == STABILIZATION_TICKS {
            with_state(s, InputSignalState::StableLow)
        } else {
            Signal { stabilization_counter: (s.stabilization_counter + 1) as u8, ..s }
        },
        InputSignalState::StabilizingHigh => if s.stabilization_counter + 1 == STABILIZATION_TICKS {
            with_state(s, InputSignalState::StableHigh)
        } else {
            Signal { stabilization_counter: (s.stabilization_counter + 1) as u8, ..s }
        },
        InputSignalState::Unknown => with_state(s, InputSignalState::StabilizingHigh),
        _ => s,
    }
}

/// Applies the debounce policy to an edge reporting `logic_state`.
/// Returns whether the level contradicts the stable state being left.
pub fn edge_callback(signal: &mut Signal, logic_state: LogicState) -> (unexpected: bool)
    requires
        old(signal).wf(),
    ensures
        final(signal).wf(),
        *final(signal) == edge_next(*old(signal), logic_state),
        unexpected == unexpected_level(old(signal).state, logic_state),
{
    match signal.state {
        InputSignalState::StableLow => {
            signal.update_state(InputSignalState::StabilizingHigh);
            logic_state == LogicState::Low
        },
        InputSignalState::StableHigh => {
            signal.update_state(InputSignalState::StabilizingLow);
            logic_state == LogicState::High
        },
        InputSignalState::StabilizingLow => {
            signal.stabilization_counter = 0;
            false
        },
        InputSignalState::StabilizingHigh => {
            signal.stabilization_counter = 0;
            false
        },
        InputSignalState::Unknown => {
            match logic_state {
                LogicState::Low => signal.update_state(InputSignalState::StabilizingLow),
                LogicState::High => signal.update_state(InputSignalState::StabilizingHigh),
                LogicState::Unknown => {},
            }
            false
        },
    }
}

impl Signal {
    /// Runs this signal's edge policy.
    pub fn on_edge(&mut self, logic_state: LogicState) -> (unexpected: bool)
        requires
            old(self).wf(),
        ensures
            final(self).wf(),
            *final(self) == edge_next(*old(self), logic_state),
            unexpected == unexpected_level(old(self).state, logic_state),
    {
        match self.edge_callback {
            EdgeCallback::Debounce => edge_callback(self, logic_state),
        }
    }

    /// Advances stabilization by one timer tick.
    pub fn on_tick(&mut self)
        requires
            old(self).wf(),
        ensures
            final(self).wf(),
            *final(self) == tick_next(*old(self)),
    {
        match self.state {
            InputSignalState::StabilizingLow => {
                self.stabilization_counter += 1;
                if self.stabilization_counter == STABILIZATION_TICKS {
                    self.update_state(InputSignalState::StableLow);
                }
            },
            InputSignalState::StabilizingHigh => {
                self.stabilization_counter += 1;
                if self.stabilization_counter == STABILIZATION_TICKS {
                    self.update_state(InputSignalState::StableHigh);
                }
            },
            InputSignalState::Unknown => {
                self.update_state(InputSignalState::StabilizingHigh);
            },
            _ => {},
        }
    }
}

/// Every registered signal is well formed.
pub open spec fn registry_wf(signals: Seq<Signal>) -> bool {
    forall|i: int| 0 <= i < signals.len() ==> (#[trigger] signals[i]).wf()
}

/// Whether bit `pin` of `bits` is set.
pub open spec fn pin_bit(bits: u64, pin: u8) -> bool {
    pin < 64 && (bits >> (pin as u64)) & 1 == 1
}

/// The level that bit `pin` of the synchronized-value bitmap reports.
pub open spec fn level_at(sync: u64, pin: u8) -> LogicState {
    if pin_bit(sync, pin) {
        LogicState::High
    } else {
        LogicState::Low
    }
}

/// What the edge interrupt does to one registered signal.
pub open spec fn after_edges(s: Signal, mis: u64, sync: u64) -> Signal {
    if pin_bit(mis, s.pin_number) {
        edge_next(s, level_at(sync, s.pin_number))
    } else {
        s
    }
}

/// The two 32-bit register blocks as one 64-pin bitmap; block 1 holds pins 32 and up.
pub fn combine_blocks(block0: u32, block1: u32) -> (r: u64)
    ensures
        r == block1 as u64 * 0x1_0000_0000 + block0 as u64,
{
    let r = (block1 as u64) << 32u64 | (block0 as u64);
    assert(r == block1 as u64 * 0x1_0000_0000 + block0 as u64) by (bit_vector)
        requires
            r == (block1 as u64) << 32u64 | (block0 as u64),
    ;
    r
}

/// Register block and bit mask that address `pin` in the interrupt registers.
pub fn pin_block_mask(pin: u8) -> (r: (u8, u32))
    requires
        pin < 64,
    ensures
        r.0 == pin / PADS_PER_REGISTER,
        r.1 == 1u32 << (pin % PADS_PER_REGISTER) as u32,
{
    (pin / PADS_PER_REGISTER, 1u32 << (pin % PADS_PER_REGISTER) as u32)
}

/// Values for the write-0-then-write-1 clear of edge interrupts: first the
/// clear register with the pending bits dropped, then with them set.
pub fn edge_clear_writes(clear_reg: u32, pending: u32) -> (r: (u32, u32))
    ensures
        r.0 == clear_reg & !pending,
        r.1 == r.0 | pending,
{
    let first = clear_reg & !pending;
    (first, first | pending)
}

/// Whether the edge interrupt reports an unexpected level for `s`.
pub open spec fn reports_unexpected(s: Signal, mis: u64, sync: u64) -> bool {
    pin_bit(mis, s.pin_number) && unexpected_level(s.state, level_at(sync, s.pin_number))
}

/// How many of `signals` see an edge at an unexpected level.
pub open spec fn unexpected_edges(signals: Seq<Signal>, mis: u64, sync: u64) -> nat
    decreases signals.len(),
{
    if signals.len() == 0 {
        0
    } else {
        unexpected_edges(signals.drop_last(), mis, sync) + if reports_unexpected(
            signals.last(),
            mis,
            sync,
        ) {
            1nat
        } else {
            0nat
        }
    }
}

proof fn lemma_unexpected_edges_bounded(signals: Seq<Signal>, mis: u64, sync: u64)
    ensures
        unexpected_edges(signals, mis, sync) <= signals.len(),
    decreases signals.len(),
{
    if signals.len() > 0 {
        lemma_unexpected_edges_bounded(signals.drop_last(), mis, sync);
    }
}

/// Edge interrupt: every registered signal whose pin is set in the masked
/// status `mis` gets its edge policy, with the level its bit in `sync` reports.
/// Returns how many of those edges contradicted a stable level.
pub fn signal_change_handler<const N: usize>(signals: &mut ArrayVec<Signal, N>, mis: u64, sync: u64) -> (unexpected: usize)
    requires
        old(signals).wf(),
        registry_wf(old(signals)@),
    ensures
        final(signals).wf(),
        registry_wf(final(signals)@),
        final(signals)@.len() == old(signals)@.len(),
        forall|i: int| 0 <= i < old(signals)@.len() ==>
            #[trigger] final(signals)@[i] == after_edges(old(signals)@[i], mis, sync),
        unexpected == unexpected_edges(old(signals)@, mis, sync),
{
    let n = signals.len();
    let mut count: usize = 0;
    let mut i: usize = 0;
    while i < n
        invariant
            n == old(signals)@.len(),
            signals@.len() == n,
            signals.wf(),
            i <= n,
            registry_wf(signals@),
            count == unexpected_edges(old(signals)@.subrange(0, i as int), mis, sync),
            forall|j: int| 0 <= j < i ==> #[trigger] signals@[j] == after_edges(old(signals)@[j], mis, sync),
            forall|j: int| i <= j < n ==> #[trigger] signals@[j] == old(signals)@[j],
        decreases n - i,
    {
        proof {
            let prefix = old(signals)@.subrange(0, i as int + 1);
            assert(prefix.drop_last() =~= old(signals)@.subrange(0, i as int));
            assert(prefix.last() == old(signals)@[i as int]);
            lemma_unexpected_edges_bounded(old(signals)@.subrange(0, i as int), mis, sync);
        }
        let s = signals.get_mut(i);
        let pin = s.pin_number;
        let pin_mask: u64 = 1u64 << (pin as u64);
        assert(((mis & pin_mask) != 0) == ((mis >> (pin as u64)) & 1 == 1)) by (bit_vector)
            requires
                pin < 64,
                pin_mask == 1u64 << (pin as u64),
        ;
        assert(((sync & pin_mask) != 0) == ((sync >> (pin as u64)) & 1 == 1)) by (bit_vector)
            requires
                pin < 64,
                pin_mask == 1u64 << (pin as u64),
        ;
        if mis & pin_mask != 0 {
            if s.on_edge(LogicState::from(sync & pin_mask)) {
                count += 1;
            }
        }
        i += 1;
    }
    assert(old(signals)@.subrange(0, n as int) =~= old(signals)@);
    count
}

/// Timer interrupt: one tick for every registered signal.
pub fn timer_interrupt_handler<const N: usize>(signals: &mut ArrayVec<Signal, N>)
    requires
        old(signals).wf(),
        registry_wf(old(signals)@),
    ensures
        final(signals).wf(),
        registry_wf(final(signals)@),
        final(signals)@.len() == old(signals)@.len(),
        forall|i: int| 0 <= i < old(signals)@.len() ==>
            #[trigger] final(signals)@[i] == tick_next(old(signals)@[i]),
{
    let n = signals.len();
    let mut i: usize = 0;
    while i < n
        invariant
            n == old(signals)@.len(),
            signals@.len() == n,
            signals.wf(),
            i <= n,
            registry_wf(signals@),
            forall|j: int| 0 <= j < i ==> #[trigger] signals@[j] == tick_next(old(signals)@[j]),
            forall|j: int| i <= j < n ==> #[trigger] signals@[j] == old(signals)@[j],
        decreases n - i,
    {
        signals.get_mut(i).on_tick();
        i += 1;
    }
}

/// Empties the registry and registers the monitored pin.
/// Hands the signal back if the registry has no room for it.
pub fn configure_signals<const N: usize>(signals: &mut ArrayVec<Signal, N>) -> (r: Result<(), Signal>)
    ensures
        final(signals).wf(),
        registry_wf(final(signals)@),
        N == 0 ==> r is Err && final(signals)@.len() == 0,
        N > 0 ==> r is Ok && final(signals)@ == seq![Signal::new_spec(MONITORED_PIN)],
{
    signals.init();
    signals.try_push(Signal::new(MONITORED_PIN, EdgeCallback::Debounce))
}

/// One input to the debounce state machine.
#[derive(Clone, Copy, Debug, PartialEq, Eq, Structural)]
pub enum SignalEvent {
    Edge(LogicState),
    Tick,
}

pub open spec fn event_next(s: Signal, e: SignalEvent) -> Signal {
    match e {
        SignalEvent::Edge(level) => edge_next(s, level),
        SignalEvent::Tick => tick_next(s),
    }
}

/// `s` after the events, in order.
pub open spec fn run_events(s: Signal, events: Seq<SignalEvent>) -> Signal
    decreases events.len(),
{
    if events.len() == 0 {
        s
    } else {
        run_events(event_next(s, events[0]), events.drop_first())
    }
}

pub open spec fn ticks(n: nat) -> Seq<SignalEvent> {
    Seq::new(n, |i: int| SignalEvent::Tick)
}

/// For each pair, that many ticks followed by an edge reporting that level.
pub open spec fn bounce_events(bounce: Seq<(nat, LogicState)>) -> Seq<SignalEvent>
    decreases bounce.len(),
{
    if bounce.len() == 0 {
        Seq::empty()
    } else {
        ticks(bounce[0].0) + seq![SignalEvent::Edge(bounce[0].1)] + bounce_events(bounce.drop_first())
    }
}

pub open spec fn is_stabilizing(state: InputSignalState) -> bool {
    state == InputSignalState::StabilizingLow || state == InputSignalState::StabilizingHigh
}

/// The stable state that a stabilizing state converges to.
pub open spec fn settled(state: InputSignalState) -> InputSignalState {
    if state == InputSignalState::StabilizingLow {
        InputSignalState::StableLow
    } else {
        InputSignalState::StableHigh
    }
}

proof fn lemma_run_append(s: Signal, a: Seq<SignalEvent>, b: Seq<SignalEvent>)
    ensures
        run_events(s, a + b) == run_events(run_events(s, a), b),
    decreases a.len(),
{
    if a.len() > 0 {
        assert((a + b)[0] == a[0]);
        assert((a + b).drop_first() =~= a.drop_first() + b);
        lemma_run_append(event_next(s, a[0]), a.drop_first(), b);
    } else {
        assert(a + b =~= b);
    }
}

proof fn lemma_run_single(s: Signal, e: SignalEvent)
    ensures
        run_events(s, seq![e]) == event_next(s, e),
{
    assert(seq![e].drop_first() =~= Seq::<SignalEvent>::empty());
    assert(run_events(event_next(s, e), Seq::<SignalEvent>::empty()) == event_next(s, e));
}

proof fn lemma_stable_ignores_ticks(s: Signal, n: nat)
    requires
        s.state == InputSignalState::StableLow || s.state == InputSignalState::StableHigh,
    ensures
        run_events(s, ticks(n)) == s,
    decreases n,
{
    if n > 0 {
        assert(ticks(n).drop_first() =~= ticks((n - 1) as nat));
        lemma_stable_ignores_ticks(s, (n - 1) as nat);
    }
}

/// Timer ticks while stabilizing: below the threshold the count grows by one
/// per tick and the target is kept; once the count reaches the threshold the
/// signal is stable at its target level with the count reset, and further
/// ticks leave it there.
pub proof fn lemma_ticks_stabilize(s: Signal, n: nat)
    requires
        s.wf(),
        is_stabilizing(s.state),
    ensures
        s.stabilization_counter + n < STABILIZATION_TICKS ==> run_events(s, ticks(n)) == (Signal {
            stabilization_counter: (s.stabilization_counter + n) as u8,
            ..s
        }),
        s.stabilization_counter + n >= STABILIZATION_TICKS ==> run_events(s, ticks(n))
            == with_state(s, settled(s.state)),
    decreases n,
{
    if n > 0 {
        let t = tick_next(s);
        assert(ticks(n).drop_first() =~= ticks((n - 1) as nat));
        assert(ticks(n)[0] == SignalEvent::Tick);
        if s.stabilization_counter + 1 == STABILIZATION_TICKS {
            lemma_stable_ignores_ticks(t, (n - 1) as nat);
        } else {
            lemma_ticks_stabilize(t, (n - 1) as nat);
        }
    } else {
        assert(s == Signal { stabilization_counter: (s.stabilization_counter + n) as u8, ..s });
    }
}

/// An edge that arrives while stabilizing restarts the count and keeps the
/// target level.
pub proof fn lemma_edge_restarts_stabilization(s: Signal, level: LogicState)
    requires
        is_stabilizing(s.state),
    ensures
        edge_next(s, level).state == s.state,
        edge_next(s, level).stabilization_counter == 0,
        edge_next(s, level) == (Signal { stabilization_counter: 0, ..s }),
{
}

proof fn lemma_bounce_keeps_target(s: Signal, bounce: Seq<(nat, LogicState)>)
    requires
        s.wf(),
        is_stabilizing(s.state),
        s.stabilization_counter == 0,
        forall|i: int| 0 <= i < bounce.len() ==> (#[trigger] bounce[i]).0 < STABILIZATION_TICKS,
    ensures
        run_events(s, bounce_events(bounce)) == s,
    decreases bounce.len(),
{
    if bounce.len() > 0 {
        let gap = bounce[0].0;
        let rest = bounce.drop_first();
        assert(forall|i: int| 0 <= i < rest.len() ==> #[trigger] rest[i] == bounce[i + 1]);
        lemma_ticks_stabilize(s, gap);
        let after_gap = run_events(s, ticks(gap));
        let after_edge = run_events(after_gap, seq![SignalEvent::Edge(bounce[0].1)]);
        lemma_run_single(after_gap, SignalEvent::Edge(bounce[0].1));
        assert(after_edge == s);
        lemma_run_append(s, ticks(gap), seq![SignalEvent::Edge(bounce[0].1)]);
        lemma_run_append(s, ticks(gap) + seq![SignalEvent::Edge(bounce[0].1)], bounce_events(rest));
        lemma_bounce_keeps_target(s, rest);
    }
}

/// A newly registered signal driven low, held low long enough to settle,
/// then bounced by any number of edges with fewer than the threshold of
/// ticks between them, and finally left quiet for at least the threshold,
/// ends stable high with its count reset.
pub proof fn lemma_bounce_settles_high(
    pin: u8,
    settle_low: nat,
    first: LogicState,
    bounce: Seq<(nat, LogicState)>,
    quiet: nat,
)
    requires
        pin < 64,
        settle_low >= STABILIZATION_TICKS,
        quiet >= STABILIZATION_TICKS,
        forall|i: int| 0 <= i < bounce.len() ==> (#[trigger] bounce[i]).0 < STABILIZATION_TICKS,
    ensures
        run_events(
            Signal::new_spec(pin),
            seq![SignalEvent::Edge(LogicState::Low)] + ticks(settle_low) + seq![SignalEvent::Edge(first)]
                + bounce_events(bounce) + ticks(quiet),
        ) == with_state(Signal::new_spec(pin), InputSignalState::StableHigh),
{
    let s0 = Signal::new_spec(pin);
    let e_low = seq![SignalEvent::Edge(LogicState::Low)];
    let e_first = seq![SignalEvent::Edge(first)];
    let s1 = run_events(s0, e_low);
    lemma_run_single(s0, SignalEvent::Edge(LogicState::Low));
    assert(s1 == with_state(s0, InputSignalState::StabilizingLow));
    lemma_ticks_stabilize(s1, settle_low);
    let s2 = run_events(s1, ticks(settle_low));
    assert(s2 == with_state(s0, InputSignalState::StableLow));
    let s3 = run_events(s2, e_first);
    lemma_run_single(s2, SignalEvent::Edge(first));
    assert(s3 == with_state(s0, InputSignalState::StabilizingHigh));
    lemma_bounce_keeps_target(s3, bounce);
    lemma_ticks_stabilize(s3, quiet);
    lemma_run_append(s0, e_low, ticks(settle_low));
    lemma_run_append(s0, e_low + ticks(settle_low), e_first);
    lemma_run_append(s0, e_low + ticks(settle_low) + e_first, bounce_events(bounce));
    lemma_run_append(s0, e_low + ticks(settle_low) + e_first + bounce_events(bounce), ticks(quiet));
}

} // verus!
