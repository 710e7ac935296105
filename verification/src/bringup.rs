//! Configuration of the memory controller for the PSRAM chip: identification
//! first, then, where a chip answered, the programming sequence.
//!
//! While direct mode is on, the controller serves no memory-mapped access,
//! so a caller that runs from flash behind the same controller has to sit in
//! RAM for that time. Every function on the way of a turn is inlined into
//! its caller for that reason, and the timing parameters, whose derivation
//! divides 64-bit numbers, are worked out before the first step.

use vstd::prelude::*;
use crate::probe::{capacity_of, decode_capacity, Probe, EID_STEP, KGD_STEP, KNOWN_GOOD_DIE};
use crate::protocol::{
    action_of, completes, detect_script, lemma_detect_len, lemma_detect_script_at,
    lemma_detect_spares_mapping, perform, program_script, program_step, touches_mapping, Action,
    Step, DETECT_STEPS, PROGRAM_STEPS,
};
use crate::timing::{derive_timing, timing_of, TimingParams};

verus! {

/// Where a configuration stands.
#[derive(Clone, Copy, PartialEq, Eq, Structural, Debug)]
pub struct Bringup {
    /// The system clock frequency that every timing value is derived from.
    pub clock_hz: u32,
    /// The timing parameters, derived once from `clock_hz`.
    pub timing: TimingParams,
    /// The identification that runs first.
    pub probe: Probe,
    /// Index of the programming step under way.
    pub pc: u8,
}

impl Bringup {
    /// A configuration needs a clock that runs, and its timing parameters
    /// are those of that clock.
    pub open spec fn wf(self) -> bool {
        self.clock_hz > 0 && self.timing == timing_of(self.clock_hz)
    }

    /// The state before the first step.
    pub open spec fn initial(clock_hz: u32) -> Bringup {
        Bringup { clock_hz, timing: timing_of(clock_hz), probe: Probe::initial(), pc: 0 }
    }

    /// Whether the programming sequence is under way: the identification is
    /// done, it found a chip, and a programming step is left.
    pub open spec fn programming(self) -> bool {
        self.probe.done() && self.probe.capacity() != 0 && self.pc < PROGRAM_STEPS
    }

    /// What the caller is to do in this state: the pending action of the
    /// identification until it is done; then the action of the programming
    /// step under way; nothing more once those are over, or where the
    /// identification found no chip.
    pub open spec fn pending(self) -> Action {
        if !self.probe.done() {
            self.probe.pending()
        } else if self.programming() {
            action_of(program_script(self.timing)[self.pc as int])
        } else {
            Action::Finished { capacity: self.probe.capacity() as u32 }
        }
    }

    /// The state after the pending action has brought `event`.
    pub open spec fn after(self, event: u32) -> Bringup {
        if !self.probe.done() {
            Bringup { probe: self.probe.after(event), ..self }
        } else if self.programming() && completes(
            program_script(self.timing)[self.pc as int],
            event,
        ) {
            Bringup { pc: (self.pc + 1) as u8, ..self }
        } else {
            self
        }
    }

    /// The state after the events of `events`, each handed back in turn.
    pub open spec fn run(self, events: Seq<u32>) -> Bringup
        decreases events.len(),
    {
        if events.len() == 0 {
            self
        } else {
            self.after(events[0]).run(events.drop_first())
        }
    }

    /// The capacity that the state reports, where it has finished.
    pub open spec fn reported(self) -> Option<u32> {
        match self.pending() {
            Action::Finished { capacity } => Some(capacity),
            _ => None,
        }
    }

    /// A new configuration for a system clock of `clock_hz`.
    pub fn new(clock_hz: u32) -> (b: Bringup)
        requires
            clock_hz > 0,
        ensures
            b == Bringup::initial(clock_hz),
            b.wf(),
    {
        Bringup { clock_hz, timing: derive_timing(clock_hz), probe: Probe::new(), pc: 0 }
    }

    /// The action to carry out in this state.
    #[inline(always)]
    pub fn action(&self) -> (a: Action)
        ensures
            a == self.pending(),
    {
        if self.probe.pc < DETECT_STEPS {
            return self.probe.action();
        }
        let capacity = decode_capacity(self.probe.kgd, self.probe.eid);
        if capacity != 0 && self.pc < PROGRAM_STEPS {
            perform(program_step(self.timing, self.pc), 0).0
        } else {
            Action::Finished { capacity }
        }
    }

    /// The state after the pending action has brought `event`.
    #[inline(always)]
    pub fn advance(self, event: u32) -> (next: Bringup)
        ensures
            next == self.after(event),
            next.clock_hz == self.clock_hz,
            next.timing == self.timing,
            self.wf() ==> next.wf(),
    {
        if self.probe.pc < DETECT_STEPS {
            return Bringup { probe: self.probe.advance(event), ..self };
        }
        let capacity = decode_capacity(self.probe.kgd, self.probe.eid);
        if capacity != 0 && self.pc < PROGRAM_STEPS && perform(
            program_step(self.timing, self.pc),
            event,
        ).1 {
            Bringup { pc: self.pc + 1, ..self }
        } else {
            self
        }
    }
}

/// One turn of the configuration: takes the state and the event that its
/// pending action brought, and gives the next state with the action to carry
/// out next. The action is `Finished` with capacity 0 as soon as the
/// identification ends without a supported chip, and `Finished` with the
/// chip's capacity once the last programming step is over.
#[inline(always)]
pub fn psram_init(state: Bringup, event: u32) -> (r: (Bringup, Action))
    ensures
        r.0 == state.after(event),
        r.1 == r.0.pending(),
        state.wf() ==> r.0.wf(),
{
    let next = state.advance(event);
    let action = next.action();
    (next, action)
}

/// A write to a register that shapes the memory-mapped window is pending
/// only after an identification that found a chip.
pub proof fn lemma_mapping_needs_chip(state: Bringup)
    ensures
        touches_mapping(state.pending()) ==> state.probe.done() && state.probe.capacity() != 0,
{
    lemma_detect_spares_mapping();
}

/// Running over a sequence of events is running over its first `n` and then
/// over the rest.
pub proof fn lemma_run_split(state: Bringup, events: Seq<u32>, n: int)
    requires
        0 <= n <= events.len(),
    ensures
        state.run(events) == state.run(events.take(n)).run(events.skip(n)),
    decreases n,
{
    if n == 0 {
        assert(events.skip(0) =~= events);
    } else {
        let next = state.after(events[0]);
        lemma_run_split(next, events.drop_first(), n - 1);
        assert(events.take(n).drop_first() =~= events.drop_first().take(n - 1));
        assert(events.skip(n) =~= events.drop_first().skip(n - 1));
    }
}

/// Once the identification has found a chip, no later event takes that back.
pub proof fn lemma_chip_stays_found(state: Bringup, events: Seq<u32>)
    requires
        state.probe.done(),
        state.probe.capacity() != 0,
    ensures
        state.run(events).probe == state.probe,
        state.run(events).reported() != Some(0u32),
    decreases events.len(),
{
    if events.len() > 0 {
        lemma_chip_stays_found(state.after(events[0]), events.drop_first());
    }
}

/// A configuration that ends with capacity 0 has not, at any point on its
/// way, asked for a write to a register that shapes the memory-mapped
/// window.
pub proof fn lemma_absent_chip_never_programs(clock_hz: u32, events: Seq<u32>, n: int)
    requires
        0 <= n <= events.len(),
        Bringup::initial(clock_hz).run(events).reported() == Some(0u32),
    ensures
        !touches_mapping(Bringup::initial(clock_hz).run(events.take(n)).pending()),
{
    let mid = Bringup::initial(clock_hz).run(events.take(n));
    lemma_run_split(Bringup::initial(clock_hz), events, n);
    lemma_mapping_needs_chip(mid);
    if touches_mapping(mid.pending()) {
        lemma_chip_stays_found(mid, events.skip(n));
    }
}

/// Two configurations that are at the same step with the same bytes read
/// stay so over the same events, whatever their clocks.
pub proof fn lemma_run_ignores_clock(a: Bringup, b: Bringup, events: Seq<u32>)
    requires
        a.probe == b.probe,
        a.pc == b.pc,
    ensures
        a.run(events).probe == b.run(events).probe,
        a.run(events).pc == b.run(events).pc,
        a.run(events).reported() == b.run(events).reported(),
    decreases events.len(),
{
    if events.len() > 0 {
        lemma_run_ignores_clock(a.after(events[0]), b.after(events[0]), events.drop_first());
    }
}

/// The capacity that a configuration reports depends on what the chip
/// answers alone: over the same events a second configuration reports what
/// the first did, at the same clock or at another.
pub proof fn lemma_capacity_repeats(first_hz: u32, second_hz: u32, events: Seq<u32>)
    ensures
        Bringup::initial(first_hz).run(events).reported() == Bringup::initial(second_hz).run(
            events,
        ).reported(),
{
    lemma_run_ignores_clock(Bringup::initial(first_hz), Bringup::initial(second_hz), events);
}

/// What a finished configuration reports is the capacity that the two
/// identification bytes stand for.
pub proof fn lemma_reported_capacity(state: Bringup)
    ensures
        state.reported() is Some ==> state.probe.done() && state.reported() == Some(
            state.probe.capacity() as u32,
        ),
{
    if !state.probe.done() {
        lemma_detect_script_at(state.probe.pc as int);
    }
}

/// The identification inside a configuration runs as it would alone.
pub proof fn lemma_run_follows_probe(state: Bringup, events: Seq<u32>)
    ensures
        state.run(events).probe == state.probe.run(events),
    decreases events.len(),
{
    if events.len() > 0 {
        lemma_run_follows_probe(state.after(events[0]), events.drop_first());
    }
}

/// The identification sequence followed by the programming sequence.
pub open spec fn full_script(clock_hz: u32) -> Seq<Step> {
    detect_script() + program_script(timing_of(clock_hz))
}

/// Whether `events` are those of a chip that is ready at every wait of the
/// full sequence: one event for each step, and each ends its step.
pub open spec fn ready_events(clock_hz: u32, events: Seq<u32>) -> bool {
    &&& events.len() == DETECT_STEPS + PROGRAM_STEPS
    &&& forall|i: int|
        0 <= i < DETECT_STEPS + PROGRAM_STEPS ==> completes(
            #[trigger] full_script(clock_hz)[i],
            events[i],
        )
}

/// The state that the first `n` events of a ready chip lead to: `n` steps
/// on, with each identification byte in place once its step is over.
pub open spec fn ready_state(clock_hz: u32, events: Seq<u32>, n: int) -> Bringup {
    Bringup {
        clock_hz,
        timing: timing_of(clock_hz),
        probe: Probe {
            pc: (if n < DETECT_STEPS {
                n
            } else {
                DETECT_STEPS as int
            }) as u8,
            kgd: if n > KGD_STEP {
                events[KGD_STEP as int]
            } else {
                0
            },
            eid: if n > EID_STEP {
                events[EID_STEP as int]
            } else {
                0
            },
        },
        pc: (if n < DETECT_STEPS {
            0
        } else {
            n - DETECT_STEPS
        }) as u8,
    }
}

/// With a chip that is ready at every wait and is found, every event takes
/// the configuration one step on.
pub proof fn lemma_ready_states(clock_hz: u32, events: Seq<u32>, n: int)
    requires
        ready_events(clock_hz, events),
        capacity_of(events[KGD_STEP as int], events[EID_STEP as int]) != 0,
        0 <= n <= DETECT_STEPS + PROGRAM_STEPS,
    ensures
        Bringup::initial(clock_hz).run(events.take(n)) == ready_state(clock_hz, events, n),
    decreases n,
{
    let start = Bringup::initial(clock_hz);
    if n == 0 {
        assert(events.take(0).len() == 0);
    } else {
        lemma_ready_states(clock_hz, events, n - 1);
        let upto = events.take(n);
        let prev = ready_state(clock_hz, events, n - 1);
        let event = events[n - 1];
        lemma_run_split(start, upto, n - 1);
        assert(upto.take(n - 1) =~= events.take(n - 1));
        assert(upto.skip(n - 1) =~= seq![event]);
        assert(seq![event].drop_first().len() == 0);
        assert(prev.run(seq![event]) == prev.after(event)) by {
            reveal_with_fuel(Bringup::run, 2);
        }
        assert(completes(full_script(clock_hz)[n - 1], event));
        lemma_detect_len();
        if n - 1 < DETECT_STEPS {
            lemma_detect_script_at(n - 1);
            assert(full_script(clock_hz)[n - 1] == detect_script()[n - 1]);
        } else {
            assert(full_script(clock_hz)[n - 1] == program_script(timing_of(clock_hz))[n - 1
                - DETECT_STEPS]);
        }
        assert(prev.after(event) == ready_state(clock_hz, events, n));
    }
}

/// With a chip that is ready at every wait and is found, the actions asked
/// for are those of the identification sequence and then of the programming
/// sequence, each once and in order, and after the last the capacity of the
/// chip is reported.
pub proof fn lemma_ready_trace(clock_hz: u32, events: Seq<u32>, n: int)
    requires
        ready_events(clock_hz, events),
        capacity_of(events[KGD_STEP as int], events[EID_STEP as int]) != 0,
        0 <= n <= DETECT_STEPS + PROGRAM_STEPS,
    ensures
        n < DETECT_STEPS + PROGRAM_STEPS ==> Bringup::initial(clock_hz).run(
            events.take(n),
        ).pending() == action_of(full_script(clock_hz)[n]),
        n == DETECT_STEPS + PROGRAM_STEPS ==> Bringup::initial(clock_hz).run(events).reported()
            == Some(capacity_of(events[KGD_STEP as int], events[EID_STEP as int]) as u32),
{
    lemma_ready_states(clock_hz, events, n);
    lemma_detect_len();
    if n < DETECT_STEPS {
        assert(full_script(clock_hz)[n] == detect_script()[n]);
    } else if n < DETECT_STEPS + PROGRAM_STEPS {
        assert(full_script(clock_hz)[n] == program_script(timing_of(clock_hz))[n - DETECT_STEPS]);
    } else {
        assert(events.take(n) =~= events);
    }
}

/// With a chip that is ready at every wait of the identification but does
/// not answer with the known-good-die code, the configuration reports 0 as
/// soon as the identification is over.
pub proof fn lemma_ready_absent(clock_hz: u32, events: Seq<u32>)
    requires
        events.len() == DETECT_STEPS,
        forall|i: int| 0 <= i < DETECT_STEPS ==> completes(#[trigger] detect_script()[i], events[i]),
        events[KGD_STEP as int] != KNOWN_GOOD_DIE,
    ensures
        Bringup::initial(clock_hz).run(events).reported() == Some(0u32),
{
    crate::probe::lemma_ready_run(events);
    lemma_run_follows_probe(Bringup::initial(clock_hz), events);
}

} // verus!
