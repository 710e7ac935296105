//! Identification of the PSRAM chip: the sequence of register accesses as a
//! state machine that the caller drives, and the decoding of the bytes that
//! the chip answers with.

use vstd::prelude::*;
use crate::protocol::{
    action_of, completes, detect_script, detect_step, lemma_detect_script_at, perform, Action,
    Step, DETECT_STEPS,
};

verus! {

/// The known-good-die code that a supported chip reports.
pub const KNOWN_GOOD_DIE: u32 = 0x5D;

/// Device byte of the one chip family whose size bits do not follow the table.
pub const IRREGULAR_DEVICE: u32 = 0x26;

/// One mebibyte, the unscaled capacity.
pub const MIB: u32 = 0x10_0000;

/// The size code: the device byte without its five low bits.
pub open spec fn size_code(eid: u32) -> int {
    eid as int / 32
}

/// Capacity in bytes that the two identification bytes stand for; 0 where
/// the manufacturer byte is not the known-good-die code.
pub open spec fn capacity_of(kgd: u32, eid: u32) -> int {
    if kgd != KNOWN_GOOD_DIE {
        0
    } else if eid == IRREGULAR_DEVICE || size_code(eid) == 2 {
        8 * MIB
    } else if size_code(eid) == 0 {
        2 * MIB
    } else if size_code(eid) == 1 {
        4 * MIB
    } else {
        MIB as int
    }
}

/// Decodes the manufacturer byte and the device byte into a capacity.
#[inline(always)]
pub fn decode_capacity(kgd: u32, eid: u32) -> (capacity: u32)
    ensures
        capacity == capacity_of(kgd, eid),
        capacity == 0 <==> kgd != KNOWN_GOOD_DIE,
{
    if kgd != KNOWN_GOOD_DIE {
        return 0;
    }
    let size_id: u32 = eid >> 5;
    assert(eid >> 5 == eid / 32) by (bit_vector);
    if eid == IRREGULAR_DEVICE || size_id == 2 {
        8 * MIB
    } else if size_id == 0 {
        2 * MIB
    } else if size_id == 1 {
        4 * MIB
    } else {
        MIB
    }
}

/// Where an identification stands: the step that is under way, and the two
/// identification bytes as far as they have been read.
#[derive(Clone, Copy, PartialEq, Eq, Structural, Debug)]
pub struct Probe {
    /// Index of the step under way; `DETECT_STEPS` or more once all are done.
    pub pc: u8,
    /// The manufacturer byte, 0 until it is read.
    pub kgd: u32,
    /// The device byte, 0 until it is read.
    pub eid: u32,
}

impl Probe {
    /// The state before the first step.
    pub open spec fn initial() -> Probe {
        Probe { pc: 0, kgd: 0, eid: 0 }
    }

    /// Whether every step has been carried out.
    pub open spec fn done(self) -> bool {
        self.pc >= DETECT_STEPS
    }

    /// The capacity that the bytes read so far stand for.
    pub open spec fn capacity(self) -> int {
        capacity_of(self.kgd, self.eid)
    }

    /// What the caller is to do in this state: the action of the step under
    /// way, or nothing more once the identification is done.
    pub open spec fn pending(self) -> Action {
        if self.done() {
            Action::Finished { capacity: self.capacity() as u32 }
        } else {
            action_of(detect_script()[self.pc as int])
        }
    }

    /// The state after the pending action has brought `event`. A wait that
    /// `event` does not end leaves the state as it is; a step that takes an
    /// identification byte stores `event`; a finished identification stays
    /// finished.
    pub open spec fn after(self, event: u32) -> Probe {
        if self.done() {
            self
        } else {
            let step = detect_script()[self.pc as int];
            if !completes(step, event) {
                self
            } else {
                Probe {
                    pc: (self.pc + 1) as u8,
                    kgd: if step == Step::TakeKgd {
                        event
                    } else {
                        self.kgd
                    },
                    eid: if step == Step::TakeEid {
                        event
                    } else {
                        self.eid
                    },
                }
            }
        }
    }

    /// The state after the events of `events`, each handed back in turn.
    pub open spec fn run(self, events: Seq<u32>) -> Probe
        decreases events.len(),
    {
        if events.len() == 0 {
            self
        } else {
            self.after(events[0]).run(events.drop_first())
        }
    }

    /// A new identification, before its first step.
    #[inline(always)]
    pub fn new() -> (p: Probe)
        ensures
            p == Probe::initial(),
    {
        Probe { pc: 0, kgd: 0, eid: 0 }
    }

    /// The action to carry out in this state.
    #[inline(always)]
    pub fn action(&self) -> (a: Action)
        ensures
            a == self.pending(),
    {
        if self.pc >= DETECT_STEPS {
            Action::Finished { capacity: decode_capacity(self.kgd, self.eid) }
        } else {
            perform(detect_step(self.pc), 0).0
        }
    }

    /// The state after the pending action has brought `event`.
    #[inline(always)]
    pub fn advance(self, event: u32) -> (next: Probe)
        ensures
            next == self.after(event),
    {
        if self.pc >= DETECT_STEPS {
            return self;
        }
        let step = detect_step(self.pc);
        if !perform(step, event).1 {
            return self;
        }
        match step {
            Step::TakeKgd => Probe { pc: self.pc + 1, kgd: event, eid: self.eid },
            Step::TakeEid => Probe { pc: self.pc + 1, kgd: self.kgd, eid: event },
            _ => Probe { pc: self.pc + 1, kgd: self.kgd, eid: self.eid },
        }
    }
}

/// One turn of the identification: takes the state and the event that its
/// pending action brought, and gives the next state with the action to carry
/// out next. The action is `Finished` with the decoded capacity once the
/// last step is over; 0 stands for no supported chip.
#[inline(always)]
pub fn detect_psram(state: Probe, event: u32) -> (r: (Probe, Action))
    ensures
        r.0 == state.after(event),
        r.1 == r.0.pending(),
{
    let next = state.advance(event);
    let action = next.action();
    (next, action)
}

/// Index of the step that takes the manufacturer byte.
pub const KGD_STEP: u8 = 31;

/// Index of the step that takes the device byte.
pub const EID_STEP: u8 = 35;

/// From step `state.pc` on, events that end each step at once bring the
/// identification to its end, and the bytes kept are the events of the two
/// steps that take them.
pub proof fn lemma_ready_run_from(state: Probe, events: Seq<u32>)
    requires
        state.pc <= DETECT_STEPS,
        events.len() == DETECT_STEPS - state.pc,
        forall|j: int|
            0 <= j < events.len() ==> completes(
                #[trigger] detect_script()[state.pc + j],
                events[j],
            ),
    ensures
        state.run(events).pc == DETECT_STEPS,
        state.run(events).kgd == if state.pc <= KGD_STEP {
            events[KGD_STEP - state.pc]
        } else {
            state.kgd
        },
        state.run(events).eid == if state.pc <= EID_STEP {
            events[EID_STEP - state.pc]
        } else {
            state.eid
        },
    decreases events.len(),
{
    if events.len() > 0 {
        let next = state.after(events[0]);
        let rest = events.drop_first();
        lemma_detect_script_at(state.pc as int);
        assert(completes(detect_script()[state.pc + 0], events[0]));
        assert(next.pc == state.pc + 1);
        assert forall|j: int| 0 <= j < rest.len() implies completes(
            #[trigger] detect_script()[next.pc + j],
            rest[j],
        ) by {
            assert(completes(detect_script()[state.pc + (j + 1)], events[j + 1]));
        }
        lemma_ready_run_from(next, rest);
    }
}

/// A chip that is ready at every wait is identified in `DETECT_STEPS` turns,
/// and the capacity found is that of response 5, the manufacturer byte, and
/// response 6, the device byte, which are the events of steps `KGD_STEP`
/// and `EID_STEP`.
pub proof fn lemma_ready_run(events: Seq<u32>)
    requires
        events.len() == DETECT_STEPS,
        forall|i: int| 0 <= i < DETECT_STEPS ==> completes(#[trigger] detect_script()[i], events[i]),
    ensures
        Probe::initial().run(events).done(),
        Probe::initial().run(events).pending() == (Action::Finished {
            capacity: capacity_of(events[KGD_STEP as int], events[EID_STEP as int]) as u32,
        }),
{
    lemma_ready_run_from(Probe::initial(), events);
}

} // verus!
