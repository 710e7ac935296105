//! The register protocol of the bring-up as data: the steps of the
//! identification sequence and of the programming sequence, in order.

use vstd::prelude::*;
use crate::regs::{
    direct_enable_word, pack_direct_enable, pack_read_format, pack_timing, pack_write_format,
    read_format_word, timing_word, write_format_word, Reg, CSR_ASSERT_CS1N, CSR_BUSY, CSR_EN,
    CSR_TXEMPTY, FILL_BYTE, OP_QUAD_ENTER, OP_QUAD_READ, OP_QUAD_SETUP, OP_QUAD_WRITE, OP_READ_ID,
    PROBE_CLKDIV, SETUP_CLKDIV, TX_IWIDTH_QUAD, TX_NOPUSH, TX_OE, XIP_WRITABLE_M1,
};
use crate::timing::TimingParams;

verus! {

/// One step of a sequence.
#[derive(Clone, Copy, PartialEq, Eq, Structural, Debug)]
pub enum Step {
    /// Write `value` to `reg`.
    Write { reg: Reg, value: u32 },
    /// Read `reg`, clear the bits of `clear`, set those of `set`, write back.
    Modify { reg: Reg, clear: u32, set: u32 },
    /// Read the direct mode status until every bit of `mask` reads 0.
    AwaitClear { mask: u32 },
    /// Read the direct mode status until every bit of `mask` reads 1.
    AwaitSet { mask: u32 },
    /// Take one response out of the receive queue and drop it.
    Discard,
    /// Take one response out of the receive queue as the manufacturer byte.
    TakeKgd,
    /// Take one response out of the receive queue as the device byte.
    TakeEid,
}

/// What the caller is to do with the hardware next.
#[derive(Clone, Copy, PartialEq, Eq, Structural, Debug)]
pub enum Action {
    /// Write `value` to `reg`; the event to hand back is ignored.
    Write { reg: Reg, value: u32 },
    /// Read `reg`, clear the bits of `clear`, set those of `set`, write back;
    /// the event to hand back is ignored.
    Modify { reg: Reg, clear: u32, set: u32 },
    /// Read `reg` once and hand the value back as the event.
    Read { reg: Reg },
    /// Nothing more: the sequence has ended with this capacity in bytes.
    Finished { capacity: u32 },
}

/// Number of bytes exchanged to read the identification.
pub const ID_BYTES: u8 = 7;

/// Index of the response that holds the manufacturer byte.
pub const KGD_INDEX: u8 = 5;

/// Index of the response that holds the device byte.
pub const EID_INDEX: u8 = 6;

/// Number of steps in the identification sequence.
pub const DETECT_STEPS: u8 = 37;

/// Number of steps in the programming sequence.
pub const PROGRAM_STEPS: u8 = 11;

/// The action that carries a step out.
pub open spec fn action_of(step: Step) -> Action {
    match step {
        Step::Write { reg, value } => Action::Write { reg, value },
        Step::Modify { reg, clear, set } => Action::Modify { reg, clear, set },
        Step::AwaitClear { mask } => Action::Read { reg: Reg::DirectCsr },
        Step::AwaitSet { mask } => Action::Read { reg: Reg::DirectCsr },
        Step::Discard => Action::Read { reg: Reg::DirectRx },
        Step::TakeKgd => Action::Read { reg: Reg::DirectRx },
        Step::TakeEid => Action::Read { reg: Reg::DirectRx },
    }
}

/// Whether the step is over once its action has brought `event`: a wait is
/// over when the status shows what it waits for, any other step at once.
pub open spec fn completes(step: Step, event: u32) -> bool {
    match step {
        Step::AwaitClear { mask } => event & mask == 0,
        Step::AwaitSet { mask } => event & mask == mask,
        _ => true,
    }
}

/// Start of the identification: direct mode on at a slow clock, wait out the
/// cooldown, select the chip, send the quad mode opcode on four lines, drop
/// the response, then deselect and select again.
pub open spec fn detect_prelude() -> Seq<Step> {
    seq![
        Step::Write { reg: Reg::DirectCsr, value: direct_enable_word(PROBE_CLKDIV, false) },
        Step::AwaitClear { mask: CSR_BUSY },
        Step::Modify { reg: Reg::DirectCsr, clear: 0, set: CSR_ASSERT_CS1N },
        Step::Write { reg: Reg::DirectTx, value: TX_OE | TX_IWIDTH_QUAD | OP_QUAD_ENTER },
        Step::AwaitClear { mask: CSR_BUSY },
        Step::Discard,
        Step::Modify { reg: Reg::DirectCsr, clear: CSR_ASSERT_CS1N, set: 0 },
        Step::Modify { reg: Reg::DirectCsr, clear: 0, set: CSR_ASSERT_CS1N },
    ]
}

/// The byte sent in round `i` of the identification: the opcode first, then
/// fill bytes.
pub open spec fn id_byte(i: int) -> u32 {
    if i == 0 {
        OP_READ_ID
    } else {
        FILL_BYTE
    }
}

/// What becomes of the response of round `i`.
pub open spec fn id_take(i: int) -> Step {
    if i == KGD_INDEX {
        Step::TakeKgd
    } else if i == EID_INDEX {
        Step::TakeEid
    } else {
        Step::Discard
    }
}

/// Round `i` of the identification: send a byte, wait until the queue is
/// empty and the bus idle, take the response.
pub open spec fn id_round(i: int) -> Seq<Step> {
    seq![
        Step::Write { reg: Reg::DirectTx, value: id_byte(i) },
        Step::AwaitSet { mask: CSR_TXEMPTY },
        Step::AwaitClear { mask: CSR_BUSY },
        id_take(i),
    ]
}

/// The first `n` rounds of the identification.
pub open spec fn id_rounds(n: int) -> Seq<Step>
    decreases n,
{
    if n <= 0 {
        Seq::empty()
    } else {
        id_rounds(n - 1) + id_round(n - 1)
    }
}

/// End of the identification: deselect the chip and turn direct mode off.
pub open spec fn detect_finale() -> Seq<Step> {
    seq![Step::Modify { reg: Reg::DirectCsr, clear: CSR_ASSERT_CS1N | CSR_EN, set: 0 }]
}

/// The identification sequence.
pub open spec fn detect_script() -> Seq<Step> {
    detect_prelude() + id_rounds(ID_BYTES as int) + detect_finale()
}

/// The programming sequence with the timing parameters `timing`: direct
/// mode on with automatic chip select, the bus mode opcode with its response
/// suppressed, the timing register, the read and write formats and commands,
/// direct mode off, and the window made writable.
pub open spec fn program_script(timing: TimingParams) -> Seq<Step> {
    seq![
        Step::Write { reg: Reg::DirectCsr, value: direct_enable_word(SETUP_CLKDIV, true) },
        Step::AwaitClear { mask: CSR_BUSY },
        Step::Write { reg: Reg::DirectTx, value: TX_NOPUSH | OP_QUAD_SETUP },
        Step::AwaitClear { mask: CSR_BUSY },
        Step::Write { reg: Reg::M1Timing, value: timing_word(timing) },
        Step::Write { reg: Reg::M1Rfmt, value: read_format_word() },
        Step::Write { reg: Reg::M1Rcmd, value: OP_QUAD_READ },
        Step::Write { reg: Reg::M1Wfmt, value: write_format_word() },
        Step::Write { reg: Reg::M1Wcmd, value: OP_QUAD_WRITE },
        Step::Write { reg: Reg::DirectCsr, value: 0 },
        Step::Modify { reg: Reg::XipCtrl, clear: 0, set: XIP_WRITABLE_M1 },
    ]
}

/// Length of the rounds, and where each step of a round stands.
pub proof fn lemma_id_rounds(n: int)
    requires
        0 <= n,
    ensures
        id_rounds(n).len() == 4 * n,
        forall|i: int, k: int|
            0 <= i < n && 0 <= k < 4 ==> #[trigger] id_rounds(n)[4 * i + k] == id_round(i)[k],
    decreases n,
{
    if n > 0 {
        lemma_id_rounds(n - 1);
        assert forall|i: int, k: int| 0 <= i < n && 0 <= k < 4 implies #[trigger] id_rounds(n)[4
            * i + k] == id_round(i)[k] by {
            if i < n - 1 {
                assert(id_rounds(n)[4 * i + k] == id_rounds(n - 1)[4 * i + k]);
            } else {
                assert(id_rounds(n)[4 * i + k] == id_round(n - 1)[k]);
            }
        }
    }
}

/// The identification sequence has `DETECT_STEPS` steps.
pub proof fn lemma_detect_len()
    ensures
        detect_script().len() == DETECT_STEPS,
        detect_prelude().len() == 8,
{
    lemma_id_rounds(ID_BYTES as int);
}

/// Step `pc` of the identification sequence.
#[inline(always)]
pub fn detect_step(pc: u8) -> (step: Step)
    requires
        pc < DETECT_STEPS,
    ensures
        step == detect_script()[pc as int],
{
    proof {
        lemma_id_rounds(ID_BYTES as int);
    }
    if pc < 8 {
        if pc == 0 {
            Step::Write { reg: Reg::DirectCsr, value: pack_direct_enable(PROBE_CLKDIV, false) }
        } else if pc == 1 || pc == 4 {
            Step::AwaitClear { mask: CSR_BUSY }
        } else if pc == 2 || pc == 7 {
            Step::Modify { reg: Reg::DirectCsr, clear: 0, set: CSR_ASSERT_CS1N }
        } else if pc == 3 {
            Step::Write { reg: Reg::DirectTx, value: TX_OE | TX_IWIDTH_QUAD | OP_QUAD_ENTER }
        } else if pc == 5 {
            Step::Discard
        } else {
            Step::Modify { reg: Reg::DirectCsr, clear: CSR_ASSERT_CS1N, set: 0 }
        }
    } else if pc < 36 {
        let round: u8 = (pc - 8) / 4;
        let part: u8 = (pc - 8) % 4;
        assert(detect_script()[pc as int] == id_rounds(ID_BYTES as int)[4 * (round as int) + (
        part as int)]);
        assert(id_rounds(ID_BYTES as int)[4 * (round as int) + (part as int)] == id_round(
            round as int,
        )[part as int]);
        if part == 0 {
            Step::Write {
                reg: Reg::DirectTx,
                value: if round == 0 {
                    OP_READ_ID
                } else {
                    FILL_BYTE
                },
            }
        } else if part == 1 {
            Step::AwaitSet { mask: CSR_TXEMPTY }
        } else if part == 2 {
            Step::AwaitClear { mask: CSR_BUSY }
        } else if round == KGD_INDEX {
            Step::TakeKgd
        } else if round == EID_INDEX {
            Step::TakeEid
        } else {
            Step::Discard
        }
    } else {
        Step::Modify { reg: Reg::DirectCsr, clear: CSR_ASSERT_CS1N | CSR_EN, set: 0 }
    }
}

/// Step `pc` of the programming sequence with the timing parameters
/// `timing`.
#[inline(always)]
pub fn program_step(timing: TimingParams, pc: u8) -> (step: Step)
    requires
        pc < PROGRAM_STEPS,
    ensures
        step == program_script(timing)[pc as int],
{
    if pc == 0 {
        Step::Write { reg: Reg::DirectCsr, value: pack_direct_enable(SETUP_CLKDIV, true) }
    } else if pc == 1 || pc == 3 {
        Step::AwaitClear { mask: CSR_BUSY }
    } else if pc == 2 {
        Step::Write { reg: Reg::DirectTx, value: TX_NOPUSH | OP_QUAD_SETUP }
    } else if pc == 4 {
        Step::Write { reg: Reg::M1Timing, value: pack_timing(timing) }
    } else if pc == 5 {
        Step::Write { reg: Reg::M1Rfmt, value: pack_read_format() }
    } else if pc == 6 {
        Step::Write { reg: Reg::M1Rcmd, value: OP_QUAD_READ }
    } else if pc == 7 {
        Step::Write { reg: Reg::M1Wfmt, value: pack_write_format() }
    } else if pc == 8 {
        Step::Write { reg: Reg::M1Wcmd, value: OP_QUAD_WRITE }
    } else if pc == 9 {
        Step::Write { reg: Reg::DirectCsr, value: 0 }
    } else {
        Step::Modify { reg: Reg::XipCtrl, clear: 0, set: XIP_WRITABLE_M1 }
    }
}

/// The action that carries a step out, and whether `event` ends the step.
#[inline(always)]
pub fn perform(step: Step, event: u32) -> (r: (Action, bool))
    ensures
        r.0 == action_of(step),
        r.1 == completes(step, event),
{
    match step {
        Step::Write { reg, value } => (Action::Write { reg, value }, true),
        Step::Modify { reg, clear, set } => (Action::Modify { reg, clear, set }, true),
        Step::AwaitClear { mask } => (Action::Read { reg: Reg::DirectCsr }, event & mask == 0),
        Step::AwaitSet { mask } => (Action::Read { reg: Reg::DirectCsr }, event & mask == mask),
        Step::Discard => (Action::Read { reg: Reg::DirectRx }, true),
        Step::TakeKgd => (Action::Read { reg: Reg::DirectRx }, true),
        Step::TakeEid => (Action::Read { reg: Reg::DirectRx }, true),
    }
}

/// Whether a step turns direct mode on.
pub open spec fn turns_direct_on(step: Step) -> bool {
    match step {
        Step::Write { reg, value } => reg == Reg::DirectCsr && value & CSR_EN != 0,
        Step::Modify { reg, clear, set } => reg == Reg::DirectCsr && set & CSR_EN != 0,
        _ => false,
    }
}

/// Whether a step turns direct mode off.
pub open spec fn turns_direct_off(step: Step) -> bool {
    match step {
        Step::Write { reg, value } => reg == Reg::DirectCsr && value & CSR_EN == 0,
        Step::Modify { reg, clear, set } => reg == Reg::DirectCsr && clear & CSR_EN != 0 && set
            & CSR_EN == 0,
        _ => false,
    }
}

/// Whether an action writes to a register that shapes the memory-mapped
/// window: the timing, a format or a command of the second chip select, or
/// the control register of the XIP controller.
pub open spec fn touches_mapping(action: Action) -> bool {
    match action {
        Action::Write { reg, value } => reg != Reg::DirectCsr && reg != Reg::DirectTx && reg
            != Reg::DirectRx,
        Action::Modify { reg, clear, set } => reg != Reg::DirectCsr && reg != Reg::DirectTx
            && reg != Reg::DirectRx,
        _ => false,
    }
}

/// Where step `i` of the identification sequence comes from: the prelude,
/// a part of a round, or the finale.
pub proof fn lemma_detect_script_at(i: int)
    requires
        0 <= i < DETECT_STEPS,
    ensures
        i < 8 ==> detect_script()[i] == detect_prelude()[i],
        8 <= i < 36 ==> detect_script()[i] == id_round((i - 8) / 4)[(i - 8) % 4],
        i == 36 ==> detect_script()[i] == detect_finale()[0],
{
    lemma_id_rounds(ID_BYTES as int);
    if 8 <= i < 36 {
        let round = (i - 8) / 4;
        let part = (i - 8) % 4;
        assert(detect_script()[i] == id_rounds(ID_BYTES as int)[4 * round + part]);
    }
}

/// The identification turns direct mode on in its first step and in no
/// other, and off in its last step and in no other: one pair, and direct
/// mode is off when the sequence ends.
pub proof fn lemma_detect_brackets_direct_mode()
    ensures
        forall|i: int|
            0 <= i < DETECT_STEPS ==> (turns_direct_on(#[trigger] detect_script()[i]) <==> i == 0),
        forall|i: int|
            0 <= i < DETECT_STEPS ==> (turns_direct_off(#[trigger] detect_script()[i]) <==> i
                == DETECT_STEPS - 1),
{
    assert(((30u32 << 22) | 1u32 | 0u32) & 1u32 != 0) by (bit_vector);
    assert(8u32 & 1u32 == 0 && 0u32 & 1u32 == 0 && (8u32 | 1u32) & 1u32 != 0) by (bit_vector);
    assert forall|i: int| 0 <= i < DETECT_STEPS implies (turns_direct_on(
        #[trigger] detect_script()[i],
    ) <==> i == 0) && (turns_direct_off(detect_script()[i]) <==> i == DETECT_STEPS - 1) by {
        lemma_detect_script_at(i);
    }
}

/// No step of the identification writes to a register that shapes the
/// memory-mapped window.
pub proof fn lemma_detect_spares_mapping()
    ensures
        forall|i: int|
            0 <= i < DETECT_STEPS ==> !touches_mapping(action_of(#[trigger] detect_script()[i])),
{
    assert forall|i: int| 0 <= i < DETECT_STEPS implies !touches_mapping(
        action_of(#[trigger] detect_script()[i]),
    ) by {
        lemma_detect_script_at(i);
    }
}

/// What a register that held `before` holds once `action` has been carried
/// out on it, as far as software decides it.
pub open spec fn word_after(action: Action, before: u32) -> u32 {
    match action {
        Action::Write { reg, value } => value,
        Action::Modify { reg, clear, set } => (before & !clear) | set,
        _ => before,
    }
}

/// Whatever the direct mode register held, the last step of the
/// identification leaves direct mode off and the chip deselected, and
/// changes no other bit.
pub proof fn lemma_detect_ends_with_direct_mode_off(before: u32)
    ensures
        ({
            let last = action_of(detect_script()[DETECT_STEPS - 1]);
            let word = word_after(last, before);
            &&& last is Modify
            &&& last->Modify_reg == Reg::DirectCsr
            &&& word & CSR_EN == 0
            &&& word & CSR_ASSERT_CS1N == 0
            &&& word | CSR_EN | CSR_ASSERT_CS1N == before | CSR_EN | CSR_ASSERT_CS1N
        }),
{
    lemma_detect_script_at(DETECT_STEPS - 1);
    assert({
        let word = (before & !(8u32 | 1u32)) | 0u32;
        &&& word & 1u32 == 0
        &&& word & 8u32 == 0
        &&& word | 1u32 | 8u32 == before | 1u32 | 8u32
    }) by (bit_vector);
}

/// The programming sequence ends by turning direct mode off with every
/// field of its register at zero, and then sets the writable bit of the
/// window and no other bit.
pub proof fn lemma_program_ends_mapped(timing: TimingParams, before: u32)
    ensures
        program_script(timing).len() == PROGRAM_STEPS,
        action_of(program_script(timing)[PROGRAM_STEPS - 2]) == (Action::Write {
            reg: Reg::DirectCsr,
            value: 0,
        }),
        ({
            let last = action_of(program_script(timing)[PROGRAM_STEPS - 1]);
            &&& last is Modify
            &&& last->Modify_reg == Reg::XipCtrl
            &&& word_after(last, before) == before | XIP_WRITABLE_M1
        }),
{
    assert((before & !0u32) | 0x800u32 == before | 0x800u32) by (bit_vector);
}

} // verus!
