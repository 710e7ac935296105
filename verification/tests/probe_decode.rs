use qmi_psram::probe::{decode_capacity, detect_psram, Probe};
use qmi_psram::protocol::{detect_step, program_step, Action, Step};
use qmi_psram::regs::Reg;
use qmi_psram::timing::derive_timing;

const MIB: u32 = 1024 * 1024;

#[test]
fn size_code_zero_is_two_mib() {
    assert_eq!(decode_capacity(0x5D, 0x00), 2 * MIB);
    assert_eq!(decode_capacity(0x5D, 0x1F), 2 * MIB);
}

#[test]
fn size_code_one_is_four_mib() {
    assert_eq!(decode_capacity(0x5D, 0x20), 4 * MIB);
    assert_eq!(decode_capacity(0x5D, 0x3F), 4 * MIB);
}

#[test]
fn size_code_two_is_eight_mib() {
    assert_eq!(decode_capacity(0x5D, 0x40), 8 * MIB);
    assert_eq!(decode_capacity(0x5D, 0x5F), 8 * MIB);
}

#[test]
fn irregular_device_byte_is_eight_mib() {
    assert_eq!(decode_capacity(0x5D, 0x26), 8 * MIB);
    assert_eq!(decode_capacity(0x5D, 0x25), 4 * MIB);
    assert_eq!(decode_capacity(0x5D, 0x27), 4 * MIB);
}

#[test]
fn other_size_codes_are_one_mib() {
    assert_eq!(decode_capacity(0x5D, 0x60), MIB);
    assert_eq!(decode_capacity(0x5D, 0xFF), MIB);
    assert_eq!(decode_capacity(0x5D, 0x100), MIB);
    assert_eq!(decode_capacity(0x5D, u32::MAX), MIB);
}

#[test]
fn other_manufacturers_are_absent() {
    assert_eq!(decode_capacity(0x00, 0x40), 0);
    assert_eq!(decode_capacity(0x00, 0x26), 0);
    assert_eq!(decode_capacity(0xFF, 0xFF), 0);
    assert_eq!(decode_capacity(0x5C, 0x00), 0);
    assert_eq!(decode_capacity(0x15D, 0x00), 0);
}

#[test]
fn identification_steps_in_order() {
    let csr = Reg::DirectCsr;
    let tx = Reg::DirectTx;
    let mut expected = vec![
        Step::Write { reg: csr, value: 0x0780_0001 },
        Step::AwaitClear { mask: 0x2 },
        Step::Modify { reg: csr, clear: 0, set: 0x8 },
        Step::Write { reg: tx, value: 0x000A_00F5 },
        Step::AwaitClear { mask: 0x2 },
        Step::Discard,
        Step::Modify { reg: csr, clear: 0x8, set: 0 },
        Step::Modify { reg: csr, clear: 0, set: 0x8 },
    ];
    for i in 0..7 {
        expected.push(Step::Write { reg: tx, value: if i == 0 { 0x9F } else { 0xFF } });
        expected.push(Step::AwaitSet { mask: 0x800 });
        expected.push(Step::AwaitClear { mask: 0x2 });
        expected.push(match i {
            5 => Step::TakeKgd,
            6 => Step::TakeEid,
            _ => Step::Discard,
        });
    }
    expected.push(Step::Modify { reg: csr, clear: 0x9, set: 0 });
    assert_eq!(expected.len(), 37);
    for (pc, step) in expected.iter().enumerate() {
        assert_eq!(detect_step(pc as u8), *step, "step {}", pc);
    }
}

#[test]
fn programming_steps_in_order() {
    let expected = vec![
        Step::Write { reg: Reg::DirectCsr, value: 0x0280_0081 },
        Step::AwaitClear { mask: 0x2 },
        Step::Write { reg: Reg::DirectTx, value: 0x0010_0035 },
        Step::AwaitClear { mask: 0x2 },
        Step::Write { reg: Reg::M1Timing, value: 0x6024_2202 },
        Step::Write { reg: Reg::M1Rfmt, value: 0x0006_12AA },
        Step::Write { reg: Reg::M1Rcmd, value: 0xEB },
        Step::Write { reg: Reg::M1Wfmt, value: 0x0000_12AA },
        Step::Write { reg: Reg::M1Wcmd, value: 0x38 },
        Step::Write { reg: Reg::DirectCsr, value: 0 },
        Step::Modify { reg: Reg::XipCtrl, clear: 0, set: 0x800 },
    ];
    for (pc, step) in expected.iter().enumerate() {
        assert_eq!(program_step(derive_timing(150_000_000), pc as u8), *step, "step {}", pc);
    }
}

#[test]
fn a_wait_holds_the_identification_until_the_bus_is_idle() {
    let start = Probe::new();
    assert_eq!(start.action(), Action::Write { reg: Reg::DirectCsr, value: 0x0780_0001 });
    let (waiting, action) = detect_psram(start, 0);
    assert_eq!(waiting.pc, 1);
    assert_eq!(action, Action::Read { reg: Reg::DirectCsr });
    let (still, action) = detect_psram(waiting, 0x0780_0003);
    assert_eq!(still, waiting);
    assert_eq!(action, Action::Read { reg: Reg::DirectCsr });
    let (on, action) = detect_psram(still, 0x0780_0001);
    assert_eq!(on.pc, 2);
    assert_eq!(action, Action::Modify { reg: Reg::DirectCsr, clear: 0, set: 0x8 });
}

#[test]
fn a_wait_for_the_empty_queue_needs_the_flag_set() {
    let at_wait = Probe { pc: 9, kgd: 0, eid: 0 };
    assert_eq!(at_wait.action(), Action::Read { reg: Reg::DirectCsr });
    assert_eq!(at_wait.advance(0).pc, 9);
    assert_eq!(at_wait.advance(0x2).pc, 9);
    assert_eq!(at_wait.advance(0x800).pc, 10);
}

#[test]
fn responses_five_and_six_are_kept() {
    let at_kgd = Probe { pc: 31, kgd: 0, eid: 0 };
    assert_eq!(at_kgd.action(), Action::Read { reg: Reg::DirectRx });
    let next = at_kgd.advance(0x5D);
    assert_eq!(next, Probe { pc: 32, kgd: 0x5D, eid: 0 });
    let at_eid = Probe { pc: 35, kgd: 0x5D, eid: 0 };
    let next = at_eid.advance(0x40);
    assert_eq!(next, Probe { pc: 36, kgd: 0x5D, eid: 0x40 });
    let dropped = Probe { pc: 27, kgd: 1, eid: 2 }.advance(0x77);
    assert_eq!(dropped, Probe { pc: 28, kgd: 1, eid: 2 });
}

#[test]
fn a_finished_identification_stays_finished() {
    let done = Probe { pc: 37, kgd: 0x5D, eid: 0x20 };
    assert_eq!(done.action(), Action::Finished { capacity: 4 * MIB });
    let (next, action) = detect_psram(done, 0x1234);
    assert_eq!(next, done);
    assert_eq!(action, Action::Finished { capacity: 4 * MIB });
    let beyond = Probe { pc: 200, kgd: 0, eid: 0 };
    assert_eq!(beyond.action(), Action::Finished { capacity: 0 });
}
