use qmi_psram::bringup::{psram_init, Bringup};
use qmi_psram::probe::{detect_psram, Probe};
use qmi_psram::protocol::Action;
use qmi_psram::regs::Reg;
use qmi_psram::timing::{derive_timing, TimingParams};

const MIB: u32 = 1024 * 1024;
const EN: u32 = 0x1;
const BUSY: u32 = 0x2;
const TXEMPTY: u32 = 0x800;
const NOPUSH: u32 = 0x0010_0000;

/// A register file with a chip behind it that answers the identification.
struct Board {
    kgd: u32,
    eid: u32,
    busy_reads: u32,
    busy_left: u32,
    csr: u32,
    sent: Vec<u32>,
    rx: Vec<u32>,
    writes: Vec<(Reg, u32)>,
    xip_ctrl: u32,
    enables: u32,
    disables: u32,
    status_reads: u32,
    fill_bytes: u32,
}

impl Board {
    fn new(kgd: u32, eid: u32, busy_reads: u32) -> Board {
        Board {
            kgd,
            eid,
            busy_reads,
            busy_left: busy_reads,
            csr: 0x0180_0000,
            sent: Vec::new(),
            rx: Vec::new(),
            writes: Vec::new(),
            xip_ctrl: 0x83,
            enables: 0,
            disables: 0,
            status_reads: 0,
            fill_bytes: 0,
        }
    }

    fn set_csr(&mut self, value: u32) {
        if self.csr & EN == 0 && value & EN != 0 {
            self.enables += 1;
        }
        if self.csr & EN != 0 && value & EN == 0 {
            self.disables += 1;
        }
        self.csr = value;
    }

    fn write(&mut self, reg: Reg, value: u32) {
        self.writes.push((reg, value));
        match reg {
            Reg::DirectCsr => self.set_csr(value),
            Reg::DirectTx => {
                self.busy_left = self.busy_reads;
                self.sent.push(value);
                if value & NOPUSH == 0 {
                    let answer = match value & 0xFFFF {
                        0x9F => {
                            self.fill_bytes = 0;
                            0xFF
                        }
                        0xFF => {
                            self.fill_bytes += 1;
                            match self.fill_bytes {
                                5 => self.kgd,
                                6 => self.eid,
                                _ => 0xFF,
                            }
                        }
                        _ => 0,
                    };
                    self.rx.push(answer);
                }
            }
            Reg::XipCtrl => self.xip_ctrl = value,
            _ => {}
        }
    }

    fn modify(&mut self, reg: Reg, clear: u32, set: u32) {
        match reg {
            Reg::DirectCsr => {
                let value = (self.csr & !clear) | set;
                self.set_csr(value);
            }
            Reg::XipCtrl => {
                self.xip_ctrl = (self.xip_ctrl & !clear) | set;
                self.writes.push((reg, self.xip_ctrl));
            }
            _ => panic!("unexpected modify of {:?}", reg),
        }
    }

    fn read(&mut self, reg: Reg) -> u32 {
        match reg {
            Reg::DirectCsr => {
                self.status_reads += 1;
                if self.busy_left > 0 {
                    self.busy_left -= 1;
                    self.csr | BUSY
                } else {
                    self.csr | TXEMPTY
                }
            }
            Reg::DirectRx => self.rx.remove(0),
            _ => panic!("unexpected read of {:?}", reg),
        }
    }

    fn perform(&mut self, action: Action) -> Option<u32> {
        match action {
            Action::Write { reg, value } => {
                self.write(reg, value);
                Some(0)
            }
            Action::Modify { reg, clear, set } => {
                self.modify(reg, clear, set);
                Some(0)
            }
            Action::Read { reg } => Some(self.read(reg)),
            Action::Finished { .. } => None,
        }
    }

    fn written(&self, reg: Reg) -> Vec<u32> {
        self.writes.iter().filter(|w| w.0 == reg).map(|w| w.1).collect()
    }
}

fn detect_on(board: &mut Board) -> u32 {
    let mut state = Probe::new();
    let mut action = state.action();
    loop {
        if let Action::Finished { capacity } = action {
            return capacity;
        }
        let event = board.perform(action).unwrap();
        let (next, then) = detect_psram(state, event);
        state = next;
        action = then;
    }
}

fn configure_on(clock_hz: u32, board: &mut Board) -> u32 {
    let mut state = Bringup::new(clock_hz);
    let mut action = state.action();
    loop {
        if let Action::Finished { capacity } = action {
            return capacity;
        }
        let event = board.perform(action).unwrap();
        let (next, then) = psram_init(state, event);
        state = next;
        action = then;
    }
}

#[test]
fn detect_reads_an_eight_mib_chip() {
    let mut board = Board::new(0x5D, 0x40, 0);
    assert_eq!(detect_on(&mut board), 8 * MIB);
    assert_eq!(board.enables, 1);
    assert_eq!(board.disables, 1);
    assert_eq!(board.csr & (EN | 0x8), 0);
    assert_eq!(board.sent, vec![0x000A_00F5, 0x9F, 0xFF, 0xFF, 0xFF, 0xFF, 0xFF, 0xFF]);
    assert!(board.rx.is_empty());
}

#[test]
fn detect_leaves_direct_mode_off_without_a_chip() {
    let mut board = Board::new(0xFF, 0xFF, 2);
    assert_eq!(detect_on(&mut board), 0);
    assert_eq!(board.enables, 1);
    assert_eq!(board.disables, 1);
    assert_eq!(board.csr & EN, 0);
}

#[test]
fn detect_decodes_each_size() {
    assert_eq!(detect_on(&mut Board::new(0x5D, 0x00, 0)), 2 * MIB);
    assert_eq!(detect_on(&mut Board::new(0x5D, 0x20, 1)), 4 * MIB);
    assert_eq!(detect_on(&mut Board::new(0x5D, 0x26, 0)), 8 * MIB);
    assert_eq!(detect_on(&mut Board::new(0x5D, 0x60, 3)), MIB);
    assert_eq!(detect_on(&mut Board::new(0x00, 0x40, 0)), 0);
}

#[test]
fn configure_programs_an_eight_mib_chip_at_150_mhz() {
    let mut board = Board::new(0x5D, 0x40, 0);
    assert_eq!(configure_on(150_000_000, &mut board), 8 * 1024 * 1024);
    assert_eq!(board.enables, 2);
    assert_eq!(board.disables, 2);
    assert_eq!(board.written(Reg::M1Timing), vec![0x6024_2202]);
    assert_eq!(board.written(Reg::M1Rfmt), vec![0x0006_12AA]);
    assert_eq!(board.written(Reg::M1Rcmd), vec![0xEB]);
    assert_eq!(board.written(Reg::M1Wfmt), vec![0x0000_12AA]);
    assert_eq!(board.written(Reg::M1Wcmd), vec![0x38]);
    assert_eq!(board.written(Reg::DirectCsr), vec![0x0780_0001, 0x0280_0081, 0]);
    assert_eq!(board.csr, 0);
    assert_eq!(board.xip_ctrl, 0x883);
    assert_eq!(board.sent.last(), Some(&0x0010_0035));
    assert!(board.rx.is_empty());
}

#[test]
fn configure_writes_registers_in_order() {
    let mut board = Board::new(0x5D, 0x00, 1);
    assert_eq!(configure_on(250_000_000, &mut board), 2 * MIB);
    let order: Vec<Reg> = board.writes.iter().skip(9).map(|w| w.0).collect();
    assert_eq!(
        order,
        vec![
            Reg::DirectCsr,
            Reg::DirectTx,
            Reg::M1Timing,
            Reg::M1Rfmt,
            Reg::M1Rcmd,
            Reg::M1Wfmt,
            Reg::M1Wcmd,
            Reg::DirectCsr,
            Reg::XipCtrl,
        ]
    );
    assert_eq!(board.written(Reg::M1Timing), vec![0x6000_0000 | (31 << 17) | (4 << 12) | (3 << 8) | 2]);
}

#[test]
fn configure_without_a_chip_touches_nothing() {
    let mut board = Board::new(0xFF, 0xFF, 0);
    assert_eq!(configure_on(150_000_000, &mut board), 0);
    assert!(board.written(Reg::M1Timing).is_empty());
    assert!(board.written(Reg::M1Rfmt).is_empty());
    assert!(board.written(Reg::M1Wfmt).is_empty());
    assert!(board.written(Reg::M1Rcmd).is_empty());
    assert!(board.written(Reg::M1Wcmd).is_empty());
    assert!(board.written(Reg::XipCtrl).is_empty());
    assert_eq!(board.xip_ctrl, 0x83);
    assert_eq!(board.enables, 1);
    assert_eq!(board.disables, 1);
}

#[test]
fn configure_twice_reports_the_same_capacity() {
    let mut board = Board::new(0x5D, 0x20, 2);
    let first = configure_on(150_000_000, &mut board);
    let second = configure_on(150_000_000, &mut board);
    assert_eq!(first, 4 * MIB);
    assert_eq!(second, first);
    let mut absent = Board::new(0x00, 0x20, 0);
    assert_eq!(configure_on(150_000_000, &mut absent), 0);
    assert_eq!(configure_on(150_000_000, &mut absent), 0);
}

#[test]
fn capacity_does_not_depend_on_the_clock() {
    for hz in [1u32, 100_000_000, 133_000_000, 150_000_000, 250_000_000, u32::MAX] {
        assert_eq!(configure_on(hz, &mut Board::new(0x5D, 0x40, 1)), 8 * MIB);
    }
}

#[test]
fn a_busy_bus_only_adds_status_reads() {
    let mut idle = Board::new(0x5D, 0x40, 0);
    let mut slow = Board::new(0x5D, 0x40, 5);
    assert_eq!(configure_on(150_000_000, &mut idle), 8 * MIB);
    assert_eq!(configure_on(150_000_000, &mut slow), 8 * MIB);
    assert_eq!(idle.writes, slow.writes);
    assert!(slow.status_reads > idle.status_reads);
}

#[test]
fn a_new_configuration_holds_the_timing_of_its_clock() {
    let state = Bringup::new(250_000_000);
    assert_eq!(state.clock_hz, 250_000_000);
    assert_eq!(state.timing, TimingParams { clkdiv: 2, rxdelay: 3, max_select: 31, min_deselect: 4 });
    assert_eq!(state.probe, Probe { pc: 0, kgd: 0, eid: 0 });
    assert_eq!(state.pc, 0);
    assert_eq!(state.action(), Action::Write { reg: Reg::DirectCsr, value: 0x0780_0001 });
}

#[test]
fn a_finished_configuration_stays_finished() {
    let timing = derive_timing(150_000_000);
    let done = Bringup {
        clock_hz: 150_000_000,
        timing,
        probe: Probe { pc: 37, kgd: 0x5D, eid: 0x40 },
        pc: 11,
    };
    assert_eq!(done.action(), Action::Finished { capacity: 8 * MIB });
    let (next, action) = psram_init(done, 7);
    assert_eq!(next, done);
    assert_eq!(action, Action::Finished { capacity: 8 * MIB });
    let absent = Bringup {
        clock_hz: 150_000_000,
        timing,
        probe: Probe { pc: 37, kgd: 0, eid: 0x40 },
        pc: 0,
    };
    assert_eq!(absent.action(), Action::Finished { capacity: 0 });
    assert_eq!(absent.advance(0), absent);
}
