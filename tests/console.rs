use pl011_uart::config::{UART011_CR_CTSEN, UART011_CR_TXE, UART01X_CR_UARTEN, UART01X_FR_BUSY, UART01X_FR_TXFF};
use pl011_uart::console::{force_tx_cr, is_fifo_full, is_tx_busy, ConsoleAction, ConsoleEvent, ConsoleWrite, Phase};
use pl011_uart::driver::{Driver, IoReMapBox, ProbeInfo};
use pl011_uart::error::DriverError;
use pl011_uart::port::{PortDescriptor, VendorData};
use pl011_uart::regs::{RegisterFile, Regs, SimWindow};

/// A simulated platform: a register window whose flag register reports the
/// FIFO full and the transmitter busy for a number of loads, and counters of
/// the platform operations.
struct Bench {
    win: SimWindow,
    txff_loads: u32,
    busy_loads: u32,
    fr_loads: u32,
    relaxes: u32,
    irq_saves: u32,
    irq_restores: u32,
    locks: u32,
    unlocks: u32,
    clock_ons: u32,
    clock_offs: u32,
    clock_fails: bool,
    sent: Vec<u8>,
    cr_writes: Vec<u32>,
    irq_masked: bool,
}

impl Bench {
    fn new() -> Bench {
        Bench {
            win: SimWindow::new(),
            txff_loads: 0,
            busy_loads: 0,
            fr_loads: 0,
            relaxes: 0,
            irq_saves: 0,
            irq_restores: 0,
            locks: 0,
            unlocks: 0,
            clock_ons: 0,
            clock_offs: 0,
            clock_fails: false,
            sent: Vec::new(),
            cr_writes: Vec::new(),
            irq_masked: false,
        }
    }

    fn run(&mut self, w: &mut ConsoleWrite, limit: u32) -> bool {
        let mut a = w.action();
        for _ in 0..limit {
            let e = match a {
                ConsoleAction::SaveIrq => {
                    self.irq_saves += 1;
                    assert!(!self.irq_masked);
                    self.irq_masked = true;
                    ConsoleEvent::Done
                }
                ConsoleAction::Lock => {
                    assert!(self.irq_masked);
                    self.locks += 1;
                    ConsoleEvent::Done
                }
                ConsoleAction::EnableClock => {
                    if self.clock_fails {
                        ConsoleEvent::ClockFailed
                    } else {
                        self.clock_ons += 1;
                        ConsoleEvent::Done
                    }
                }
                ConsoleAction::Read(r) => {
                    let mut v = self.win.load(r);
                    if r.offset == 0x18 {
                        self.fr_loads += 1;
                        if self.txff_loads > 0 {
                            self.txff_loads -= 1;
                            v |= UART01X_FR_TXFF;
                        } else if self.busy_loads > 0 {
                            self.busy_loads -= 1;
                            v |= UART01X_FR_BUSY;
                        }
                    }
                    ConsoleEvent::Value(v)
                }
                ConsoleAction::Write(s) => {
                    if s.offset == 0x00 {
                        self.sent.push(s.value as u8);
                    }
                    if s.offset == 0x30 {
                        self.cr_writes.push(s.value);
                    }
                    self.win.store(s);
                    ConsoleEvent::Done
                }
                ConsoleAction::Relax => {
                    self.relaxes += 1;
                    ConsoleEvent::Done
                }
                ConsoleAction::Unlock => {
                    self.unlocks += 1;
                    ConsoleEvent::Done
                }
                ConsoleAction::RestoreIrq => {
                    self.irq_restores += 1;
                    self.irq_masked = false;
                    ConsoleEvent::Done
                }
                ConsoleAction::DisableClock => {
                    self.clock_offs += 1;
                    ConsoleEvent::Done
                }
                ConsoleAction::Finished => return true,
            };
            assert!(w.accepts(e));
            a = w.step(e);
        }
        false
    }
}

fn port(iotype: u8, always_enabled: bool) -> PortDescriptor {
    let mut vendor = VendorData::arm();
    vendor.always_enabled = always_enabled;
    PortDescriptor {
        index: 0,
        mapbase: 0x900_0000,
        membase: 0x1000,
        irq: 33,
        iotype,
        flags: 0,
        has_sysrq: true,
        fifosize: 32,
        im: 0,
        old_status: 0,
        vendor,
        regs: RegisterFile::new(iotype),
    }
}

#[test]
fn forced_control_register_value() {
    assert_eq!(force_tx_cr(0x8301), 0x0301);
    assert_eq!(force_tx_cr(0), UART01X_CR_UARTEN | UART011_CR_TXE);
    assert_eq!(force_tx_cr(UART011_CR_CTSEN), 0x0101);
}

#[test]
fn flag_predicates() {
    assert!(is_fifo_full(0x20));
    assert!(!is_fifo_full(0x08));
    let arm = VendorData::arm();
    assert!(is_tx_busy(&arm, 0x08));
    assert!(!is_tx_busy(&arm, 0x20));
    let mut inverted = VendorData::arm();
    inverted.inv_fr = UART01X_FR_BUSY;
    assert!(!is_tx_busy(&inverted, 0x08));
    assert!(is_tx_busy(&inverted, 0x00));
}

#[test]
fn console_write_emits_every_byte_in_order() {
    let mut bench = Bench::new();
    let mut w = ConsoleWrite::new(&port(2, false), false, b"hi\nthere".to_vec());
    assert!(bench.run(&mut w, 1000));
    assert_eq!(bench.sent, b"hi\nthere".to_vec());
    assert!(w.is_finished());
}

#[test]
fn console_write_pairs_lock_and_irq_without_sysrq() {
    let mut bench = Bench::new();
    let mut w = ConsoleWrite::new(&port(2, false), false, b"x".to_vec());
    assert!(bench.run(&mut w, 1000));
    assert_eq!((bench.locks, bench.unlocks), (1, 1));
    assert_eq!((bench.irq_saves, bench.irq_restores), (1, 1));
    assert_eq!((bench.clock_ons, bench.clock_offs), (1, 1));
    assert!(w.took_lock());
}

#[test]
fn console_write_skips_lock_under_sysrq() {
    let mut bench = Bench::new();
    let mut w = ConsoleWrite::new(&port(2, false), true, b"x".to_vec());
    assert!(bench.run(&mut w, 1000));
    assert_eq!((bench.locks, bench.unlocks), (0, 0));
    assert_eq!((bench.irq_saves, bench.irq_restores), (1, 1));
    assert!(!w.took_lock());
}

#[test]
fn control_register_restored_after_write() {
    for iotype in [2u8, 3u8] {
        let p = port(iotype, false);
        let mut bench = Bench::new();
        p.regs.write(&mut bench.win, Regs::RegCr, 0x8301);
        let before = p.regs.read(&bench.win, Regs::RegCr);
        let mut w = ConsoleWrite::new(&p, false, b"ok".to_vec());
        assert!(bench.run(&mut w, 1000));
        assert_eq!(p.regs.read(&bench.win, Regs::RegCr), before);
        assert_eq!(bench.cr_writes, vec![0x0301, 0x8301]);
    }
}

#[test]
fn always_enabled_port_leaves_control_register_alone() {
    let p = port(3, true);
    let mut bench = Bench::new();
    p.regs.write(&mut bench.win, Regs::RegCr, 0x8000);
    let mut w = ConsoleWrite::new(&p, false, b"ab".to_vec());
    assert!(bench.run(&mut w, 1000));
    assert!(bench.cr_writes.is_empty());
    assert_eq!(p.regs.read(&bench.win, Regs::RegCr), 0x8000);
    assert_eq!(bench.sent, b"ab".to_vec());
}

#[test]
fn full_fifo_is_waited_out_with_relax() {
    let mut bench = Bench::new();
    bench.txff_loads = 3;
    let mut w = ConsoleWrite::new(&port(2, false), false, b"z".to_vec());
    assert!(bench.run(&mut w, 1000));
    assert_eq!(bench.sent, b"z".to_vec());
    assert_eq!(bench.relaxes, 3);
}

#[test]
fn drain_ends_after_bounded_busy_polls() {
    let mut bench = Bench::new();
    bench.busy_loads = 5;
    let mut w = ConsoleWrite::new(&port(2, false), false, Vec::new());
    assert!(bench.run(&mut w, 1000));
    assert_eq!(bench.fr_loads, 6);
    assert_eq!(bench.relaxes, 5);
}

#[test]
fn drain_never_ends_while_busy() {
    let mut bench = Bench::new();
    bench.busy_loads = u32::MAX;
    let mut w = ConsoleWrite::new(&port(2, false), false, Vec::new());
    assert!(!bench.run(&mut w, 500));
    let ph = w.phase();
    assert!(ph == Phase::Draining || ph == Phase::RelaxingDrain);
    assert_eq!((bench.unlocks, bench.irq_restores), (0, 0));
}

#[test]
fn clock_failure_skips_registers_and_still_unwinds() {
    let mut bench = Bench::new();
    bench.clock_fails = true;
    let mut w = ConsoleWrite::new(&port(2, false), false, b"lost".to_vec());
    assert!(bench.run(&mut w, 1000));
    assert!(bench.sent.is_empty());
    assert_eq!(bench.fr_loads, 0);
    assert_eq!((bench.locks, bench.unlocks), (1, 1));
    assert_eq!((bench.irq_saves, bench.irq_restores), (1, 1));
    assert_eq!(bench.clock_offs, 0);
}

#[test]
fn step_answers_only_the_expected_event() {
    let w = ConsoleWrite::new(&port(2, false), false, Vec::new());
    assert!(w.accepts(ConsoleEvent::Done));
    assert!(!w.accepts(ConsoleEvent::Value(0)));
    assert_eq!(w.action(), ConsoleAction::SaveIrq);
}

#[test]
fn console_on_unpopulated_index_is_invalid() {
    let mut drv = Driver::new();
    assert!(matches!(drv.console_write(0, false, b"a".to_vec()), Err(DriverError::InvalidIndex)));
    let info = ProbeInfo {
        clk: 1,
        revision: 3,
        mem: Some(IoReMapBox { phys_addr: 0x900_0000, base: 0x1000 }),
        irq: Some(33),
    };
    assert_eq!(drv.probe(info), Ok(0));
    assert!(drv.console_write(0, false, b"a".to_vec()).is_ok());
    assert!(matches!(drv.console_write(1, false, b"a".to_vec()), Err(DriverError::InvalidIndex)));
}
