use pl011_uart::clk::{Clk, ClkAction};
use pl011_uart::config::{id_matches, UART_NR, UPF_BOOT_AUTOCONF};
use pl011_uart::driver::{Driver, IoReMapBox, ProbeInfo};
use pl011_uart::error::DriverError;
use pl011_uart::options::Options;
use pl011_uart::port::fifo_size;
use pl011_uart::registration::Console;
use pl011_uart::regs::AccessWidth;

fn info(revision: u32, irq: u32) -> ProbeInfo {
    ProbeInfo {
        clk: 0xc10c,
        revision,
        mem: Some(IoReMapBox { phys_addr: 0x900_0000 + irq as u64 * 0x1000, base: 0x4000 + irq as usize }),
        irq: Some(irq),
    }
}

#[test]
fn probe_two_new_one_old_then_remove_second() {
    let mut drv = Driver::new();
    assert_eq!(drv.probe(info(3, 40)), Ok(0));
    assert_eq!(drv.probe(info(4, 41)), Ok(1));
    assert_eq!(drv.get_port(0).unwrap().fifosize, 32);
    assert_eq!(drv.get_port(1).unwrap().fifosize, 32);
    assert_eq!(drv.probe(info(2, 42)), Ok(2));
    assert_eq!(drv.get_port(2).unwrap().fifosize, 16);
    let second = drv.get_port(1).unwrap();
    drv.remove(&second);
    assert_eq!(drv.get_port(1), None);
    assert!(drv.get_port(0).is_some());
    assert!(drv.get_port(2).is_some());
}

#[test]
fn probe_fills_descriptor() {
    let mut drv = Driver::new();
    assert_eq!(drv.probe(info(3, 40)), Ok(0));
    let p = drv.get_port(0).unwrap();
    assert_eq!(p.index, 0);
    assert_eq!(p.irq, 40);
    assert_eq!(p.mapbase, 0x900_0000 + 40 * 0x1000);
    assert_eq!(p.membase, 0x4000 + 40);
    assert_eq!(p.iotype, 2);
    assert_eq!(p.flags, UPF_BOOT_AUTOCONF);
    assert!(p.has_sysrq);
    assert_eq!(p.regs.width, AccessWidth::Narrow);
    assert_eq!(p.vendor.fr_busy, 0x08);
}

#[test]
fn probe_errors_leave_table_untouched() {
    let mut drv = Driver::new();
    let mut no_mem = info(3, 1);
    no_mem.mem = None;
    assert_eq!(drv.probe(no_mem), Err(DriverError::NoResource));
    let mut no_irq = info(3, 1);
    no_irq.irq = None;
    assert_eq!(drv.probe(no_irq), Err(DriverError::NoResource));
    let mut no_clk = info(3, 1);
    no_clk.clk = 0;
    assert_eq!(drv.probe(no_clk), Err(DriverError::NoClock));
    assert_eq!(drv.get_port(0), None);
    assert_eq!(drv.probe(info(3, 1)), Ok(0));
}

#[test]
fn probe_past_capacity_is_no_free_port() {
    let mut drv = Driver::new();
    for n in 0..UART_NR {
        assert_eq!(drv.probe(info(3, n as u32)), Ok(n));
    }
    let mut bad = info(3, 99);
    bad.irq = None;
    assert_eq!(drv.probe(bad), Err(DriverError::NoFreePort));
}

#[test]
fn remove_is_idempotent() {
    let mut drv = Driver::new();
    drv.probe(info(3, 7)).unwrap();
    let p = drv.get_port(0).unwrap();
    drv.remove(&p);
    drv.remove(&p);
    assert_eq!(drv.get_port(0), None);
    assert_eq!(drv.probe(info(3, 8)), Ok(0));
}

#[test]
fn registration_happens_once() {
    let mut drv = Driver::new();
    assert!(drv.needs_registration());
    assert_eq!(drv.mark_registered(), Ok(()));
    assert!(!drv.needs_registration());
    assert_eq!(drv.mark_registered(), Err(DriverError::AlreadyRegistered));
}

#[test]
fn fifo_depth_by_revision() {
    assert_eq!(fifo_size(0), 16);
    assert_eq!(fifo_size(2), 16);
    assert_eq!(fifo_size(3), 32);
    assert_eq!(fifo_size(9), 32);
}

#[test]
fn device_id_match() {
    assert!(id_matches(0x0004_1011));
    assert!(id_matches(0x1234_1011 & 0x000f_ffff | 0x0040_0000));
    assert!(!id_matches(0x0004_1012));
}

#[test]
fn options_defaults_and_overrides() {
    let o = Options::new();
    assert_eq!(o.minor, None);
    let s = o.settings();
    assert_eq!((s.major, s.minor, s.nr), (204, 64, 14));
    let mut o = Options::new();
    o.minor(10).major(20).nr(3);
    let s = o.settings();
    assert_eq!((s.major, s.minor, s.nr), (20, 10, 3));
}

#[test]
fn clock_handle_round_trip() {
    let c = Clk::from_raw(0xabc);
    assert_eq!(c.as_ptr(), 0xabc);
    assert!(matches!(Clk::acquire(0), Err(DriverError::NoClock)));
    assert_eq!(Clk::acquire(5).unwrap().as_ptr(), 5);
}

#[test]
fn clock_enables_and_reports_rate() {
    let mut s = Clk::from_raw(7).prepare_enable();
    assert_eq!(s.action(), ClkAction::Prepare(7));
    assert_eq!(s.step(0), ClkAction::Enable(7));
    assert_eq!(s.step(0), ClkAction::Done);
    let en = s.finish(24_000_000).ok().unwrap();
    assert_eq!(en.get_rate(), 24_000_000);
    assert_eq!(en.disable_unprepare().as_ptr(), 7);
}

#[test]
fn failed_enable_rolls_back_prepare() {
    let mut s = Clk::from_raw(7).prepare_enable();
    assert_eq!(s.step(0), ClkAction::Enable(7));
    assert_eq!(s.step(-5), ClkAction::Unprepare(7));
    assert_eq!(s.step(0), ClkAction::Done);
    assert!(matches!(s.finish(0), Err(DriverError::ClockError)));
}

#[test]
fn failed_prepare_ends_at_once() {
    let mut s = Clk::from_raw(7).prepare_enable();
    assert_eq!(s.step(-22), ClkAction::Done);
    assert!(matches!(s.finish(0), Err(DriverError::ClockError)));
}

#[test]
fn probed_port_type_label() {
    let mut drv = Driver::new();
    drv.probe(info(3, 9)).unwrap();
    assert_eq!(drv.get_port(0).unwrap().type_label(), "PL011");
}

#[test]
fn registration_describes_console_and_settings() {
    let drv = Driver::new();
    let mut opts = Options::new();
    opts.nr(4);
    let reg = drv.registration(b"ttyAMA", &opts).ok().unwrap();
    let mut name = b"ttyAMA".to_vec();
    name.resize(16, 0);
    assert_eq!(reg.console.name, name);
    assert_eq!(reg.console.flags, 17);
    assert_eq!(reg.console.index, -1);
    assert_eq!((reg.settings.major, reg.settings.minor, reg.settings.nr), (204, 64, 4));
    assert!(matches!(Console::new(b"a-name-of-seventeen", 0, 0), Err(DriverError::InvalidName)));
    assert!(Console::new(b"exactly-16-bytes", 0, 0).is_ok());
}

#[test]
fn registration_refused_once_registered() {
    let mut drv = Driver::new();
    drv.mark_registered().unwrap();
    assert!(matches!(drv.registration(b"ttyAMA", &Options::new()), Err(DriverError::AlreadyRegistered)));
    let fresh = Driver::new();
    assert!(matches!(fresh.registration(b"seventeen-letters", &Options::new()), Err(DriverError::InvalidName)));
}
