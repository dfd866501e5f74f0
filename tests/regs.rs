use pl011_uart::config::{UPIO_MEM, UPIO_MEM32};
use pl011_uart::regs::{AccessWidth, RegisterFile, Regs, SimWindow};

const MAPPED: [(Regs, usize); 13] = [
    (Regs::RegDr, 0x00),
    (Regs::RegFr, 0x18),
    (Regs::RegLcrhRx, 0x1c),
    (Regs::RegIbrd, 0x24),
    (Regs::RegFbrd, 0x28),
    (Regs::RegLcrhTx, 0x2c),
    (Regs::RegCr, 0x30),
    (Regs::RegIfls, 0x34),
    (Regs::RegImsc, 0x38),
    (Regs::RegRis, 0x3c),
    (Regs::RegMis, 0x40),
    (Regs::RegIcr, 0x44),
    (Regs::RegDmacr, 0x48),
];

#[test]
fn standard_offsets() {
    for (reg, off) in MAPPED {
        assert_eq!(reg.offset(), Some(off));
    }
    assert_eq!(Regs::RegStDmawm.offset(), None);
    assert_eq!(Regs::RegStAbimsc.offset(), None);
}

#[test]
fn width_follows_iotype() {
    assert_eq!(AccessWidth::from_iotype(UPIO_MEM32), AccessWidth::Wide);
    assert_eq!(AccessWidth::from_iotype(UPIO_MEM), AccessWidth::Narrow);
    assert_eq!(RegisterFile::new(UPIO_MEM32).width, AccessWidth::Wide);
    assert_eq!(RegisterFile::new(0).width, AccessWidth::Narrow);
}

#[test]
fn narrow_store_keeps_low_half() {
    let rf = RegisterFile::new(UPIO_MEM);
    let a = rf.write_access(Regs::RegCr, 0x1234_5678);
    assert_eq!(a.offset, 0x30);
    assert_eq!(a.width, AccessWidth::Narrow);
    assert_eq!(a.value, 0x5678);
    let b = RegisterFile::new(UPIO_MEM32).write_access(Regs::RegCr, 0x1234_5678);
    assert_eq!(b.value, 0x1234_5678);
}

#[test]
fn register_round_trip_wide() {
    let rf = RegisterFile::new(UPIO_MEM32);
    let mut win = SimWindow::new();
    for (i, (reg, _)) in MAPPED.iter().enumerate() {
        let v = 0xdead_0000u32 | i as u32;
        rf.write(&mut win, *reg, v);
        assert_eq!(rf.read(&win, *reg), v);
    }
}

#[test]
fn register_round_trip_narrow() {
    let rf = RegisterFile::new(UPIO_MEM);
    let mut win = SimWindow::new();
    for (i, (reg, _)) in MAPPED.iter().enumerate() {
        let v = 0xbe00u32 | i as u32;
        rf.write(&mut win, *reg, v);
        assert_eq!(rf.read(&win, *reg), v);
    }
}

#[test]
fn narrow_round_trip_drops_high_half() {
    let rf = RegisterFile::new(UPIO_MEM);
    let mut win = SimWindow::new();
    rf.write(&mut win, Regs::RegIbrd, 0x0001_0002);
    assert_eq!(rf.read(&win, Regs::RegIbrd), 0x0002);
}

#[test]
fn writes_to_distinct_registers_do_not_overlap() {
    let rf = RegisterFile::new(UPIO_MEM32);
    let mut win = SimWindow::new();
    rf.write(&mut win, Regs::RegIbrd, 0x1111_1111);
    rf.write(&mut win, Regs::RegFbrd, 0x2222_2222);
    assert_eq!(rf.read(&win, Regs::RegIbrd), 0x1111_1111);
    assert_eq!(rf.read(&win, Regs::RegFbrd), 0x2222_2222);
    assert_eq!(rf.read(&win, Regs::RegCr), 0);
}
