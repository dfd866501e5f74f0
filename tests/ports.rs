use pl011_uart::config::UART_NR;
use pl011_uart::error::DriverError;
use pl011_uart::port::{PortDescriptor, VendorData};
use pl011_uart::ports::Ports;
use pl011_uart::regs::RegisterFile;

fn descriptor(irq: u32) -> PortDescriptor {
    PortDescriptor {
        index: 0,
        mapbase: 0x900_0000,
        membase: 0x1000,
        irq,
        iotype: 2,
        flags: 0,
        has_sysrq: true,
        fifosize: 32,
        im: 0,
        old_status: 0,
        vendor: VendorData::arm(),
        regs: RegisterFile::new(2),
    }
}

#[test]
fn sequential_allocations_hand_out_distinct_indices_in_order() {
    let mut ports = Ports::new();
    for n in 0..UART_NR {
        let free = ports.find_free_port();
        assert_eq!(free, Some(n));
        assert_eq!(ports.set_port(n, descriptor(n as u32)), Ok(()));
    }
    for n in 0..UART_NR {
        assert_eq!(ports.get_port(n).map(|p| p.irq), Some(n as u32));
    }
}

#[test]
fn allocate_sets_index_and_fills_lowest_slot() {
    let mut ports = Ports::new();
    assert_eq!(ports.allocate(descriptor(5)), Ok(0));
    assert_eq!(ports.allocate(descriptor(6)), Ok(1));
    assert_eq!(ports.get_port(1).unwrap().index, 1);
    assert_eq!(ports.get_port(1).unwrap().irq, 6);
}

#[test]
fn freed_index_is_reused_before_growth() {
    let mut ports = Ports::new();
    for _ in 0..5 {
        ports.allocate(descriptor(1)).unwrap();
    }
    ports.free_port(2);
    assert_eq!(ports.get_port(2), None);
    assert_eq!(ports.find_free_port(), Some(2));
    assert_eq!(ports.allocate(descriptor(9)), Ok(2));
    assert_eq!(ports.find_free_port(), Some(5));
}

#[test]
fn lowest_gap_wins_when_several_are_free() {
    let mut ports = Ports::new();
    for _ in 0..6 {
        ports.allocate(descriptor(1)).unwrap();
    }
    ports.free_port(4);
    ports.free_port(1);
    assert_eq!(ports.allocate(descriptor(2)), Ok(1));
    assert_eq!(ports.allocate(descriptor(3)), Ok(4));
    assert_eq!(ports.allocate(descriptor(4)), Ok(6));
}

#[test]
fn fifteenth_allocation_fails_with_no_free_port() {
    let mut ports = Ports::new();
    for n in 0..14 {
        assert_eq!(ports.allocate(descriptor(n)), Ok(n as usize));
    }
    assert_eq!(ports.find_free_port(), None);
    assert_eq!(ports.allocate(descriptor(99)), Err(DriverError::NoFreePort));
    assert_eq!(ports.len(), 14);
}

#[test]
fn full_table_with_a_gap_still_allocates() {
    let mut ports = Ports::new();
    for n in 0..14 {
        ports.allocate(descriptor(n)).unwrap();
    }
    ports.free_port(13);
    assert_eq!(ports.find_free_port(), Some(13));
}

#[test]
fn get_port_out_of_range_or_empty_is_none() {
    let mut ports = Ports::new();
    assert_eq!(ports.get_port(0), None);
    ports.allocate(descriptor(1)).unwrap();
    assert_eq!(ports.get_port(1), None);
    assert_eq!(ports.get_port(100), None);
}

#[test]
fn set_port_grows_table_with_empty_slots() {
    let mut ports = Ports::new();
    assert_eq!(ports.set_port(3, descriptor(7)), Ok(()));
    assert_eq!(ports.len(), 4);
    assert_eq!(ports.get_port(0), None);
    assert_eq!(ports.get_port(2), None);
    assert_eq!(ports.get_port(3).unwrap().irq, 7);
    assert_eq!(ports.find_free_port(), Some(0));
}

#[test]
fn set_port_past_capacity_is_invalid_index() {
    let mut ports = Ports::new();
    assert_eq!(ports.set_port(14, descriptor(7)), Err(DriverError::InvalidIndex));
    assert_eq!(ports.len(), 0);
}

#[test]
fn free_port_is_idempotent_and_ignores_out_of_range() {
    let mut ports = Ports::new();
    ports.allocate(descriptor(1)).unwrap();
    ports.free_port(0);
    ports.free_port(0);
    ports.free_port(40);
    assert_eq!(ports.len(), 1);
    assert_eq!(ports.get_port(0), None);
}
