//! Fixed parameters of the PL011 family: capacity, window size, bit masks.
use vstd::prelude::*;

verus! {

/// Maximum number of ports the driver manages at once.
pub const UART_NR: usize = 14;

/// Size in bytes of the mapped register window of one port.
pub const UART_SIZE: usize = 0x200;

/// I/O-type tag of a port accessed with 16-bit loads and stores.
pub const UPIO_MEM: u8 = 2;

/// I/O-type tag of a port accessed with 32-bit loads and stores.
pub const UPIO_MEM32: u8 = 3;

/// Port flag: configure the port automatically at boot.
pub const UPF_BOOT_AUTOCONF: u64 = 0x1000_0000;

/// Character-device major number of the AMBA serial ports.
pub const AMBA_MAJOR: i32 = 204;

/// First character-device minor number of the AMBA serial ports.
pub const AMBA_MINOR: i32 = 64;

/// Device identifier matched by this driver.
pub const AMBA_ID: u32 = 0x0004_1011;

/// Mask applied to a device identifier before it is compared with `AMBA_ID`.
pub const AMBA_ID_MASK: u32 = 0x000f_ffff;

/// Flag register: clear to send.
pub const UART01X_FR_CTS: u32 = 0x001;

/// Flag register: data set ready.
pub const UART01X_FR_DSR: u32 = 0x002;

/// Flag register: transmitter busy.
pub const UART01X_FR_BUSY: u32 = 0x008;

/// Flag register: transmit FIFO full.
pub const UART01X_FR_TXFF: u32 = 0x020;

/// Flag register: ring indicator.
pub const UART011_FR_RI: u32 = 0x100;

/// Control register: UART enable.
pub const UART01X_CR_UARTEN: u32 = 0x0001;

/// Control register: transmit enable.
pub const UART011_CR_TXE: u32 = 0x0100;

/// Control register: CTS hardware flow control enable.
pub const UART011_CR_CTSEN: u32 = 0x8000;

/// FIFO level select: receive interrupt at half full.
pub const UART011_IFLS_RX4_8: u32 = 0x10;

/// FIFO level select: transmit interrupt at half full.
pub const UART011_IFLS_TX4_8: u32 = 0x02;

/// Returns whether a device identifier belongs to the family this driver serves.
pub fn id_matches(id: u32) -> (r: bool)
    ensures
        r == (id & AMBA_ID_MASK == AMBA_ID & AMBA_ID_MASK),
{
    id & AMBA_ID_MASK == AMBA_ID & AMBA_ID_MASK
}

} // verus!
