//! Vendor profiles and the descriptor of one probed port.
use vstd::prelude::*;

use crate::config::{
    UART011_FR_RI, UART011_IFLS_RX4_8, UART011_IFLS_TX4_8, UART01X_FR_BUSY, UART01X_FR_CTS,
    UART01X_FR_DSR,
};
use crate::regs::RegisterFile;

verus! {

/// Per-family constants: FIFO levels, flag masks and their polarity, and
/// capability flags.
#[derive(Debug, Clone, Copy, PartialEq, Eq, Structural)]
pub struct VendorData {
    pub ifls: u32,
    pub fr_busy: u32,
    pub fr_dsr: u32,
    pub fr_cts: u32,
    pub fr_ri: u32,
    pub inv_fr: u32,
    pub access_32b: bool,
    pub oversampling: bool,
    pub dma_threshold: bool,
    pub cts_event_workaround: bool,
    pub always_enabled: bool,
    pub fixfixed_options: bool,
}

impl VendorData {
    /// The profile of the standard ARM PL011.
    pub open spec fn arm_spec() -> VendorData {
        VendorData {
            ifls: UART011_IFLS_RX4_8 | UART011_IFLS_TX4_8,
            fr_busy: UART01X_FR_BUSY,
            fr_dsr: UART01X_FR_DSR,
            fr_cts: UART01X_FR_CTS,
            fr_ri: UART011_FR_RI,
            inv_fr: 0,
            access_32b: false,
            oversampling: false,
            dma_threshold: false,
            cts_event_workaround: false,
            always_enabled: false,
            fixfixed_options: false,
        }
    }

    /// The profile of the standard ARM PL011: half-full FIFO levels, the
    /// usual flag bits with no inverted ones, and no vendor quirks.
    pub fn arm() -> (v: VendorData)
        ensures
            v == Self::arm_spec(),
    {
        VendorData {
            ifls: UART011_IFLS_RX4_8 | UART011_IFLS_TX4_8,
            fr_busy: UART01X_FR_BUSY,
            fr_dsr: UART01X_FR_DSR,
            fr_cts: UART01X_FR_CTS,
            fr_ri: UART011_FR_RI,
            inv_fr: 0,
            access_32b: false,
            oversampling: false,
            dma_threshold: false,
            cts_event_workaround: false,
            always_enabled: false,
            fixfixed_options: false,
        }
    }
}

/// FIFO depth of a port, from its hardware revision.
pub open spec fn fifo_size_for(revision: u32) -> u32 {
    if revision < 3 {
        16
    } else {
        32
    }
}

/// Picks the FIFO depth: 16 before revision 3, 32 from it on.
pub fn fifo_size(revision: u32) -> (n: u32)
    ensures
        n == fifo_size_for(revision),
{
    if revision < 3 {
        16
    } else {
        32
    }
}

/// One probed port: where its registers are, how to reach them, and the
/// driver's shadow of its state.
#[derive(Debug, Clone, Copy, PartialEq, Eq, Structural)]
pub struct PortDescriptor {
    /// Slot of the port in the port table.
    pub index: usize,
    /// Physical address of the register window.
    pub mapbase: u64,
    /// Address at which the register window is mapped.
    pub membase: usize,
    /// Interrupt line of the port.
    pub irq: u32,
    /// I/O-type tag fixing the access width.
    pub iotype: u8,
    /// Port flags handed to the serial core.
    pub flags: u64,
    /// Whether the port handles magic system-request keys.
    pub has_sysrq: bool,
    /// Depth of the transmit FIFO.
    pub fifosize: u32,
    /// Shadow of the interrupt mask register.
    pub im: u32,
    /// Last observed modem status.
    pub old_status: u32,
    /// Vendor profile of the port.
    pub vendor: VendorData,
    /// Accessor of the port's registers.
    pub regs: RegisterFile,
}

impl PortDescriptor {
    /// Name of the port type, as the serial core shows it.
    pub fn type_label(&self) -> (s: &'static str)
        ensures
            s@ == "PL011"@,
    {
        let s = "PL011";
        proof {
            reveal_strlit("PL011");
        }
        s
    }
}

} // verus!
