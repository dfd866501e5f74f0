//! Probe and removal of ports, and the driver's one-time registration with
//! the serial core.
use vstd::prelude::*;

use crate::config::{UPF_BOOT_AUTOCONF, UPIO_MEM};
use crate::console::{begin_console_write, ConsoleConfig, ConsoleWrite, initial};
use crate::error::DriverError;
use crate::options::Options;
use crate::port::{fifo_size, fifo_size_for, PortDescriptor, VendorData};
use crate::ports::{cleared, free_slot, placed, Ports, Slots};
use crate::regs::{AccessWidth, RegisterFile};
use crate::registration::{
    padded_name, Console, Registration, CONSOLE_NAME_LEN, CON_ANYTIME, CON_PRINTBUFFER,
};

verus! {

/// A register window mapped over a device's register resource.
#[derive(Debug, Clone, Copy, PartialEq, Eq, Structural)]
pub struct IoReMapBox {
    /// Physical start of the resource.
    pub phys_addr: u64,
    /// Address of the mapping.
    pub base: usize,
}

/// What the platform found on a device being probed.
#[derive(Debug, Clone, Copy, PartialEq, Eq, Structural)]
pub struct ProbeInfo {
    /// Handle of the device's clock; zero when it has none.
    pub clk: usize,
    /// Hardware revision field.
    pub revision: u32,
    /// The register window, or `None` when the resource is missing or could
    /// not be mapped.
    pub mem: Option<IoReMapBox>,
    /// The first interrupt line, if the device has one.
    pub irq: Option<u32>,
}

/// Why probing a device with `info` into a table holding `s` fails, checked
/// in the order the probe meets them, or `None` when it succeeds.
pub open spec fn probe_error(s: Slots, info: ProbeInfo) -> Option<DriverError> {
    if free_slot(s) is None {
        Some(DriverError::NoFreePort)
    } else if info.clk == 0 {
        Some(DriverError::NoClock)
    } else if info.mem is None {
        Some(DriverError::NoResource)
    } else if info.irq is None {
        Some(DriverError::NoResource)
    } else {
        None
    }
}

/// The descriptor a successful probe publishes at `index`.
pub open spec fn probed_port(info: ProbeInfo, index: nat) -> PortDescriptor {
    PortDescriptor {
        index: index as usize,
        mapbase: info.mem.unwrap().phys_addr,
        membase: info.mem.unwrap().base,
        irq: info.irq.unwrap(),
        iotype: UPIO_MEM,
        flags: UPF_BOOT_AUTOCONF,
        has_sysrq: true,
        fifosize: fifo_size_for(info.revision),
        im: 0,
        old_status: 0,
        vendor: VendorData::arm_spec(),
        regs: RegisterFile { width: AccessWidth::Narrow },
    }
}

/// The driver: its table of live ports and whether it is registered with the
/// serial core.
pub struct Driver {
    ports: Ports,
    registered: bool,
}

impl Driver {
    /// The port table's contents.
    pub closed spec fn slots(&self) -> Slots {
        self.ports@
    }

    /// Whether the driver is registered with the serial core.
    pub closed spec fn is_registered(&self) -> bool {
        self.registered
    }

    /// The port table is within capacity.
    pub closed spec fn wf(&self) -> bool {
        self.ports.wf()
    }

    /// A driver with no ports, not yet registered.
    pub fn new() -> (d: Driver)
        ensures
            d.wf(),
            d.slots() == Seq::<Option<PortDescriptor>>::empty(),
            !d.is_registered(),
    {
        Driver { ports: Ports::new(), registered: false }
    }

    /// Whether the serial core still has to be told about the driver.
    pub fn needs_registration(&self) -> (r: bool)
        ensures
            r == !self.is_registered(),
    {
        !self.registered
    }

    /// Records that the driver is registered with the serial core; a second
    /// registration changes nothing and reports `AlreadyRegistered`.
    pub fn mark_registered(&mut self) -> (r: Result<(), DriverError>)
        ensures
            final(self).is_registered(),
            final(self).slots() == old(self).slots(),
            final(self).wf() == old(self).wf(),
            old(self).is_registered() ==> r == Err::<(), DriverError>(DriverError::AlreadyRegistered),
            !old(self).is_registered() ==> r is Ok,
    {
        if self.registered {
            Err(DriverError::AlreadyRegistered)
        } else {
            self.registered = true;
            Ok(())
        }
    }

    /// What to hand the serial core to register the driver under `name`: a
    /// console that replays the log and runs on any CPU, bound to no index
    /// yet, and the settings `opts` asks for. Refused with
    /// `AlreadyRegistered` once the driver is registered, and with
    /// `InvalidName` for a name longer than a console name buffer.
    pub fn registration(&self, name: &[u8], opts: &Options) -> (r: Result<Registration, DriverError>)
        ensures
            self.is_registered() ==> (r matches Err(e) && e == DriverError::AlreadyRegistered),
            !self.is_registered() && name@.len() > CONSOLE_NAME_LEN ==> (r matches Err(e) && e
                == DriverError::InvalidName),
            !self.is_registered() && name@.len() <= CONSOLE_NAME_LEN ==> (r matches Ok(reg)
                && reg.console.name@ == padded_name(name@) && reg.console.flags == (
            CON_PRINTBUFFER | CON_ANYTIME) && reg.console.index == -1 && reg.settings
                == opts.settings_spec()),
    {
        if self.registered {
            return Err(DriverError::AlreadyRegistered);
        }
        let console = match Console::new(name, CON_PRINTBUFFER | CON_ANYTIME, -1) {
            Ok(c) => c,
            Err(e) => return Err(e),
        };
        Ok(Registration { console, settings: opts.settings() })
    }

    /// The port at `index`, or `None`.
    pub fn get_port(&self, index: usize) -> (r: Option<PortDescriptor>)
        ensures
            r == (if index < self.slots().len() {
                self.slots()[index as int]
            } else {
                None
            }),
    {
        self.ports.get_port(index)
    }

    /// Probes a device: takes the lowest free slot, checks that the device has
    /// a clock, a mapped register window and an interrupt line, builds the
    /// port's descriptor (FIFO depth from the revision) and publishes it in
    /// that slot. On failure the table is left as it was.
    pub fn probe(&mut self, info: ProbeInfo) -> (r: Result<usize, DriverError>)
        requires
            old(self).wf(),
        ensures
            final(self).wf(),
            final(self).is_registered() == old(self).is_registered(),
            match r {
                Ok(i) => probe_error(old(self).slots(), info) is None && free_slot(old(self).slots())
                    == Some(i as nat) && final(self).slots() == placed(
                    old(self).slots(),
                    i as nat,
                    probed_port(info, i as nat),
                ),
                Err(e) => probe_error(old(self).slots(), info) == Some(e) && final(self).slots()
                    == old(self).slots(),
            },
    {
        let index = match self.ports.find_free_port() {
            Some(i) => i,
            None => return Err(DriverError::NoFreePort),
        };
        if info.clk == 0 {
            return Err(DriverError::NoClock);
        }
        let fifosize = fifo_size(info.revision);
        let mem = match info.mem {
            Some(m) => m,
            None => return Err(DriverError::NoResource),
        };
        let irq = match info.irq {
            Some(v) => v,
            None => return Err(DriverError::NoResource),
        };
        let port = PortDescriptor {
            index,
            mapbase: mem.phys_addr,
            membase: mem.base,
            irq,
            iotype: UPIO_MEM,
            flags: UPF_BOOT_AUTOCONF,
            has_sysrq: true,
            fifosize,
            im: 0,
            old_status: 0,
            vendor: VendorData::arm(),
            regs: RegisterFile::new(UPIO_MEM),
        };
        proof {
            crate::ports::lemma_free_slot_is_empty(self.ports@);
        }
        let _ = self.ports.set_port(index, port);
        Ok(index)
    }

    /// Removes a port: clears the slot its descriptor names. A slot already
    /// clear, or out of range, is left as it is.
    pub fn remove(&mut self, port: &PortDescriptor)
        requires
            old(self).wf(),
        ensures
            final(self).wf(),
            final(self).is_registered() == old(self).is_registered(),
            final(self).slots() == cleared(old(self).slots(), port.index as nat),
    {
        self.ports.free_port(port.index);
    }

    /// Prepares a console write of `buf` to the port behind console `index`;
    /// `InvalidIndex` when no live port is there.
    pub fn console_write(&self, index: usize, sysrq: bool, buf: Vec<u8>) -> (r: Result<
        ConsoleWrite,
        DriverError,
    >)
        ensures
            match r {
                Ok(w) => index < self.slots().len() && self.slots()[index as int] is Some && w.wf()
                    && w.model() == initial() && w.config() == (ConsoleConfig {
                    regs: self.slots()[index as int].unwrap().regs,
                    sysrq,
                    always_enabled: self.slots()[index as int].unwrap().vendor.always_enabled,
                    inv_fr: self.slots()[index as int].unwrap().vendor.inv_fr,
                    fr_busy: self.slots()[index as int].unwrap().vendor.fr_busy,
                    buf: buf@,
                }),
                Err(e) => e == DriverError::InvalidIndex && (index >= self.slots().len()
                    || self.slots()[index as int] is None),
            },
    {
        begin_console_write(&self.ports, index, sysrq, buf)
    }
}

} // verus!
