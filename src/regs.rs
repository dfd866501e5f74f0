//! Logical registers of the PL011 family, their byte offsets, and width-aware
//! access to a mapped register window.
use vstd::prelude::*;

use crate::config::{UART_SIZE, UPIO_MEM32};

verus! {

/// The closed set of logical registers a port may address.
#[derive(Debug, Clone, Copy, PartialEq, Eq, Structural)]
pub enum Regs {
    RegDr,
    RegStDmawm,
    RegStTimeout,
    RegFr,
    RegLcrhRx,
    RegLcrhTx,
    RegIbrd,
    RegFbrd,
    RegCr,
    RegIfls,
    RegImsc,
    RegRis,
    RegMis,
    RegIcr,
    RegDmacr,
    RegStXfcr,
    RegStXon1,
    RegStXon2,
    RegStXoff1,
    RegStXoff2,
    RegStItcr,
    RegStItip,
    RegStAbcr,
    RegStAbimsc,
}

/// Byte offset of a register in the standard offset table, or `None` for the
/// vendor sub-registers that the standard family does not have.
pub open spec fn std_offset(r: Regs) -> Option<nat> {
    match r {
        Regs::RegDr => Some(0x00),
        Regs::RegFr => Some(0x18),
        Regs::RegLcrhRx => Some(0x1c),
        Regs::RegIbrd => Some(0x24),
        Regs::RegFbrd => Some(0x28),
        Regs::RegLcrhTx => Some(0x2c),
        Regs::RegCr => Some(0x30),
        Regs::RegIfls => Some(0x34),
        Regs::RegImsc => Some(0x38),
        Regs::RegRis => Some(0x3c),
        Regs::RegMis => Some(0x40),
        Regs::RegIcr => Some(0x44),
        Regs::RegDmacr => Some(0x48),
        _ => None,
    }
}

/// A register that the standard offset table maps.
pub open spec fn is_mapped(r: Regs) -> bool {
    std_offset(r) is Some
}

impl Regs {
    /// Byte offset of the register in the standard table, if it has one.
    pub fn offset(self) -> (o: Option<usize>)
        ensures
            o matches Some(v) ==> std_offset(self) == Some(v as nat),
            o is None ==> std_offset(self) is None,
    {
        match self {
            Regs::RegDr => Some(0x00),
            Regs::RegFr => Some(0x18),
            Regs::RegLcrhRx => Some(0x1c),
            Regs::RegIbrd => Some(0x24),
            Regs::RegFbrd => Some(0x28),
            Regs::RegLcrhTx => Some(0x2c),
            Regs::RegCr => Some(0x30),
            Regs::RegIfls => Some(0x34),
            Regs::RegImsc => Some(0x38),
            Regs::RegRis => Some(0x3c),
            Regs::RegMis => Some(0x40),
            Regs::RegIcr => Some(0x44),
            Regs::RegDmacr => Some(0x48),
            _ => None,
        }
    }
}

/// Width of every load and store a port issues.
#[derive(Debug, Clone, Copy, PartialEq, Eq, Structural)]
pub enum AccessWidth {
    /// 16-bit relaxed accesses.
    Narrow,
    /// 32-bit relaxed accesses.
    Wide,
}

impl AccessWidth {
    /// Selects the width from a port's I/O-type tag.
    pub fn from_iotype(iotype: u8) -> (w: AccessWidth)
        ensures
            w == (if iotype == UPIO_MEM32 { AccessWidth::Wide } else { AccessWidth::Narrow }),
    {
        if iotype == UPIO_MEM32 {
            AccessWidth::Wide
        } else {
            AccessWidth::Narrow
        }
    }

    /// Number of bytes one access covers.
    pub open spec fn bytes(self) -> nat {
        match self {
            AccessWidth::Narrow => 2,
            AccessWidth::Wide => 4,
        }
    }

    /// The part of a value that an access of this width carries.
    pub open spec fn carried(self, v: u32) -> u32 {
        match self {
            AccessWidth::Narrow => v & 0xffff,
            AccessWidth::Wide => v,
        }
    }
}

/// A store resolved to the bus: where, how wide, and what.
#[derive(Debug, Clone, Copy, PartialEq, Eq, Structural)]
pub struct BusWrite {
    pub offset: usize,
    pub width: AccessWidth,
    pub value: u32,
}

/// A load resolved to the bus: where and how wide.
#[derive(Debug, Clone, Copy, PartialEq, Eq, Structural)]
pub struct BusRead {
    pub offset: usize,
    pub width: AccessWidth,
}

/// Width-aware accessor of one port's registers, its width fixed at
/// construction.
#[derive(Debug, Clone, Copy, PartialEq, Eq, Structural)]
pub struct RegisterFile {
    pub width: AccessWidth,
}

impl RegisterFile {
    /// Builds the accessor for a port with the given I/O-type tag.
    pub fn new(iotype: u8) -> (rf: RegisterFile)
        ensures
            rf.width == (if iotype == UPIO_MEM32 { AccessWidth::Wide } else { AccessWidth::Narrow }),
    {
        RegisterFile { width: AccessWidth::from_iotype(iotype) }
    }

    /// The store that writes `val` to `reg`.
    pub open spec fn write_spec(self, reg: Regs, val: u32) -> BusWrite
        recommends
            is_mapped(reg),
    {
        BusWrite {
            offset: std_offset(reg).unwrap() as usize,
            width: self.width,
            value: self.width.carried(val),
        }
    }

    /// The load that reads `reg`.
    pub open spec fn read_spec(self, reg: Regs) -> BusRead
        recommends
            is_mapped(reg),
    {
        BusRead { offset: std_offset(reg).unwrap() as usize, width: self.width }
    }

    /// Resolves a store of `val` to `reg`; a narrow store keeps the low half.
    pub fn write_access(&self, reg: Regs, val: u32) -> (a: BusWrite)
        requires
            is_mapped(reg),
        ensures
            a == self.write_spec(reg, val),
            a.offset + a.width.bytes() <= UART_SIZE,
    {
        let offset = match reg.offset() {
            Some(o) => o,
            None => 0,
        };
        let value = match self.width {
            AccessWidth::Narrow => val & 0xffff,
            AccessWidth::Wide => val,
        };
        BusWrite { offset, width: self.width, value }
    }

    /// Resolves a load of `reg`.
    pub fn read_access(&self, reg: Regs) -> (a: BusRead)
        requires
            is_mapped(reg),
        ensures
            a == self.read_spec(reg),
            a.offset + a.width.bytes() <= UART_SIZE,
    {
        let offset = match reg.offset() {
            Some(o) => o,
            None => 0,
        };
        BusRead { offset, width: self.width }
    }

    /// Writes `val` to `reg` of a simulated window.
    pub fn write(&self, win: &mut SimWindow, reg: Regs, val: u32)
        requires
            old(win).wf(),
            is_mapped(reg),
        ensures
            final(win).wf(),
            final(win)@ == old(win).store_spec(self.write_spec(reg, val)),
    {
        let a = self.write_access(reg, val);
        win.store(a);
    }

    /// Reads `reg` of a simulated window.
    pub fn read(&self, win: &SimWindow, reg: Regs) -> (v: u32)
        requires
            win.wf(),
            is_mapped(reg),
        ensures
            v == win.load_spec(self.read_spec(reg)),
    {
        let a = self.read_access(reg);
        win.load(a)
    }
}

/// Little-endian value of two bytes.
pub open spec fn le16(b0: u8, b1: u8) -> u32 {
    (b0 as u32) | ((b1 as u32) << 8u32)
}

/// Little-endian value of four bytes.
pub open spec fn le32(b0: u8, b1: u8, b2: u8, b3: u8) -> u32 {
    (b0 as u32) | ((b1 as u32) << 8u32) | ((b2 as u32) << 16u32) | ((b3 as u32) << 24u32)
}

/// A mapped register window held in memory, as a test bench or a model of the
/// device sees it: `UART_SIZE` bytes, little-endian.
pub struct SimWindow {
    bytes: Vec<u8>,
}

impl View for SimWindow {
    type V = Seq<u8>;

    closed spec fn view(&self) -> Seq<u8> {
        self.bytes@
    }
}

impl SimWindow {
    /// The window covers exactly `UART_SIZE` bytes.
    pub open spec fn wf(&self) -> bool {
        self@.len() == UART_SIZE
    }

    /// The window's bytes after a store.
    pub open spec fn store_spec(&self, a: BusWrite) -> Seq<u8>
        recommends
            a.offset + 4 <= self@.len(),
    {
        let o = a.offset as int;
        let v = a.value;
        match a.width {
            AccessWidth::Narrow => self@.update(o, v as u8).update(o + 1, (v >> 8u32) as u8),
            AccessWidth::Wide => self@.update(o, v as u8).update(o + 1, (v >> 8u32) as u8).update(
                o + 2,
                (v >> 16u32) as u8,
            ).update(o + 3, (v >> 24u32) as u8),
        }
    }

    /// The value a load returns.
    pub open spec fn load_spec(&self, a: BusRead) -> u32
        recommends
            a.offset + 4 <= self@.len(),
    {
        load_from(self@, a)
    }

    /// A window whose bytes are all zero.
    pub fn new() -> (w: SimWindow)
        ensures
            w.wf(),
            forall|i: int| 0 <= i < UART_SIZE ==> w@[i] == 0,
    {
        let mut bytes: Vec<u8> = Vec::new();
        let mut i: usize = 0;
        while i < UART_SIZE
            invariant
                i <= UART_SIZE,
                bytes@.len() == i,
                forall|j: int| 0 <= j < i ==> bytes@[j] == 0,
            decreases UART_SIZE - i,
        {
            bytes.push(0);
            i = i + 1;
        }
        SimWindow { bytes }
    }

    /// Performs a store.
    pub fn store(&mut self, a: BusWrite)
        requires
            old(self).wf(),
            a.offset + a.width.bytes() <= UART_SIZE,
        ensures
            final(self).wf(),
            final(self)@ == old(self).store_spec(a),
    {
        let o = a.offset;
        let v = a.value;
        self.bytes.set(o, v as u8);
        self.bytes.set(o + 1, (v >> 8u32) as u8);
        match a.width {
            AccessWidth::Narrow => {},
            AccessWidth::Wide => {
                self.bytes.set(o + 2, (v >> 16u32) as u8);
                self.bytes.set(o + 3, (v >> 24u32) as u8);
            },
        }
    }

    /// Performs a load.
    pub fn load(&self, a: BusRead) -> (v: u32)
        requires
            self.wf(),
            a.offset + a.width.bytes() <= UART_SIZE,
        ensures
            v == self.load_spec(a),
    {
        let o = a.offset;
        match a.width {
            AccessWidth::Narrow => (self.bytes[o] as u32) | ((self.bytes[o + 1] as u32) << 8u32),
            AccessWidth::Wide => (self.bytes[o] as u32) | ((self.bytes[o + 1] as u32) << 8u32) | ((
            self.bytes[o + 2] as u32) << 16u32) | ((self.bytes[o + 3] as u32) << 24u32),
        }
    }
}

proof fn lemma_le16_split(v: u32)
    ensures
        le16(v as u8, (v >> 8u32) as u8) == v & 0xffff,
{
    assert((v as u8 as u32) | (((v >> 8u32) as u8 as u32) << 8u32) == v & 0xffff) by (bit_vector);
}

proof fn lemma_le32_split(v: u32)
    ensures
        le32(v as u8, (v >> 8u32) as u8, (v >> 16u32) as u8, (v >> 24u32) as u8) == v,
{
    assert((v as u8 as u32) | (((v >> 8u32) as u8 as u32) << 8u32) | (((v >> 16u32) as u8 as u32)
        << 16u32) | (((v >> 24u32) as u8 as u32) << 24u32) == v) by (bit_vector);
}

/// Writing a register of a simulated window and reading it back returns the
/// value written, at both access widths, for every mapped register; a narrow
/// port carries the low sixteen bits of a value, so there the value must fit
/// in them.
pub proof fn lemma_register_round_trip(rf: RegisterFile, win: SimWindow, reg: Regs, v: u32)
    requires
        win.wf(),
        is_mapped(reg),
        rf.width == AccessWidth::Wide || v <= 0xffff,
    ensures
        load_from(win.store_spec(rf.write_spec(reg, v)), rf.read_spec(reg)) == v,
{
    let w = rf.write_spec(reg, v);
    let s = win.store_spec(w);
    let o = w.offset as int;
    match rf.width {
        AccessWidth::Narrow => {
            assert(v & 0xffff == v) by (bit_vector)
                requires
                    v <= 0xffff,
            ;
            assert((v & 0xffff) & 0xffff == v) by (bit_vector)
                requires
                    v <= 0xffff,
            ;
            lemma_le16_split(w.value);
            assert(s[o] == w.value as u8);
            assert(s[o + 1] == (w.value >> 8u32) as u8);
        },
        AccessWidth::Wide => {
            lemma_le32_split(v);
            assert(s[o] == v as u8);
            assert(s[o + 1] == (v >> 8u32) as u8);
            assert(s[o + 2] == (v >> 16u32) as u8);
            assert(s[o + 3] == (v >> 24u32) as u8);
        },
    }
}

/// The value a load returns from the given window bytes.
pub open spec fn load_from(bytes: Seq<u8>, a: BusRead) -> u32 {
    let o = a.offset as int;
    match a.width {
        AccessWidth::Narrow => le16(bytes[o], bytes[o + 1]),
        AccessWidth::Wide => le32(bytes[o], bytes[o + 1], bytes[o + 2], bytes[o + 3]),
    }
}

} // verus!
