//! The console write protocol: an interrupt-safe, lock-optional synchronous
//! write of a byte buffer to one port.
//!
//! The protocol is a state machine. Each state names one operation on the
//! platform (mask interrupts, take the port lock, enable the clock, access a
//! register, relax the CPU, ...); whoever drives the machine performs that
//! operation and hands back what it observed, and the machine decides the next
//! one. A ghost log of the completed operations lets the contracts speak of the
//! whole exchange.
use vstd::prelude::*;

use crate::config::{UART011_CR_CTSEN, UART011_CR_TXE, UART01X_CR_UARTEN, UART01X_FR_TXFF};
use crate::error::DriverError;
use crate::port::{PortDescriptor, VendorData};
use crate::ports::Ports;
use crate::regs::{BusRead, BusWrite, RegisterFile, Regs};

verus! {

/// Where a console write stands; each state names the operation it waits on.
#[derive(Debug, Clone, Copy, PartialEq, Eq, Structural)]
pub enum Phase {
    /// Waits on masking local interrupts.
    Start,
    /// Waits on taking the port lock.
    Locking,
    /// Waits on enabling the port clock.
    EnablingClock,
    /// Waits on the control register's value.
    ReadingCr,
    /// Waits on the store that forces the transmitter on.
    ForcingCr,
    /// Waits on the flag register before the next byte.
    PollingTx,
    /// Waits on a relax hint while the transmit FIFO is full.
    RelaxingTx,
    /// Waits on the store of the next byte to the data register.
    WritingData,
    /// Waits on the flag register while the transmitter drains.
    Draining,
    /// Waits on a relax hint while the transmitter is busy.
    RelaxingDrain,
    /// Waits on the store that restores the control register.
    RestoringCr,
    /// Waits on releasing the port lock.
    Unlocking,
    /// Waits on restoring the saved interrupt state.
    RestoringIrq,
    /// Waits on disabling the port clock.
    DisablingClock,
    /// The write is complete.
    Finished,
}

/// What the driver of the machine must do next.
#[derive(Debug, Clone, Copy, PartialEq, Eq, Structural)]
pub enum ConsoleAction {
    /// Mask local interrupts and keep the previous state.
    SaveIrq,
    /// Take the port lock.
    Lock,
    /// Acquire, prepare and enable the port clock.
    EnableClock,
    /// Load from the register window; answer with `Value`.
    Read(BusRead),
    /// Store to the register window.
    Write(BusWrite),
    /// Issue the CPU relax hint.
    Relax,
    /// Release the port lock.
    Unlock,
    /// Restore the interrupt state saved by `SaveIrq`.
    RestoreIrq,
    /// Disable and unprepare the port clock.
    DisableClock,
    /// Nothing: the write is complete.
    Finished,
}

/// What the driver of the machine observed when it performed an action.
#[derive(Debug, Clone, Copy, PartialEq, Eq, Structural)]
pub enum ConsoleEvent {
    /// The action completed.
    Done,
    /// A load completed with this value.
    Value(u32),
    /// The clock could not be enabled.
    ClockFailed,
}

/// One completed platform operation, as the log records it.
pub enum Op {
    /// Local interrupts were masked.
    IrqSave,
    /// The saved interrupt state was restored.
    IrqRestore,
    /// The port lock was taken.
    Lock,
    /// The port lock was released.
    Unlock,
    /// The clock was enabled.
    ClockOn,
    /// The clock was disabled.
    ClockOff,
    /// The CPU was told to relax.
    Relax,
    /// A register load returned this value.
    Read(Regs, u32),
    /// This value was stored to a register.
    Write(Regs, u32),
}

/// What stays fixed during one console write.
pub struct ConsoleConfig {
    pub regs: RegisterFile,
    pub sysrq: bool,
    pub always_enabled: bool,
    pub inv_fr: u32,
    pub fr_busy: u32,
    pub buf: Seq<u8>,
}

/// What changes during one console write.
pub struct ConsoleModel {
    pub phase: Phase,
    pub pos: nat,
    pub saved_cr: u32,
    pub took_lock: bool,
    pub clock_on: bool,
    pub log: Seq<Op>,
}

/// The control register value that lets the transmitter run: CTS flow
/// control off, UART and transmitter on.
pub open spec fn forced_cr(cr: u32) -> u32 {
    (cr & !UART011_CR_CTSEN) | UART01X_CR_UARTEN | UART011_CR_TXE
}

/// The flag register says the transmit FIFO is full.
pub open spec fn fifo_full(fr: u32) -> bool {
    fr & UART01X_FR_TXFF != 0
}

/// The flag register says the transmitter is busy, once the vendor's
/// inverted bits are flipped back.
pub open spec fn tx_busy(inv_fr: u32, fr_busy: u32, fr: u32) -> bool {
    (fr ^ inv_fr) & fr_busy != 0
}

/// Returns whether the transmit FIFO is full.
pub fn is_fifo_full(fr: u32) -> (r: bool)
    ensures
        r == fifo_full(fr),
{
    fr & UART01X_FR_TXFF != 0
}

/// Returns whether the transmitter is busy for the given vendor profile.
pub fn is_tx_busy(vendor: &VendorData, fr: u32) -> (r: bool)
    ensures
        r == tx_busy(vendor.inv_fr, vendor.fr_busy, fr),
{
    (fr ^ vendor.inv_fr) & vendor.fr_busy != 0
}

/// Computes the control register value used while the console writes.
pub fn force_tx_cr(cr: u32) -> (r: u32)
    ensures
        r == forced_cr(cr),
{
    (cr & !UART011_CR_CTSEN) | UART01X_CR_UARTEN | UART011_CR_TXE
}

/// Number of times `o` occurs in a log.
pub open spec fn count_op(s: Seq<Op>, o: Op) -> nat
    decreases s.len(),
{
    if s.len() == 0 {
        0
    } else {
        count_op(s.drop_last(), o) + if s.last() == o {
            1nat
        } else {
            0nat
        }
    }
}

/// Number of register accesses in a log.
pub open spec fn reg_ops(s: Seq<Op>) -> nat
    decreases s.len(),
{
    if s.len() == 0 {
        0
    } else {
        reg_ops(s.drop_last()) + match s.last() {
            Op::Read(_, _) | Op::Write(_, _) => 1nat,
            _ => 0nat,
        }
    }
}

/// The value of the first load of `r` in a log.
pub open spec fn first_read(s: Seq<Op>, r: Regs) -> Option<u32>
    decreases s.len(),
{
    if s.len() == 0 {
        None
    } else {
        match first_read(s.drop_last(), r) {
            Some(v) => Some(v),
            None => match s.last() {
                Op::Read(q, v) => if q == r {
                    Some(v)
                } else {
                    None
                },
                _ => None,
            },
        }
    }
}

/// The value of the last store to `r` in a log.
pub open spec fn last_write(s: Seq<Op>, r: Regs) -> Option<u32>
    decreases s.len(),
{
    if s.len() == 0 {
        None
    } else {
        match s.last() {
            Op::Write(q, v) => if q == r {
                Some(v)
            } else {
                last_write(s.drop_last(), r)
            },
            _ => last_write(s.drop_last(), r),
        }
    }
}

/// The bytes stored to the data register, in order.
pub open spec fn data_written(s: Seq<Op>) -> Seq<u8>
    decreases s.len(),
{
    if s.len() == 0 {
        Seq::empty()
    } else {
        match s.last() {
            Op::Write(Regs::RegDr, v) => data_written(s.drop_last()).push(v as u8),
            _ => data_written(s.drop_last()),
        }
    }
}

/// Number of loads of the flag register in a log.
pub open spec fn flag_polls(s: Seq<Op>) -> nat
    decreases s.len(),
{
    if s.len() == 0 {
        0
    } else {
        flag_polls(s.drop_last()) + match s.last() {
            Op::Read(Regs::RegFr, _) => 1nat,
            _ => 0nat,
        }
    }
}

/// The state after the register work, or after it was skipped.
pub open spec fn release_phase(m: ConsoleModel) -> Phase {
    if m.took_lock {
        Phase::Unlocking
    } else {
        Phase::RestoringIrq
    }
}

/// The state that follows the control register set-up: the first byte, or
/// the drain for an empty buffer.
pub open spec fn emit_phase(c: ConsoleConfig, pos: nat) -> Phase {
    if pos < c.buf.len() {
        Phase::PollingTx
    } else {
        Phase::Draining
    }
}

/// The event a state waits for is of this kind.
pub open spec fn accepts(m: ConsoleModel, e: ConsoleEvent) -> bool {
    match m.phase {
        Phase::ReadingCr | Phase::PollingTx | Phase::Draining => e is Value,
        Phase::EnablingClock => e is Done || e is ClockFailed,
        Phase::Finished => false,
        _ => e is Done,
    }
}

/// One transition of the protocol.
pub open spec fn next(c: ConsoleConfig, m: ConsoleModel, e: ConsoleEvent) -> ConsoleModel {
    match m.phase {
        Phase::Start => ConsoleModel {
            phase: if c.sysrq {
                Phase::EnablingClock
            } else {
                Phase::Locking
            },
            log: m.log.push(Op::IrqSave),
            ..m
        },
        Phase::Locking => ConsoleModel {
            phase: Phase::EnablingClock,
            took_lock: true,
            log: m.log.push(Op::Lock),
            ..m
        },
        Phase::EnablingClock => if e is ClockFailed {
            ConsoleModel { phase: release_phase(m), ..m }
        } else {
            ConsoleModel {
                phase: if c.always_enabled {
                    emit_phase(c, m.pos)
                } else {
                    Phase::ReadingCr
                },
                clock_on: true,
                log: m.log.push(Op::ClockOn),
                ..m
            }
        },
        Phase::ReadingCr => {
            let v = e->Value_0;
            ConsoleModel {
                phase: Phase::ForcingCr,
                saved_cr: v,
                log: m.log.push(Op::Read(Regs::RegCr, v)),
                ..m
            }
        },
        Phase::ForcingCr => ConsoleModel {
            phase: emit_phase(c, m.pos),
            log: m.log.push(Op::Write(Regs::RegCr, c.regs.width.carried(forced_cr(m.saved_cr)))),
            ..m
        },
        Phase::PollingTx => {
            let v = e->Value_0;
            ConsoleModel {
                phase: if fifo_full(v) {
                    Phase::RelaxingTx
                } else {
                    Phase::WritingData
                },
                log: m.log.push(Op::Read(Regs::RegFr, v)),
                ..m
            }
        },
        Phase::RelaxingTx => ConsoleModel {
            phase: Phase::PollingTx,
            log: m.log.push(Op::Relax),
            ..m
        },
        Phase::WritingData => ConsoleModel {
            phase: emit_phase(c, m.pos + 1),
            pos: m.pos + 1,
            log: m.log.push(Op::Write(Regs::RegDr, c.buf[m.pos as int] as u32)),
            ..m
        },
        Phase::Draining => {
            let v = e->Value_0;
            ConsoleModel {
                phase: if tx_busy(c.inv_fr, c.fr_busy, v) {
                    Phase::RelaxingDrain
                } else if c.always_enabled {
                    release_phase(m)
                } else {
                    Phase::RestoringCr
                },
                log: m.log.push(Op::Read(Regs::RegFr, v)),
                ..m
            }
        },
        Phase::RelaxingDrain => ConsoleModel {
            phase: Phase::Draining,
            log: m.log.push(Op::Relax),
            ..m
        },
        Phase::RestoringCr => ConsoleModel {
            phase: release_phase(m),
            log: m.log.push(Op::Write(Regs::RegCr, c.regs.width.carried(m.saved_cr))),
            ..m
        },
        Phase::Unlocking => ConsoleModel {
            phase: Phase::RestoringIrq,
            log: m.log.push(Op::Unlock),
            ..m
        },
        Phase::RestoringIrq => ConsoleModel {
            phase: if m.clock_on {
                Phase::DisablingClock
            } else {
                Phase::Finished
            },
            log: m.log.push(Op::IrqRestore),
            ..m
        },
        Phase::DisablingClock => ConsoleModel {
            phase: Phase::Finished,
            log: m.log.push(Op::ClockOff),
            ..m
        },
        Phase::Finished => m,
    }
}

/// The action a state asks for.
pub open spec fn action_of(c: ConsoleConfig, m: ConsoleModel) -> ConsoleAction {
    match m.phase {
        Phase::Start => ConsoleAction::SaveIrq,
        Phase::Locking => ConsoleAction::Lock,
        Phase::EnablingClock => ConsoleAction::EnableClock,
        Phase::ReadingCr => ConsoleAction::Read(c.regs.read_spec(Regs::RegCr)),
        Phase::ForcingCr => ConsoleAction::Write(c.regs.write_spec(Regs::RegCr, forced_cr(m.saved_cr))),
        Phase::PollingTx => ConsoleAction::Read(c.regs.read_spec(Regs::RegFr)),
        Phase::RelaxingTx => ConsoleAction::Relax,
        Phase::WritingData => ConsoleAction::Write(
            c.regs.write_spec(Regs::RegDr, c.buf[m.pos as int] as u32),
        ),
        Phase::Draining => ConsoleAction::Read(c.regs.read_spec(Regs::RegFr)),
        Phase::RelaxingDrain => ConsoleAction::Relax,
        Phase::RestoringCr => ConsoleAction::Write(c.regs.write_spec(Regs::RegCr, m.saved_cr)),
        Phase::Unlocking => ConsoleAction::Unlock,
        Phase::RestoringIrq => ConsoleAction::RestoreIrq,
        Phase::DisablingClock => ConsoleAction::DisableClock,
        Phase::Finished => ConsoleAction::Finished,
    }
}

/// The state a console write starts in.
pub open spec fn initial() -> ConsoleModel {
    ConsoleModel {
        phase: Phase::Start,
        pos: 0,
        saved_cr: 0,
        took_lock: false,
        clock_on: false,
        log: Seq::empty(),
    }
}

/// Position of a state in the protocol's order.
pub open spec fn rank(p: Phase) -> nat {
    match p {
        Phase::Start => 0,
        Phase::Locking => 1,
        Phase::EnablingClock => 2,
        Phase::ReadingCr => 3,
        Phase::ForcingCr => 4,
        Phase::PollingTx | Phase::RelaxingTx | Phase::WritingData => 5,
        Phase::Draining | Phase::RelaxingDrain => 6,
        Phase::RestoringCr => 7,
        Phase::Unlocking => 8,
        Phase::RestoringIrq => 9,
        Phase::DisablingClock => 10,
        Phase::Finished => 11,
    }
}

/// 1 for a fact that holds, 0 for one that does not.
pub open spec fn once(b: bool) -> nat {
    if b {
        1
    } else {
        0
    }
}

/// What holds of every state a console write reaches: the log matches the
/// state, operation by operation.
pub open spec fn inv(c: ConsoleConfig, m: ConsoleModel) -> bool {
    let r = rank(m.phase);
    let log = m.log;
    &&& m.pos <= c.buf.len()
    &&& r < 5 ==> m.pos == 0
    &&& r == 5 ==> m.pos < c.buf.len()
    &&& r >= 6 && m.clock_on ==> m.pos == c.buf.len()
    &&& count_op(log, Op::IrqSave) == once(r >= 1)
    &&& count_op(log, Op::IrqRestore) == once(r >= 10)
    &&& count_op(log, Op::Lock) == once(m.took_lock)
    &&& m.took_lock == (!c.sysrq && r >= 2)
    &&& r == 1 ==> !c.sysrq
    &&& r == 8 ==> m.took_lock
    &&& r == 10 ==> m.clock_on
    &&& count_op(log, Op::Unlock) == once(m.took_lock && r >= 9)
    &&& count_op(log, Op::ClockOn) == once(m.clock_on)
    &&& count_op(log, Op::ClockOff) == once(m.clock_on && r >= 11)
    &&& m.clock_on ==> r >= 3
    &&& 3 <= r <= 7 ==> m.clock_on
    &&& !m.clock_on ==> reg_ops(log) == 0
    &&& c.always_enabled ==> last_write(log, Regs::RegCr) is None
    &&& c.always_enabled ==> r != 3 && r != 4 && r != 7
    &&& !c.always_enabled && m.clock_on && r <= 3 ==> first_read(log, Regs::RegCr) is None
        && last_write(log, Regs::RegCr) is None
    &&& !c.always_enabled && m.clock_on && r >= 4 ==> first_read(log, Regs::RegCr) == Some(
        m.saved_cr,
    )
    &&& !c.always_enabled && m.clock_on && 5 <= r <= 7 ==> last_write(log, Regs::RegCr) == Some(
        c.regs.width.carried(forced_cr(m.saved_cr)),
    )
    &&& !c.always_enabled && m.clock_on && r >= 8 ==> last_write(log, Regs::RegCr) == Some(
        c.regs.width.carried(m.saved_cr),
    )
    &&& data_written(log) == c.buf.take(m.pos as int)
}

proof fn lemma_log_push(s: Seq<Op>, x: Op)
    ensures
        forall|o: Op| #[trigger]
            count_op(s.push(x), o) == count_op(s, o) + once(x == o),
        reg_ops(s.push(x)) == reg_ops(s) + match x {
            Op::Read(_, _) | Op::Write(_, _) => 1nat,
            _ => 0nat,
        },
        flag_polls(s.push(x)) == flag_polls(s) + match x {
            Op::Read(Regs::RegFr, _) => 1nat,
            _ => 0nat,
        },
        forall|r: Regs| #[trigger]
            first_read(s.push(x), r) == match first_read(s, r) {
                Some(v) => Some(v),
                None => match x {
                    Op::Read(q, v) => if q == r {
                        Some(v)
                    } else {
                        None
                    },
                    _ => None,
                },
            },
        forall|r: Regs| #[trigger]
            last_write(s.push(x), r) == match x {
                Op::Write(q, v) => if q == r {
                    Some(v)
                } else {
                    last_write(s, r)
                },
                _ => last_write(s, r),
            },
        data_written(s.push(x)) == match x {
            Op::Write(Regs::RegDr, v) => data_written(s).push(v as u8),
            _ => data_written(s),
        },
{
    assert(s.push(x).drop_last() =~= s);
}

proof fn lemma_no_reg_ops(s: Seq<Op>, r: Regs)
    requires
        reg_ops(s) == 0,
    ensures
        first_read(s, r) is None,
        last_write(s, r) is None,
        data_written(s) == Seq::<u8>::empty(),
    decreases s.len(),
{
    if s.len() > 0 {
        lemma_no_reg_ops(s.drop_last(), r);
    }
}

/// Every transition keeps the invariant.
pub proof fn lemma_next_inv(c: ConsoleConfig, m: ConsoleModel, e: ConsoleEvent)
    requires
        inv(c, m),
        accepts(m, e),
    ensures
        inv(c, next(c, m, e)),
{
    let n = next(c, m, e);
    if !m.clock_on {
        lemma_no_reg_ops(m.log, Regs::RegCr);
    }
    if n.log != m.log {
        lemma_log_push(m.log, n.log.last());
        assert(n.log == m.log.push(n.log.last()));
    }
    if m.phase == Phase::WritingData {
        assert(c.buf.take(m.pos as int).push(c.buf[m.pos as int]) =~= c.buf.take(m.pos + 1 as int));
        assert((c.buf[m.pos as int] as u32) as u8 == c.buf[m.pos as int]);
    }
    if m.phase == Phase::EnablingClock && !(e is ClockFailed) {
        assert(c.buf.take(0) =~= Seq::<u8>::empty());
    }
}

/// The state a console write starts in meets the invariant.
pub proof fn lemma_initial_inv(c: ConsoleConfig)
    ensures
        inv(c, initial()),
{
    assert(c.buf.take(0) =~= Seq::<u8>::empty());
}

/// One console write in progress.
pub struct ConsoleWrite {
    regs: RegisterFile,
    sysrq: bool,
    always_enabled: bool,
    inv_fr: u32,
    fr_busy: u32,
    buf: Vec<u8>,
    phase: Phase,
    pos: usize,
    saved_cr: u32,
    took_lock: bool,
    clock_on: bool,
    log: Ghost<Seq<Op>>,
}

impl ConsoleWrite {
    /// What stays fixed during this write.
    pub closed spec fn config(&self) -> ConsoleConfig {
        ConsoleConfig {
            regs: self.regs,
            sysrq: self.sysrq,
            always_enabled: self.always_enabled,
            inv_fr: self.inv_fr,
            fr_busy: self.fr_busy,
            buf: self.buf@,
        }
    }

    /// Where this write stands, with the log of what it has done.
    pub closed spec fn model(&self) -> ConsoleModel {
        ConsoleModel {
            phase: self.phase,
            pos: self.pos as nat,
            saved_cr: self.saved_cr,
            took_lock: self.took_lock,
            clock_on: self.clock_on,
            log: self.log@,
        }
    }

    /// The write's state is one the protocol reaches.
    pub open spec fn wf(&self) -> bool {
        inv(self.config(), self.model())
    }

    /// Prepares a write of `buf` to `port`. With `sysrq` set the caller already
    /// holds the port lock, and the write must not take it again.
    pub fn new(port: &PortDescriptor, sysrq: bool, buf: Vec<u8>) -> (w: ConsoleWrite)
        ensures
            w.wf(),
            w.model() == initial(),
            w.config() == (ConsoleConfig {
                regs: port.regs,
                sysrq,
                always_enabled: port.vendor.always_enabled,
                inv_fr: port.vendor.inv_fr,
                fr_busy: port.vendor.fr_busy,
                buf: buf@,
            }),
    {
        let w = ConsoleWrite {
            regs: port.regs,
            sysrq,
            always_enabled: port.vendor.always_enabled,
            inv_fr: port.vendor.inv_fr,
            fr_busy: port.vendor.fr_busy,
            buf,
            phase: Phase::Start,
            pos: 0,
            saved_cr: 0,
            took_lock: false,
            clock_on: false,
            log: Ghost(Seq::empty()),
        };
        proof {
            lemma_initial_inv(w.config());
        }
        w
    }

    /// The state this write is in.
    pub fn phase(&self) -> (p: Phase)
        ensures
            p == self.model().phase,
    {
        self.phase
    }

    /// Whether the write is complete.
    pub fn is_finished(&self) -> (r: bool)
        ensures
            r == (self.model().phase == Phase::Finished),
    {
        self.phase == Phase::Finished
    }

    /// Whether the write took the port lock.
    pub fn took_lock(&self) -> (r: bool)
        ensures
            r == self.model().took_lock,
    {
        self.took_lock
    }

    /// Whether `e` is the kind of answer the current action calls for.
    pub fn accepts(&self, e: ConsoleEvent) -> (r: bool)
        ensures
            r == accepts(self.model(), e),
    {
        match self.phase {
            Phase::ReadingCr | Phase::PollingTx | Phase::Draining => match e {
                ConsoleEvent::Value(_) => true,
                _ => false,
            },
            Phase::EnablingClock => match e {
                ConsoleEvent::Value(_) => false,
                _ => true,
            },
            Phase::Finished => false,
            _ => match e {
                ConsoleEvent::Done => true,
                _ => false,
            },
        }
    }

    /// The action the write waits on.
    pub fn action(&self) -> (a: ConsoleAction)
        requires
            self.wf(),
        ensures
            a == action_of(self.config(), self.model()),
    {
        match self.phase {
            Phase::Start => ConsoleAction::SaveIrq,
            Phase::Locking => ConsoleAction::Lock,
            Phase::EnablingClock => ConsoleAction::EnableClock,
            Phase::ReadingCr => ConsoleAction::Read(self.regs.read_access(Regs::RegCr)),
            Phase::ForcingCr => ConsoleAction::Write(
                self.regs.write_access(Regs::RegCr, force_tx_cr(self.saved_cr)),
            ),
            Phase::PollingTx => ConsoleAction::Read(self.regs.read_access(Regs::RegFr)),
            Phase::RelaxingTx => ConsoleAction::Relax,
            Phase::WritingData => ConsoleAction::Write(
                self.regs.write_access(Regs::RegDr, self.buf[self.pos] as u32),
            ),
            Phase::Draining => ConsoleAction::Read(self.regs.read_access(Regs::RegFr)),
            Phase::RelaxingDrain => ConsoleAction::Relax,
            Phase::RestoringCr => ConsoleAction::Write(
                self.regs.write_access(Regs::RegCr, self.saved_cr),
            ),
            Phase::Unlocking => ConsoleAction::Unlock,
            Phase::RestoringIrq => ConsoleAction::RestoreIrq,
            Phase::DisablingClock => ConsoleAction::DisableClock,
            Phase::Finished => ConsoleAction::Finished,
        }
    }

    fn release(&mut self)
        requires
            old(self).phase == Phase::EnablingClock || old(self).phase == Phase::Draining
                || old(self).phase == Phase::RestoringCr,
        ensures
            final(self).phase == release_phase(old(self).model()),
            final(self).model() == (ConsoleModel { phase: final(self).phase, ..old(self).model() }),
            final(self).config() == old(self).config(),
    {
        if self.took_lock {
            self.phase = Phase::Unlocking;
        } else {
            self.phase = Phase::RestoringIrq;
        }
    }

    /// Takes in what the platform observed for the current action and moves
    /// to the next one, which it returns.
    pub fn step(&mut self, e: ConsoleEvent) -> (a: ConsoleAction)
        requires
            old(self).wf(),
            accepts(old(self).model(), e),
        ensures
            final(self).wf(),
            final(self).config() == old(self).config(),
            final(self).model() == next(old(self).config(), old(self).model(), e),
            a == action_of(final(self).config(), final(self).model()),
    {
        proof {
            lemma_next_inv(self.config(), self.model(), e);
        }
        let ghost log = self.log@;
        match self.phase {
            Phase::Start => {
                self.phase = if self.sysrq {
                    Phase::EnablingClock
                } else {
                    Phase::Locking
                };
                self.log = Ghost(log.push(Op::IrqSave));
            },
            Phase::Locking => {
                self.phase = Phase::EnablingClock;
                self.took_lock = true;
                self.log = Ghost(log.push(Op::Lock));
            },
            Phase::EnablingClock => {
                if e == ConsoleEvent::ClockFailed {
                    self.release();
                } else {
                    self.phase = if self.always_enabled {
                        if self.pos < self.buf.len() {
                            Phase::PollingTx
                        } else {
                            Phase::Draining
                        }
                    } else {
                        Phase::ReadingCr
                    };
                    self.clock_on = true;
                    self.log = Ghost(log.push(Op::ClockOn));
                }
            },
            Phase::ReadingCr => {
                if let ConsoleEvent::Value(v) = e {
                    self.phase = Phase::ForcingCr;
                    self.saved_cr = v;
                    self.log = Ghost(log.push(Op::Read(Regs::RegCr, v)));
                }
            },
            Phase::ForcingCr => {
                let a = self.regs.write_access(Regs::RegCr, force_tx_cr(self.saved_cr));
                self.phase = if self.pos < self.buf.len() {
                    Phase::PollingTx
                } else {
                    Phase::Draining
                };
                self.log = Ghost(log.push(Op::Write(Regs::RegCr, a.value)));
            },
            Phase::PollingTx => {
                if let ConsoleEvent::Value(v) = e {
                    self.phase = if is_fifo_full(v) {
                        Phase::RelaxingTx
                    } else {
                        Phase::WritingData
                    };
                    self.log = Ghost(log.push(Op::Read(Regs::RegFr, v)));
                }
            },
            Phase::RelaxingTx => {
                self.phase = Phase::PollingTx;
                self.log = Ghost(log.push(Op::Relax));
            },
            Phase::WritingData => {
                let n = self.buf.len();
                let b = self.buf[self.pos];
                self.pos = self.pos + 1;
                self.phase = if self.pos < n {
                    Phase::PollingTx
                } else {
                    Phase::Draining
                };
                self.log = Ghost(log.push(Op::Write(Regs::RegDr, b as u32)));
            },
            Phase::Draining => {
                if let ConsoleEvent::Value(v) = e {
                    if (v ^ self.inv_fr) & self.fr_busy != 0 {
                        self.phase = Phase::RelaxingDrain;
                    } else if self.always_enabled {
                        self.release();
                    } else {
                        self.phase = Phase::RestoringCr;
                    }
                    self.log = Ghost(log.push(Op::Read(Regs::RegFr, v)));
                }
            },
            Phase::RelaxingDrain => {
                self.phase = Phase::Draining;
                self.log = Ghost(log.push(Op::Relax));
            },
            Phase::RestoringCr => {
                let a = self.regs.write_access(Regs::RegCr, self.saved_cr);
                self.release();
                self.log = Ghost(log.push(Op::Write(Regs::RegCr, a.value)));
            },
            Phase::Unlocking => {
                self.phase = Phase::RestoringIrq;
                self.log = Ghost(log.push(Op::Unlock));
            },
            Phase::RestoringIrq => {
                self.phase = if self.clock_on {
                    Phase::DisablingClock
                } else {
                    Phase::Finished
                };
                self.log = Ghost(log.push(Op::IrqRestore));
            },
            Phase::DisablingClock => {
                self.phase = Phase::Finished;
                self.log = Ghost(log.push(Op::ClockOff));
            },
            Phase::Finished => {},
        }
        self.action()
    }
}

/// Looks up the port behind console `index` and prepares a write of `buf`
/// to it; an index with no live port is refused with `InvalidIndex`.
pub fn begin_console_write(ports: &Ports, index: usize, sysrq: bool, buf: Vec<u8>) -> (r: Result<
    ConsoleWrite,
    DriverError,
>)
    ensures
        match r {
            Ok(w) => index < ports@.len() && ports@[index as int] is Some && w.wf() && w.model()
                == initial() && w.config() == (ConsoleConfig {
                regs: ports@[index as int].unwrap().regs,
                sysrq,
                always_enabled: ports@[index as int].unwrap().vendor.always_enabled,
                inv_fr: ports@[index as int].unwrap().vendor.inv_fr,
                fr_busy: ports@[index as int].unwrap().vendor.fr_busy,
                buf: buf@,
            }),
            Err(e) => e == DriverError::InvalidIndex && (index >= ports@.len() || ports@[index as int] is None),
        },
{
    match ports.get_port(index) {
        Some(port) => Ok(ConsoleWrite::new(&port, sysrq, buf)),
        None => Err(DriverError::InvalidIndex),
    }
}

/// Every console write that completes takes and releases the port lock the
/// same number of times, once without a held lock and never with one, masks
/// and restores local interrupts exactly once each, and disables the clock
/// exactly when it enabled it.
pub proof fn lemma_console_pairing(c: ConsoleConfig, m: ConsoleModel)
    requires
        inv(c, m),
        m.phase == Phase::Finished,
    ensures
        count_op(m.log, Op::Lock) == count_op(m.log, Op::Unlock),
        count_op(m.log, Op::Lock) == once(!c.sysrq),
        count_op(m.log, Op::IrqSave) == 1,
        count_op(m.log, Op::IrqRestore) == 1,
        count_op(m.log, Op::ClockOn) == count_op(m.log, Op::ClockOff),
{
}

/// A console write that completes with the clock enabled, on a port whose
/// transmitter is not always enabled, stores back to the control register
/// last what it loaded from it first (at a narrow width, the low half of it,
/// which is all a narrow load returns); on a port whose transmitter is always
/// enabled it never stores to the control register; and without the clock it
/// touches no register at all.
pub proof fn lemma_control_register_restored(c: ConsoleConfig, m: ConsoleModel)
    requires
        inv(c, m),
        m.phase == Phase::Finished,
    ensures
        !c.always_enabled && m.clock_on ==> first_read(m.log, Regs::RegCr) == Some(m.saved_cr)
            && last_write(m.log, Regs::RegCr) == Some(c.regs.width.carried(m.saved_cr)),
        !c.always_enabled && m.clock_on && (c.regs.width is Wide || m.saved_cr <= 0xffff)
            ==> last_write(m.log, Regs::RegCr) == first_read(m.log, Regs::RegCr),
        c.always_enabled ==> last_write(m.log, Regs::RegCr) is None,
        !m.clock_on ==> reg_ops(m.log) == 0,
{
    if m.saved_cr <= 0xffff {
        let v = m.saved_cr;
        assert(v & 0xffff == v) by (bit_vector)
            requires
                v <= 0xffff,
        ;
    }
}

/// A console write that completes with the clock enabled has stored every
/// byte of its buffer to the data register, in order, and nothing else.
pub proof fn lemma_console_emits_buffer(c: ConsoleConfig, m: ConsoleModel)
    requires
        inv(c, m),
        m.phase == Phase::Finished,
        m.clock_on,
    ensures
        data_written(m.log) == c.buf,
{
    assert(c.buf.take(c.buf.len() as int) =~= c.buf);
}

/// The state after each event of `es` in turn.
pub open spec fn run(c: ConsoleConfig, m: ConsoleModel, es: Seq<ConsoleEvent>) -> ConsoleModel
    decreases es.len(),
{
    if es.len() == 0 {
        m
    } else {
        run(c, next(c, m, es[0]), es.drop_first())
    }
}

/// The answers of a platform whose flag register reads each value of `vs` in
/// turn while the machine relaxes between the loads.
pub open spec fn polls(vs: Seq<u32>) -> Seq<ConsoleEvent>
    decreases vs.len(),
{
    if vs.len() == 0 {
        Seq::empty()
    } else {
        seq![ConsoleEvent::Value(vs[0]), ConsoleEvent::Done] + polls(vs.drop_first())
    }
}

proof fn lemma_run_append(c: ConsoleConfig, m: ConsoleModel, a: Seq<ConsoleEvent>, b: Seq<
    ConsoleEvent,
>)
    ensures
        run(c, m, a + b) == run(c, run(c, m, a), b),
    decreases a.len(),
{
    if a.len() == 0 {
        assert(a + b =~= b);
    } else {
        assert((a + b).drop_first() =~= a.drop_first() + b);
        assert((a + b)[0] == a[0]);
        lemma_run_append(c, next(c, m, a[0]), a.drop_first(), b);
    }
}

proof fn lemma_drain_busy(c: ConsoleConfig, m: ConsoleModel, vs: Seq<u32>)
    requires
        m.phase == Phase::Draining,
        forall|k: int| 0 <= k < vs.len() ==> tx_busy(c.inv_fr, c.fr_busy, #[trigger] vs[k]),
    ensures
        run(c, m, polls(vs)).phase == Phase::Draining,
        flag_polls(run(c, m, polls(vs)).log) == flag_polls(m.log) + vs.len(),
    decreases vs.len(),
{
    if vs.len() > 0 {
        let e = polls(vs);
        let m1 = next(c, m, ConsoleEvent::Value(vs[0]));
        let m2 = next(c, m1, ConsoleEvent::Done);
        lemma_log_push(m.log, Op::Read(Regs::RegFr, vs[0]));
        lemma_log_push(m1.log, Op::Relax);
        assert(tx_busy(c.inv_fr, c.fr_busy, vs[0]));
        assert(e[0] == ConsoleEvent::Value(vs[0]));
        assert(e.drop_first()[0] == ConsoleEvent::Done);
        assert(e.drop_first().drop_first() =~= polls(vs.drop_first()));
        assert forall|k: int| 0 <= k < vs.drop_first().len() implies tx_busy(
            c.inv_fr,
            c.fr_busy,
            #[trigger] vs.drop_first()[k],
        ) by {
            assert(vs.drop_first()[k] == vs[k + 1]);
        }
        assert(e.len() > 0 && e.drop_first().len() > 0);
        assert(run(c, m, e) == run(c, m1, e.drop_first()));
        assert(run(c, m1, e.drop_first()) == run(c, m2, e.drop_first().drop_first()));
        lemma_drain_busy(c, m2, vs.drop_first());
    }
}

/// While the flag register shows the transmitter busy the drain keeps
/// polling; when it reads idle after `vs`, the drain ends on that load,
/// having loaded the flag register exactly `vs.len() + 1` times.
pub proof fn lemma_drain_terminates(c: ConsoleConfig, m: ConsoleModel, vs: Seq<u32>, idle: u32)
    requires
        m.phase == Phase::Draining,
        forall|k: int| 0 <= k < vs.len() ==> tx_busy(c.inv_fr, c.fr_busy, #[trigger] vs[k]),
        !tx_busy(c.inv_fr, c.fr_busy, idle),
    ensures
        run(c, m, polls(vs)).phase == Phase::Draining,
        ({
            let done = run(c, m, polls(vs).push(ConsoleEvent::Value(idle)));
            &&& rank(done.phase) >= 7
            &&& flag_polls(done.log) == flag_polls(m.log) + vs.len() + 1
        }),
{
    lemma_drain_busy(c, m, vs);
    let m1 = run(c, m, polls(vs));
    let last = seq![ConsoleEvent::Value(idle)];
    assert(polls(vs).push(ConsoleEvent::Value(idle)) =~= polls(vs) + last);
    lemma_run_append(c, m, polls(vs), last);
    assert(last.drop_first() =~= Seq::<ConsoleEvent>::empty());
    lemma_log_push(m1.log, Op::Read(Regs::RegFr, idle));
    assert(run(c, m1, last) == run(c, next(c, m1, ConsoleEvent::Value(idle)), last.drop_first()));
}

} // verus!
