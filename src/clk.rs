//! Clock handles and the prepare-then-enable sequence with its rollback.
//!
//! The platform performs each clock operation; the sequence decides, from
//! each return code, which operation comes next, so that a failed enable never
//! leaves the clock prepared.
use vstd::prelude::*;

use crate::error::DriverError;

verus! {

/// A reference to one clock of a device, not yet prepared.
pub struct Clk {
    ptr: usize,
}

impl Clk {
    /// The platform's handle of the clock.
    pub closed spec fn handle(&self) -> usize {
        self.ptr
    }

    /// Wraps a handle the clock framework gave out.
    pub fn from_raw(ptr: usize) -> (c: Clk)
        ensures
            c.handle() == ptr,
    {
        Clk { ptr }
    }

    /// The clock framework's handle of this clock.
    pub fn as_ptr(&self) -> (r: usize)
        ensures
            r == self.handle(),
    {
        self.ptr
    }

    /// Looks at what a device's clock lookup returned: a null handle means the
    /// device has no clock.
    pub fn acquire(ptr: usize) -> (r: Result<Clk, DriverError>)
        ensures
            ptr == 0 ==> r == Err::<Clk, DriverError>(DriverError::NoClock),
            ptr != 0 ==> (r matches Ok(c) && c.handle() == ptr),
    {
        if ptr == 0 {
            Err(DriverError::NoClock)
        } else {
            Ok(Clk { ptr })
        }
    }

    /// Starts preparing and enabling the clock; the first operation is
    /// `ClkAction::Prepare`.
    pub fn prepare_enable(self) -> (s: ClkEnable)
        ensures
            s.handle() == self.handle(),
            s.stage() == ClkStage::Preparing,
            !s.prepared(),
            !s.enabled(),
    {
        ClkEnable { clk: self, stage: ClkStage::Preparing, prepared: Ghost(false), enabled: Ghost(false) }
    }
}

/// A clock that is prepared and enabled.
pub struct EnabledClk {
    clk: Clk,
    rate: u64,
}

impl EnabledClk {
    /// The platform's handle of the clock.
    pub closed spec fn handle(&self) -> usize {
        self.clk.ptr
    }

    /// The rate the clock framework reported once the clock ran.
    pub closed spec fn rate(&self) -> u64 {
        self.rate
    }

    /// Rate of the clock in hertz.
    pub fn get_rate(&self) -> (r: u64)
        ensures
            r == self.rate(),
    {
        self.rate
    }

    /// The clock framework's handle of this clock, for the platform to disable
    /// and unprepare it; the enabled clock is used up.
    pub fn disable_unprepare(self) -> (c: Clk)
        ensures
            c.handle() == self.handle(),
    {
        self.clk
    }
}

/// Where preparing and enabling a clock stands.
#[derive(Debug, Clone, Copy, PartialEq, Eq, Structural)]
pub enum ClkStage {
    /// Waits on the return code of prepare.
    Preparing,
    /// Waits on the return code of enable.
    Enabling,
    /// Waits on unprepare after a failed enable.
    RollingBack,
    /// The clock runs.
    Enabled,
    /// The clock could not be enabled and is back where it started.
    Failed,
}

/// The clock operation the platform performs next.
#[derive(Debug, Clone, Copy, PartialEq, Eq, Structural)]
pub enum ClkAction {
    /// Prepare the clock with this handle.
    Prepare(usize),
    /// Enable the clock with this handle.
    Enable(usize),
    /// Unprepare the clock with this handle.
    Unprepare(usize),
    /// Nothing more: read the outcome with `finish`.
    Done,
}

/// Preparing and enabling one clock, in progress.
pub struct ClkEnable {
    clk: Clk,
    stage: ClkStage,
    prepared: Ghost<bool>,
    enabled: Ghost<bool>,
}

impl ClkEnable {
    /// The platform's handle of the clock.
    pub closed spec fn handle(&self) -> usize {
        self.clk.ptr
    }

    /// Where the sequence stands.
    pub closed spec fn stage(&self) -> ClkStage {
        self.stage
    }

    /// The clock is prepared, as far as the return codes tell.
    pub closed spec fn prepared(&self) -> bool {
        self.prepared@
    }

    /// The clock is enabled, as far as the return codes tell.
    pub closed spec fn enabled(&self) -> bool {
        self.enabled@
    }

    /// The operation the sequence waits on.
    pub fn action(&self) -> (a: ClkAction)
        ensures
            a == (match self.stage() {
                ClkStage::Preparing => ClkAction::Prepare(self.handle()),
                ClkStage::Enabling => ClkAction::Enable(self.handle()),
                ClkStage::RollingBack => ClkAction::Unprepare(self.handle()),
                _ => ClkAction::Done,
            }),
    {
        match self.stage {
            ClkStage::Preparing => ClkAction::Prepare(self.clk.ptr),
            ClkStage::Enabling => ClkAction::Enable(self.clk.ptr),
            ClkStage::RollingBack => ClkAction::Unprepare(self.clk.ptr),
            _ => ClkAction::Done,
        }
    }

    /// Takes the return code of the current operation (zero for success; an
    /// unprepare reports none) and moves on: a failed prepare ends the
    /// sequence, a failed enable first unprepares.
    pub fn step(&mut self, rc: i32) -> (a: ClkAction)
        requires
            old(self).stage() == ClkStage::Preparing || old(self).stage() == ClkStage::Enabling
                || old(self).stage() == ClkStage::RollingBack,
            old(self).stage() == ClkStage::Preparing ==> !old(self).prepared() && !old(self).enabled(),
            old(self).stage() == ClkStage::Enabling ==> old(self).prepared() && !old(self).enabled(),
            old(self).stage() == ClkStage::RollingBack ==> old(self).prepared() && !old(
                self,
            ).enabled(),
        ensures
            final(self).handle() == old(self).handle(),
            old(self).stage() == ClkStage::Preparing ==> if rc == 0 {
                final(self).stage() == ClkStage::Enabling && final(self).prepared()
                    && !final(self).enabled()
            } else {
                final(self).stage() == ClkStage::Failed && !final(self).prepared()
                    && !final(self).enabled()
            },
            old(self).stage() == ClkStage::Enabling ==> if rc == 0 {
                final(self).stage() == ClkStage::Enabled && final(self).prepared()
                    && final(self).enabled()
            } else {
                final(self).stage() == ClkStage::RollingBack && final(self).prepared()
                    && !final(self).enabled()
            },
            old(self).stage() == ClkStage::RollingBack ==> final(self).stage() == ClkStage::Failed
                && !final(self).prepared() && !final(self).enabled(),
            a == (match final(self).stage() {
                ClkStage::Preparing => ClkAction::Prepare(final(self).handle()),
                ClkStage::Enabling => ClkAction::Enable(final(self).handle()),
                ClkStage::RollingBack => ClkAction::Unprepare(final(self).handle()),
                _ => ClkAction::Done,
            }),
    {
        match self.stage {
            ClkStage::Preparing => {
                if rc == 0 {
                    self.stage = ClkStage::Enabling;
                    self.prepared = Ghost(true);
                } else {
                    self.stage = ClkStage::Failed;
                }
            },
            ClkStage::Enabling => {
                if rc == 0 {
                    self.stage = ClkStage::Enabled;
                    self.enabled = Ghost(true);
                } else {
                    self.stage = ClkStage::RollingBack;
                }
            },
            _ => {
                self.stage = ClkStage::Failed;
                self.prepared = Ghost(false);
            },
        }
        self.action()
    }

    /// The outcome once the sequence is over: the running clock, with the rate
    /// the framework reports for it, or `ClockError` with the clock neither
    /// prepared nor enabled.
    pub fn finish(self, rate: u64) -> (r: Result<EnabledClk, DriverError>)
        requires
            self.stage() == ClkStage::Enabled || self.stage() == ClkStage::Failed,
        ensures
            self.stage() == ClkStage::Enabled ==> (r matches Ok(c) && c.handle() == self.handle()
                && c.rate() == rate),
            self.stage() == ClkStage::Failed ==> r == Err::<EnabledClk, DriverError>(
                DriverError::ClockError,
            ),
    {
        match self.stage {
            ClkStage::Enabled => Ok(EnabledClk { clk: self.clk, rate }),
            _ => Err(DriverError::ClockError),
        }
    }
}

} // verus!
