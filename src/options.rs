//! Options of the driver's registration with the serial core.
use vstd::prelude::*;

use crate::config::{AMBA_MAJOR, AMBA_MINOR, UART_NR};

verus! {

/// Device numbers and port count requested at registration; unset ones take
/// the driver's defaults.
#[derive(Debug, Clone, Copy, PartialEq, Eq, Structural)]
pub struct Options {
    pub minor: Option<i32>,
    pub major: Option<i32>,
    pub nr: Option<i32>,
}

/// Device numbers and port count the registration ends up with.
#[derive(Debug, Clone, Copy, PartialEq, Eq, Structural)]
pub struct Settings {
    pub major: i32,
    pub minor: i32,
    pub nr: i32,
}

impl Options {
    /// Options with nothing set.
    pub fn new() -> (o: Options)
        ensures
            o == (Options { minor: None, major: None, nr: None }),
    {
        Options { minor: None, major: None, nr: None }
    }

    /// Sets the first minor number.
    pub fn minor(&mut self, v: i32) -> (r: &mut Self)
        ensures
            *r == (Options { minor: Some(v), ..*old(self) }),
            *final(self) == *final(r),
    {
        self.minor = Some(v);
        self
    }

    /// Sets the major number.
    pub fn major(&mut self, v: i32) -> (r: &mut Self)
        ensures
            *r == (Options { major: Some(v), ..*old(self) }),
            *final(self) == *final(r),
    {
        self.major = Some(v);
        self
    }

    /// Sets the number of ports.
    pub fn nr(&mut self, v: i32) -> (r: &mut Self)
        ensures
            *r == (Options { nr: Some(v), ..*old(self) }),
            *final(self) == *final(r),
    {
        self.nr = Some(v);
        self
    }

    /// The settings these options ask for: each value set, or else the
    /// driver's major, minor and capacity.
    pub open spec fn settings_spec(&self) -> Settings {
        Settings {
            major: match self.major {
                Some(v) => v,
                None => AMBA_MAJOR,
            },
            minor: match self.minor {
                Some(v) => v,
                None => AMBA_MINOR,
            },
            nr: match self.nr {
                Some(v) => v,
                None => UART_NR as i32,
            },
        }
    }

    /// The settings these options ask for: each value set, or else the
    /// driver's major, minor and capacity.
    pub fn settings(&self) -> (s: Settings)
        ensures
            s == self.settings_spec(),
    {
        let major = match self.major {
            Some(v) => v,
            None => AMBA_MAJOR,
        };
        let minor = match self.minor {
            Some(v) => v,
            None => AMBA_MINOR,
        };
        let nr = match self.nr {
            Some(v) => v,
            None => UART_NR as i32,
        };
        Settings { major, minor, nr }
    }
}

} // verus!
