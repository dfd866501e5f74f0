//! What the driver hands the serial core when it registers: the console's
//! description and the device numbers.
use vstd::prelude::*;

use crate::error::DriverError;
use crate::options::Settings;

verus! {

/// Length of a console's name buffer.
pub const CONSOLE_NAME_LEN: usize = 16;

/// Console flag: replay the log buffer on registration.
pub const CON_PRINTBUFFER: i16 = 1;

/// Console flag: usable on a CPU that is not yet online.
pub const CON_ANYTIME: i16 = 16;

/// The name buffer of a console: the name's bytes, then zeros up to
/// `CONSOLE_NAME_LEN`.
pub open spec fn padded_name(name: Seq<u8>) -> Seq<u8> {
    Seq::new(CONSOLE_NAME_LEN as nat, |i: int| if i < name.len() { name[i] } else { 0u8 })
}

/// A console as the serial core registers it.
pub struct Console {
    pub name: Vec<u8>,
    pub flags: i16,
    pub index: i16,
}

impl Console {
    /// Describes a console named `name`; a name longer than the buffer is
    /// refused with `InvalidName`.
    pub fn new(name: &[u8], flags: i16, index: i16) -> (r: Result<Console, DriverError>)
        ensures
            name@.len() > CONSOLE_NAME_LEN ==> r == Err::<Console, DriverError>(
                DriverError::InvalidName,
            ),
            name@.len() <= CONSOLE_NAME_LEN ==> (r matches Ok(c) && c.name@ == padded_name(
                name@,
            ) && c.flags == flags && c.index == index),
    {
        if name.len() > CONSOLE_NAME_LEN {
            return Err(DriverError::InvalidName);
        }
        let mut buf: Vec<u8> = Vec::new();
        let mut i: usize = 0;
        while i < CONSOLE_NAME_LEN
            invariant
                name@.len() <= CONSOLE_NAME_LEN,
                i <= CONSOLE_NAME_LEN,
                buf@.len() == i,
                forall|j: int| 0 <= j < i ==> buf@[j] == padded_name(name@)[j],
            decreases CONSOLE_NAME_LEN - i,
        {
            if i < name.len() {
                buf.push(name[i]);
            } else {
                buf.push(0);
            }
            i = i + 1;
        }
        assert(buf@ =~= padded_name(name@));
        Ok(Console { name: buf, flags, index })
    }
}

/// Everything the serial core needs to register the driver.
pub struct Registration {
    pub console: Console,
    pub settings: Settings,
}

} // verus!
