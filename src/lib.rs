//! Core of a driver for ARM PL011 serial ports: the register file and its
//! access widths, the table of live ports, probe and removal, the clock
//! enable sequence, and the interrupt-safe console write protocol.

pub mod clk;
pub mod config;
pub mod console;
pub mod driver;
pub mod error;
pub mod options;
pub mod port;
pub mod ports;
pub mod registration;
pub mod regs;
