//! Protocol core of a driver for 25-series SPI flash and EEPROM chips.
//!
//! The crate decides what goes over the bus and what the answers mean; it
//! never touches a bus itself. An operation of [`Flash`] yields the
//! [`Transaction`]s it consists of, and the owner of the bus and of the
//! chip-select line carries them out in order, following
//! [`Transaction::steps`], and hands the responses back where they matter.

pub mod flash;
pub mod identification;
pub mod opcode;
pub mod script;
pub mod status;
pub mod transaction;

pub use flash::{Busy, Flash, InternalSizes, Ready};
pub use identification::Identification;
pub use opcode::Opcode;
pub use status::Status;
pub use transaction::{Data, Step, Transaction};
