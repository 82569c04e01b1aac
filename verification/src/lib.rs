//! Persistent storage in the serial flash of an RP2040.
//!
//! The chip runs its program out of the same flash that this crate rewrites, so
//! every mutation happens inside a window in which flash cannot be read. The
//! crate decides what is done in that window and in which order; performing the
//! steps on the hardware is left to the platform code that calls it.
//!
//! * [`flash`] plans erase and program operations as ordered boot-ROM calls.
//! * [`ssi`] sequences the bus controller for single-response read commands.
//! * [`chip`] is a model of the flash chip on which the plans can be run.
//! * [`flash_sector`] overlays a typed value on one erase unit.
//! * [`conf`] is the validated boot-counter record kept in such a sector.

pub mod chip;
pub mod conf;
pub mod flash;
pub mod flash_sector;
pub mod ssi;
