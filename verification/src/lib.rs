//! Reset and halt-after-reset sequencing for Infineon XMC4000-family
//! microcontrollers.
//!
//! The XMC4000 boot ROM runs before user code and hides the application's true
//! entry point behind a boot-configuration register. Halting at the first
//! application instruction therefore takes a chip-specific sequence: normalize
//! the boot mode, resolve the entry address from the flash vector slot, arm a
//! hardware breakpoint there, reset the system, and finally restore the
//! breakpoint unit.
//!
//! Every decision of that sequence is verified here. Each lifecycle hook is a
//! step machine: given its current state and the answer to its last request,
//! it returns the next state and the next request ([`sequence::Action`]). An
//! unverified driver owns the debug transport and the wall clock; it performs
//! each request and hands the outcome back, so no register traffic, delay or
//! timing lives in this crate.

pub mod bootmode;
pub mod error;
pub mod poll;
pub mod registers;
pub mod sequence;
pub mod state;
