//! Status-flag computation for the arithmetic and BCD-adjust instructions of
//! an 8088-class processor.
//!
//! The crate has three layers:
//! - [`flags`]: the flag register model, a fixed set of named boolean status
//!   bits with set-algebra operations;
//! - [`rules`]: the width-generic flag derivation rules, given as spec
//!   functions together with verified executable counterparts;
//! - [`alu`]: one entry point per instruction mnemonic, each returning the
//!   wrapped numeric result and the exact resulting flags.
//!
//! [`laws`] states and proves general properties of the derivation rules.

pub mod alu;
pub mod flags;
pub mod laws;
pub mod rules;
