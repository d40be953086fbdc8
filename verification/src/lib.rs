//! Core of a single-hart batch-processing supervisor for a RISC-V target.
//!
//! The library models the kernel's own state as plain data and verifies the
//! logic that drives it: the batch app driver that loads embedded binaries
//! into a fixed window, the trap dispatcher and the register-frame contract,
//! the two supported system calls, and the spin-based mutual-exclusion
//! primitive.  The hardware collaborators around that core — the SBI console,
//! control-status registers, the assembly trampoline — are represented by the
//! plain values they produce or consume, and the unverified shell around the
//! library performs the actual machine access.

pub mod batch;
pub mod boot;
pub mod console;
pub mod ctx;
pub mod digits;
pub mod spin;
pub mod syscall;
pub mod trap;
pub mod upcell;

pub use batch::{init, print_app_info, run_next_app};
pub use trap::trap_handler;

