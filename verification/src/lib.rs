//! Bus layer of a system-on-chip emulator: typed memory-mapped I/O dispatch
//! over a fixed device/width table, and a cycle-indexed queue of deferred
//! device tasks drained deterministically as emulated time advances.

pub mod bus;
pub mod dbg;
pub mod device;
pub mod laws;
pub mod mmio;
pub mod model;
pub mod prim;
pub mod task;
