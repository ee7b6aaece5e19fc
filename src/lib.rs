//! Platform-binding and interrupt-dispatch substrate shared by every board: the
//! interrupt handler table, inter-processor interrupt addressing, the boot handoff
//! record, and the decision logic of each board's interrupt controller, device tree
//! reader and boot-time layouts. Register accesses are described here and performed
//! by the caller.

pub mod apic;
pub mod boot;
pub mod boot_pt;
pub mod console;
pub mod dtb;
pub mod gic;
pub mod handler_table;
pub mod ipi;
pub mod loongarch;
pub mod mem;
pub mod plic;
pub mod riscv;
pub mod selftest;

pub use dtb::{DtbParser, MemoryRange};
pub use handler_table::HandlerTable;
pub use ipi::IpiTarget;
pub use plic::{Plic, PlicError};
