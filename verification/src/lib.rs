//! Memory subsystem of a cycle-level emulator for a CPU with a 32-bit
//! internal / 24-bit external address bus: address-space classification,
//! the abstract bus contract, and a sparse paged memory backend.

pub mod addrspace;
pub mod bus;
pub mod pagedmem;

pub use crate::addrspace::AddressSpace;
pub use crate::addrspace::SUPERVISOR_DATA;
pub use crate::addrspace::SUPERVISOR_PROGRAM;
pub use crate::addrspace::USER_DATA;
pub use crate::addrspace::USER_PROGRAM;
pub use crate::bus::ADDRBUS_MASK;
pub use crate::bus::AddressBus;
pub use crate::pagedmem::PagedMem;
