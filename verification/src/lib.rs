//! The architectural state of a HERA virtual machine: the status register,
//! the program counter, the general-purpose registers and the memory.
//!
//! Nothing here fetches or executes instructions. The crate is the state that
//! an executor works on, with the rules that this state obeys.

pub mod flags;
pub mod machine;

pub use flags::Flag;
pub use flags::StatusFlags;
pub use machine::HeraVM;
pub use machine::MachineView;
pub use machine::Memory;
pub use machine::Register;
pub use machine::RegisterId;
pub use machine::MEMORY_SIZE;
pub use machine::REGISTER_COUNT;
