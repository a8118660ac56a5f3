//! A register/accumulator bytecode virtual machine over 64-bit words.
//!
//! The machine's state and the meaning of each instruction are spec
//! functions in `state`; the executable machine in `vm` is proved to follow
//! them. Work that needs the outside world (reading and printing numbers,
//! floating-point arithmetic) is handed to the driver as an `Effect`.

pub mod codec;
pub mod laws;
pub mod loader;
pub mod mnemonics;
pub mod stack;
pub mod state;
pub mod vm;

pub use loader::vm;
pub use mnemonics::Instructions;
pub use state::{ArithOp, Effect, MemFault};
pub use vm::{LoadError, Vm};
