//! The execution core of a software CPU for a 32-bit x86-style instruction set.
//!
//! Three layers, leaves first:
//!
//! * [`bus`]: the flat memory image, with little-endian reads relative to an
//!   instruction pointer and absolute writes;
//! * [`modrm`]: the decoder of the addressing-mode descriptor that follows an
//!   opcode;
//! * [`emulator`]: the register file, the instruction handlers and the
//!   fetch-decode-execute loop.
//!
//! [`machine`] holds the mathematical model that the contracts of the other
//! modules are stated over, and the laws that hold of it. [`dump`] renders
//! the registers as text.

pub mod bus;
pub mod dump;
pub mod emulator;
pub mod machine;
pub mod modrm;
