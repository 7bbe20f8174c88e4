//! A register machine that executes fixed-width bytecode.
//!
//! A program is an image of 256 bytes. Every instruction takes two of them:
//! an opcode and a parameter. The machine has sixteen 8-bit registers, one
//! condition flag, and a cursor over a finite input; what it emits is
//! appended to an output buffer.
//!
//! - [`opcode`] names the instructions.
//! - [`status`] holds the ways in which a machine stops.
//! - [`machine`] defines the state of a machine and its transition, as
//!   mathematics.
//! - [`vm`] is the machine that runs: each of its operations is proved to
//!   make the transition that [`machine`] defines.
//! - [`image`] lays a program out as an image.
//! - [`laws`] proves what holds of every machine.
pub mod image;
pub mod laws;
pub mod machine;
pub mod opcode;
pub mod status;
pub mod vm;

pub use crate::image::load_image;
pub use crate::status::{Status, Termination};
pub use crate::vm::VirtualMachine;
