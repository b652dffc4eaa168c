//! An 8-bit, microcode-driven teaching computer: a 4-bit program counter,
//! sixteen bytes of shared program/data memory, an accumulator and a B
//! register feeding an adder/subtractor, and one data bus.
//!
//! Every clock tick the engine reads one control word out of the microcode
//! table and lets its bits move data across the bus. The whole tick is given
//! as a mathematical function on [`machine::StateView`], and the executable
//! engine in [`machine`] is proved to compute exactly that function.
//! [`laws`] holds what follows for single ticks, [`instructions`] the proof
//! that five ticks of microcode do what the instruction set says, and
//! [`programs`] a sample program.

pub mod alu;
pub mod bits;
pub mod instructions;
pub mod laws;
pub mod machine;
pub mod microcode;
pub mod programs;
