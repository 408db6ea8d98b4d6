//! Fibonacci numbers computed by an iterative loop over two rolling
//! accumulators, with wrapping `u64` arithmetic, and the command-line
//! settings logic of a small benchmark driver around it.

pub mod cli;
pub mod fibonacci;
