//! Verified core of an async runtime: buffered I/O, channels, wait lists,
//! intrusive lists and the decision logic of its procedural macros.

pub mod async_std;
pub mod cell;
pub mod closure;
pub mod macros;
pub mod container;
