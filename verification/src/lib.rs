//! The engine seat of a headless VT mirror, as verified logic.
//!
//! The VT engine itself is a C library (`libghostty-vt`) reached through its C ABI; the calls
//! into it, and the raw pointers they take, live with the program around this library. What
//! the seat decides on the values those calls hand back stands here with its contract:
//! how a grid read becomes an engine-neutral [`grid::GridCell`], which history row a line
//! index names, how the restore window is cut, how private modes are packed and read, and how
//! swallowed replies are counted.

pub mod abi;
pub mod grid;
pub mod engine;
