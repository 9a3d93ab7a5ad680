//! ImageWriter II printer emulation: the protocol decoder, the page model and
//! the output planning, with their contracts.

pub mod units;
pub mod digits;
pub mod commands;
pub mod output;
pub mod page;
pub mod protocol;
pub mod laws;
pub mod render;
