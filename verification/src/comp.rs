//! The components of the machine.

pub mod bus;
pub mod controller;
pub mod cpu;
pub mod flags;
pub mod invariants;
pub mod laws;
pub mod opcodes;
pub mod ppu;
pub mod render;
pub mod rom;
pub mod semantics;
pub mod trace;
