use vstd::prelude::*;

pub mod adapters;
pub mod audio;
mod bits;
pub mod cpu;
pub mod emulator;
pub mod mbc;
pub mod flat_memory;
pub mod memory_bus;
pub mod model;
pub mod ppu;
pub mod register_file;
pub mod registers;
pub mod timer;

verus! {
}
