//! Apple II / II+ emulator core: NMOS 6502 CPU, memory bus, Disk II
//! controller with nibble codec, keyboard mapping and video rendering.

pub mod bus;
pub mod chars;
pub mod cpu;
pub mod disk;
pub mod error;
pub mod keyboard;
pub mod mechanical;
pub mod memory;
pub mod timing;
pub mod video;
pub mod machine;
