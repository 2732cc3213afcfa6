//! Core of an emulator for a classic 8-bit handheld game console:
//! a total instruction decoder, a register/flag-accurate execution
//! engine, and an address-space bus that routes 16-bit memory
//! accesses to memory-mapped devices.

pub mod bits;
pub mod bus;
pub mod cartridge;
pub mod constants;
pub mod cpu;
pub mod fault;
pub mod instruction;
pub mod laws;
pub mod mapper;
pub mod semantics;

pub use crate::bus::Bus;
pub use crate::cartridge::Cartridge;
pub use crate::cpu::Core;
