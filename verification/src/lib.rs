//! Core of a PlayStation (PSX) emulator: the machine's devices and the logic
//! that drives them, with their behaviour stated in contracts.
mod addressable;
pub mod bitfacts;
pub mod arrayvec_specs;
pub mod bytes;
pub mod cdrom;
pub mod cdrom_controller;
pub mod colour;
pub mod cpu;
pub mod cpu_flow;
pub mod cpu_mem;
pub mod cpu_exec;
pub mod dirty_region;
pub mod dma;
pub mod exe;
pub mod gpu;
pub mod gpu_types;
pub mod gte;
pub mod irq;
pub mod laws;
pub mod machine;
pub mod mdec;
pub mod memory_bus;
pub mod ram;
pub mod renderer_msg;
pub mod renderer;
pub mod scheduler;
pub mod sio;
pub mod scratchpad;
pub mod timers;

pub use addressable::{AccessWidth, Addressable};
pub mod spu_dsp;
pub mod spu_voice;
pub mod spu_reverb;
pub mod spu;
