//! An emulator core for an 8-bit handheld console: the memory bus with its
//! cartridge controller, the CPU, the picture unit, the timers and the frame
//! scheduler, each with a mathematical model that the executable code is
//! proved against.
#![allow(non_snake_case)]
#![allow(non_camel_case_types)]

pub mod alu;
pub mod apu;
pub mod cartridge;
pub mod cpu;
pub mod databus;
pub mod execute;
pub mod gameboy;
pub mod instructions;
pub mod memory;
pub mod ppu;
pub mod timer;
