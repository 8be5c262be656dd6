#![allow(non_snake_case)]

pub mod alu;
pub mod bits;
pub mod cpu;
pub mod extended;
pub mod gameboy;
pub mod instructions;
pub mod laws;
pub mod ppu;
pub mod register_maps;
