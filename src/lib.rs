//! An IBM XT class machine: an 8086 instruction interpreter with bit-exact flags, segmented
//! 1 MiB memory, and the interrupt controller, interval timer and other chips behind its I/O
//! ports, each with its behaviour stated as contracts and proved.

pub mod clock;
pub mod cpu8086;
pub mod dma;
pub mod faraday;
pub mod flag;
pub mod general;
pub mod graphics;
pub mod ibm_xt;
pub mod instructions;
pub mod memory;
pub mod memory1mb;
pub mod operand;
pub mod pic;
pub mod pit;
pub mod register;
pub mod shared;
