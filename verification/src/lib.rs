//! Core of a 64-bit RISC-V (RV64I + M) instruction-set emulator: a single
//! hart executing against a memory-mapped bus (DRAM, CLINT timer, PLIC,
//! 16550-style UART, virtio block device), with a CSR file, privilege modes,
//! and machine/supervisor trap delivery.
//!
//! Everything here is pure state-machine logic: host I/O (reading the guest
//! binary, the UART's stdin/stdout ends) lives outside the library and talks
//! to it through plain values.

pub mod param;

pub mod exception;

pub mod interrupt;

pub mod csr;

pub mod alu;

pub mod dram;

pub mod clint;

pub mod plic;

pub mod uart;

pub mod virtio;

pub mod virtqueue;

pub mod bus;

pub mod cpu;

pub mod isa;

pub mod execute;
