//! The fixed physical address map of the machine, the UART register window,
//! and the platform interrupt numbers.

use vstd::prelude::*;

verus! {

/// Start of DRAM; the guest binary is mapped here and execution begins here.
pub const DRAM_BASE: u64 = 0x8000_0000;
/// Size of DRAM in bytes (128 MiB).
pub const DRAM_SIZE: u64 = 0x800_0000;
/// Last byte of the DRAM range.
pub const DRAM_END: u64 = DRAM_BASE + DRAM_SIZE - 1;

/// Core-local interruptor: machine timer and software-interrupt registers.
pub const CLINT_BASE: u64 = 0x200_0000;
/// Last byte of the CLINT range.
pub const CLINT_END: u64 = CLINT_BASE + 0xffff;
/// 64-bit machine-timer comparator.
pub const CLINT_MTIMECMP: u64 = CLINT_BASE + 0x4000;
/// 64-bit machine timer.
pub const CLINT_MTIME: u64 = CLINT_BASE + 0xbff8;

/// Platform-level interrupt controller.
pub const PLIC_BASE: u64 = 0xc00_0000;
/// Last byte of the PLIC range.
pub const PLIC_END: u64 = PLIC_BASE + 0x20_ffff;
/// Pending-bits register (one bit per interrupt source).
pub const PLIC_PENDING: u64 = PLIC_BASE + 0x1000;
/// Supervisor enable-bits register.
pub const PLIC_SENABLE: u64 = PLIC_BASE + 0x2080;
/// Supervisor priority-threshold register.
pub const PLIC_SPRIORITY: u64 = PLIC_BASE + 0x20_1000;
/// Supervisor claim/complete register.
pub const PLIC_SCLAIM: u64 = PLIC_BASE + 0x20_1004;

/// 16550-compatible UART.
pub const UART_BASE: u64 = 0x1000_0000;
/// Size of the UART register window in bytes.
pub const UART_SIZE: u64 = 0x100;
/// Last byte of the UART range.
pub const UART_END: u64 = UART_BASE + UART_SIZE - 1;

/// Receive-holding register (read side of offset 0).
pub const UART_RHR: u64 = 0;
/// Transmit-holding register (write side of offset 0).
pub const UART_THR: u64 = 0;
/// Interrupt-enable register.
pub const UART_IER: u64 = 1;
/// FIFO-control register.
pub const UART_FCR: u64 = 2;
/// Line-control register.
pub const UART_LCR: u64 = 3;
/// Line-status register.
pub const UART_LSR: u64 = 5;
/// LSR bit 0: receive data ready.
pub const MASK_UART_LSR_RX: u8 = 1;
/// LSR bit 1: transmit holding register empty.
pub const MASK_UART_LSR_TX: u8 = 1 << 1;

/// Virtio MMIO block device.
pub const VIRTIO_BASE: u64 = 0x1000_1000;
/// Last byte of the virtio range.
pub const VIRTIO_END: u64 = VIRTIO_BASE + 0xff;

/// PLIC source number of the virtio block device.
pub const VIRTIO_IRQ: u64 = 1;
/// PLIC source number of the UART.
pub const UART_IRQ: u64 = 10;

/// Most-significant bit of a 64-bit trap cause: set for interrupts, clear for
/// exceptions.
pub const MASK_INTERRUPT_BIT: u64 = 1 << 63;

} // verus!
