//! Tests of the devices, the bus dispatch, the CSR shadows, and trap
//! delivery, driven through the public interfaces.

use rvemu::bus::Bus;
use rvemu::cpu::{Cpu, Mode};
use rvemu::csr::{
    Csr, MCAUSE, MEDELEG, MEPC, MIE, MIP, MSTATUS, MTVEC, SSTATUS, SSTATUS_MASK,
};
use rvemu::exception::Exception;
use rvemu::interrupt::Interrupt;
use rvemu::param::{
    CLINT_MTIME, CLINT_MTIMECMP, DRAM_BASE, PLIC_PENDING, PLIC_SCLAIM, PLIC_SENABLE, UART_BASE,
    UART_LSR, VIRTIO_BASE,
};
use rvemu::uart::Uart;

#[test]
fn test_endianness() {
    // storing a 64-bit value and loading it back byte by byte gives the
    // least significant byte first
    let mut cpu = Cpu::new(Vec::new(), Vec::new());
    let a = DRAM_BASE + 0x100;
    cpu.store(a, 64, 0x1122334455667788).unwrap();
    let expected = [0x88, 0x77, 0x66, 0x55, 0x44, 0x33, 0x22, 0x11];
    for (i, want) in expected.iter().enumerate() {
        assert_eq!(cpu.load(a + i as u64, 8).unwrap(), *want as u64);
    }
}

#[test]
fn test_uart_wide_load_faults() {
    let mut bus = Bus::new(Vec::new(), Vec::new());
    assert_eq!(bus.load(UART_BASE, 16), Err(Exception::LoadAccessFault(UART_BASE)));
}

#[test]
fn test_unmapped_address_faults() {
    let mut bus = Bus::new(Vec::new(), Vec::new());
    assert_eq!(bus.load(0x10, 32), Err(Exception::LoadAccessFault(0x10)));
    assert_eq!(bus.store(0x10, 32, 1), Err(Exception::StoreAMOAccessFault(0x10)));
}

#[test]
fn test_dram_end_faults() {
    let mut cpu = Cpu::new(Vec::new(), Vec::new());
    let end = DRAM_BASE + rvemu::param::DRAM_SIZE - 2;
    assert_eq!(cpu.load(end, 64), Err(Exception::LoadAccessFault(end)));
    assert_eq!(cpu.load(end, 16).unwrap(), 0);
}

#[test]
fn test_sstatus_shadow() {
    // writes through sstatus only touch the masked bits of mstatus, and
    // sstatus reads back exactly the masked bits
    let mut csr = Csr::new();
    csr.store(MSTATUS, 0xffff_ffff_ffff_ffff);
    csr.store(SSTATUS, 0);
    assert_eq!(csr.load(SSTATUS), 0);
    assert_eq!(csr.load(MSTATUS), !SSTATUS_MASK);
    let v = 0x8000_0003_000d_e762;
    csr.store(SSTATUS, v);
    assert_eq!(csr.load(SSTATUS), v & SSTATUS_MASK);
}

#[test]
fn test_mhartid_reads_zero() {
    let mut csr = Csr::new();
    csr.store(rvemu::csr::MHARTID, 7);
    assert_eq!(csr.load(rvemu::csr::MHARTID), 0);
}

#[test]
fn test_ecall_mret_round_trip() {
    // from U-mode, ecall traps to M-mode; once the handler advances mepc,
    // mret returns to the instruction after the ecall in U-mode
    let ecall: u32 = 0x0000_0073;
    let mret: u32 = 0x3020_0073;
    let mut cpu = Cpu::new(ecall.to_le_bytes().to_vec(), Vec::new());
    cpu.store_csr(MTVEC, DRAM_BASE + 0x1000);
    cpu.mode = Mode::User;
    let pc = cpu.get_pc();
    let inst = cpu.fetch().unwrap();
    let e = cpu.execute(inst).unwrap_err();
    assert_eq!(e, Exception::EnvironmentCallFromUMode);
    cpu.handle_exception(e);
    assert_eq!(cpu.mode, Mode::Machine);
    assert_eq!(cpu.reg("pc"), DRAM_BASE + 0x1000);
    assert_eq!(cpu.reg("mepc"), pc);
    assert_eq!(cpu.reg("mcause"), 8);
    // the handler advances mepc past the ecall and returns
    cpu.store_csr(MEPC, pc + 4);
    let new_pc = cpu.execute(mret as u64).unwrap();
    assert_eq!(new_pc, pc + 4);
    assert_eq!(cpu.mode, Mode::User);
}

#[test]
fn test_delegated_trap_goes_to_s_mode() {
    // with the medeleg bit for the cause set and the hart below M-mode, the
    // trap is taken in S-mode: sepc is set, mepc is not
    let mut cpu = Cpu::new(Vec::new(), Vec::new());
    cpu.store_csr(MEDELEG, 1 << 8);
    cpu.mode = Mode::User;
    cpu.set_pc(DRAM_BASE + 0x40);
    cpu.handle_exception(Exception::EnvironmentCallFromUMode);
    assert_eq!(cpu.mode, Mode::Supervisor);
    assert_eq!(cpu.reg("sepc"), DRAM_BASE + 0x40);
    assert_eq!(cpu.reg("scause"), 8);
    assert_eq!(cpu.reg("mepc"), 0);
}

#[test]
fn test_exception_codes_values_fatality() {
    assert_eq!(Exception::IllegalInstruction(0xdead).code(), 2);
    assert_eq!(Exception::IllegalInstruction(0xdead).value(), 0xdead);
    assert_eq!(Exception::LoadAccessFault(0x42).code(), 5);
    assert_eq!(Exception::LoadAccessFault(0x42).value(), 0x42);
    assert_eq!(Exception::StoreAMOAccessFault(0x42).code(), 7);
    assert_eq!(Exception::EnvironmentCallFromMMode.code(), 11);
    assert_eq!(Exception::StoreAMOPageFault(9).code(), 15);
    assert!(Exception::LoadAccessFault(0).is_fatal());
    assert!(Exception::InstructionAccessFault.is_fatal());
    assert!(Exception::StoreAMOAccessFault(0).is_fatal());
    assert!(!Exception::IllegalInstruction(0).is_fatal());
    assert!(!Exception::Breakpoint.is_fatal());
}

#[test]
fn test_interrupt_codes() {
    let msb = 1u64 << 63;
    assert_eq!(Interrupt::SupervisorSoftwareInterrupt.code(), 1 | msb);
    assert_eq!(Interrupt::MachineSoftwareInterrupt.code(), 3 | msb);
    assert_eq!(Interrupt::SupervisorTimerInterrupt.code(), 5 | msb);
    assert_eq!(Interrupt::MachineTimerInterrupt.code(), 7 | msb);
    assert_eq!(Interrupt::SupervisorExternalInterrupt.code(), 9 | msb);
    assert_eq!(Interrupt::MachineExternalInterrupt.code(), 11 | msb);
}

#[test]
fn test_clint_subword_access() {
    let mut cpu = Cpu::new(Vec::new(), Vec::new());
    cpu.store(CLINT_MTIMECMP, 64, 0x1234_5678_9abc_def0).unwrap();
    assert_eq!(cpu.load(CLINT_MTIMECMP, 64).unwrap(), 0x1234_5678_9abc_def0);
    assert_eq!(cpu.load(CLINT_MTIMECMP + 4, 32).unwrap(), 0x1234_5678);
    assert_eq!(cpu.load(CLINT_MTIMECMP + 1, 8).unwrap(), 0xde);
    cpu.store(CLINT_MTIME + 2, 16, 0xbeef).unwrap();
    assert_eq!(cpu.load(CLINT_MTIME, 64).unwrap(), 0xbeef_0000);
}

#[test]
fn test_plic_claim_clears_pending() {
    let mut bus = Bus::new(Vec::new(), Vec::new());
    bus.store(PLIC_SENABLE, 32, (1 << 10) | (1 << 1)).unwrap();
    bus.store(PLIC_PENDING, 32, (1 << 10) | (1 << 1)).unwrap();
    // the lowest pending enabled source is claimed first and cleared
    assert_eq!(bus.load(PLIC_SCLAIM, 32).unwrap(), 1);
    assert_eq!(bus.load(PLIC_PENDING, 32).unwrap(), 1 << 10);
    assert_eq!(bus.load(PLIC_SCLAIM, 32).unwrap(), 10);
    assert_eq!(bus.load(PLIC_SCLAIM, 32).unwrap(), 0);
}

#[test]
fn test_uart_receive_and_read() {
    let mut uart = Uart::new();
    assert!(uart.receive_byte(b'A'));
    // a second byte is refused until the guest reads the first
    assert!(!uart.receive_byte(b'B'));
    assert!(uart.is_interrupting());
    assert!(!uart.is_interrupting());
    assert_eq!(uart.load(UART_BASE + UART_LSR, 8).unwrap() & 1, 1);
    assert_eq!(uart.load(UART_BASE, 8).unwrap(), b'A' as u64);
    // the read cleared the ready bit, so the next byte is accepted
    assert_eq!(uart.load(UART_BASE + UART_LSR, 8).unwrap() & 1, 0);
    assert!(uart.receive_byte(b'B'));
}

#[test]
fn test_uart_transmit() {
    let mut uart = Uart::new();
    uart.store(UART_BASE, 8, b'h' as u64).unwrap();
    uart.store(UART_BASE, 8, b'i' as u64).unwrap();
    assert_eq!(uart.take_output(), vec![b'h', b'i']);
    assert_eq!(uart.take_output(), Vec::<u8>::new());
}

#[test]
fn test_virtio_mmio_registers() {
    let mut bus = Bus::new(Vec::new(), Vec::new());
    assert_eq!(bus.load(VIRTIO_BASE, 32).unwrap(), 0x7472_6976);
    assert_eq!(bus.load(VIRTIO_BASE + 0x4, 32).unwrap(), 1);
    assert_eq!(bus.load(VIRTIO_BASE + 0x8, 32).unwrap(), 2);
    bus.store(VIRTIO_BASE + 0x40, 32, 0x80001).unwrap();
    assert_eq!(bus.load(VIRTIO_BASE + 0x40, 32).unwrap(), 0x80001);
}

#[test]
fn test_timer_interrupt_selection_and_delivery() {
    let mut cpu = Cpu::new(Vec::new(), Vec::new());
    // enable the machine timer interrupt; mtimecmp is zero so the timer has
    // fired as soon as it ticks
    cpu.store_csr(MIE, 1 << 7);
    cpu.store_csr(MSTATUS, 1 << 3);
    cpu.store_csr(MTVEC, DRAM_BASE + 0x200);
    let pc = cpu.get_pc();
    let i = cpu.check_pending_interrupt();
    assert_eq!(i, Some(Interrupt::MachineTimerInterrupt));
    cpu.handle_interrupt(Interrupt::MachineTimerInterrupt);
    assert_eq!(cpu.reg("pc"), DRAM_BASE + 0x200);
    assert_eq!(cpu.reg("mepc"), pc);
    assert_eq!(cpu.reg("mcause"), (1 << 63) | 7);
    // the timer is edge-triggered: delivery cleared its pending bit
    assert_eq!(cpu.load_csr(MIP) & (1 << 7), 0);
    // and the trap turned machine interrupts off, so nothing is deliverable
    assert_eq!(cpu.check_pending_interrupt(), None);
}

#[test]
fn test_uart_interrupt_reaches_mip() {
    let mut cpu = Cpu::new(Vec::new(), Vec::new());
    assert!(cpu.bus.uart.receive_byte(b'x'));
    let _ = cpu.check_pending_interrupt();
    // the receive latched the supervisor external interrupt as pending
    assert_eq!(cpu.load_csr(MIP) & (1 << 9), 1 << 9);
    assert_eq!(cpu.bus.load(PLIC_PENDING, 32).unwrap(), 1 << 10);
}

#[test]
fn test_virtio_disk_read_into_memory() {
    // one descriptor chain asking the device to read sector 0 into guest
    // memory at DRAM_BASE + 0x4000
    let mut disk = vec![0u8; 1024];
    for i in 0..8 {
        disk[i] = (i as u8) + 1;
    }
    let mut cpu = Cpu::new(Vec::new(), disk);
    // queue at page 0x80001 with 4096-byte pages
    cpu.store(VIRTIO_BASE + 0x28, 32, 4096).unwrap();
    cpu.store(VIRTIO_BASE + 0x40, 32, 0x80001).unwrap();
    let desc = 0x80001u64 * 4096;
    let avail = desc + 0x40;
    let used = desc + 4096;
    let hdr = DRAM_BASE + 0x3000;
    let data = DRAM_BASE + 0x4000;
    let status = DRAM_BASE + 0x5000;
    // descriptor 0: the request header (type 0 = read, sector 0)
    cpu.store(desc, 64, hdr).unwrap();
    cpu.store(desc + 8, 32, 16).unwrap();
    cpu.store(desc + 14, 16, 1).unwrap();
    cpu.store(hdr, 32, 0).unwrap();
    cpu.store(hdr + 8, 64, 0).unwrap();
    // descriptor 1: the data buffer, 8 bytes
    cpu.store(desc + 16, 64, data).unwrap();
    cpu.store(desc + 16 + 8, 32, 8).unwrap();
    cpu.store(desc + 16 + 14, 16, 2).unwrap();
    // descriptor 2: the status byte
    cpu.store(desc + 32, 64, status).unwrap();
    cpu.store(status, 8, 0xff).unwrap();
    // available ring: one entry, head descriptor 0
    cpu.store(avail + 2, 16, 1).unwrap();
    cpu.store(avail + 4, 16, 0).unwrap();
    // notify the device and poll: the queue is processed
    cpu.store(VIRTIO_BASE + 0x50, 32, 0).unwrap();
    let _ = cpu.check_pending_interrupt();
    for i in 0..8u64 {
        assert_eq!(cpu.load(data + i, 8).unwrap(), i + 1);
    }
    assert_eq!(cpu.load(status, 8).unwrap(), 0);
    assert_eq!(cpu.load(used + 2, 16).unwrap(), 1);
}

#[test]
fn test_fetch_reads_first_word() {
    let code = vec![0x13, 0x05, 0x10, 0x00]; // addi a0, x0, 1
    let mut cpu = Cpu::new(code, Vec::new());
    assert_eq!(cpu.fetch().unwrap(), 0x0010_0513);
    assert_eq!(cpu.dram_size(), rvemu::param::DRAM_SIZE as usize);
}

#[test]
fn test_vectored_interrupt_dispatch() {
    // with mtvec in vectored mode, an interrupt lands at base plus four
    // times its cause code; exceptions still use the base
    let mut cpu = Cpu::new(Vec::new(), Vec::new());
    cpu.store_csr(MIE, 1 << 7);
    cpu.store_csr(MSTATUS, 1 << 3);
    cpu.store_csr(MTVEC, (DRAM_BASE + 0x200) | 1);
    assert_eq!(cpu.check_pending_interrupt(), Some(Interrupt::MachineTimerInterrupt));
    cpu.handle_interrupt(Interrupt::MachineTimerInterrupt);
    assert_eq!(cpu.reg("pc"), DRAM_BASE + 0x200 + 4 * 7);
    // an exception afterwards goes to the untranslated base
    cpu.handle_exception(Exception::Breakpoint);
    assert_eq!(cpu.reg("pc"), DRAM_BASE + 0x200);
    assert_eq!(cpu.reg("mcause"), 3);
}
