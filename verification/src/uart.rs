//! 16550-compatible UART modelled as a pure register machine. The host's
//! receive side hands bytes in through `receive_byte`; the transmit side
//! drains the bytes the guest wrote through `take_output`. The invariant of
//! the receive protocol: a byte is accepted only while the receive-ready bit
//! is clear, so it cannot be overwritten before the guest reads it.

use vstd::prelude::*;
use crate::exception::Exception;
use crate::param::{MASK_UART_LSR_RX, MASK_UART_LSR_TX, UART_BASE, UART_LSR, UART_RHR, UART_SIZE, UART_THR};

verus! {

/// The UART's visible state: its register window, the latched interrupt
/// flag, and the bytes transmitted so far and not yet drained by the host.
#[verifier::ext_equal]
pub struct UartView {
    /// The register window, `UART_SIZE` bytes.
    pub regs: Seq<u8>,
    /// Set when the receiver deposits a byte; consumed by interrupt polling.
    pub interrupting: bool,
    /// Bytes written to the transmit-holding register, oldest first.
    pub out: Seq<u8>,
}

/// What a UART load returns: a byte-wide read of the addressed register,
/// with a read of the receive-holding register also visible in the post
/// state; any other width faults.
pub open spec fn uart_load_val(u: UartView, addr: u64, size: u64) -> Result<u64, Exception> {
    if size != 8 {
        Err(Exception::LoadAccessFault(addr))
    } else if addr - UART_BASE == UART_RHR {
        Ok(u.regs[UART_RHR as int] as u64)
    } else {
        Ok(u.regs[addr - UART_BASE] as u64)
    }
}

/// What a UART load leaves behind: reading the receive-holding register
/// clears the receive-ready bit of the line-status register; every other
/// load leaves the state unchanged.
pub open spec fn uart_load_post(u: UartView, addr: u64, size: u64) -> UartView {
    if size == 8 && addr - UART_BASE == UART_RHR {
        UartView {
            regs: u.regs.update(
                UART_LSR as int,
                (u.regs[UART_LSR as int] & !MASK_UART_LSR_RX) as u8,
            ),
            ..u
        }
    } else {
        u
    }
}

/// What a UART store leaves behind: a write to the transmit-holding register
/// appends the byte to the output stream; a write to any other register
/// replaces its byte; any other width faults and changes nothing.
pub open spec fn uart_store_post(u: UartView, addr: u64, size: u64, value: u64) -> UartView {
    if size != 8 {
        u
    } else if addr - UART_BASE == UART_THR {
        UartView { out: u.out.push((value & 0xff) as u8), ..u }
    } else {
        UartView { regs: u.regs.update(addr - UART_BASE, (value & 0xff) as u8), ..u }
    }
}

/// Whether a UART store succeeds: only byte-wide stores are accepted.
pub open spec fn uart_store_res(addr: u64, size: u64) -> Result<(), Exception> {
    if size != 8 {
        Err(Exception::StoreAMOAccessFault(addr))
    } else {
        Ok(())
    }
}

/// The UART device.
pub struct Uart {
    regs: Vec<u8>,
    interrupting: bool,
    out: Vec<u8>,
}

impl View for Uart {
    type V = UartView;

    closed spec fn view(&self) -> UartView {
        UartView { regs: self.regs@, interrupting: self.interrupting, out: self.out@ }
    }
}

/// The low byte of any value fits in a `u8`.
proof fn lemma_low_byte_in_range(v: u64)
    by (bit_vector)
    ensures
        v & 0xff < 256,
        ((v & 0xff) as u8) as u64 == v & 0xff,
{
}

impl Uart {
    /// The register window always holds exactly `UART_SIZE` bytes.
    pub open spec fn wf(self) -> bool {
        self@.regs.len() == UART_SIZE
    }

    /// A fresh UART: all registers zero except the transmit-empty bit of the
    /// line-status register, no interrupt latched, nothing transmitted.
    pub fn new() -> (r: Uart)
        ensures
            r.wf(),
            r@.regs[UART_LSR as int] == MASK_UART_LSR_TX,
            forall|i: int| 0 <= i < UART_SIZE && i != UART_LSR ==> r@.regs[i] == 0,
            r@.interrupting == false,
            r@.out == Seq::<u8>::empty(),
    {
        let mut regs: Vec<u8> = Vec::new();
        let size = UART_SIZE as usize;
        let mut i: usize = 0;
        while i < size
            invariant
                regs@.len() == i,
                i <= size,
                forall|j: int| 0 <= j < i ==> regs@[j] == 0,
            decreases size - i,
        {
            regs.push(0);
            i = i + 1;
        }
        regs[UART_LSR as usize] = MASK_UART_LSR_TX;
        Uart { regs, interrupting: false, out: Vec::new() }
    }

    /// Load `size` bits from the UART window at `addr`; reading the
    /// receive-holding register clears the receive-ready bit.
    pub fn load(&mut self, addr: u64, size: u64) -> (r: Result<u64, Exception>)
        requires
            old(self).wf(),
            UART_BASE <= addr < UART_BASE + UART_SIZE,
        ensures
            final(self).wf(),
            r == uart_load_val(old(self)@, addr, size),
            final(self)@ == uart_load_post(old(self)@, addr, size),
    {
        if size != 8 {
            return Err(Exception::LoadAccessFault(addr));
        }
        let index = (addr - UART_BASE) as usize;
        if index == UART_RHR as usize {
            let lsr = self.regs[UART_LSR as usize];
            self.regs[UART_LSR as usize] = lsr & !MASK_UART_LSR_RX;
            proof {
                assert(self@ =~= uart_load_post(old(self)@, addr, size));
            }
            Ok(self.regs[UART_RHR as usize] as u64)
        } else {
            Ok(self.regs[index] as u64)
        }
    }

    /// Store the low `size` bits of `value` into the UART window at `addr`;
    /// a write to the transmit-holding register queues the byte for the host.
    pub fn store(&mut self, addr: u64, size: u64, value: u64) -> (r: Result<(), Exception>)
        requires
            old(self).wf(),
            UART_BASE <= addr < UART_BASE + UART_SIZE,
        ensures
            final(self).wf(),
            r == uart_store_res(addr, size),
            final(self)@ == uart_store_post(old(self)@, addr, size, value),
    {
        if size != 8 {
            return Err(Exception::StoreAMOAccessFault(addr));
        }
        proof {
            lemma_low_byte_in_range(value);
        }
        let index = (addr - UART_BASE) as usize;
        let byte = (value & 0xff) as u8;
        if index == UART_THR as usize {
            self.out.push(byte);
        } else {
            self.regs[index] = byte;
        }
        proof {
            assert(self@ =~= uart_store_post(old(self)@, addr, size, value));
        }
        Ok(())
    }

    /// The receive side: deposit one byte when the receive-ready bit is
    /// clear, setting the ready bit and latching the interrupt; refuse the
    /// byte (returning false) while the previous one is still unread.
    pub fn receive_byte(&mut self, byte: u8) -> (accepted: bool)
        requires
            old(self).wf(),
        ensures
            final(self).wf(),
            accepted == (old(self)@.regs[UART_LSR as int] & MASK_UART_LSR_RX == 0),
            accepted ==> final(self)@ == (UartView {
                regs: old(self)@.regs.update(UART_RHR as int, byte).update(
                    UART_LSR as int,
                    (old(self)@.regs[UART_LSR as int] | MASK_UART_LSR_RX) as u8,
                ),
                interrupting: true,
                out: old(self)@.out,
            }),
            !accepted ==> final(self)@ == old(self)@,
    {
        let lsr = self.regs[UART_LSR as usize];
        if lsr & MASK_UART_LSR_RX == 0 {
            self.regs[UART_RHR as usize] = byte;
            self.regs[UART_LSR as usize] = lsr | MASK_UART_LSR_RX;
            self.interrupting = true;
            proof {
                assert(self@.regs =~= old(self)@.regs.update(UART_RHR as int, byte).update(
                    UART_LSR as int,
                    (old(self)@.regs[UART_LSR as int] | MASK_UART_LSR_RX) as u8,
                ));
            }
            true
        } else {
            false
        }
    }

    /// Whether the receive-ready bit is set: the host may not deposit a new
    /// byte while it is.
    pub fn rx_ready(&self) -> (r: bool)
        requires
            self.wf(),
        ensures
            r == (self@.regs[UART_LSR as int] & MASK_UART_LSR_RX != 0),
    {
        self.regs[UART_LSR as usize] & MASK_UART_LSR_RX != 0
    }

    /// Consume the latched interrupt flag, returning whether it was set.
    pub fn is_interrupting(&mut self) -> (r: bool)
        requires
            old(self).wf(),
        ensures
            final(self).wf(),
            r == old(self)@.interrupting,
            final(self)@ == (UartView { interrupting: false, ..old(self)@ }),
    {
        let r = self.interrupting;
        self.interrupting = false;
        r
    }

    /// Drain the bytes the guest has transmitted, oldest first.
    pub fn take_output(&mut self) -> (out: Vec<u8>)
        requires
            old(self).wf(),
        ensures
            final(self).wf(),
            out@ == old(self)@.out,
            final(self)@ == (UartView { out: Seq::<u8>::empty(), ..old(self)@ }),
    {
        let mut drained: Vec<u8> = Vec::new();
        core::mem::swap(&mut drained, &mut self.out);
        drained
    }
}

} // verus!
