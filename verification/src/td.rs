//! Transfer descriptors (TD).
//!
//! A TD describes one DMA transfer: a chaining terminator or next-descriptor
//! pointer, a token word holding the completion status, the
//! interrupt-on-complete flag and the total byte count, and five page-sized
//! buffer-pointer fragments for scatter-gather. Software prepares a TD, hands
//! it to the hardware by linking it (last of all setting the active bit), and
//! reclaims it once the hardware has cleared that bit. The field offsets are a
//! wire-format contract with the DMA engine and must not be reordered.

use vstd::prelude::*;

use crate::vcell::VCell;

verus! {

/// Terminate bit of the next-descriptor pointer: set when no successor follows.
pub const TD_NEXT_TERMINATE: u32 = 1;

/// Token status bit: the hardware owns the descriptor; the transfer is in flight.
pub const TD_STATUS_ACTIVE: u32 = 0x80;

/// Token status bit: the endpoint halted on a serious error.
pub const TD_STATUS_HALTED: u32 = 0x40;

/// Token status bit: the hardware saw a data-buffer under- or overrun.
pub const TD_STATUS_DATA_BUFFER_ERROR: u32 = 0x20;

/// Token status bit: transaction error on the bus (bad CRC, timeout, babble).
pub const TD_STATUS_TRANSACTION_ERROR: u32 = 0x08;

/// Mask of the whole status byte of the token.
pub const TD_STATUS_MASK: u32 = 0xFF;

/// Interrupt-on-complete bit of the token.
pub const TD_TOKEN_IOC: u32 = 0x8000;

/// Mask of the total-bytes field of the token.
pub const TD_TOKEN_TOTAL_BYTES_MASK: u32 = 0x7FFF_0000;

/// Bit offset of the total-bytes field of the token.
pub const TD_TOKEN_TOTAL_BYTES_OFFSET: u32 = 16;

/// Largest transfer a single descriptor can describe: 20 KiB.
pub const TD_MAX_TRANSFER_BYTES: u32 = 0x5000;

/// The hardware still owns the descriptor.
pub open spec fn td_active(token: u32) -> bool {
    token & TD_STATUS_ACTIVE != 0
}

/// The endpoint halted while processing the descriptor.
pub open spec fn td_halted(token: u32) -> bool {
    token & TD_STATUS_HALTED != 0
}

/// The hardware reported a data-buffer error.
pub open spec fn td_data_buffer_error(token: u32) -> bool {
    token & TD_STATUS_DATA_BUFFER_ERROR != 0
}

/// The hardware reported a transaction error.
pub open spec fn td_transaction_error(token: u32) -> bool {
    token & TD_STATUS_TRANSACTION_ERROR != 0
}

/// The interrupt-on-complete flag of the token.
pub open spec fn td_ioc(token: u32) -> bool {
    token & TD_TOKEN_IOC != 0
}

/// The total-bytes field of the token. Before the transfer it holds the
/// requested length; afterwards the hardware has decremented it to the number
/// of bytes left untransferred.
pub open spec fn td_total_bytes(token: u32) -> u32 {
    (token >> TD_TOKEN_TOTAL_BYTES_OFFSET) & 0x7FF_F
}

/// The descriptor ends its chain: no successor follows.
pub open spec fn td_terminate(next: u32) -> bool {
    next & TD_NEXT_TERMINATE != 0
}

/// Decoded outcome of a descriptor, in the order the status bits are consulted.
#[derive(Clone, Copy, PartialEq, Eq, Structural, Debug)]
pub enum TransferStatus {
    /// The active bit is still set: the hardware has not finished.
    Pending,
    /// The endpoint halted; the halt must be cleared before re-arming.
    Halted,
    /// A data-buffer under- or overrun occurred.
    DataBufferError,
    /// A transaction failed on the bus.
    TransactionError,
    /// The transfer completed without error.
    Success,
}

/// What a token word means as a [`TransferStatus`].
pub open spec fn td_status_of(token: u32) -> TransferStatus {
    if td_active(token) {
        TransferStatus::Pending
    } else if td_halted(token) {
        TransferStatus::Halted
    } else if td_data_buffer_error(token) {
        TransferStatus::DataBufferError
    } else if td_transaction_error(token) {
        TransferStatus::TransactionError
    } else {
        TransferStatus::Success
    }
}

/// A completed descriptor that the hardware marked halted or errored rather
/// than successful.
pub open spec fn td_failed(token: u32) -> bool {
    !td_active(token) && (td_halted(token) || td_data_buffer_error(token) || td_transaction_error(
        token,
    ))
}

/// One transfer descriptor. The field order mirrors the layout the DMA
/// engine reads: next pointer, token, then the five buffer fragments.
pub struct TD {
    next: VCell<u32>,
    token: VCell<u32>,
    buffer_0: VCell<u32>,
    buffer_1: VCell<u32>,
    buffer_2: VCell<u32>,
    buffer_3: VCell<u32>,
    buffer_4: VCell<u32>,
}

impl TD {
    /// The next-descriptor pointer word, for use in contracts.
    pub closed spec fn next_word(&self) -> u32 {
        self.next.get()
    }

    /// The token word, for use in contracts.
    pub closed spec fn token_word(&self) -> u32 {
        self.token.get()
    }

    /// Buffer-pointer fragment `k` (0 to 4), for use in contracts.
    pub closed spec fn buffer_word(&self, k: int) -> u32 {
        if k == 0 {
            self.buffer_0.get()
        } else if k == 1 {
            self.buffer_1.get()
        } else if k == 2 {
            self.buffer_2.get()
        } else if k == 3 {
            self.buffer_3.get()
        } else {
            self.buffer_4.get()
        }
    }

    /// All five buffer-pointer fragments agree between `a` and `b`.
    pub open spec fn same_buffers(a: &TD, b: &TD) -> bool {
        forall|k: int| 0 <= k < 5 ==> #[trigger] a.buffer_word(k) == b.buffer_word(k)
    }

    /// Create a fresh, inactive descriptor with every word zero.
    pub fn new() -> (r: TD)
        ensures
            r.next_word() == 0,
            r.token_word() == 0,
            forall|k: int| 0 <= k < 5 ==> #[trigger] r.buffer_word(k) == 0,
            !td_active(r.token_word()),
    {
        proof {
            assert(0u32 & 0x80u32 == 0) by (bit_vector);
        }
        TD {
            next: VCell::new(0),
            token: VCell::new(0),
            buffer_0: VCell::new(0),
            buffer_1: VCell::new(0),
            buffer_2: VCell::new(0),
            buffer_3: VCell::new(0),
            buffer_4: VCell::new(0),
        }
    }

    /// Mark the descriptor as the end of its chain.
    pub fn set_terminate(&mut self)
        ensures
            final(self).next_word() == TD_NEXT_TERMINATE,
            td_terminate(final(self).next_word()),
            final(self).token_word() == old(self).token_word(),
            TD::same_buffers(final(self), old(self)),
    {
        self.next.write(TD_NEXT_TERMINATE);
        proof {
            assert(1u32 & 1u32 != 0) by (bit_vector);
        }
    }

    /// Chain the descriptor to a successor at `next`, which the hardware
    /// requires to be 32-byte aligned (so the terminate bit stays clear).
    pub fn set_next(&mut self, next: u32)
        requires
            next & 0x1F == 0,
        ensures
            final(self).next_word() == next,
            !td_terminate(final(self).next_word()),
            final(self).token_word() == old(self).token_word(),
            TD::same_buffers(final(self), old(self)),
    {
        self.next.write(next);
        proof {
            assert(next & 1u32 == 0) by (bit_vector)
                requires
                    next & 0x1Fu32 == 0,
            ;
        }
    }

    /// Store the total number of bytes the transfer should move.
    pub fn set_total_bytes(&mut self, len: u32)
        requires
            len <= TD_MAX_TRANSFER_BYTES,
        ensures
            td_total_bytes(final(self).token_word()) == len,
            final(self).token_word() & !TD_TOKEN_TOTAL_BYTES_MASK == old(self).token_word()
                & !TD_TOKEN_TOTAL_BYTES_MASK,
            td_active(final(self).token_word()) == td_active(old(self).token_word()),
            td_ioc(final(self).token_word()) == td_ioc(old(self).token_word()),
            final(self).next_word() == old(self).next_word(),
            TD::same_buffers(final(self), old(self)),
    {
        self.token.modify(TD_TOKEN_TOTAL_BYTES_MASK, TD_TOKEN_TOTAL_BYTES_OFFSET, len);
        proof {
            let t0 = old(self).token.get();
            let t1 = self.token.get();
            assert((t1 >> 16u32) & 0x7FFFu32 == len && t1 & !0x7FFF_0000u32 == t0
                & !0x7FFF_0000u32 && (t1 & 0x80u32) == (t0 & 0x80u32) && (t1 & 0x8000u32) == (t0
                & 0x8000u32)) by (bit_vector)
                requires
                    t1 == (t0 & !0x7FFF_0000u32) | ((len << 16u32) & 0x7FFF_0000u32),
                    len <= 0x5000u32,
            ;
        }
    }

    /// Set or clear the interrupt-on-complete flag.
    pub fn set_interrupt_on_complete(&mut self, ioc: bool)
        ensures
            td_ioc(final(self).token_word()) == ioc,
            final(self).token_word() & !TD_TOKEN_IOC == old(self).token_word() & !TD_TOKEN_IOC,
            td_active(final(self).token_word()) == td_active(old(self).token_word()),
            td_total_bytes(final(self).token_word()) == td_total_bytes(old(self).token_word()),
            final(self).next_word() == old(self).next_word(),
            TD::same_buffers(final(self), old(self)),
    {
        let bit: u32 = if ioc {
            1
        } else {
            0
        };
        self.token.modify(TD_TOKEN_IOC, 15, bit);
        proof {
            let t0 = old(self).token.get();
            let t1 = self.token.get();
            assert((bit == 1u32 ==> t1 & 0x8000u32 != 0) && (bit == 0u32 ==> t1 & 0x8000u32 == 0)
                && t1 & !0x8000u32 == t0 & !0x8000u32 && (t1 & 0x80u32) == (t0 & 0x80u32) && ((t1
                >> 16u32) & 0x7FFFu32) == ((t0 >> 16u32) & 0x7FFFu32)) by (bit_vector)
                requires
                    t1 == (t0 & !0x8000u32) | ((bit << 15u32) & 0x8000u32),
                    bit == 0u32 || bit == 1u32,
            ;
        }
    }

    /// Hand the descriptor to the hardware: replace the whole status byte with
    /// the active bit, clearing any halt or error left from an earlier use.
    /// Callers must write every other field first; this store comes last in
    /// the handoff so the engine never sees a half-written descriptor.
    pub fn set_active(&mut self)
        ensures
            td_active(final(self).token_word()),
            !td_halted(final(self).token_word()),
            !td_data_buffer_error(final(self).token_word()),
            !td_transaction_error(final(self).token_word()),
            td_ioc(final(self).token_word()) == td_ioc(old(self).token_word()),
            td_total_bytes(final(self).token_word()) == td_total_bytes(old(self).token_word()),
            final(self).token_word() & !TD_STATUS_MASK == old(self).token_word() & !TD_STATUS_MASK,
            final(self).next_word() == old(self).next_word(),
            TD::same_buffers(final(self), old(self)),
    {
        self.token.modify(TD_STATUS_MASK, 0, TD_STATUS_ACTIVE);
        proof {
            let t0 = old(self).token.get();
            let t1 = self.token.get();
            assert(t1 & 0x80u32 != 0 && t1 & 0x40u32 == 0 && t1 & 0x20u32 == 0 && t1 & 0x08u32 == 0
                && t1 & 0x8000u32 == t0 & 0x8000u32 && ((t1 >> 16u32) & 0x7FFFu32) == ((t0
                >> 16u32) & 0x7FFFu32) && t1 & !0xFFu32 == t0 & !0xFFu32) by (bit_vector)
                requires
                    t1 == (t0 & !0xFFu32) | ((0x80u32 << 0u32) & 0xFFu32),
            ;
        }
    }

    /// Point the first fragment at `addr` and derive the four following
    /// page-aligned fragments, as the scatter-gather scheme expects. The upper
    /// bound on `addr` keeps the last fragment inside the address space.
    pub fn set_buffer(&mut self, addr: u32)
        requires
            addr < 0xFFFF_C000,
        ensures
            final(self).buffer_word(0) == addr,
            final(self).buffer_word(1) == (addr & 0xFFFF_F000) + 0x1000,
            final(self).buffer_word(2) == (addr & 0xFFFF_F000) + 0x2000,
            final(self).buffer_word(3) == (addr & 0xFFFF_F000) + 0x3000,
            final(self).buffer_word(4) == (addr & 0xFFFF_F000) + 0x4000,
            final(self).token_word() == old(self).token_word(),
            final(self).next_word() == old(self).next_word(),
    {
        let page = addr & 0xFFFF_F000;
        proof {
            assert(page <= 0xFFFF_B000u32) by (bit_vector)
                requires
                    page == addr & 0xFFFF_F000u32,
                    addr < 0xFFFF_C000u32,
            ;
        }
        self.buffer_0.write(addr);
        self.buffer_1.write(page + 0x1000);
        self.buffer_2.write(page + 0x2000);
        self.buffer_3.write(page + 0x3000);
        self.buffer_4.write(page + 0x4000);
    }

    /// Overwrite the token word. This is the hardware's half of the handoff:
    /// the controller clears the active bit and decrements the byte count, and
    /// the unverified integration layer (or a test) mirrors that here.
    pub fn write_token(&mut self, token: u32)
        ensures
            final(self).token_word() == token,
            final(self).next_word() == old(self).next_word(),
            TD::same_buffers(final(self), old(self)),
    {
        self.token.write(token);
    }

    /// Load the next-descriptor pointer word.
    pub fn next_pointer(&self) -> (r: u32)
        ensures
            r == self.next_word(),
    {
        self.next.read()
    }

    /// Load buffer-pointer fragment `k`.
    pub fn buffer(&self, k: usize) -> (r: u32)
        requires
            k < 5,
        ensures
            r == self.buffer_word(k as int),
    {
        if k == 0 {
            self.buffer_0.read()
        } else if k == 1 {
            self.buffer_1.read()
        } else if k == 2 {
            self.buffer_2.read()
        } else if k == 3 {
            self.buffer_3.read()
        } else {
            self.buffer_4.read()
        }
    }

    /// Load the raw token word.
    pub fn token(&self) -> (r: u32)
        ensures
            r == self.token_word(),
    {
        self.token.read()
    }

    /// Whether the hardware still owns the descriptor.
    pub fn is_active(&self) -> (r: bool)
        ensures
            r == td_active(self.token_word()),
    {
        self.token.read() & TD_STATUS_ACTIVE != 0
    }

    /// Whether the endpoint halted on this descriptor.
    pub fn is_halted(&self) -> (r: bool)
        ensures
            r == td_halted(self.token_word()),
    {
        self.token.read() & TD_STATUS_HALTED != 0
    }

    /// The total-bytes field: bytes still untransferred once the hardware is done.
    pub fn total_bytes(&self) -> (r: u32)
        ensures
            r == td_total_bytes(self.token_word()),
    {
        (self.token.read() >> TD_TOKEN_TOTAL_BYTES_OFFSET) & 0x7FF_F
    }

    /// Decode the token into a [`TransferStatus`].
    pub fn status(&self) -> (r: TransferStatus)
        ensures
            r == td_status_of(self.token_word()),
    {
        let token = self.token.read();
        if token & TD_STATUS_ACTIVE != 0 {
            TransferStatus::Pending
        } else if token & TD_STATUS_HALTED != 0 {
            TransferStatus::Halted
        } else if token & TD_STATUS_DATA_BUFFER_ERROR != 0 {
            TransferStatus::DataBufferError
        } else if token & TD_STATUS_TRANSACTION_ERROR != 0 {
            TransferStatus::TransactionError
        } else {
            TransferStatus::Success
        }
    }
}

} // verus!
