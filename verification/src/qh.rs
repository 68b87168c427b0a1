//! Endpoint queue heads (QH).
//!
//! One QH exists per endpoint-direction pair. It holds the endpoint's
//! capabilities word (maximum packet length, zero-length-termination policy,
//! interrupt-on-setup flag), a word the hardware uses for its current
//! descriptor pointer, the overlay TD the hardware actively executes, and the
//! 8-byte capture buffer for the most recent setup packet. The hardware
//! addresses QHs by fixed 64-byte stride, so the structure must stay within
//! 64 bytes; its fields total 44 and the bound is checked by test.

use vstd::prelude::*;

use crate::td::TD;
use crate::td::TD_MAX_TRANSFER_BYTES;
use crate::td::td_active;
use crate::td::td_data_buffer_error;
use crate::td::td_halted;
use crate::td::td_ioc;
use crate::td::td_terminate;
use crate::td::td_total_bytes;
use crate::td::td_transaction_error;
use crate::vcell::VCell;

verus! {

/// Zero-length-termination bit of the capabilities word. The hardware polarity
/// is inverted relative to the software view: 0 means "send a terminating
/// zero-length packet", 1 means "disable it".
pub const CAPS_ZLT_BIT: u32 = 0x2000_0000;

/// Bit offset of the zero-length-termination bit.
pub const CAPS_ZLT_OFFSET: u32 = 29;

/// Interrupt-on-setup bit of the capabilities word.
pub const CAPS_IOS_BIT: u32 = 0x8000;

/// Bit offset of the interrupt-on-setup bit.
pub const CAPS_IOS_OFFSET: u32 = 15;

/// Mask of the 11-bit maximum-packet-length field.
pub const CAPS_MPL_MASK: u32 = 0x07FF_0000;

/// Bit offset of the maximum-packet-length field.
pub const CAPS_MPL_OFFSET: u32 = 16;

/// Largest value the maximum-packet-length field may hold; larger requests
/// are clamped to it at write time.
pub const MAX_PACKET_LEN_CEILING: u32 = 1024;

/// The maximum-packet-length field of a capabilities word.
pub open spec fn max_packet_len_of(caps: u32) -> u32 {
    (caps >> CAPS_MPL_OFFSET) & 0x7FF
}

/// The interrupt-on-setup flag of a capabilities word.
pub open spec fn interrupt_on_setup_of(caps: u32) -> bool {
    caps & CAPS_IOS_BIT != 0
}

/// Whether zero-length termination is enabled, hiding the inverted hardware
/// polarity: the bit clear means the policy is on.
pub open spec fn zero_length_termination_of(caps: u32) -> bool {
    caps & CAPS_ZLT_BIT == 0
}

/// A capabilities word after storing `n`, clamped to 1024, into the
/// maximum-packet-length field.
pub open spec fn caps_with_max_packet_len(caps: u32, n: u32) -> u32 {
    (caps & !CAPS_MPL_MASK) | (((if n > MAX_PACKET_LEN_CEILING {
        MAX_PACKET_LEN_CEILING
    } else {
        n
    }) << CAPS_MPL_OFFSET) & CAPS_MPL_MASK)
}

/// A capabilities word after setting the interrupt-on-setup flag to `ios`.
pub open spec fn caps_with_interrupt_on_setup(caps: u32, ios: bool) -> u32 {
    if ios {
        caps | CAPS_IOS_BIT
    } else {
        caps & !CAPS_IOS_BIT
    }
}

/// A capabilities word after setting the zero-length-termination policy to
/// `zlt` (clearing the bit enables the policy).
pub open spec fn caps_with_zero_length_termination(caps: u32, zlt: bool) -> u32 {
    if zlt {
        caps & !CAPS_ZLT_BIT
    } else {
        caps | CAPS_ZLT_BIT
    }
}

/// Law: storing a maximum packet length and reading the field back yields the
/// requested value clamped to 1024, and no bit outside the field changes.
pub proof fn lemma_max_packet_len_round_trip(caps: u32, n: u32)
    ensures
        max_packet_len_of(caps_with_max_packet_len(caps, n)) == (if n > MAX_PACKET_LEN_CEILING {
            MAX_PACKET_LEN_CEILING
        } else {
            n
        }),
        caps_with_max_packet_len(caps, n) & !CAPS_MPL_MASK == caps & !CAPS_MPL_MASK,
{
    assert(max_packet_len_of(caps_with_max_packet_len(caps, n)) == (if n > 1024u32 {
        1024u32
    } else {
        n
    }) && caps_with_max_packet_len(caps, n) & !0x07FF_0000u32 == caps & !0x07FF_0000u32)
        by (bit_vector);
}

/// Law: setting the interrupt-on-setup flag touches exactly bit 15 of the
/// capabilities word, setting it when the flag is true and clearing it when
/// false; every other bit — the maximum-packet-length field among them —
/// keeps its value.
pub proof fn lemma_interrupt_on_setup_exact(caps: u32, ios: bool)
    ensures
        interrupt_on_setup_of(caps_with_interrupt_on_setup(caps, ios)) == ios,
        caps_with_interrupt_on_setup(caps, ios) & !CAPS_IOS_BIT == caps & !CAPS_IOS_BIT,
        ios ==> caps_with_interrupt_on_setup(caps, ios) == caps | CAPS_IOS_BIT,
        !ios ==> caps_with_interrupt_on_setup(caps, ios) == caps & !CAPS_IOS_BIT,
        max_packet_len_of(caps_with_interrupt_on_setup(caps, ios)) == max_packet_len_of(caps),
{
    assert((caps | 0x8000u32) & 0x8000u32 != 0 && (caps | 0x8000u32) & !0x8000u32 == caps
        & !0x8000u32 && (caps & !0x8000u32) & 0x8000u32 == 0 && (caps & !0x8000u32) & !0x8000u32
        == caps & !0x8000u32 && ((caps | 0x8000u32) >> 16u32) & 0x7FFu32 == (caps >> 16u32)
        & 0x7FFu32 && ((caps & !0x8000u32) >> 16u32) & 0x7FFu32 == (caps >> 16u32) & 0x7FFu32)
        by (bit_vector);
}

/// Law: setting the zero-length-termination policy touches exactly bit 29 of
/// the capabilities word, and with inverted polarity: the bit is set when the
/// policy is disabled and cleared when it is enabled. On a fresh (all-zero)
/// capabilities word, disabling the policy yields exactly `1 << 29`.
pub proof fn lemma_zero_length_termination_exact(caps: u32, zlt: bool)
    ensures
        zero_length_termination_of(caps_with_zero_length_termination(caps, zlt)) == zlt,
        caps_with_zero_length_termination(caps, zlt) & !CAPS_ZLT_BIT == caps & !CAPS_ZLT_BIT,
        zlt ==> caps_with_zero_length_termination(caps, zlt) == caps & !CAPS_ZLT_BIT,
        !zlt ==> caps_with_zero_length_termination(caps, zlt) == caps | CAPS_ZLT_BIT,
        caps_with_zero_length_termination(0, false) == CAPS_ZLT_BIT,
        max_packet_len_of(caps_with_zero_length_termination(caps, zlt)) == max_packet_len_of(caps),
{
    assert((caps | 0x2000_0000u32) & 0x2000_0000u32 != 0 && (caps | 0x2000_0000u32)
        & !0x2000_0000u32 == caps & !0x2000_0000u32 && (caps & !0x2000_0000u32) & 0x2000_0000u32
        == 0 && (caps & !0x2000_0000u32) & !0x2000_0000u32 == caps & !0x2000_0000u32 && 0u32
        | 0x2000_0000u32 == 0x2000_0000u32 && ((caps | 0x2000_0000u32) >> 16u32) & 0x7FFu32 == (
    caps >> 16u32) & 0x7FFu32 && ((caps & !0x2000_0000u32) >> 16u32) & 0x7FFu32 == (caps >> 16u32)
        & 0x7FFu32) by (bit_vector);
}

/// One endpoint queue head. The field order mirrors the hardware layout:
/// capabilities, current-descriptor word, overlay TD, setup buffer.
pub struct QH {
    capabilities: VCell<u32>,
    _current_td_pointer: u32,
    overlay: TD,
    setup_buffer: VCell<u64>,
}

impl QH {
    /// The capabilities word, for use in contracts.
    pub closed spec fn capabilities_word(&self) -> u32 {
        self.capabilities.get()
    }

    /// Invariant: the stored maximum packet length never exceeds 1024,
    /// whatever was requested; `new` establishes it and every setter keeps it.
    pub open spec fn wf(&self) -> bool {
        max_packet_len_of(self.capabilities_word()) <= MAX_PACKET_LEN_CEILING
    }

    /// The captured setup packet, for use in contracts.
    pub closed spec fn setup_word(&self) -> u64 {
        self.setup_buffer.get()
    }

    /// The overlay descriptor, for use in contracts.
    pub closed spec fn overlay_td(&self) -> TD {
        self.overlay
    }

    /// Create a new QH with every bit zero: capabilities cleared and the
    /// overlay descriptor inactive.
    pub fn new() -> (r: QH)
        ensures
            r.wf(),
            r.capabilities_word() == 0,
            r.setup_word() == 0,
            r.overlay_td().token_word() == 0,
            r.overlay_td().next_word() == 0,
            forall|k: int| 0 <= k < 5 ==> #[trigger] r.overlay_td().buffer_word(k) == 0,
            !td_active(r.overlay_td().token_word()),
    {
        proof {
            assert((0u32 >> 16u32) & 0x7FFu32 == 0) by (bit_vector);
        }
        QH {
            capabilities: VCell::new(0),
            _current_td_pointer: 0,
            overlay: TD::new(),
            setup_buffer: VCell::new(0),
        }
    }

    /// Load the raw capabilities word.
    pub fn capabilities(&self) -> (r: u32)
        ensures
            r == self.capabilities_word(),
    {
        self.capabilities.read()
    }

    /// Read the captured setup packet.
    ///
    /// Performs one load from the capture buffer. The hardware can overwrite
    /// the buffer asynchronously when a new setup packet arrives, so the
    /// caller must apply its own tripwire or lockout discipline around this
    /// read; the accessor only exposes the raw value.
    pub fn setup(&self) -> (r: u64)
        ensures
            r == self.setup_word(),
    {
        self.setup_buffer.read()
    }

    /// Store a captured setup packet. This is the hardware's half of the
    /// capture: the unverified integration layer (or a test) mirrors the
    /// controller's write here.
    pub fn write_setup(&mut self, value: u64)
        ensures
            final(self).setup_word() == value,
            final(self).capabilities_word() == old(self).capabilities_word(),
            final(self).overlay_td() == old(self).overlay_td(),
    {
        self.setup_buffer.write(value);
    }

    /// The overlay descriptor the hardware is currently executing.
    pub fn overlay(&self) -> (r: &TD)
        ensures
            *r == self.overlay_td(),
    {
        &self.overlay
    }

    /// Sets the maximum packet length, clamping requests above 1024.
    pub fn set_max_packet_len(&mut self, max_packet_len: u32)
        ensures
            final(self).wf(),
            final(self).capabilities_word() == caps_with_max_packet_len(
                old(self).capabilities_word(),
                max_packet_len,
            ),
            max_packet_len_of(final(self).capabilities_word()) == (if max_packet_len
                > MAX_PACKET_LEN_CEILING {
                MAX_PACKET_LEN_CEILING
            } else {
                max_packet_len
            }),
            final(self).setup_word() == old(self).setup_word(),
            final(self).overlay_td() == old(self).overlay_td(),
    {
        let clamped: u32 = if max_packet_len > MAX_PACKET_LEN_CEILING {
            MAX_PACKET_LEN_CEILING
        } else {
            max_packet_len
        };
        self.capabilities.modify(CAPS_MPL_MASK, CAPS_MPL_OFFSET, clamped);
        proof {
            lemma_max_packet_len_round_trip(old(self).capabilities.get(), max_packet_len);
        }
    }

    /// Returns the stored (already-clamped) maximum packet length.
    pub fn max_packet_len(&self) -> (r: u32)
        ensures
            r == max_packet_len_of(self.capabilities_word()),
            self.wf() ==> r <= MAX_PACKET_LEN_CEILING,
    {
        (self.capabilities.read() >> CAPS_MPL_OFFSET) & 0x7FF
    }

    /// Enable (true) or disable (false) zero-length termination. The stored
    /// bit has the opposite polarity; this accessor hides the inversion.
    pub fn set_zero_length_termination(&mut self, zlt: bool)
        ensures
            final(self).wf() == old(self).wf(),
            final(self).capabilities_word() == caps_with_zero_length_termination(
                old(self).capabilities_word(),
                zlt,
            ),
            zero_length_termination_of(final(self).capabilities_word()) == zlt,
            final(self).setup_word() == old(self).setup_word(),
            final(self).overlay_td() == old(self).overlay_td(),
    {
        let bit: u32 = if zlt {
            0
        } else {
            1
        };
        self.capabilities.modify(CAPS_ZLT_BIT, CAPS_ZLT_OFFSET, bit);
        proof {
            let c0 = old(self).capabilities.get();
            let c1 = self.capabilities.get();
            assert((bit == 0u32 ==> c1 == c0 & !0x2000_0000u32) && (bit == 1u32 ==> c1 == c0
                | 0x2000_0000u32)) by (bit_vector)
                requires
                    c1 == (c0 & !0x2000_0000u32) | ((bit << 29u32) & 0x2000_0000u32),
                    bit == 0u32 || bit == 1u32,
            ;
            lemma_zero_length_termination_exact(c0, zlt);
        }
    }

    /// Enable (true) or disable (false) an immediate interrupt on receipt of
    /// a setup packet.
    pub fn set_interrupt_on_setup(&mut self, ios: bool)
        ensures
            final(self).wf() == old(self).wf(),
            final(self).capabilities_word() == caps_with_interrupt_on_setup(
                old(self).capabilities_word(),
                ios,
            ),
            interrupt_on_setup_of(final(self).capabilities_word()) == ios,
            final(self).setup_word() == old(self).setup_word(),
            final(self).overlay_td() == old(self).overlay_td(),
    {
        let bit: u32 = if ios {
            1
        } else {
            0
        };
        self.capabilities.modify(CAPS_IOS_BIT, CAPS_IOS_OFFSET, bit);
        proof {
            let c0 = old(self).capabilities.get();
            let c1 = self.capabilities.get();
            assert((bit == 1u32 ==> c1 == c0 | 0x8000u32) && (bit == 0u32 ==> c1 == c0
                & !0x8000u32)) by (bit_vector)
                requires
                    c1 == (c0 & !0x8000u32) | ((bit << 15u32) & 0x8000u32),
                    bit == 0u32 || bit == 1u32,
            ;
            lemma_interrupt_on_setup_exact(c0, ios);
        }
    }

    /// Prepare the overlay for one transfer of `len` bytes and hand it to the
    /// hardware: terminate the chain, store the length and the
    /// interrupt-on-complete flag, and set the active bit last.
    pub fn arm_overlay(&mut self, len: u32, ioc: bool)
        requires
            len <= TD_MAX_TRANSFER_BYTES,
        ensures
            td_active(final(self).overlay_td().token_word()),
            !td_halted(final(self).overlay_td().token_word()),
            !td_data_buffer_error(final(self).overlay_td().token_word()),
            !td_transaction_error(final(self).overlay_td().token_word()),
            td_total_bytes(final(self).overlay_td().token_word()) == len,
            td_ioc(final(self).overlay_td().token_word()) == ioc,
            td_terminate(final(self).overlay_td().next_word()),
            final(self).capabilities_word() == old(self).capabilities_word(),
            final(self).setup_word() == old(self).setup_word(),
    {
        self.overlay.set_terminate();
        self.overlay.set_total_bytes(len);
        self.overlay.set_interrupt_on_complete(ioc);
        self.overlay.set_active();
    }

    /// Overwrite the overlay's token word. This is the hardware's half of the
    /// transfer handoff, mirrored here by the unverified integration layer or
    /// by a test.
    pub fn write_overlay_token(&mut self, token: u32)
        ensures
            final(self).overlay_td().token_word() == token,
            final(self).overlay_td().next_word() == old(self).overlay_td().next_word(),
            final(self).capabilities_word() == old(self).capabilities_word(),
            final(self).setup_word() == old(self).setup_word(),
    {
        self.overlay.write_token(token);
    }
}

} // verus!
