//! The guest-visible register window: which byte offsets name a register,
//! which registers may be read or written, and how a 32-bit register value
//! is laid out in the four bytes of an access.

use vstd::prelude::*;

verus! {

/// Byte offset of the load register.
pub const RTCLR: u64 = 0x00;

/// Byte offset of the match register.
pub const RTCMR: u64 = 0x04;

/// Byte offset of the control register.
pub const RTCCR: u64 = 0x08;

/// Byte offset of the interrupt mask set/clear register.
pub const RTCIMSC: u64 = 0x0C;

/// Byte offset of the raw interrupt status register.
pub const RTCRIS: u64 = 0x10;

/// Byte offset of the masked interrupt status register.
pub const RTCMIS: u64 = 0x14;

/// Byte offset of the interrupt clear register.
pub const RTCICR: u64 = 0x18;

/// First byte offset of the identification block.
pub const AMBA_ID_LOW: u64 = 0xFE0;

/// Last byte offset of the identification block.
pub const AMBA_ID_HIGH: u64 = 0xFFF;

/// Number of identification registers in the block.
pub const AMBA_ID_COUNT: u8 = 8;

/// A register of the device, as named by a decoded byte offset.
#[derive(Clone, Copy, Debug, PartialEq, Eq, Structural)]
pub enum Register {
    /// Load register: written to seed the counter, read to sample it.
    Load,
    /// Match register: plain storage for an alarm target.
    Match,
    /// Control register: the enable bit, which is always set.
    Control,
    /// Interrupt mask set/clear register.
    InterruptMask,
    /// Raw interrupt status, read-only.
    RawStatus,
    /// Masked interrupt status, read-only.
    MaskedStatus,
    /// Interrupt clear register, write-only.
    InterruptClear,
    /// One of the read-only identification registers, by its position in
    /// the block.
    Identification(u8),
}

impl Register {
    /// Whether a guest load from this register is a valid access. The
    /// interrupt clear register is write-only, and nothing lies beyond the
    /// identification block.
    pub open spec fn readable(self) -> bool {
        match self {
            Register::InterruptClear => false,
            Register::Identification(index) => index < AMBA_ID_COUNT,
            _ => true,
        }
    }

    /// Whether a guest store to this register is a valid access. The two
    /// status registers and the identification block are read-only.
    pub open spec fn writable(self) -> bool {
        match self {
            Register::Load
            | Register::Match
            | Register::Control
            | Register::InterruptMask
            | Register::InterruptClear => true,
            Register::RawStatus | Register::MaskedStatus | Register::Identification(_) => false,
        }
    }

    /// Tells whether a guest load from this register is a valid access.
    pub fn is_readable(self) -> (r: bool)
        ensures
            r == self.readable(),
    {
        match self {
            Register::InterruptClear => false,
            Register::Identification(index) => index < AMBA_ID_COUNT,
            _ => true,
        }
    }

    /// Tells whether a guest store to this register is a valid access.
    pub fn is_writable(self) -> (r: bool)
        ensures
            r == self.writable(),
    {
        match self {
            Register::Load
            | Register::Match
            | Register::Control
            | Register::InterruptMask
            | Register::InterruptClear => true,
            Register::RawStatus | Register::MaskedStatus | Register::Identification(_) => false,
        }
    }
}

/// The register that a byte offset names, if any. Only word-aligned offsets
/// name a register, and only those of the seven low registers and of the
/// identification block.
pub open spec fn register_at(offset: u64) -> Option<Register> {
    if offset == RTCLR {
        Some(Register::Load)
    } else if offset == RTCMR {
        Some(Register::Match)
    } else if offset == RTCCR {
        Some(Register::Control)
    } else if offset == RTCIMSC {
        Some(Register::InterruptMask)
    } else if offset == RTCRIS {
        Some(Register::RawStatus)
    } else if offset == RTCMIS {
        Some(Register::MaskedStatus)
    } else if offset == RTCICR {
        Some(Register::InterruptClear)
    } else if AMBA_ID_LOW <= offset <= AMBA_ID_HIGH && offset % 4 == 0 {
        Some(Register::Identification(((offset - AMBA_ID_LOW) / 4) as u8))
    } else {
        None
    }
}

/// Decodes a byte offset into the register it names.
pub fn decode(offset: u64) -> (r: Option<Register>)
    ensures
        r == register_at(offset),
{
    if offset == RTCLR {
        Some(Register::Load)
    } else if offset == RTCMR {
        Some(Register::Match)
    } else if offset == RTCCR {
        Some(Register::Control)
    } else if offset == RTCIMSC {
        Some(Register::InterruptMask)
    } else if offset == RTCRIS {
        Some(Register::RawStatus)
    } else if offset == RTCMIS {
        Some(Register::MaskedStatus)
    } else if offset == RTCICR {
        Some(Register::InterruptClear)
    } else if AMBA_ID_LOW <= offset && offset <= AMBA_ID_HIGH && offset % 4 == 0 {
        let index: u64 = (offset - AMBA_ID_LOW) / 4;
        Some(Register::Identification(index as u8))
    } else {
        None
    }
}

/// The 32-bit value that four bytes hold in little-endian order.
pub open spec fn le_value(bytes: Seq<u8>) -> u32
    recommends
        bytes.len() == 4,
{
    (bytes[0] as u32) | (bytes[1] as u32) << 8 | (bytes[2] as u32) << 16 | (bytes[3] as u32) << 24
}

/// The four bytes of a 32-bit value, least significant first.
pub open spec fn le_bytes(value: u32) -> Seq<u8> {
    seq![
        (value & 0xff) as u8,
        ((value >> 8) & 0xff) as u8,
        ((value >> 16) & 0xff) as u8,
        ((value >> 24) & 0xff) as u8,
    ]
}

/// Reads a register value from the four bytes of an access.
pub fn read_le_u32(data: &[u8; 4]) -> (value: u32)
    ensures
        value == le_value(data@),
{
    (data[0] as u32) | (data[1] as u32) << 8 | (data[2] as u32) << 16 | (data[3] as u32) << 24
}

/// Lays a register value out in the four bytes of an access.
pub fn write_le_u32(value: u32) -> (data: [u8; 4])
    ensures
        data@ == le_bytes(value),
{
    let data: [u8; 4] = [
        (value & 0xff) as u8,
        ((value >> 8) & 0xff) as u8,
        ((value >> 16) & 0xff) as u8,
        ((value >> 24) & 0xff) as u8,
    ];
    assert(data@ =~= le_bytes(value));
    data
}

/// Encoding a value and decoding the bytes gives the value back.
pub proof fn lemma_le_value_of_bytes(value: u32)
    ensures
        le_bytes(value).len() == 4,
        le_value(le_bytes(value)) == value,
{
    let b0: u8 = (value & 0xff) as u8;
    let b1: u8 = ((value >> 8) & 0xff) as u8;
    let b2: u8 = ((value >> 16) & 0xff) as u8;
    let b3: u8 = ((value >> 24) & 0xff) as u8;
    assert((b0 as u32) | (b1 as u32) << 8 | (b2 as u32) << 16 | (b3 as u32) << 24 == value)
        by (bit_vector)
        requires
            b0 == (value & 0xff) as u8,
            b1 == ((value >> 8) & 0xff) as u8,
            b2 == ((value >> 16) & 0xff) as u8,
            b3 == ((value >> 24) & 0xff) as u8,
    ;
}

/// Decoding four bytes and encoding the value gives the bytes back.
pub proof fn lemma_le_bytes_of_value(bytes: Seq<u8>)
    requires
        bytes.len() == 4,
    ensures
        le_bytes(le_value(bytes)) == bytes,
{
    let b0: u8 = bytes[0];
    let b1: u8 = bytes[1];
    let b2: u8 = bytes[2];
    let b3: u8 = bytes[3];
    let value: u32 = (b0 as u32) | (b1 as u32) << 8 | (b2 as u32) << 16 | (b3 as u32) << 24;
    assert((value & 0xff) as u8 == b0 && ((value >> 8) & 0xff) as u8 == b1 && ((value >> 16)
        & 0xff) as u8 == b2 && ((value >> 24) & 0xff) as u8 == b3) by (bit_vector)
        requires
            value == (b0 as u32) | (b1 as u32) << 8 | (b2 as u32) << 16 | (b3 as u32) << 24,
    ;
    assert(le_bytes(le_value(bytes)) =~= bytes);
}

} // verus!
