//! What holds of the device across accesses, proved from the steps that
//! `read` and `write` promise.

use vstd::prelude::*;
use crate::device::{interrupt_asserted, read_step, reads, write_step, DeviceState};
use crate::machine::{counter_at, identification_bytes, seed_offset, Registers};
use crate::metrics::next_count;
use crate::registers::{
    le_value, lemma_le_bytes_of_value, register_at, Register, AMBA_ID_HIGH, AMBA_ID_LOW, RTCCR,
    RTCICR, RTCIMSC, RTCLR, RTCMR,
};

verus! {

/// The match register is plain storage: a word written to it is the word
/// read back, byte for byte, and the read changes nothing.
pub proof fn law_match_register_round_trip(
    start: DeviceState,
    written: Seq<u8>,
    stored: DeviceState,
    buffer: Seq<u8>,
    end: DeviceState,
    got: Seq<u8>,
)
    requires
        written.len() == 4,
        buffer.len() == 4,
        write_step(start, RTCMR, written, stored),
        read_step(stored, RTCMR, buffer, end, got),
    ensures
        got == written,
        end == stored,
        stored.counters == start.counters,
{
    lemma_le_bytes_of_value(written);
    lemma_le_bytes_of_value(got);
}

/// A word written to the load register seeds the counter: a later read of
/// the load register shows the counter for the host clock at the read, with
/// the offset that the written value and the host clock at the write give.
pub proof fn law_load_register_seeds_counter(
    start: DeviceState,
    written: Seq<u8>,
    seeded: DeviceState,
    buffer: Seq<u8>,
    end: DeviceState,
    got: Seq<u8>,
)
    requires
        written.len() == 4,
        buffer.len() == 4,
        write_step(start, RTCLR, written, seeded),
        read_step(seeded, RTCLR, buffer, end, got),
    ensures
        seeded.registers.lr == le_value(written),
        exists|at_write: u32, at_read: u32|
            seeded.registers.offset == seed_offset(le_value(written), at_write) && le_value(got)
                == #[trigger] counter_at(at_read, seed_offset(le_value(written), at_write) as i64),
{
    let value = le_value(written);
    let at_write = choose|now: u32| seeded.registers.offset == seed_offset(value, now);
    let at_read = choose|now: u32| le_value(got) == counter_at(now, seeded.registers.offset);
    assert(le_value(got) == counter_at(at_read, seed_offset(value, at_write) as i64));
}

/// A counter seeded with `value` while the host clock stood at `now` shows
/// `value + elapsed` once the clock has moved on by `elapsed` seconds, as
/// long as both the clock and the counter still fit in 32 bits. With no
/// time elapsed it shows `value` itself.
pub proof fn law_counter_follows_clock(value: u32, now: u32, elapsed: u32)
    requires
        now + elapsed <= u32::MAX,
        value + elapsed <= u32::MAX,
    ensures
        counter_at((now + elapsed) as u32, seed_offset(value, now) as i64) == value + elapsed,
{
}

/// The interrupt mask keeps the lowest bit of what is written to it, and
/// reads back as that: one after a write of one, zero after a write of
/// zero. The line is asserted after the write exactly if that bit is set
/// and the lowest raw interrupt is pending.
pub proof fn law_interrupt_mask_round_trip(
    start: DeviceState,
    written: Seq<u8>,
    masked: DeviceState,
    buffer: Seq<u8>,
    end: DeviceState,
    got: Seq<u8>,
)
    requires
        written.len() == 4,
        buffer.len() == 4,
        write_step(start, RTCIMSC, written, masked),
        read_step(masked, RTCIMSC, buffer, end, got),
    ensures
        le_value(got) == le_value(written) & 1,
        le_value(written) == 1 ==> le_value(got) == 1,
        le_value(written) == 0 ==> le_value(got) == 0,
        interrupt_asserted(masked.registers) <==> (le_value(written) & 1 == 1
            && start.registers.ris & 1 == 1),
        end == masked,
{
    let value = le_value(written);
    let ris = start.registers.ris;
    assert(1u32 & 1 == 1 && 0u32 & 1 == 0) by (bit_vector);
    assert((ris & (value & 1) != 0) <==> (value & 1 == 1 && ris & 1 == 1)) by (bit_vector);
}

/// A write to the interrupt clear register, whatever its value, clears
/// the raw interrupt status and deasserts the line; the status registers
/// then read zero. It changes no other register and no count.
pub proof fn law_interrupt_clear_deasserts(
    start: DeviceState,
    written: Seq<u8>,
    cleared: DeviceState,
)
    requires
        written.len() == 4,
        write_step(start, RTCICR, written, cleared),
    ensures
        !interrupt_asserted(cleared.registers),
        cleared.registers == (Registers { ris: 0, ..start.registers }),
        reads(cleared.registers, Register::RawStatus, 0),
        reads(cleared.registers, Register::MaskedStatus, 0),
        cleared.counters == start.counters,
{
    let imsc = start.registers.imsc;
    assert(0u32 & imsc == 0) by (bit_vector);
}

/// The interrupt clear register is write-only: a read of it leaves the
/// caller's buffer and the registers as they were, and adds one to the
/// count of errors and one to the count of missed reads.
pub proof fn law_interrupt_clear_is_write_only(
    start: DeviceState,
    buffer: Seq<u8>,
    end: DeviceState,
    got: Seq<u8>,
)
    requires
        read_step(start, RTCICR, buffer, end, got),
    ensures
        got == buffer,
        end.registers == start.registers,
        end.counters.errors == next_count(start.counters.errors),
        end.counters.missed_reads == next_count(start.counters.missed_reads),
        end.counters.missed_writes == start.counters.missed_writes,
{
}

/// The enable bit is sticky: whatever is written to the control register,
/// and whatever state the device is in, the control register reads as one.
/// The write changes no register, so the counter keeps its seed.
pub proof fn law_control_stays_enabled(
    start: DeviceState,
    written: Seq<u8>,
    controlled: DeviceState,
    buffer: Seq<u8>,
    end: DeviceState,
    got: Seq<u8>,
)
    requires
        written.len() == 4,
        buffer.len() == 4,
        write_step(start, RTCCR, written, controlled),
        read_step(controlled, RTCCR, buffer, end, got),
    ensures
        le_value(got) == 1,
        end == controlled,
        controlled == start,
{
}

/// A write to the control register between the seeding of the counter and
/// a read of it does not disturb the seed: the read still shows the counter
/// for the offset that the load register write recorded.
pub proof fn law_control_write_keeps_seed(
    start: DeviceState,
    seed: Seq<u8>,
    seeded: DeviceState,
    control: Seq<u8>,
    controlled: DeviceState,
    buffer: Seq<u8>,
    end: DeviceState,
    got: Seq<u8>,
)
    requires
        seed.len() == 4,
        control.len() == 4,
        buffer.len() == 4,
        write_step(start, RTCLR, seed, seeded),
        write_step(seeded, RTCCR, control, controlled),
        read_step(controlled, RTCLR, buffer, end, got),
    ensures
        controlled == seeded,
        exists|at_write: u32, at_read: u32|
            controlled.registers.offset == seed_offset(le_value(seed), at_write) && le_value(got)
                == #[trigger] counter_at(at_read, seed_offset(le_value(seed), at_write) as i64),
{
    law_load_register_seeds_counter(start, seed, seeded, buffer, end, got);
}

/// A write that is not four bytes wide changes no register, whatever its
/// offset, and adds one to the count of errors and one to the count of
/// missed writes.
pub proof fn law_wrong_width_write_is_dropped(
    start: DeviceState,
    offset: u64,
    data: Seq<u8>,
    end: DeviceState,
)
    requires
        data.len() != 4,
        write_step(start, offset, data, end),
    ensures
        end.registers == start.registers,
        end.counters.errors == next_count(start.counters.errors),
        end.counters.missed_writes == next_count(start.counters.missed_writes),
        end.counters.missed_reads == start.counters.missed_reads,
{
}

/// A read that is not four bytes wide fills nothing in, whatever its
/// offset, changes no register, and adds one to the count of errors and
/// one to the count of missed reads.
pub proof fn law_wrong_width_read_is_dropped(
    start: DeviceState,
    offset: u64,
    buffer: Seq<u8>,
    end: DeviceState,
    got: Seq<u8>,
)
    requires
        buffer.len() != 4,
        read_step(start, offset, buffer, end, got),
    ensures
        got == buffer,
        end.registers == start.registers,
        end.counters.errors == next_count(start.counters.errors),
        end.counters.missed_reads == next_count(start.counters.missed_reads),
        end.counters.missed_writes == start.counters.missed_writes,
{
}

/// The identification block is read-only: a write anywhere in it changes
/// no register and adds one to the count of errors, and a read of one of
/// its registers afterwards still gives that register's fixed byte.
pub proof fn law_identification_is_read_only(
    start: DeviceState,
    write_offset: u64,
    written: Seq<u8>,
    refused: DeviceState,
    read_offset: u64,
    buffer: Seq<u8>,
    end: DeviceState,
    got: Seq<u8>,
)
    requires
        AMBA_ID_LOW <= write_offset <= AMBA_ID_HIGH,
        AMBA_ID_LOW <= read_offset <= AMBA_ID_HIGH,
        read_offset % 4 == 0,
        buffer.len() == 4,
        write_step(start, write_offset, written, refused),
        read_step(refused, read_offset, buffer, end, got),
    ensures
        refused.registers == start.registers,
        refused.counters.errors == next_count(start.counters.errors),
        refused.counters.missed_writes == next_count(start.counters.missed_writes),
        le_value(got) == identification_bytes()[(read_offset - AMBA_ID_LOW) / 4],
        end == refused,
{
}

/// An offset that names no register is invalid in both directions: a read
/// there fills nothing in, a write there changes no register, and each is
/// counted once as an error and once by its direction.
pub proof fn law_unmapped_offset_is_refused(
    start: DeviceState,
    offset: u64,
    buffer: Seq<u8>,
    after_read: DeviceState,
    got: Seq<u8>,
    data: Seq<u8>,
    after_write: DeviceState,
)
    requires
        register_at(offset) is None,
        read_step(start, offset, buffer, after_read, got),
        write_step(after_read, offset, data, after_write),
    ensures
        got == buffer,
        after_read == start.after_invalid_read(),
        after_write == after_read.after_invalid_write(),
        after_write.registers == start.registers,
{
}

} // verus!
