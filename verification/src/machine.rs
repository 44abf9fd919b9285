//! The register machine behind the window: the PL031 emulation of
//! `vm_superio`, held opaquely, together with the statement of what its
//! calls do to its registers.
//!
//! The machine is addressed by ports, the PL031's own register offsets.
//! Nothing in this module is proved: every function with a body here makes
//! one call into `vm_superio`, and its contract is taken from that crate's
//! source.

use vstd::prelude::*;
use vm_superio::rtc_pl031::{NoEvents, Rtc, RtcState};
use crate::registers::le_value;

verus! {

/// Port of the data register: the running counter, read-only.
pub const PORT_DATA: u16 = 0x000;

/// Port of the match register.
pub const PORT_MATCH: u16 = 0x004;

/// Port of the load register.
pub const PORT_LOAD: u16 = 0x008;

/// Port of the control register.
pub const PORT_CONTROL: u16 = 0x00C;

/// Port of the interrupt mask set/clear register.
pub const PORT_MASK: u16 = 0x010;

/// Port of the raw interrupt status register, read-only.
pub const PORT_RAW: u16 = 0x014;

/// Port of the masked interrupt status register, read-only.
pub const PORT_MASKED: u16 = 0x018;

/// Port of the interrupt clear register, write-only.
pub const PORT_CLEAR: u16 = 0x01C;

/// First port of the identification block.
pub const PORT_ID_LOW: u16 = 0xFE0;

/// Last port of the identification block.
pub const PORT_ID_HIGH: u16 = 0xFFF;

/// What the machine stores.
#[derive(Clone, Copy, Debug, PartialEq, Eq, Structural)]
pub struct Registers {
    /// The value last written to the load register.
    pub lr: u32,
    /// What is added to the host clock, in seconds, to get the counter.
    pub offset: i64,
    /// The match register.
    pub mr: u32,
    /// The interrupt mask.
    pub imsc: u32,
    /// The raw interrupt status.
    pub ris: u32,
}

/// The registers of a machine that has not been written to.
pub open spec fn reset_registers() -> Registers {
    Registers { lr: 0, offset: 0, mr: 0, imsc: 0, ris: 0 }
}

/// The peripheral and PrimeCell identification bytes, in block order.
pub open spec fn identification_bytes() -> Seq<u8> {
    seq![0x31u8, 0x10u8, 0x04u8, 0x00u8, 0x0du8, 0xf0u8, 0x05u8, 0xb1u8]
}

/// The offset that seeds the counter with `value` while the host clock
/// stands at `now` seconds.
pub open spec fn seed_offset(value: u32, now: u32) -> int {
    value - now
}

/// The counter that the machine shows when the host clock stands at `now`
/// seconds: the clock plus the offset, or the clock alone where the sum is
/// no 32-bit value.
pub open spec fn counter_at(now: u32, offset: i64) -> u32 {
    let sum = now as int + offset as int;
    if 0 <= sum <= u32::MAX {
        sum as u32
    } else {
        now
    }
}

/// The ports that the machine answers a load from.
pub open spec fn port_readable(port: u16) -> bool {
    ||| port == PORT_DATA
    ||| port == PORT_MATCH
    ||| port == PORT_LOAD
    ||| port == PORT_CONTROL
    ||| port == PORT_MASK
    ||| port == PORT_RAW
    ||| port == PORT_MASKED
    ||| PORT_ID_LOW <= port <= PORT_ID_HIGH
}

/// `value` is what a load from a readable port may give, with the registers
/// as they are. Only the data register leaves a choice: it follows the host
/// clock.
pub open spec fn loads(registers: Registers, port: u16, value: u32) -> bool {
    if port == PORT_DATA {
        exists|now: u32| value == counter_at(now, registers.offset)
    } else if port == PORT_MATCH {
        value == registers.mr
    } else if port == PORT_LOAD {
        value == registers.lr
    } else if port == PORT_CONTROL {
        value == 1
    } else if port == PORT_MASK {
        value == registers.imsc
    } else if port == PORT_RAW {
        value == registers.ris
    } else if port == PORT_MASKED {
        value == registers.ris & registers.imsc
    } else if PORT_ID_LOW <= port <= PORT_ID_HIGH {
        value == identification_bytes()[(port - PORT_ID_LOW) / 4]
    } else {
        false
    }
}

/// `after` is what a store of `value` to a port may make of `before`. Only
/// the load register leaves a choice: the offset it records is the value
/// less the host clock.
pub open spec fn stores(before: Registers, port: u16, value: u32, after: Registers) -> bool {
    if port == PORT_MATCH {
        after == (Registers { mr: value, ..before })
    } else if port == PORT_LOAD {
        &&& after == (Registers { lr: value, offset: after.offset, ..before })
        &&& exists|now: u32| after.offset == seed_offset(value, now)
    } else if port == PORT_CONTROL {
        if value == 1 {
            after == (Registers { lr: 0, offset: 0, ..before })
        } else {
            after == before
        }
    } else if port == PORT_MASK {
        after == (Registers { imsc: value & 1, ..before })
    } else if port == PORT_CLEAR {
        after == (Registers { ris: before.ris & !value, ..before })
    } else {
        after == before
    }
}

/// A PL031 register machine: `vm_superio`'s `Rtc` with its no-op event
/// sink. Its fields are hidden; what it stores is `registers_of`.
#[verifier::external_body]
pub struct RegisterMachine {
    inner: Rtc<NoEvents>,
}

/// What a machine stores: the value that `Rtc::state` reports.
pub uninterp spec fn registers_of(machine: RegisterMachine) -> Registers;

/// `Rtc::with_events`: a machine with every register zero.
#[verifier::external_body]
pub(crate) fn machine_new() -> (machine: RegisterMachine)
    ensures
        registers_of(machine) == reset_registers(),
{
    RegisterMachine { inner: Rtc::with_events(NoEvents) }
}

/// `Rtc::state`: a copy of what the machine stores, field by field.
#[verifier::external_body]
pub(crate) fn machine_registers(machine: &RegisterMachine) -> (registers: Registers)
    ensures
        registers == registers_of(*machine),
{
    let state: RtcState = machine.inner.state();
    Registers {
        lr: state.lr,
        offset: state.offset,
        mr: state.mr,
        imsc: state.imsc,
        ris: state.ris,
    }
}

/// `Rtc::read`: a load changes no register. From a readable port it fills
/// `data` with the little-endian bytes of a value that the port loads; from
/// any other port it leaves `data` as it was.
///
/// A load from the data register reads the host clock, and does not return
/// if that clock stands before 1970.
#[verifier::external_body]
pub(crate) fn machine_load(machine: &mut RegisterMachine, port: u16, data: &mut [u8; 4])
    ensures
        registers_of(*final(machine)) == registers_of(*old(machine)),
        port_readable(port) ==> loads(registers_of(*old(machine)), port, le_value(final(data)@)),
        !port_readable(port) ==> *final(data) == *old(data),
{
    machine.inner.read(port, data)
}

/// `Rtc::write`: a store of the little-endian value of `data` changes the
/// registers as `stores` says, and nothing on a port that takes no store.
///
/// A store to the load register reads the host clock, and does not return
/// if that clock stands before 1970.
#[verifier::external_body]
pub(crate) fn machine_store(machine: &mut RegisterMachine, port: u16, data: &[u8; 4])
    ensures
        stores(
            registers_of(*old(machine)),
            port,
            le_value(data@),
            registers_of(*final(machine)),
        ),
{
    machine.inner.write(port, data)
}

} // verus!
