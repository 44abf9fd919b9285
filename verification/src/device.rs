//! The device: a register machine and its metrics behind the access
//! adapter that the bus calls.

use vstd::prelude::*;
use crate::machine::{
    counter_at, identification_bytes, machine_load, machine_new, machine_registers,
    machine_store, registers_of, reset_registers, seed_offset, RegisterMachine, Registers,
    PORT_CLEAR, PORT_CONTROL, PORT_DATA, PORT_ID_LOW, PORT_LOAD, PORT_MASK, PORT_MASKED,
    PORT_MATCH, PORT_RAW,
};
use crate::metrics::{Counters, RTCDeviceMetrics};
use crate::registers::{
    decode, le_bytes, le_value, lemma_le_value_of_bytes, read_le_u32, register_at, write_le_u32,
    Register,
};

verus! {

/// `value` is what a read of a readable register may return, with the
/// registers as they are. Only the load register leaves a choice: it shows
/// the counter, which follows the host clock.
pub open spec fn reads(registers: Registers, register: Register, value: u32) -> bool {
    match register {
        Register::Load => exists|now: u32| value == counter_at(now, registers.offset),
        Register::Match => value == registers.mr,
        Register::Control => value == 1,
        Register::InterruptMask => value == registers.imsc,
        Register::RawStatus => value == registers.ris,
        Register::MaskedStatus => value == registers.ris & registers.imsc,
        Register::Identification(index) => value == identification_bytes()[index as int],
        Register::InterruptClear => false,
    }
}

/// `after` is what a write of `value` to a writable register may make of
/// `before`. Only the load register leaves a choice: the offset it records
/// is the value less the host clock. The control register is a latch that
/// is set from the start, so a write to it changes nothing; a write to the
/// interrupt clear register clears the raw status whatever the value.
pub open spec fn writes(before: Registers, register: Register, value: u32, after: Registers) -> bool {
    match register {
        Register::Load => {
            &&& after == (Registers { lr: value, offset: after.offset, ..before })
            &&& exists|now: u32| after.offset == seed_offset(value, now)
        },
        Register::Match => after == (Registers { mr: value, ..before }),
        Register::Control => after == before,
        Register::InterruptMask => after == (Registers { imsc: value & 1, ..before }),
        Register::InterruptClear => after == (Registers { ris: 0, ..before }),
        Register::RawStatus | Register::MaskedStatus | Register::Identification(_) => after
            == before,
    }
}

/// The word that names every raw interrupt.
pub const CLEAR_ALL: u32 = 0xffff_ffff;

/// Whether the interrupt line is asserted: some raw interrupt is unmasked.
pub open spec fn interrupt_asserted(registers: Registers) -> bool {
    registers.ris & registers.imsc != 0
}

/// The machine port that serves a read of a register. The load register
/// reads as the running counter, which the machine keeps at its data port.
pub open spec fn load_port(register: Register) -> u16 {
    match register {
        Register::Load => PORT_DATA,
        Register::Match => PORT_MATCH,
        Register::Control => PORT_CONTROL,
        Register::InterruptMask => PORT_MASK,
        Register::RawStatus => PORT_RAW,
        Register::MaskedStatus => PORT_MASKED,
        Register::InterruptClear => PORT_CLEAR,
        Register::Identification(index) => (PORT_ID_LOW + 4 * index) as u16,
    }
}

/// The machine port that takes a write to a register, if the write is
/// handed on at all. A write to the load register goes to the machine's
/// load port, which seeds the counter. A write to the control register is
/// not handed on: the machine would take a one there as a reset of the
/// counter, and the latch has nothing left to set.
pub open spec fn store_port(register: Register) -> Option<u16> {
    match register {
        Register::Load => Some(PORT_LOAD),
        Register::Control => None,
        _ => Some(load_port(register)),
    }
}

/// The word that the machine is handed for a write of `value`. The machine
/// clears the raw interrupts that the word names, so a write to the
/// interrupt clear register names them all.
pub open spec fn store_word(register: Register, value: u32) -> u32 {
    match register {
        Register::InterruptClear => CLEAR_ALL,
        _ => value,
    }
}

fn port_for_load(register: Register) -> (port: u16)
    ensures
        port == load_port(register),
{
    match register {
        Register::Load => PORT_DATA,
        Register::Match => PORT_MATCH,
        Register::Control => PORT_CONTROL,
        Register::InterruptMask => PORT_MASK,
        Register::RawStatus => PORT_RAW,
        Register::MaskedStatus => PORT_MASKED,
        Register::InterruptClear => PORT_CLEAR,
        Register::Identification(index) => {
            let step: u16 = index as u16;
            PORT_ID_LOW + 4 * step
        },
    }
}

fn port_for_store(register: Register) -> (port: Option<u16>)
    ensures
        port == store_port(register),
{
    match register {
        Register::Load => Some(PORT_LOAD),
        Register::Control => None,
        _ => Some(port_for_load(register)),
    }
}

fn word_for_store(register: Register, value: u32) -> (word: u32)
    ensures
        word == store_word(register, value),
{
    match register {
        Register::InterruptClear => CLEAR_ALL,
        _ => value,
    }
}

/// What a device is, to its contracts: the registers of its machine and
/// its three counts.
#[derive(Clone, Copy, Debug, PartialEq, Eq, Structural)]
pub struct DeviceState {
    /// The registers of the machine.
    pub registers: Registers,
    /// The counts of invalid accesses.
    pub counters: Counters,
}

impl DeviceState {
    /// The state after an invalid read: one more in two counts.
    pub open spec fn after_invalid_read(self) -> DeviceState {
        DeviceState { registers: self.registers, counters: self.counters.after_invalid_read() }
    }

    /// The state after an invalid write: one more in two counts.
    pub open spec fn after_invalid_write(self) -> DeviceState {
        DeviceState { registers: self.registers, counters: self.counters.after_invalid_write() }
    }
}

/// The register that a read of `len` bytes at `offset` is served from, if
/// the access is valid: four bytes wide, at the offset of a readable
/// register.
pub open spec fn read_target(offset: u64, len: nat) -> Option<Register> {
    if len == 4 && register_at(offset) is Some && register_at(offset)->0.readable() {
        register_at(offset)
    } else {
        None
    }
}

/// The register that a write of `len` bytes at `offset` goes to, if the
/// access is valid: four bytes wide, at the offset of a writable register.
pub open spec fn write_target(offset: u64, len: nat) -> Option<Register> {
    if len == 4 && register_at(offset) is Some && register_at(offset)->0.writable() {
        register_at(offset)
    } else {
        None
    }
}

/// One read access, from the state and buffer before it to those after it.
/// A valid read leaves the state alone and fills the buffer with the
/// little-endian bytes of what the register reads as. An invalid one
/// leaves the buffer alone and is counted.
pub open spec fn read_step(
    before: DeviceState,
    offset: u64,
    data_before: Seq<u8>,
    after: DeviceState,
    data_after: Seq<u8>,
) -> bool {
    match read_target(offset, data_before.len()) {
        Some(register) => {
            &&& after == before
            &&& data_after.len() == 4
            &&& reads(before.registers, register, le_value(data_after))
        },
        None => {
            &&& after == before.after_invalid_read()
            &&& data_after == data_before
        },
    }
}

/// One write access, from the state before it to the state after it. A
/// valid write changes the registers as the register's rule says, by the
/// little-endian value of the data, and no count. An invalid one changes
/// no register and is counted.
pub open spec fn write_step(before: DeviceState, offset: u64, data: Seq<u8>, after: DeviceState) -> bool {
    match write_target(offset, data.len()) {
        Some(register) => {
            &&& after.counters == before.counters
            &&& writes(before.registers, register, le_value(data), after.registers)
        },
        None => after == before.after_invalid_write(),
    }
}

/// A PL031 real-time clock on the bus.
pub struct RTCDevice {
    /// The register machine.
    pub rtc: RegisterMachine,
    /// The counts of invalid accesses.
    pub metrics: RTCDeviceMetrics,
}

impl View for RTCDevice {
    type V = DeviceState;

    open spec fn view(&self) -> DeviceState {
        DeviceState { registers: registers_of(self.rtc), counters: self.metrics@ }
    }
}

impl RTCDevice {
    /// A device with every register and every count at zero.
    pub fn new() -> (device: Self)
        ensures
            device@ == (DeviceState {
                registers: reset_registers(),
                counters: Counters { errors: 0, missed_reads: 0, missed_writes: 0 },
            }),
    {
        let metrics = RTCDeviceMetrics::default();
        RTCDevice { rtc: machine_new(), metrics }
    }

    /// What the machine stores at this moment.
    pub fn registers(&self) -> (registers: Registers)
        ensures
            registers == self@.registers,
    {
        machine_registers(&self.rtc)
    }

    /// Whether the interrupt line is asserted at this moment.
    pub fn interrupt_line(&self) -> (asserted: bool)
        ensures
            asserted == interrupt_asserted(self@.registers),
    {
        let registers = machine_registers(&self.rtc);
        registers.ris & registers.imsc != 0
    }

    /// Reads a register. A readable register gives a value that it reads
    /// as, and the device stays as it was; any other is counted as an
    /// invalid read and gives nothing.
    pub fn register_read(&mut self, register: Register) -> (value: Option<u32>)
        ensures
            register.readable() ==> value is Some && reads(
                old(self)@.registers,
                register,
                value->0,
            ) && final(self)@ == old(self)@,
            !register.readable() ==> value is None && final(self)@ == old(
                self,
            )@.after_invalid_read(),
    {
        if register.is_readable() {
            let port = port_for_load(register);
            let mut word: [u8; 4] = [0u8; 4];
            machine_load(&mut self.rtc, port, &mut word);
            Some(read_le_u32(&word))
        } else {
            self.metrics.invalid_read();
            None
        }
    }

    /// Writes a register. A writable register changes as its rule says and
    /// no count does; any other is counted as an invalid write and changes
    /// nothing else.
    pub fn register_write(&mut self, register: Register, value: u32)
        ensures
            register.writable() ==> writes(
                old(self)@.registers,
                register,
                value,
                final(self)@.registers,
            ) && final(self)@.counters == old(self)@.counters,
            !register.writable() ==> final(self)@ == old(self)@.after_invalid_write(),
    {
        if register.is_writable() {
            match port_for_store(register) {
                Some(port) => {
                    let stored = word_for_store(register, value);
                    let word = write_le_u32(stored);
                    proof {
                        lemma_le_value_of_bytes(stored);
                        let raw = old(self)@.registers.ris;
                        assert(raw & !CLEAR_ALL == 0) by (bit_vector);
                    }
                    machine_store(&mut self.rtc, port, &word);
                },
                None => {},
            }
        } else {
            self.metrics.invalid_write();
        }
    }

    /// Serves a guest load of `data.len()` bytes at `offset` from the
    /// device's base.
    pub fn read(&mut self, offset: u64, data: &mut [u8])
        ensures
            read_step(old(self)@, offset, old(data)@, final(self)@, final(data)@),
    {
        if data.len() == 4 {
            match decode(offset) {
                Some(register) => {
                    match self.register_read(register) {
                        Some(value) => {
                            let word = write_le_u32(value);
                            data[0] = word[0];
                            data[1] = word[1];
                            data[2] = word[2];
                            data[3] = word[3];
                            proof {
                                lemma_le_value_of_bytes(value);
                                assert(data@ =~= le_bytes(value));
                            }
                        },
                        None => {},
                    }
                },
                None => {
                    self.metrics.invalid_read();
                },
            }
        } else {
            self.metrics.invalid_read();
        }
    }

    /// Takes a guest store of `data.len()` bytes at `offset` from the
    /// device's base.
    pub fn write(&mut self, offset: u64, data: &[u8])
        ensures
            write_step(old(self)@, offset, data@, final(self)@),
    {
        if data.len() == 4 {
            match decode(offset) {
                Some(register) => {
                    let word: [u8; 4] = [data[0], data[1], data[2], data[3]];
                    assert(word@ =~= data@);
                    self.register_write(register, read_le_u32(&word));
                },
                None => {
                    self.metrics.invalid_write();
                },
            }
        } else {
            self.metrics.invalid_write();
        }
    }
}

} // verus!
