//! What the operations do to the device.
//!
//! The device is taken to be a file of 256 byte-wide registers that stores
//! what is written to a register and answers a read with the contents of the
//! register asked for and of those behind it. Against such a device, and as
//! long as the bus does not fail, an exchange run to its end has the effect
//! that [`Operation::effect`] states outright: which registers change, to
//! what, and what the operation yields.

use vstd::prelude::*;
use crate::codec::{als_value, hrs_value, switched};
use crate::exchange::{Operation, Output, Progress, Request};
use crate::register::{
    ALS_RES,
    C0DATAH,
    C0DATAL,
    C0DATAM,
    C1DATAH,
    C1DATAL,
    C1DATAM,
    ENABLE,
    GAIN,
    HEN,
    HGAIN,
    HWT,
    ID,
    OSC,
    PDRIVE0,
    PDRIVE1,
    PDRIVER,
    RESOLUTION,
};
use crate::types::Gain;

verus! {

/// A register file: the contents of the register at address `a` stand at
/// index `a`.
pub open spec fn is_register_file(registers: Seq<u8>) -> bool {
    registers.len() == 256
}

impl Request {
    /// The registers after the device took this request.
    pub open spec fn stored(self, registers: Seq<u8>) -> Seq<u8> {
        match self {
            Request::Write { register, value } => registers.update(register as int, value),
            Request::Read { .. } => registers,
        }
    }

    /// The bytes that the device sends in answer to this request.
    pub open spec fn fetched(self, registers: Seq<u8>) -> Seq<u8> {
        match self {
            Request::Write { .. } => Seq::empty(),
            Request::Read { register, count } => registers.subrange(
                register as int,
                register + count,
            ),
        }
    }
}

impl Progress {
    /// The rest of this exchange, run on a device with these registers: the
    /// registers at the end, and what the operation yields.
    pub open spec fn run(self, registers: Seq<u8>) -> (Seq<u8>, Output)
        decreases self.op.length() - self.done,
    {
        if self.complete() {
            (registers, self.op.output(self.input))
        } else {
            self.after(self.request().fetched(registers)).run(self.request().stored(registers))
        }
    }
}

impl Operation {
    /// What this operation does to a device with these registers: the
    /// registers afterwards, and what the operation yields.
    pub open spec fn effect(self, registers: Seq<u8>) -> (Seq<u8>, Output) {
        match self {
            Operation::Init => (
                registers.update(ENABLE as int, 0x68).update(PDRIVER as int, 0x0E).update(
                    RESOLUTION as int,
                    0x66,
                ).update(HGAIN as int, 0x0D),
                Output::Done,
            ),
            Operation::EnableHrs => (
                registers.update(ENABLE as int, switched(registers[ENABLE as int], HEN, true)),
                Output::Done,
            ),
            Operation::DisableHrs => (
                registers.update(ENABLE as int, switched(registers[ENABLE as int], HEN, false)),
                Output::Done,
            ),
            Operation::EnableOscillator => (
                registers.update(PDRIVER as int, switched(registers[PDRIVER as int], OSC, true)),
                Output::Done,
            ),
            Operation::DisableOscillator => (
                registers.update(PDRIVER as int, switched(registers[PDRIVER as int], OSC, false)),
                Output::Done,
            ),
            Operation::SetConversionDelay(delay) => (
                registers.update(ENABLE as int, delay.applied(registers[ENABLE as int])),
                Output::Done,
            ),
            Operation::SetGain(gain) => (
                registers.update(HGAIN as int, gain.applied(registers[HGAIN as int])),
                Output::Done,
            ),
            Operation::SetAlsResolution(resolution) => (
                registers.update(
                    RESOLUTION as int,
                    resolution.applied(registers[RESOLUTION as int]),
                ),
                Output::Done,
            ),
            Operation::SetLedCurrent(current) => (
                registers.update(
                    ENABLE as int,
                    current.applied_to_enable(registers[ENABLE as int]),
                ).update(PDRIVER as int, current.applied_to_pdriver(registers[PDRIVER as int])),
                Output::Done,
            ),
            Operation::DeviceId => (registers, Output::Byte(registers[ID as int])),
            Operation::ReadHrs => (
                registers,
                Output::Reading(
                    hrs_value(
                        registers[C0DATAM as int],
                        registers[C0DATAH as int],
                        registers[C0DATAL as int],
                    ),
                ),
            ),
            Operation::ReadAls => (
                registers,
                Output::Reading(
                    als_value(
                        registers[C1DATAM as int],
                        registers[C1DATAH as int],
                        registers[C1DATAL as int],
                    ),
                ),
            ),
            Operation::WriteRegister { register, value } => (
                registers.update(register as int, value),
                Output::Done,
            ),
            Operation::ReadRegister { register } => (
                registers,
                Output::Byte(registers[register as int]),
            ),
        }
    }

    /// The bits of the register at `register` that this operation is there to
    /// set: the field of a setting in its register, all of a register that is
    /// written outright, nothing of any other.
    pub open spec fn field(self, register: u8) -> u8 {
        match self {
            Operation::Init => if register == ENABLE || register == PDRIVER || register
                == RESOLUTION || register == HGAIN {
                0xFF
            } else {
                0
            },
            Operation::EnableHrs | Operation::DisableHrs => if register == ENABLE {
                HEN
            } else {
                0
            },
            Operation::EnableOscillator | Operation::DisableOscillator => if register == PDRIVER {
                OSC
            } else {
                0
            },
            Operation::SetConversionDelay(_) => if register == ENABLE {
                HWT
            } else {
                0
            },
            Operation::SetGain(_) => if register == HGAIN {
                GAIN
            } else {
                0
            },
            Operation::SetAlsResolution(_) => if register == RESOLUTION {
                ALS_RES
            } else {
                0
            },
            Operation::SetLedCurrent(_) => if register == ENABLE {
                PDRIVE1
            } else if register == PDRIVER {
                PDRIVE0
            } else {
                0
            },
            Operation::WriteRegister { register: written, .. } => if register == written {
                0xFF
            } else {
                0
            },
            _ => 0,
        }
    }
}

/// Run from its start on a device whose bus does not fail, every operation
/// has the effect that [`Operation::effect`] states.
pub proof fn lemma_run_effect(op: Operation, registers: Seq<u8>)
    requires
        is_register_file(registers),
    ensures
        Progress::start(op).run(registers) == op.effect(registers),
{
    reveal_with_fuel(Progress::run, 6);
    let start = Progress::start(op);
    let first = start.request();
    let second = start.after(first.fetched(registers));
    assert(second.input =~= first.fetched(registers));
    if op.length() > 1 {
        let third = second.after(second.request().fetched(first.stored(registers)));
        assert(third.input =~= second.input + second.request().fetched(first.stored(registers)));
    }
}

/// An operation changes no bit outside the fields it is there to set: every
/// other bit of every register is afterwards what it was before.
///
/// The gain `SixtyFour` is left out: its field value does not fit the two
/// bits of the gain field, and [`lemma_gain_sixty_four`] says what it does.
pub proof fn lemma_other_bits_kept(op: Operation, registers: Seq<u8>, register: u8)
    requires
        is_register_file(registers),
        op != Operation::SetGain(Gain::SixtyFour),
    ensures
        op.effect(registers).0.len() == 256,
        op.effect(registers).0[register as int] & !op.field(register) == registers[register as int]
            & !op.field(register),
{
    assert(0u8 & !0xFFu8 == 0 && forall|a: u8, b: u8| a & !0xFFu8 == b & !0xFFu8) by (bit_vector);
    assert(forall|a: u8, m: u8|
        (a | m) & !m == a & !m && (a & !m) & !m == a & !m && a & !0u8 == a) by (bit_vector);
    assert(forall|a: u8, v: u8|
        v <= 7 ==> #[trigger] ((a & !0x70u8) | (v << 4u8)) & !0x70u8 == a & !0x70u8)
        by (bit_vector);
    assert(forall|a: u8, v: u8|
        v <= 3 ==> #[trigger] ((a & !0x0Cu8) | (v << 2u8)) & !0x0Cu8 == a & !0x0Cu8)
        by (bit_vector);
    assert(forall|a: u8, v: u8|
        v <= 10 ==> #[trigger] ((a & !0x0Fu8) | (v << 0u8)) & !0x0Fu8 == a & !0x0Fu8)
        by (bit_vector);
    assert(forall|a: u8, v: u8|
        v <= 3 ==> #[trigger] ((a & !0x08u8) | ((v >> 1u8) << 3u8)) & !0x08u8 == a & !0x08u8)
        by (bit_vector);
    assert(forall|a: u8, v: u8|
        #[trigger] ((a & !0x40u8) | ((v & 1u8) << 6u8)) & !0x40u8 == a & !0x40u8) by (bit_vector);
}

/// The gain `SixtyFour` clears bits 2 and 3 of `HGAIN`, sets bit 4, and
/// changes nothing else, there or in any other register.
pub proof fn lemma_gain_sixty_four(registers: Seq<u8>, register: u8)
    requires
        is_register_file(registers),
    ensures
        ({
            let after = Operation::SetGain(Gain::SixtyFour).effect(registers).0;
            &&& after.len() == 256
            &&& register != HGAIN ==> after[register as int] == registers[register as int]
            &&& after[HGAIN as int] & 0x1C == 0x10
            &&& after[HGAIN as int] & !0x1C == registers[HGAIN as int] & !0x1C
        }),
{
    assert(forall|a: u8|
        #[trigger] ((a & !0x0Cu8) | (4u8 << 2u8)) & 0x1C == 0x10 && ((a & !0x0Cu8) | (4u8 << 2u8))
            & !0x1Cu8 == a & !0x1Cu8) by (bit_vector);
}

} // verus!
