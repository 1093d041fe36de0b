//! Bus address, register addresses and bit masks of the HRS3300.

use vstd::prelude::*;

verus! {

/// Seven-bit bus address of the device.
pub const DEV_ADDR: u8 = 0x44;

/// Device identifier register.
pub const ID: u8 = 0x00;

/// Enable register: HRS enable, conversion delay and the upper LED drive bit.
pub const ENABLE: u8 = 0x01;

/// Ambient-light data, bits 3 to 10 of the reading.
pub const C1DATAM: u8 = 0x08;

/// Heart-rate data, bits 8 to 15 of the reading.
pub const C0DATAM: u8 = 0x09;

/// Heart-rate data, bits 4 to 7 of the reading.
pub const C0DATAH: u8 = 0x0A;

/// LED driver register: oscillator enable and the lower LED drive bit.
pub const PDRIVER: u8 = 0x0C;

/// Ambient-light data, bits 11 to 16 of the reading.
pub const C1DATAH: u8 = 0x0D;

/// Ambient-light data, bits 0 to 2 of the reading.
pub const C1DATAL: u8 = 0x0E;

/// Heart-rate data, bits 0 to 3 and 16 to 17 of the reading.
pub const C0DATAL: u8 = 0x0F;

/// Ambient-light resolution register.
pub const RESOLUTION: u8 = 0x16;

/// Gain register.
pub const HGAIN: u8 = 0x17;

/// `ENABLE`: heart-rate sensing on.
pub const HEN: u8 = 0x80;

/// `ENABLE`: conversion delay, bits 4 to 6.
pub const HWT: u8 = 0x70;

/// `ENABLE`: upper bit of the LED drive current.
pub const PDRIVE1: u8 = 0x08;

/// `PDRIVER`: lower bit of the LED drive current.
pub const PDRIVE0: u8 = 0x40;

/// `PDRIVER`: oscillator on.
pub const OSC: u8 = 0x20;

/// `RESOLUTION`: ambient-light resolution, bits 0 to 3.
pub const ALS_RES: u8 = 0x0F;

/// `HGAIN`: gain, bits 2 to 3.
pub const GAIN: u8 = 0x0C;

} // verus!
