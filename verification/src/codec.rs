//! The register codec: pure bit arithmetic, no bus traffic.
//!
//! Every setting is a field: a run of bits at a fixed place in one control
//! register. Changing a setting means replacing that run in the register's
//! current byte and leaving the rest of the byte alone. A measurement is the
//! reverse: a number put together from pieces of three data bytes, each piece
//! at its own place.

use vstd::prelude::*;
use crate::register::{ALS_RES, GAIN, HWT, PDRIVE0, PDRIVE1};
use crate::types::{AlsResolution, ConversionDelay, Gain, LedCurrent};

verus! {

/// The byte `current` with the bits under `mask` cleared and `bits`, moved up
/// by `shift` places, put in instead.
pub open spec fn replace_field(current: u8, mask: u8, shift: u8, bits: u8) -> u8 {
    (current & !mask) | (bits << shift)
}

/// The byte `current` with the bits under `mask` all set (`on`) or all
/// cleared.
pub open spec fn switched(current: u8, mask: u8, on: bool) -> u8 {
    if on {
        current | mask
    } else {
        current & !mask
    }
}

/// Sets or clears the bits of `current` that lie under `mask`.
pub fn switch(current: u8, mask: u8, on: bool) -> (byte: u8)
    ensures
        byte == switched(current, mask, on),
        byte & !mask == current & !mask,
        byte & mask == if on { mask } else { 0 },
{
    assert((current | mask) & !mask == current & !mask && (current & !mask) & !mask == current
        & !mask && (current | mask) & mask == mask && (current & !mask) & mask == 0)
        by (bit_vector);
    if on {
        current | mask
    } else {
        current & !mask
    }
}

impl ConversionDelay {
    /// The value that stands for this delay in bits 4 to 6 of `ENABLE`.
    pub open spec fn field_value(self) -> u8 {
        match self {
            ConversionDelay::Ms800 => 0,
            ConversionDelay::Ms400 => 1,
            ConversionDelay::Ms200 => 2,
            ConversionDelay::Ms100 => 3,
            ConversionDelay::Ms75 => 4,
            ConversionDelay::Ms50 => 5,
            ConversionDelay::Ms12_5 => 6,
            ConversionDelay::Ms0 => 7,
        }
    }

    /// The `ENABLE` byte `enable` with this delay in its field.
    pub open spec fn applied(self, enable: u8) -> u8 {
        replace_field(enable, HWT, 4, self.field_value())
    }

    /// The field value of this delay.
    pub fn field_bits(self) -> (bits: u8)
        ensures
            bits == self.field_value(),
            bits <= 7,
    {
        match self {
            ConversionDelay::Ms800 => 0,
            ConversionDelay::Ms400 => 1,
            ConversionDelay::Ms200 => 2,
            ConversionDelay::Ms100 => 3,
            ConversionDelay::Ms75 => 4,
            ConversionDelay::Ms50 => 5,
            ConversionDelay::Ms12_5 => 6,
            ConversionDelay::Ms0 => 7,
        }
    }

    /// Puts this delay into the `ENABLE` byte `enable`.
    pub fn apply(self, enable: u8) -> (byte: u8)
        ensures
            byte == self.applied(enable),
            byte & !HWT == enable & !HWT,
            (byte & HWT) >> 4 == self.field_value(),
    {
        let bits = self.field_bits();
        let byte = (enable & !HWT) | (bits << 4);
        assert(((enable & !0x70u8) | (bits << 4u8)) & !0x70u8 == enable & !0x70u8 && (((enable
            & !0x70u8) | (bits << 4u8)) & 0x70u8) >> 4u8 == bits) by (bit_vector)
            requires
                bits <= 7,
        ;
        byte
    }
}

impl Gain {
    /// The value that stands for this gain in the gain field of `HGAIN`.
    pub open spec fn field_value(self) -> u8 {
        match self {
            Gain::One => 0,
            Gain::Two => 1,
            Gain::Four => 2,
            Gain::Eight => 3,
            Gain::SixtyFour => 4,
        }
    }

    /// The `HGAIN` byte `hgain` with this gain put in.
    ///
    /// The field value is placed from bit 2 upwards after bits 2 and 3 were
    /// cleared. The value of `SixtyFour` is a bit wider than those two: it
    /// clears both and sets bit 4.
    pub open spec fn applied(self, hgain: u8) -> u8 {
        replace_field(hgain, GAIN, 2, self.field_value())
    }

    /// The field value of this gain.
    pub fn field_bits(self) -> (bits: u8)
        ensures
            bits == self.field_value(),
            bits <= 4,
    {
        match self {
            Gain::One => 0,
            Gain::Two => 1,
            Gain::Four => 2,
            Gain::Eight => 3,
            Gain::SixtyFour => 4,
        }
    }

    /// Puts this gain into the `HGAIN` byte `hgain`.
    pub fn apply(self, hgain: u8) -> (byte: u8)
        ensures
            byte == self.applied(hgain),
            byte & !(GAIN | 0x10) == hgain & !(GAIN | 0x10),
            self != Gain::SixtyFour ==> byte & !GAIN == hgain & !GAIN,
            self != Gain::SixtyFour ==> (byte & GAIN) >> 2 == self.field_value(),
            self == Gain::SixtyFour ==> byte & (GAIN | 0x10) == 0x10,
    {
        let bits = self.field_bits();
        let byte = (hgain & !GAIN) | (bits << 2);
        assert({
            let b = (hgain & !0x0Cu8) | (bits << 2u8);
            &&& b & !(0x0Cu8 | 0x10) == hgain & !(0x0Cu8 | 0x10)
            &&& bits <= 3 ==> b & !0x0Cu8 == hgain & !0x0Cu8 && (b & 0x0Cu8) >> 2u8 == bits
            &&& bits == 4 ==> b & (0x0Cu8 | 0x10) == 0x10
        }) by (bit_vector)
            requires
                bits <= 4,
        ;
        byte
    }
}

impl AlsResolution {
    /// The value that stands for this resolution in bits 0 to 3 of
    /// `RESOLUTION`: the number of bits above eight.
    pub open spec fn field_value(self) -> u8 {
        match self {
            AlsResolution::Bit8 => 0,
            AlsResolution::Bit9 => 1,
            AlsResolution::Bit10 => 2,
            AlsResolution::Bit11 => 3,
            AlsResolution::Bit12 => 4,
            AlsResolution::Bit13 => 5,
            AlsResolution::Bit14 => 6,
            AlsResolution::Bit15 => 7,
            AlsResolution::Bit16 => 8,
            AlsResolution::Bit17 => 9,
            AlsResolution::Bit18 => 10,
        }
    }

    /// The `RESOLUTION` byte `resolution` with this resolution in its field.
    pub open spec fn applied(self, resolution: u8) -> u8 {
        replace_field(resolution, ALS_RES, 0, self.field_value())
    }

    /// The field value of this resolution.
    pub fn field_bits(self) -> (bits: u8)
        ensures
            bits == self.field_value(),
            bits <= 10,
    {
        match self {
            AlsResolution::Bit8 => 0,
            AlsResolution::Bit9 => 1,
            AlsResolution::Bit10 => 2,
            AlsResolution::Bit11 => 3,
            AlsResolution::Bit12 => 4,
            AlsResolution::Bit13 => 5,
            AlsResolution::Bit14 => 6,
            AlsResolution::Bit15 => 7,
            AlsResolution::Bit16 => 8,
            AlsResolution::Bit17 => 9,
            AlsResolution::Bit18 => 10,
        }
    }

    /// Puts this resolution into the `RESOLUTION` byte `resolution`.
    pub fn apply(self, resolution: u8) -> (byte: u8)
        ensures
            byte == self.applied(resolution),
            byte & !ALS_RES == resolution & !ALS_RES,
            byte & ALS_RES == self.field_value(),
    {
        let bits = self.field_bits();
        let byte = (resolution & !ALS_RES) | bits;
        assert({
            let b = (resolution & !0x0Fu8) | bits;
            &&& b == (resolution & !0x0Fu8) | (bits << 0u8)
            &&& b & !0x0Fu8 == resolution & !0x0Fu8
            &&& b & 0x0Fu8 == bits
        }) by (bit_vector)
            requires
                bits <= 10,
        ;
        byte
    }
}

impl LedCurrent {
    /// The two-bit value that stands for this current. Its upper bit is kept
    /// in `ENABLE` and its lower bit in `PDRIVER`.
    pub open spec fn field_value(self) -> u8 {
        match self {
            LedCurrent::Ma12_5 => 0,
            LedCurrent::Ma20 => 1,
            LedCurrent::Ma30 => 2,
            LedCurrent::Ma40 => 3,
        }
    }

    /// The `ENABLE` byte `enable` with the upper bit of this current in bit 3.
    pub open spec fn applied_to_enable(self, enable: u8) -> u8 {
        replace_field(enable, PDRIVE1, 3, self.field_value() >> 1)
    }

    /// The `PDRIVER` byte `pdriver` with the lower bit of this current in
    /// bit 6.
    pub open spec fn applied_to_pdriver(self, pdriver: u8) -> u8 {
        replace_field(pdriver, PDRIVE0, 6, self.field_value() & 1)
    }

    /// The field value of this current.
    pub fn field_bits(self) -> (bits: u8)
        ensures
            bits == self.field_value(),
            bits <= 3,
    {
        match self {
            LedCurrent::Ma12_5 => 0,
            LedCurrent::Ma20 => 1,
            LedCurrent::Ma30 => 2,
            LedCurrent::Ma40 => 3,
        }
    }

    /// Puts the upper bit of this current into the `ENABLE` byte `enable`.
    pub fn apply_to_enable(self, enable: u8) -> (byte: u8)
        ensures
            byte == self.applied_to_enable(enable),
            byte & !PDRIVE1 == enable & !PDRIVE1,
            (byte & PDRIVE1) >> 3 == self.field_value() >> 1,
    {
        let bits = self.field_bits();
        let byte = (enable & !PDRIVE1) | ((bits >> 1) << 3);
        assert({
            let b = (enable & !0x08u8) | ((bits >> 1u8) << 3u8);
            b & !0x08u8 == enable & !0x08u8 && (b & 0x08u8) >> 3u8 == bits >> 1u8
        }) by (bit_vector)
            requires
                bits <= 3,
        ;
        byte
    }

    /// Puts the lower bit of this current into the `PDRIVER` byte `pdriver`.
    pub fn apply_to_pdriver(self, pdriver: u8) -> (byte: u8)
        ensures
            byte == self.applied_to_pdriver(pdriver),
            byte & !PDRIVE0 == pdriver & !PDRIVE0,
            (byte & PDRIVE0) >> 6 == self.field_value() & 1,
    {
        let bits = self.field_bits();
        let byte = (pdriver & !PDRIVE0) | ((bits & 1) << 6);
        assert({
            let b = (pdriver & !0x40u8) | ((bits & 1u8) << 6u8);
            b & !0x40u8 == pdriver & !0x40u8 && (b & 0x40u8) >> 6u8 == bits & 1u8
        }) by (bit_vector);
        byte
    }
}

/// The heart-rate reading held by the three data bytes `c0datam`, `c0datah`
/// and `c0datal`, named after their registers.
///
/// Bits 0 to 3 of the reading are the low nibble of `c0datal`, bits 4 to 7 the
/// low nibble of `c0datah`, bits 8 to 15 all of `c0datam`, and bits 16 and 17
/// are bits 4 and 5 of `c0datal`.
pub open spec fn hrs_value(c0datam: u8, c0datah: u8, c0datal: u8) -> u32 {
    ((c0datal & 0x0F) as u32) | (((c0datah & 0x0F) as u32) << 4) | ((c0datam as u32) << 8) | (((
    c0datal & 0x30) as u32) << 12)
}

/// The ambient-light reading held by the three data bytes `c1datam`,
/// `c1datah` and `c1datal`, named after their registers.
///
/// Bits 0 to 2 of the reading are the low three bits of `c1datal`, bits 3 to
/// 10 all of `c1datam`, and bits 11 to 16 the low six bits of `c1datah`.
pub open spec fn als_value(c1datam: u8, c1datah: u8, c1datal: u8) -> u32 {
    ((c1datal & 0x07) as u32) | ((c1datam as u32) << 3) | (((c1datah & 0x3F) as u32) << 11)
}

/// Puts the heart-rate reading together from its three data bytes.
pub fn decode_hrs(c0datam: u8, c0datah: u8, c0datal: u8) -> (value: u32)
    ensures
        value == hrs_value(c0datam, c0datah, c0datal),
        value & 0x0F == c0datal & 0x0F,
        (value >> 4) & 0x0F == c0datah & 0x0F,
        (value >> 8) & 0xFF == c0datam,
        value >> 16 == (c0datal >> 4) & 0x03,
        value < 0x4_0000,
{
    let value = ((c0datal & 0x0F) as u32) | (((c0datah & 0x0F) as u32) << 4) | ((c0datam as u32)
        << 8) | (((c0datal & 0x30) as u32) << 12);
    proof {
        lemma_hrs_value_places(c0datam, c0datah, c0datal);
    }
    value
}

/// Puts the ambient-light reading together from its three data bytes.
pub fn decode_als(c1datam: u8, c1datah: u8, c1datal: u8) -> (value: u32)
    ensures
        value == als_value(c1datam, c1datah, c1datal),
        value & 0x07 == c1datal & 0x07,
        (value >> 3) & 0xFF == c1datam,
        value >> 11 == c1datah & 0x3F,
        value < 0x2_0000,
{
    let value = ((c1datal & 0x07) as u32) | ((c1datam as u32) << 3) | (((c1datah & 0x3F) as u32)
        << 11);
    proof {
        lemma_als_value_places(c1datam, c1datah, c1datal);
    }
    value
}

/// Replacing a field changes no bit outside its mask, provided the shifted
/// value lies under the mask; the bits under the mask are then the shifted
/// value.
pub proof fn lemma_replace_field_confined(current: u8, mask: u8, shift: u8, bits: u8)
    requires
        (bits << shift) & !mask == 0,
    ensures
        replace_field(current, mask, shift, bits) & !mask == current & !mask,
        replace_field(current, mask, shift, bits) & mask == bits << shift,
{
    let moved = bits << shift;
    assert(((current & !mask) | moved) & !mask == current & !mask && ((current & !mask) | moved)
        & mask == moved) by (bit_vector)
        requires
            moved & !mask == 0,
    ;
}

/// No two settings of a kind share a field value: what stands in a field
/// names one setting.
pub proof fn lemma_field_values_distinct(
    delays: (ConversionDelay, ConversionDelay),
    gains: (Gain, Gain),
    resolutions: (AlsResolution, AlsResolution),
    currents: (LedCurrent, LedCurrent),
)
    ensures
        delays.0.field_value() == delays.1.field_value() ==> delays.0 == delays.1,
        gains.0.field_value() == gains.1.field_value() ==> gains.0 == gains.1,
        resolutions.0.field_value() == resolutions.1.field_value() ==> resolutions.0
            == resolutions.1,
        currents.0.field_value() == currents.1.field_value() ==> currents.0 == currents.1,
{
}

/// Each piece of a heart-rate reading is found at its place: the reading is
/// determined bit for bit by the data bytes, and it fits in 18 bits.
pub proof fn lemma_hrs_value_places(c0datam: u8, c0datah: u8, c0datal: u8)
    ensures
        hrs_value(c0datam, c0datah, c0datal) & 0x0F == c0datal & 0x0F,
        (hrs_value(c0datam, c0datah, c0datal) >> 4) & 0x0F == c0datah & 0x0F,
        (hrs_value(c0datam, c0datah, c0datal) >> 8) & 0xFF == c0datam,
        hrs_value(c0datam, c0datah, c0datal) >> 16 == (c0datal >> 4) & 0x03,
        hrs_value(c0datam, c0datah, c0datal) < 0x4_0000,
{
    let v = hrs_value(c0datam, c0datah, c0datal);
    assert(v == ((c0datal & 0x0F) as u32) | (((c0datah & 0x0F) as u32) << 4) | ((c0datam as u32)
        << 8) | (((c0datal & 0x30) as u32) << 12));
    assert(v & 0x0F == c0datal & 0x0F && (v >> 4) & 0x0F == c0datah & 0x0F && (v >> 8) & 0xFF
        == c0datam && v >> 16 == (c0datal >> 4) & 0x03 && v < 0x4_0000) by (bit_vector)
        requires
            v == ((c0datal & 0x0F) as u32) | (((c0datah & 0x0F) as u32) << 4) | ((c0datam as u32)
                << 8) | (((c0datal & 0x30) as u32) << 12),
    ;
}

/// Each piece of an ambient-light reading is found at its place: the reading
/// is determined bit for bit by the data bytes, and it fits in 17 bits.
pub proof fn lemma_als_value_places(c1datam: u8, c1datah: u8, c1datal: u8)
    ensures
        als_value(c1datam, c1datah, c1datal) & 0x07 == c1datal & 0x07,
        (als_value(c1datam, c1datah, c1datal) >> 3) & 0xFF == c1datam,
        als_value(c1datam, c1datah, c1datal) >> 11 == c1datah & 0x3F,
        als_value(c1datam, c1datah, c1datal) < 0x2_0000,
{
    let v = als_value(c1datam, c1datah, c1datal);
    assert(v == ((c1datal & 0x07) as u32) | ((c1datam as u32) << 3) | (((c1datah & 0x3F) as u32)
        << 11));
    assert(v & 0x07 == c1datal & 0x07 && (v >> 3) & 0xFF == c1datam && v >> 11 == c1datah & 0x3F
        && v < 0x2_0000) by (bit_vector)
        requires
            v == ((c1datal & 0x07) as u32) | ((c1datam as u32) << 3) | (((c1datah & 0x3F) as u32)
                << 11),
    ;
}

} // verus!
