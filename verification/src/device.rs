//! The device handle.

use vstd::prelude::*;
use crate::exchange::{Exchange, Operation, Progress};
use crate::types::{AlsResolution, ConversionDelay, Gain, LedCurrent};

verus! {

/// HRS3300 device driver
///
/// The handle owns the bus. Each operation is started here and comes back as
/// an [`Exchange`]; the transactions that the exchange asks for are to be
/// performed on this handle's bus, at the device address, one operation at a
/// time. Nothing is remembered of the device's registers: an operation that
/// changes part of a register reads the register first.
#[derive(Debug)]
pub struct Hrs3300<I2C> {
    /// The concrete I2C device implementation.
    i2c: I2C,
}

impl<I2C> Hrs3300<I2C> {
    /// The bus that this handle owns.
    pub closed spec fn bus(&self) -> I2C {
        self.i2c
    }

    /// Create new instance of the HRS3300 device.
    pub fn new(i2c: I2C) -> (sensor: Self)
        ensures
            sensor.bus() == i2c,
    {
        Hrs3300 { i2c }
    }

    /// Destroy driver instance, return I2C bus instance.
    pub fn destroy(self) -> (i2c: I2C)
        ensures
            i2c == self.bus(),
    {
        self.i2c
    }

    /// The bus, to perform a transaction on.
    pub fn i2c(&mut self) -> (i2c: &mut I2C)
        ensures
            *i2c == old(self).bus(),
            final(self).bus() == *final(i2c),
    {
        &mut self.i2c
    }

    /// Initialize the status of registers
    ///
    /// A custom initialization can also be achieved using `write_register()`
    /// directly.
    pub fn init(&mut self) -> (exchange: Exchange)
        ensures
            exchange@ == Progress::start(Operation::Init),
            *final(self) == *old(self),
    {
        Exchange::begin(Operation::Init)
    }

    /// Enable the heart-rate sensor (HRS).
    pub fn enable_hrs(&mut self) -> (exchange: Exchange)
        ensures
            exchange@ == Progress::start(Operation::EnableHrs),
            *final(self) == *old(self),
    {
        Exchange::begin(Operation::EnableHrs)
    }

    /// Disable the heart-rate sensor (HRS).
    pub fn disable_hrs(&mut self) -> (exchange: Exchange)
        ensures
            exchange@ == Progress::start(Operation::DisableHrs),
            *final(self) == *old(self),
    {
        Exchange::begin(Operation::DisableHrs)
    }

    /// Enable the oscillator.
    pub fn enable_oscillator(&mut self) -> (exchange: Exchange)
        ensures
            exchange@ == Progress::start(Operation::EnableOscillator),
            *final(self) == *old(self),
    {
        Exchange::begin(Operation::EnableOscillator)
    }

    /// Disable the oscillator.
    pub fn disable_oscillator(&mut self) -> (exchange: Exchange)
        ensures
            exchange@ == Progress::start(Operation::DisableOscillator),
            *final(self) == *old(self),
    {
        Exchange::begin(Operation::DisableOscillator)
    }

    /// Set the HRS conversion delay (waiting time between conversion cycles)
    pub fn set_conversion_delay(&mut self, delay: ConversionDelay) -> (exchange: Exchange)
        ensures
            exchange@ == Progress::start(Operation::SetConversionDelay(delay)),
            *final(self) == *old(self),
    {
        Exchange::begin(Operation::SetConversionDelay(delay))
    }

    /// Set the HRS ADC gain
    pub fn set_gain(&mut self, gain: Gain) -> (exchange: Exchange)
        ensures
            exchange@ == Progress::start(Operation::SetGain(gain)),
            *final(self) == *old(self),
    {
        Exchange::begin(Operation::SetGain(gain))
    }

    /// Set the ambient light sensor ADC resolution
    pub fn set_als_resolution(&mut self, resolution: AlsResolution) -> (exchange: Exchange)
        ensures
            exchange@ == Progress::start(Operation::SetAlsResolution(resolution)),
            *final(self) == *old(self),
    {
        Exchange::begin(Operation::SetAlsResolution(resolution))
    }

    /// Set the LED driver current
    ///
    /// The current is kept in two registers, which are written one after the
    /// other. If the second write fails, the first has taken effect.
    pub fn set_led_current(&mut self, current: LedCurrent) -> (exchange: Exchange)
        ensures
            exchange@ == Progress::start(Operation::SetLedCurrent(current)),
            *final(self) == *old(self),
    {
        Exchange::begin(Operation::SetLedCurrent(current))
    }

    /// Read the device ID (0x21).
    pub fn device_id(&mut self) -> (exchange: Exchange)
        ensures
            exchange@ == Progress::start(Operation::DeviceId),
            *final(self) == *old(self),
    {
        Exchange::begin(Operation::DeviceId)
    }

    /// Read heart rate sensor measurement (CH0)
    pub fn read_hrs(&mut self) -> (exchange: Exchange)
        ensures
            exchange@ == Progress::start(Operation::ReadHrs),
            *final(self) == *old(self),
    {
        Exchange::begin(Operation::ReadHrs)
    }

    /// Read ambient light sensor measurement (CH1)
    pub fn read_als(&mut self) -> (exchange: Exchange)
        ensures
            exchange@ == Progress::start(Operation::ReadAls),
            *final(self) == *old(self),
    {
        Exchange::begin(Operation::ReadAls)
    }

    /// Custom register write.
    ///
    /// This can be used to do a custom initialization, for example.
    pub fn write_register(&mut self, register: u8, value: u8) -> (exchange: Exchange)
        ensures
            exchange@ == Progress::start((Operation::WriteRegister { register, value })),
            *final(self) == *old(self),
    {
        Exchange::begin(Operation::WriteRegister { register, value })
    }

    /// Custom register read.
    pub fn read_register(&mut self, register: u8) -> (exchange: Exchange)
        ensures
            exchange@ == Progress::start((Operation::ReadRegister { register })),
            *final(self) == *old(self),
    {
        Exchange::begin(Operation::ReadRegister { register })
    }
}

} // verus!
