use vstd::prelude::*;

verus! {

/// Available gains for the sensor.
#[allow(non_camel_case_types)]
#[derive(Clone, Copy, Debug, PartialEq, Eq, Structural)]
pub enum Gain {
    /// gain of 1x
    LOW,
    /// gain of 25x
    MED,
    /// gain of 428x
    HIGH,
    /// gain of 9876x
    MAX,
}

/// The bits of the control register that select a gain (bits 4 and 5).
pub open spec fn gain_bits(g: Gain) -> u8 {
    match g {
        Gain::LOW => 0x00,
        Gain::MED => 0x10,
        Gain::HIGH => 0x20,
        Gain::MAX => 0x30,
    }
}

/// Whether `v` is the encoding of some gain.
pub open spec fn is_gain_encoding(v: u8) -> bool {
    v == 0x00 || v == 0x10 || v == 0x20 || v == 0x30
}

/// The gain that `v` encodes (meaningful when `is_gain_encoding(v)`).
pub open spec fn gain_of(v: u8) -> Gain {
    if v == 0x00 {
        Gain::LOW
    } else if v == 0x10 {
        Gain::MED
    } else if v == 0x20 {
        Gain::HIGH
    } else {
        Gain::MAX
    }
}

impl Gain {
    /// The encoding of this gain in the control register.
    pub fn bits(self) -> (r: u8)
        ensures
            r == gain_bits(self),
    {
        match self {
            Gain::LOW => 0x00,
            Gain::MED => 0x10,
            Gain::HIGH => 0x20,
            Gain::MAX => 0x30,
        }
    }

    /// Decodes the gain bits of the control register.
    pub fn from_u8(gain: u8) -> (r: Gain)
        requires
            is_gain_encoding(gain),
        ensures
            r == gain_of(gain),
            gain_bits(r) == gain,
    {
        if gain == 0x00 {
            Gain::LOW
        } else if gain == 0x10 {
            Gain::MED
        } else if gain == 0x20 {
            Gain::HIGH
        } else {
            Gain::MAX
        }
    }

    /// The amplification factor of this gain.
    pub fn factor(self) -> (r: u32)
        ensures
            r == match self {
                Gain::LOW => 1u32,
                Gain::MED => 25u32,
                Gain::HIGH => 428u32,
                Gain::MAX => 9876u32,
            },
    {
        match self {
            Gain::LOW => 1,
            Gain::MED => 25,
            Gain::HIGH => 428,
            Gain::MAX => 9876,
        }
    }

    /// A human readable name for this gain.
    pub fn describe(&self) -> (r: &'static str)
        ensures
            r@ == match *self {
                Gain::LOW => "LOW (1x)"@,
                Gain::MED => "MED (25x)"@,
                Gain::HIGH => "HIGH (428x)"@,
                Gain::MAX => "MAX (9876x)"@,
            },
    {
        match *self {
            Gain::LOW => "LOW (1x)",
            Gain::MED => "MED (25x)",
            Gain::HIGH => "HIGH (428x)",
            Gain::MAX => "MAX (9876x)",
        }
    }
}

/// Available integration times for the sensor.
#[derive(Clone, Copy, Debug, PartialEq, Eq, Structural)]
pub enum IntegrationTime {
    /// 100ms integration time
    Time100ms,
    /// 200ms integration time
    Time200ms,
    /// 300ms integration time
    Time300ms,
    /// 400ms integration time
    Time400ms,
    /// 500ms integration time
    Time500ms,
    /// 600ms integration time
    Time600ms,
}

/// The bits of the control register that select an integration time (bits 0 to 2).
pub open spec fn time_bits(t: IntegrationTime) -> u8 {
    match t {
        IntegrationTime::Time100ms => 0,
        IntegrationTime::Time200ms => 1,
        IntegrationTime::Time300ms => 2,
        IntegrationTime::Time400ms => 3,
        IntegrationTime::Time500ms => 4,
        IntegrationTime::Time600ms => 5,
    }
}

/// The integration time that `v` encodes (meaningful when `v <= 5`).
pub open spec fn time_of(v: u8) -> IntegrationTime {
    if v == 0 {
        IntegrationTime::Time100ms
    } else if v == 1 {
        IntegrationTime::Time200ms
    } else if v == 2 {
        IntegrationTime::Time300ms
    } else if v == 3 {
        IntegrationTime::Time400ms
    } else if v == 4 {
        IntegrationTime::Time500ms
    } else {
        IntegrationTime::Time600ms
    }
}

impl IntegrationTime {
    /// The encoding of this integration time in the control register.
    pub fn bits(self) -> (r: u8)
        ensures
            r == time_bits(self),
    {
        match self {
            IntegrationTime::Time100ms => 0,
            IntegrationTime::Time200ms => 1,
            IntegrationTime::Time300ms => 2,
            IntegrationTime::Time400ms => 3,
            IntegrationTime::Time500ms => 4,
            IntegrationTime::Time600ms => 5,
        }
    }

    /// Decodes the integration time bits of the control register.
    pub fn from_u8(integration_time: u8) -> (r: IntegrationTime)
        requires
            integration_time <= 5,
        ensures
            r == time_of(integration_time),
            time_bits(r) == integration_time,
    {
        if integration_time == 0 {
            IntegrationTime::Time100ms
        } else if integration_time == 1 {
            IntegrationTime::Time200ms
        } else if integration_time == 2 {
            IntegrationTime::Time300ms
        } else if integration_time == 3 {
            IntegrationTime::Time400ms
        } else if integration_time == 4 {
            IntegrationTime::Time500ms
        } else {
            IntegrationTime::Time600ms
        }
    }

    /// The integration time in milliseconds.
    pub fn millis(self) -> (r: u32)
        ensures
            r == 100 * time_bits(self) + 100,
    {
        100 * (self.bits() as u32) + 100
    }

    /// A human readable name for this integration time.
    pub fn describe(&self) -> (r: &'static str)
        ensures
            r@ == match *self {
                IntegrationTime::Time100ms => "100ms"@,
                IntegrationTime::Time200ms => "200ms"@,
                IntegrationTime::Time300ms => "300ms"@,
                IntegrationTime::Time400ms => "400ms"@,
                IntegrationTime::Time500ms => "500ms"@,
                IntegrationTime::Time600ms => "600ms"@,
            },
    {
        match *self {
            IntegrationTime::Time100ms => "100ms",
            IntegrationTime::Time200ms => "200ms",
            IntegrationTime::Time300ms => "300ms",
            IntegrationTime::Time400ms => "400ms",
            IntegrationTime::Time500ms => "500ms",
            IntegrationTime::Time600ms => "600ms",
        }
    }
}

/// Errors when accessing the sensor.
#[derive(Debug)]
pub enum TSL2591Error<E> {
    /// Errors that occur when accessing the I2C peripheral.
    I2cError(E),
    /// Overflow error when calculating lux
    OverflowError,
    /// Error thrown when the sensor is not found
    RuntimeError,
}

impl<E> TSL2591Error<E> {
    /// Wraps an error of the bus.
    pub fn from(err: E) -> (r: TSL2591Error<E>)
        ensures
            r == TSL2591Error::I2cError(err),
    {
        TSL2591Error::I2cError(err)
    }
}

} // verus!
