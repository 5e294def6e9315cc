//! Driver for the TSL2591 light sensor on an I²C bus.
//!
//! The driver does no I/O itself: every operation is a short exchange with
//! the device, and the driver says which transaction to perform next and
//! what to make of the bus's reply. Whoever owns the bus performs the
//! transactions and hands the replies back.
use vstd::prelude::*;

pub mod laws;
pub mod types;

pub use types::{Gain, IntegrationTime, TSL2591Error};

verus! {

pub const TSL2591_ADDR: u8 = 0x29;
pub const TSL2591_COMMAND_BIT: u8 = 0xA0;

pub const TSL2591_ENABLE_POWEROFF: u8 = 0x00;
pub const TSL2591_ENABLE_POWERON: u8 = 0x01;
pub const TSL2591_ENABLE_AEN: u8 = 0x02;
pub const TSL2591_ENABLE_AIEN: u8 = 0x10;
pub const TSL2591_ENABLE_NPIEN: u8 = 0x80;
pub const TSL2591_REGISTER_ENABLE: u8 = 0x00;
pub const TSL2591_REGISTER_CONTROL: u8 = 0x01;
pub const TSL2591_REGISTER_DEVICE_ID: u8 = 0x12;
pub const TSL2591_REGISTER_CHAN0_LOW: u8 = 0x14;
pub const TSL2591_REGISTER_CHAN1_LOW: u8 = 0x16;

/// The identifier a TSL2591 answers with.
pub const TSL2591_DEVICE_ID: u8 = 0x50;

pub const TSL2591_MAX_COUNT_100MS: u16 = 0x8FFF;
pub const TSL2591_MAX_COUNT: u16 = 0xFFFF;

/// The command byte that addresses `register`.
pub open spec fn command(register: u8) -> u8 {
    TSL2591_COMMAND_BIT | register
}

/// The value written to the enable register to power the device with all its features.
pub open spec fn power_on_value() -> u8 {
    0x93
}

/// The control register once the gain bits are replaced by those of `g`.
pub open spec fn control_with_gain(control: u8, g: Gain) -> u8 {
    (control & 0b11001111) | types::gain_bits(g)
}

/// The control register once the integration time bits are replaced by those of `t`.
pub open spec fn control_with_time(control: u8, t: IntegrationTime) -> u8 {
    (control & 0b11111000) | types::time_bits(t)
}

/// The little-endian word made of two bytes.
pub open spec fn word(lo: u8, hi: u8) -> u16 {
    (lo + 256 * hi) as u16
}

/// The largest channel count that does not saturate with integration time `t`.
pub open spec fn max_count(t: IntegrationTime) -> u16 {
    match t {
        IntegrationTime::Time100ms => TSL2591_MAX_COUNT_100MS,
        _ => TSL2591_MAX_COUNT,
    }
}

/// One transaction on the I²C bus.
#[derive(Clone, Copy, Debug, PartialEq, Eq, Structural)]
pub enum Transaction {
    /// Write the command byte to `address`, then read `len` bytes back.
    WriteRead { address: u8, command: u8, len: usize },
    /// Write the command byte followed by one data byte to `address`.
    Write { address: u8, command: u8, value: u8 },
}

/// What the bus answered to a transaction.
pub enum BusReply<E> {
    /// The bytes read back by a `WriteRead`.
    Read(Vec<u8>),
    /// A `Write` went through.
    Written,
    /// The bus failed.
    Failed(E),
}

/// What a finished operation gives back.
#[derive(Clone, Copy, Debug, PartialEq, Eq, Structural)]
pub enum Reading {
    /// The operation has no value to return.
    Done,
    Gain(Gain),
    IntegrationTime(IntegrationTime),
    /// The full spectrum (IR + visible).
    FullSpectrum(u32),
    /// The infrared light.
    Infrared(u16),
    /// The visible light.
    Visible(u32),
    /// The raw channels (IR + visible, IR only), checked against saturation.
    Channels(u16, u16),
}

/// What to do next in an operation.
pub enum Step<E> {
    /// Perform this transaction and hand the reply to `resume`.
    Transfer(Transaction),
    /// The operation is over.
    Finished(Result<Reading, TSL2591Error<E>>),
}

/// A field of the control register that an operation rewrites.
#[derive(Clone, Copy, Debug, PartialEq, Eq, Structural)]
pub enum ControlField {
    Gain(Gain),
    Time(IntegrationTime),
}

/// A field of the control register that an operation reads.
#[derive(Clone, Copy, Debug, PartialEq, Eq, Structural)]
pub enum ControlQuery {
    Gain,
    Time,
}

/// What an operation computes from the two light channels.
#[derive(Clone, Copy, Debug, PartialEq, Eq, Structural)]
pub enum Channels {
    FullSpectrum,
    Infrared,
    Visible,
    Lux,
}

/// Where the driver stands in an operation.
#[derive(Clone, Copy, Debug, PartialEq, Eq, Structural)]
pub enum Pending {
    /// No operation under way.
    Idle,
    /// Waiting for the device identifier.
    ReadId,
    /// Waiting for the control register, to rewrite `field` in it.
    ReadControl { field: ControlField, init: bool },
    /// Waiting for the rewritten control register to be written.
    WriteControl { field: ControlField, init: bool },
    /// Waiting for the enable register to be written.
    WritePower,
    /// Waiting for the control register, to report a field of it.
    QueryControl(ControlQuery),
    /// Waiting for the first light channel.
    ReadChannel0(Channels),
    /// Waiting for the second light channel; the first one read is kept.
    ReadChannel1(Channels, u16),
}

/// The transaction that reads `len` bytes from `register`.
pub open spec fn read_op(register: u8, len: usize) -> Transaction {
    Transaction::WriteRead { address: TSL2591_ADDR, command: command(register), len }
}

/// The transaction that writes `value` to `register`.
pub open spec fn write_op(register: u8, value: u8) -> Transaction {
    Transaction::Write { address: TSL2591_ADDR, command: command(register), value }
}

/// The reply that a driver in state `p` waits for.
pub open spec fn expects<E>(p: Pending, reply: BusReply<E>) -> bool {
    match reply {
        BusReply::Failed(_) => p != Pending::Idle,
        BusReply::Written => p is WriteControl || p is WritePower,
        BusReply::Read(bytes) => match p {
            Pending::ReadId => bytes.len() == 1,
            Pending::ReadControl { .. } => bytes.len() == 1,
            Pending::QueryControl(q) => bytes.len() == 1 && (q == ControlQuery::Time ==> (
            bytes[0] & 0b0000111) <= 5),
            Pending::ReadChannel0(_) => bytes.len() == 2,
            Pending::ReadChannel1(..) => bytes.len() == 2,
            _ => false,
        },
    }
}

/// The state of the driver, apart from the bus.
pub struct SensorState {
    pub gain: Gain,
    pub integration_time: IntegrationTime,
    pub pending: Pending,
}

/// The result that the channels `(ch0, ch1)` give for the operation `c`.
pub open spec fn channels_result<E>(
    c: Channels,
    t: IntegrationTime,
    ch0: u16,
    ch1: u16,
) -> Result<Reading, TSL2591Error<E>> {
    match c {
        Channels::FullSpectrum => Ok(Reading::FullSpectrum((ch1 * 65536 + ch0) as u32)),
        Channels::Infrared => Ok(Reading::Infrared(ch1)),
        Channels::Visible => Ok(Reading::Visible((ch1 * 65536 + ch0 - ch1) as u32)),
        Channels::Lux => if ch0 >= max_count(t) || ch1 >= max_count(t) {
            Err(TSL2591Error::OverflowError)
        } else {
            Ok(Reading::Channels(ch0, ch1))
        },
    }
}

/// The next state and step of a driver in state `s` that receives `reply`.
pub open spec fn advance<E>(s: SensorState, reply: BusReply<E>) -> (SensorState, Step<E>) {
    let idle = SensorState { pending: Pending::Idle, ..s };
    match reply {
        BusReply::Failed(e) => (idle, Step::Finished(Err(TSL2591Error::I2cError(e)))),
        BusReply::Written => match s.pending {
            Pending::WriteControl { field, init } => {
                let s2 = match field {
                    ControlField::Gain(g) => SensorState { gain: g, ..s },
                    ControlField::Time(_) => s,
                };
                if !init {
                    (SensorState { pending: Pending::Idle, ..s2 }, Step::Finished(Ok(Reading::Done)))
                } else {
                    match field {
                        ControlField::Gain(_) => (
                            SensorState {
                                pending: Pending::ReadControl {
                                    field: ControlField::Time(s2.integration_time),
                                    init: true,
                                },
                                ..s2
                            },
                            Step::Transfer(read_op(TSL2591_REGISTER_CONTROL, 1)),
                        ),
                        ControlField::Time(_) => (
                            SensorState { pending: Pending::WritePower, ..s2 },
                            Step::Transfer(write_op(TSL2591_REGISTER_ENABLE, power_on_value())),
                        ),
                    }
                }
            },
            _ => (idle, Step::Finished(Ok(Reading::Done))),
        },
        BusReply::Read(bytes) => match s.pending {
            Pending::ReadId => if bytes[0] != TSL2591_DEVICE_ID {
                (idle, Step::Finished(Err(TSL2591Error::RuntimeError)))
            } else {
                (
                    SensorState {
                        pending: Pending::ReadControl { field: ControlField::Gain(s.gain), init: true },
                        ..s
                    },
                    Step::Transfer(read_op(TSL2591_REGISTER_CONTROL, 1)),
                )
            },
            Pending::ReadControl { field, init } => {
                let updated = match field {
                    ControlField::Gain(g) => control_with_gain(bytes[0], g),
                    ControlField::Time(t) => control_with_time(bytes[0], t),
                };
                (
                    SensorState { pending: Pending::WriteControl { field, init }, ..s },
                    Step::Transfer(write_op(TSL2591_REGISTER_CONTROL, updated)),
                )
            },
            Pending::QueryControl(ControlQuery::Gain) => (
                idle,
                Step::Finished(Ok(Reading::Gain(types::gain_of(bytes[0] & 0b00110000)))),
            ),
            Pending::QueryControl(ControlQuery::Time) => (
                idle,
                Step::Finished(Ok(Reading::IntegrationTime(types::time_of(bytes[0] & 0b0000111)))),
            ),
            Pending::ReadChannel0(c) => (
                SensorState { pending: Pending::ReadChannel1(c, word(bytes[0], bytes[1])), ..s },
                Step::Transfer(read_op(TSL2591_REGISTER_CHAN1_LOW, 2)),
            ),
            Pending::ReadChannel1(c, ch0) => (
                idle,
                Step::Finished(channels_result(c, s.integration_time, ch0, word(bytes[0], bytes[1]))),
            ),
            _ => (idle, Step::Finished(Ok(Reading::Done))),
        },
    }
}

/// Provide access to a TSL2591 sensor on the i2c bus.
pub struct TSL2591Sensor<I2C> {
    i2c: I2C,
    gain: Gain,
    integration_time: IntegrationTime,
    pending: Pending,
}

fn command_byte(register: u8) -> (r: u8)
    ensures
        r == command(register),
{
    let r = (TSL2591_COMMAND_BIT | register) & 0xFF;
    assert((0xA0u8 | register) & 0xFF == 0xA0u8 | register) by (bit_vector);
    r
}

/// The transaction that reads `len` bytes from `register`.
fn read_transaction(register: u8, len: usize) -> (r: Transaction)
    ensures
        r == read_op(register, len),
{
    Transaction::WriteRead { address: TSL2591_ADDR, command: command_byte(register), len }
}

/// The transaction that writes `value` to `register`.
fn write_transaction(register: u8, value: u8) -> (r: Transaction)
    ensures
        r == write_op(register, value),
{
    let byte = value & 0xFF;
    assert(value & 0xFF == value) by (bit_vector);
    Transaction::Write { address: TSL2591_ADDR, command: command_byte(register), value: byte }
}

/// The little-endian word made of two bytes.
pub fn read_word(lo: u8, hi: u8) -> (r: u16)
    ensures
        r == word(lo, hi),
        r == lo + 256 * hi,
{
    let r = (lo as u16) | (hi as u16) << 8;
    assert((lo as u16) | (hi as u16) << 8 == lo + 256 * hi) by (bit_vector);
    r
}

impl<I2C> TSL2591Sensor<I2C> {
    /// The driver's state, apart from the bus.
    pub closed spec fn state(&self) -> SensorState {
        SensorState { gain: self.gain, integration_time: self.integration_time, pending: self.pending }
    }

    /// The bus the sensor sits on.
    pub closed spec fn bus(&self) -> I2C {
        self.i2c
    }

    /// The sensor that `new` makes on the bus `i2c`, before its first
    /// transaction.
    pub closed spec fn started(i2c: I2C) -> TSL2591Sensor<I2C> {
        TSL2591Sensor {
            i2c,
            gain: Gain::LOW,
            integration_time: IntegrationTime::Time100ms,
            pending: Pending::ReadId,
        }
    }

    /// The gain the driver last configured.
    pub fn gain(&self) -> (r: Gain)
        ensures
            r == self.state().gain,
    {
        self.gain
    }

    /// The integration time the driver last configured.
    pub fn integration_time(&self) -> (r: IntegrationTime)
        ensures
            r == self.state().integration_time,
    {
        self.integration_time
    }

    /// Whether no operation is under way.
    pub fn is_idle(&self) -> (r: bool)
        ensures
            r == (self.state().pending == Pending::Idle),
    {
        self.pending == Pending::Idle
    }

    /// Construct a new TSL2591 sensor on the given i2c bus.
    ///
    /// The operation first checks the device identifier, then configures the
    /// lowest gain and a 100ms integration time (with a control register that
    /// reads 0, both writes leave it at 0), and finally enables the device,
    /// which is then ready to use.
    pub fn new<E>(i2c: I2C) -> (r: (TSL2591Sensor<I2C>, Step<E>))
        ensures
            r.0.state() == (SensorState {
                gain: Gain::LOW,
                integration_time: IntegrationTime::Time100ms,
                pending: Pending::ReadId,
            }),
            r.0.bus() == i2c,
            r.0 == Self::started(i2c),
            r.1 == Step::<E>::Transfer(read_op(TSL2591_REGISTER_DEVICE_ID, 1)),
    {
        let sensor = TSL2591Sensor {
            i2c,
            gain: Gain::LOW,
            integration_time: IntegrationTime::Time100ms,
            pending: Pending::ReadId,
        };
        (sensor, Step::Transfer(read_transaction(TSL2591_REGISTER_DEVICE_ID, 1)))
    }

    /// Destroy driver instance, return I²C bus instance.
    pub fn destroy(self) -> (r: I2C)
        ensures
            r == self.bus(),
    {
        self.i2c
    }

    /// Lends the bus, to perform a transaction on it.
    pub fn bus_mut(&mut self) -> (r: &mut I2C)
        ensures
            *r == old(self).bus(),
            final(self).state() == old(self).state(),
            final(self).bus() == *final(r),
    {
        &mut self.i2c
    }

    /// Set the Gain for the sensor.
    ///
    /// Reads the control register, then writes it back with the gain bits
    /// replaced; the driver records the gain once the write went through.
    pub fn set_gain<E>(&mut self, gain: Gain) -> (r: Step<E>)
        ensures
            final(self).state() == (SensorState {
                pending: Pending::ReadControl { field: ControlField::Gain(gain), init: false },
                ..old(self).state()
            }),
            final(self).bus() == old(self).bus(),
            r == Step::<E>::Transfer(read_op(TSL2591_REGISTER_CONTROL, 1)),
    {
        self.pending = Pending::ReadControl { field: ControlField::Gain(gain), init: false };
        Step::Transfer(read_transaction(TSL2591_REGISTER_CONTROL, 1))
    }

    /// Get the current configured gain on the sensor.
    pub fn get_gain<E>(&mut self) -> (r: Step<E>)
        ensures
            final(self).state() == (SensorState {
                pending: Pending::QueryControl(ControlQuery::Gain),
                ..old(self).state()
            }),
            final(self).bus() == old(self).bus(),
            r == Step::<E>::Transfer(read_op(TSL2591_REGISTER_CONTROL, 1)),
    {
        self.pending = Pending::QueryControl(ControlQuery::Gain);
        Step::Transfer(read_transaction(TSL2591_REGISTER_CONTROL, 1))
    }

    /// Set the integration time on the sensor.
    ///
    /// The driver records the integration time at once, then reads the
    /// control register and writes it back with the time bits replaced.
    pub fn set_integration_time<E>(&mut self, integration_time: IntegrationTime) -> (r: Step<E>)
        ensures
            final(self).state() == (SensorState {
                gain: old(self).state().gain,
                integration_time: integration_time,
                pending: Pending::ReadControl {
                    field: ControlField::Time(integration_time),
                    init: false,
                },
            }),
            final(self).bus() == old(self).bus(),
            r == Step::<E>::Transfer(read_op(TSL2591_REGISTER_CONTROL, 1)),
    {
        self.integration_time = integration_time;
        self.pending = Pending::ReadControl {
            field: ControlField::Time(integration_time),
            init: false,
        };
        Step::Transfer(read_transaction(TSL2591_REGISTER_CONTROL, 1))
    }

    /// Get the current integration time configured on the sensor.
    pub fn get_integration_time<E>(&mut self) -> (r: Step<E>)
        ensures
            final(self).state() == (SensorState {
                pending: Pending::QueryControl(ControlQuery::Time),
                ..old(self).state()
            }),
            final(self).bus() == old(self).bus(),
            r == Step::<E>::Transfer(read_op(TSL2591_REGISTER_CONTROL, 1)),
    {
        self.pending = Pending::QueryControl(ControlQuery::Time);
        Step::Transfer(read_transaction(TSL2591_REGISTER_CONTROL, 1))
    }

    /// Activate the device using all the features.
    pub fn enable<E>(&mut self) -> (r: Step<E>)
        ensures
            final(self).state() == (SensorState { pending: Pending::WritePower, ..old(self).state() }),
            final(self).bus() == old(self).bus(),
            r == Step::<E>::Transfer(write_op(TSL2591_REGISTER_ENABLE, power_on_value())),
    {
        let command = TSL2591_ENABLE_POWERON | TSL2591_ENABLE_AEN | TSL2591_ENABLE_AIEN
            | TSL2591_ENABLE_NPIEN;
        assert(0x01u8 | 0x02u8 | 0x10u8 | 0x80u8 == 0x93u8) by (bit_vector);
        self.pending = Pending::WritePower;
        Step::Transfer(write_transaction(TSL2591_REGISTER_ENABLE, command))
    }

    /// Disables the device putting it in a low power mode.
    pub fn disable<E>(&mut self) -> (r: Step<E>)
        ensures
            final(self).state() == (SensorState { pending: Pending::WritePower, ..old(self).state() }),
            final(self).bus() == old(self).bus(),
            r == Step::<E>::Transfer(write_op(TSL2591_REGISTER_ENABLE, TSL2591_ENABLE_POWEROFF)),
    {
        self.pending = Pending::WritePower;
        Step::Transfer(write_transaction(TSL2591_REGISTER_ENABLE, TSL2591_ENABLE_POWEROFF))
    }

    /// Starts reading both light channels, for the computation `c`.
    fn raw_luminosity<E>(&mut self, c: Channels) -> (r: Step<E>)
        ensures
            final(self).state() == (SensorState { pending: Pending::ReadChannel0(c), ..old(self).state() }),
            final(self).bus() == old(self).bus(),
            r == Step::<E>::Transfer(read_op(TSL2591_REGISTER_CHAN0_LOW, 2)),
    {
        self.pending = Pending::ReadChannel0(c);
        Step::Transfer(read_transaction(TSL2591_REGISTER_CHAN0_LOW, 2))
    }

    /// Read the full spectrum (IR+Visible).
    pub fn full_spectrum<E>(&mut self) -> (r: Step<E>)
        ensures
            final(self).state() == (SensorState {
                pending: Pending::ReadChannel0(Channels::FullSpectrum),
                ..old(self).state()
            }),
            final(self).bus() == old(self).bus(),
            r == Step::<E>::Transfer(read_op(TSL2591_REGISTER_CHAN0_LOW, 2)),
    {
        self.raw_luminosity(Channels::FullSpectrum)
    }

    /// Read the infrared light.
    pub fn infrared<E>(&mut self) -> (r: Step<E>)
        ensures
            final(self).state() == (SensorState {
                pending: Pending::ReadChannel0(Channels::Infrared),
                ..old(self).state()
            }),
            final(self).bus() == old(self).bus(),
            r == Step::<E>::Transfer(read_op(TSL2591_REGISTER_CHAN0_LOW, 2)),
    {
        self.raw_luminosity(Channels::Infrared)
    }

    /// Read the visible light.
    pub fn visible<E>(&mut self) -> (r: Step<E>)
        ensures
            final(self).state() == (SensorState {
                pending: Pending::ReadChannel0(Channels::Visible),
                ..old(self).state()
            }),
            final(self).bus() == old(self).bus(),
            r == Step::<E>::Transfer(read_op(TSL2591_REGISTER_CHAN0_LOW, 2)),
    {
        self.raw_luminosity(Channels::Visible)
    }

    /// Read both channels for a lux computation; the operation fails with
    /// `OverflowError` when a channel is saturated.
    pub fn lux<E>(&mut self) -> (r: Step<E>)
        ensures
            final(self).state() == (SensorState {
                pending: Pending::ReadChannel0(Channels::Lux),
                ..old(self).state()
            }),
            final(self).bus() == old(self).bus(),
            r == Step::<E>::Transfer(read_op(TSL2591_REGISTER_CHAN0_LOW, 2)),
    {
        self.raw_luminosity(Channels::Lux)
    }

    /// Hands the bus's reply to the operation under way and gives the next step.
    pub fn resume<E>(&mut self, reply: BusReply<E>) -> (r: Step<E>)
        requires
            expects(old(self).state().pending, reply),
        ensures
            (final(self).state(), r) == advance(old(self).state(), reply),
            final(self).bus() == old(self).bus(),
    {
        let pending = self.pending;
        match reply {
            BusReply::Failed(e) => {
                self.pending = Pending::Idle;
                Step::Finished(Err(TSL2591Error::I2cError(e)))
            },
            BusReply::Written => {
                match pending {
                    Pending::WriteControl { field, init } => {
                        if let ControlField::Gain(g) = field {
                            self.gain = g;
                        }
                        if !init {
                            self.pending = Pending::Idle;
                            Step::Finished(Ok(Reading::Done))
                        } else {
                            match field {
                                ControlField::Gain(_) => {
                                    self.pending = Pending::ReadControl {
                                        field: ControlField::Time(self.integration_time),
                                        init: true,
                                    };
                                    Step::Transfer(read_transaction(TSL2591_REGISTER_CONTROL, 1))
                                },
                                ControlField::Time(_) => {
                                    self.pending = Pending::WritePower;
                                    let command = TSL2591_ENABLE_POWERON | TSL2591_ENABLE_AEN
                                        | TSL2591_ENABLE_AIEN | TSL2591_ENABLE_NPIEN;
                                    assert(0x01u8 | 0x02u8 | 0x10u8 | 0x80u8 == 0x93u8)
                                        by (bit_vector);
                                    Step::Transfer(
                                        write_transaction(TSL2591_REGISTER_ENABLE, command),
                                    )
                                },
                            }
                        }
                    },
                    _ => {
                        self.pending = Pending::Idle;
                        Step::Finished(Ok(Reading::Done))
                    },
                }
            },
            BusReply::Read(bytes) => {
                match pending {
                    Pending::ReadId => {
                        if bytes[0] != TSL2591_DEVICE_ID {
                            self.pending = Pending::Idle;
                            Step::Finished(Err(TSL2591Error::RuntimeError))
                        } else {
                            self.pending = Pending::ReadControl {
                                field: ControlField::Gain(self.gain),
                                init: true,
                            };
                            Step::Transfer(read_transaction(TSL2591_REGISTER_CONTROL, 1))
                        }
                    },
                    Pending::ReadControl { field, init } => {
                        let control = bytes[0];
                        let updated = match field {
                            ControlField::Gain(g) => (control & 0b11001111) | g.bits(),
                            ControlField::Time(t) => (control & 0b11111000) | t.bits(),
                        };
                        self.pending = Pending::WriteControl { field, init };
                        Step::Transfer(write_transaction(TSL2591_REGISTER_CONTROL, updated))
                    },
                    Pending::QueryControl(ControlQuery::Gain) => {
                        let bits = bytes[0] & 0b00110000;
                        let b0 = bytes[0];
                        assert(b0 & 0b00110000u8 == 0x00 || b0 & 0b00110000u8 == 0x10 || b0
                            & 0b00110000u8 == 0x20 || b0 & 0b00110000u8 == 0x30) by (bit_vector);
                        self.pending = Pending::Idle;
                        Step::Finished(Ok(Reading::Gain(Gain::from_u8(bits))))
                    },
                    Pending::QueryControl(ControlQuery::Time) => {
                        let bits = bytes[0] & 0b0000111;
                        self.pending = Pending::Idle;
                        Step::Finished(Ok(Reading::IntegrationTime(IntegrationTime::from_u8(bits))))
                    },
                    Pending::ReadChannel0(c) => {
                        let ch0 = read_word(bytes[0], bytes[1]);
                        self.pending = Pending::ReadChannel1(c, ch0);
                        Step::Transfer(read_transaction(TSL2591_REGISTER_CHAN1_LOW, 2))
                    },
                    Pending::ReadChannel1(c, ch0) => {
                        let ch1 = read_word(bytes[0], bytes[1]);
                        self.pending = Pending::Idle;
                        Step::Finished(self.channels(c, ch0, ch1))
                    },
                    _ => {
                        self.pending = Pending::Idle;
                        Step::Finished(Ok(Reading::Done))
                    },
                }
            },
        }
    }

    /// What the channels give for the computation `c`.
    fn channels<E>(&self, c: Channels, ch0: u16, ch1: u16) -> (r: Result<Reading, TSL2591Error<E>>)
        ensures
            r == channels_result::<E>(c, self.integration_time, ch0, ch1),
    {
        let chan0 = ch0 as u32;
        let chan1 = ch1 as u32;
        match c {
            Channels::FullSpectrum => {
                assert(chan1 << 16 | chan0 == chan1 * 65536 + chan0) by (bit_vector)
                    requires
                        chan0 < 65536,
                        chan1 < 65536,
                ;
                Ok(Reading::FullSpectrum(chan1 << 16 | chan0))
            },
            Channels::Infrared => Ok(Reading::Infrared(ch1)),
            Channels::Visible => {
                assert(chan1 << 16 | chan0 == chan1 * 65536 + chan0) by (bit_vector)
                    requires
                        chan0 < 65536,
                        chan1 < 65536,
                ;
                let full = (chan1 << 16) | chan0;
                Ok(Reading::Visible(full - chan1))
            },
            Channels::Lux => {
                let max_counts = match self.integration_time {
                    IntegrationTime::Time100ms => TSL2591_MAX_COUNT_100MS,
                    _ => TSL2591_MAX_COUNT,
                };
                if ch0 >= max_counts || ch1 >= max_counts {
                    Err(TSL2591Error::OverflowError)
                } else {
                    Ok(Reading::Channels(ch0, ch1))
                }
            },
        }
    }
}

} // verus!
