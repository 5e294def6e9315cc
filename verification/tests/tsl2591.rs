use my_home::tsl2591::types::{Gain, IntegrationTime, TSL2591Error};
use my_home::tsl2591::{BusReply, Reading, Step, Transaction, TSL2591Sensor};

const ADDR: u8 = 0x29;
const COMMAND_BIT: u8 = 0xA0;

const ENABLE_POWERON: u8 = 0x01;
const ENABLE_AEN: u8 = 0x02;
const ENABLE_AIEN: u8 = 0x10;
const ENABLE_NPIEN: u8 = 0x80;
const REGISTER_ENABLE: u8 = 0x00;
const REGISTER_CONTROL: u8 = 0x01;
const REGISTER_DEVICE_ID: u8 = 0x12;
const REGISTER_CHAN0_LOW: u8 = 0x14;
const REGISTER_CHAN1_LOW: u8 = 0x16;

/// The bus of these tests: it only counts the transactions performed.
#[derive(Debug, PartialEq)]
struct Bus {
    transactions: usize,
}

/// One expected transaction and the bus's reply to it.
enum Expect {
    WriteRead(u8, Vec<u8>, Vec<u8>),
    Write(u8, Vec<u8>),
}

/// Drives an operation through the expected transactions, checking each
/// one, and returns how it finished.
fn drive(
    sensor: &mut TSL2591Sensor<Bus>,
    first: Step<()>,
    script: Vec<Expect>,
) -> Result<Reading, TSL2591Error<()>> {
    let mut step = first;
    for expect in script {
        let transaction = match step {
            Step::Transfer(t) => t,
            Step::Finished(_) => panic!("the operation finished before the script did"),
        };
        let reply = match expect {
            Expect::WriteRead(address, write, read) => {
                assert_eq!(
                    transaction,
                    Transaction::WriteRead { address, command: write[0], len: read.len() }
                );
                BusReply::Read(read)
            }
            Expect::Write(address, bytes) => {
                assert_eq!(transaction, Transaction::Write { address, command: bytes[0], value: bytes[1] });
                BusReply::Written
            }
        };
        sensor.bus_mut().transactions += 1;
        step = sensor.resume(reply);
    }
    match step {
        Step::Finished(r) => r,
        Step::Transfer(t) => panic!("unexpected transaction {:?}", t),
    }
}

fn init_script() -> Vec<Expect> {
    vec![
        // read device id
        Expect::WriteRead(ADDR, vec![COMMAND_BIT | REGISTER_DEVICE_ID], vec![0x50]),
        // set gain
        Expect::WriteRead(ADDR, vec![COMMAND_BIT | REGISTER_CONTROL], vec![0]),
        Expect::Write(ADDR, vec![COMMAND_BIT | REGISTER_CONTROL, 0]),
        // set integration time
        Expect::WriteRead(ADDR, vec![COMMAND_BIT | REGISTER_CONTROL], vec![0]),
        Expect::Write(ADDR, vec![COMMAND_BIT | REGISTER_CONTROL, 0]),
        // enable
        Expect::Write(
            ADDR,
            vec![
                COMMAND_BIT | REGISTER_ENABLE,
                ENABLE_POWERON | ENABLE_AEN | ENABLE_AIEN | ENABLE_NPIEN,
            ],
        ),
    ]
}

fn new(transactions: Vec<Expect>) -> TSL2591Sensor<Bus> {
    let (mut sensor, step) = TSL2591Sensor::new::<()>(Bus { transactions: 0 });
    let mut script = init_script();
    script.extend(transactions);
    let r = drive(&mut sensor, step, script);
    assert!(matches!(r, Ok(Reading::Done)));
    sensor
}

fn destroy(sensor: TSL2591Sensor<Bus>) {
    let bus = sensor.destroy();
    assert_eq!(bus, Bus { transactions: 6 });
}

#[test]
fn can_create_and_destroy() {
    let sensor = new(vec![]);
    destroy(sensor);
}

#[test]
fn new_refuses_a_device_of_another_id() {
    let (mut sensor, step) = TSL2591Sensor::new::<()>(Bus { transactions: 0 });
    let r = drive(
        &mut sensor,
        step,
        vec![Expect::WriteRead(ADDR, vec![COMMAND_BIT | REGISTER_DEVICE_ID], vec![0x51])],
    );
    assert!(matches!(r, Err(TSL2591Error::RuntimeError)));
    assert!(sensor.is_idle());
}

#[test]
fn a_bus_failure_ends_the_operation() {
    let (mut sensor, _) = TSL2591Sensor::new::<&str>(Bus { transactions: 0 });
    let step = sensor.resume(BusReply::Failed("nack"));
    assert!(matches!(step, Step::Finished(Err(TSL2591Error::I2cError("nack")))));
    assert!(sensor.is_idle());
}

#[test]
fn set_gain_rewrites_only_the_gain_bits() {
    let mut sensor = new(vec![]);
    let step = sensor.set_gain::<()>(Gain::HIGH);
    let r = drive(
        &mut sensor,
        step,
        vec![
            Expect::WriteRead(ADDR, vec![COMMAND_BIT | REGISTER_CONTROL], vec![0b1100_0011]),
            Expect::Write(ADDR, vec![COMMAND_BIT | REGISTER_CONTROL, 0b1110_0011]),
        ],
    );
    assert!(matches!(r, Ok(Reading::Done)));
    assert_eq!(sensor.gain(), Gain::HIGH);
    let step = sensor.get_gain::<()>();
    let r = drive(
        &mut sensor,
        step,
        vec![Expect::WriteRead(ADDR, vec![COMMAND_BIT | REGISTER_CONTROL], vec![0b1110_0011])],
    );
    assert!(matches!(r, Ok(Reading::Gain(Gain::HIGH))));
}

#[test]
fn set_integration_time_rewrites_only_the_time_bits() {
    let mut sensor = new(vec![]);
    let step = sensor.set_integration_time::<()>(IntegrationTime::Time600ms);
    let r = drive(
        &mut sensor,
        step,
        vec![
            Expect::WriteRead(ADDR, vec![COMMAND_BIT | REGISTER_CONTROL], vec![0b0001_0000]),
            Expect::Write(ADDR, vec![COMMAND_BIT | REGISTER_CONTROL, 0b0001_0101]),
        ],
    );
    assert!(matches!(r, Ok(Reading::Done)));
    assert_eq!(sensor.integration_time(), IntegrationTime::Time600ms);
    let step = sensor.get_integration_time::<()>();
    let r = drive(
        &mut sensor,
        step,
        vec![Expect::WriteRead(ADDR, vec![COMMAND_BIT | REGISTER_CONTROL], vec![0b0001_0101])],
    );
    assert!(matches!(r, Ok(Reading::IntegrationTime(IntegrationTime::Time600ms))));
}

fn channels(ch0: [u8; 2], ch1: [u8; 2]) -> Vec<Expect> {
    vec![
        Expect::WriteRead(ADDR, vec![COMMAND_BIT | REGISTER_CHAN0_LOW], ch0.to_vec()),
        Expect::WriteRead(ADDR, vec![COMMAND_BIT | REGISTER_CHAN1_LOW], ch1.to_vec()),
    ]
}

#[test]
fn full_spectrum_infrared_and_visible() {
    let mut sensor = new(vec![]);
    // channel 0 = 0x0304, channel 1 = 0x0102
    let step = sensor.full_spectrum::<()>();
    let r = drive(&mut sensor, step, channels([0x04, 0x03], [0x02, 0x01]));
    assert!(matches!(r, Ok(Reading::FullSpectrum(0x0102_0304))));
    let step = sensor.infrared::<()>();
    let r = drive(&mut sensor, step, channels([0x04, 0x03], [0x02, 0x01]));
    assert!(matches!(r, Ok(Reading::Infrared(0x0102))));
    let step = sensor.visible::<()>();
    let r = drive(&mut sensor, step, channels([0x04, 0x03], [0x02, 0x01]));
    assert!(matches!(r, Ok(Reading::Visible(v)) if v == 0x0102_0304 - 0x0102));
}

#[test]
fn lux_refuses_saturated_channels() {
    let mut sensor = new(vec![]);
    let step = sensor.lux::<()>();
    let r = drive(&mut sensor, step, channels([0x04, 0x03], [0x02, 0x01]));
    assert!(matches!(r, Ok(Reading::Channels(0x0304, 0x0102))));
    // 0x8FFF is the saturation count at 100ms
    let step = sensor.lux::<()>();
    let r = drive(&mut sensor, step, channels([0xFF, 0x8F], [0x02, 0x01]));
    assert!(matches!(r, Err(TSL2591Error::OverflowError)));
}

#[test]
fn enable_and_disable() {
    let mut sensor = new(vec![]);
    let step = sensor.disable::<()>();
    let r = drive(&mut sensor, step, vec![Expect::Write(ADDR, vec![COMMAND_BIT | REGISTER_ENABLE, 0])]);
    assert!(matches!(r, Ok(Reading::Done)));
    let step = sensor.enable::<()>();
    let r = drive(
        &mut sensor,
        step,
        vec![Expect::Write(
            ADDR,
            vec![COMMAND_BIT | REGISTER_ENABLE, ENABLE_POWERON | ENABLE_AEN | ENABLE_AIEN | ENABLE_NPIEN],
        )],
    );
    assert!(matches!(r, Ok(Reading::Done)));
}

#[test]
fn gain_and_time_encodings() {
    assert_eq!(Gain::from_u8(0x00), Gain::LOW);
    assert_eq!(Gain::from_u8(0x10), Gain::MED);
    assert_eq!(Gain::from_u8(0x20), Gain::HIGH);
    assert_eq!(Gain::from_u8(0x30), Gain::MAX);
    assert_eq!(Gain::MAX.bits(), 0x30);
    assert_eq!(IntegrationTime::from_u8(5), IntegrationTime::Time600ms);
    assert_eq!(IntegrationTime::Time300ms.bits(), 2);
    assert_eq!(IntegrationTime::Time300ms.millis(), 300);
    assert_eq!(Gain::HIGH.describe(), "HIGH (428x)");
    assert_eq!(IntegrationTime::Time100ms.describe(), "100ms");
}

#[test]
fn error_from_bus_error() {
    assert!(matches!(TSL2591Error::from(7u8), TSL2591Error::I2cError(7)));
}

#[test]
fn destroy_returns_the_bus_after_a_sequence_of_operations() {
    let mut sensor = new(vec![]);
    let step = sensor.set_gain::<()>(Gain::MED);
    let r = drive(
        &mut sensor,
        step,
        vec![
            Expect::WriteRead(ADDR, vec![COMMAND_BIT | REGISTER_CONTROL], vec![0]),
            Expect::Write(ADDR, vec![COMMAND_BIT | REGISTER_CONTROL, 0x10]),
        ],
    );
    assert!(matches!(r, Ok(Reading::Done)));
    let step = sensor.full_spectrum::<()>();
    let r = drive(&mut sensor, step, channels([0x04, 0x03], [0x02, 0x01]));
    assert!(matches!(r, Ok(Reading::FullSpectrum(0x0102_0304))));
    let step = sensor.disable::<()>();
    let r = drive(&mut sensor, step, vec![Expect::Write(ADDR, vec![COMMAND_BIT | REGISTER_ENABLE, 0])]);
    assert!(matches!(r, Ok(Reading::Done)));
    // six transactions to start, two for the gain, two for the channels, one to disable
    let bus = sensor.destroy();
    assert_eq!(bus, Bus { transactions: 11 });
}

#[test]
fn the_gain_survives_integration_time_changes() {
    let mut sensor = new(vec![]);
    // the control register reads back the last byte written to it
    let step = sensor.set_gain::<()>(Gain::MAX);
    let r = drive(
        &mut sensor,
        step,
        vec![
            Expect::WriteRead(ADDR, vec![COMMAND_BIT | REGISTER_CONTROL], vec![0x00]),
            Expect::Write(ADDR, vec![COMMAND_BIT | REGISTER_CONTROL, 0x30]),
        ],
    );
    assert!(matches!(r, Ok(Reading::Done)));
    let step = sensor.set_integration_time::<()>(IntegrationTime::Time300ms);
    let r = drive(
        &mut sensor,
        step,
        vec![
            Expect::WriteRead(ADDR, vec![COMMAND_BIT | REGISTER_CONTROL], vec![0x30]),
            Expect::Write(ADDR, vec![COMMAND_BIT | REGISTER_CONTROL, 0x32]),
        ],
    );
    assert!(matches!(r, Ok(Reading::Done)));
    let step = sensor.set_integration_time::<()>(IntegrationTime::Time600ms);
    let r = drive(
        &mut sensor,
        step,
        vec![
            Expect::WriteRead(ADDR, vec![COMMAND_BIT | REGISTER_CONTROL], vec![0x32]),
            Expect::Write(ADDR, vec![COMMAND_BIT | REGISTER_CONTROL, 0x35]),
        ],
    );
    assert!(matches!(r, Ok(Reading::Done)));
    let step = sensor.get_gain::<()>();
    let r = drive(
        &mut sensor,
        step,
        vec![Expect::WriteRead(ADDR, vec![COMMAND_BIT | REGISTER_CONTROL], vec![0x35])],
    );
    assert!(matches!(r, Ok(Reading::Gain(Gain::MAX))));
    assert_eq!(sensor.gain(), Gain::MAX);
}

#[test]
fn destroy_hands_back_the_bus_given_to_new() {
    let (mut sensor, _) = TSL2591Sensor::new::<()>(Bus { transactions: 7 });
    let _ = sensor.set_gain::<()>(Gain::HIGH);
    let _ = sensor.disable::<()>();
    assert_eq!(sensor.destroy(), Bus { transactions: 7 });
}
