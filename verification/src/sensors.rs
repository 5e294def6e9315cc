//! The onboard sensors: the channel their readings are published to, and
//! what the sensors actor is asked.
use vstd::prelude::*;

verus! {

/// Channel name where the sensor readings are published to.
pub const SENSORS_CHANNEL_NAME: &'static str = "sensors/luminosity";

/// How often the sensors are read, in seconds.
pub const READ_PERIOD_SECS: u64 = 5;

/// What the sensors actor is asked.
#[derive(Clone, Copy, Debug, PartialEq, Eq, Structural)]
pub enum SensorsMessage {
    /// Read every sensor and publish what they read.
    ReadRequest,
}

} // verus!
