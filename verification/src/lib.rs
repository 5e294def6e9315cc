//! Logic of a small smart-home controller: a light sensor driver, the
//! publish/subscribe and actor plumbing, the LIFX bulb bookkeeping, the
//! SmartThings session and the MQTT connection bookkeeping.
use vstd::prelude::*;

pub mod actor;
pub mod configuration;
pub mod lifx;
pub mod logic;
pub mod mqtt;
pub mod screen;
pub mod sensors;
pub mod smartthings;
pub mod text;
pub mod tsl2591;

verus! {

} // verus!
