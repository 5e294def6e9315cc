//! The decisions that tie the sensors, the lights and the platform
//! together: the state of the switch that the platform sees, and the
//! brightness that follows the light level.
use vstd::prelude::*;
use vstd::string::*;

use crate::lifx::Command as LifxCommand;
use crate::smartthings::{json_string_value, Command, DeviceEvent};

verus! {

/// The LIFX group whose brightness the controller drives.
pub const LIGHT_GROUP: &'static str = "Living Room - Desk";

/// Whether `c` sets the brightness of `LIGHT_GROUP` to `brightness`.
pub open spec fn sets_light_group(c: LifxCommand, brightness: u16) -> bool {
    c matches LifxCommand::SetGroupBrightness { group, brightness: b } && group@ == LIGHT_GROUP@
        && b == brightness
}

/// What the brightness logic is told of the light.
#[derive(Clone, Copy, Debug, PartialEq, Eq, Structural)]
pub enum BrightnessCommand {
    TurnOn,
    TurnOff,
}

/// The state of the switch that the platform sees.
#[derive(Clone, Copy, Debug, PartialEq, Eq, Structural)]
pub struct StState {
    pub light: bool,
}

/// What the switch does on a command: the event it sends back to the
/// platform, and, when the light changes, what it tells the brightness
/// logic and the lights.
#[derive(Debug)]
pub struct StActions {
    pub publish: DeviceEvent,
    pub brightness: Option<BrightnessCommand>,
    pub lifx: Option<LifxCommand>,
}

/// Whether `e` is the event reporting the switch `on` or off.
pub open spec fn is_switch_event(e: DeviceEvent, on: bool) -> bool {
    &&& e.component@ == "main"@
    &&& e.capability@ == "switch"@
    &&& e.attribute@ == "switch"@
    &&& e.value == json_string_value(if on { "on"@ } else { "off"@ })
    &&& e.unit is None
    &&& e.data is None
    &&& e.command_id is None
    &&& e.visibility is None
    &&& e.provider_data is None
}

impl StState {
    /// The switch, off.
    pub fn new() -> (r: StState)
        ensures
            !r.light,
    {
        StState { light: false }
    }

    /// Handles a command from the platform: the command `on` turns the
    /// switch on and any other turns it off. The new state is always sent
    /// back; when it differs from the old one, the brightness logic is told
    /// and the light group is set to brightness 0.
    pub fn recv(&mut self, command: &Command) -> (r: StActions)
        ensures
            final(self).light == (command.command@ == "on"@),
            is_switch_event(r.publish, final(self).light),
            final(self).light == old(self).light ==> r.brightness is None && r.lifx is None,
            final(self).light != old(self).light ==> {
                &&& r.brightness == Some(
                    if final(self).light {
                        BrightnessCommand::TurnOn
                    } else {
                        BrightnessCommand::TurnOff
                    },
                )
                &&& r.lifx matches Some(c) && sets_light_group(c, 0)
            },
    {
        let on = String::from_str("on");
        let switch = command.command == on;
        proof {
            reveal_strlit("on");
            reveal_strlit("off");
            reveal_strlit("main");
            reveal_strlit("switch");
            reveal_strlit("Living Room - Desk");
        }
        let value = if switch {
            "on"
        } else {
            "off"
        };
        let publish = DeviceEvent::simple_str("main", "switch", "switch", value);
        if switch != self.light {
            self.light = switch;
            let cmd = if switch {
                BrightnessCommand::TurnOn
            } else {
                BrightnessCommand::TurnOff
            };
            let lifx = LifxCommand::SetGroupBrightness {
                group: String::from_str(LIGHT_GROUP),
                brightness: 0,
            };
            StActions { publish, brightness: Some(cmd), lifx: Some(lifx) }
        } else {
            StActions { publish, brightness: None, lifx: None }
        }
    }
}

/// The brightness of the light group, `n` held to the range of a `u16`.
pub open spec fn clamped(n: i64) -> u16 {
    if n < 0 {
        0
    } else if n <= 65535 {
        n as u16
    } else {
        65535
    }
}

/// The brightness that follows the light level, while the light is on.
/// The controller that turns a light level into a correction works on
/// floating point and stands outside; this holds what it decides from.
#[derive(Clone, Copy, Debug, PartialEq, Eq, Structural)]
pub struct AdaptiveBrightness {
    pub brightness_command: u16,
    pub light_turned_on: bool,
}

impl AdaptiveBrightness {
    /// The light off, at a brightness of 1000.
    pub fn new() -> (r: AdaptiveBrightness)
        ensures
            r.brightness_command == 1000,
            !r.light_turned_on,
    {
        AdaptiveBrightness { brightness_command: 1000, light_turned_on: false }
    }

    /// Records that the light was turned on or off.
    pub fn recv(&mut self, msg: BrightnessCommand)
        ensures
            final(self).light_turned_on == (msg == BrightnessCommand::TurnOn),
            final(self).brightness_command == old(self).brightness_command,
    {
        match msg {
            BrightnessCommand::TurnOn => self.light_turned_on = true,
            BrightnessCommand::TurnOff => self.light_turned_on = false,
        }
    }

    /// Whether a new light level moves the brightness: it does only while
    /// the light is on.
    pub fn follows_light_level(&self) -> (r: bool)
        ensures
            r == self.light_turned_on,
    {
        self.light_turned_on
    }

    /// Sets the brightness to `next`, the corrected brightness rounded to an
    /// integer, held to the range of a `u16`, and gives the command that
    /// sets the light group to it.
    pub fn apply(&mut self, next: i64) -> (r: LifxCommand)
        ensures
            final(self).brightness_command == clamped(next),
            final(self).light_turned_on == old(self).light_turned_on,
            sets_light_group(r, clamped(next)),
    {
        let brightness: u16 = if next < 0 {
            0
        } else if next <= 65535 {
            next as u16
        } else {
            65535
        };
        self.brightness_command = brightness;
        proof {
            reveal_strlit("Living Room - Desk");
        }
        LifxCommand::SetGroupBrightness { group: String::from_str(LIGHT_GROUP), brightness }
    }
}

} // verus!
