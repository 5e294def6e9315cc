use my_home::lifx::Command as LifxCommand;
use my_home::logic::{AdaptiveBrightness, BrightnessCommand, StState, LIGHT_GROUP};
use my_home::smartthings::Command;

fn command(c: &str) -> Command {
    Command {
        id: uuid::Uuid::nil(),
        component: "main".to_string(),
        capability: "switch".to_string(),
        command: c.to_string(),
        arguments: vec![],
    }
}

#[test]
fn the_switch_reports_its_state_and_acts_on_a_change() {
    let mut st = StState::new();
    let a = st.recv(&command("on"));
    assert!(st.light);
    assert_eq!(a.publish.value, serde_json::Value::String("on".to_string()));
    assert_eq!(a.publish.attribute, "switch");
    assert_eq!(a.brightness, Some(BrightnessCommand::TurnOn));
    match a.lifx {
        Some(LifxCommand::SetGroupBrightness { group, brightness }) => {
            assert_eq!(group, "Living Room - Desk");
            assert_eq!(brightness, 0);
        }
        None => panic!("no lifx command"),
    }
    // The same command again only reports the state.
    let a = st.recv(&command("on"));
    assert_eq!(a.publish.value, serde_json::Value::String("on".to_string()));
    assert!(a.brightness.is_none());
    assert!(a.lifx.is_none());
    // Any other command turns the switch off.
    let a = st.recv(&command("toggle"));
    assert!(!st.light);
    assert_eq!(a.publish.value, serde_json::Value::String("off".to_string()));
    assert_eq!(a.brightness, Some(BrightnessCommand::TurnOff));
}

#[test]
fn brightness_follows_only_while_the_light_is_on() {
    let mut b = AdaptiveBrightness::new();
    assert_eq!(b.brightness_command, 1000);
    assert!(!b.follows_light_level());
    b.recv(BrightnessCommand::TurnOn);
    assert!(b.follows_light_level());
    b.recv(BrightnessCommand::TurnOff);
    assert!(!b.follows_light_level());
}

#[test]
fn brightness_is_held_to_the_range_of_a_u16() {
    let mut b = AdaptiveBrightness::new();
    let LifxCommand::SetGroupBrightness { group, brightness } = b.apply(-5);
    assert_eq!(group, LIGHT_GROUP);
    assert_eq!(brightness, 0);
    let LifxCommand::SetGroupBrightness { brightness, .. } = b.apply(1234);
    assert_eq!(brightness, 1234);
    assert_eq!(b.brightness_command, 1234);
    let LifxCommand::SetGroupBrightness { brightness, .. } = b.apply(70000);
    assert_eq!(brightness, 65535);
    let LifxCommand::SetGroupBrightness { brightness, .. } = b.apply(65535);
    assert_eq!(brightness, 65535);
}
