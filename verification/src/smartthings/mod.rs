//! The connection between this project and the SmartThings platform: its
//! data model, the routing of what the platform sends, and the session that
//! decides when device events are sent.
use vstd::prelude::*;
use vstd::string::*;

pub mod jwt;
pub mod session;

use crate::text;

verus! {

#[verifier::external_type_specification]
#[verifier::external_body]
pub struct ExJsonValue(serde_json::Value);

#[verifier::external_type_specification]
#[verifier::external_body]
pub struct ExUuid(uuid::Uuid);

/// The derived `Clone` of `serde_json::Value`: a copy of the value.
pub assume_specification[ <serde_json::Value as std::clone::Clone>::clone ](
    value: &serde_json::Value,
) -> (r: serde_json::Value)
    ensures
        r == *value,
;

/// The derived `Clone` of `uuid::Uuid` (a `Copy` type): a copy of the value.
pub assume_specification[ <uuid::Uuid as std::clone::Clone>::clone ](id: &uuid::Uuid) -> (r:
    uuid::Uuid)
    ensures
        r == *id,
;

/// The JSON string value holding `s`, as `serde_json` builds it.
pub uninterp spec fn json_string_value(s: Seq<char>) -> serde_json::Value;

/// `serde_json::Value::String`: the JSON string holding `s`, a value that
/// depends on `s` alone.
#[verifier::external_body]
fn json_string(s: &str) -> (r: serde_json::Value)
    ensures
        r == json_string_value(s@),
{
    serde_json::Value::String(s.to_string())
}

/// The topic a message from the platform arrived on.
#[derive(Clone, Copy, Debug, PartialEq, Eq, Structural)]
pub enum Topic {
    Notifications,
    Commands,
}

/// The prefix of the topics that carry commands.
pub const COMMANDS_PREFIX: &'static str = "/v1/commands";
/// The prefix of the topics that carry notifications.
pub const NOTIFICATIONS_PREFIX: &'static str = "/v1/notifications";
/// The prefix of the topic device events are published to.
pub const DEVICE_EVENTS_PREFIX: &'static str = "/v1/deviceEvents/";

/// Whether `name` is the name of a topic the platform sends on.
pub open spec fn is_known_topic(name: Seq<char>) -> bool {
    COMMANDS_PREFIX@.is_prefix_of(name) || NOTIFICATIONS_PREFIX@.is_prefix_of(name)
}

impl Topic {
    /// The topic that a topic name designates, by its prefix.
    pub fn from_topic_name(name: &str) -> (r: Topic)
        requires
            is_known_topic(name@),
        ensures
            COMMANDS_PREFIX@.is_prefix_of(name@) ==> r == Topic::Commands,
            !COMMANDS_PREFIX@.is_prefix_of(name@) ==> r == Topic::Notifications,
    {
        if text::starts_with(name, COMMANDS_PREFIX) {
            Topic::Commands
        } else {
            Topic::Notifications
        }
    }
}

/// Whether `name` is the name of a topic the platform sends on.
pub fn is_known_topic_name(name: &str) -> (r: bool)
    ensures
        r == is_known_topic(name@),
{
    text::starts_with(name, COMMANDS_PREFIX) || text::starts_with(name, NOTIFICATIONS_PREFIX)
}

/// The topic the events of `device_id` are published to.
pub fn device_events_topic(device_id: &str) -> (r: String)
    ensures
        r@ == DEVICE_EVENTS_PREFIX@ + device_id@,
{
    text::concat(DEVICE_EVENTS_PREFIX, device_id)
}

/// The topic the commands for `device_id` arrive on.
pub fn commands_topic(device_id: &str) -> (r: String)
    ensures
        r@ == COMMANDS_PREFIX@ + "/"@ + device_id@,
{
    let t = text::concat(COMMANDS_PREFIX, "/");
    let r = text::concat(t.as_str(), device_id);
    r
}

/// The topic the notifications for `device_id` arrive on.
pub fn notifications_topic(device_id: &str) -> (r: String)
    ensures
        r@ == NOTIFICATIONS_PREFIX@ + "/"@ + device_id@,
{
    let t = text::concat(NOTIFICATIONS_PREFIX, "/");
    let r = text::concat(t.as_str(), device_id);
    r
}

#[derive(Debug, Clone)]
pub struct EventVisibility {
    pub displayed: bool,
    pub non_archivable: bool,
    pub ephemeral: bool,
}

#[derive(Debug, Clone)]
pub struct EventProviderData {
    pub timestamp: Option<u64>,
    pub sequence_number: Option<u64>,
    pub event_id: Option<String>,
    pub state_change: Option<EventStateChange>,
    pub raw_data: Option<String>,
}

#[derive(Clone, Copy, Debug, PartialEq, Eq, Structural)]
pub enum EventStateChange {
    Y,
    N,
    Unknown,
}

/// An event about the state of a device, sent to the platform.
#[derive(Debug, Clone)]
pub struct DeviceEvent {
    pub component: String,
    pub capability: String,
    pub attribute: String,
    pub value: serde_json::Value,
    pub unit: Option<String>,
    pub data: Option<serde_json::Value>,
    pub command_id: Option<uuid::Uuid>,
    pub visibility: Option<EventVisibility>,
    pub provider_data: Option<EventProviderData>,
}

impl DeviceEvent {
    /// An event whose value is the string `value`, with no other detail.
    pub fn simple_str(component: &str, capability: &str, attribute: &str, value: &str) -> (r:
        DeviceEvent)
        ensures
            r.component@ == component@,
            r.capability@ == capability@,
            r.attribute@ == attribute@,
            r.value == json_string_value(value@),
            r.unit is None,
            r.data is None,
            r.command_id is None,
            r.visibility is None,
            r.provider_data is None,
    {
        DeviceEvent {
            component: String::from_str(component),
            capability: String::from_str(capability),
            attribute: String::from_str(attribute),
            value: json_string(value),
            unit: None,
            data: None,
            command_id: None,
            visibility: None,
            provider_data: None,
        }
    }
}

/// The events sent in one message.
#[derive(Debug, Clone)]
pub struct DeviceEvents {
    pub device_events: Vec<DeviceEvent>,
}

impl DeviceEvents {
    pub fn one(event: DeviceEvent) -> (r: DeviceEvents)
        ensures
            r.device_events@ == seq![event],
    {
        let mut v = Vec::new();
        v.push(event);
        DeviceEvents { device_events: v }
    }

    pub fn many(events: Vec<DeviceEvent>) -> (r: DeviceEvents)
        ensures
            r.device_events == events,
    {
        DeviceEvents { device_events: events }
    }
}

/// A command sent by the platform.
#[derive(Debug, Clone)]
pub struct Command {
    pub id: uuid::Uuid,
    pub component: String,
    pub capability: String,
    pub command: String,
    pub arguments: Vec<serde_json::Value>,
}

/// The commands sent in one message.
#[derive(Debug, Clone)]
pub struct Commands {
    pub commands: Vec<Command>,
}

/// A message received from the platform, once routed.
#[derive(Debug)]
pub enum Incoming {
    /// The JSON text of a list of commands.
    Commands(Vec<u8>),
    /// The text of a notification.
    Notification(Vec<u8>),
}

/// Routes a message received on `topic_name`: its payload, stripped of
/// the zero bytes around it, goes to the commands or to the notifications.
pub fn route_message(topic_name: &str, payload: &[u8]) -> (r: Incoming)
    requires
        is_known_topic(topic_name@),
    ensures
        match r {
            Incoming::Commands(p) => COMMANDS_PREFIX@.is_prefix_of(topic_name@) && text::is_trim_of(
                p@,
                payload@,
            ),
            Incoming::Notification(p) => !COMMANDS_PREFIX@.is_prefix_of(topic_name@)
                && text::is_trim_of(p@, payload@),
        },
{
    let p = text::trim(payload);
    let bytes = vstd::slice::slice_to_vec(p);
    match Topic::from_topic_name(topic_name) {
        Topic::Commands => Incoming::Commands(bytes),
        Topic::Notifications => Incoming::Notification(bytes),
    }
}

} // verus!
