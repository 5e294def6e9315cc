//! The session with the SmartThings platform: it holds the device events
//! until a connection exists, and decides what the actor that drives the
//! MQTT client does next.
use vstd::prelude::*;

use super::{commands_topic, notifications_topic, DeviceEvent, DeviceEvents};
use super::{COMMANDS_PREFIX, NOTIFICATIONS_PREFIX};
use crate::configuration::Configuration;
use crate::mqtt::{holds, Builder, ClientError, KeepAlive, QualityOfService};

verus! {

/// The identity type that the platform keys are supported for.
pub const SUPPORTED_IDENTITY_TYPE: &'static str = "ED25519";

/// The broker of the platform.
pub const BROKER_HOST: &'static str = "mqtt-regional-useast1.api.smartthings.com";

/// The port of the broker.
pub const BROKER_PORT: u16 = 8883;

/// The identifier the device's client presents to the broker.
pub const CLIENT_ID: &'static str = "mqtt-console-rs";

/// The keep alive interval of the device's client, in seconds.
pub const KEEP_ALIVE_SECS: u16 = 60;

#[derive(Debug)]
pub enum CreateError {
    /// We only support ED25519 keys.
    UnsupportedIdentityType(String),
}

#[derive(Clone, Copy, Debug, PartialEq, Eq, Structural)]
pub enum ConnectionState {
    Disconnected,
    WaitingConnection,
    Connected,
}

/// What the session is asked to do.
#[derive(Debug, Clone)]
pub enum Cmd {
    Connect,
    Publish(DeviceEvent),
}

/// What became of the work the session asked for.
#[derive(Debug)]
pub enum LifeCycleEvent {
    ConnectResult(Result<(), ClientError>),
    PublishResult(Result<(), ClientError>),
    SuscribeResult(Result<(), ClientError>),
}

/// What the actor does next.
#[derive(Debug)]
pub enum Action {
    /// Nothing.
    Idle,
    /// Build a new client, connect it, then subscribe to the device's topics.
    Connect,
    /// Publish `events` on `topic` with the client, at quality of service
    /// `qos`.
    Publish { topic: String, events: DeviceEvents, qos: QualityOfService },
    /// Feed the messages of the client's subscriptions to the actor.
    Subscribe,
}

/// The session's state, apart from its configuration.
pub struct SessionState {
    pub connection: ConnectionState,
    pub pending: Seq<DeviceEvent>,
    pub has_client: bool,
}

/// The state after publishing `e`, and the events sent (empty when none is).
pub open spec fn publish_step(s: SessionState, e: DeviceEvent) -> (SessionState, Seq<DeviceEvent>) {
    if s.connection == ConnectionState::Connected {
        (SessionState { pending: Seq::empty(), ..s }, if s.has_client {
            s.pending.push(e)
        } else {
            Seq::empty()
        })
    } else {
        (SessionState { pending: s.pending.push(e), ..s }, Seq::empty())
    }
}

/// The state after publishing every event of `es` in turn, and the events
/// sent, in the order they were sent.
pub open spec fn publish_all(s: SessionState, es: Seq<DeviceEvent>) -> (SessionState, Seq<DeviceEvent>)
    decreases es.len(),
{
    if es.len() == 0 {
        (s, Seq::empty())
    } else {
        let (s1, sent1) = publish_all(s, es.drop_last());
        let (s2, sent2) = publish_step(s1, es.last());
        (s2, sent1 + sent2)
    }
}

/// The session with the platform.
pub struct SmartThings {
    connection: ConnectionState,
    pending_events: Vec<DeviceEvent>,
    has_client: bool,
    configuration: Configuration,
}

impl SmartThings {
    pub closed spec fn state(&self) -> SessionState {
        SessionState {
            connection: self.connection,
            pending: self.pending_events@,
            has_client: self.has_client,
        }
    }

    pub closed spec fn configuration(&self) -> Configuration {
        self.configuration
    }

    /// A disconnected session, for a device whose keys are of the
    /// supported identity type.
    pub fn new(configuration: Configuration) -> (r: Result<SmartThings, CreateError>)
        ensures
            configuration.onboarding.identity_type@ == SUPPORTED_IDENTITY_TYPE@ <==> r is Ok,
            r matches Ok(s) ==> s.state() == (SessionState {
                connection: ConnectionState::Disconnected,
                pending: Seq::empty(),
                has_client: false,
            }) && s.configuration() == configuration,
            r matches Err(CreateError::UnsupportedIdentityType(t)) ==> t
                == configuration.onboarding.identity_type,
    {
        let supported = String::from_str(SUPPORTED_IDENTITY_TYPE);
        if configuration.onboarding.identity_type != supported {
            return Err(CreateError::UnsupportedIdentityType(configuration.onboarding.identity_type));
        }
        Ok(SmartThings {
            connection: ConnectionState::Disconnected,
            pending_events: Vec::new(),
            has_client: false,
            configuration,
        })
    }

    pub fn connection(&self) -> (r: ConnectionState)
        ensures
            r == self.state().connection,
    {
        self.connection
    }

    pub fn pending_events(&self) -> (r: &Vec<DeviceEvent>)
        ensures
            r@ == self.state().pending,
    {
        &self.pending_events
    }

    pub fn configuration_ref(&self) -> (r: &Configuration)
        ensures
            *r == self.configuration(),
    {
        &self.configuration
    }

    /// The options of the client that connects the device, whose password
    /// is the token `jwt`: the platform's broker, this client's identifier,
    /// a keep alive of a minute, and the device identifier as user name.
    pub fn client_options(&self, jwt: &str) -> (r: Builder)
        ensures
            r.host@ == BROKER_HOST@,
            r.port == BROKER_PORT,
            holds(r.client_id, CLIENT_ID@),
            holds(r.password, jwt@),
            r.keep_alive == (KeepAlive::Enabled { secs: KEEP_ALIVE_SECS }),
            holds(r.username, self.configuration().stcli.device_id@),
    {
        Builder::new(BROKER_HOST, BROKER_PORT)
            .set_client_id(CLIENT_ID)
            .set_password(jwt)
            .set_keep_alive(KeepAlive::Enabled { secs: KEEP_ALIVE_SECS })
            .set_user_name(self.configuration.stcli.device_id.as_str())
    }

    /// The topics the connected client subscribes to: the device's
    /// commands, then its notifications, both at quality of service 0.
    pub fn subscriptions(&self) -> (r: Vec<(String, QualityOfService)>)
        ensures
            r@.len() == 2,
            r@[0].0@ == COMMANDS_PREFIX@ + "/"@ + self.configuration().stcli.device_id@,
            r@[1].0@ == NOTIFICATIONS_PREFIX@ + "/"@ + self.configuration().stcli.device_id@,
            r@[0].1 == QualityOfService::Level0,
            r@[1].1 == QualityOfService::Level0,
    {
        let device_id = self.configuration.stcli.device_id.as_str();
        let mut r = Vec::new();
        r.push((commands_topic(device_id), QualityOfService::Level0));
        r.push((notifications_topic(device_id), QualityOfService::Level0));
        r
    }

    /// Handles a command.
    ///
    /// `Connect` always starts a new client. `Publish` sends the held events
    /// followed by the new one when connected (and drops them when the
    /// connected session lost its client), and holds the new one otherwise.
    pub fn recv_cmd(&mut self, msg: Cmd) -> (r: Action)
        ensures
            final(self).configuration() == old(self).configuration(),
            match msg {
                Cmd::Connect => {
                    &&& r is Connect
                    &&& final(self).state() == (SessionState {
                        connection: ConnectionState::WaitingConnection,
                        has_client: true,
                        ..old(self).state()
                    })
                },
                Cmd::Publish(e) => {
                    let (s, sent) = publish_step(old(self).state(), e);
                    &&& final(self).state() == s
                    &&& match r {
                        Action::Publish { topic, events, qos } => {
                            &&& sent.len() > 0
                            &&& qos == QualityOfService::Level1
                            &&& events.device_events@ == sent
                            &&& topic@ == super::DEVICE_EVENTS_PREFIX@
                                + old(self).configuration().stcli.device_id@
                        },
                        Action::Idle => sent.len() == 0,
                        _ => false,
                    }
                },
            },
    {
        match msg {
            Cmd::Connect => {
                self.has_client = true;
                self.connection = ConnectionState::WaitingConnection;
                Action::Connect
            },
            Cmd::Publish(event) => {
                if self.connection == ConnectionState::Connected {
                    let events = if self.pending_events.len() == 0 {
                        DeviceEvents::one(event)
                    } else {
                        let mut events = Vec::new();
                        std::mem::swap(&mut events, &mut self.pending_events);
                        events.push(event);
                        DeviceEvents::many(events)
                    };
                    self.pending_events = Vec::new();
                    if self.has_client {
                        let topic = super::device_events_topic(
                            self.configuration.stcli.device_id.as_str(),
                        );
                        Action::Publish { topic, events, qos: QualityOfService::Level1 }
                    } else {
                        Action::Idle
                    }
                } else {
                    self.pending_events.push(event);
                    Action::Idle
                }
            },
        }
    }

    /// Handles the outcome of the work the session asked for.
    ///
    /// A failed connection drops the client; subscriptions are fed to the
    /// actor once the subscription succeeded on an existing client.
    pub fn recv_lifecycle(&mut self, msg: LifeCycleEvent) -> (r: Action)
        ensures
            final(self).configuration() == old(self).configuration(),
            final(self).state().pending == old(self).state().pending,
            match msg {
                LifeCycleEvent::ConnectResult(Ok(())) => r is Idle && final(self).state() == (
                SessionState { connection: ConnectionState::Connected, ..old(self).state() }),
                LifeCycleEvent::ConnectResult(Err(_)) => r is Idle && final(self).state() == (
                SessionState {
                    connection: ConnectionState::Disconnected,
                    has_client: false,
                    ..old(self).state()
                }),
                LifeCycleEvent::SuscribeResult(Ok(())) => final(self).state() == old(self).state()
                    && (if old(self).state().has_client {
                    r is Subscribe
                } else {
                    r is Idle
                }),
                _ => r is Idle && final(self).state() == old(self).state(),
            },
    {
        match msg {
            LifeCycleEvent::ConnectResult(result) => {
                match result {
                    Ok(()) => {
                        self.connection = ConnectionState::Connected;
                    },
                    Err(_) => {
                        self.connection = ConnectionState::Disconnected;
                        self.has_client = false;
                    },
                }
                Action::Idle
            },
            LifeCycleEvent::PublishResult(_) => Action::Idle,
            LifeCycleEvent::SuscribeResult(Ok(())) => {
                if self.has_client {
                    Action::Subscribe
                } else {
                    Action::Idle
                }
            },
            LifeCycleEvent::SuscribeResult(Err(_)) => Action::Idle,
        }
    }
}

/// No device event is lost or reordered while the session has a client:
/// after publishing `es`, the events sent followed by the events still held
/// are the events held before followed by `es`. While connected nothing
/// stays held; while not connected nothing is sent.
pub proof fn law_events_sent_in_order(s: SessionState, es: Seq<DeviceEvent>)
    requires
        s.has_client,
    ensures
        ({
            let (s2, sent) = publish_all(s, es);
            &&& sent + s2.pending == s.pending + es
            &&& s2.connection == s.connection
            &&& s2.has_client
            &&& (s.connection == ConnectionState::Connected && es.len() > 0) ==> s2.pending.len()
                == 0
            &&& s.connection != ConnectionState::Connected ==> sent.len() == 0
        }),
    decreases es.len(),
{
    if es.len() > 0 {
        law_events_sent_in_order(s, es.drop_last());
        let (s1, sent1) = publish_all(s, es.drop_last());
        assert(es.drop_last().push(es.last()) =~= es);
        if s1.connection == ConnectionState::Connected {
            assert(sent1 + s1.pending.push(es.last()) + Seq::<DeviceEvent>::empty() =~= s.pending
                + es);
        } else {
            assert(sent1 + Seq::<DeviceEvent>::empty() + s1.pending.push(es.last()) =~= s.pending
                + es);
        }
    }
}

} // verus!
