//! The parts of the MQTT client that decide: its options, the checks of its
//! requests, and the bookkeeping of its connection.
use vstd::prelude::*;
use vstd::string::*;

pub mod connection;

verus! {

/// The quality of service of a message.
#[derive(Clone, Copy, Debug, PartialEq, Eq, Structural)]
pub enum QualityOfService {
    Level0,
    Level1,
    Level2,
}

/// A message to publish.
#[derive(Clone, Debug)]
pub struct Publish {
    pub topic: String,
    pub payload: Vec<u8>,
    pub qos: QualityOfService,
}

impl Publish {
    pub fn new(topic: String, payload: Vec<u8>, qos: QualityOfService) -> (r: Publish)
        ensures
            r.topic == topic,
            r.payload == payload,
            r.qos == qos,
    {
        Publish { topic, payload, qos }
    }
}

/// A message received on a subscription.
#[derive(Clone, Debug)]
pub struct SubMessage {
    pub topic_name: String,
    pub payload: Vec<u8>,
    pub qos: QualityOfService,
}

#[derive(Clone, Copy, Debug, PartialEq, Eq, Structural)]
pub enum KeepAlive {
    /// Keep alive ping packets are disabled.
    Disabled,
    /// Send a keep alive ping packet every `secs` seconds.
    Enabled {
        /// The number of seconds between packets.
        secs: u16,
    },
}

impl KeepAlive {
    /// The keep alive interval announced to the broker, 0 meaning none.
    pub fn secs(self) -> (r: u16)
        ensures
            r == match self {
                KeepAlive::Disabled => 0u16,
                KeepAlive::Enabled { secs } => secs,
            },
    {
        match self {
            KeepAlive::Disabled => 0,
            KeepAlive::Enabled { secs } => secs,
        }
    }
}

#[derive(Debug, Clone)]
pub enum ClientError {
    /// Failed to send mqtt write request to the run loop
    HandleError(String),
    /// A connection already exists
    AlreadyConnected,
    /// Operation cannot be done because no connection exists
    NotConnected,
}

/// The options of a client to be built.
pub struct Builder {
    pub host: String,
    pub port: u16,
    pub username: Option<String>,
    pub password: Option<String>,
    pub keep_alive: KeepAlive,
    pub client_id: Option<String>,
}

/// Whether `o` holds a string equal to `s`.
pub open spec fn holds(o: Option<String>, s: Seq<char>) -> bool {
    o matches Some(v) && v@ == s
}

impl Builder {
    /// The options of a client of `host:port`, with no credentials, no
    /// keep alive and no client identifier.
    pub fn new(host: &str, port: u16) -> (r: Builder)
        ensures
            r.host@ == host@,
            r.port == port,
            r.username is None,
            r.password is None,
            r.keep_alive == KeepAlive::Disabled,
            r.client_id is None,
    {
        Builder {
            host: String::from_str(host),
            port,
            username: None,
            password: None,
            keep_alive: KeepAlive::Disabled,
            client_id: None,
        }
    }

    pub fn set_user_name(self, user_name: &str) -> (r: Self)
        ensures
            holds(r.username, user_name@),
            r.host == self.host,
            r.port == self.port,
            r.password == self.password,
            r.keep_alive == self.keep_alive,
            r.client_id == self.client_id,
    {
        let mut b = self;
        b.username = Some(String::from_str(user_name));
        b
    }

    pub fn set_password(self, password: &str) -> (r: Self)
        ensures
            holds(r.password, password@),
            r.host == self.host,
            r.port == self.port,
            r.username == self.username,
            r.keep_alive == self.keep_alive,
            r.client_id == self.client_id,
    {
        let mut b = self;
        b.password = Some(String::from_str(password));
        b
    }

    pub fn set_keep_alive(self, keepalive: KeepAlive) -> (r: Self)
        ensures
            r.keep_alive == keepalive,
            r.host == self.host,
            r.port == self.port,
            r.username == self.username,
            r.password == self.password,
            r.client_id == self.client_id,
    {
        let mut b = self;
        b.keep_alive = keepalive;
        b
    }

    pub fn set_client_id(self, client_id: &str) -> (r: Self)
        ensures
            holds(r.client_id, client_id@),
            r.host == self.host,
            r.port == self.port,
            r.username == self.username,
            r.password == self.password,
            r.keep_alive == self.keep_alive,
    {
        let mut b = self;
        b.client_id = Some(String::from_str(client_id));
        b
    }
}

/// What a client announces to the broker when it connects.
#[derive(Clone, Debug)]
pub struct ConnectSettings {
    pub client_id: String,
    /// The keep alive interval, in seconds; 0 for none.
    pub keep_alive: u16,
    pub clean_session: bool,
    pub user_name: Option<String>,
    pub password: Option<String>,
}

impl Builder {
    /// What a client of these options announces when it connects: its
    /// identifier (the default one when none was set), its keep alive
    /// interval, a clean session, and its credentials.
    pub fn connect_settings(&self) -> (r: ConnectSettings)
        ensures
            match self.client_id {
                Some(c) => r.client_id@ == c@,
                None => r.client_id@ == DEFAULT_CLIENT_ID@,
            },
            r.keep_alive == match self.keep_alive {
                KeepAlive::Disabled => 0u16,
                KeepAlive::Enabled { secs } => secs,
            },
            r.clean_session,
            r.user_name == self.username,
            r.password == self.password,
    {
        ConnectSettings {
            client_id: client_id_or_default(&self.client_id),
            keep_alive: self.keep_alive.secs(),
            clean_session: true,
            user_name: self.username.clone(),
            password: self.password.clone(),
        }
    }
}

/// The identifier a client presents when none was configured.
pub const DEFAULT_CLIENT_ID: &'static str = "fc606d39-ac57-40e0-8b41-891ee3088e46";

/// The identifier the client presents to the broker: the configured one,
/// else the default one.
pub fn client_id_or_default(client_id: &Option<String>) -> (r: String)
    ensures
        match client_id {
            Some(c) => r@ == c@,
            None => r@ == DEFAULT_CLIENT_ID@,
        },
{
    match client_id {
        Some(c) => c.clone(),
        None => String::from_str(DEFAULT_CLIENT_ID),
    }
}

/// Whether a client that is (or is not) connected may start a connection.
///
/// A client that already has a run loop is refused: a connection already
/// exists.
pub fn check_connect(connected: bool) -> (r: Result<(), ClientError>)
    ensures
        connected <==> r is Err,
        r matches Err(e) ==> e is AlreadyConnected,
{
    if connected {
        Err(ClientError::AlreadyConnected)
    } else {
        Ok(())
    }
}

/// Whether a client that is (or is not) connected may publish.
pub fn check_publish(connected: bool) -> (r: Result<(), ClientError>)
    ensures
        connected <==> r is Ok,
        r matches Err(e) ==> e is NotConnected,
{
    if connected {
        Ok(())
    } else {
        Err(ClientError::NotConnected)
    }
}

/// Whether `topic` is a valid MQTT topic name: not empty, of at most 65535
/// bytes in UTF-8, and without the wildcards `#` and `+`.
pub open spec fn valid_topic_name(topic: Seq<char>) -> bool {
    &&& topic.len() > 0
    &&& vstd::utf8::encode_utf8(topic).len() <= 65535
    &&& !topic.contains('#')
    &&& !topic.contains('+')
}

/// `mqtt::TopicName::new`: the topic name, when `topic` is a valid one,
/// handed back as the text it holds (which is `topic`); otherwise the error
/// holds `topic` back.
#[verifier::external_body]
fn topic_name_new(topic: String) -> (r: Result<String, String>)
    ensures
        r is Ok <==> valid_topic_name(topic@),
        r matches Ok(t) ==> t@ == topic@,
        r matches Err(t) ==> t@ == topic@,
{
    mqtt::TopicName::new(topic).map(String::from).map_err(|e| e.0)
}

/// Why a request could not be handed to the connection's run loop.
#[derive(Debug)]
pub enum HandleError {
    /// The request could not be queued.
    WriterRequest(String),
    /// The run loop did not answer.
    WriterResponse(String),
    /// The topic name is not a valid one; it is held back.
    InvalidTopicName(String),
}

/// What the connection's writer is asked to do. The topic of `Publish` is
/// a valid topic name (see `valid_topic_name`).
#[derive(Debug)]
pub enum WriterCommand {
    Publish(String, QualityOfService, Vec<u8>),
    Subscribe,
    Unsubscribe,
    Disconnect,
}

/// The writer command that publishes `publish`, once its topic is checked
/// to be a valid topic name.
pub fn publish_command(publish: Publish) -> (r: Result<WriterCommand, HandleError>)
    ensures
        r is Ok <==> valid_topic_name(publish.topic@),
        r matches Ok(WriterCommand::Publish(topic, qos, payload)) ==> topic@ == publish.topic@
            && valid_topic_name(topic@) && qos == publish.qos && payload == publish.payload,
        r matches Ok(c) ==> c is Publish,
        r matches Err(e) ==> e matches HandleError::InvalidTopicName(t) && t@ == publish.topic@,
{
    match topic_name_new(publish.topic) {
        Ok(topic) => Ok(WriterCommand::Publish(topic, publish.qos, publish.payload)),
        Err(t) => Err(HandleError::InvalidTopicName(t)),
    }
}

} // verus!
