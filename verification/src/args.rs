//! Command-line configuration and what the MQTT connection is made from.

use vstd::prelude::*;
use crate::decimal::{decimal, push_decimal};

verus! {

/// Log output format.
#[derive(Debug, Clone, Copy, PartialEq, Eq, Structural)]
pub enum LogFormat {
    Pretty,
    Json,
}

/// The program's configuration.
#[derive(Debug)]
pub struct Args {
    /// Log output format.
    pub log_format: LogFormat,
    /// eNet gateway address (example: 1.1.1.1:9050).
    pub gateway: String,
    /// MQTT settings.
    pub mqtt: Mqtt,
}

/// MQTT broker settings.
#[derive(Debug)]
pub struct Mqtt {
    /// MQTT broker address (example: mosquitto.org).
    pub host: String,
    /// MQTT port.
    pub port: u32,
    /// MQTT credentials.
    pub auth: MqttAuth,
}

/// MQTT credentials.
#[derive(Debug)]
pub struct MqttAuth {
    /// MQTT username.
    pub username: Option<String>,
    /// MQTT password.
    pub password: Option<String>,
}

/// What the MQTT connect options are built from: the one server URI, and
/// the user name and password to set when given.
#[derive(Debug)]
pub struct ConnectSettings {
    pub server_uri: String,
    pub user_name: Option<String>,
    pub password: Option<String>,
}

/// `tcp://{host}:{port}`.
pub open spec fn server_uri(host: Seq<char>, port: u32) -> Seq<char> {
    "tcp://"@ + host + ":"@ + decimal(port as nat)
}

/// The characters of an optional string.
pub open spec fn opt_view(s: Option<String>) -> Option<Seq<char>> {
    match s {
        Some(v) => Some(v@),
        None => None,
    }
}

impl Mqtt {
    /// The URI of the broker.
    pub fn server_uri(&self) -> (r: String)
        ensures
            r@ == server_uri(self.host@, self.port),
    {
        let mut uri = String::from_str("tcp://");
        uri.append(self.host.as_str());
        uri.append(":");
        push_decimal(&mut uri, self.port);
        uri
    }

    /// The connect settings for these broker settings.
    pub fn connect_settings(self) -> (r: ConnectSettings)
        ensures
            r.server_uri@ == server_uri(self.host@, self.port),
            opt_view(r.user_name) == opt_view(self.auth.username),
            opt_view(r.password) == opt_view(self.auth.password),
    {
        let server_uri = self.server_uri();
        ConnectSettings { server_uri, user_name: self.auth.username, password: self.auth.password }
    }
}

} // verus!
