//! The configuration of a bridge that passes events on to an MQTT broker.

use vstd::prelude::*;

verus! {

/// What a bridge needs to know: how topics are laid out, where the broker
/// is, and which controllers to connect to.
#[derive(Debug, Default)]
pub struct Config {
    pub mqtt_type: MqttType,
    pub mqtt_connection: MqttConnection,
    pub connections: Vec<OpenProtocolConnections>,
}

/// Where the broker is and how to log in.
#[derive(Debug, Default)]
pub struct MqttConnection {
    pub host: String,
    pub port: u16,
    pub auth: MqttAuth,
    pub client_id: Option<String>,
    pub clean_session: Option<bool>,
}

/// One controller to connect to.
#[derive(Debug, Default)]
pub struct OpenProtocolConnections {
    pub name: String,
}

/// How topics are laid out.
#[derive(Debug)]
pub enum MqttType {
    /// All topics under one root.
    Flat { root: String },
}

/// How to log in at the broker.
#[derive(Debug)]
pub enum MqttAuth {
    NoAuth,
    Basic { username: String, password: String },
    Certificate {  },
    CertificateAndBasic { username: String, password: String },
}

impl Default for MqttType {
    /// Flat, under an empty root.
    fn default() -> (kind: Self)
        ensures
            kind matches MqttType::Flat { root } && root@ == Seq::<char>::empty(),
    {
        Self::Flat { root: String::new() }
    }
}

impl Default for MqttAuth {
    /// No login.
    fn default() -> (auth: Self)
        ensures
            auth is NoAuth,
    {
        Self::NoAuth
    }
}

} // verus!
