//! Generic MQTT connection settings.

use vstd::prelude::*;

use crate::time::Duration;

verus! {

/// All the settings required to establish an MQTT connection.
#[derive(Debug, PartialEq, Eq)]
pub struct MqttConnectionSettings {
    /// Client identifier
    pub client_id: String,
    /// FQDN of the host to connect to
    pub hostname: String,
    /// TCP port to connect to the host on
    pub tcp_port: u16,
    /// Max time between communications
    pub keep_alive: Duration,
    /// Max number of in-flight Quality of Service 1 and 2 messages
    pub receive_max: u16,
    /// Max size of a received packet
    pub receive_packet_size_max: Option<u32>,
    /// Session Expiry Interval
    pub session_expiry: Duration,
    /// Connection timeout
    pub connection_timeout: Duration,
    /// Clean start
    pub clean_start: bool,
    /// Username for MQTT
    pub username: Option<String>,
    /// Password for MQTT
    pub password: Option<String>,
    /// Path to a file containing the MQTT password
    pub password_file: Option<String>,
    /// TLS negotiation enabled
    pub use_tls: bool,
    /// Path to a PEM file used to validate server identity
    pub ca_file: Option<String>,
    /// Path to PEM file used to establish X509 client authentication
    pub cert_file: Option<String>,
    /// Path to a file containing a key used to establish X509 client authentication
    pub key_file: Option<String>,
    /// Path to a file containing the password used to decrypt the Key
    pub key_password_file: Option<String>,
    /// Path to a SAT file to be used for SAT auth
    pub sat_file: Option<String>,
}

} // verus!
