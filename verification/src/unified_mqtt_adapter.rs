//! Adapter layer for the MQTT client: what it is asked to do, and what its answers mean.

use bytes::Bytes;
use vstd::prelude::*;
use vstd::string::StringExecFns;

use crate::connection_settings::MqttConnectionSettings;
use crate::control_packet::{
    PublishProperties, QoS, SubscribeProperties, UnsubscribeProperties,
};
use crate::error::{
    AckError, AckErrorKind, DisconnectError, DisconnectErrorKind, PublishError, PublishErrorKind,
    ReauthError, ReauthErrorKind, SubscribeError, SubscribeErrorKind, UnsubscribeError,
    UnsubscribeErrorKind,
};
use crate::session::state::SessionState;
use crate::text;
use crate::time::{self, Duration};
use crate::topic::{self, TopicFilter, TopicName};

verus! {

/// An error of the MQTT client. Holds its text.
#[derive(Debug, PartialEq, Eq)]
pub struct ClientError(pub String);

// NOTE: Technically, the errors of the client can also be about the validation of topics, but since
// there's no way to identify those, we check for them ourselves anyway ahead of invoking the client,
// thus preventing that case from happening. As such, we can assume that all errors of the client are
// due to the client being detached from the event loop.

impl From<ClientError> for PublishError {
    fn from(err: ClientError) -> (r: Self) {
        PublishError::new(PublishErrorKind::DetachedClient)
    }
}

impl vstd::std_specs::convert::FromSpecImpl<ClientError> for PublishError {
    open spec fn obeys_from_spec() -> bool {
        true
    }

    open spec fn from_spec(err: ClientError) -> PublishError {
        PublishError::of(PublishErrorKind::DetachedClient)
    }
}

impl From<ClientError> for SubscribeError {
    fn from(err: ClientError) -> (r: Self) {
        SubscribeError::new(SubscribeErrorKind::DetachedClient)
    }
}

impl vstd::std_specs::convert::FromSpecImpl<ClientError> for SubscribeError {
    open spec fn obeys_from_spec() -> bool {
        true
    }

    open spec fn from_spec(err: ClientError) -> SubscribeError {
        SubscribeError::of(SubscribeErrorKind::DetachedClient)
    }
}

impl From<ClientError> for UnsubscribeError {
    fn from(err: ClientError) -> (r: Self) {
        UnsubscribeError::new(UnsubscribeErrorKind::DetachedClient)
    }
}

impl vstd::std_specs::convert::FromSpecImpl<ClientError> for UnsubscribeError {
    open spec fn obeys_from_spec() -> bool {
        true
    }

    open spec fn from_spec(err: ClientError) -> UnsubscribeError {
        UnsubscribeError::of(UnsubscribeErrorKind::DetachedClient)
    }
}

impl From<ClientError> for AckError {
    fn from(err: ClientError) -> (r: Self) {
        AckError::new(AckErrorKind::DetachedClient)
    }
}

impl vstd::std_specs::convert::FromSpecImpl<ClientError> for AckError {
    open spec fn obeys_from_spec() -> bool {
        true
    }

    open spec fn from_spec(err: ClientError) -> AckError {
        AckError::of(AckErrorKind::DetachedClient)
    }
}

impl From<ClientError> for DisconnectError {
    fn from(err: ClientError) -> (r: Self) {
        DisconnectError::new(DisconnectErrorKind::DetachedClient)
    }
}

impl vstd::std_specs::convert::FromSpecImpl<ClientError> for DisconnectError {
    open spec fn obeys_from_spec() -> bool {
        true
    }

    open spec fn from_spec(err: ClientError) -> DisconnectError {
        DisconnectError::of(DisconnectErrorKind::DetachedClient)
    }
}

impl From<ClientError> for ReauthError {
    fn from(err: ClientError) -> (r: Self) {
        ReauthError::new(ReauthErrorKind::DetachedClient)
    }
}

impl vstd::std_specs::convert::FromSpecImpl<ClientError> for ReauthError {
    open spec fn obeys_from_spec() -> bool {
        true
    }

    open spec fn from_spec(err: ClientError) -> ReauthError {
        ReauthError::of(ReauthErrorKind::DetachedClient)
    }
}

/// A publish that the client is to make.
#[derive(Debug, PartialEq, Eq)]
pub struct PublishRequest {
    pub topic: String,
    pub qos: QoS,
    pub retain: bool,
    pub payload: Bytes,
    pub properties: Option<PublishProperties>,
}

/// A subscribe that the client is to make.
#[derive(Debug, PartialEq, Eq)]
pub struct SubscribeRequest {
    pub topic: String,
    pub qos: QoS,
    pub properties: Option<SubscribeProperties>,
}

/// An unsubscribe that the client is to make.
#[derive(Debug, PartialEq, Eq)]
pub struct UnsubscribeRequest {
    pub topic: String,
    pub properties: Option<UnsubscribeProperties>,
}

/// MQTT Publish: what the client is to do.
///
/// # Errors
/// [`PublishErrorKind::InvalidTopicName`] if the topic is not a valid topic name.
pub fn publish(
    topic: String,
    qos: QoS,
    retain: bool,
    payload: Bytes,
    properties: Option<PublishProperties>,
) -> (r: Result<PublishRequest, PublishError>)
    ensures
        topic::topic_name_fault(topic@) is None ==> r == Ok::<PublishRequest, PublishError>(
            PublishRequest { topic, qos, retain, payload, properties },
        ),
        topic::topic_name_fault(topic@) is Some ==> r is Err && r->Err_0@
            == PublishErrorKind::InvalidTopicName,
{
    if !TopicName::is_valid_topic_name(topic.as_str()) {
        return Err(PublishError::new(PublishErrorKind::InvalidTopicName));
    }
    Ok(PublishRequest { topic, qos, retain, payload, properties })
}

/// MQTT Subscribe: what the client is to do.
///
/// # Errors
/// [`SubscribeErrorKind::InvalidTopicFilter`] if the topic is not a valid topic filter.
pub fn subscribe(
    topic: String,
    qos: QoS,
    properties: Option<SubscribeProperties>,
) -> (r: Result<SubscribeRequest, SubscribeError>)
    ensures
        topic::topic_filter_fault(topic@) is None ==> r == Ok::<SubscribeRequest, SubscribeError>(
            SubscribeRequest { topic, qos, properties },
        ),
        topic::topic_filter_fault(topic@) is Some ==> r is Err && r->Err_0@
            == SubscribeErrorKind::InvalidTopicFilter,
{
    if !TopicFilter::is_valid_topic_filter(topic.as_str()) {
        return Err(SubscribeError::new(SubscribeErrorKind::InvalidTopicFilter));
    }
    Ok(SubscribeRequest { topic, qos, properties })
}

/// MQTT Unsubscribe: what the client is to do.
///
/// # Errors
/// [`UnsubscribeErrorKind::InvalidTopicFilter`] if the topic is not a valid topic filter.
pub fn unsubscribe(topic: String, properties: Option<UnsubscribeProperties>) -> (r: Result<
    UnsubscribeRequest,
    UnsubscribeError,
>)
    ensures
        topic::topic_filter_fault(topic@) is None ==> r == Ok::<
            UnsubscribeRequest,
            UnsubscribeError,
        >(UnsubscribeRequest { topic, properties }),
        topic::topic_filter_fault(topic@) is Some ==> r is Err && r->Err_0@
            == UnsubscribeErrorKind::InvalidTopicFilter,
{
    if !TopicFilter::is_valid_topic_filter(topic.as_str()) {
        return Err(UnsubscribeError::new(UnsubscribeErrorKind::InvalidTopicFilter));
    }
    Ok(UnsubscribeRequest { topic, properties })
}

/// Options of a connection, as the client takes them.
#[derive(Debug, PartialEq, Eq)]
pub struct ConnectionOptions {
    pub client_id: String,
    /// Keep alive interval in seconds.
    pub keep_alive: u16,
    pub receive_maximum: u16,
    pub max_packet_size: u32,
    pub clean_start: bool,
    /// Session expiry interval in seconds.
    pub session_expiry_interval: u32,
    pub username: Option<String>,
    pub password: Option<String>,
    pub authentication_method: Option<String>,
    pub authentication_data: Option<Vec<u8>>,
    pub user_properties: Vec<(String, String)>,
}

/// What [`ConnectionOptions`] stand for.
#[verifier::ext_equal]
pub struct ConnectionOptionsView {
    pub client_id: Seq<char>,
    pub keep_alive: u16,
    pub receive_maximum: u16,
    pub max_packet_size: u32,
    pub clean_start: bool,
    pub session_expiry_interval: u32,
    pub username: Option<Seq<char>>,
    pub password: Option<Seq<char>>,
    pub authentication_method: Option<Seq<char>>,
    pub authentication_data: Option<Seq<u8>>,
    pub user_properties: Seq<text::Pair>,
}

impl View for ConnectionOptions {
    type V = ConnectionOptionsView;

    open spec fn view(&self) -> ConnectionOptionsView {
        ConnectionOptionsView {
            client_id: self.client_id@,
            keep_alive: self.keep_alive,
            receive_maximum: self.receive_maximum,
            max_packet_size: self.max_packet_size,
            clean_start: self.clean_start,
            session_expiry_interval: self.session_expiry_interval,
            username: text::opt_text(self.username),
            password: text::opt_text(self.password),
            authentication_method: text::opt_text(self.authentication_method),
            authentication_data: match self.authentication_data {
                Some(d) => Some(d@),
                None => None,
            },
            user_properties: self.user_properties.deep_view(),
        }
    }
}

/// A setting that cannot be used.
#[derive(Debug, PartialEq, Eq)]
pub enum ConnectionSettingsField {
    SessionExpiry(Duration),
    PasswordFile(String),
    UseTls(bool),
    SatAuthFile(String),
}

/// The debug text of a span of time, given in nanoseconds.
pub uninterp spec fn duration_debug_text(nanos: nat) -> Seq<char>;

/// Calls the `Debug` implementation of `std::time::Duration`: its text is a function of the span.
#[verifier::external_body]
fn duration_debug(d: &Duration) -> (r: String)
    ensures
        r@ == duration_debug_text(d@),
{
    format!("{:?}", std::time::Duration::new(d.as_secs(), d.subsec_nanos()))
}

/// The debug text of a string: in quotes, and with some characters escaped.
pub uninterp spec fn string_debug_text(s: Seq<char>) -> Seq<char>;

/// Calls the `Debug` implementation of `str`: its text is a function of the string.
#[verifier::external_body]
fn string_debug(s: &str) -> (r: String)
    ensures
        r@ == string_debug_text(s@),
{
    format!("{s:?}")
}

impl ConnectionSettingsField {
    /// The text that names the setting and its value.
    pub open spec fn text(self) -> Seq<char> {
        match self {
            ConnectionSettingsField::SessionExpiry(v) => "Session Expiry: "@ + duration_debug_text(
                v@,
            ),
            ConnectionSettingsField::PasswordFile(v) => "Password File: "@ + string_debug_text(v@),
            ConnectionSettingsField::UseTls(v) => "Use TLS: "@ + if v {
                "true"@
            } else {
                "false"@
            },
            ConnectionSettingsField::SatAuthFile(v) => "SAT Auth File: "@ + string_debug_text(v@),
        }
    }

    /// The text that names the setting and its value.
    pub fn to_string(&self) -> (r: String)
        ensures
            r@ == self.text(),
    {
        match self {
            ConnectionSettingsField::SessionExpiry(v) => "Session Expiry: ".to_string().concat(
                duration_debug(v).as_str(),
            ),
            ConnectionSettingsField::PasswordFile(v) => "Password File: ".to_string().concat(
                string_debug(v.as_str()).as_str(),
            ),
            ConnectionSettingsField::UseTls(v) => {
                let text = if *v {
                    "true"
                } else {
                    "false"
                };
                "Use TLS: ".to_string().concat(text)
            },
            ConnectionSettingsField::SatAuthFile(v) => "SAT Auth File: ".to_string().concat(
                string_debug(v.as_str()).as_str(),
            ),
        }
    }
}

/// Why connection settings cannot be used.
#[derive(Debug, PartialEq, Eq)]
pub struct ConnectionSettingsAdapterError {
    pub msg: String,
    pub field: ConnectionSettingsField,
    /// The text of the error that caused this one
    pub source: Option<String>,
}

impl ConnectionSettingsAdapterError {
    /// The message that describes the error.
    pub open spec fn message(self) -> Seq<char> {
        self.msg@ + ": "@ + self.field.text()
    }

    /// The message that describes the error.
    pub fn to_string(&self) -> (r: String)
        ensures
            r@ == self.message(),
    {
        self.msg.clone().concat(": ").concat(self.field.to_string().as_str())
    }

    /// Whether the error tells this.
    pub open spec fn tells(
        self,
        msg: Seq<char>,
        field: ConnectionSettingsField,
        source: Option<Seq<char>>,
    ) -> bool {
        self.msg@ == msg && self.field == field && text::opt_text(self.source) == source
    }
}

/// Why the client cannot be created.
#[derive(Debug, PartialEq, Eq)]
pub enum MqttAdapterError {
    /// The connection settings cannot be used
    ConnectionSettings(ConnectionSettingsAdapterError),
    /// Other adapter error
    Other(String),
}

impl MqttAdapterError {
    /// The message that describes the error.
    pub open spec fn message(self) -> Seq<char> {
        match self {
            MqttAdapterError::ConnectionSettings(e) => e.message(),
            MqttAdapterError::Other(msg) => "Other adapter error: "@ + msg@,
        }
    }

    /// The message that describes the error.
    pub fn to_string(&self) -> (r: String)
        ensures
            r@ == self.message(),
    {
        match self {
            MqttAdapterError::ConnectionSettings(e) => e.to_string(),
            MqttAdapterError::Other(msg) => "Other adapter error: ".to_string().concat(
                msg.as_str(),
            ),
        }
    }
}

/// Error of the TLS layer
#[derive(Debug, PartialEq, Eq)]
pub struct TlsError {
    msg: String,
    source: Option<String>,
}

impl View for TlsError {
    type V = Seq<char>;

    /// The message of the error.
    closed spec fn view(&self) -> Seq<char> {
        self.msg@
    }
}

impl TlsError {
    /// Whether another error caused this one.
    pub closed spec fn has_source(self) -> bool {
        self.source is Some
    }

    /// An error that no other caused.
    pub fn new(msg: &str) -> (r: Self)
        ensures
            r@ == msg@,
            !r.has_source(),
    {
        TlsError { msg: msg.to_string(), source: None }
    }

    /// The message that describes the error.
    pub fn to_string(&self) -> (r: String)
        ensures
            r@ == self@,
    {
        self.msg.clone()
    }
}

/// The least session expiry interval in seconds. The client does not take less.
pub const SESSION_EXPIRY_MIN_SECONDS: u32 = 5;

/// What is wrong with the settings, apart from the files that they name, if anything is: the message
/// and the text of the error that caused it.
pub open spec fn settings_fault(settings: MqttConnectionSettings) -> Option<
    (Seq<char>, Option<Seq<char>>),
> {
    if settings.session_expiry.whole_secs() > u32::MAX {
        Some(
            (
                "cannot convert to u32"@,
                Some("out of range integral type conversion attempted"@),
            ),
        )
    } else if settings.session_expiry.whole_secs() < SESSION_EXPIRY_MIN_SECONDS {
        Some(("require > 5 seconds"@, None))
    } else {
        None
    }
}

/// Whether a password is read from a file.
pub open spec fn reads_password(settings: MqttConnectionSettings) -> bool {
    settings_fault(settings) is None && settings.username is Some && settings.password_file is Some
}

/// Whether a token for authentication is read from a file, given what came of reading the password.
pub open spec fn reads_sat(
    settings: MqttConnectionSettings,
    password: Result<String, String>,
) -> bool {
    settings_fault(settings) is None && (reads_password(settings) ==> password is Ok)
        && settings.sat_file is Some
}

/// The password to connect with, given what came of reading the password file.
pub open spec fn password_used(
    settings: MqttConnectionSettings,
    password: Result<String, String>,
) -> Option<Seq<char>> {
    if settings.username is None {
        None
    } else if settings.password_file is Some {
        Some(password->Ok_0@)
    } else {
        Some(
            match settings.password {
                Some(p) => p@,
                None => Seq::empty(),
            },
        )
    }
}

/// Whether options, or the error, are what comes of the settings, given what came of reading the
/// password file and the file of the token for authentication.
pub open spec fn is_options_for(
    r: Result<ConnectionOptions, ConnectionSettingsAdapterError>,
    settings: MqttConnectionSettings,
    password: Result<String, String>,
    sat: Result<Vec<u8>, String>,
) -> bool {
    if let Some((msg, source)) = settings_fault(settings) {
        r matches Err(e) && e.tells(
            msg,
            ConnectionSettingsField::SessionExpiry(settings.session_expiry),
            source,
        )
    } else if reads_password(settings) && password is Err {
        r matches Err(e) && e.tells(
            "cannot read password file"@,
            ConnectionSettingsField::PasswordFile(settings.password_file->0),
            Some(password->Err_0@),
        )
    } else if settings.sat_file is Some && sat is Err {
        r matches Err(e) && e.tells(
            "cannot read sat auth file"@,
            ConnectionSettingsField::SatAuthFile(settings.sat_file->0),
            Some(sat->Err_0@),
        )
    } else {
        r matches Ok(options) && options@ == (ConnectionOptionsView {
            client_id: settings.client_id@,
            keep_alive: (settings.keep_alive.whole_secs() % 0x1_0000) as u16,
            receive_maximum: settings.receive_max,
            max_packet_size: match settings.receive_packet_size_max {
                Some(n) => n,
                None => u32::MAX,
            },
            clean_start: settings.clean_start,
            session_expiry_interval: settings.session_expiry.whole_secs() as u32,
            username: text::opt_text(settings.username),
            password: password_used(settings, password),
            authentication_method: if settings.sat_file is Some {
                Some("K8S-SAT"@)
            } else {
                None
            },
            authentication_data: if settings.sat_file is Some {
                Some(sat->Ok_0@)
            } else {
                None
            },
            user_properties: Seq::empty(),
        })
    }
}

/// Whether these are what came of reading the files that the settings name.
pub open spec fn are_read<
    T: Fn(String) -> Result<String, String>,
    B: Fn(String) -> Result<Vec<u8>, String>,
>(
    settings: MqttConnectionSettings,
    read_to_string: T,
    read: B,
    password: Result<String, String>,
    sat: Result<Vec<u8>, String>,
) -> bool {
    &&& reads_password(settings) ==> exists|path: String|
        path@ == settings.password_file->0@ && #[trigger] call_ensures(
            read_to_string,
            (path,),
            password,
        )
    &&& reads_sat(settings, password) ==> exists|path: String|
        path@ == settings.sat_file->0@ && #[trigger] call_ensures(read, (path,), sat)
}

impl ConnectionOptions {
    /// The options for connection settings.
    ///
    /// # Arguments
    /// * `value` - The settings
    /// * `read_to_string` - Reads the text of a file, or tells the text of the error
    /// * `read` - Reads the bytes of a file, or tells the text of the error
    ///
    /// # Errors
    /// If the session expiry is too long or too short, or a file cannot be read.
    pub fn try_from<
        T: Fn(String) -> Result<String, String>,
        B: Fn(String) -> Result<Vec<u8>, String>,
    >(value: &MqttConnectionSettings, read_to_string: &T, read: &B) -> (r: Result<
        ConnectionOptions,
        ConnectionSettingsAdapterError,
    >)
        requires
            forall|path: String| #[trigger] call_requires(*read_to_string, (path,)),
            forall|path: String| #[trigger] call_requires(*read, (path,)),
        ensures
            exists|password: Result<String, String>, sat: Result<Vec<u8>, String>|
                {
                    &&& #[trigger] is_options_for(r, *value, password, sat)
                    &&& are_read(*value, *read_to_string, *read, password, sat)
                },
    {
        let ghost mut password_read: Result<String, String> = arbitrary();
        let ghost mut sat_read: Result<Vec<u8>, String> = arbitrary();
        // Session Expiry
        let session_expiry = value.session_expiry.as_secs();
        if session_expiry > u32::MAX as u64 {
            let r = Err(
                ConnectionSettingsAdapterError {
                    msg: "cannot convert to u32".to_string(),
                    field: ConnectionSettingsField::SessionExpiry(value.session_expiry),
                    source: Some("out of range integral type conversion attempted".to_string()),
                },
            );
            assert(is_options_for(r, *value, password_read, sat_read));
            return r;
        }
        let session_expiry_interval = session_expiry as u32;
        // validate this is >= 5 seconds otherwise the client will panic
        if session_expiry_interval < SESSION_EXPIRY_MIN_SECONDS {
            let r = Err(
                ConnectionSettingsAdapterError {
                    msg: "require > 5 seconds".to_string(),
                    field: ConnectionSettingsField::SessionExpiry(value.session_expiry),
                    source: None,
                },
            );
            assert(is_options_for(r, *value, password_read, sat_read));
            return r;
        }
        let keep_alive = (value.keep_alive.as_secs() % 0x1_0000) as u16;
        let max_packet_size = match value.receive_packet_size_max {
            Some(n) => n,
            None => u32::MAX,
        };
        let empty: Vec<(String, String)> = Vec::new();
        assert(empty.deep_view() =~= Seq::<text::Pair>::empty());
        let mut options = ConnectionOptions {
            // Client ID
            client_id: value.client_id.clone(),
            // Keep Alive
            keep_alive,
            // Receive Maximum
            receive_maximum: value.receive_max,
            // Max Packet Size
            max_packet_size,
            // Clean Start
            clean_start: value.clean_start,
            session_expiry_interval,
            username: None,
            password: None,
            authentication_method: None,
            authentication_data: None,
            user_properties: empty,
        };
        // Username, Password, Password File
        if let Some(username) = &value.username {
            let password = if let Some(password_file) = &value.password_file {
                let path = password_file.clone();
                let ghost asked = path;
                let outcome = read_to_string(path);
                proof {
                    password_read = outcome;
                    assert(call_ensures(*read_to_string, (asked,), password_read));
                }
                match outcome {
                    Ok(password) => password,
                    Err(e) => {
                        let r = Err(
                            ConnectionSettingsAdapterError {
                                msg: "cannot read password file".to_string(),
                                field: ConnectionSettingsField::PasswordFile(password_file.clone()),
                                source: Some(e),
                            },
                        );
                        assert(is_options_for(r, *value, password_read, sat_read));
                        return r;
                    },
                }
            } else {
                match &value.password {
                    Some(password) => password.clone(),
                    None => String::new(),
                }
            };
            options.username = Some(username.clone());
            options.password = Some(password);
        }
        assert(options@.password == password_used(*value, password_read));
        // SAT Auth File
        if let Some(sat_file) = &value.sat_file {
            let path = sat_file.clone();
            let ghost asked = path;
            let outcome = read(path);
            proof {
                sat_read = outcome;
                assert(call_ensures(*read, (asked,), sat_read));
            }
            match outcome {
                Ok(sat_auth) => {
                    options.authentication_method = Some("K8S-SAT".to_string());
                    options.authentication_data = Some(sat_auth);
                },
                Err(e) => {
                    let r = Err(
                        ConnectionSettingsAdapterError {
                            msg: "cannot read sat auth file".to_string(),
                            field: ConnectionSettingsField::SatAuthFile(sat_file.clone()),
                            source: Some(e),
                        },
                    );
                    assert(is_options_for(r, *value, password_read, sat_read));
                    return r;
                },
            }
        }
        let r = Ok(options);
        assert(is_options_for(r, *value, password_read, sat_read));
        r
    }
}

/// The files with the credentials of a TLS connection.
#[derive(Debug, PartialEq, Eq)]
pub struct TlsFiles {
    pub ca_file: Option<String>,
    pub cert_file: Option<String>,
    pub key_file: Option<String>,
}

/// What the client and its event loop are to be created with.
#[derive(Debug, PartialEq, Eq)]
pub struct ClientSetup {
    pub hostname: String,
    pub tcp_port: u16,
    pub options: ConnectionOptions,
    pub channel_capacity: usize,
    pub manual_ack: bool,
    /// Where to read the credentials from, if TLS is to be used.
    pub tls: Option<TlsFiles>,
}

/// Whether a setup is the one for settings whose options are known.
pub open spec fn is_setup_for(
    setup: ClientSetup,
    settings: MqttConnectionSettings,
    options: ConnectionOptionsView,
    channel_capacity: usize,
    manual_ack: bool,
    user_properties: Seq<text::Pair>,
) -> bool {
    &&& setup.hostname@ == settings.hostname@
    &&& setup.tcp_port == settings.tcp_port
    &&& setup.options@ == (ConnectionOptionsView { user_properties, ..options })
    &&& setup.channel_capacity == channel_capacity
    &&& setup.manual_ack == manual_ack
    &&& setup.tls == if settings.use_tls {
        Some(
            TlsFiles {
                ca_file: settings.ca_file,
                cert_file: settings.cert_file,
                key_file: settings.key_file,
            },
        )
    } else {
        None
    }
}

/// Whether a setup, or the error, is what comes of settings, given what came of reading the files
/// that they name.
pub open spec fn is_client_for(
    r: Result<ClientSetup, MqttAdapterError>,
    settings: MqttConnectionSettings,
    channel_capacity: usize,
    manual_ack: bool,
    user_properties: Seq<text::Pair>,
    password: Result<String, String>,
    sat: Result<Vec<u8>, String>,
) -> bool {
    exists|options: Result<ConnectionOptions, ConnectionSettingsAdapterError>|
        {
            &&& #[trigger] is_options_for(options, settings, password, sat)
            &&& match options {
                Ok(o) => r matches Ok(setup) && is_setup_for(
                    setup,
                    settings,
                    o@,
                    channel_capacity,
                    manual_ack,
                    user_properties,
                ),
                Err(e) => r == Err::<ClientSetup, MqttAdapterError>(
                    MqttAdapterError::ConnectionSettings(e),
                ),
            }
        }
}

/// What the client and its event loop are to be created with.
///
/// # Arguments
/// * `connection_settings` - The settings of the connection
/// * `channel_capacity` - How many outgoing messages are queued
/// * `manual_ack` - Whether publishes are acked by the user of the client
/// * `connection_user_properties` - User properties of the connection
/// * `read_to_string` - Reads the text of a file, or tells the text of the error
/// * `read` - Reads the bytes of a file, or tells the text of the error
///
/// # Errors
/// If the capacity is that which the client does not take, or the settings cannot be used.
pub fn client<
    T: Fn(String) -> Result<String, String>,
    B: Fn(String) -> Result<Vec<u8>, String>,
>(
    connection_settings: MqttConnectionSettings,
    channel_capacity: usize,
    manual_ack: bool,
    connection_user_properties: Vec<(String, String)>,
    read_to_string: &T,
    read: &B,
) -> (r: Result<ClientSetup, MqttAdapterError>)
    requires
        forall|path: String| #[trigger] call_requires(*read_to_string, (path,)),
        forall|path: String| #[trigger] call_requires(*read, (path,)),
    ensures
        channel_capacity == usize::MAX ==> {
            &&& r matches Err(MqttAdapterError::Other(msg))
            &&& msg@ == "mqtt client does not support channel capacity of usize::MAX"@
        },
        channel_capacity != usize::MAX ==> exists|
            password: Result<String, String>,
            sat: Result<Vec<u8>, String>,
        |
            {
                &&& #[trigger] is_client_for(
                    r,
                    connection_settings,
                    channel_capacity,
                    manual_ack,
                    connection_user_properties.deep_view(),
                    password,
                    sat,
                )
                &&& are_read(connection_settings, *read_to_string, *read, password, sat)
            },
{
    // NOTE: channel capacity must be less than usize::MAX. The client panics if you set MAX,
    // although MAX - 1 is fine.
    if channel_capacity == usize::MAX {
        return Err(
            MqttAdapterError::Other(
                "mqtt client does not support channel capacity of usize::MAX".to_string(),
            ),
        );
    }
    let ghost properties = connection_user_properties.deep_view();
    let outcome = ConnectionOptions::try_from(&connection_settings, read_to_string, read);
    let ghost outcome_seen = outcome;
    let ghost (password, sat) = choose|
        password: Result<String, String>,
        sat: Result<Vec<u8>, String>,
    |
        {
            &&& #[trigger] is_options_for(outcome_seen, connection_settings, password, sat)
            &&& are_read(connection_settings, *read_to_string, *read, password, sat)
        };
    let mut options = match outcome {
        Ok(options) => options,
        Err(e) => {
            let r = Err(MqttAdapterError::ConnectionSettings(e));
            assert(is_client_for(
                r,
                connection_settings,
                channel_capacity,
                manual_ack,
                properties,
                password,
                sat,
            ));
            return r;
        },
    };
    options.user_properties = connection_user_properties;
    let ghost settings = connection_settings;
    let tls = if connection_settings.use_tls {
        Some(
            TlsFiles {
                ca_file: connection_settings.ca_file,
                cert_file: connection_settings.cert_file,
                key_file: connection_settings.key_file,
            },
        )
    } else {
        None
    };
    let r = Ok(
        ClientSetup {
            hostname: connection_settings.hostname,
            tcp_port: connection_settings.tcp_port,
            options,
            channel_capacity,
            manual_ack,
            tls,
        },
    );
    proof {
        assert(r->Ok_0.options@ =~= ConnectionOptionsView {
            user_properties: properties,
            ..outcome_seen->Ok_0@
        });
        assert(is_client_for(
            r,
            settings,
            channel_capacity,
            manual_ack,
            properties,
            password,
            sat,
        ));
    }
    r
}

/// What the client tells of its connection.
#[derive(Debug, PartialEq, Eq)]
pub enum ConnectionStatus {
    /// The connection was established.
    Connected,
    /// The connection was lost, or could not be established. Holds the text of the reason.
    Disconnected(String),
    /// Anything else.
    Other,
}

/// Follows the connection of the client, and decides when it is attempted again.
#[derive(Debug)]
pub struct ConnectionCallbackImpl {
    state: SessionState,
    prev_reconnect_attempts: u32,
}

/// What a [`ConnectionCallbackImpl`] stands for.
pub struct CallbackView {
    /// Whether the session is connected.
    pub connected: bool,
    /// The attempts to reconnect since the session was last connected.
    pub attempts: u32,
}

impl View for ConnectionCallbackImpl {
    type V = CallbackView;

    closed spec fn view(&self) -> CallbackView {
        CallbackView { connected: self.state@, attempts: self.prev_reconnect_attempts }
    }
}

impl CallbackView {
    /// What is known after the client told of its connection, where `delay` is what the reconnect
    /// policy answers.
    pub open spec fn after(self, status: ConnectionStatus, delay: Option<Duration>) -> CallbackView {
        match status {
            ConnectionStatus::Connected => CallbackView { connected: true, attempts: 0 },
            ConnectionStatus::Disconnected(_) => CallbackView {
                connected: false,
                attempts: if delay is Some {
                    (self.attempts + 1) as u32
                } else {
                    self.attempts
                },
            },
            ConnectionStatus::Other => self,
        }
    }
}

/// Whether the delay is an answer of the reconnect policy.
pub open spec fn is_policy_answer<P: Fn(u32, String) -> Option<Duration>>(
    next_reconnect_delay: P,
    attempts: u32,
    reason: Seq<char>,
    delay: Option<Duration>,
) -> bool {
    exists|text: String|
        text@ == reason && #[trigger] call_ensures(next_reconnect_delay, (attempts, text), delay)
}

/// Whether one more attempt can be counted, or the reconnect policy grants none.
pub open spec fn can_count<P: Fn(u32, String) -> Option<Duration>>(
    next_reconnect_delay: P,
    attempts: u32,
    reason: Seq<char>,
) -> bool {
    attempts < u32::MAX || forall|delay: Option<Duration>| #[trigger]
        is_policy_answer(next_reconnect_delay, attempts, reason, delay) ==> delay is None
}

impl ConnectionCallbackImpl {
    /// The session is not connected, and no attempts to reconnect have been made.
    pub fn new() -> (r: Self)
        ensures
            r@ == (CallbackView { connected: false, attempts: 0 }),
    {
        ConnectionCallbackImpl { state: SessionState::default(), prev_reconnect_attempts: 0 }
    }

    /// The state of the session.
    pub fn state(&self) -> (r: SessionState)
        ensures
            r@ == self@.connected,
    {
        self.state
    }

    /// The client tells of its connection. Returns the delay after which to reconnect, if it is to
    /// reconnect.
    ///
    /// # Arguments
    /// * `status` - What the client tells
    /// * `options` - The options of subsequent connections
    /// * `next_reconnect_delay` - The reconnect policy: whether to reconnect, and after which delay,
    ///   given the number of previous attempts and the reason of the disconnection
    pub fn status<P: Fn(u32, String) -> Option<Duration>>(
        &mut self,
        status: &ConnectionStatus,
        options: &mut ConnectionOptions,
        next_reconnect_delay: &P,
    ) -> (r: Option<Duration>)
        requires
            *status matches ConnectionStatus::Disconnected(reason) ==> can_count(
                *next_reconnect_delay,
                old(self)@.attempts,
                reason@,
            ),
            forall|attempts: u32, reason: String| #[trigger]
                call_requires(*next_reconnect_delay, (attempts, reason)),
        ensures
            final(self)@ == old(self)@.after(*status, r),
            final(options)@ == if status is Connected {
                ConnectionOptionsView { clean_start: false, ..old(options)@ }
            } else {
                old(options)@
            },
            match *status {
                ConnectionStatus::Disconnected(reason) => is_policy_answer(
                    *next_reconnect_delay,
                    old(self)@.attempts,
                    reason@,
                    r,
                ),
                _ => r is None,
            },
    {
        match status {
            ConnectionStatus::Connected => {
                // Update connection state
                self.state.transition_connected();
                // Reset the counter on reconnect attempts
                self.prev_reconnect_attempts = 0;
                // Set clean start to false for subsequent connections
                options.clean_start = false;
                None
            },
            ConnectionStatus::Disconnected(reason) => {
                self.state.transition_disconnected();
                // Defer decision to reconnect policy
                let told = reason.clone();
                let ghost told_seen = told;
                let delay = next_reconnect_delay(self.prev_reconnect_attempts, told);
                assert(call_ensures(
                    *next_reconnect_delay,
                    (old(self)@.attempts, told_seen),
                    delay,
                ));
                assert(is_policy_answer(
                    *next_reconnect_delay,
                    old(self)@.attempts,
                    reason@,
                    delay,
                ));
                if delay.is_some() {
                    self.prev_reconnect_attempts = self.prev_reconnect_attempts + 1;
                }
                delay
            },
            // For other statuses, we don't need to do anything special
            ConnectionStatus::Other => None,
        }
    }
}

/// A connection clears the count of the attempts to reconnect, and only attempts raise it.
pub proof fn law_reconnect_attempts(
    callback: CallbackView,
    status: ConnectionStatus,
    delay: Option<Duration>,
)
    requires
        status is Disconnected && delay is Some ==> callback.attempts < u32::MAX,
    ensures
        status is Connected ==> callback.after(status, delay).attempts == 0,
        callback.after(status, delay).attempts > callback.attempts ==> status is Disconnected
            && delay is Some,
        callback.after(status, delay).attempts <= callback.attempts + 1,
{
}

/// What the client tells of its connection changes what is known like this: a connection starts the
/// count anew, each disconnection after which the reconnect policy grants a delay raises it by one,
/// and nothing else changes it.
pub proof fn law_each_granted_delay_is_counted(
    callback: CallbackView,
    status: ConnectionStatus,
    delay: Option<Duration>,
)
    requires
        status is Disconnected && delay is Some ==> callback.attempts < u32::MAX,
    ensures
        status is Connected ==> callback.after(status, delay).connected && callback.after(
            status,
            delay,
        ).attempts == 0,
        status is Disconnected ==> !callback.after(status, delay).connected,
        status is Disconnected && delay is Some ==> callback.after(status, delay).attempts
            == callback.attempts + 1,
        status is Disconnected && delay is None ==> callback.after(status, delay).attempts
            == callback.attempts,
        status is Other ==> callback.after(status, delay) == callback,
{
}

impl CallbackView {
    /// What is known after the client told all this of its connection, with the answers of the
    /// reconnect policy.
    pub open spec fn after_all(
        self,
        told: Seq<(ConnectionStatus, Option<Duration>)>,
    ) -> CallbackView
        decreases told.len(),
    {
        if told.len() == 0 {
            self
        } else {
            self.after_all(told.drop_last()).after(told.last().0, told.last().1)
        }
    }
}

/// Whether this is a disconnection after which the reconnect policy grants a delay.
pub open spec fn is_granted(told: (ConnectionStatus, Option<Duration>)) -> bool {
    told.0 is Disconnected && told.1 is Some
}

/// While there is no connection, the reconnect policy is next asked with as many previous attempts as
/// it has granted delays, on top of those that were counted before: after a connection, with exactly
/// as many as it has granted since.
pub proof fn law_policy_is_asked_with_the_delays_granted(
    callback: CallbackView,
    told: Seq<(ConnectionStatus, Option<Duration>)>,
    delay: Option<Duration>,
)
    requires
        forall|i: int| 0 <= i < told.len() ==> !((#[trigger] told[i]).0 is Connected),
        callback.attempts + told.filter(
            |t: (ConnectionStatus, Option<Duration>)| is_granted(t),
        ).len() <= u32::MAX,
    ensures
        callback.after_all(told).attempts == callback.attempts + told.filter(
            |t: (ConnectionStatus, Option<Duration>)| is_granted(t),
        ).len(),
        told.filter(|t: (ConnectionStatus, Option<Duration>)| is_granted(t)).len() <= u32::MAX ==>
            callback.after(ConnectionStatus::Connected, delay).after_all(told).attempts
            == told.filter(|t: (ConnectionStatus, Option<Duration>)| is_granted(t)).len(),
    decreases told.len(),
{
    lemma_delays_are_counted(callback, told);
    lemma_delays_are_counted(callback.after(ConnectionStatus::Connected, delay), told);
}

/// While there is no connection, the delays that are granted are counted.
proof fn lemma_delays_are_counted(
    callback: CallbackView,
    told: Seq<(ConnectionStatus, Option<Duration>)>,
)
    requires
        forall|i: int| 0 <= i < told.len() ==> !((#[trigger] told[i]).0 is Connected),
        callback.attempts + told.filter(
            |t: (ConnectionStatus, Option<Duration>)| is_granted(t),
        ).len() <= u32::MAX,
    ensures
        callback.after_all(told).attempts == callback.attempts + told.filter(
            |t: (ConnectionStatus, Option<Duration>)| is_granted(t),
        ).len(),
    decreases told.len(),
{
    reveal(Seq::filter);
    if told.len() > 0 {
        let rest = told.drop_last();
        assert forall|i: int| 0 <= i < rest.len() implies !((#[trigger] rest[i]).0 is Connected) by {
            assert(rest[i] == told[i]);
        }
        assert(!(told[told.len() - 1].0 is Connected));
        lemma_delays_are_counted(callback, rest);
    }
}

/// The reconnect policy is asked with the attempts that were counted and the reason that the client
/// told.
pub proof fn law_policy_is_asked_with_count_and_reason<P: Fn(u32, String) -> Option<Duration>>(
    next_reconnect_delay: P,
    attempts: u32,
    reason: Seq<char>,
    delay: Option<Duration>,
)
    ensures
        is_policy_answer(next_reconnect_delay, attempts, reason, delay) <==> exists|text: String|
            text@ == reason && #[trigger] call_ensures(
                next_reconnect_delay,
                (attempts, text),
                delay,
            ),
{
}

/// Connection settings can be used exactly if the session expires after at least five seconds, and
/// not more than fit 32 bits, and the files with the password and the token can be read, if they are
/// needed.
pub proof fn law_settings_that_can_be_used(
    r: Result<ConnectionOptions, ConnectionSettingsAdapterError>,
    settings: MqttConnectionSettings,
    password: Result<String, String>,
    sat: Result<Vec<u8>, String>,
)
    requires
        is_options_for(r, settings, password, sat),
    ensures
        r is Ok <==> {
            &&& settings.session_expiry@ >= 5_000_000_000
            &&& settings.session_expiry@ < 4_294_967_296_000_000_000
            &&& settings.username is Some && settings.password_file is Some ==> password is Ok
            &&& settings.sat_file is Some ==> sat is Ok
        },
        r matches Err(e) ==> {
            ||| {
                &&& e.field == ConnectionSettingsField::SessionExpiry(settings.session_expiry)
                &&& settings.session_expiry@ < 5_000_000_000 ==> e.msg@ == "require > 5 seconds"@
                &&& settings.session_expiry@ >= 5_000_000_000 ==> e.msg@ == "cannot convert to u32"@
            }
            ||| {
                &&& settings.password_file matches Some(path)
                &&& e.field == ConnectionSettingsField::PasswordFile(path)
                &&& e.msg@ == "cannot read password file"@
                &&& password matches Err(why)
                &&& text::opt_text(e.source) == Some(why@)
            }
            ||| {
                &&& settings.sat_file matches Some(path)
                &&& e.field == ConnectionSettingsField::SatAuthFile(path)
                &&& e.msg@ == "cannot read sat auth file"@
                &&& sat matches Err(why)
                &&& text::opt_text(e.source) == Some(why@)
            }
        },
{
    let d = settings.session_expiry@;
    assert(d < 5_000_000_000 <==> d / 1_000_000_000 < 5);
    assert(d < 4_294_967_296_000_000_000 <==> d / 1_000_000_000 <= u32::MAX);
}

/// The options of a connection are what its settings say.
pub proof fn law_options_are_as_set(
    options: ConnectionOptions,
    settings: MqttConnectionSettings,
    password: Result<String, String>,
    sat: Result<Vec<u8>, String>,
)
    requires
        is_options_for(Ok(options), settings, password, sat),
    ensures
        options.client_id@ == settings.client_id@,
        settings.keep_alive@ < 65_536_000_000_000 ==> options.keep_alive == settings.keep_alive@
            / 1_000_000_000,
        options.receive_maximum == settings.receive_max,
        settings.receive_packet_size_max matches Some(n) ==> options.max_packet_size == n,
        settings.receive_packet_size_max is None ==> options.max_packet_size == u32::MAX,
        options.clean_start == settings.clean_start,
        options.session_expiry_interval == settings.session_expiry@ / 1_000_000_000,
        text::opt_text(options.username) == text::opt_text(settings.username),
        settings.username is None ==> options.password is None,
        settings.username is Some && settings.password_file is Some ==> (password matches Ok(p)
            && text::opt_text(options.password) == Some(p@)),
        settings.username is Some && settings.password_file is None ==> text::opt_text(
            options.password,
        ) == (match settings.password {
            Some(p) => Some(p@),
            None => Some(Seq::empty()),
        }),
        settings.sat_file is None ==> options.authentication_method is None
            && options.authentication_data is None,
        settings.sat_file is Some ==> {
            &&& text::opt_text(options.authentication_method) == Some("K8S-SAT"@)
            &&& options.authentication_data matches Some(data)
            &&& sat matches Ok(token)
            &&& data@ == token@
        },
        options.user_properties.deep_view().len() == 0,
{
    let d = settings.keep_alive@;
    assert(d < 65_536_000_000_000 ==> d / 1_000_000_000 < 0x1_0000);
    assert(d < 65_536_000_000_000 ==> (d / 1_000_000_000) % 0x1_0000 == d / 1_000_000_000);
    let v = options@;
    assert(v.client_id == settings.client_id@);
    assert(v.username == text::opt_text(settings.username));
}

/// The client is created with what the settings say, and with the user properties that it is given.
pub proof fn law_client_is_created_as_set(
    setup: ClientSetup,
    settings: MqttConnectionSettings,
    channel_capacity: usize,
    manual_ack: bool,
    user_properties: Seq<text::Pair>,
    password: Result<String, String>,
    sat: Result<Vec<u8>, String>,
)
    requires
        is_client_for(
            Ok(setup),
            settings,
            channel_capacity,
            manual_ack,
            user_properties,
            password,
            sat,
        ),
    ensures
        setup.hostname@ == settings.hostname@,
        setup.tcp_port == settings.tcp_port,
        setup.channel_capacity == channel_capacity,
        setup.manual_ack == manual_ack,
        !settings.use_tls ==> setup.tls is None,
        settings.use_tls ==> (setup.tls matches Some(files) && files.ca_file == settings.ca_file
            && files.cert_file == settings.cert_file && files.key_file == settings.key_file),
        setup.options.user_properties.deep_view() == user_properties,
        exists|options: ConnectionOptions|
            {
                &&& #[trigger] is_options_for(Ok(options), settings, password, sat)
                &&& setup.options@ == (ConnectionOptionsView { user_properties, ..options@ })
            },
{
    let options = choose|options: Result<ConnectionOptions, ConnectionSettingsAdapterError>|
        {
            &&& #[trigger] is_options_for(options, settings, password, sat)
            &&& match options {
                Ok(o) => is_setup_for(
                    setup,
                    settings,
                    o@,
                    channel_capacity,
                    manual_ack,
                    user_properties,
                ),
                Err(e) => false,
            }
        };
    if let Ok(o) = options {
        assert(is_options_for(Ok(o), settings, password, sat));
    }
    assert(setup.options@.user_properties == setup.options.user_properties.deep_view());
}

/// The password is read from the file that the settings name if there is a user name, and the token
/// from the file that they name: whenever the session expiry can be used and, for the token, the
/// password did not fail.
pub proof fn law_files_are_read_as_set<
    T: Fn(String) -> Result<String, String>,
    B: Fn(String) -> Result<Vec<u8>, String>,
>(
    settings: MqttConnectionSettings,
    read_to_string: T,
    read: B,
    password: Result<String, String>,
    sat: Result<Vec<u8>, String>,
)
    requires
        settings.session_expiry@ >= 5_000_000_000,
        settings.session_expiry@ < 4_294_967_296_000_000_000,
        are_read(settings, read_to_string, read, password, sat),
    ensures
        settings.username is Some && settings.password_file is Some ==> exists|path: String|
            path@ == settings.password_file->0@ && #[trigger] call_ensures(
                read_to_string,
                (path,),
                password,
            ),
        settings.sat_file is Some && (settings.username is Some && settings.password_file is Some
            ==> password is Ok) ==> exists|path: String|
            path@ == settings.sat_file->0@ && #[trigger] call_ensures(read, (path,), sat),
{
    let d = settings.session_expiry@;
    assert(d / 1_000_000_000 >= 5);
    assert(d / 1_000_000_000 <= u32::MAX);
}

/// One more attempt can be counted as long as the count fits 32 bits, whatever the reconnect policy
/// answers; and at the end of the count if it grants no delay.
pub proof fn law_attempts_can_be_counted<P: Fn(u32, String) -> Option<Duration>>(
    next_reconnect_delay: P,
    attempts: u32,
    reason: Seq<char>,
)
    ensures
        attempts < 4_294_967_295 ==> can_count(next_reconnect_delay, attempts, reason),
        (forall|text: String, delay: Option<Duration>|
            text@ == reason && #[trigger] call_ensures(
                next_reconnect_delay,
                (attempts, text),
                delay,
            ) ==> delay is None) ==> can_count(next_reconnect_delay, attempts, reason),
{
}

} // verus!
