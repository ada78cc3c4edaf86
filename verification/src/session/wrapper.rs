//! The components of a session that applications use.

use vstd::prelude::*;
use vstd::string::StringExecFns;

use crate::connection_settings::MqttConnectionSettings;
use crate::error::DisconnectError;
use crate::session::receiver::{self, PublishReceiverManager, PublishRx};
use crate::session::state::SessionState;
use crate::session::{SessionConfigError, SessionExitError, SessionExitErrorKind};
use crate::text::{self, clone_opt};
use crate::topic::{self, TopicFilter, TopicParseError};
use crate::unified_mqtt_adapter::{self, client, ClientSetup};

verus! {

/// Options for configuring a new [`Session`]
#[derive(Debug, PartialEq, Eq)]
pub struct SessionOptions {
    /// MQTT Connection Settings for configuring the [`Session`]
    pub connection_settings: MqttConnectionSettings,
    /// Maximum number of queued outgoing messages not yet accepted by the MQTT Session
    pub outgoing_max: usize,
    /// Indicates if the Session should use features specific for use with the AIO MQTT Broker
    pub aio_broker_features: bool,
}

/// Why options cannot be built.
#[derive(Debug, PartialEq, Eq)]
pub enum SessionOptionsBuilderError {
    /// Uninitialized field
    UninitializedField(&'static str),
}

impl SessionOptionsBuilderError {
    /// The message that describes the error.
    pub open spec fn message(self) -> Seq<char> {
        match self {
            SessionOptionsBuilderError::UninitializedField(field) => "`"@ + field@
                + "` must be initialized"@,
        }
    }

    /// The message that describes the error.
    pub fn to_string(&self) -> (r: String)
        ensures
            r@ == self.message(),
    {
        match self {
            SessionOptionsBuilderError::UninitializedField(field) => "`".to_string().concat(
                field,
            ).concat("` must be initialized"),
        }
    }
}

/// Builder for [`SessionOptions`].
#[derive(Debug)]
pub struct SessionOptionsBuilder {
    pub connection_settings: Option<MqttConnectionSettings>,
    pub outgoing_max: usize,
    pub aio_broker_features: bool,
}

impl Default for SessionOptionsBuilder {
    fn default() -> (r: Self)
        ensures
            r == (SessionOptionsBuilder {
                connection_settings: None,
                outgoing_max: 100,
                aio_broker_features: true,
            }),
    {
        SessionOptionsBuilder {
            connection_settings: None,
            outgoing_max: 100,
            aio_broker_features: true,
        }
    }
}

impl SessionOptionsBuilder {
    /// MQTT Connection Settings for configuring the [`Session`]
    pub fn connection_settings(self, value: MqttConnectionSettings) -> (r: Self)
        ensures
            r == (SessionOptionsBuilder { connection_settings: Some(value), ..self }),
    {
        let mut r = self;
        r.connection_settings = Some(value);
        r
    }

    /// Maximum number of queued outgoing messages not yet accepted by the MQTT Session
    pub fn outgoing_max(self, value: usize) -> (r: Self)
        ensures
            r == (SessionOptionsBuilder { outgoing_max: value, ..self }),
    {
        let mut r = self;
        r.outgoing_max = value;
        r
    }

    /// Indicates if the Session should use features specific for use with the AIO MQTT Broker
    pub fn aio_broker_features(self, value: bool) -> (r: Self)
        ensures
            r == (SessionOptionsBuilder { aio_broker_features: value, ..self }),
    {
        let mut r = self;
        r.aio_broker_features = value;
        r
    }

    /// Builds a new [`SessionOptions`].
    ///
    /// # Errors
    /// If a required field has not been initialized.
    pub fn build(self) -> (r: Result<SessionOptions, SessionOptionsBuilderError>)
        ensures
            match self.connection_settings {
                Some(connection_settings) => r == Ok::<SessionOptions, SessionOptionsBuilderError>(
                    SessionOptions {
                        connection_settings,
                        outgoing_max: self.outgoing_max,
                        aio_broker_features: self.aio_broker_features,
                    },
                ),
                None => r is Err && r->Err_0.message() == "`"@ + "connection_settings"@
                    + "` must be initialized"@,
            },
    {
        match self.connection_settings {
            Some(connection_settings) => Ok(
                SessionOptions {
                    connection_settings,
                    outgoing_max: self.outgoing_max,
                    aio_broker_features: self.aio_broker_features,
                },
            ),
            None => Err(SessionOptionsBuilderError::UninitializedField("connection_settings")),
        }
    }
}

/// The user properties of the connection of a session.
pub open spec fn session_user_properties(aio_broker_features: bool) -> Seq<text::Pair> {
    if aio_broker_features {
        seq![("metriccategory"@, "aiosdk-rust"@)]
    } else {
        Seq::empty()
    }
}

/// Client that manages connections over a single MQTT session.
///
/// Use this centrally in an application to control the session and to create
/// instances of [`SessionManagedClient`] and [`SessionExitHandle`].
#[derive(Debug)]
pub struct Session {
    client: ClientSetup,
    state: SessionState,
    client_id: String,
    sat_file: Option<String>,
}

impl Session {
    /// What the client of the session is created with.
    pub closed spec fn setup(self) -> ClientSetup {
        self.client
    }

    /// Whether the session is connected.
    pub closed spec fn connected(self) -> bool {
        self.state@
    }

    /// The client ID of the session.
    pub closed spec fn id(self) -> Seq<char> {
        self.client_id@
    }

    /// The file with the token that the session authenticates with.
    pub closed spec fn sat(self) -> Option<Seq<char>> {
        text::opt_text(self.sat_file)
    }

    /// Create a new [`Session`] with the provided options structure.
    ///
    /// # Arguments
    /// * `options` - The options
    /// * `read_to_string` - Reads the text of a file, or tells the text of the error
    /// * `read` - Reads the bytes of a file, or tells the text of the error
    ///
    /// # Errors
    /// Returns a [`SessionConfigError`] if there are errors using the session options.
    pub fn new<
        T: Fn(String) -> Result<String, String>,
        B: Fn(String) -> Result<Vec<u8>, String>,
    >(options: SessionOptions, read_to_string: &T, read: &B) -> (r: Result<
        Self,
        SessionConfigError,
    >)
        requires
            forall|path: String| #[trigger] call_requires(*read_to_string, (path,)),
            forall|path: String| #[trigger] call_requires(*read, (path,)),
        ensures
            r matches Ok(session) ==> {
                &&& !session.connected()
                &&& session.id() == options.connection_settings.client_id@
                &&& session.sat() == text::opt_text(options.connection_settings.sat_file)
            },
            options.outgoing_max == usize::MAX ==> {
                &&& r matches Err(SessionConfigError(
                    unified_mqtt_adapter::MqttAdapterError::Other(msg),
                ))
                &&& msg@ == "mqtt client does not support channel capacity of usize::MAX"@
            },
            options.outgoing_max != usize::MAX ==> exists|
                password: Result<String, String>,
                sat: Result<Vec<u8>, String>,
            |
                {
                    &&& #[trigger] unified_mqtt_adapter::is_client_for(
                        setup_of(r),
                        options.connection_settings,
                        options.outgoing_max,
                        true,
                        session_user_properties(options.aio_broker_features),
                        password,
                        sat,
                    )
                    &&& unified_mqtt_adapter::are_read(
                        options.connection_settings,
                        *read_to_string,
                        *read,
                        password,
                        sat,
                    )
                },
    {
        let client_id = options.connection_settings.client_id.clone();
        let sat_file = clone_opt(&options.connection_settings.sat_file);
        // Add AIO metric to user properties when using AIO MQTT broker features
        let mut user_properties: Vec<(String, String)> = Vec::new();
        if options.aio_broker_features {
            user_properties.push(("metriccategory".to_string(), "aiosdk-rust".to_string()));
        }
        assert(user_properties.deep_view() =~= session_user_properties(
            options.aio_broker_features,
        ));
        match client(
            options.connection_settings,
            options.outgoing_max,
            true,
            user_properties,
            read_to_string,
            read,
        ) {
            Ok(client) => Ok(
                Session { client, state: SessionState::default(), client_id, sat_file },
            ),
            Err(e) => Err(SessionConfigError(e)),
        }
    }

    /// What the client of the session is to be created with.
    pub fn client_setup(&self) -> (r: &ClientSetup)
        ensures
            *r == self.setup(),
    {
        &self.client
    }

    /// The client of the session tells that it is connected, or that it is not.
    pub fn set_state(&mut self, state: SessionState)
        ensures
            final(self).connected() == state@,
            final(self).setup() == old(self).setup(),
            final(self).id() == old(self).id(),
            final(self).sat() == old(self).sat(),
    {
        self.state = state;
    }

    /// Return a new instance of [`SessionExitHandle`] that can be used to end this [`Session`]
    pub fn create_exit_handle(&self) -> (r: SessionExitHandle<'_>)
        ensures
            r@ == self.connected(),
    {
        SessionExitHandle(&self.state)
    }

    /// Return a new instance of [`SessionConnectionMonitor`] that can be used to monitor the connection state
    pub fn create_connection_monitor(&self) -> (r: SessionConnectionMonitor<'_>)
        ensures
            r@ == self.connected(),
    {
        SessionConnectionMonitor(&self.state)
    }

    /// Return a new instance of [`SessionManagedClient`] that can be used to send and receive messages
    pub fn create_managed_client(&self) -> (r: SessionManagedClient)
        ensures
            r@ == self.id(),
    {
        SessionManagedClient { client_id: self.client_id.clone() }
    }
}

/// What came of creating the client of a session.
pub open spec fn setup_of(r: Result<Session, SessionConfigError>) -> Result<
    ClientSetup,
    unified_mqtt_adapter::MqttAdapterError,
> {
    match r {
        Ok(session) => Ok(session.setup()),
        Err(e) => Err(e.0),
    }
}

/// Monitor for connection changes in the [`Session`]. It borrows the state of the session, so that
/// what it tells is the state at the time it is asked.
///
/// This is largely for informational purposes.
#[derive(Clone, Copy, Debug)]
pub struct SessionConnectionMonitor<'a>(&'a SessionState);

impl<'a> View for SessionConnectionMonitor<'a> {
    type V = bool;

    /// Whether the session is connected.
    closed spec fn view(&self) -> bool {
        self.0@
    }
}

impl<'a> SessionConnectionMonitor<'a> {
    /// Returns true if the [`Session`] is currently connected.
    /// Note that this may not be accurate if connection has been recently lost.
    #[must_use]
    pub fn is_connected(&self) -> (r: bool)
        ensures
            r == self@,
    {
        self.0.is_connected()
    }
}

/// What came of waiting for a session to end, after it was asked to.
#[derive(Debug)]
pub enum ExitOutcome {
    /// The session ended.
    Exited,
    /// The session lost its connection before it ended.
    Disconnected,
    /// The session did not end within the time that was granted.
    TimedOut,
    /// The session could not be asked, as it no longer exists.
    Detached(DisconnectError),
}

/// Handle used to end an MQTT session. It borrows the state of the session, so that what it answers
/// goes by the state at the time it is asked.
#[derive(Clone, Copy, Debug)]
pub struct SessionExitHandle<'a>(&'a SessionState);

impl<'a> View for SessionExitHandle<'a> {
    type V = bool;

    /// Whether the session is connected.
    closed spec fn view(&self) -> bool {
        self.0@
    }
}

/// What an attempt to end a session is answered.
pub open spec fn exit_result(outcome: ExitOutcome) -> Result<(), SessionExitError> {
    match outcome {
        ExitOutcome::Exited => Ok(()),
        ExitOutcome::Disconnected => Err(
            SessionExitError::of(SessionExitErrorKind::BrokerUnavailable, true),
        ),
        ExitOutcome::TimedOut => Err(
            SessionExitError::of(SessionExitErrorKind::BrokerUnavailable, true),
        ),
        ExitOutcome::Detached(_) => Err(SessionExitError::of(SessionExitErrorKind::Detached, true)),
    }
}

impl<'a> SessionExitHandle<'a> {
    /// Attempt to gracefully end the MQTT session running in the [`Session`] that created this
    /// handle. Returns whether the attempt can be made;
    /// [`finish_exit`](SessionExitHandle::finish_exit) tells what comes of it.
    ///
    /// Note that a graceful exit requires the [`Session`] to be connected to the broker.
    ///
    /// # Errors
    /// [`SessionExitError`] of kind [`SessionExitErrorKind::BrokerUnavailable`] if the Session is
    /// not connected to the broker.
    pub fn try_exit(&self) -> (r: Result<(), SessionExitError>)
        ensures
            r == if self@ {
                Ok::<(), SessionExitError>(())
            } else {
                Err(SessionExitError::of(SessionExitErrorKind::BrokerUnavailable, false))
            },
    {
        if !self.0.is_connected() {
            return Err(SessionExitError::new(SessionExitErrorKind::BrokerUnavailable, false));
        }
        Ok(())
    }

    /// What an attempt to end a session is answered.
    ///
    /// # Errors
    /// * [`SessionExitError`] of kind [`SessionExitErrorKind::Detached`] if the Session no longer
    ///   exists.
    /// * [`SessionExitError`] of kind [`SessionExitErrorKind::BrokerUnavailable`] if the Session is
    ///   not connected to the broker, or did not end within the time that was granted.
    pub fn finish_exit(outcome: ExitOutcome) -> (r: Result<(), SessionExitError>)
        ensures
            r == exit_result(outcome),
    {
        match outcome {
            ExitOutcome::Exited => Ok(()),
            ExitOutcome::Disconnected | ExitOutcome::TimedOut => Err(
                SessionExitError::new(SessionExitErrorKind::BrokerUnavailable, true),
            ),
            ExitOutcome::Detached(e) => Err(SessionExitError::from(e)),
        }
    }
}

/// An MQTT client that has it's connection state externally managed by a [`Session`].
/// Can be used to send messages and create receivers for incoming messages.
#[derive(Debug)]
pub struct SessionManagedClient {
    client_id: String,
}

impl View for SessionManagedClient {
    type V = Seq<char>;

    /// The client ID.
    closed spec fn view(&self) -> Seq<char> {
        self.client_id@
    }
}

/// Receive and acknowledge incoming MQTT messages.
pub struct SessionPubReceiver(pub PublishRx);

impl SessionManagedClient {
    /// Get the client id for the MQTT connection
    pub fn client_id(&self) -> (r: &str)
        ensures
            r@ == self@,
    {
        self.client_id.as_str()
    }

    /// Creates a new [`SessionPubReceiver`] that receives messages on a specific topic
    ///
    /// # Arguments
    /// * `manager` - The receivers of the session
    /// * `topic_filter` - The topic filter to match incoming publishes against
    ///
    /// # Errors
    /// Returns a [`TopicParseError`] if the pub receiver cannot be registered.
    pub fn create_filtered_pub_receiver(
        &self,
        manager: &mut PublishReceiverManager,
        topic_filter: &str,
    ) -> (r: Result<SessionPubReceiver, TopicParseError>)
        ensures
            match topic::topic_filter_fault(topic_filter@) {
                Some(e) => r is Err && r->Err_0 == e && *final(manager) == *old(manager),
                None => {
                    &&& r is Ok
                    &&& final(manager).filtered_txs@.len() > 0
                    &&& final(manager).filtered_txs@.last().topic_filter@ == topic_filter@
                    &&& receiver::is_new_sender_to(
                        receiver::tx_view(final(manager).filtered_txs@.last().tx),
                        r->Ok_0.0,
                    )
                    &&& receiver::is_pruned(
                        old(manager).filtered_txs@,
                        final(manager).filtered_txs@.drop_last(),
                    )
                    &&& final(manager).unfiltered_txs@ == old(manager).unfiltered_txs@
                },
            },
    {
        match TopicFilter::from_string(topic_filter.to_string()) {
            Ok(filter) => Ok(SessionPubReceiver(manager.create_filtered_receiver(&filter))),
            Err(e) => Err(e),
        }
    }

    /// Creates a new [`SessionPubReceiver`] that receives all messages not sent to other
    /// filtered receivers.
    ///
    /// # Arguments
    /// * `manager` - The receivers of the session
    pub fn create_unfiltered_pub_receiver(&self, manager: &mut PublishReceiverManager) -> (r:
        SessionPubReceiver)
        ensures
            final(manager).unfiltered_txs@.len() > 0,
            final(manager).unfiltered_txs@.drop_last() == old(manager).unfiltered_txs@,
            receiver::is_new_sender_to(
                receiver::tx_view(final(manager).unfiltered_txs@.last()),
                r.0,
            ),
            final(manager).filtered_txs@ == old(manager).filtered_txs@,
    {
        SessionPubReceiver(manager.create_unfiltered_receiver())
    }
}

/// The connection of a session tells its metric category exactly if the features of the AIO broker are
/// used, and no other user property.
pub proof fn law_metric_category_is_told_to_the_aio_broker(aio_broker_features: bool, p: text::Pair)
    ensures
        session_user_properties(aio_broker_features).contains(p) <==> aio_broker_features && p == (
            "metriccategory"@,
            "aiosdk-rust"@,
        ),
        session_user_properties(aio_broker_features).len() <= 1,
{
    if aio_broker_features {
        assert(session_user_properties(true)[0] == ("metriccategory"@, "aiosdk-rust"@));
    }
}

} // verus!
