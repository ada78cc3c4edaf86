//! MQTT client providing a managed connection with automatic reconnection across a single MQTT session.
//!
//! This module provides several key components for using an MQTT session:
//! * [`Session`] - Manages the lifetime of the MQTT session
//! * [`SessionManagedClient`] - Sends MQTT messages to the broker
//! * [`SessionPubReceiver`] - Receives MQTT messages from the broker
//! * [`SessionConnectionMonitor`] - Provides information about MQTT connection state
//! * [`SessionExitHandle`] - Allows the user to exit the session gracefully
//!
//! # Sending and receiving data over MQTT
//! A [`Session`] can be used to create a [`SessionManagedClient`] for sending data (i.e. outgoing
//! MQTT PUBLISH, MQTT SUBSCRIBE, MQTT UNSUBSCRIBE), and can in turn be used to create a
//! [`SessionPubReceiver`] for receiving incoming data (i.e. incoming MQTT PUBLISH).
//!
//! [`SessionPubReceiver`]s can be either filtered or unfiltered - a filtered receiver will only
//! receive messages that match a specific topic filter, while an unfiltered receiver will receive
//! all messages that do not match another existing filter.
//!
//! Note that in order to receive incoming data, you must both subscribe to the topic filter of
//! interest using the [`SessionManagedClient`] and create a [`SessionPubReceiver`] (filtered or
//! unfiltered). If an incoming message is received that
//! does not match any [`SessionPubReceiver`]s, it will be acknowledged to the MQTT broker and
//! discarded. Thus, in order to guarantee that messages will not be lost, you should create the
//! [`SessionPubReceiver`] *before* subscribing to the topic filter.

pub mod receiver;
pub mod state;
pub mod wrapper;

use vstd::prelude::*;
use vstd::string::StringExecFns;

pub use crate::session::wrapper::{
    ExitOutcome, Session, SessionConnectionMonitor, SessionExitHandle, SessionManagedClient,
    SessionOptions, SessionOptionsBuilder, SessionOptionsBuilderError, SessionPubReceiver,
};

use crate::error::DisconnectError;
use crate::unified_mqtt_adapter::MqttAdapterError;

verus! {

/// Error describing why a [`Session`] ended prematurely
#[derive(Debug, PartialEq, Eq)]
pub struct SessionError(pub SessionErrorRepr);

/// Why a [`Session`] ended prematurely.
#[derive(Debug, PartialEq, Eq)]
pub enum SessionErrorRepr {
    /// MQTT session was lost due to a connection error.
    SessionLost,
    /// MQTT session was ended due to an unrecoverable connection error. Holds its text.
    ConnectionError(String),
    /// Reconnect attempts were halted by the reconnect policy, ending the MQTT session
    ReconnectHalted,
    /// The [`Session`] was ended by a user-initiated force exit. The broker may still retain the MQTT session.
    ForceExit,
    /// The [`Session`] was ended by an IO error. Holds its text.
    IoError(String),
    /// The [`Session`] was ended by an error in the SAT auth context. Holds its text.
    SatAuthError(String),
}

impl SessionError {
    /// The message that describes the error.
    pub open spec fn message(self) -> Seq<char> {
        match self.0 {
            SessionErrorRepr::SessionLost => {
                "session state not present on broker after reconnect"@
            },
            SessionErrorRepr::ConnectionError(e) => e@,
            SessionErrorRepr::ReconnectHalted => "reconnection halted by reconnect policy"@,
            SessionErrorRepr::ForceExit => "session ended by force exit"@,
            SessionErrorRepr::IoError(e) => e@,
            SessionErrorRepr::SatAuthError(e) => e@,
        }
    }

    /// The message that describes the error.
    pub fn to_string(&self) -> (r: String)
        ensures
            r@ == self.message(),
    {
        match &self.0 {
            SessionErrorRepr::SessionLost => {
                "session state not present on broker after reconnect".to_string()
            },
            SessionErrorRepr::ConnectionError(e) => e.clone(),
            SessionErrorRepr::ReconnectHalted => {
                "reconnection halted by reconnect policy".to_string()
            },
            SessionErrorRepr::ForceExit => "session ended by force exit".to_string(),
            SessionErrorRepr::IoError(e) => e.clone(),
            SessionErrorRepr::SatAuthError(e) => e.clone(),
        }
    }
}

/// Error configuring a [`Session`].
#[derive(Debug, PartialEq, Eq)]
pub struct SessionConfigError(pub MqttAdapterError);

impl SessionConfigError {
    /// The message that describes the error.
    pub fn to_string(&self) -> (r: String)
        ensures
            r@ == self.0.message(),
    {
        self.0.to_string()
    }
}

/// Error type for exiting a [`Session`] using the [`SessionExitHandle`].
#[derive(Clone, Copy, Debug, PartialEq, Eq, Structural)]
pub struct SessionExitError {
    attempted: bool,
    kind: SessionExitErrorKind,
}

impl View for SessionExitError {
    type V = (SessionExitErrorKind, bool);

    /// The category of the error, and whether a network attempt was made before it occurred.
    closed spec fn view(&self) -> (SessionExitErrorKind, bool) {
        (self.kind, self.attempted)
    }
}

impl SessionExitError {
    /// The error of a category.
    pub closed spec fn of(kind: SessionExitErrorKind, attempted: bool) -> Self {
        SessionExitError { attempted, kind }
    }

    /// An error of a category.
    ///
    /// # Arguments
    /// * `kind` - The category
    /// * `attempted` - Whether a network attempt was made before the error occurred
    pub fn new(kind: SessionExitErrorKind, attempted: bool) -> (r: Self)
        ensures
            r == Self::of(kind, attempted),
            r@ == (kind, attempted),
    {
        SessionExitError { attempted, kind }
    }

    /// Return the corresponding [`SessionExitErrorKind`] for this error
    #[must_use]
    pub fn kind(&self) -> (r: SessionExitErrorKind)
        ensures
            r == self@.0,
    {
        self.kind
    }

    /// Return whether a network attempt was made before the error occurred
    #[must_use]
    pub fn attempted(&self) -> (r: bool)
        ensures
            r == self@.1,
    {
        self.attempted
    }

    /// The message that describes the error.
    pub open spec fn message(self) -> Seq<char> {
        self@.0.message() + " (network attempt = "@ + (if self@.1 {
            "true"@
        } else {
            "false"@
        }) + ")"@
    }

    /// The message that describes the error.
    pub fn to_string(&self) -> (r: String)
        ensures
            r@ == self.message(),
    {
        let attempted = if self.attempted {
            "true"
        } else {
            "false"
        };
        self.kind.to_string().concat(" (network attempt = ").concat(attempted).concat(")")
    }
}

impl From<DisconnectError> for SessionExitError {
    fn from(e: DisconnectError) -> (r: Self) {
        SessionExitError::new(SessionExitErrorKind::Detached, true)
    }
}

impl vstd::std_specs::convert::FromSpecImpl<DisconnectError> for SessionExitError {
    open spec fn obeys_from_spec() -> bool {
        true
    }

    open spec fn from_spec(e: DisconnectError) -> SessionExitError {
        SessionExitError::of(SessionExitErrorKind::Detached, true)
    }
}

/// An enumeration of categories of [`SessionExitError`]
#[derive(Clone, Copy, Debug, PartialEq, Eq, Structural)]
pub enum SessionExitErrorKind {
    /// The exit handle was detached from the session
    Detached,
    /// The broker could not be reached
    BrokerUnavailable,
}

impl SessionExitErrorKind {
    /// The message that describes the category.
    pub open spec fn message(self) -> Seq<char> {
        match self {
            SessionExitErrorKind::Detached => "Detached from Session"@,
            SessionExitErrorKind::BrokerUnavailable => "Could not contact broker"@,
        }
    }

    /// The message that describes the category.
    pub fn to_string(&self) -> (r: String)
        ensures
            r@ == self.message(),
    {
        match self {
            SessionExitErrorKind::Detached => "Detached from Session".to_string(),
            SessionExitErrorKind::BrokerUnavailable => "Could not contact broker".to_string(),
        }
    }
}

/// An attempt to end a session succeeds exactly if the session ended; otherwise the error tells that
/// the attempt was made, and whether the session no longer exists or could not be ended.
pub proof fn law_failed_exits_are_reported(outcome: ExitOutcome)
    ensures
        wrapper::exit_result(outcome) is Ok <==> outcome is Exited,
        wrapper::exit_result(outcome) matches Err(e) ==> e@ == (
            if outcome is Detached {
                SessionExitErrorKind::Detached
            } else {
                SessionExitErrorKind::BrokerUnavailable
            },
            true,
        ),
{
}

} // verus!
