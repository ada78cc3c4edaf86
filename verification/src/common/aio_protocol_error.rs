//! Errors of the protocol layer.

use vstd::prelude::*;

use crate::text;
use crate::time::Duration;

verus! {

/// Represents the kind of error that occurs in the protocol layer
#[derive(Clone, Copy, Debug, PartialEq, Eq, Structural)]
pub enum AIOProtocolErrorKind {
    /// MQTT payload cannot be serialized/deserialized
    PayloadInvalid,
    /// An operation was aborted due to timeout
    Timeout,
    /// An operation was cancelled
    Cancellation,
    /// An options or settings value is invalid
    ConfigurationInvalid,
    /// An internal logic failure occurred
    InternalLogicError,
    /// An error occurred in the MQTT client
    ClientError,
}

/// Represents the value of a property that an error is about.
#[derive(Debug, PartialEq, Eq)]
pub enum Value {
    /// A text value
    String(String),
}

/// The text of an optional value.
pub open spec fn value_text(v: Option<Value>) -> Option<Seq<char>> {
    match v {
        Some(Value::String(s)) => Some(s@),
        None => None,
    }
}

/// Represents a possible error that can occur in the protocol layer
#[derive(Debug, PartialEq, Eq)]
pub struct AIOProtocolError {
    /// The specific kind of error that occurred
    pub kind: AIOProtocolErrorKind,
    /// True if the error was identified immediately after the API was called, prior to any attempted
    /// network communication
    pub is_shallow: bool,
    /// True if the error was detected by a remote component
    pub is_remote: bool,
    /// Text that describes the error
    pub message: Option<String>,
    /// Text of the error from a dependency that caused this one
    pub nested_error: Option<String>,
    /// The name of a timeout condition that elapsed
    pub timeout_name: Option<String>,
    /// The duration of a timeout condition that elapsed
    pub timeout_value: Option<Duration>,
    /// The name of a method argument or a property that is missing, invalid, or otherwise the cause
    pub property_name: Option<String>,
    /// The value of a method argument or a property that is invalid
    pub property_value: Option<Value>,
    /// The name of a command relevant to the error being reported
    pub command_name: Option<String>,
}

/// What an [`AIOProtocolError`] stands for.
#[verifier::ext_equal]
pub struct ErrorView {
    pub kind: AIOProtocolErrorKind,
    pub is_shallow: bool,
    pub is_remote: bool,
    pub message: Option<Seq<char>>,
    pub nested_error: Option<Seq<char>>,
    pub timeout_name: Option<Seq<char>>,
    pub timeout_value: Option<Duration>,
    pub property_name: Option<Seq<char>>,
    pub property_value: Option<Seq<char>>,
    pub command_name: Option<Seq<char>>,
}

impl View for AIOProtocolError {
    type V = ErrorView;

    open spec fn view(&self) -> ErrorView {
        ErrorView {
            kind: self.kind,
            is_shallow: self.is_shallow,
            is_remote: self.is_remote,
            message: text::opt_text(self.message),
            nested_error: text::opt_text(self.nested_error),
            timeout_name: text::opt_text(self.timeout_name),
            timeout_value: self.timeout_value,
            property_name: text::opt_text(self.property_name),
            property_value: value_text(self.property_value),
            command_name: text::opt_text(self.command_name),
        }
    }
}

impl ErrorView {
    /// An error of which no more is known than these.
    pub open spec fn of_kind(
        kind: AIOProtocolErrorKind,
        is_shallow: bool,
        is_remote: bool,
        message: Option<Seq<char>>,
        nested_error: Option<Seq<char>>,
        command_name: Option<Seq<char>>,
    ) -> ErrorView {
        ErrorView {
            kind,
            is_shallow,
            is_remote,
            message,
            nested_error,
            timeout_name: None,
            timeout_value: None,
            property_name: None,
            property_value: None,
            command_name,
        }
    }

    /// A setting is invalid.
    pub open spec fn configuration_invalid(
        nested_error: Option<Seq<char>>,
        property_name: Seq<char>,
        property_value: Seq<char>,
        message: Option<Seq<char>>,
        command_name: Option<Seq<char>>,
    ) -> ErrorView {
        ErrorView {
            property_name: Some(property_name),
            property_value: Some(property_value),
            ..ErrorView::of_kind(
                AIOProtocolErrorKind::ConfigurationInvalid,
                true,
                false,
                message,
                nested_error,
                command_name,
            )
        }
    }

    /// The MQTT client failed.
    pub open spec fn mqtt(
        message: Option<Seq<char>>,
        nested_error: Seq<char>,
        command_name: Option<Seq<char>>,
    ) -> ErrorView {
        ErrorView::of_kind(
            AIOProtocolErrorKind::ClientError,
            false,
            false,
            message,
            Some(nested_error),
            command_name,
        )
    }

    /// A timeout elapsed.
    pub open spec fn timeout(
        is_remote: bool,
        nested_error: Option<Seq<char>>,
        timeout_name: Seq<char>,
        timeout_value: Duration,
        message: Option<Seq<char>>,
        command_name: Option<Seq<char>>,
    ) -> ErrorView {
        ErrorView {
            timeout_name: Some(timeout_name),
            timeout_value: Some(timeout_value),
            ..ErrorView::of_kind(
                AIOProtocolErrorKind::Timeout,
                false,
                is_remote,
                message,
                nested_error,
                command_name,
            )
        }
    }

    /// The logic failed.
    pub open spec fn internal_logic(
        is_shallow: bool,
        is_remote: bool,
        nested_error: Option<Seq<char>>,
        property_name: Seq<char>,
        property_value: Option<Seq<char>>,
        message: Option<Seq<char>>,
        command_name: Option<Seq<char>>,
    ) -> ErrorView {
        ErrorView {
            property_name: Some(property_name),
            property_value,
            ..ErrorView::of_kind(
                AIOProtocolErrorKind::InternalLogicError,
                is_shallow,
                is_remote,
                message,
                nested_error,
                command_name,
            )
        }
    }
}

impl AIOProtocolError {
    /// An error of which no more is known than these.
    fn of_kind(
        kind: AIOProtocolErrorKind,
        is_shallow: bool,
        is_remote: bool,
        message: Option<String>,
        nested_error: Option<String>,
        command_name: Option<String>,
    ) -> (r: Self)
        ensures
            r@ == ErrorView::of_kind(
                kind,
                is_shallow,
                is_remote,
                text::opt_text(message),
                text::opt_text(nested_error),
                text::opt_text(command_name),
            ),
    {
        AIOProtocolError {
            kind,
            is_shallow,
            is_remote,
            message,
            nested_error,
            timeout_name: None,
            timeout_value: None,
            property_name: None,
            property_value: None,
            command_name,
        }
    }

    /// Creates a new [`AIOProtocolError`] for a configuration invalid error
    pub fn new_configuration_invalid_error(
        nested_error: Option<String>,
        property_name: &str,
        property_value: Value,
        message: Option<String>,
        command_name: Option<String>,
    ) -> (r: Self)
        ensures
            r@ == ErrorView::configuration_invalid(
                text::opt_text(nested_error),
                property_name@,
                value_text(Some(property_value))->0,
                text::opt_text(message),
                text::opt_text(command_name),
            ),
    {
        let mut r = Self::of_kind(
            AIOProtocolErrorKind::ConfigurationInvalid,
            true,
            false,
            message,
            nested_error,
            command_name,
        );
        r.property_name = Some(property_name.to_string());
        r.property_value = Some(property_value);
        r
    }

    /// Creates a new [`AIOProtocolError`] for a payload invalid error
    pub fn new_payload_invalid_error(
        is_shallow: bool,
        is_remote: bool,
        nested_error: Option<String>,
        message: Option<String>,
        command_name: Option<String>,
    ) -> (r: Self)
        ensures
            r@ == ErrorView::of_kind(
                AIOProtocolErrorKind::PayloadInvalid,
                is_shallow,
                is_remote,
                text::opt_text(message),
                text::opt_text(nested_error),
                text::opt_text(command_name),
            ),
    {
        Self::of_kind(
            AIOProtocolErrorKind::PayloadInvalid,
            is_shallow,
            is_remote,
            message,
            nested_error,
            command_name,
        )
    }

    /// Creates a new [`AIOProtocolError`] for a cancellation error
    pub fn new_cancellation_error(
        is_remote: bool,
        nested_error: Option<String>,
        message: Option<String>,
        command_name: Option<String>,
    ) -> (r: Self)
        ensures
            r@ == ErrorView::of_kind(
                AIOProtocolErrorKind::Cancellation,
                false,
                is_remote,
                text::opt_text(message),
                text::opt_text(nested_error),
                text::opt_text(command_name),
            ),
    {
        Self::of_kind(
            AIOProtocolErrorKind::Cancellation,
            false,
            is_remote,
            message,
            nested_error,
            command_name,
        )
    }

    /// Creates a new [`AIOProtocolError`] for an error of the MQTT client
    pub fn new_mqtt_error(
        message: Option<String>,
        nested_error: String,
        command_name: Option<String>,
    ) -> (r: Self)
        ensures
            r@ == ErrorView::mqtt(
                text::opt_text(message),
                nested_error@,
                text::opt_text(command_name),
            ),
    {
        Self::of_kind(
            AIOProtocolErrorKind::ClientError,
            false,
            false,
            message,
            Some(nested_error),
            command_name,
        )
    }

    /// Creates a new [`AIOProtocolError`] for a timeout error
    pub fn new_timeout_error(
        is_remote: bool,
        nested_error: Option<String>,
        timeout_name: &str,
        timeout_value: Duration,
        message: Option<String>,
        command_name: Option<String>,
    ) -> (r: Self)
        ensures
            r@ == ErrorView::timeout(
                is_remote,
                text::opt_text(nested_error),
                timeout_name@,
                timeout_value,
                text::opt_text(message),
                text::opt_text(command_name),
            ),
    {
        let mut r = Self::of_kind(
            AIOProtocolErrorKind::Timeout,
            false,
            is_remote,
            message,
            nested_error,
            command_name,
        );
        r.timeout_name = Some(timeout_name.to_string());
        r.timeout_value = Some(timeout_value);
        r
    }

    /// Creates a new [`AIOProtocolError`] for an internal logic error
    pub fn new_internal_logic_error(
        is_shallow: bool,
        is_remote: bool,
        nested_error: Option<String>,
        property_name: &str,
        property_value: Option<Value>,
        message: Option<String>,
        command_name: Option<String>,
    ) -> (r: Self)
        ensures
            r@ == ErrorView::internal_logic(
                is_shallow,
                is_remote,
                text::opt_text(nested_error),
                property_name@,
                value_text(property_value),
                text::opt_text(message),
                text::opt_text(command_name),
            ),
    {
        let mut r = Self::of_kind(
            AIOProtocolErrorKind::InternalLogicError,
            is_shallow,
            is_remote,
            message,
            nested_error,
            command_name,
        );
        r.property_name = Some(property_name.to_string());
        r.property_value = property_value;
        r
    }
}

/// An error tells what it was created with, whatever its kind, and nothing else: the message, the
/// nested error, the command, and the property or the timeout that it is about.
pub proof fn law_errors_tell_what_they_are_created_with(
    is_shallow: bool,
    is_remote: bool,
    nested_error: Option<Seq<char>>,
    name: Seq<char>,
    value: Option<Seq<char>>,
    message: Option<Seq<char>>,
    command_name: Option<Seq<char>>,
    timeout: Duration,
    e: ErrorView,
)
    requires
        ({
            ||| value is Some && is_shallow && !is_remote && e == ErrorView::configuration_invalid(
                nested_error,
                name,
                value->0,
                message,
                command_name,
            )
            ||| e == ErrorView::internal_logic(
                is_shallow,
                is_remote,
                nested_error,
                name,
                value,
                message,
                command_name,
            )
            ||| !is_shallow && e == ErrorView::timeout(
                is_remote,
                nested_error,
                name,
                timeout,
                message,
                command_name,
            )
            ||| !is_shallow && !is_remote && nested_error is Some && e == ErrorView::mqtt(
                message,
                nested_error->0,
                command_name,
            )
        }),
    ensures
        e.is_shallow == is_shallow,
        e.is_remote == is_remote,
        e.nested_error == nested_error,
        e.message == message,
        e.command_name == command_name,
        e.kind is Timeout ==> e.timeout_name == Some(name) && e.timeout_value == Some(timeout),
        !(e.kind is Timeout) ==> e.timeout_name is None && e.timeout_value is None,
        e.kind is ConfigurationInvalid || e.kind is InternalLogicError ==> e.property_name == Some(
            name,
        ) && e.property_value == value,
        e.kind is Timeout || e.kind is ClientError ==> e.property_name is None
            && e.property_value is None,
        e.kind is ConfigurationInvalid || e.kind is InternalLogicError || e.kind is Timeout
            || e.kind is ClientError,
{
}

} // verus!
