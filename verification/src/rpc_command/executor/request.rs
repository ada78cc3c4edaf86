//! Requests that are handed to the application.

use vstd::prelude::*;
use vstd::string::StringExecFns;

use crate::bytes_data::bytes_to_vec;
use crate::common::aio_protocol_error::{self, AIOProtocolError, AIOProtocolErrorKind};
use crate::common::payload_serialize::{DeserializationError, FormatIndicator, PayloadSerialize};
use crate::common::user_properties::UserProperty;
use crate::control_packet::{self, Publish, PublishProperties};
use crate::rpc_command::executor::arguments::{self, ResponseArguments};
use crate::rpc_command::executor::contents::{
    self, read_user_properties, ClockOutcome, HLCErrorKind,
};
use crate::rpc_command::StatusCode;
use crate::text::{self, clone_opt, utf8_error, utf8_text};

verus! {

/// Command Executor Request struct.
/// Used by the [`Executor`](crate::rpc_command::executor::Executor)
#[derive(Debug, PartialEq, Eq)]
pub struct Request<TReq> {
    /// Payload of the command request.
    pub payload: TReq,
    /// Content Type of the command request.
    pub content_type: Option<String>,
    /// Format Indicator of the command request.
    pub format_indicator: FormatIndicator,
    /// Custom user data set as custom MQTT User Properties on the request message.
    pub custom_user_data: Vec<(String, String)>,
    /// Timestamp of the command request.
    pub timestamp: Option<String>,
    /// If present, contains the client ID of the invoker of the command.
    pub invoker_id: Option<String>,
    /// Resolved static and dynamic topic tokens from the incoming request's topic.
    pub topic_tokens: Vec<(String, String)>,
    /// The name of the command.
    pub command_name: String,
}

/// What a [`Request`] stands for.
#[verifier::ext_equal]
pub struct RequestView<TReq> {
    pub payload: TReq,
    pub content_type: Option<Seq<char>>,
    pub format_indicator: FormatIndicator,
    pub custom_user_data: Seq<text::Pair>,
    pub timestamp: Option<Seq<char>>,
    pub invoker_id: Option<Seq<char>>,
    pub topic_tokens: Seq<text::Pair>,
    pub command_name: Seq<char>,
}

impl<TReq> View for Request<TReq> {
    type V = RequestView<TReq>;

    open spec fn view(&self) -> RequestView<TReq> {
        RequestView {
            payload: self.payload,
            content_type: text::opt_text(self.content_type),
            format_indicator: self.format_indicator,
            custom_user_data: self.custom_user_data.deep_view(),
            timestamp: text::opt_text(self.timestamp),
            invoker_id: text::opt_text(self.invoker_id),
            topic_tokens: self.topic_tokens.deep_view(),
            command_name: self.command_name@,
        }
    }
}

/// The error that the executor can no longer respond.
pub open spec fn cancellation_error(command_name: Seq<char>) -> aio_protocol_error::ErrorView {
    aio_protocol_error::ErrorView::of_kind(
        AIOProtocolErrorKind::Cancellation,
        false,
        false,
        Some("Command Executor has been shutdown and can no longer respond to commands"@),
        None,
        Some(command_name),
    )
}

impl<TReq> Request<TReq> {
    /// The error that the executor can no longer respond.
    pub fn create_cancellation_error(command_name: String) -> (r: AIOProtocolError)
        ensures
            r@ == cancellation_error(command_name@),
    {
        AIOProtocolError::new_cancellation_error(
            false,
            None,
            Some(
                "Command Executor has been shutdown and can no longer respond to commands".to_string(),
            ),
            Some(command_name),
        )
    }

    /// Consumes the command request, the response to which was reported to the executor, and tells
    /// what came of it.
    ///
    /// # Arguments
    /// * `publish_completion` - What the executor told of the publish of the response. None if the
    ///   executor was dropped.
    ///
    /// # Errors
    /// The error that the executor told of, or else one of kind
    /// [`Cancellation`](AIOProtocolErrorKind::Cancellation) if the executor was dropped.
    pub fn complete(self, publish_completion: Option<Result<(), AIOProtocolError>>) -> (r: Result<
        (),
        AIOProtocolError,
    >)
        ensures
            match publish_completion {
                Some(result) => r == result,
                None => r is Err && r->Err_0@ == cancellation_error(self.command_name@),
            },
    {
        match publish_completion {
            Some(result) => result,
            None => Err(Self::create_cancellation_error(self.command_name)),
        }
    }
}

impl arguments::ArgumentsView {
    /// The arguments where the clock was not updated against the timestamp of a request.
    pub open spec fn with_clock_fault(
        self,
        timestamp: Seq<char>,
        outcome: ClockOutcome,
    ) -> arguments::ArgumentsView {
        match outcome {
            ClockOutcome::Updated => self,
            ClockOutcome::Invalid(e) => self.with_property_fault(
                StatusCode::BadRequest,
                "Timestamp invalid: "@ + e@,
                UserProperty::Timestamp.key(),
                Some(timestamp),
            ),
            ClockOutcome::Failed(kind, e) => self.with_property_fault(
                match kind {
                    HLCErrorKind::ClockDrift => StatusCode::ServiceUnavailable,
                    HLCErrorKind::OverflowWarning => StatusCode::InternalServerError,
                },
                "Failure updating application HLC against "@ + timestamp + ": "@ + e@,
                UserProperty::Timestamp.key(),
                Some(timestamp),
            ),
        }
    }

    /// The arguments where the payload of a request could not be deserialized.
    pub open spec fn with_payload_fault(
        self,
        e: DeserializationError,
        content_type: Option<Seq<char>>,
    ) -> arguments::ArgumentsView {
        match e {
            DeserializationError::InvalidPayload(e) => self.with_status(
                StatusCode::BadRequest,
                "Error deserializing payload: "@ + e@,
            ),
            DeserializationError::UnsupportedContentType(message) => self.with_property_fault(
                StatusCode::UnsupportedMediaType,
                message@,
                "Content Type"@,
                Some(
                    match content_type {
                        Some(t) => t,
                        None => "None"@,
                    },
                ),
            ),
        }
    }
}

impl ResponseArguments {
    /// The clock was not updated against the timestamp of the request.
    pub fn set_clock_fault(&mut self, timestamp: String, outcome: ClockOutcome)
        ensures
            final(self)@ == old(self)@.with_clock_fault(timestamp@, outcome),
    {
        match outcome {
            ClockOutcome::Updated => {},
            ClockOutcome::Invalid(e) => {
                self.set_property_fault(
                    StatusCode::BadRequest,
                    "Timestamp invalid: ".to_string().concat(e.as_str()),
                    UserProperty::Timestamp.to_string(),
                    Some(timestamp),
                );
            },
            ClockOutcome::Failed(kind, e) => {
                let status_code = match kind {
                    HLCErrorKind::ClockDrift => StatusCode::ServiceUnavailable,
                    HLCErrorKind::OverflowWarning => StatusCode::InternalServerError,
                };
                let message = "Failure updating application HLC against ".to_string().concat(
                    timestamp.as_str(),
                ).concat(": ").concat(e.as_str());
                self.set_property_fault(
                    status_code,
                    message,
                    UserProperty::Timestamp.to_string(),
                    Some(timestamp),
                );
            },
        }
    }

    /// The payload of the request could not be deserialized.
    pub fn set_payload_fault(&mut self, e: DeserializationError, content_type: &Option<String>)
        ensures
            final(self)@ == old(self)@.with_payload_fault(e, text::opt_text(*content_type)),
    {
        match e {
            DeserializationError::InvalidPayload(e) => {
                self.set_status(
                    StatusCode::BadRequest,
                    "Error deserializing payload: ".to_string().concat(e.as_str()),
                );
            },
            DeserializationError::UnsupportedContentType(message) => {
                let value = match content_type {
                    Some(t) => t.clone(),
                    None => "None".to_string(),
                };
                self.set_property_fault(
                    StatusCode::UnsupportedMediaType,
                    message,
                    "Content Type".to_string(),
                    Some(value),
                );
            },
        }
    }
}

/// What came of reading the contents of a request.
pub enum ContentsView<TReq> {
    /// The request is to be handed to the application.
    Read(RequestView<TReq>),
    /// Something is wrong with it, and it is to be answered so.
    Fault(arguments::ArgumentsView),
}

/// Whether the payload of a request is looked at: nothing is wrong with what comes before it.
pub open spec fn reaches_payload(
    m: control_packet::PublishView,
    properties: control_packet::PublishPropertiesView,
    outcomes: Seq<ClockOutcome>,
) -> bool {
    &&& contents::has_supported_version(properties.user_properties)
    &&& contents::PropertiesView::read(properties.user_properties, outcomes).fault is None
    &&& vstd::utf8::valid_utf8(m.topic)
}

/// What comes of reading the contents of a request.
///
/// `outcomes` are what comes of updating the clock against its timestamps, `tokens` the tokens of
/// its topic, and `payload` is what comes of deserializing its payload.
pub open spec fn contents_read<TReq>(
    arguments: arguments::ArgumentsView,
    m: control_packet::PublishView,
    properties: control_packet::PublishPropertiesView,
    outcomes: Seq<ClockOutcome>,
    tokens: Seq<text::Pair>,
    payload: Result<TReq, DeserializationError>,
) -> ContentsView<TReq> {
    let read = contents::PropertiesView::read(properties.user_properties, outcomes);
    if !contents::has_supported_version(properties.user_properties) {
        ContentsView::Fault(arguments.version_checked(properties.user_properties))
    } else if let Some((timestamp, outcome)) = read.fault {
        ContentsView::Fault(arguments.with_clock_fault(timestamp, outcome))
    } else if !vstd::utf8::valid_utf8(m.topic) {
        ContentsView::Fault(
            arguments.with_status(
                StatusCode::BadRequest,
                "Error deserializing topic: "@ + text::utf8_error_text(m.topic),
            ),
        )
    } else {
        match payload {
            Ok(payload) => ContentsView::Read(
                RequestView {
                    payload,
                    content_type: properties.content_type,
                    format_indicator: FormatIndicator::spec_from_code(
                        properties.payload_format_indicator,
                    ),
                    custom_user_data: read.user_data,
                    timestamp: read.timestamp,
                    invoker_id: read.invoker_id,
                    topic_tokens: tokens,
                    command_name: arguments.command_name,
                },
            ),
            Err(e) => ContentsView::Fault(
                arguments.with_payload_fault(e, properties.content_type),
            ),
        }
    }
}

/// Whether the result is what the type of the payload makes of the bytes of a request.
pub open spec fn is_deserialized<TReq: PayloadSerialize>(
    m: control_packet::PublishView,
    properties: control_packet::PublishPropertiesView,
    payload: Result<TReq, DeserializationError>,
) -> bool {
    exists|bytes: Vec<u8>, content_type: Option<String>|
        {
            &&& bytes@ == m.payload
            &&& text::opt_text(content_type) == properties.content_type
            &&& #[trigger] call_ensures(
                TReq::deserialize,
                (
                    bytes,
                    content_type,
                    FormatIndicator::spec_from_code(properties.payload_format_indicator),
                ),
                payload,
            )
        }
}

/// Whether the tokens are those that are found in the topic of a request.
pub open spec fn are_tokens<P: Fn(String) -> Vec<(String, String)>>(
    parse_tokens: P,
    m: control_packet::PublishView,
    tokens: Seq<text::Pair>,
) -> bool {
    exists|topic: String, list: Vec<(String, String)>|
        {
            &&& topic@ == vstd::utf8::decode_utf8(m.topic)
            &&& list.deep_view() == tokens
            &&& #[trigger] call_ensures(parse_tokens, (topic,), list)
        }
}

/// Whether these are the answers that reading the contents of a request asks for: of the clock to
/// its timestamps, and, if the payload is reached, what is found in its topic and its payload.
pub open spec fn are_answers_for<
    TReq: PayloadSerialize,
    U: Fn(String) -> ClockOutcome,
    P: Fn(String) -> Vec<(String, String)>,
>(
    m: control_packet::PublishView,
    properties: control_packet::PublishPropertiesView,
    update_clock: U,
    parse_tokens: P,
    outcomes: Seq<ClockOutcome>,
    tokens: Seq<text::Pair>,
    payload: Result<TReq, DeserializationError>,
) -> bool {
    &&& contents::has_supported_version(properties.user_properties) ==> contents::are_answers(
        update_clock,
        contents::PropertiesView::read(properties.user_properties, outcomes).asked,
        outcomes,
    )
    &&& reaches_payload(m, properties, outcomes) ==> are_tokens(parse_tokens, m, tokens)
        && is_deserialized(m, properties, payload)
}

/// Whether a read request, or the arguments if there is none, are what the contents came to.
pub open spec fn is_contents<TReq>(
    request: Option<Request<TReq>>,
    before: arguments::ArgumentsView,
    after: arguments::ArgumentsView,
    contents: ContentsView<TReq>,
) -> bool {
    match contents {
        ContentsView::Read(v) => request is Some && request->0@ == v && after == before,
        ContentsView::Fault(a) => request is None && after == a,
    }
}

/// Read the contents of a request. Returns the request if nothing is wrong with it; otherwise the
/// arguments tell what is.
///
/// # Arguments
/// * `arguments` - What the response depends on
/// * `m` - The message of the request
/// * `properties` - The properties of the message
/// * `update_clock` - Updates the clock of the application against a timestamp
/// * `parse_tokens` - Finds the tokens of the topic pattern in a topic
pub fn read_contents<
    TReq: PayloadSerialize,
    U: Fn(String) -> ClockOutcome,
    P: Fn(String) -> Vec<(String, String)>,
>(
    arguments: &mut ResponseArguments,
    m: &Publish,
    properties: &PublishProperties,
    update_clock: &U,
    parse_tokens: &P,
) -> (r: Option<Request<TReq>>)
    requires
        forall|timestamp: String| #[trigger] call_requires(*update_clock, (timestamp,)),
        forall|topic: String| #[trigger] call_requires(*parse_tokens, (topic,)),
    ensures
        exists|
            outcomes: Seq<ClockOutcome>,
            tokens: Seq<text::Pair>,
            payload: Result<TReq, DeserializationError>,
        |
            {
                &&& is_contents(
                    r,
                    old(arguments)@,
                    final(arguments)@,
                    #[trigger] contents_read(
                        old(arguments)@,
                        m@,
                        properties@,
                        outcomes,
                        tokens,
                        payload,
                    ),
                )
                &&& are_answers_for(
                    m@,
                    properties@,
                    *update_clock,
                    *parse_tokens,
                    outcomes,
                    tokens,
                    payload,
                )
            },
{
    let ghost before = arguments@;
    let ghost list = properties@.user_properties;
    let ghost mut outcomes: Seq<ClockOutcome> = Seq::empty();
    let ghost mut tokens: Seq<text::Pair> = Seq::empty();
    let ghost mut payload_result: Result<TReq, DeserializationError> = arbitrary();
    if !arguments.check_version(&properties.user_properties) {
        assert(is_contents(
            None,
            before,
            arguments@,
            contents_read(before, m@, properties@, outcomes, tokens, payload_result),
        ));
        return None;
    }
    let read = read_user_properties(&properties.user_properties, update_clock);
    proof {
        outcomes = choose|outcomes: Seq<ClockOutcome>|
            {
                &&& read.is_read(#[trigger] contents::PropertiesView::read(list, outcomes))
                &&& contents::are_answers(
                    *update_clock,
                    contents::PropertiesView::read(list, outcomes).asked,
                    outcomes,
                )
            };
        assert(read.is_read(contents::PropertiesView::read(list, outcomes)));
    }
    if let Some((timestamp, outcome)) = read.fault {
        arguments.set_clock_fault(timestamp, outcome);
        assert(is_contents(
            None,
            before,
            arguments@,
            contents_read(before, m@, properties@, outcomes, tokens, payload_result),
        ));
        return None;
    }
    let topic_bytes = bytes_to_vec(&m.topic);
    if let Some(e) = utf8_error(&topic_bytes) {
        // This should never happen as the topic is always a valid UTF-8 string from the MQTT client
        arguments.set_status(
            StatusCode::BadRequest,
            "Error deserializing topic: ".to_string().concat(e.as_str()),
        );
        assert(is_contents(
            None,
            before,
            arguments@,
            contents_read(before, m@, properties@, outcomes, tokens, payload_result),
        ));
        return None;
    }
    let topic = match utf8_text(topic_bytes) {
        Some(topic) => topic,
        None => String::new(),
    };
    let ghost asked_topic = topic;
    let topic_tokens = parse_tokens(topic);
    proof {
        tokens = topic_tokens.deep_view();
        assert(call_ensures(*parse_tokens, (asked_topic,), topic_tokens));
        assert(are_tokens(*parse_tokens, m@, tokens));
    }
    // Deserialize payload
    let format_indicator = FormatIndicator::from_code(properties.payload_format_indicator);
    let bytes = bytes_to_vec(&m.payload);
    let content_type = clone_opt(&properties.content_type);
    let ghost asked_bytes = bytes;
    let ghost asked_type = content_type;
    let result = TReq::deserialize(bytes, content_type, format_indicator);
    proof {
        payload_result = result;
        assert(call_ensures(
            TReq::deserialize,
            (asked_bytes, asked_type, format_indicator),
            payload_result,
        ));
        assert(is_deserialized(m@, properties@, payload_result));
    }
    let r = match result {
        Ok(payload) => Some(
            Request {
                payload,
                content_type: clone_opt(&properties.content_type),
                format_indicator,
                custom_user_data: read.user_data,
                timestamp: read.timestamp,
                invoker_id: read.invoker_id,
                topic_tokens,
                command_name: arguments.command_name.clone(),
            },
        ),
        Err(e) => {
            arguments.set_payload_fault(e, &properties.content_type);
            None
        },
    };
    assert(is_contents(
        r,
        before,
        arguments@,
        contents_read(before, m@, properties@, outcomes, tokens, payload_result),
    ));
    r
}

} // verus!
