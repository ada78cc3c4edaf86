//! Answering a request.

use vstd::prelude::*;

use crate::bytes_data::clone_opt_bytes;
use crate::common::aio_protocol_error::{self, AIOProtocolError};
use crate::common::payload_serialize::{self, SerializedPayload};
use crate::common::protocol_version::{self, supported_protocol_major_versions_to_string};
use crate::common::user_properties::UserProperty;
use crate::control_packet::{self, PublishProperties, QoS};
use crate::rpc_command::executor::arguments::{
    self, ResponseArguments, DEFAULT_MESSAGE_EXPIRY_INTERVAL_SECONDS,
};
use crate::rpc_command::executor::cache::{self, CacheEntry, CacheEntryStatus};
use crate::rpc_command::executor::response::{self, Response};
use crate::rpc_command::executor::{self, ClientOutcome, Executor, ExecutorView};
use crate::rpc_command::{self, rpc_command_protocol_version, StatusCode};
use crate::text::{self, u16_to_string};
use crate::time::{self, Duration, Instant};

verus! {

/// What came of waiting for the application to respond to a request.
#[derive(Debug)]
pub enum ApplicationOutcome<TResp> {
    /// The application responded.
    Responded(Response<TResp>),
    /// The application dropped the request.
    Dropped,
    /// The request expired before the application responded.
    TimedOut,
    /// The request was not handed to the application.
    NotAsked,
}

/// What an [`ApplicationOutcome`] stands for.
pub enum OutcomeView {
    Responded(response::ResponseView),
    Dropped,
    TimedOut,
    NotAsked,
}

impl<TResp> View for ApplicationOutcome<TResp> {
    type V = OutcomeView;

    open spec fn view(&self) -> OutcomeView {
        match self {
            ApplicationOutcome::Responded(r) => OutcomeView::Responded(r@),
            ApplicationOutcome::Dropped => OutcomeView::Dropped,
            ApplicationOutcome::TimedOut => OutcomeView::TimedOut,
            ApplicationOutcome::NotAsked => OutcomeView::NotAsked,
        }
    }
}

impl arguments::ArgumentsView {
    /// The arguments after the application was asked.
    pub open spec fn after_application(self, outcome: OutcomeView) -> arguments::ArgumentsView {
        match outcome {
            OutcomeView::Responded(r) => if r.serialized_payload.payload.len() == 0 {
                arguments::ArgumentsView { status_code: StatusCode::NoContent, ..self }
            } else {
                self
            },
            OutcomeView::Dropped => arguments::ArgumentsView {
                is_application_error: true,
                ..self.with_status(
                    StatusCode::InternalServerError,
                    "Request has been dropped by the application"@,
                )
            },
            _ => self,
        }
    }
}

/// The payload of the response.
pub open spec fn response_payload(
    outcome: OutcomeView,
) -> payload_serialize::SerializedPayloadView {
    match outcome {
        OutcomeView::Responded(r) => r.serialized_payload,
        _ => payload_serialize::SerializedPayloadView::empty(),
    }
}

/// The user properties that the application wants on the response.
pub open spec fn application_data(outcome: OutcomeView) -> Seq<text::Pair> {
    match outcome {
        OutcomeView::Responded(r) => r.custom_user_data,
        _ => Seq::empty(),
    }
}

/// The list with one more property, if there is a value for it.
pub open spec fn with_optional(
    list: Seq<text::Pair>,
    property: UserProperty,
    value: Option<Seq<char>>,
) -> Seq<text::Pair> {
    match value {
        Some(v) => list.push((property.key(), v)),
        None => list,
    }
}

/// The text of a truth value.
pub open spec fn bool_text(b: bool) -> Seq<char> {
    if b {
        "true"@
    } else {
        "false"@
    }
}

/// The text of an optional list of major versions.
pub open spec fn versions_text(versions: Option<Seq<u16>>) -> Option<Seq<char>> {
    match versions {
        Some(v) => Some(protocol_version::major_versions_text(v)),
        None => None,
    }
}

/// The user properties of the response: those of the application, and those that the arguments tell.
pub open spec fn response_user_properties(
    arguments: arguments::ArgumentsView,
    data: Seq<text::Pair>,
    timestamp: Option<Seq<char>>,
) -> Seq<text::Pair> {
    let status = data.push(
        (UserProperty::IsApplicationError.key(), bool_text(arguments.is_application_error)),
    ).push(
        (
            UserProperty::Status.key(),
            text::decimal(arguments.status_code.spec_number() as nat),
        ),
    ).push(
        (
            UserProperty::ProtocolVersion.key(),
            rpc_command::spec_rpc_command_protocol_version().text(),
        ),
    );
    let stamped = with_optional(status, UserProperty::Timestamp, timestamp);
    let told = with_optional(stamped, UserProperty::StatusMessage, arguments.status_message);
    let named = with_optional(
        told,
        UserProperty::InvalidPropertyName,
        arguments.invalid_property_name,
    );
    let valued = with_optional(
        named,
        UserProperty::InvalidPropertyValue,
        arguments.invalid_property_value,
    );
    let supported = with_optional(
        valued,
        UserProperty::SupportedMajorVersions,
        versions_text(arguments.supported_protocol_major_versions),
    );
    with_optional(
        supported,
        UserProperty::RequestProtocolVersion,
        arguments.request_protocol_version,
    )
}

/// The properties of the response, but for its message expiry interval.
pub open spec fn response_properties(
    arguments: arguments::ArgumentsView,
    payload: payload_serialize::SerializedPayloadView,
    user_properties: Seq<text::Pair>,
) -> control_packet::PublishPropertiesView {
    control_packet::PublishPropertiesView {
        payload_format_indicator: Some(payload.format_indicator.spec_code()),
        message_expiry_interval: None,
        topic_alias: None,
        response_topic: None,
        correlation_data: arguments.correlation_data,
        user_properties,
        subscription_identifiers: Seq::empty(),
        content_type: Some(payload.content_type),
    }
}

/// Append a property, if there is a value for it.
fn push_optional(list: &mut Vec<(String, String)>, property: UserProperty, value: Option<String>)
    ensures
        final(list).deep_view() == with_optional(
            old(list).deep_view(),
            property,
            text::opt_text(value),
        ),
{
    if let Some(v) = value {
        let ghost told = v@;
        list.push((property.to_string(), v));
        assert(list.deep_view() =~= old(list).deep_view().push((property.key(), told)));
    }
}

/// The user properties of the response.
///
/// # Arguments
/// * `arguments` - What the response depends on
/// * `data` - The user properties that the application wants on the response
/// * `timestamp` - The timestamp of the response, if the clock tells one
pub fn build_user_properties(
    arguments: ResponseArguments,
    data: Vec<(String, String)>,
    timestamp: Option<String>,
) -> (r: Vec<(String, String)>)
    ensures
        r.deep_view() == response_user_properties(
            arguments@,
            data.deep_view(),
            text::opt_text(timestamp),
        ),
{
    let mut user_properties = data;
    let is_application_error = if arguments.is_application_error {
        "true"
    } else {
        "false"
    };
    push_optional(
        &mut user_properties,
        UserProperty::IsApplicationError,
        Some(is_application_error.to_string()),
    );
    push_optional(
        &mut user_properties,
        UserProperty::Status,
        Some(u16_to_string(arguments.status_code.number())),
    );
    push_optional(
        &mut user_properties,
        UserProperty::ProtocolVersion,
        Some(rpc_command_protocol_version().to_string()),
    );
    // If there are errors updating the HLC (unlikely when updating against now),
    // the timestamp will not be added.
    push_optional(&mut user_properties, UserProperty::Timestamp, timestamp);
    push_optional(&mut user_properties, UserProperty::StatusMessage, arguments.status_message);
    push_optional(
        &mut user_properties,
        UserProperty::InvalidPropertyName,
        arguments.invalid_property_name,
    );
    push_optional(
        &mut user_properties,
        UserProperty::InvalidPropertyValue,
        arguments.invalid_property_value,
    );
    let supported = match &arguments.supported_protocol_major_versions {
        Some(versions) => Some(supported_protocol_major_versions_to_string(versions)),
        None => None,
    };
    push_optional(&mut user_properties, UserProperty::SupportedMajorVersions, supported);
    push_optional(
        &mut user_properties,
        UserProperty::RequestProtocolVersion,
        arguments.request_protocol_version,
    );
    user_properties
}

/// How long to wait for the application to respond to a request: until the command expires.
pub fn response_wait(arguments: &ResponseArguments, now: Instant) -> (r: Option<Duration>)
    ensures
        match (r, arguments@.command_expiration_time) {
            (Some(d), Some(t)) => d@ == if t >= now@ {
                (t - now@) as nat
            } else {
                0
            },
            (None, None) => true,
            _ => false,
        },
{
    match arguments.command_expiration_time {
        Some(t) => Some(t.saturating_duration_since(now)),
        None => None,
    }
}

/// The message expiry interval of a response: the time that is left until the command expires,
/// rounded up to seconds. None if no time is left.
pub open spec fn remaining_seconds(expires: nat, now: nat) -> Option<nat> {
    if expires <= now {
        None
    } else {
        Some(((expires - now + time::NANOS_PER_SEC - 1) / time::NANOS_PER_SEC as int) as nat)
    }
}

/// The message expiry interval of a response: the time that is left until the command expires,
/// rounded up to seconds. None if no time is left.
pub fn compute_remaining_seconds(expires: Instant, now: Instant) -> (r: Option<u64>)
    ensures
        match (r, remaining_seconds(expires@, now@)) {
            (Some(secs), Some(wanted)) => secs == if wanted <= u64::MAX {
                wanted
            } else {
                u64::MAX as nat
            },
            (None, None) => true,
            _ => false,
        },
{
    // Calculating remaining time until the command expires
    let remaining = expires.saturating_duration_since(now);
    if remaining.is_zero() {
        return None;
    }
    // Rounding remaining expiration time up to the nearest second, to ensure the invoker will time
    // out at or before the response expires.
    if remaining.subsec_nanos() != 0 {
        Some(remaining.as_secs().saturating_add(1))
    } else {
        Some(remaining.as_secs())
    }
}

/// The message expiry interval of a response lasts until the command expires, and less than a second
/// longer.
pub proof fn law_interval_covers_remaining_time(expires: nat, now: nat)
    requires
        now < expires,
    ensures
        remaining_seconds(expires, now) is Some,
        now + remaining_seconds(expires, now)->0 * time::NANOS_PER_SEC >= expires,
        now + remaining_seconds(expires, now)->0 * time::NANOS_PER_SEC < expires
            + time::NANOS_PER_SEC,
        remaining_seconds(expires, now)->0 > 0,
{
}

/// The message expiry interval of a response is at most that of its request.
pub proof fn law_interval_is_at_most_that_of_request(received: nat, interval: u32, now: nat)
    requires
        received <= now,
        arguments::expiration_time(received, Some(interval)) is Some,
    ensures
        match remaining_seconds(
            arguments::expiration_time(received, Some(interval))->0,
            now,
        ) {
            Some(secs) => secs <= interval,
            None => true,
        },
{
}

/// The response to a request, that is to be published.
#[derive(Debug, PartialEq, Eq)]
pub struct ResponseMessage {
    pub topic: String,
    pub qos: QoS,
    pub retain: bool,
    pub payload: Vec<u8>,
    pub properties: PublishProperties,
}

/// What a [`ResponseMessage`] stands for.
#[verifier::ext_equal]
pub struct MessageView {
    pub topic: Seq<char>,
    pub qos: QoS,
    pub retain: bool,
    pub payload: Seq<u8>,
    pub properties: control_packet::PublishPropertiesView,
}

impl View for ResponseMessage {
    type V = MessageView;

    open spec fn view(&self) -> MessageView {
        MessageView {
            topic: self.topic@,
            qos: self.qos,
            retain: self.retain,
            payload: self.payload@,
            properties: self.properties@,
        }
    }
}

/// What is to be done about a request that was processed.
#[derive(Debug, PartialEq, Eq)]
pub enum Processed {
    /// Publish the response, and tell the application what came of that.
    Publish(ResponseMessage),
    /// The command has expired: tell the application so, if it was handed the request.
    TimedOut(AIOProtocolError),
    /// The time that is left until the command expires is too long for a message expiry interval:
    /// do nothing.
    IntervalTooLong,
}

/// What a [`Processed`] stands for.
pub enum ProcessedView {
    Publish(MessageView),
    TimedOut(aio_protocol_error::ErrorView),
    IntervalTooLong,
}

impl View for Processed {
    type V = ProcessedView;

    open spec fn view(&self) -> ProcessedView {
        match self {
            Processed::Publish(m) => ProcessedView::Publish(m@),
            Processed::TimedOut(e) => ProcessedView::TimedOut(e@),
            Processed::IntervalTooLong => ProcessedView::IntervalTooLong,
        }
    }
}

/// Whether the error tells that a command has expired.
pub open spec fn is_timeout_error(
    e: aio_protocol_error::ErrorView,
    arguments: arguments::ArgumentsView,
) -> bool {
    &&& e.timeout_value is Some
    &&& e.timeout_value->0@ == (match arguments.message_expiry_interval {
        Some(secs) => secs,
        None => 0,
    }) * time::NANOS_PER_SEC
    &&& e == aio_protocol_error::ErrorView::timeout(
        false,
        None,
        arguments.command_name,
        e.timeout_value->0,
        None,
        Some(arguments.command_name),
    )
}

/// The error that a command has expired.
fn timeout_error(command_name: &str, message_expiry_interval: Option<u32>) -> (r: AIOProtocolError)
    ensures
        forall|a: arguments::ArgumentsView|
            a.command_name == command_name@ && a.message_expiry_interval == message_expiry_interval
                ==> #[trigger] is_timeout_error(r@, a),
{
    let secs: u32 = match message_expiry_interval {
        Some(secs) => secs,
        None => 0,
    };
    AIOProtocolError::new_timeout_error(
        false,
        None,
        command_name,
        Duration::from_secs(secs as u64),
        None,
        Some(command_name.to_string()),
    )
}

/// Whether the clock is asked for the timestamp of a response: it is not a cached one, and the
/// application was not waited for in vain.
pub open spec fn needs_timestamp(
    arguments: arguments::ArgumentsView,
    outcome: OutcomeView,
) -> bool {
    !(arguments.cached_entry_status is Cached) && !is_waited_in_vain(arguments, outcome)
}

/// Whether the application was waited for until the command expired.
pub open spec fn is_waited_in_vain(
    arguments: arguments::ArgumentsView,
    outcome: OutcomeView,
) -> bool {
    !(arguments.cached_entry_status is Cached) && arguments.command_expiration_time is Some
        && outcome is TimedOut
}

/// What the application had to say, if it was asked: it is not if the expiration time of the command
/// could not be calculated.
pub open spec fn heard(
    arguments: arguments::ArgumentsView,
    outcome: OutcomeView,
) -> OutcomeView {
    if arguments.command_expiration_time is Some {
        outcome
    } else {
        OutcomeView::NotAsked
    }
}

/// The payload and the properties of the response, but for its message expiry interval: those that
/// are cached, or else new ones.
pub open spec fn drafted(
    arguments: arguments::ArgumentsView,
    outcome: OutcomeView,
    timestamp: Option<Seq<char>>,
) -> (payload_serialize::SerializedPayloadView, control_packet::PublishPropertiesView) {
    match arguments.cached_entry_status {
        cache::StatusView::Cached(entry) => (entry.serialized_payload, entry.properties),
        _ => {
            let said = heard(arguments, outcome);
            let payload = response_payload(said);
            (
                payload,
                response_properties(
                    arguments,
                    payload,
                    response_user_properties(
                        arguments.after_application(said),
                        application_data(said),
                        timestamp,
                    ),
                ),
            )
        },
    }
}

/// The message expiry interval of the response.
pub enum IntervalView {
    Seconds(u32),
    TimedOut,
    TooLong,
}

/// The message expiry interval of the response: the time that is left, or the default one if it is
/// not known when the command expires.
pub open spec fn response_interval(
    arguments: arguments::ArgumentsView,
    now: nat,
) -> IntervalView {
    match arguments.command_expiration_time {
        None => IntervalView::Seconds(DEFAULT_MESSAGE_EXPIRY_INTERVAL_SECONDS),
        Some(t) => match remaining_seconds(t, now) {
            None => IntervalView::TimedOut,
            Some(secs) => if secs <= u32::MAX {
                IntervalView::Seconds(secs as u32)
            } else {
                IntervalView::TooLong
            },
        },
    }
}

/// Whether this is what is to be done about a request.
pub open spec fn is_processed(
    processed: ProcessedView,
    arguments: arguments::ArgumentsView,
    outcome: OutcomeView,
    timestamp: Option<Seq<char>>,
    now: nat,
) -> bool {
    if is_waited_in_vain(arguments, outcome) {
        processed matches ProcessedView::TimedOut(e) && is_timeout_error(e, arguments)
    } else {
        let (payload, properties) = drafted(arguments, outcome, timestamp);
        match response_interval(arguments, now) {
            IntervalView::Seconds(secs) => processed == ProcessedView::Publish(
                MessageView {
                    topic: arguments.response_topic,
                    qos: QoS::AtLeastOnce,
                    retain: false,
                    payload: payload.payload,
                    properties: control_packet::PublishPropertiesView {
                        message_expiry_interval: Some(secs),
                        ..properties
                    },
                },
            ),
            IntervalView::TimedOut => processed matches ProcessedView::TimedOut(e)
                && is_timeout_error(e, arguments),
            IntervalView::TooLong => processed is IntervalTooLong,
        }
    }
}

/// The cache after a request was processed: with the response, if it was not answered before, has a
/// key and can expire.
pub open spec fn cache_after(
    cache: Map<cache::CacheKeyView, cache::CacheEntryView>,
    arguments: arguments::ArgumentsView,
    outcome: OutcomeView,
    timestamp: Option<Seq<char>>,
    now: nat,
) -> Map<cache::CacheKeyView, cache::CacheEntryView> {
    let (payload, properties) = drafted(arguments, outcome, timestamp);
    match (
        response_interval(arguments, now),
        arguments.command_expiration_time,
        arguments.cached_key,
    ) {
        (IntervalView::Seconds(secs), Some(expiration_time), Some(key)) => if !is_waited_in_vain(
            arguments,
            outcome,
        ) && arguments.cached_entry_status is NotFound {
            cache::unexpired(cache, now).insert(
                key,
                cache::CacheEntryView {
                    serialized_payload: payload,
                    properties: control_packet::PublishPropertiesView {
                        message_expiry_interval: Some(secs),
                        ..properties
                    },
                    expiration_time,
                },
            )
        } else {
            cache
        },
        _ => cache,
    }
}

/// A new payload and new properties for a response, but for its message expiry interval.
///
/// # Arguments
/// * `response_arguments` - What the response depends on
/// * `outcome` - What came of waiting for the application
/// * `timestamp` - The timestamp of the response, if the clock tells one
fn draft<TResp>(
    response_arguments: ResponseArguments,
    outcome: ApplicationOutcome<TResp>,
    timestamp: Option<String>,
) -> (r: (SerializedPayload, PublishProperties))
    requires
        !(response_arguments@.cached_entry_status is Cached),
    ensures
        (r.0@, r.1@) == drafted(response_arguments@, outcome@, text::opt_text(timestamp)),
{
    let ghost before = response_arguments@;
    let ghost said = heard(before, outcome@);
    let mut response_arguments = response_arguments;
    let mut serialized_payload = SerializedPayload::default();
    let mut data: Vec<(String, String)> = Vec::new();
    assert(data.deep_view() =~= Seq::<text::Pair>::empty());
    if response_arguments.command_expiration_time.is_some() {
        match outcome {
            ApplicationOutcome::Responded(response) => {
                data = response.custom_user_data;
                serialized_payload = response.serialized_payload;
                if serialized_payload.payload.len() == 0 {
                    response_arguments.status_code = StatusCode::NoContent;
                }
            },
            ApplicationOutcome::Dropped => {
                // Happens when the sender is dropped by the application.
                response_arguments.set_status(
                    StatusCode::InternalServerError,
                    "Request has been dropped by the application".to_string(),
                );
                response_arguments.is_application_error = true;
            },
            _ => {},
        }
    }
    assert(response_arguments@ =~= before.after_application(said));
    let correlation_data = clone_opt_bytes(&response_arguments.correlation_data);
    let user_properties = build_user_properties(response_arguments, data, timestamp);
    let properties = PublishProperties {
        payload_format_indicator: Some(serialized_payload.format_indicator.code()),
        message_expiry_interval: None,
        topic_alias: None,
        response_topic: None,
        correlation_data,
        user_properties,
        subscription_identifiers: Vec::new(),
        content_type: Some(serialized_payload.content_type.clone()),
    };
    assert(properties@ =~= drafted(before, outcome@, text::opt_text(timestamp)).1);
    (serialized_payload, properties)
}

impl Executor {
    /// Process a request: answer it as the application or the cache says, or tell what is wrong with
    /// it. The response is cached.
    ///
    /// # Arguments
    /// * `response_arguments` - What the response depends on
    /// * `outcome` - What came of waiting for the application
    /// * `update_now` - Updates the clock of the application, and tells its timestamp unless there
    ///   are errors
    /// * `now` - Tells the present time
    pub fn process_command<TResp, U: Fn() -> Option<String>, N: Fn() -> Instant>(
        &mut self,
        response_arguments: ResponseArguments,
        outcome: ApplicationOutcome<TResp>,
        update_now: &U,
        now: &N,
    ) -> (r: Processed)
        requires
            old(self).wf(),
            call_requires(*update_now, ()),
            call_requires(*now, ()),
        ensures
            final(self).wf(),
            exists|timestamp: Option<String>, time: Instant|
                {
                    &&& #[trigger] is_processed(
                        r@,
                        response_arguments@,
                        outcome@,
                        text::opt_text(timestamp),
                        time@,
                    )
                    &&& final(self)@ == (ExecutorView {
                        cache: cache_after(
                            old(self)@.cache,
                            response_arguments@,
                            outcome@,
                            text::opt_text(timestamp),
                            time@,
                        ),
                        ..old(self)@
                    })
                    &&& needs_timestamp(response_arguments@, outcome@) ==> call_ensures(
                        *update_now,
                        (),
                        timestamp,
                    )
                    &&& !is_waited_in_vain(response_arguments@, outcome@) ==> call_ensures(
                        *now,
                        (),
                        time,
                    )
                },
    {
        let ghost arguments = response_arguments@;
        let ghost said = outcome@;
        let command_name = response_arguments.command_name.clone();
        let response_topic = response_arguments.response_topic.clone();
        let message_expiry_interval = response_arguments.message_expiry_interval;
        let command_expiration_time = response_arguments.command_expiration_time;
        let cached_key = match &response_arguments.cached_key {
            Some(key) => Some(key.clone()),
            None => None,
        };
        let cache_not_found = match &response_arguments.cached_entry_status {
            CacheEntryStatus::NotFound => true,
            _ => false,
        };
        let ghost mut timestamp_told: Option<String> = None;
        let (serialized_payload, publish_properties) = match &response_arguments.cached_entry_status {
            // The command has already been processed, we can respond with the cached response
            CacheEntryStatus::Cached(entry) => (
                entry.serialized_payload.clone(),
                entry.properties.clone(),
            ),
            _ => {
                let timed_out = match &outcome {
                    ApplicationOutcome::TimedOut => true,
                    _ => false,
                };
                if timed_out && command_expiration_time.is_some() {
                    // Notify the application that a timeout occurred
                    let r = Processed::TimedOut(
                        timeout_error(command_name.as_str(), message_expiry_interval),
                    );
                    proof {
                        let time: Instant = arbitrary();
                        assert(is_processed(
                            r@,
                            arguments,
                            said,
                            text::opt_text(timestamp_told),
                            time@,
                        ));
                    }
                    return r;
                }
                // Update HLC and use as the timestamp.
                let timestamp = update_now();
                proof {
                    timestamp_told = timestamp;
                }
                draft(response_arguments, outcome, timestamp)
            },
        };
        let mut publish_properties = publish_properties;
        let ghost drafted_properties = publish_properties@;
        assert((serialized_payload@, drafted_properties) == drafted(
            arguments,
            said,
            text::opt_text(timestamp_told),
        ));
        let time = now();
        let interval: u32 = match command_expiration_time {
            Some(expiration_time) => match compute_remaining_seconds(expiration_time, time) {
                Some(secs) => {
                    if secs > u32::MAX as u64 {
                        let r = Processed::IntervalTooLong;
                        assert(is_processed(
                            r@,
                            arguments,
                            said,
                            text::opt_text(timestamp_told),
                            time@,
                        ));
                        return r;
                    }
                    secs as u32
                },
                None => {
                    // Notify the application that a timeout occurred
                    let r = Processed::TimedOut(
                        timeout_error(command_name.as_str(), message_expiry_interval),
                    );
                    assert(is_processed(
                        r@,
                        arguments,
                        said,
                        text::opt_text(timestamp_told),
                        time@,
                    ));
                    return r;
                },
            },
            // Happens when the command expiration time was not able to be calculated.
            None => DEFAULT_MESSAGE_EXPIRY_INTERVAL_SECONDS,
        };
        publish_properties.message_expiry_interval = Some(interval);
        // Store cache, even if the response is an error. We don't cache the response if the command
        // expiration time was not able to be calculated.
        if cache_not_found {
            if let (Some(key), Some(expiration_time)) = (cached_key, command_expiration_time) {
                let entry = CacheEntry {
                    properties: publish_properties.clone(),
                    serialized_payload: serialized_payload.clone(),
                    expiration_time,
                };
                self.cache_response(key, entry, time);
            }
        }
        let r = Processed::Publish(
            ResponseMessage {
                topic: response_topic,
                qos: QoS::AtLeastOnce,
                retain: false,
                payload: serialized_payload.payload,
                properties: publish_properties,
            },
        );
        assert(is_processed(r@, arguments, said, text::opt_text(timestamp_told), time@));
        r
    }
}

/// What the application is told of the publish of a response.
pub open spec fn completion(
    outcome: ClientOutcome,
    command_name: Seq<char>,
) -> Result<(), aio_protocol_error::ErrorView> {
    match outcome {
        ClientOutcome::Acked => Ok(()),
        ClientOutcome::AckFailed(e) => Err(
            aio_protocol_error::ErrorView::mqtt(
                Some("MQTT error on command executor response puback"@),
                e@,
                Some(command_name),
            ),
        ),
        ClientOutcome::NotSent(e) => Err(
            aio_protocol_error::ErrorView::internal_logic(
                false,
                false,
                Some(e@),
                "response_publish"@,
                None,
                Some("Error publishing response"@),
                Some(command_name),
            ),
        ),
    }
}

/// What the application is told of the publish of a response.
///
/// # Arguments
/// * `outcome` - What came of the publish
/// * `command_name` - The name of the command
///
/// # Errors
/// If the publish failed, or was not acknowledged with success.
pub fn publish_completion(outcome: ClientOutcome, command_name: &str) -> (r: Result<
    (),
    AIOProtocolError,
>)
    ensures
        executor::is_result(r, completion(outcome, command_name@)),
{
    match outcome {
        ClientOutcome::Acked => Ok(()),
        ClientOutcome::AckFailed(e) => Err(
            AIOProtocolError::new_mqtt_error(
                Some("MQTT error on command executor response puback".to_string()),
                e,
                Some(command_name.to_string()),
            ),
        ),
        ClientOutcome::NotSent(e) => Err(
            AIOProtocolError::new_internal_logic_error(
                false,
                false,
                Some(e),
                "response_publish",
                None,
                Some("Error publishing response".to_string()),
                Some(command_name.to_string()),
            ),
        ),
    }
}

} // verus!
