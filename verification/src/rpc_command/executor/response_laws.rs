//! What holds of the responses to requests.

use vstd::prelude::*;

use crate::common::aio_protocol_error::AIOProtocolErrorKind;
use crate::common::payload_serialize::FormatIndicator;
use crate::control_packet;
use crate::rpc_command::executor::arguments::{self, ResponseArguments};
use crate::rpc_command::executor::cache;
use crate::rpc_command::executor::processing::{self, ApplicationOutcome, Processed};
use crate::rpc_command::StatusCode;
use crate::text;
use crate::time::{Duration, Instant};

verus! {

/// A property that is there if there is a value for it.
pub open spec fn optional(key: Seq<char>, value: Option<Seq<char>>) -> Seq<text::Pair> {
    match value {
        Some(v) => seq![(key, v)],
        None => Seq::empty(),
    }
}

/// What every new response tells in its user properties, behind those of the application.
pub open spec fn told(
    is_application_error: Seq<char>,
    status: Seq<char>,
    timestamp: Option<Seq<char>>,
) -> Seq<text::Pair> {
    seq![("__apErr"@, is_application_error), ("__stat"@, status), ("__protVer"@, "1.0"@)]
        + optional("__ts"@, timestamp)
}

/// The texts of the status codes.
pub(crate) proof fn lemma_status_texts()
    ensures
        text::decimal(200) == "200"@,
        text::decimal(204) == "204"@,
        text::decimal(400) == "400"@,
        text::decimal(415) == "415"@,
        text::decimal(500) == "500"@,
        text::decimal(503) == "503"@,
        text::decimal(505) == "505"@,
        text::decimal(1) + "."@ + text::decimal(0) == "1.0"@,
        text::decimal(1) == "1"@,
{
    reveal_with_fuel(text::decimal, 4);
    reveal_strlit("200");
    reveal_strlit("204");
    reveal_strlit("400");
    reveal_strlit("415");
    reveal_strlit("500");
    reveal_strlit("503");
    reveal_strlit("505");
    reveal_strlit("1.0");
    reveal_strlit("1");
    reveal_strlit(".");
    assert(text::decimal(200) =~= "200"@);
    assert(text::decimal(204) =~= "204"@);
    assert(text::decimal(400) =~= "400"@);
    assert(text::decimal(415) =~= "415"@);
    assert(text::decimal(500) =~= "500"@);
    assert(text::decimal(503) =~= "503"@);
    assert(text::decimal(505) =~= "505"@);
    assert(text::decimal(1) + "."@ + text::decimal(0) =~= "1.0"@);
    assert(text::decimal(1) =~= "1"@);
}

/// The user properties of a new response are those of the application, all of them and first, and
/// then whether there is an application error, the status, the protocol version, and whatever else
/// there is to tell.
pub proof fn law_user_properties_of_responses(
    arguments: arguments::ArgumentsView,
    data: Seq<text::Pair>,
    timestamp: Option<Seq<char>>,
)
    ensures
        processing::response_user_properties(arguments, data, timestamp) == data + told(
            if arguments.is_application_error {
                "true"@
            } else {
                "false"@
            },
            text::decimal(arguments.status_code.spec_number() as nat),
            timestamp,
        ) + optional("__stMsg"@, arguments.status_message) + optional(
            "__propName"@,
            arguments.invalid_property_name,
        ) + optional("__propVal"@, arguments.invalid_property_value) + optional(
            "__supProtMajVer"@,
            processing::versions_text(arguments.supported_protocol_major_versions),
        ) + optional("__requestProtVer"@, arguments.request_protocol_version),
{
    lemma_status_texts();
    assert(processing::response_user_properties(arguments, data, timestamp) =~= data + told(
        if arguments.is_application_error {
            "true"@
        } else {
            "false"@
        },
        text::decimal(arguments.status_code.spec_number() as nat),
        timestamp,
    ) + optional("__stMsg"@, arguments.status_message) + optional(
        "__propName"@,
        arguments.invalid_property_name,
    ) + optional("__propVal"@, arguments.invalid_property_value) + optional(
        "__supProtMajVer"@,
        processing::versions_text(arguments.supported_protocol_major_versions),
    ) + optional("__requestProtVer"@, arguments.request_protocol_version));
}

/// What the application responds is what is published, unless the response was cached or it is not
/// known when the command expires: the bytes of its payload, their content type and format, and its
/// user data in front, whatever they are.
pub proof fn law_what_the_application_responds_is_published<TResp>(
    request: ResponseArguments,
    outcome: ApplicationOutcome<TResp>,
    timestamp: Option<Seq<char>>,
    now: nat,
    processed: Processed,
)
    requires
        !(request.cached_entry_status is Cached),
        request.command_expiration_time is Some,
        outcome is Responded,
        processed is Publish,
        processing::is_processed(processed@, request@, outcome@, timestamp, now),
    ensures
        outcome matches ApplicationOutcome::Responded(response) && (processed matches Processed::Publish(
            message,
        ) && {
            &&& message.payload@ == response.serialized_payload.payload@
            &&& message.properties.content_type matches Some(t) && t@
                == response.serialized_payload.content_type@
            &&& message.properties.payload_format_indicator == Some(
                match response.serialized_payload.format_indicator {
                    FormatIndicator::UnspecifiedBytes => 0u8,
                    FormatIndicator::Utf8EncodedCharacterData => 1u8,
                },
            )
            &&& response.custom_user_data.deep_view().is_prefix_of(
                message.properties.user_properties.deep_view(),
            )
            &&& message.topic@ == request.response_topic@
            &&& message@.properties.correlation_data == request@.correlation_data
        }),
{
    if let ApplicationOutcome::Responded(response) = outcome {
        if let Processed::Publish(message) = processed {
            let said = processing::heard(request@, outcome@);
            assert(said == processing::OutcomeView::Responded(response@));
            assert(processed@ == processing::ProcessedView::Publish(message@));
            let data = response.custom_user_data.deep_view();
            let list = message.properties.user_properties.deep_view();
            law_user_properties_of_responses(
                request@.after_application(said),
                data,
                timestamp,
            );
            assert(message@.properties.user_properties == list);
            assert(data =~= list.subrange(0, data.len() as int));
            assert(message@.payload == response@.serialized_payload.payload);
            assert(message@.properties.content_type == Some(
                response@.serialized_payload.content_type,
            ));
        }
    }
}

/// A request is answered as long as the command has not expired, and no longer: a response that is
/// processed before the command expires is published, with a message expiry interval that lasts
/// until then and less than a second longer, and one that is processed later is not.
pub proof fn law_published_until_the_command_expires(
    request: arguments::ArgumentsView,
    outcome: processing::OutcomeView,
    timestamp: Option<Seq<char>>,
    now: nat,
    processed: processing::ProcessedView,
    expires: nat,
)
    requires
        request.command_expiration_time == Some(expires),
        request.cached_entry_status is Cached || !(outcome is TimedOut),
        expires <= now + 4_294_967_295 * 1_000_000_000,
        processing::is_processed(processed, request, outcome, timestamp, now),
    ensures
        now < expires ==> {
            &&& processed matches processing::ProcessedView::Publish(message)
            &&& message.properties.message_expiry_interval matches Some(secs)
            &&& secs > 0
            &&& expires <= now + secs * 1_000_000_000 < expires + 1_000_000_000
        },
        now >= expires ==> processed is TimedOut,
{
}

/// A request that the application was waited for until it expired is not answered, and the error
/// tells the application so.
pub proof fn law_waiting_in_vain_times_out(
    request: arguments::ArgumentsView,
    outcome: processing::OutcomeView,
    timestamp: Option<Seq<char>>,
    now: nat,
    processed: processing::ProcessedView,
)
    requires
        request.command_expiration_time is Some,
        !(request.cached_entry_status is Cached),
        outcome is TimedOut,
        processing::is_processed(processed, request, outcome, timestamp, now),
    ensures
        processed is TimedOut,
{
}

/// The error that a command has expired names the command, and tells its message expiry interval.
pub proof fn law_timeout_error_tells_command_and_interval(
    request: arguments::ArgumentsView,
    outcome: processing::OutcomeView,
    timestamp: Option<Seq<char>>,
    now: nat,
    processed: processing::ProcessedView,
)
    requires
        processed is TimedOut,
        processing::is_processed(processed, request, outcome, timestamp, now),
    ensures
        processed matches processing::ProcessedView::TimedOut(e) && {
            &&& e.kind == AIOProtocolErrorKind::Timeout
            &&& !e.is_shallow
            &&& !e.is_remote
            &&& e.timeout_name == Some(request.command_name)
            &&& e.timeout_value matches Some(d) && d@ == (match request.message_expiry_interval {
                Some(secs) => secs as nat,
                None => 0,
            }) * 1_000_000_000
            &&& e.command_name == Some(request.command_name)
            &&& e.message is None
            &&& e.nested_error is None
            &&& e.property_name is None
            &&& e.property_value is None
        },
{
}

/// Where it is not known when a command expires, its response is published with a message expiry
/// interval of ten seconds, without asking the application.
pub proof fn law_response_without_expiration_time(
    request: arguments::ArgumentsView,
    outcome: processing::OutcomeView,
    timestamp: Option<Seq<char>>,
    now: nat,
    processed: processing::ProcessedView,
)
    requires
        request.command_expiration_time is None,
        !(request.cached_entry_status is Cached),
        processing::is_processed(processed, request, outcome, timestamp, now),
    ensures
        processed matches processing::ProcessedView::Publish(message) && {
            &&& message.properties.message_expiry_interval == Some(10u32)
            &&& message.payload.len() == 0
        },
{
}

/// A response that was cached is published as it was, but for its message expiry interval.
pub proof fn law_cached_response_is_published_again(
    request: arguments::ArgumentsView,
    entry: cache::CacheEntryView,
    outcome: processing::OutcomeView,
    timestamp: Option<Seq<char>>,
    now: nat,
    message: processing::MessageView,
)
    requires
        request.cached_entry_status == cache::StatusView::Cached(entry),
        processing::is_processed(
            processing::ProcessedView::Publish(message),
            request,
            outcome,
            timestamp,
            now,
        ),
    ensures
        message.payload == entry.serialized_payload.payload,
        message.topic == request.response_topic,
        message.properties == (control_packet::PublishPropertiesView {
            message_expiry_interval: message.properties.message_expiry_interval,
            ..entry.properties
        }),
{
}

/// The response that is published is what is cached for duplicates of its request, until the command
/// expires; and of the other responses, those that have expired are removed, and no others.
pub proof fn law_published_response_is_cached(
    cached: Map<cache::CacheKeyView, cache::CacheEntryView>,
    request: arguments::ArgumentsView,
    key: cache::CacheKeyView,
    expires: nat,
    outcome: processing::OutcomeView,
    timestamp: Option<Seq<char>>,
    now: nat,
    message: processing::MessageView,
    other: cache::CacheKeyView,
)
    requires
        request.cached_key == Some(key),
        request.command_expiration_time == Some(expires),
        request.cached_entry_status is NotFound,
        processing::is_processed(
            processing::ProcessedView::Publish(message),
            request,
            outcome,
            timestamp,
            now,
        ),
        other != key,
    ensures
        ({
            let after = processing::cache_after(cached, request, outcome, timestamp, now);
            &&& after.contains_key(key)
            &&& after[key].serialized_payload.payload == message.payload
            &&& after[key].properties == message.properties
            &&& after[key].expiration_time == expires
            &&& after.contains_key(other) <==> cached.contains_key(other)
                && cached[other].expiration_time >= now
            &&& after.contains_key(other) ==> after[other] == cached[other]
        }),
{
}

/// A response is cached only if it is published, was not cached before, can be identified, and it is
/// known when its command expires: otherwise the cache stays as it is.
pub proof fn law_nothing_else_is_cached(
    cached: Map<cache::CacheKeyView, cache::CacheEntryView>,
    request: arguments::ArgumentsView,
    outcome: processing::OutcomeView,
    timestamp: Option<Seq<char>>,
    now: nat,
    processed: processing::ProcessedView,
)
    requires
        processing::is_processed(processed, request, outcome, timestamp, now),
        !(processed is Publish) || request.cached_key is None || request.command_expiration_time is None
            || !(request.cached_entry_status is NotFound),
    ensures
        processing::cache_after(cached, request, outcome, timestamp, now) == cached,
{
}

/// Where the application drops a request, the response is empty and tells that it did.
pub proof fn law_dropped_request_is_an_application_error(
    request: arguments::ArgumentsView,
    timestamp: Option<Seq<char>>,
    now: nat,
    message: processing::MessageView,
)
    requires
        !(request.cached_entry_status is Cached),
        request.command_expiration_time is Some,
        request.invalid_property_name is None,
        request.invalid_property_value is None,
        request.supported_protocol_major_versions is None,
        request.request_protocol_version is None,
        processing::is_processed(
            processing::ProcessedView::Publish(message),
            request,
            processing::OutcomeView::Dropped,
            timestamp,
            now,
        ),
    ensures
        message.payload.len() == 0,
        message.properties.correlation_data == request.correlation_data,
        message.properties.user_properties == told("true"@, "500"@, timestamp) + seq![
            ("__stMsg"@, "Request has been dropped by the application"@),
        ],
{
    let after = request.after_application(processing::OutcomeView::Dropped);
    law_user_properties_of_responses(after, Seq::empty(), timestamp);
    lemma_status_texts();
    assert(after.status_code == StatusCode::InternalServerError);
    assert(message.properties.user_properties =~= told("true"@, "500"@, timestamp) + seq![
        ("__stMsg"@, "Request has been dropped by the application"@),
    ]);
}

/// The application is waited for until the command expires: for as long as there is until then, and
/// not at all once it has expired.
pub proof fn law_application_is_waited_for_until_the_command_expires(
    request: ResponseArguments,
    now: Instant,
    wait: Option<Duration>,
)
    requires
        call_ensures(processing::response_wait, (&request, now), wait),
    ensures
        wait is Some <==> request.command_expiration_time is Some,
        wait matches Some(d) ==> (request.command_expiration_time matches Some(t) && (if now@ <= t@ {
            now@ + d@ == t@
        } else {
            d@ == 0
        })),
{
}

/// A response carries a timestamp that the clock told just then, unless it is a cached one or the
/// application was waited for in vain.
pub proof fn law_clock_is_asked_for_new_responses(
    request: arguments::ArgumentsView,
    outcome: processing::OutcomeView,
)
    ensures
        processing::needs_timestamp(request, outcome) <==> !(request.cached_entry_status is Cached)
            && !(request.command_expiration_time is Some && outcome is TimedOut),
        processing::is_waited_in_vain(request, outcome) <==> !(request.cached_entry_status is Cached)
            && request.command_expiration_time is Some && outcome is TimedOut,
{
}

} // verus!
