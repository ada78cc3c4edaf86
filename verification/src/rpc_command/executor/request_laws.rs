//! What becomes of the messages that are received, told by what is in them.

use vstd::prelude::*;

use crate::common::aio_protocol_error::AIOProtocolErrorKind;
use crate::common::payload_serialize::{DeserializationError, FormatIndicator, PayloadSerialize};
use crate::common::protocol_version;
use crate::common::topic_processor;
use crate::control_packet::{self, QoS};
use crate::rpc_command::executor::arguments;
use crate::rpc_command::executor::cache;
use crate::rpc_command::executor::contents::{self, ClockOutcome, HLCErrorKind};
use crate::rpc_command::executor::processing;
use crate::rpc_command::executor::property_laws::{
    self, law_first_timestamp_that_fails_is_the_fault, law_first_version_decides,
    law_last_timestamp_and_source_are_told, law_user_data_are_all_custom_properties,
};
use crate::rpc_command::executor::request;
use crate::rpc_command::executor::response_laws::{
    self, law_user_properties_of_responses, lemma_status_texts,
};
use crate::rpc_command::executor::{self, Answers, ExecutorView};
use crate::text;
use crate::time::Instant;

verus! {

/// The last point in time that can be represented, in nanoseconds.
pub open spec fn end_of_time() -> nat {
    (u64::MAX as nat * 1_000_000_000 + 999_999_999) as nat
}

/// When the command of a message expires, if that can be represented: as many seconds after it was
/// received as its message expiry interval says, or ten if it has none.
pub open spec fn expires(received: nat, interval: Option<u32>) -> nat {
    received + (match interval {
        Some(secs) => secs as nat,
        None => 10,
    }) * 1_000_000_000
}

/// Whether a message can be answered: it says where to.
pub open spec fn says_where_to_respond(
    m: control_packet::PublishView,
    p: control_packet::PublishPropertiesView,
    topic: Seq<char>,
) -> bool {
    &&& m.properties == Some(p)
    &&& p.response_topic == Some(topic)
    &&& topic_processor::can_replace(topic)
}

/// Whether a message that can be answered says which request it is, and until when to answer it.
pub open spec fn says_which_request(
    m: control_packet::PublishView,
    p: control_packet::PublishPropertiesView,
    topic: Seq<char>,
    data: Seq<u8>,
    received: nat,
) -> bool {
    &&& says_where_to_respond(m, p, topic)
    &&& p.correlation_data == Some(data)
    &&& data.len() == 16
    &&& p.message_expiry_interval is Some
    &&& expires(received, p.message_expiry_interval) <= end_of_time()
}

/// The versions that a request tells.
pub open spec fn versions(list: Seq<text::Pair>) -> Seq<text::Pair> {
    list.filter(|p: text::Pair| property_laws::has_key(p, "__protVer"@))
}

/// Whether the first version that a request tells is supported, or it tells none.
pub open spec fn version_is_supported(list: Seq<text::Pair>) -> bool {
    versions(list).len() == 0 || (protocol_version::parsed_version(versions(list)[0].1) matches Some(
        v,
    ) && v.major == 1)
}

/// Whether the clock could be updated against all timestamps of a request.
pub open spec fn clock_is_updated(list: Seq<text::Pair>, outcomes: Seq<ClockOutcome>) -> bool {
    forall|j: int|
        0 <= j < property_laws::timestamps(list).len() ==> (#[trigger] outcomes[j]) is Updated
}

/// The request as the application is handed it.
pub open spec fn request_for_application<TReq>(
    executor: ExecutorView,
    p: control_packet::PublishPropertiesView,
    tokens: Seq<text::Pair>,
    payload: TReq,
) -> request::RequestView<TReq> {
    let list = p.user_properties;
    let timestamps = property_laws::timestamps(list);
    let sources = list.filter(|p: text::Pair| property_laws::has_key(p, "__srcId"@));
    request::RequestView {
        payload,
        content_type: p.content_type,
        format_indicator: if p.payload_format_indicator == Some(1u8) {
            FormatIndicator::Utf8EncodedCharacterData
        } else {
            FormatIndicator::UnspecifiedBytes
        },
        custom_user_data: list.filter(|p: text::Pair| property_laws::is_custom(p)),
        timestamp: if timestamps.len() == 0 {
            None
        } else {
            Some(timestamps.last())
        },
        invoker_id: if sources.len() == 0 {
            None
        } else {
            Some(sources.last().1)
        },
        topic_tokens: tokens,
        command_name: executor.command_name,
    }
}

/// Where neither the time nor the identity of a request are at fault, it is looked at.
proof fn lemma_is_fresh<TReq>(
    executor: ExecutorView,
    m: control_packet::PublishView,
    p: control_packet::PublishPropertiesView,
    topic: Seq<char>,
    data: Seq<u8>,
    answers: Answers<TReq>,
)
    requires
        says_which_request(m, p, topic, data, answers.received@),
        !executor.cache.contains_key(
            cache::CacheKeyView { response_topic: topic, correlation_data: data },
        ),
    ensures
        executor::answerable(Some((m, true))) == Some((m, p, topic)),
        executor.arguments_for(p, topic, answers.received@, answers.looked_up@).is_fresh(),
        executor.arguments_for(
            p,
            topic,
            answers.received@,
            answers.looked_up@,
        ).command_expiration_time == Some(
            expires(answers.received@, p.message_expiry_interval),
        ),
{
}

/// A request that nothing is wrong with, that has not expired and that was not answered before is
/// handed to the application, with all that it tells: its payload, content type, format, tokens and
/// user data, its last timestamp, and the invoker.
pub proof fn law_request_in_order_is_delivered<TReq>(
    executor: ExecutorView,
    m: control_packet::PublishView,
    p: control_packet::PublishPropertiesView,
    topic: Seq<char>,
    data: Seq<u8>,
    answers: Answers<TReq>,
    payload: TReq,
)
    requires
        says_which_request(m, p, topic, data, answers.received@),
        !executor.cache.contains_key(
            cache::CacheKeyView { response_topic: topic, correlation_data: data },
        ),
        version_is_supported(p.user_properties),
        clock_is_updated(p.user_properties, answers.outcomes),
        vstd::utf8::valid_utf8(m.topic),
        answers.payload == Ok::<TReq, DeserializationError>(payload),
        answers.ended@ <= expires(answers.received@, p.message_expiry_interval),
    ensures
        executor.reception(Some((m, true)), answers) matches executor::ReceptionView::Delivered(r, _)
            && r == request_for_application(executor, p, answers.tokens, payload),
{
    lemma_is_fresh(executor, m, p, topic, data, answers);
    law_first_version_decides(p.user_properties);
    law_first_timestamp_that_fails_is_the_fault(p.user_properties, answers.outcomes);
    law_user_data_are_all_custom_properties(p.user_properties, answers.outcomes);
    law_last_timestamp_and_source_are_told(p.user_properties, answers.outcomes);
}

/// Whether a response that was not asked of the application is addressed and told like this.
pub open spec fn is_refusal(
    response: processing::MessageView,
    p: control_packet::PublishPropertiesView,
    topic: Seq<char>,
    user_properties: Seq<text::Pair>,
) -> bool {
    response == processing::MessageView {
        topic,
        qos: QoS::AtLeastOnce,
        retain: false,
        payload: Seq::empty(),
        properties: control_packet::PublishPropertiesView {
            payload_format_indicator: Some(0u8),
            message_expiry_interval: response.properties.message_expiry_interval,
            topic_alias: None,
            response_topic: None,
            correlation_data: p.correlation_data,
            user_properties,
            subscription_identifiers: Seq::empty(),
            content_type: Some(Seq::empty()),
        },
    }
}

/// Whether a message is answered, without the application, with a status and what else there is to
/// tell, whenever the answer is published.
pub open spec fn is_refused<TReq>(
    reception: executor::ReceptionView<TReq>,
    p: control_packet::PublishPropertiesView,
    topic: Seq<char>,
    status: Seq<char>,
    details: Seq<text::Pair>,
) -> bool {
    &&& reception is Answered || reception is Failed
    &&& forall|timestamp: Option<Seq<char>>, now: nat, response: processing::MessageView|
        #[trigger] processing::is_processed(
            processing::ProcessedView::Publish(response),
            executor::laws::answered_arguments(reception)->0,
            processing::OutcomeView::NotAsked,
            timestamp,
            now,
        ) ==> is_refusal(
            response,
            p,
            topic,
            response_laws::told("false"@, status, timestamp) + details,
        )
}

/// Lists that follow each other can be grouped in any way.
proof fn lemma_grouped<A>(t: Seq<A>, a: Seq<A>, b: Seq<A>, c: Seq<A>, d: Seq<A>, e: Seq<A>)
    ensures
        Seq::<A>::empty() + t + a + b + c + d + e == t + (a + b + c + d + e),
{
    assert(Seq::<A>::empty() + t + a + b + c + d + e =~= t + (a + b + c + d + e));
}

/// What there is to tell of a request that something is wrong with.
spec fn details_of(a: arguments::ArgumentsView) -> Seq<text::Pair> {
    response_laws::optional("__stMsg"@, a.status_message) + response_laws::optional(
        "__propName"@,
        a.invalid_property_name,
    ) + response_laws::optional("__propVal"@, a.invalid_property_value) + response_laws::optional(
        "__supProtMajVer"@,
        processing::versions_text(a.supported_protocol_major_versions),
    ) + response_laws::optional("__requestProtVer"@, a.request_protocol_version)
}

/// The response to a request that something is wrong with.
proof fn lemma_refusal(
    a: arguments::ArgumentsView,
    timestamp: Option<Seq<char>>,
    now: nat,
    response: processing::MessageView,
    p: control_packet::PublishPropertiesView,
)
    requires
        a.correlation_data == p.correlation_data,
        !(a.cached_entry_status is Cached),
        !a.is_application_error,
        processing::is_processed(
            processing::ProcessedView::Publish(response),
            a,
            processing::OutcomeView::NotAsked,
            timestamp,
            now,
        ),
    ensures
        is_refusal(
            response,
            p,
            a.response_topic,
            response_laws::told(
                "false"@,
                text::decimal(a.status_code.spec_number() as nat),
                timestamp,
            ) + details_of(a),
        ),
{
    let said = processing::OutcomeView::NotAsked;
    assert(processing::heard(a, said) == said);
    assert(a.after_application(said) == a);
    law_user_properties_of_responses(a, Seq::empty(), timestamp);
    lemma_grouped(
        response_laws::told(
            "false"@,
            text::decimal(a.status_code.spec_number() as nat),
            timestamp,
        ),
        response_laws::optional("__stMsg"@, a.status_message),
        response_laws::optional("__propName"@, a.invalid_property_name),
        response_laws::optional("__propVal"@, a.invalid_property_value),
        response_laws::optional(
            "__supProtMajVer"@,
            processing::versions_text(a.supported_protocol_major_versions),
        ),
        response_laws::optional("__requestProtVer"@, a.request_protocol_version),
    );
}

/// How a message is answered whose arguments are known.
proof fn lemma_refused<TReq>(
    reception: executor::ReceptionView<TReq>,
    p: control_packet::PublishPropertiesView,
    topic: Seq<char>,
    status: Seq<char>,
    details: Seq<text::Pair>,
)
    requires
        reception is Answered || reception is Failed,
        executor::laws::answered_arguments(reception) matches Some(a) && {
            &&& a.response_topic == topic
            &&& a.correlation_data == p.correlation_data
            &&& !(a.cached_entry_status is Cached)
            &&& !a.is_application_error
            &&& text::decimal(a.status_code.spec_number() as nat) == status
            &&& details == details_of(a)
        },
    ensures
        is_refused(reception, p, topic, status, details),
{
    let a = executor::laws::answered_arguments(reception)->0;
    assert forall|timestamp: Option<Seq<char>>, now: nat, response: processing::MessageView|
        #[trigger] processing::is_processed(
            processing::ProcessedView::Publish(response),
            a,
            processing::OutcomeView::NotAsked,
            timestamp,
            now,
        ) implies is_refusal(
        response,
        p,
        topic,
        response_laws::told("false"@, status, timestamp) + details,
    ) by {
        lemma_refusal(a, timestamp, now, response, p);
    }
}

/// A message that does not say where to respond is acknowledged, and nothing else is done about it.
pub proof fn law_message_without_response_topic_is_acknowledged<TReq>(
    executor: ExecutorView,
    m: control_packet::PublishView,
    answers: Answers<TReq>,
)
    requires
        m.properties matches Some(p) ==> (p.response_topic matches Some(topic)
            ==> !topic_processor::can_replace(topic)),
    ensures
        executor.reception(Some((m, true)), answers) is Acknowledged,
{
}

/// A message without an ack token is ignored, and where there are no more messages that is told.
pub proof fn law_message_without_token_is_ignored<TReq>(
    executor: ExecutorView,
    m: control_packet::PublishView,
    answers: Answers<TReq>,
)
    ensures
        executor.reception(Some((m, false)), answers) is Ignored,
        executor.reception(None, answers) is NoMore,
{
}

/// A command is discarded once it has expired, and not before: where its request was not answered
/// before, it is handed to the application or answered until then.
pub proof fn law_discarded_when_expired_and_not_before<TReq>(
    executor: ExecutorView,
    m: control_packet::PublishView,
    p: control_packet::PublishPropertiesView,
    topic: Seq<char>,
    answers: Answers<TReq>,
)
    requires
        says_where_to_respond(m, p, topic),
        expires(answers.received@, p.message_expiry_interval) <= end_of_time(),
        p.correlation_data matches Some(data) ==> !executor.cache.contains_key(
            cache::CacheKeyView { response_topic: topic, correlation_data: data },
        ),
    ensures
        executor.reception(Some((m, true)), answers) is Discarded <==> answers.ended@ > expires(
            answers.received@,
            p.message_expiry_interval,
        ),
        !(executor.reception(Some((m, true)), answers) is Discarded) ==> {
            ||| executor.reception(Some((m, true)), answers) is Delivered
            ||| executor.reception(Some((m, true)), answers) is Answered
        },
{
}

/// A response of the application to a request that was handed to it is published until the command
/// expires: with its payload, content type, format and user data, the status 200 or, if it is empty,
/// 204, and the correlation data, on the response topic of the request. Its message expiry interval
/// lasts until the command expires, and less than a second longer. Later, nothing is published.
pub proof fn law_response_to_delivered_request<TReq>(
    executor: ExecutorView,
    m: control_packet::PublishView,
    p: control_packet::PublishPropertiesView,
    topic: Seq<char>,
    answers: Answers<TReq>,
    response: executor::response::ResponseView,
    timestamp: Option<Seq<char>>,
    now: nat,
    processed: processing::ProcessedView,
)
    requires
        says_where_to_respond(m, p, topic),
        answers.received@ <= now,
        executor.reception(Some((m, true)), answers) matches executor::ReceptionView::Delivered(_, a)
            && processing::is_processed(
            processed,
            a,
            processing::OutcomeView::Responded(response),
            timestamp,
            now,
        ),
    ensures
        now >= expires(answers.received@, p.message_expiry_interval) ==> processed is TimedOut,
        now < expires(answers.received@, p.message_expiry_interval) ==> {
            &&& processed matches processing::ProcessedView::Publish(message)
            &&& message.properties.message_expiry_interval matches Some(secs)
            &&& expires(answers.received@, p.message_expiry_interval) <= now + secs * 1_000_000_000
                < expires(answers.received@, p.message_expiry_interval) + 1_000_000_000
            &&& message == processing::MessageView {
                topic,
                qos: QoS::AtLeastOnce,
                retain: false,
                payload: response.serialized_payload.payload,
                properties: control_packet::PublishPropertiesView {
                    payload_format_indicator: Some(
                        match response.serialized_payload.format_indicator {
                            FormatIndicator::UnspecifiedBytes => 0u8,
                            FormatIndicator::Utf8EncodedCharacterData => 1u8,
                        },
                    ),
                    message_expiry_interval: Some(secs),
                    topic_alias: None,
                    response_topic: None,
                    correlation_data: p.correlation_data,
                    user_properties: response.custom_user_data + response_laws::told(
                        "false"@,
                        if response.serialized_payload.payload.len() == 0 {
                            "204"@
                        } else {
                            "200"@
                        },
                        timestamp,
                    ),
                    subscription_identifiers: Seq::empty(),
                    content_type: Some(response.serialized_payload.content_type),
                },
            }
        },
{
    let a = executor.arguments_for(p, topic, answers.received@, answers.looked_up@);
    let said = processing::OutcomeView::Responded(response);
    lemma_status_texts();
    law_user_properties_of_responses(
        a.after_application(said),
        response.custom_user_data,
        timestamp,
    );
    let told = response_laws::told(
        "false"@,
        if response.serialized_payload.payload.len() == 0 {
            "204"@
        } else {
            "200"@
        },
        timestamp,
    );
    assert(processing::response_user_properties(
        a.after_application(said),
        response.custom_user_data,
        timestamp,
    ) =~= response.custom_user_data + told);
}

/// A duplicate of a request whose response is cached is answered with that response, as long as
/// neither the response nor the duplicate has expired; where the response has, it is not answered.
pub proof fn law_duplicate_is_answered_until_the_response_expires<TReq>(
    executor: ExecutorView,
    m: control_packet::PublishView,
    p: control_packet::PublishPropertiesView,
    topic: Seq<char>,
    data: Seq<u8>,
    answers: Answers<TReq>,
)
    requires
        says_which_request(m, p, topic, data, answers.received@),
        executor.cache.contains_key(
            cache::CacheKeyView { response_topic: topic, correlation_data: data },
        ),
        answers.ended@ <= expires(answers.received@, p.message_expiry_interval),
    ensures
        ({
            let entry = executor.cache[
                cache::CacheKeyView { response_topic: topic, correlation_data: data }
            ];
            &&& entry.expiration_time < answers.looked_up@ ==> executor.reception(
                Some((m, true)),
                answers,
            ) is Discarded
            &&& entry.expiration_time >= answers.looked_up@ ==> {
                &&& executor.reception(
                    Some((m, true)),
                    answers,
                ) matches executor::ReceptionView::Answered(a)
                &&& a.cached_entry_status == cache::StatusView::Cached(entry)
                &&& a.response_topic == topic
            }
        }),
{
}

/// A request without correlation data is answered so.
pub proof fn law_missing_correlation_data_is_refused<TReq>(
    executor: ExecutorView,
    m: control_packet::PublishView,
    p: control_packet::PublishPropertiesView,
    topic: Seq<char>,
    answers: Answers<TReq>,
)
    requires
        says_where_to_respond(m, p, topic),
        p.correlation_data is None,
        expires(answers.received@, p.message_expiry_interval) <= end_of_time() ==> answers.ended@
            <= expires(answers.received@, p.message_expiry_interval),
    ensures
        is_refused(
            executor.reception(Some((m, true)), answers),
            p,
            topic,
            "400"@,
            seq![
                ("__stMsg"@, "Correlation data missing"@),
                ("__propName"@, "Correlation Data"@),
            ],
        ),
{
    let details = seq![
        ("__stMsg"@, "Correlation data missing"@),
        ("__propName"@, "Correlation Data"@),
    ];
    lemma_status_texts();
    let reception = executor.reception(Some((m, true)), answers);
    let a = executor::laws::answered_arguments(reception)->0;
    assert(details =~= details_of(a));
    lemma_refused(reception, p, topic, "400"@, details);
}

/// A request whose correlation data are not those of a GUID is answered so.
pub proof fn law_wrong_correlation_data_are_refused<TReq>(
    executor: ExecutorView,
    m: control_packet::PublishView,
    p: control_packet::PublishPropertiesView,
    topic: Seq<char>,
    data: Seq<u8>,
    answers: Answers<TReq>,
)
    requires
        says_where_to_respond(m, p, topic),
        p.correlation_data == Some(data),
        data.len() != 16,
        expires(answers.received@, p.message_expiry_interval) <= end_of_time() ==> answers.ended@
            <= expires(answers.received@, p.message_expiry_interval),
    ensures
        is_refused(
            executor.reception(Some((m, true)), answers),
            p,
            topic,
            "400"@,
            seq![
                ("__stMsg"@, "Correlation data bytes do not conform to a GUID"@),
                ("__propName"@, "Correlation Data"@),
            ] + response_laws::optional(
                "__propVal"@,
                if vstd::utf8::valid_utf8(data) {
                    Some(vstd::utf8::decode_utf8(data))
                } else {
                    None
                },
            ),
        ),
{
    let details = seq![
        ("__stMsg"@, "Correlation data bytes do not conform to a GUID"@),
        ("__propName"@, "Correlation Data"@),
    ] + response_laws::optional(
        "__propVal"@,
        if vstd::utf8::valid_utf8(data) {
            Some(vstd::utf8::decode_utf8(data))
        } else {
            None
        },
    );
    lemma_status_texts();
    let reception = executor.reception(Some((m, true)), answers);
    let a = executor::laws::answered_arguments(reception)->0;
    assert(details =~= details_of(a));
    lemma_refused(reception, p, topic, "400"@, details);
}

/// A request without a message expiry interval is answered so, until ten seconds after it was
/// received.
pub proof fn law_missing_expiry_interval_is_refused<TReq>(
    executor: ExecutorView,
    m: control_packet::PublishView,
    p: control_packet::PublishPropertiesView,
    topic: Seq<char>,
    data: Seq<u8>,
    answers: Answers<TReq>,
)
    requires
        says_where_to_respond(m, p, topic),
        p.correlation_data == Some(data),
        data.len() == 16,
        p.message_expiry_interval is None,
        expires(answers.received@, None) <= end_of_time(),
        answers.ended@ <= expires(answers.received@, None),
    ensures
        is_refused(
            executor.reception(Some((m, true)), answers),
            p,
            topic,
            "400"@,
            seq![
                ("__stMsg"@, "Message expiry interval missing"@),
                ("__propName"@, "Message Expiry"@),
            ],
        ),
{
    let details = seq![
        ("__stMsg"@, "Message expiry interval missing"@),
        ("__propName"@, "Message Expiry"@),
    ];
    lemma_status_texts();
    let reception = executor.reception(Some((m, true)), answers);
    let a = executor::laws::answered_arguments(reception)->0;
    assert(details =~= details_of(a));
    lemma_refused(reception, p, topic, "400"@, details);
}

/// A request whose command expires later than can be represented is answered so, and the application
/// is told of it.
pub proof fn law_unrepresentable_expiration_fails<TReq>(
    executor: ExecutorView,
    m: control_packet::PublishView,
    p: control_packet::PublishPropertiesView,
    topic: Seq<char>,
    data: Seq<u8>,
    answers: Answers<TReq>,
)
    requires
        says_where_to_respond(m, p, topic),
        p.correlation_data == Some(data),
        data.len() == 16,
        expires(answers.received@, p.message_expiry_interval) > end_of_time(),
    ensures
        is_refused(
            executor.reception(Some((m, true)), answers),
            p,
            topic,
            "500"@,
            seq![
                (
                    "__stMsg"@,
                    "Internal logic error, unable to calculate command expiration time"@,
                ),
            ],
        ),
        executor.reception(Some((m, true)), answers) matches executor::ReceptionView::Failed(_, e)
            && {
            &&& e.kind == AIOProtocolErrorKind::InternalLogicError
            &&& e.is_shallow
            &&& !e.is_remote
            &&& e.property_name == Some("command_expiration_time"@)
            &&& e.property_value is None
            &&& e.message == Some(
                "Internal logic error, unable to calculate command expiration time"@,
            )
            &&& e.command_name == Some(executor.command_name)
        },
{
    let details = seq![
        ("__stMsg"@, "Internal logic error, unable to calculate command expiration time"@),
    ];
    lemma_status_texts();
    let reception = executor.reception(Some((m, true)), answers);
    let a = executor::laws::answered_arguments(reception)->0;
    assert(details =~= details_of(a));
    lemma_refused(reception, p, topic, "500"@, details);
}

/// A request whose version is not supported is answered with the versions that are, and with its
/// own.
pub proof fn law_unsupported_version_is_refused<TReq>(
    executor: ExecutorView,
    m: control_packet::PublishView,
    p: control_packet::PublishPropertiesView,
    topic: Seq<char>,
    data: Seq<u8>,
    answers: Answers<TReq>,
)
    requires
        says_which_request(m, p, topic, data, answers.received@),
        !executor.cache.contains_key(
            cache::CacheKeyView { response_topic: topic, correlation_data: data },
        ),
        !version_is_supported(p.user_properties),
        answers.ended@ <= expires(answers.received@, p.message_expiry_interval),
    ensures
        ({
            let told = versions(p.user_properties)[0].1;
            let parsed = protocol_version::parsed_version(told);
            let (message, version) = match parsed {
                None => ("Unparsable protocol version value provided: "@ + told + "."@, told),
                Some(v) => (
                    "The command executor that received the request only supports major protocol versions '[1]', but '"@
                        + v.text() + "' was sent on the request."@,
                    v.text(),
                ),
            };
            is_refused(
                executor.reception(Some((m, true)), answers),
                p,
                topic,
                "505"@,
                seq![
                    ("__stMsg"@, message),
                    ("__supProtMajVer"@, "1"@),
                    ("__requestProtVer"@, version),
                ],
            )
        }),
{
    lemma_is_fresh(executor, m, p, topic, data, answers);
    law_first_version_decides(p.user_properties);
    lemma_status_texts();
    let told = versions(p.user_properties)[0].1;
    let parsed = protocol_version::parsed_version(told);
    let (message, version) = match parsed {
        None => ("Unparsable protocol version value provided: "@ + told + "."@, told),
        Some(v) => (
            "The command executor that received the request only supports major protocol versions '[1]', but '"@
                + v.text() + "' was sent on the request."@,
            v.text(),
        ),
    };
    let details = seq![
        ("__stMsg"@, message),
        ("__supProtMajVer"@, "1"@),
        ("__requestProtVer"@, version),
    ];
    let reception = executor.reception(Some((m, true)), answers);
    let a = executor::laws::answered_arguments(reception)->0;
    assert(a.supported_protocol_major_versions == Some(seq![1u16]));
    assert(protocol_version::major_versions_text(seq![1u16]) == text::decimal(1));
    assert(details =~= details_of(a));
    lemma_refused(reception, p, topic, "505"@, details);
}

/// A request with a timestamp that the clock cannot be updated against is answered so, with the first
/// such timestamp.
pub proof fn law_failing_timestamp_is_refused<TReq>(
    executor: ExecutorView,
    m: control_packet::PublishView,
    p: control_packet::PublishPropertiesView,
    topic: Seq<char>,
    data: Seq<u8>,
    answers: Answers<TReq>,
    k: int,
)
    requires
        says_which_request(m, p, topic, data, answers.received@),
        !executor.cache.contains_key(
            cache::CacheKeyView { response_topic: topic, correlation_data: data },
        ),
        version_is_supported(p.user_properties),
        0 <= k < property_laws::timestamps(p.user_properties).len(),
        !(answers.outcomes[k] is Updated),
        forall|j: int| 0 <= j < k ==> (#[trigger] answers.outcomes[j]) is Updated,
        answers.ended@ <= expires(answers.received@, p.message_expiry_interval),
    ensures
        ({
            let timestamp = property_laws::timestamps(p.user_properties)[k];
            let (status, message) = match answers.outcomes[k] {
                ClockOutcome::Failed(HLCErrorKind::ClockDrift, e) => (
                    "503"@,
                    "Failure updating application HLC against "@ + timestamp + ": "@ + e@,
                ),
                ClockOutcome::Failed(HLCErrorKind::OverflowWarning, e) => (
                    "500"@,
                    "Failure updating application HLC against "@ + timestamp + ": "@ + e@,
                ),
                ClockOutcome::Invalid(e) => ("400"@, "Timestamp invalid: "@ + e@),
                ClockOutcome::Updated => (""@, ""@),
            };
            is_refused(
                executor.reception(Some((m, true)), answers),
                p,
                topic,
                status,
                seq![
                    ("__stMsg"@, message),
                    ("__propName"@, "__ts"@),
                    ("__propVal"@, timestamp),
                ],
            )
        }),
{
    lemma_is_fresh(executor, m, p, topic, data, answers);
    law_first_version_decides(p.user_properties);
    law_first_timestamp_that_fails_is_the_fault(p.user_properties, answers.outcomes);
    lemma_status_texts();
    let timestamps = property_laws::timestamps(p.user_properties);
    let timestamp = timestamps[k];
    let read = contents::PropertiesView::read(p.user_properties, answers.outcomes);
    assert(read.fault is Some);
    assert(read.fault == Some((timestamp, answers.outcomes[k]))) by {
        if let Some((found, outcome)) = read.fault {
            let i = choose|i: int|
                {
                    &&& 0 <= i < timestamps.len()
                    &&& found == timestamps[i]
                    &&& outcome == #[trigger] answers.outcomes[i]
                    &&& !(answers.outcomes[i] is Updated)
                    &&& forall|j: int| 0 <= j < i ==> (#[trigger] answers.outcomes[j]) is Updated
                };
            assert(i == k);
        }
    }
    let (status, message) = match answers.outcomes[k] {
        ClockOutcome::Failed(HLCErrorKind::ClockDrift, e) => (
            "503"@,
            "Failure updating application HLC against "@ + timestamp + ": "@ + e@,
        ),
        ClockOutcome::Failed(HLCErrorKind::OverflowWarning, e) => (
            "500"@,
            "Failure updating application HLC against "@ + timestamp + ": "@ + e@,
        ),
        ClockOutcome::Invalid(e) => ("400"@, "Timestamp invalid: "@ + e@),
        ClockOutcome::Updated => (""@, ""@),
    };
    let details = seq![
        ("__stMsg"@, message),
        ("__propName"@, "__ts"@),
        ("__propVal"@, timestamp),
    ];
    let reception = executor.reception(Some((m, true)), answers);
    let a = executor::laws::answered_arguments(reception)->0;
    assert(details =~= details_of(a));
    lemma_refused(reception, p, topic, status, details);
}

/// A request whose topic or payload cannot be read is answered so.
pub proof fn law_unreadable_contents_are_refused<TReq>(
    executor: ExecutorView,
    m: control_packet::PublishView,
    p: control_packet::PublishPropertiesView,
    topic: Seq<char>,
    data: Seq<u8>,
    answers: Answers<TReq>,
)
    requires
        says_which_request(m, p, topic, data, answers.received@),
        !executor.cache.contains_key(
            cache::CacheKeyView { response_topic: topic, correlation_data: data },
        ),
        version_is_supported(p.user_properties),
        clock_is_updated(p.user_properties, answers.outcomes),
        !vstd::utf8::valid_utf8(m.topic) || answers.payload is Err,
        answers.ended@ <= expires(answers.received@, p.message_expiry_interval),
    ensures
        ({
            let (status, details) = if !vstd::utf8::valid_utf8(m.topic) {
                (
                    "400"@,
                    seq![
                        (
                            "__stMsg"@,
                            "Error deserializing topic: "@ + text::utf8_error_text(m.topic),
                        ),
                    ],
                )
            } else {
                match answers.payload->Err_0 {
                    DeserializationError::InvalidPayload(e) => (
                        "400"@,
                        seq![("__stMsg"@, "Error deserializing payload: "@ + e@)],
                    ),
                    DeserializationError::UnsupportedContentType(message) => (
                        "415"@,
                        seq![
                            ("__stMsg"@, message@),
                            ("__propName"@, "Content Type"@),
                            (
                                "__propVal"@,
                                match p.content_type {
                                    Some(t) => t,
                                    None => "None"@,
                                },
                            ),
                        ],
                    ),
                }
            };
            is_refused(
                executor.reception(Some((m, true)), answers),
                p,
                topic,
                status,
                details,
            )
        }),
{
    lemma_is_fresh(executor, m, p, topic, data, answers);
    law_first_version_decides(p.user_properties);
    law_first_timestamp_that_fails_is_the_fault(p.user_properties, answers.outcomes);
    lemma_status_texts();
    let (status, details) = if !vstd::utf8::valid_utf8(m.topic) {
        (
            "400"@,
            seq![("__stMsg"@, "Error deserializing topic: "@ + text::utf8_error_text(m.topic))],
        )
    } else {
        match answers.payload->Err_0 {
            DeserializationError::InvalidPayload(e) => (
                "400"@,
                seq![("__stMsg"@, "Error deserializing payload: "@ + e@)],
            ),
            DeserializationError::UnsupportedContentType(message) => (
                "415"@,
                seq![
                    ("__stMsg"@, message@),
                    ("__propName"@, "Content Type"@),
                    (
                        "__propVal"@,
                        match p.content_type {
                            Some(t) => t,
                            None => "None"@,
                        },
                    ),
                ],
            ),
        }
    };
    let reception = executor.reception(Some((m, true)), answers);
    let a = executor::laws::answered_arguments(reception)->0;
    assert(details =~= details_of(a));
    lemma_refused(reception, p, topic, status, details);
}

/// What a request that nothing is wrong with tells is what the clock, the topic pattern and the type
/// of the payload make of it: the clock is asked about each of its timestamps, the tokens are those in
/// its topic, and the payload is made of all its bytes, its content type and its format.
pub proof fn law_contents_are_read_from_the_request<
    TReq: PayloadSerialize,
    U: Fn(String) -> ClockOutcome,
    P: Fn(String) -> Vec<(String, String)>,
    N: Fn() -> Instant,
>(
    executor: ExecutorView,
    m: control_packet::PublishView,
    p: control_packet::PublishPropertiesView,
    topic: Seq<char>,
    data: Seq<u8>,
    answers: Answers<TReq>,
    update_clock: U,
    parse_tokens: P,
    now: N,
    j: int,
)
    requires
        says_which_request(m, p, topic, data, answers.received@),
        !executor.cache.contains_key(
            cache::CacheKeyView { response_topic: topic, correlation_data: data },
        ),
        version_is_supported(p.user_properties),
        clock_is_updated(p.user_properties, answers.outcomes),
        vstd::utf8::valid_utf8(m.topic),
        executor.are_answers_for(Some((m, true)), update_clock, parse_tokens, now, answers),
    ensures
        call_ensures(now, (), answers.received),
        call_ensures(now, (), answers.looked_up),
        call_ensures(now, (), answers.ended),
        answers.outcomes.len() == property_laws::timestamps(p.user_properties).len(),
        0 <= j < answers.outcomes.len() ==> exists|asked: String|
            asked@ == property_laws::timestamps(p.user_properties)[j] && #[trigger] call_ensures(
                update_clock,
                (asked,),
                answers.outcomes[j],
            ),
        exists|asked: String, list: Vec<(String, String)>|
            asked@ == vstd::utf8::decode_utf8(m.topic) && list.deep_view() == answers.tokens
                && #[trigger] call_ensures(parse_tokens, (asked,), list),
        exists|bytes: Vec<u8>, content_type: Option<String>, format: FormatIndicator|
            {
                &&& bytes@ == m.payload
                &&& text::opt_text(content_type) == p.content_type
                &&& format is Utf8EncodedCharacterData <==> p.payload_format_indicator == Some(1u8)
                &&& #[trigger] call_ensures(
                    TReq::deserialize,
                    (bytes, content_type, format),
                    answers.payload,
                )
            },
{
    lemma_is_fresh(executor, m, p, topic, data, answers);
    law_first_version_decides(p.user_properties);
    law_first_timestamp_that_fails_is_the_fault(p.user_properties, answers.outcomes);
    law_last_timestamp_and_source_are_told(p.user_properties, answers.outcomes);
    let asked = contents::PropertiesView::read(p.user_properties, answers.outcomes).asked;
    assert(contents::are_answers(update_clock, asked, answers.outcomes));
    if 0 <= j < answers.outcomes.len() {
        assert(contents::is_answer(update_clock, asked[j], answers.outcomes[j]));
    }
    assert(request::are_tokens(parse_tokens, m, answers.tokens));
    assert(request::is_deserialized(m, p, answers.payload));
}

} // verus!
