//! What holds of the executor across calls.

use vstd::prelude::*;

use crate::bytes_data;
use crate::common::aio_protocol_error::{AIOProtocolError, AIOProtocolErrorKind, ErrorView};
use crate::common::topic_processor;
use crate::common::user_properties::{law_partition_key_is_not_reserved, UserProperty, PARTITION_KEY};
use crate::control_packet::{self, Publish};
use crate::rpc_command::executor::arguments;
use crate::rpc_command::executor::cache;
use crate::rpc_command::executor::contents::{self, ClockOutcome};
use crate::rpc_command::executor::processing;
use crate::rpc_command::executor::request;
use crate::rpc_command::executor::response;
use crate::rpc_command::executor::{
    self, Answers, ClientOutcome, Executor, ExecutorView, Options, State,
};
use crate::text;

verus! {

/// A shutdown whose unsubscribe failed leaves the executor subscribed, so that it can be attempted
/// again, and one whose unsubscribe was acknowledged is successful.
pub proof fn law_shutdown_can_be_attempted_again(outcome: ClientOutcome)
    ensures
        State::Subscribed.after_shutdown() == State::Subscribed,
        !(outcome is Acked) ==> State::Subscribed.after_shutdown().after_unsubscribe(outcome)
            == State::Subscribed,
        outcome is Acked ==> State::Subscribed.after_shutdown().after_unsubscribe(outcome)
            == State::ShutdownSuccessful,
{
}

/// A shutdown of an executor that is not subscribed succeeds without an unsubscribe, and it makes no
/// difference to shut down again.
pub proof fn law_shutdown_without_subscribe(state: State)
    requires
        state != State::Subscribed,
    ensures
        state.after_shutdown() == State::ShutdownSuccessful,
        state.after_shutdown().after_shutdown() == state.after_shutdown(),
{
}

/// A subscribe that failed is attempted again on the next receive.
pub proof fn law_failed_subscribe_is_attempted_again(outcome: ClientOutcome)
    requires
        !(outcome is Acked),
    ensures
        State::New.after_subscribe(outcome) == State::New,
{
}

/// A command that has expired is neither handed to the application nor answered.
pub proof fn law_expired_command_is_not_answered<TReq>(
    executor: ExecutorView,
    message: Option<(control_packet::PublishView, bool)>,
    answers: Answers<TReq>,
)
    requires
        executor::answerable(message) matches Some((_, properties, _)) && (
        arguments::expiration_time(
            answers.received@,
            properties.message_expiry_interval,
        ) matches Some(t) && t < answers.ended@),
    ensures
        executor.reception(message, answers) is Discarded,
{
    if let Some((m, properties, topic)) = executor::answerable(message) {
        let a = executor.arguments_for(
            properties,
            topic,
            answers.received@,
            answers.looked_up@,
        );
        lemma_arguments_keep(executor, properties, topic, answers.received@, answers.looked_up@);
        let _ = request::contents_read(
            a,
            m,
            properties,
            answers.outcomes,
            answers.tokens,
            answers.payload,
        );
    }
}

/// The checks do not touch what the request itself tells.
proof fn lemma_arguments_keep(
    executor: ExecutorView,
    properties: control_packet::PublishPropertiesView,
    topic: Seq<char>,
    received: nat,
    looked_up: nat,
)
    ensures
        executor.arguments_for(properties, topic, received, looked_up).command_expiration_time
            == arguments::expiration_time(received, properties.message_expiry_interval),
        executor.arguments_for(properties, topic, received, looked_up).response_topic == topic,
        executor.arguments_for(properties, topic, received, looked_up).correlation_data
            == properties.correlation_data,
        executor.arguments_for(properties, topic, received, looked_up).command_name
            == executor.command_name,
        executor.arguments_for(properties, topic, received, looked_up).message_expiry_interval
            == properties.message_expiry_interval,
{
}

/// A message with an ack token that cannot be answered, as it has no valid response topic, is
/// acknowledged and neither answered nor handed to the application.
pub proof fn law_unanswerable_message_is_acknowledged<TReq>(
    executor: ExecutorView,
    message: control_packet::PublishView,
    answers: Answers<TReq>,
)
    requires
        executor::answerable(Some((message, true))) is None,
    ensures
        executor.reception(Some((message, true)), answers) is Acknowledged,
{
}

/// A request is handed to the application only if nothing is wrong with it: it has a valid response
/// topic, a GUID as correlation data, a message expiry interval that has not passed, and a protocol
/// version that is supported, the clock was updated against its timestamps, its payload could be
/// deserialized, and no response to it is cached.
pub proof fn law_delivered_request_is_valid<TReq>(
    executor: ExecutorView,
    message: Option<(control_packet::PublishView, bool)>,
    answers: Answers<TReq>,
)
    requires
        executor.reception(message, answers) is Delivered,
    ensures
        executor::answerable(message) matches Some((m, properties, topic)) && {
            &&& properties.correlation_data matches Some(data) && data.len()
                == arguments::CORRELATION_DATA_LEN
            &&& properties.message_expiry_interval is Some
            &&& arguments::expiration_time(
                answers.received@,
                properties.message_expiry_interval,
            ) matches Some(t) && answers.ended@ <= t
            &&& cache::cache_status(
                executor.cache,
                cache::CacheKeyView {
                    response_topic: topic,
                    correlation_data: properties.correlation_data->0,
                },
                answers.looked_up@,
            ) is NotFound
            &&& contents::has_supported_version(properties.user_properties)
            &&& contents::PropertiesView::read(
                properties.user_properties,
                answers.outcomes,
            ).fault is None
            &&& answers.payload is Ok
        },
{
    if let Some((m, properties, topic)) = executor::answerable(message) {
        lemma_arguments_keep(executor, properties, topic, answers.received@, answers.looked_up@);
    }
}

/// What a response depends on, of a message that is answered.
pub open spec fn answered_arguments<TReq>(
    reception: executor::ReceptionView<TReq>,
) -> Option<arguments::ArgumentsView> {
    match reception {
        executor::ReceptionView::Delivered(_, a) => Some(a),
        executor::ReceptionView::Answered(a) => Some(a),
        executor::ReceptionView::Failed(a, _) => Some(a),
        _ => None,
    }
}

/// Whatever is published in answer to a request goes to the response topic of the request, with QoS
/// 1. Unless it is a response that was cached, it carries the correlation data of the request.
pub proof fn law_response_is_addressed_to_invoker<TReq>(
    executor: ExecutorView,
    message: Option<(control_packet::PublishView, bool)>,
    answers: Answers<TReq>,
    outcome: processing::OutcomeView,
    timestamp: Option<Seq<char>>,
    now: nat,
    response: processing::MessageView,
)
    requires
        answered_arguments(executor.reception(message, answers)) matches Some(a)
            && processing::is_processed(
            processing::ProcessedView::Publish(response),
            a,
            outcome,
            timestamp,
            now,
        ),
    ensures
        executor::answerable(message) matches Some((_, properties, topic)) && {
            &&& response.topic == topic
            &&& response.qos == control_packet::QoS::AtLeastOnce
            &&& !(answered_arguments(executor.reception(message, answers))->0.cached_entry_status
                is Cached) ==> response.properties.correlation_data == properties.correlation_data
        },
{
    if let Some((m, properties, topic)) = executor::answerable(message) {
        lemma_arguments_keep(executor, properties, topic, answers.received@, answers.looked_up@);
    }
}

/// A duplicate of a request that was answered is answered with the same payload and properties, but
/// for the message expiry interval, as long as neither has expired, and is not handed to the
/// application again.
///
/// `earlier` is the executor when the request was received, `executor` when it was processed.
pub proof fn law_duplicate_is_answered_from_cache<TReq>(
    earlier: ExecutorView,
    first: Option<(control_packet::PublishView, bool)>,
    first_answers: Answers<TReq>,
    executor: ExecutorView,
    outcome: processing::OutcomeView,
    timestamp: Option<Seq<char>>,
    now: nat,
    response: processing::MessageView,
    duplicate: Option<(control_packet::PublishView, bool)>,
    answers: Answers<TReq>,
)
    requires
        answered_arguments(earlier.reception(first, first_answers)) matches Some(request) && {
            // The request was no duplicate itself, and could be cached.
            &&& request.is_fresh()
            &&& processing::is_processed(
                processing::ProcessedView::Publish(response),
                request,
                outcome,
                timestamp,
                now,
            )
            // The response has not expired when the duplicate is looked up.
            &&& answers.looked_up@ <= request.command_expiration_time->0
        },
        is_duplicate(first, duplicate),
        executor::answerable(duplicate) matches Some((_, properties, _)) && {
            // The duplicate has not expired.
            &&& properties.message_expiry_interval is Some
            &&& arguments::expiration_time(
                answers.received@,
                properties.message_expiry_interval,
            ) matches Some(t) && answers.ended@ <= t
        },
    ensures
        ({
            let request = answered_arguments(earlier.reception(first, first_answers))->0;
            let after = ExecutorView {
                cache: processing::cache_after(executor.cache, request, outcome, timestamp, now),
                ..executor
            };
            &&& after.reception(duplicate, answers) matches executor::ReceptionView::Answered(a)
            &&& forall|
                said: processing::OutcomeView,
                stamp: Option<Seq<char>>,
                later: nat,
                again: processing::MessageView,
            | #[trigger]
                processing::is_processed(
                    processing::ProcessedView::Publish(again),
                    a,
                    said,
                    stamp,
                    later,
                ) ==> is_same_response(response, again)
        }),
{
    if let (Some((_, first_properties, topic)), Some((_, properties, _))) = (
        executor::answerable(first),
        executor::answerable(duplicate),
    ) {
        lemma_arguments_keep(
            earlier,
            first_properties,
            topic,
            first_answers.received@,
            first_answers.looked_up@,
        );
        let request = answered_arguments(earlier.reception(first, first_answers))->0;
        let key = cache::CacheKeyView {
            response_topic: topic,
            correlation_data: properties.correlation_data->0,
        };
        assert(request.cached_key == Some(key));
        let after = ExecutorView {
            cache: processing::cache_after(executor.cache, request, outcome, timestamp, now),
            ..executor
        };
        lemma_arguments_keep(after, properties, topic, answers.received@, answers.looked_up@);
        let a = after.arguments_for(
            properties,
            topic,
            answers.received@,
            answers.looked_up@,
        );
        assert(a.cached_key == Some(key));
        assert(after.cache.contains_key(key));
        assert(a.cached_entry_status is Cached);
    }
}

/// Whether a message repeats a request: both can be answered, on the same topic and with the same
/// correlation data.
pub open spec fn is_duplicate(
    first: Option<(control_packet::PublishView, bool)>,
    second: Option<(control_packet::PublishView, bool)>,
) -> bool {
    match (executor::answerable(first), executor::answerable(second)) {
        (Some((_, p, topic)), Some((_, q, other))) => topic == other && p.correlation_data
            == q.correlation_data,
        _ => false,
    }
}

/// Whether two responses are the same but for their message expiry intervals.
pub open spec fn is_same_response(
    first: processing::MessageView,
    second: processing::MessageView,
) -> bool {
    second == processing::MessageView {
        properties: control_packet::PublishPropertiesView {
            message_expiry_interval: second.properties.message_expiry_interval,
            ..first.properties
        },
        ..first
    }
}

/// The user properties that are handed to the application are properties of the request, and none of
/// those that the executor reads itself.
pub proof fn law_user_data_are_properties_of_the_request(
    list: Seq<text::Pair>,
    outcomes: Seq<ClockOutcome>,
    i: int,
)
    requires
        0 <= i < contents::PropertiesView::read(list, outcomes).user_data.len(),
    ensures
        ({
            let p = contents::PropertiesView::read(list, outcomes).user_data[i];
            &&& list.contains(p)
            &&& p.0 != PARTITION_KEY@
            &&& UserProperty::with_key(p.0) != Some(UserProperty::Timestamp)
            &&& UserProperty::with_key(p.0) != Some(UserProperty::SourceId)
            &&& UserProperty::with_key(p.0) != Some(UserProperty::ProtocolVersion)
        }),
    decreases list.len(),
{
    if list.len() > 0 {
        let before = contents::PropertiesView::read(list.drop_last(), outcomes);
        let after = contents::PropertiesView::read(list, outcomes);
        if i < before.user_data.len() {
            law_user_data_are_properties_of_the_request(list.drop_last(), outcomes, i);
            assert(after.user_data[i] == before.user_data[i]);
            let k = list.drop_last().index_of(after.user_data[i]);
            assert(list[k] == after.user_data[i]);
        } else {
            assert(after.user_data[i] == list.last());
            assert(list[list.len() - 1] == after.user_data[i]);
            law_partition_key_is_not_reserved();
        }
    }
}

/// A response that was not cached carries the user data of the application first, unchanged, and
/// tells its status behind them.
pub proof fn law_response_tells_status(
    request: arguments::ArgumentsView,
    outcome: processing::OutcomeView,
    timestamp: Option<Seq<char>>,
    now: nat,
    response: processing::MessageView,
)
    requires
        !(request.cached_entry_status is Cached),
        processing::is_processed(
            processing::ProcessedView::Publish(response),
            request,
            outcome,
            timestamp,
            now,
        ),
    ensures
        ({
            let said = processing::heard(request, outcome);
            let data = processing::application_data(said);
            let list = response.properties.user_properties;
            &&& data.is_prefix_of(list)
            &&& list.len() > data.len() + 1
            &&& list[data.len() as int + 1] == (
                UserProperty::Status.key(),
                text::decimal(request.after_application(said).status_code.spec_number() as nat),
            )
        }),
{
}

/// An empty response of the application has the status that there is no content.
pub proof fn law_empty_response_has_no_content(
    request: arguments::ArgumentsView,
    outcome: processing::OutcomeView,
)
    requires
        outcome matches processing::OutcomeView::Responded(r) && r.serialized_payload.payload.len()
            == 0,
    ensures
        request.after_application(outcome).status_code.spec_number() == 204,
{
}

/// A subscribe or an unsubscribe is successful exactly if it was acknowledged with success; otherwise
/// the error tells which of them failed, and why.
pub proof fn law_client_failures_are_reported(
    outcome: ClientOutcome,
    ack_message: Seq<char>,
    client_message: Seq<char>,
    command_name: Seq<char>,
)
    ensures
        executor::client_result(outcome, ack_message, client_message, command_name) is Ok <==> outcome
            is Acked,
        executor::client_result(outcome, ack_message, client_message, command_name) matches Err(e)
            ==> {
            &&& e.kind == AIOProtocolErrorKind::ClientError
            &&& e.command_name == Some(command_name)
            &&& outcome matches ClientOutcome::AckFailed(why) ==> e.message == Some(ack_message)
                && e.nested_error == Some(why@)
            &&& outcome matches ClientOutcome::NotSent(why) ==> e.message == Some(client_message)
                && e.nested_error == Some(why@)
        },
{
}

/// The application is told that its response was published exactly if the publish was acknowledged
/// with success; otherwise the error tells why it was not.
pub proof fn law_publish_failures_are_reported(outcome: ClientOutcome, command_name: Seq<char>)
    ensures
        processing::completion(outcome, command_name) is Ok <==> outcome is Acked,
        processing::completion(outcome, command_name) matches Err(e) ==> {
            &&& e.command_name == Some(command_name)
            &&& outcome matches ClientOutcome::AckFailed(why) ==> e.kind
                == AIOProtocolErrorKind::ClientError && e.nested_error == Some(why@)
            &&& outcome matches ClientOutcome::NotSent(why) ==> e.kind
                == AIOProtocolErrorKind::InternalLogicError && e.nested_error == Some(why@)
        },
{
}

/// What comes of a subscribe, a shutdown and an unsubscribe in any state: only a success changes it.
pub proof fn law_states_of_the_executor(state: State, outcome: ClientOutcome)
    ensures
        outcome is Acked ==> state.after_subscribe(outcome) == State::Subscribed,
        outcome is Acked ==> state.after_unsubscribe(outcome) == State::ShutdownSuccessful,
        !(outcome is Acked) ==> state.after_subscribe(outcome) == state,
        !(outcome is Acked) ==> state.after_unsubscribe(outcome) == state,
        state.after_shutdown() == State::Subscribed <==> state == State::Subscribed,
        state.after_shutdown() != State::New,
{
}

/// A command name can be used exactly if it is not empty, and each of its characters is a visible one
/// of ASCII that has no meaning in topics.
pub proof fn law_command_names(name: Seq<char>)
    ensures
        executor::is_valid_command_name(name) <==> name.len() > 0 && forall|i: int|
            0 <= i < name.len() ==> {
                &&& 0x21 <= (#[trigger] name[i]) as int <= 0x7E
                &&& name[i] != '+'
                &&& name[i] != '#'
                &&& name[i] != '{'
                &&& name[i] != '}'
            },
{
    assert forall|i: int| 0 <= i < name.len() implies topic_processor::is_invalid_char(
        #[trigger] name[i],
    ) == !{
        &&& 0x21 <= name[i] as int <= 0x7E
        &&& name[i] != '+'
        &&& name[i] != '#'
        &&& name[i] != '{'
        &&& name[i] != '}'
    } by {}
}

/// A new executor is named as the options say, has a receiver on the topic, has answered nothing and
/// is not subscribed; where no receiver can be created there is none, and the error tells why.
pub proof fn law_new_executor_is_as_the_options_say<Rx, R: Fn(String) -> Result<Rx, String>>(
    options: Options,
    topic: Seq<char>,
    create_receiver: R,
    outcome: Result<Rx, String>,
    r: Result<(Executor, Rx), AIOProtocolError>,
)
    requires
        executor::is_new_executor(options, topic, create_receiver, outcome, r),
    ensures
        exists|t: String| t@ == topic && #[trigger] call_ensures(create_receiver, (t,), outcome),
        r is Ok <==> outcome is Ok,
        r matches Ok((executor, receiver)) ==> {
            &&& outcome == Ok::<Rx, String>(receiver)
            &&& executor@.command_name == options.command_name@
            &&& executor@.request_topic == topic
            &&& executor@.is_idempotent == options.is_idempotent
            &&& executor@.cache.dom() == Set::<cache::CacheKeyView>::empty()
            &&& executor@.state == State::New
        },
        r matches Err(e) ==> {
            &&& e.kind == AIOProtocolErrorKind::ConfigurationInvalid
            &&& text::opt_text(e.property_name) == Some("request_topic_pattern"@)
            &&& e@.property_value == Some(topic)
            &&& text::opt_text(e.command_name) == Some(options.command_name@)
            &&& outcome matches Err(why) ==> text::opt_text(e.nested_error) == Some(why@)
        },
{
    if let Err(e) = r {
        assert(e@.kind == e.kind);
        assert(e@.property_name == text::opt_text(e.property_name));
        assert(e@.command_name == text::opt_text(e.command_name));
        assert(e@.nested_error == text::opt_text(e.nested_error));
    }
    if let Ok((executor, receiver)) = r {
        assert(executor@.cache.dom() =~= Set::<cache::CacheKeyView>::empty());
    }
}

/// The error that the executor can no longer respond names the command.
pub proof fn law_cancellation_names_the_command(command_name: Seq<char>)
    ensures
        request::cancellation_error(command_name).kind == AIOProtocolErrorKind::Cancellation,
        request::cancellation_error(command_name).command_name == Some(command_name),
        !request::cancellation_error(command_name).is_shallow,
        !request::cancellation_error(command_name).is_remote,
{
}

/// A message is looked at as it was received: its flags, topic, payload and properties, and whether it
/// came with an ack token.
pub proof fn law_message_is_looked_at_as_received(m: Publish, has_token: bool)
    ensures
        executor::message_view(Some((&m, has_token))) matches Some((seen, token)) && {
            &&& token == has_token
            &&& seen.dup == m.dup
            &&& seen.qos == m.qos
            &&& seen.retain == m.retain
            &&& seen.pkid == m.pkid
            &&& seen.topic == bytes_data::contents(m.topic)
            &&& seen.payload == bytes_data::contents(m.payload)
            &&& seen.properties is Some <==> m.properties is Some
            &&& m.properties matches Some(p) ==> {
                &&& seen.properties matches Some(q)
                &&& q.payload_format_indicator == p.payload_format_indicator
                &&& q.message_expiry_interval == p.message_expiry_interval
                &&& q.response_topic == text::opt_text(p.response_topic)
                &&& q.correlation_data == bytes_data::opt_contents(p.correlation_data)
                &&& q.user_properties == p.user_properties.deep_view()
                &&& q.content_type == text::opt_text(p.content_type)
            }
        },
        executor::message_view(None) is None,
{
}

/// What the application is handed and what it responds is what is told of them.
pub proof fn law_requests_and_responses_are_what_they_hold<TReq, TResp>(
    request: request::Request<TReq>,
    response: response::Response<TResp>,
)
    ensures
        request@.payload == request.payload,
        request@.content_type == text::opt_text(request.content_type),
        request@.format_indicator == request.format_indicator,
        request@.custom_user_data == request.custom_user_data.deep_view(),
        request@.timestamp == text::opt_text(request.timestamp),
        request@.invoker_id == text::opt_text(request.invoker_id),
        request@.topic_tokens == request.topic_tokens.deep_view(),
        request@.command_name == request.command_name@,
        response@.serialized_payload.payload == response.serialized_payload.payload@,
        response@.serialized_payload.content_type == response.serialized_payload.content_type@,
        response@.serialized_payload.format_indicator == response.serialized_payload.format_indicator,
        response@.custom_user_data == response.custom_user_data.deep_view(),
{
}

/// A result is the one that is wanted exactly if both are successes, or both are errors that tell the
/// same.
pub proof fn law_results_are_as_wanted(
    r: Result<(), AIOProtocolError>,
    wanted: Result<(), ErrorView>,
)
    requires
        executor::is_result(r, wanted),
    ensures
        r is Ok <==> wanted is Ok,
        r matches Err(e) ==> (wanted matches Err(w) && e.kind == w.kind && text::opt_text(e.message)
            == w.message && text::opt_text(e.nested_error) == w.nested_error && text::opt_text(
            e.command_name,
        ) == w.command_name),
{
}

/// What becomes of a message is told as it is: the request and what its response depends on.
pub proof fn law_receptions_are_what_they_hold<TReq>(reception: executor::Reception<TReq>)
    ensures
        match reception {
            executor::Reception::NoMore => reception@ is NoMore,
            executor::Reception::Ignored => reception@ is Ignored,
            executor::Reception::Acknowledged => reception@ is Acknowledged,
            executor::Reception::Discarded => reception@ is Discarded,
            executor::Reception::Delivered(r, a) => reception@ == executor::ReceptionView::Delivered(
                r@,
                a@,
            ),
            executor::Reception::Answered(a) => reception@ == executor::ReceptionView::<
                TReq,
            >::Answered(a@),
            executor::Reception::Failed(a, e) => reception@ == executor::ReceptionView::<
                TReq,
            >::Failed(a@, e@),
        },
{
}

} // verus!
