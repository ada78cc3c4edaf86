//! Execution of commands: the side that receives requests and answers them.

pub mod arguments;
pub mod cache;
pub mod contents;
pub mod laws;
pub mod options;
pub mod processing;
pub mod property_laws;
pub mod request;
pub mod request_laws;
pub mod response;
pub mod response_laws;

use vstd::prelude::*;

pub use crate::rpc_command::executor::options::{Options, OptionsBuilder, OptionsBuilderError};
pub use crate::rpc_command::executor::request::Request;
pub use crate::rpc_command::executor::response::{
    application_error_headers, Response, ResponseBuilder, ResponseBuilderError,
};

use crate::common::aio_protocol_error::{self, AIOProtocolError, Value};
use crate::common::payload_serialize::{DeserializationError, PayloadSerialize};
use crate::common::topic_processor::{self, contains_invalid_char, is_valid_replacement};
use crate::control_packet::{self, Publish, QoS};
use crate::rpc_command::executor::arguments::{ResponseArguments, INTERNAL_LOGIC_EXPIRATION_ERROR};
use crate::rpc_command::executor::cache::{Cache, CacheEntry, CacheEntryStatus, CacheKey};
use crate::rpc_command::executor::contents::ClockOutcome;
use crate::rpc_command::executor::request::read_contents;
use crate::text::{self, is_empty};
use crate::time::Instant;

verus! {

/// Describes state of executor
#[derive(Clone, Copy, Debug, PartialEq, Eq, Structural)]
pub enum State {
    New,
    Subscribed,
    ShutdownSuccessful,
}

/// What came of a subscribe or an unsubscribe of the MQTT client.
#[derive(Debug, PartialEq, Eq)]
pub enum ClientOutcome {
    /// It was acknowledged with success.
    Acked,
    /// It was acknowledged otherwise, or not at all. Holds the text of the error.
    AckFailed(String),
    /// It could not be sent. Holds the text of the error.
    NotSent(String),
}

impl State {
    /// The state after a subscribe was attempted.
    pub open spec fn after_subscribe(self, outcome: ClientOutcome) -> State {
        if outcome is Acked {
            State::Subscribed
        } else {
            self
        }
    }

    /// The state after a shutdown was begun.
    pub open spec fn after_shutdown(self) -> State {
        if self == State::Subscribed {
            self
        } else {
            State::ShutdownSuccessful
        }
    }

    /// The state after an unsubscribe was attempted.
    pub open spec fn after_unsubscribe(self, outcome: ClientOutcome) -> State {
        if outcome is Acked {
            State::ShutdownSuccessful
        } else {
            self
        }
    }
}

/// What a subscribe or an unsubscribe is answered.
pub open spec fn client_result(
    outcome: ClientOutcome,
    ack_message: Seq<char>,
    client_message: Seq<char>,
    command_name: Seq<char>,
) -> Result<(), aio_protocol_error::ErrorView> {
    match outcome {
        ClientOutcome::Acked => Ok(()),
        ClientOutcome::AckFailed(e) => Err(
            aio_protocol_error::ErrorView::mqtt(Some(ack_message), e@, Some(command_name)),
        ),
        ClientOutcome::NotSent(e) => Err(
            aio_protocol_error::ErrorView::mqtt(Some(client_message), e@, Some(command_name)),
        ),
    }
}

/// Whether a result is the one that is wanted.
pub open spec fn is_result(
    r: Result<(), AIOProtocolError>,
    wanted: Result<(), aio_protocol_error::ErrorView>,
) -> bool {
    match (r, wanted) {
        (Ok(()), Ok(())) => true,
        (Err(e), Err(v)) => e@ == v,
        _ => false,
    }
}

/// Command Executor struct
///
/// It decides how requests are answered and when to subscribe and unsubscribe; whoever owns it
/// communicates with the MQTT client.
pub struct Executor {
    command_name: String,
    request_topic: String,
    is_idempotent: bool,
    cache: Cache,
    executor_state: State,
}

/// What an [`Executor`] stands for.
#[verifier::ext_equal]
pub struct ExecutorView {
    pub command_name: Seq<char>,
    /// The topic that requests are subscribed to.
    pub request_topic: Seq<char>,
    pub is_idempotent: bool,
    /// The responses that were sent.
    pub cache: Map<cache::CacheKeyView, cache::CacheEntryView>,
    pub state: State,
}

impl View for Executor {
    type V = ExecutorView;

    closed spec fn view(&self) -> ExecutorView {
        ExecutorView {
            command_name: self.command_name@,
            request_topic: self.request_topic@,
            is_idempotent: self.is_idempotent,
            cache: self.cache@,
            state: self.executor_state,
        }
    }
}

/// Whether a command name can be used.
pub open spec fn is_valid_command_name(name: Seq<char>) -> bool {
    name.len() > 0 && !topic_processor::has_invalid_char(name)
}

/// Whether a new executor, or the error, is what came of creating a receiver on the topic.
pub open spec fn is_new_executor<Rx, R: Fn(String) -> Result<Rx, String>>(
    options: Options,
    topic: Seq<char>,
    create_receiver: R,
    outcome: Result<Rx, String>,
    r: Result<(Executor, Rx), AIOProtocolError>,
) -> bool {
    &&& exists|t: String| t@ == topic && #[trigger] call_ensures(create_receiver, (t,), outcome)
    &&& match outcome {
        Ok(rx) => {
            &&& r matches Ok((executor, receiver))
            &&& receiver == rx
            &&& executor.wf()
            &&& executor@ == (ExecutorView {
                command_name: options.command_name@,
                request_topic: topic,
                is_idempotent: options.is_idempotent,
                cache: Map::empty(),
                state: State::New,
            })
        },
        Err(e) => {
            &&& r matches Err(error)
            &&& error@ == aio_protocol_error::ErrorView::configuration_invalid(
                Some(e@),
                "request_topic_pattern"@,
                topic,
                Some("Could not parse request topic pattern"@),
                Some(options.command_name@),
            )
        },
    }
}

impl Executor {
    /// The cache is well-formed.
    pub closed spec fn wf(self) -> bool {
        self.cache.wf()
    }

    /// Create a new [`Executor`], and its receiver.
    ///
    /// # Arguments
    /// * `executor_options` - Configuration options.
    /// * `subscribe_topic` - The topic that the topic pattern of the options resolves to, or why it
    ///   does not.
    /// * `create_receiver` - Creates a receiver of the messages on a topic.
    ///
    /// Returns Ok([`Executor`]) on success, otherwise returns [`AIOProtocolError`].
    ///
    /// # Errors
    /// [`AIOProtocolError`] of kind
    /// [`ConfigurationInvalid`](crate::common::aio_protocol_error::AIOProtocolErrorKind::ConfigurationInvalid)
    /// if the command name is empty, whitespace or invalid, if the topic pattern does not resolve,
    /// or if no receiver can be created on its topic.
    pub fn new<Rx, R: Fn(String) -> Result<Rx, String>>(
        executor_options: Options,
        subscribe_topic: Result<String, AIOProtocolError>,
        create_receiver: R,
    ) -> (r: Result<(Executor, Rx), AIOProtocolError>)
        requires
            forall|topic: String| #[trigger] call_requires(create_receiver, (topic,)),
        ensures
            !is_valid_command_name(executor_options.command_name@) ==> {
                &&& r matches Err(e)
                &&& e@ == aio_protocol_error::ErrorView::configuration_invalid(
                    None,
                    "command_name"@,
                    executor_options.command_name@,
                    None,
                    Some(executor_options.command_name@),
                )
            },
            is_valid_command_name(executor_options.command_name@) ==> match subscribe_topic {
                Err(e) => r == Err::<(Executor, Rx), AIOProtocolError>(e),
                Ok(topic) => exists|outcome: Result<Rx, String>| #[trigger]
                    is_new_executor(executor_options, topic@, create_receiver, outcome, r),
            },
    {
        // Validate function parameters
        if is_empty(executor_options.command_name.as_str()) || contains_invalid_char(
            executor_options.command_name.as_str(),
        ) {
            return Err(
                AIOProtocolError::new_configuration_invalid_error(
                    None,
                    "command_name",
                    Value::String(executor_options.command_name.clone()),
                    None,
                    Some(executor_options.command_name),
                ),
            );
        }
        let request_topic = match subscribe_topic {
            Ok(topic) => topic,
            Err(e) => {
                return Err(e);
            },
        };
        // Get receiver from the mqtt session
        let asked = request_topic.clone();
        let ghost asked_topic = asked;
        let outcome = create_receiver(asked);
        let ghost outcome_seen = outcome;
        assert(call_ensures(create_receiver, (asked_topic,), outcome_seen));
        let r = match outcome {
            // Create Command executor
            Ok(receiver) => Ok(
                (
                    Executor {
                        command_name: executor_options.command_name,
                        request_topic,
                        is_idempotent: executor_options.is_idempotent,
                        cache: Cache::new(),
                        executor_state: State::New,
                    },
                    receiver,
                ),
            ),
            Err(e) => Err(
                AIOProtocolError::new_configuration_invalid_error(
                    Some(e),
                    "request_topic_pattern",
                    Value::String(request_topic),
                    Some("Could not parse request topic pattern".to_string()),
                    Some(executor_options.command_name),
                ),
            ),
        };
        assert(is_new_executor(executor_options, asked_topic@, create_receiver, outcome_seen, r));
        r
    }

    /// Cache a response.
    pub(crate) fn cache_response(&mut self, key: CacheKey, entry: CacheEntry, now: Instant)
        requires
            old(self).wf(),
        ensures
            final(self).wf(),
            final(self)@ == (ExecutorView {
                cache: cache::unexpired(old(self)@.cache, now@).insert(key@, entry@),
                ..old(self)@
            }),
    {
        self.cache.set(key, entry, now);
    }

    /// Denotes if commands are idempotent
    pub fn is_idempotent(&self) -> (r: bool)
        ensures
            r == self@.is_idempotent,
    {
        self.is_idempotent
    }

    /// The topic that requests are subscribed to.
    pub fn request_topic(&self) -> (r: String)
        ensures
            r@ == self@.request_topic,
    {
        self.request_topic.clone()
    }

    /// Shutdown the [`Executor`]. Returns the topic to unsubscribe from, which is the request topic
    /// if it is subscribed to. [`Executor::finish_shutdown`] is to be told what came of that.
    ///
    /// The receiver is to be closed first: the [`Executor`] will no longer receive commands from the
    /// MQTT client, any command requests that have not been processed can still be received by the
    /// executor.
    pub fn shutdown(&mut self) -> (r: Option<String>)
        ensures
            final(self)@ == (ExecutorView { state: old(self)@.state.after_shutdown(), ..old(self)@ }),
            final(self).wf() == old(self).wf(),
            text::opt_text(r) == if old(self)@.state == State::Subscribed {
                Some(old(self)@.request_topic)
            } else {
                None
            },
    {
        let r = match self.executor_state {
            State::New | State::ShutdownSuccessful => {
                // If subscribe has not been called or shutdown was successful, do not unsubscribe
                self.executor_state = State::ShutdownSuccessful;
                None
            },
            State::Subscribed => Some(self.request_topic.clone()),
        };
        assert(self@ =~= ExecutorView { state: old(self)@.state.after_shutdown(), ..old(self)@ });
        r
    }

    /// The unsubscribe from the request topic was attempted.
    ///
    /// If the method returns an error, [`Executor::shutdown`] may be called again to attempt the
    /// unsubscribe again.
    ///
    /// # Errors
    /// [`AIOProtocolError`] of kind
    /// [`ClientError`](crate::common::aio_protocol_error::AIOProtocolErrorKind::ClientError) if the
    /// unsubscribe fails or if the unsuback reason code doesn't indicate success.
    pub fn finish_shutdown(&mut self, outcome: ClientOutcome) -> (r: Result<(), AIOProtocolError>)
        ensures
            final(self)@ == (ExecutorView {
                state: old(self)@.state.after_unsubscribe(outcome),
                ..old(self)@
            }),
            final(self).wf() == old(self).wf(),
            is_result(
                r,
                client_result(
                    outcome,
                    "MQTT error on command executor unsuback"@,
                    "Client error on command executor unsubscribe"@,
                    old(self)@.command_name,
                ),
            ),
    {
        match outcome {
            ClientOutcome::Acked => {
                self.executor_state = State::ShutdownSuccessful;
                Ok(())
            },
            ClientOutcome::AckFailed(e) => Err(
                AIOProtocolError::new_mqtt_error(
                    Some("MQTT error on command executor unsuback".to_string()),
                    e,
                    Some(self.command_name.clone()),
                ),
            ),
            ClientOutcome::NotSent(e) => Err(
                AIOProtocolError::new_mqtt_error(
                    Some("Client error on command executor unsubscribe".to_string()),
                    e,
                    Some(self.command_name.clone()),
                ),
            ),
        }
    }

    /// What to subscribe to before messages are received: the request topic, if it has not been
    /// subscribed to. [`Executor::finish_subscribe`] is to be told what came of that.
    pub fn try_subscribe(&self) -> (r: Option<(String, QoS)>)
        ensures
            r is Some <==> self@.state == State::New,
            r matches Some((topic, qos)) ==> topic@ == self@.request_topic && qos
                == QoS::AtLeastOnce,
    {
        match self.executor_state {
            State::New => Some((self.request_topic.clone(), QoS::AtLeastOnce)),
            _ => None,
        }
    }

    /// The subscribe to the request topic was attempted.
    ///
    /// # Errors
    /// [`AIOProtocolError`] of kind
    /// [`ClientError`](crate::common::aio_protocol_error::AIOProtocolErrorKind::ClientError) if the
    /// subscribe fails or if the suback reason code doesn't indicate success.
    pub fn finish_subscribe(&mut self, outcome: ClientOutcome) -> (r: Result<(), AIOProtocolError>)
        ensures
            final(self)@ == (ExecutorView {
                state: old(self)@.state.after_subscribe(outcome),
                ..old(self)@
            }),
            final(self).wf() == old(self).wf(),
            is_result(
                r,
                client_result(
                    outcome,
                    "MQTT error on command executor suback"@,
                    "Client error on command executor subscribe"@,
                    old(self)@.command_name,
                ),
            ),
    {
        match outcome {
            ClientOutcome::Acked => {
                self.executor_state = State::Subscribed;
                Ok(())
            },
            ClientOutcome::AckFailed(e) => Err(
                AIOProtocolError::new_mqtt_error(
                    Some("MQTT error on command executor suback".to_string()),
                    e,
                    Some(self.command_name.clone()),
                ),
            ),
            ClientOutcome::NotSent(e) => Err(
                AIOProtocolError::new_mqtt_error(
                    Some("Client error on command executor subscribe".to_string()),
                    e,
                    Some(self.command_name.clone()),
                ),
            ),
        }
    }

    /// The topic to unsubscribe from when the executor is dropped, if it has not been unsubscribed.
    pub fn topic_to_unsubscribe_on_drop(&self) -> (r: Option<String>)
        ensures
            text::opt_text(r) == if self@.state == State::Subscribed {
                Some(self@.request_topic)
            } else {
                None
            },
    {
        match self.executor_state {
            State::Subscribed => Some(self.request_topic.clone()),
            _ => None,
        }
    }
}

/// What becomes of a message that was received, and what whoever received it is to do.
#[derive(Debug)]
pub enum Reception<TReq> {
    /// There will be no more requests.
    NoMore,
    /// The message has no ack token and is ignored.
    Ignored,
    /// The message cannot be answered: ack it, and go on.
    Acknowledged,
    /// The command has expired and is not answered: go on.
    Discarded,
    /// Hand the request to the application, and answer it when the application has responded.
    Delivered(Request<TReq>, ResponseArguments),
    /// Answer the request, without the application, and go on.
    Answered(ResponseArguments),
    /// Answer the request, without the application, and report the error to the application.
    Failed(ResponseArguments, AIOProtocolError),
}

/// What a [`Reception`] stands for.
pub enum ReceptionView<TReq> {
    NoMore,
    Ignored,
    Acknowledged,
    Discarded,
    Delivered(request::RequestView<TReq>, arguments::ArgumentsView),
    Answered(arguments::ArgumentsView),
    Failed(arguments::ArgumentsView, aio_protocol_error::ErrorView),
}

impl<TReq> View for Reception<TReq> {
    type V = ReceptionView<TReq>;

    open spec fn view(&self) -> ReceptionView<TReq> {
        match self {
            Reception::NoMore => ReceptionView::NoMore,
            Reception::Ignored => ReceptionView::Ignored,
            Reception::Acknowledged => ReceptionView::Acknowledged,
            Reception::Discarded => ReceptionView::Discarded,
            Reception::Delivered(r, a) => ReceptionView::Delivered(r@, a@),
            Reception::Answered(a) => ReceptionView::Answered(a@),
            Reception::Failed(a, e) => ReceptionView::Failed(a@, e@),
        }
    }
}

/// What is told while a message is looked at.
pub struct Answers<TReq> {
    /// When the message was received.
    pub received: Instant,
    /// When the cache was looked at.
    pub looked_up: Instant,
    /// When the message had been looked at.
    pub ended: Instant,
    /// What came of updating the clock against the timestamps of the request.
    pub outcomes: Seq<ClockOutcome>,
    /// The tokens of its topic.
    pub tokens: Seq<text::Pair>,
    /// What came of deserializing its payload.
    pub payload: Result<TReq, DeserializationError>,
}

/// A message that can be answered, its properties and its response topic: it has an ack token, and
/// a valid response topic.
pub open spec fn answerable(
    message: Option<(control_packet::PublishView, bool)>,
) -> Option<(control_packet::PublishView, control_packet::PublishPropertiesView, Seq<char>)> {
    match message {
        Some((m, true)) => match m.properties {
            Some(p) => match p.response_topic {
                Some(topic) => if topic_processor::can_replace(topic) {
                    Some((m, p, topic))
                } else {
                    None
                },
                None => None,
            },
            None => None,
        },
        _ => None,
    }
}

/// The error that the expiration time of a command cannot be calculated.
pub open spec fn expiration_error(command_name: Seq<char>) -> aio_protocol_error::ErrorView {
    aio_protocol_error::ErrorView::internal_logic(
        true,
        false,
        None,
        "command_expiration_time"@,
        None,
        Some(INTERNAL_LOGIC_EXPIRATION_ERROR@),
        Some(command_name),
    )
}

/// Whether the command has expired.
pub open spec fn is_expired(arguments: arguments::ArgumentsView, now: nat) -> bool {
    arguments.command_expiration_time matches Some(t) && t < now
}

/// What becomes of a request that nothing is wrong with.
pub open spec fn delivery<TReq>(
    request: request::RequestView<TReq>,
    arguments: arguments::ArgumentsView,
    now: nat,
) -> ReceptionView<TReq> {
    if is_expired(arguments, now) {
        ReceptionView::Discarded
    } else {
        ReceptionView::Delivered(request, arguments)
    }
}

/// What becomes of a request that is not handed to the application.
pub open spec fn settled<TReq>(
    arguments: arguments::ArgumentsView,
    now: nat,
) -> ReceptionView<TReq> {
    if is_expired(arguments, now) || arguments.cached_entry_status is Expired {
        ReceptionView::Discarded
    } else if arguments.command_expiration_time is None {
        ReceptionView::Failed(arguments, expiration_error(arguments.command_name))
    } else {
        ReceptionView::Answered(arguments)
    }
}

impl ExecutorView {
    /// What the response to a request depends on, before its contents are looked at.
    pub open spec fn arguments_for(
        self,
        properties: control_packet::PublishPropertiesView,
        response_topic: Seq<char>,
        received: nat,
        looked_up: nat,
    ) -> arguments::ArgumentsView {
        arguments::ArgumentsView::initial(
            self.command_name,
            response_topic,
            received,
            properties.message_expiry_interval,
        ).with_correlation_data(properties.correlation_data).checked(self.cache, looked_up)
    }

    /// What becomes of a message, which comes with an ack token or not, or of there being none.
    pub open spec fn reception<TReq>(
        self,
        message: Option<(control_packet::PublishView, bool)>,
        answers: Answers<TReq>,
    ) -> ReceptionView<TReq> {
        match message {
            None => ReceptionView::NoMore,
            Some((_, has_token)) => if !has_token {
                ReceptionView::Ignored
            } else {
                match answerable(message) {
                    None => ReceptionView::Acknowledged,
                    Some((m, properties, topic)) => {
                        let arguments = self.arguments_for(
                            properties,
                            topic,
                            answers.received@,
                            answers.looked_up@,
                        );
                        if !arguments.is_fresh() {
                            settled(arguments, answers.ended@)
                        } else {
                            match request::contents_read(
                                arguments,
                                m,
                                properties,
                                answers.outcomes,
                                answers.tokens,
                                answers.payload,
                            ) {
                                request::ContentsView::Fault(a) => settled(a, answers.ended@),
                                request::ContentsView::Read(r) => delivery(
                                    r,
                                    arguments,
                                    answers.ended@,
                                ),
                            }
                        }
                    },
                }
            },
        }
    }

    /// Whether these are the answers that looking at a message asks for.
    pub open spec fn are_answers_for<
        TReq: PayloadSerialize,
        U: Fn(String) -> ClockOutcome,
        P: Fn(String) -> Vec<(String, String)>,
        N: Fn() -> Instant,
    >(
        self,
        message: Option<(control_packet::PublishView, bool)>,
        update_clock: U,
        parse_tokens: P,
        now: N,
        answers: Answers<TReq>,
    ) -> bool {
        match answerable(message) {
            None => true,
            Some((m, properties, topic)) => {
                &&& call_ensures(now, (), answers.received)
                &&& call_ensures(now, (), answers.looked_up)
                &&& call_ensures(now, (), answers.ended)
                &&& self.arguments_for(
                    properties,
                    topic,
                    answers.received@,
                    answers.looked_up@,
                ).is_fresh() ==> request::are_answers_for(
                    m,
                    properties,
                    update_clock,
                    parse_tokens,
                    answers.outcomes,
                    answers.tokens,
                    answers.payload,
                )
            },
        }
    }
}

/// Hand a request that nothing is wrong with to the application, unless the command has expired.
///
/// # Arguments
/// * `request` - The request
/// * `arguments` - What the response depends on
/// * `now` - The present time
pub fn deliver<TReq>(
    request: Request<TReq>,
    arguments: ResponseArguments,
    now: Instant,
) -> (r: Reception<TReq>)
    ensures
        r@ == delivery(request@, arguments@, now@),
{
    // Check the command has not expired, if it has, we do not respond to the invoker.
    if let Some(command_expiration_time) = arguments.command_expiration_time {
        if command_expiration_time.has_passed(now) {
            return Reception::Discarded;
        }
    }
    Reception::Delivered(request, arguments)
}

/// Settle a request that is not handed to the application.
///
/// # Arguments
/// * `arguments` - What the response depends on
/// * `now` - The present time
pub fn settle<TReq>(arguments: ResponseArguments, now: Instant) -> (r: Reception<TReq>)
    ensures
        r@ == settled::<TReq>(arguments@, now@),
{
    // Checking that command expiration time was calculated and has not
    // expired. If it has, we do not respond to the invoker.
    if let Some(command_expiration_time) = arguments.command_expiration_time {
        if command_expiration_time.has_passed(now) {
            return Reception::Discarded;
        }
    }
    // If the command has expired, we do not respond to the invoker.
    if let CacheEntryStatus::Expired = arguments.cached_entry_status {
        return Reception::Discarded;
    }
    if arguments.command_expiration_time.is_none() {
        let e = AIOProtocolError::new_internal_logic_error(
            true,
            false,
            None,
            "command_expiration_time",
            None,
            Some(INTERNAL_LOGIC_EXPIRATION_ERROR.to_string()),
            Some(arguments.command_name.clone()),
        );
        return Reception::Failed(arguments, e);
    }
    Reception::Answered(arguments)
}

impl Executor {
    /// Look at a message that was received, or [`None`] if there will be no more.
    ///
    /// Tells what becomes of the message: whether it is a request for the application, is to be
    /// answered without the application, or is not to be answered.
    ///
    /// # Arguments
    /// * `message` - The message, and whether it came with an ack token
    /// * `update_clock` - Updates the clock of the application against a timestamp
    /// * `parse_tokens` - Finds the tokens of the topic pattern in a topic
    /// * `now` - Tells the present time
    pub fn recv<
        TReq: PayloadSerialize,
        U: Fn(String) -> ClockOutcome,
        P: Fn(String) -> Vec<(String, String)>,
        N: Fn() -> Instant,
    >(
        &self,
        message: Option<(&Publish, bool)>,
        update_clock: &U,
        parse_tokens: &P,
        now: &N,
    ) -> (r: Reception<TReq>)
        requires
            self.wf(),
            forall|timestamp: String| #[trigger] call_requires(*update_clock, (timestamp,)),
            forall|topic: String| #[trigger] call_requires(*parse_tokens, (topic,)),
            call_requires(*now, ()),
        ensures
            exists|answers: Answers<TReq>|
                {
                    &&& r@ == #[trigger] self@.reception(message_view(message), answers)
                    &&& self@.are_answers_for(
                        message_view(message),
                        *update_clock,
                        *parse_tokens,
                        *now,
                        answers,
                    )
                },
    {
        let ghost seen = message_view(message);
        let ghost mut answers: Answers<TReq> = arbitrary();
        let (m, has_token) = match message {
            Some(message) => message,
            // There will be no more requests
            None => {
                assert(self@.reception(seen, answers) is NoMore);
                return Reception::NoMore;
            },
        };
        if !has_token {
            // No ack token, ignore the message. This should never happen as the executor
            // should always receive QoS 1 messages that have an ack token.
            assert(self@.reception(seen, answers) is Ignored);
            return Reception::Ignored;
        }
        let message_received_time = now();
        let properties = match &m.properties {
            Some(properties) => properties,
            // Properties missing
            None => {
                assert(self@.reception(seen, answers) is Acknowledged);
                return Reception::Acknowledged;
            },
        };
        let response_topic = match &properties.response_topic {
            Some(topic) => topic,
            // Response topic missing
            None => {
                assert(self@.reception(seen, answers) is Acknowledged);
                return Reception::Acknowledged;
            },
        };
        if !is_valid_replacement(response_topic.as_str()) {
            // Response topic invalid, command response will not be published
            assert(self@.reception(seen, answers) is Acknowledged);
            return Reception::Acknowledged;
        }
        let mut response_arguments = ResponseArguments::initial(
            self.command_name.as_str(),
            response_topic.clone(),
            message_received_time,
            properties.message_expiry_interval,
        );
        response_arguments.set_correlation_data(&properties.correlation_data);
        let looked_up = now();
        let is_fresh = response_arguments.check(&self.cache, looked_up);
        let ghost checked = response_arguments@;
        proof {
            answers.received = message_received_time;
            answers.looked_up = looked_up;
            assert(checked == self@.arguments_for(
                properties@,
                response_topic@,
                answers.received@,
                answers.looked_up@,
            ));
        }
        if is_fresh {
            let request: Option<Request<TReq>> = read_contents(
                &mut response_arguments,
                m,
                properties,
                update_clock,
                parse_tokens,
            );
            proof {
                let (outcomes, tokens, payload) = choose|
                    outcomes: Seq<ClockOutcome>,
                    tokens: Seq<text::Pair>,
                    payload: Result<TReq, DeserializationError>,
                |
                    {
                        &&& request::is_contents(
                            request,
                            checked,
                            response_arguments@,
                            #[trigger] request::contents_read(
                                checked,
                                m@,
                                properties@,
                                outcomes,
                                tokens,
                                payload,
                            ),
                        )
                        &&& request::are_answers_for(
                            m@,
                            properties@,
                            *update_clock,
                            *parse_tokens,
                            outcomes,
                            tokens,
                            payload,
                        )
                    };
                answers.outcomes = outcomes;
                answers.tokens = tokens;
                answers.payload = payload;
            }
            if let Some(request) = request {
                let ended = now();
                proof {
                    answers.ended = ended;
                }
                let r = deliver(request, response_arguments, ended);
                assert(r@ == self@.reception(seen, answers));
                return r;
            }
        }
        let ended = now();
        proof {
            answers.ended = ended;
        }
        let r = settle(response_arguments, ended);
        assert(r@ == self@.reception(seen, answers));
        r
    }
}

/// A message that was received, and whether it came with an ack token.
pub open spec fn message_view(
    message: Option<(&Publish, bool)>,
) -> Option<(control_packet::PublishView, bool)> {
    match message {
        Some((m, has_token)) => Some((m@, has_token)),
        None => None,
    }
}

} // verus!
