//! Responses of the application.

use std::marker::PhantomData;

use vstd::prelude::*;
use vstd::string::StringExecFns;

use crate::common::aio_protocol_error::{self, AIOProtocolError, AIOProtocolErrorKind, Value};
use crate::common::payload_serialize::{self, PayloadSerialize, SerializedPayload};
use crate::common::user_properties::{self, validate_user_properties};
use crate::common::{self, is_invalid_utf8};
use crate::text::{self, clone_pairs, is_blank};

verus! {

/// Command Executor Response struct.
/// Used by the [`Executor`](crate::rpc_command::executor::Executor)
#[derive(Debug)]
pub struct Response<TResp> {
    /// Payload of the command response.
    pub serialized_payload: SerializedPayload,
    /// Strongly link `Response` with type `TResp`
    pub response_payload_type: PhantomData<TResp>,
    /// Custom user data set as custom MQTT User Properties on the response message.
    /// Used to pass additional metadata to the invoker.
    pub custom_user_data: Vec<(String, String)>,
}

/// What a [`Response`] stands for.
#[verifier::ext_equal]
pub struct ResponseView {
    pub serialized_payload: payload_serialize::SerializedPayloadView,
    pub custom_user_data: Seq<text::Pair>,
}

impl<TResp> View for Response<TResp> {
    type V = ResponseView;

    open spec fn view(&self) -> ResponseView {
        ResponseView {
            serialized_payload: self.serialized_payload@,
            custom_user_data: self.custom_user_data.deep_view(),
        }
    }
}

/// Why a response cannot be built.
#[derive(Debug, PartialEq, Eq)]
pub enum ResponseBuilderError {
    /// Uninitialized field
    UninitializedField(&'static str),
    /// Custom validation error
    ValidationError(String),
}

impl ResponseBuilderError {
    /// The message that describes the error.
    pub open spec fn message(self) -> Seq<char> {
        match self {
            ResponseBuilderError::UninitializedField(field) => "`"@ + field@
                + "` must be initialized"@,
            ResponseBuilderError::ValidationError(e) => e@,
        }
    }

    /// The message that describes the error.
    pub fn to_string(&self) -> (r: String)
        ensures
            r@ == self.message(),
    {
        match self {
            ResponseBuilderError::UninitializedField(field) => "`".to_string().concat(
                field,
            ).concat("` must be initialized"),
            ResponseBuilderError::ValidationError(e) => e.clone(),
        }
    }
}

/// Builder for [`Response`].
#[derive(Debug)]
pub struct ResponseBuilder<TResp> {
    serialized_payload: Option<SerializedPayload>,
    response_payload_type: PhantomData<TResp>,
    custom_user_data: Option<Vec<(String, String)>>,
}

/// What a [`ResponseBuilder`] stands for.
#[verifier::ext_equal]
pub struct ResponseBuilderView {
    pub serialized_payload: Option<payload_serialize::SerializedPayloadView>,
    pub custom_user_data: Option<Seq<text::Pair>>,
}

impl<TResp> View for ResponseBuilder<TResp> {
    type V = ResponseBuilderView;

    closed spec fn view(&self) -> ResponseBuilderView {
        ResponseBuilderView {
            serialized_payload: match self.serialized_payload {
                Some(p) => Some(p@),
                None => None,
            },
            custom_user_data: match self.custom_user_data {
                Some(d) => Some(d.deep_view()),
                None => None,
            },
        }
    }
}

impl<TResp> Default for ResponseBuilder<TResp> {
    fn default() -> (r: Self)
        ensures
            r@ == (ResponseBuilderView { serialized_payload: None, custom_user_data: None }),
    {
        ResponseBuilder {
            serialized_payload: None,
            response_payload_type: PhantomData,
            custom_user_data: None,
        }
    }
}

/// What is wrong with a payload that was, or was not, serialized.
pub open spec fn payload_fault(
    serialized: Result<SerializedPayload, String>,
) -> Option<aio_protocol_error::ErrorView> {
    match serialized {
        Err(e) => Some(
            aio_protocol_error::ErrorView::of_kind(
                AIOProtocolErrorKind::PayloadInvalid,
                true,
                false,
                Some("Payload serialization error"@),
                Some(e@),
                None,
            ),
        ),
        Ok(p) => if common::has_invalid_utf8(p.content_type@) {
            Some(
                aio_protocol_error::ErrorView::configuration_invalid(
                    None,
                    "content_type"@,
                    p.content_type@,
                    Some(
                        "Content type '"@ + p.content_type@
                            + "' of command response is not valid UTF-8"@,
                    ),
                    None,
                ),
            )
        } else {
            None
        },
    }
}

impl ResponseBuilderView {
    /// The builder after the payload was serialized.
    pub open spec fn with_serialized(
        self,
        serialized: Result<SerializedPayload, String>,
    ) -> ResponseBuilderView {
        if payload_fault(serialized) is None {
            ResponseBuilderView { serialized_payload: Some(serialized->Ok_0@), ..self }
        } else {
            self
        }
    }
}

impl<TResp: PayloadSerialize> ResponseBuilder<TResp> {
    /// Add a payload to the command response. Validates successful serialization of the payload.
    ///
    /// # Errors
    /// [`AIOProtocolError`] of kind [`PayloadInvalid`](AIOProtocolErrorKind::PayloadInvalid) if
    /// serialization of the payload fails
    ///
    /// [`AIOProtocolError`] of kind
    /// [`ConfigurationInvalid`](AIOProtocolErrorKind::ConfigurationInvalid) if the content type is
    /// not valid utf-8
    pub fn payload(&mut self, payload: TResp) -> (r: Result<&mut Self, AIOProtocolError>)
        ensures
            exists|serialized: Result<SerializedPayload, String>|
                {
                    &&& #[trigger] call_ensures(TResp::serialize, (payload,), serialized)
                    &&& match r {
                        Ok(b) => payload_fault(serialized) is None && b@
                            == old(self)@.with_serialized(serialized) && *final(b) == *final(self),
                        Err(e) => payload_fault(serialized) == Some(e@) && final(self)@
                            == old(self)@,
                    }
                },
    {
        let serialized = payload.serialize();
        self.serialized(serialized)
    }

    /// Add a payload that was serialized, or tell why it was not.
    ///
    /// # Errors
    /// See [`ResponseBuilder::payload`].
    pub fn serialized(&mut self, serialized: Result<SerializedPayload, String>) -> (r: Result<
        &mut Self,
        AIOProtocolError,
    >)
        ensures
            match r {
                Ok(b) => payload_fault(serialized) is None && b@ == old(self)@.with_serialized(
                    serialized,
                ) && *final(b) == *final(self),
                Err(e) => payload_fault(serialized) == Some(e@) && final(self)@ == old(self)@,
            },
    {
        match serialized {
            Err(e) => Err(
                AIOProtocolError::new_payload_invalid_error(
                    true,
                    false,
                    Some(e),
                    Some("Payload serialization error".to_string()),
                    None,
                ),
            ),
            Ok(serialized_payload) => {
                // Validate content type of command response is valid UTF-8
                if is_invalid_utf8(serialized_payload.content_type.as_str()) {
                    let message = "Content type '".to_string().concat(
                        serialized_payload.content_type.as_str(),
                    ).concat("' of command response is not valid UTF-8");
                    return Err(
                        AIOProtocolError::new_configuration_invalid_error(
                            None,
                            "content_type",
                            Value::String(serialized_payload.content_type),
                            Some(message),
                            None,
                        ),
                    );
                }
                self.serialized_payload = Some(serialized_payload);
                Ok(self)
            },
        }
    }

    /// Custom user data set as custom MQTT User Properties on the response message.
    /// Used to pass additional metadata to the invoker.
    /// Default is an empty vector.
    pub fn custom_user_data(&mut self, value: Vec<(String, String)>) -> (r: &mut Self)
        ensures
            r@ == (ResponseBuilderView {
                custom_user_data: Some(value.deep_view()),
                ..old(self)@
            }),
            *final(r) == *final(self),
    {
        self.custom_user_data = Some(value);
        self
    }

    /// Validate the command response.
    ///
    /// # Errors
    /// Returns a `String` describing the error if any of `custom_user_data`'s keys or values are
    /// invalid utf-8 or the reserved
    /// [`PARTITION_KEY`](crate::common::user_properties::PARTITION_KEY) key is used.
    fn validate(&self) -> (r: Result<(), String>)
        ensures
            match user_data_fault(self@) {
                Some(e) => r is Err && r->Err_0@ == e,
                None => r is Ok,
            },
    {
        if let Some(custom_user_data) = &self.custom_user_data {
            return validate_user_properties(custom_user_data);
        }
        Ok(())
    }

    /// Builds a new [`Response`].
    ///
    /// # Errors
    /// If the custom user data is not valid, or no payload was added.
    pub fn build(&self) -> (r: Result<Response<TResp>, ResponseBuilderError>)
        ensures
            match user_data_fault(self@) {
                Some(e) => r is Err && r->Err_0 is ValidationError && r->Err_0.message() == e,
                None => match self@.serialized_payload {
                    None => r is Err && r->Err_0 is UninitializedField && r->Err_0.message()
                        == "`"@ + "serialized_payload"@ + "` must be initialized"@,
                    Some(payload) => r is Ok && r->Ok_0@ == (ResponseView {
                        serialized_payload: payload,
                        custom_user_data: match self@.custom_user_data {
                            Some(d) => d,
                            None => Seq::empty(),
                        },
                    }),
                },
            },
    {
        if let Err(e) = self.validate() {
            return Err(ResponseBuilderError::ValidationError(e));
        }
        let serialized_payload = match &self.serialized_payload {
            Some(p) => p.clone(),
            None => {
                return Err(ResponseBuilderError::UninitializedField("serialized_payload"));
            },
        };
        let custom_user_data: Vec<(String, String)> = match &self.custom_user_data {
            Some(d) => clone_pairs(d),
            None => Vec::new(),
        };
        assert(self.custom_user_data is None ==> custom_user_data.deep_view() =~= Seq::<
            text::Pair,
        >::empty());
        Ok(Response { serialized_payload, response_payload_type: PhantomData, custom_user_data })
    }
}

/// What is wrong with the custom user data of a builder, if anything is.
pub open spec fn user_data_fault(builder: ResponseBuilderView) -> Option<Seq<char>> {
    match builder.custom_user_data {
        Some(d) => user_properties::user_properties_fault(d),
        None => None,
    }
}

/// The key of the application error code.
pub const APPLICATION_ERROR_CODE_HEADER: &'static str = "AppErrCode";

/// The key of the application error payload.
pub const APPLICATION_ERROR_PAYLOAD_HEADER: &'static str = "AppErrPayload";

/// The headers for an application error.
pub open spec fn application_error_data(code: Seq<char>, payload: Seq<char>) -> Seq<text::Pair> {
    if text::is_blank_text(payload) {
        seq![(APPLICATION_ERROR_CODE_HEADER@, code)]
    } else {
        seq![
            (APPLICATION_ERROR_CODE_HEADER@, code),
            (APPLICATION_ERROR_PAYLOAD_HEADER@, payload),
        ]
    }
}

/// Helper function to add user-defined application error headers to a [`Vec<(String, String)>`] to
/// be used as the `custom_user_data` on the [`Response`].
///
/// `custom_user_data` can be an empty Vec or an existing Vec of custom user data. This function will
/// add the application error headers to this Vec.
/// `application_error_code` required to be a non-empty `String`.
/// `application_error_payload` is optional and can be an empty `String`, in which case it is ignored
/// and not added to `custom_user_data`. It is conventionally, but not necessarily, a stringified JSON
/// object/value/array.
///
/// Returns `Ok(())` if the properties are added to `custom_user_data`. If an error is returned,
/// `custom_user_data` won't get modified.
///
/// # Errors
/// Returns an Error with the `String` "`application_error_code` cannot be empty" if
/// `application_error_code` is an empty string.
pub fn application_error_headers(
    custom_user_data: &mut Vec<(String, String)>,
    application_error_code: String,
    application_error_payload: String,
) -> (r: Result<(), String>)
    ensures
        text::is_blank_text(application_error_code@) ==> {
            &&& r is Err
            &&& r->Err_0@ == "application_error_code cannot be empty"@
            &&& *final(custom_user_data) == *old(custom_user_data)
        },
        !text::is_blank_text(application_error_code@) ==> {
            &&& r is Ok
            &&& final(custom_user_data).deep_view() == old(custom_user_data).deep_view()
                + application_error_data(application_error_code@, application_error_payload@)
        },
{
    if is_blank(application_error_code.as_str()) {
        return Err("application_error_code cannot be empty".to_string());
    }
    let ghost code = application_error_code@;
    let ghost payload = application_error_payload@;
    custom_user_data.push((APPLICATION_ERROR_CODE_HEADER.to_string(), application_error_code));
    if !is_blank(application_error_payload.as_str()) {
        custom_user_data.push(
            (APPLICATION_ERROR_PAYLOAD_HEADER.to_string(), application_error_payload),
        );
    }
    assert(custom_user_data.deep_view() =~= old(custom_user_data).deep_view()
        + application_error_data(code, payload));
    Ok(())
}

/// A payload that was serialized is added to the response, just as it is, if its content type holds
/// no character that must not occur; and nothing else is touched. Otherwise nothing is added.
pub proof fn law_serialized_payload_is_added(
    builder: ResponseBuilderView,
    serialized: Result<SerializedPayload, String>,
)
    ensures
        builder.with_serialized(serialized).custom_user_data == builder.custom_user_data,
        serialized matches Ok(p) && !common::has_invalid_utf8(p.content_type@) ==> {
            &&& payload_fault(serialized) is None
            &&& builder.with_serialized(serialized).serialized_payload matches Some(added)
            &&& added.payload == serialized->Ok_0.payload@
            &&& added.content_type == serialized->Ok_0.content_type@
            &&& added.format_indicator == serialized->Ok_0.format_indicator
        },
        serialized matches Ok(p) && common::has_invalid_utf8(p.content_type@) ==> {
            &&& payload_fault(serialized) matches Some(e)
            &&& e.kind == AIOProtocolErrorKind::ConfigurationInvalid
            &&& e.property_name == Some("content_type"@)
            &&& e.property_value == Some(serialized->Ok_0.content_type@)
            &&& builder.with_serialized(serialized) == builder
        },
        serialized matches Err(text) ==> {
            &&& payload_fault(serialized) matches Some(e)
            &&& e.kind == AIOProtocolErrorKind::PayloadInvalid
            &&& e.nested_error == Some(text@)
            &&& builder.with_serialized(serialized) == builder
        },
{
}

/// The user data of a response are validated, all of them, if there are any.
pub proof fn law_user_data_are_validated(builder: ResponseBuilderView)
    ensures
        user_data_fault(builder) is None <==> (builder.custom_user_data matches Some(data)
            ==> forall|i: int|
            0 <= i < data.len() ==> {
                &&& (#[trigger] data[i]).0 != "$partition"@
                &&& !common::has_invalid_utf8(data[i].0)
                &&& !common::has_invalid_utf8(data[i].1)
            }),
{
    if let Some(data) = builder.custom_user_data {
        user_properties::law_valid_if_no_property_has_a_fault(data);
        assert forall|i: int| 0 <= i < data.len() implies (user_properties::user_property_fault(
            #[trigger] data[i],
        ) is None) == {
            &&& data[i].0 != "$partition"@
            &&& !common::has_invalid_utf8(data[i].0)
            &&& !common::has_invalid_utf8(data[i].1)
        } by {
            user_properties::law_faults_of_one_property(data[i].0, data[i].1);
        }
    }
}

/// The headers of an application error are its code, and behind it its payload unless that is blank.
pub proof fn law_headers_of_application_errors(code: Seq<char>, payload: Seq<char>)
    ensures
        application_error_data(code, payload) == if text::is_blank_text(payload) {
            seq![("AppErrCode"@, code)]
        } else {
            seq![("AppErrCode"@, code)].push(("AppErrPayload"@, payload))
        },
{
    if !text::is_blank_text(payload) {
        assert(application_error_data(code, payload) =~= seq![("AppErrCode"@, code)].push(
            ("AppErrPayload"@, payload),
        ));
    }
}

} // verus!
