//! Conversion of payloads of the application to and from bytes.

use vstd::prelude::*;
use vstd::slice::slice_to_vec;

verus! {

/// Format of the payload of a message.
#[derive(Clone, Copy, Debug, PartialEq, Eq, Structural)]
pub enum FormatIndicator {
    /// Unspecified Bytes
    UnspecifiedBytes,
    /// UTF-8 Encoded Character Data (such as JSON)
    Utf8EncodedCharacterData,
}

impl FormatIndicator {
    /// The number that stands for the format in a packet.
    pub open spec fn spec_code(self) -> u8 {
        match self {
            FormatIndicator::UnspecifiedBytes => 0,
            FormatIndicator::Utf8EncodedCharacterData => 1,
        }
    }

    /// The format that a packet tells, unspecified bytes if it tells none or an unknown one.
    pub open spec fn spec_from_code(code: Option<u8>) -> FormatIndicator {
        if code == Some(1u8) {
            FormatIndicator::Utf8EncodedCharacterData
        } else {
            FormatIndicator::UnspecifiedBytes
        }
    }

    /// The number that stands for the format in a packet.
    pub fn code(&self) -> (r: u8)
        ensures
            r == self.spec_code(),
    {
        match self {
            FormatIndicator::UnspecifiedBytes => 0,
            FormatIndicator::Utf8EncodedCharacterData => 1,
        }
    }

    /// The format that a packet tells, unspecified bytes if it tells none or an unknown one.
    pub fn from_code(code: Option<u8>) -> (r: FormatIndicator)
        ensures
            r == Self::spec_from_code(code),
    {
        match code {
            Some(1) => FormatIndicator::Utf8EncodedCharacterData,
            _ => FormatIndicator::UnspecifiedBytes,
        }
    }
}

/// A format is read from a packet as it was written to it.
pub proof fn law_format_indicator_read_as_written(f: FormatIndicator)
    ensures
        FormatIndicator::spec_from_code(Some(f.spec_code())) == f,
{
}

/// Struct that specifies the content type, format indicator, and payload for a serialized payload.
#[derive(Debug, PartialEq, Eq)]
pub struct SerializedPayload {
    /// The serialized payload
    pub payload: Vec<u8>,
    /// The content type of the payload
    pub content_type: String,
    /// The format indicator of the payload
    pub format_indicator: FormatIndicator,
}

/// What a [`SerializedPayload`] stands for.
#[verifier::ext_equal]
pub struct SerializedPayloadView {
    pub payload: Seq<u8>,
    pub content_type: Seq<char>,
    pub format_indicator: FormatIndicator,
}

impl View for SerializedPayload {
    type V = SerializedPayloadView;

    open spec fn view(&self) -> SerializedPayloadView {
        SerializedPayloadView {
            payload: self.payload@,
            content_type: self.content_type@,
            format_indicator: self.format_indicator,
        }
    }
}

impl SerializedPayloadView {
    /// A payload without bytes and content type.
    pub open spec fn empty() -> Self {
        SerializedPayloadView {
            payload: Seq::empty(),
            content_type: Seq::empty(),
            format_indicator: FormatIndicator::UnspecifiedBytes,
        }
    }
}

impl Default for SerializedPayload {
    fn default() -> (r: Self)
        ensures
            r@ == SerializedPayloadView::empty(),
    {
        let r = SerializedPayload {
            payload: Vec::new(),
            content_type: String::new(),
            format_indicator: FormatIndicator::UnspecifiedBytes,
        };
        assert(r@ =~= SerializedPayloadView::empty());
        r
    }
}

impl Clone for SerializedPayload {
    fn clone(&self) -> (r: Self)
        ensures
            r@ == self@,
    {
        SerializedPayload {
            payload: slice_to_vec(self.payload.as_slice()),
            content_type: self.content_type.clone(),
            format_indicator: self.format_indicator,
        }
    }
}

/// An enum representing errors that can occur during payload deserialization.
#[derive(Debug, PartialEq, Eq)]
pub enum DeserializationError {
    /// An error occurred while deserializing. Holds its debug text.
    InvalidPayload(String),
    /// The content type received is not supported by the deserialization implementation. Holds the
    /// message that tells so.
    UnsupportedContentType(String),
}

/// Trait for serializing and deserializing payloads.
pub trait PayloadSerialize: Sized {
    /// Serializes the payload from the generic type to a byte vector and specifies the content type
    /// and format indicator
    ///
    /// # Errors
    /// The text of the error if the serialization fails.
    fn serialize(self) -> Result<SerializedPayload, String>;

    /// Deserializes the payload from a byte vector to the generic type
    ///
    /// # Errors
    /// Returns a [`DeserializationError`] if the deserialization fails.
    fn deserialize(
        payload: Vec<u8>,
        content_type: Option<String>,
        format_indicator: FormatIndicator,
    ) -> Result<Self, DeserializationError>;
}

/// A packet tells that its payload is text by the number 1; with any other number, or none, its
/// payload is unspecified bytes.
pub proof fn law_formats_are_told_by_numbers(code: Option<u8>)
    ensures
        FormatIndicator::spec_from_code(code) is Utf8EncodedCharacterData <==> code == Some(1u8),
        FormatIndicator::UnspecifiedBytes.spec_code() == 0,
        FormatIndicator::Utf8EncodedCharacterData.spec_code() == 1,
{
}

} // verus!
