//! Remote procedure calls: commands that are invoked by a request message and answered by a response
//! message.

pub mod executor;

use vstd::prelude::*;

use crate::common::protocol_version::ProtocolVersion;

verus! {

/// Represents the valid status codes for command responses.
#[derive(Clone, Copy, Debug, PartialEq, Eq, Structural)]
pub enum StatusCode {
    /// No error.
    Success,
    /// There is no content to send for this response.
    NoContent,
    /// Header or payload is missing or invalid.
    BadRequest,
    /// The request timed out before a response could be received from the command processor.
    RequestTimeout,
    /// The content type specified in the request is not supported by this implementation.
    UnsupportedMediaType,
    /// Unknown error, internal logic error, or command processor error other than
    /// [`StatusCode::BadRequest`].
    InternalServerError,
    /// Invalid service state preventing command from executing properly.
    ServiceUnavailable,
    /// The request failed because the remote party did not support the requested protocol version.
    VersionNotSupported,
}

impl StatusCode {
    /// The number that stands for the status in a response.
    pub open spec fn spec_number(self) -> u16 {
        match self {
            StatusCode::Success => 200,
            StatusCode::NoContent => 204,
            StatusCode::BadRequest => 400,
            StatusCode::RequestTimeout => 408,
            StatusCode::UnsupportedMediaType => 415,
            StatusCode::InternalServerError => 500,
            StatusCode::ServiceUnavailable => 503,
            StatusCode::VersionNotSupported => 505,
        }
    }

    /// The number that stands for the status in a response.
    pub fn number(&self) -> (r: u16)
        ensures
            r == self.spec_number(),
    {
        match self {
            StatusCode::Success => 200,
            StatusCode::NoContent => 204,
            StatusCode::BadRequest => 400,
            StatusCode::RequestTimeout => 408,
            StatusCode::UnsupportedMediaType => 415,
            StatusCode::InternalServerError => 500,
            StatusCode::ServiceUnavailable => 503,
            StatusCode::VersionNotSupported => 505,
        }
    }
}

/// Protocol version used by all envoys in this module
pub open spec fn spec_rpc_command_protocol_version() -> ProtocolVersion {
    ProtocolVersion { major: 1, minor: 0 }
}

/// Protocol version used by all envoys in this module
pub fn rpc_command_protocol_version() -> (r: ProtocolVersion)
    ensures
        r == spec_rpc_command_protocol_version(),
{
    ProtocolVersion { major: 1, minor: 0 }
}

/// Assumed version if no version is provided.
pub open spec fn spec_default_rpc_command_protocol_version() -> ProtocolVersion {
    ProtocolVersion { major: 1, minor: 0 }
}

/// Assumed version if no version is provided.
pub fn default_rpc_command_protocol_version() -> (r: ProtocolVersion)
    ensures
        r == spec_default_rpc_command_protocol_version(),
{
    ProtocolVersion { major: 1, minor: 0 }
}

} // verus!
