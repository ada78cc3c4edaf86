//! What the response to a request depends on.

use bytes::Bytes;
use vstd::prelude::*;

use crate::bytes_data::{self, bytes_clone, bytes_len, bytes_to_vec};
use crate::rpc_command::executor::cache::{self, Cache, CacheEntryStatus, CacheKey};
use crate::rpc_command::StatusCode;
use crate::text::{self, utf8_text};
use crate::time::{self, Instant};

verus! {

/// Default message expiry interval only for when the message expiry interval is not present
pub const DEFAULT_MESSAGE_EXPIRY_INTERVAL_SECONDS: u32 = 10;

/// Message for when expiration time is unable to be calculated, internal logic error
pub const INTERNAL_LOGIC_EXPIRATION_ERROR: &'static str =
    "Internal logic error, unable to calculate command expiration time";

/// The number of bytes of correlation data, which is a GUID.
pub const CORRELATION_DATA_LEN: usize = 16;

/// Struct to hold response arguments
#[derive(Debug, PartialEq, Eq)]
pub struct ResponseArguments {
    pub command_name: String,
    pub response_topic: String,
    pub correlation_data: Option<Bytes>,
    pub status_code: StatusCode,
    pub status_message: Option<String>,
    pub is_application_error: bool,
    pub invalid_property_name: Option<String>,
    pub invalid_property_value: Option<String>,
    pub command_expiration_time: Option<Instant>,
    pub message_expiry_interval: Option<u32>,
    pub supported_protocol_major_versions: Option<Vec<u16>>,
    pub request_protocol_version: Option<String>,
    pub cached_key: Option<CacheKey>,
    pub cached_entry_status: CacheEntryStatus,
}

/// What [`ResponseArguments`] stand for.
#[verifier::ext_equal]
pub struct ArgumentsView {
    pub command_name: Seq<char>,
    pub response_topic: Seq<char>,
    pub correlation_data: Option<Seq<u8>>,
    pub status_code: StatusCode,
    pub status_message: Option<Seq<char>>,
    pub is_application_error: bool,
    pub invalid_property_name: Option<Seq<char>>,
    pub invalid_property_value: Option<Seq<char>>,
    pub command_expiration_time: Option<nat>,
    pub message_expiry_interval: Option<u32>,
    pub supported_protocol_major_versions: Option<Seq<u16>>,
    pub request_protocol_version: Option<Seq<char>>,
    pub cached_key: Option<cache::CacheKeyView>,
    pub cached_entry_status: cache::StatusView,
}

/// The point in time that an optional instant stands for.
pub open spec fn opt_time(t: Option<Instant>) -> Option<nat> {
    match t {
        Some(t) => Some(t@),
        None => None,
    }
}

/// The key that an optional key stands for.
pub open spec fn opt_key(key: Option<CacheKey>) -> Option<cache::CacheKeyView> {
    match key {
        Some(k) => Some(k@),
        None => None,
    }
}

/// The numbers in an optional list.
pub open spec fn opt_list(list: Option<Vec<u16>>) -> Option<Seq<u16>> {
    match list {
        Some(v) => Some(v@),
        None => None,
    }
}

impl View for ResponseArguments {
    type V = ArgumentsView;

    open spec fn view(&self) -> ArgumentsView {
        ArgumentsView {
            command_name: self.command_name@,
            response_topic: self.response_topic@,
            correlation_data: bytes_data::opt_contents(self.correlation_data),
            status_code: self.status_code,
            status_message: text::opt_text(self.status_message),
            is_application_error: self.is_application_error,
            invalid_property_name: text::opt_text(self.invalid_property_name),
            invalid_property_value: text::opt_text(self.invalid_property_value),
            command_expiration_time: opt_time(self.command_expiration_time),
            message_expiry_interval: self.message_expiry_interval,
            supported_protocol_major_versions: opt_list(self.supported_protocol_major_versions),
            request_protocol_version: text::opt_text(self.request_protocol_version),
            cached_key: opt_key(self.cached_key),
            cached_entry_status: self.cached_entry_status@,
        }
    }
}

/// When a command expires that was received at some time: after its message expiry interval, or the
/// default one if the message has none. None if that time cannot be represented.
pub open spec fn expiration_time(received: nat, interval: Option<u32>) -> Option<nat> {
    let secs = match interval {
        Some(secs) => secs,
        None => DEFAULT_MESSAGE_EXPIRY_INTERVAL_SECONDS,
    };
    let t = received + secs as nat * time::NANOS_PER_SEC as nat;
    if t <= Instant::latest() {
        Some(t)
    } else {
        None
    }
}

/// When a command expires that was received at some time.
pub fn compute_expiration_time(received: Instant, interval: Option<u32>) -> (r: Option<Instant>)
    ensures
        opt_time(r) == expiration_time(received@, interval),
{
    let secs: u32 = match interval {
        Some(secs) => secs,
        None => DEFAULT_MESSAGE_EXPIRY_INTERVAL_SECONDS,
    };
    received.checked_add_secs(secs as u64)
}

impl ArgumentsView {
    /// The arguments for a request that nothing is known to be wrong with yet.
    pub open spec fn initial(
        command_name: Seq<char>,
        response_topic: Seq<char>,
        received: nat,
        interval: Option<u32>,
    ) -> ArgumentsView {
        ArgumentsView {
            command_name,
            response_topic,
            correlation_data: None,
            status_code: StatusCode::Success,
            status_message: None,
            is_application_error: false,
            invalid_property_name: None,
            invalid_property_value: None,
            command_expiration_time: expiration_time(received, interval),
            message_expiry_interval: interval,
            supported_protocol_major_versions: None,
            request_protocol_version: None,
            cached_key: None,
            cached_entry_status: cache::StatusView::NotFound,
        }
    }

    /// The arguments where something is wrong with a request.
    pub open spec fn with_status(
        self,
        status_code: StatusCode,
        status_message: Seq<char>,
    ) -> ArgumentsView {
        ArgumentsView { status_code, status_message: Some(status_message), ..self }
    }

    /// The arguments where something is wrong with a property of a request.
    pub open spec fn with_property_fault(
        self,
        status_code: StatusCode,
        status_message: Seq<char>,
        name: Seq<char>,
        value: Option<Seq<char>>,
    ) -> ArgumentsView {
        ArgumentsView {
            invalid_property_name: Some(name),
            invalid_property_value: value,
            ..self.with_status(status_code, status_message)
        }
    }

    /// The arguments with the correlation data of the request, which must be a GUID.
    pub open spec fn with_correlation_data(self, data: Option<Seq<u8>>) -> ArgumentsView {
        match data {
            Some(data) => {
                let with_data = ArgumentsView { correlation_data: Some(data), ..self };
                if data.len() == CORRELATION_DATA_LEN {
                    ArgumentsView {
                        cached_key: Some(
                            cache::CacheKeyView {
                                response_topic: self.response_topic,
                                correlation_data: data,
                            },
                        ),
                        ..with_data
                    }
                } else {
                    with_data.with_property_fault(
                        StatusCode::BadRequest,
                        "Correlation data bytes do not conform to a GUID"@,
                        "Correlation Data"@,
                        if vstd::utf8::valid_utf8(data) {
                            Some(vstd::utf8::decode_utf8(data))
                        } else {
                            None
                        },
                    )
                }
            },
            None => self.with_property_fault(
                StatusCode::BadRequest,
                "Correlation data missing"@,
                "Correlation Data"@,
                None,
            ),
        }
    }

    /// The arguments after the checks that come before the contents of the request are looked at.
    pub open spec fn checked(
        self,
        cache: Map<cache::CacheKeyView, cache::CacheEntryView>,
        now: nat,
    ) -> ArgumentsView {
        match self.cached_key {
            None => self,
            Some(key) => if self.command_expiration_time is None {
                self.with_status(
                    StatusCode::InternalServerError,
                    INTERNAL_LOGIC_EXPIRATION_ERROR@,
                )
            } else if self.message_expiry_interval is None {
                self.with_property_fault(
                    StatusCode::BadRequest,
                    "Message expiry interval missing"@,
                    "Message Expiry"@,
                    None,
                )
            } else {
                ArgumentsView { cached_entry_status: cache::cache_status(cache, key, now), ..self }
            },
        }
    }

    /// Whether the contents of the request are to be looked at: its correlation data and its
    /// expiration are in order, and it is not a duplicate.
    pub open spec fn is_fresh(self) -> bool {
        &&& self.cached_key is Some
        &&& self.command_expiration_time is Some
        &&& self.message_expiry_interval is Some
        &&& self.cached_entry_status is NotFound
    }
}

impl ResponseArguments {
    /// The arguments for a request that nothing is known to be wrong with yet.
    ///
    /// # Arguments
    /// * `command_name` - The name of the command
    /// * `response_topic` - Where the response is to be sent
    /// * `received` - When the request was received
    /// * `interval` - The message expiry interval of the request
    pub fn initial(
        command_name: &str,
        response_topic: String,
        received: Instant,
        interval: Option<u32>,
    ) -> (r: Self)
        ensures
            r@ == ArgumentsView::initial(command_name@, response_topic@, received@, interval),
    {
        ResponseArguments {
            command_name: command_name.to_string(),
            response_topic,
            correlation_data: None,
            status_code: StatusCode::Success,
            status_message: None,
            is_application_error: false,
            invalid_property_name: None,
            invalid_property_value: None,
            command_expiration_time: compute_expiration_time(received, interval),
            message_expiry_interval: interval,
            supported_protocol_major_versions: None,
            request_protocol_version: None,
            cached_key: None,
            cached_entry_status: CacheEntryStatus::NotFound,
        }
    }

    /// Something is wrong with the request.
    pub fn set_status(&mut self, status_code: StatusCode, status_message: String)
        ensures
            final(self)@ == old(self)@.with_status(status_code, status_message@),
    {
        self.status_code = status_code;
        self.status_message = Some(status_message);
    }

    /// Something is wrong with a property of the request.
    pub fn set_property_fault(
        &mut self,
        status_code: StatusCode,
        status_message: String,
        name: String,
        value: Option<String>,
    )
        ensures
            final(self)@ == old(self)@.with_property_fault(
                status_code,
                status_message@,
                name@,
                text::opt_text(value),
            ),
    {
        self.set_status(status_code, status_message);
        self.invalid_property_name = Some(name);
        self.invalid_property_value = value;
    }

    /// Set the correlation data of the request, which must be a GUID.
    pub fn set_correlation_data(&mut self, correlation_data: &Option<Bytes>)
        ensures
            final(self)@ == old(self)@.with_correlation_data(
                bytes_data::opt_contents(*correlation_data),
            ),
    {
        match correlation_data {
            Some(correlation_data) => {
                self.correlation_data = Some(bytes_clone(correlation_data));
                if bytes_len(correlation_data) == CORRELATION_DATA_LEN {
                    self.cached_key = Some(
                        CacheKey {
                            response_topic: self.response_topic.clone(),
                            correlation_data: bytes_clone(correlation_data),
                        },
                    );
                } else {
                    let value = utf8_text(bytes_to_vec(correlation_data));
                    self.set_property_fault(
                        StatusCode::BadRequest,
                        "Correlation data bytes do not conform to a GUID".to_string(),
                        "Correlation Data".to_string(),
                        value,
                    );
                }
            },
            None => {
                self.set_property_fault(
                    StatusCode::BadRequest,
                    "Correlation data missing".to_string(),
                    "Correlation Data".to_string(),
                    None,
                );
            },
        }
        assert(self@ =~= old(self)@.with_correlation_data(
            bytes_data::opt_contents(*correlation_data),
        ));
    }

    /// Run the checks that come before the contents of the request are looked at. Returns whether
    /// the contents are to be looked at.
    ///
    /// # Arguments
    /// * `cache` - The responses to earlier requests
    /// * `now` - The present time
    pub fn check(&mut self, cache: &Cache, now: Instant) -> (r: bool)
        requires
            cache.wf(),
            old(self)@.cached_entry_status is NotFound,
        ensures
            final(self)@ == old(self)@.checked(cache@, now@),
            r == final(self)@.is_fresh(),
    {
        // If the cache key was not created it means the correlation data was invalid
        if let Some(cache_key) = &self.cached_key {
            // Checking if command expiration time was calculated after correlation
            // to provide a more accurate response to the invoker.
            if self.command_expiration_time.is_none() {
                self.set_status(
                    StatusCode::InternalServerError,
                    INTERNAL_LOGIC_EXPIRATION_ERROR.to_string(),
                );
                return false;
            }
            // Check if message expiry interval is present
            if self.message_expiry_interval.is_none() {
                self.set_property_fault(
                    StatusCode::BadRequest,
                    "Message expiry interval missing".to_string(),
                    "Message Expiry".to_string(),
                    None,
                );
                return false;
            }
            // Check cache
            self.cached_entry_status = cache.get(cache_key, now);
            // If the cache entry is not found, continue processing the request
            match self.cached_entry_status {
                CacheEntryStatus::NotFound => true,
                _ => false,
            }
        } else {
            false
        }
    }
}

/// A command expires just when its message expiry interval has passed since it was received, however
/// long that is, or after ten seconds if it has none; unless that time cannot be represented.
pub proof fn law_command_expires_after_its_interval(
    received: Instant,
    interval: Option<u32>,
    expires: Option<Instant>,
)
    requires
        call_ensures(compute_expiration_time, (received, interval), expires),
    ensures
        expires matches Some(t) ==> t@ - received@ == (match interval {
            Some(secs) => secs as int,
            None => 10,
        }) * 1_000_000_000,
        expires is None ==> received@ + (match interval {
            Some(secs) => secs as int,
            None => 10,
        }) * 1_000_000_000 > u64::MAX * 1_000_000_000 + 999_999_999,
        opt_time(expires) == expiration_time(received@, interval),
{
}

/// A command with a longer interval expires later by just the difference, and so does one that is
/// received later.
pub proof fn law_expiration_moves_with_interval_and_receipt(received: nat, secs: u32, more: u32)
    requires
        secs + more <= u32::MAX,
        expiration_time(received, Some((secs + more) as u32)) is Some,
    ensures
        expiration_time(received, Some(secs)) matches Some(t) && expiration_time(
            received,
            Some((secs + more) as u32),
        ) == Some((t + more * 1_000_000_000) as nat),
        expiration_time((received + more * 1_000_000_000) as nat, Some(secs)) == expiration_time(
            received,
            Some((secs + more) as u32),
        ),
        expiration_time(received, Some(0)) == Some(received),
{
}

} // verus!
