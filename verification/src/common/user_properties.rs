//! User properties that the protocol reserves.

use vstd::prelude::*;
use vstd::string::StringExecFns;

use crate::common::{self, is_invalid_utf8};
use crate::text::{self, text_is};

verus! {

/// Reserved key of the property that holds the partition of a message, which is meant for the
/// broker.
pub const PARTITION_KEY: &'static str = "$partition";

/// Enum representing the different user properties that are reserved by the protocol
#[derive(Clone, Copy, Debug, PartialEq, Eq, Structural)]
pub enum UserProperty {
    /// A string used to express the timestamp of a message
    Timestamp,
    /// User Property indicating an HTTP status code
    Status,
    /// User Property indicating a human-readable status message; used when Status != 200 (OK)
    StatusMessage,
    /// User property indicating if a non-200 [`UserProperty::Status`] is an application-level error
    IsApplicationError,
    /// The source ID of a request, response, or message
    SourceId,
    /// The name of an MQTT property in a request header that is missing or has an invalid value
    InvalidPropertyName,
    /// The value of an MQTT property in a request header that is invalid
    InvalidPropertyValue,
    /// User property that indicates the protocol version of an RPC/telemetry request
    ProtocolVersion,
    /// User property indicating which major versions the command executor supports, as a space-separated list
    SupportedMajorVersions,
    /// User property indicating what protocol version the request had
    RequestProtocolVersion,
}

impl UserProperty {
    /// The key of the property.
    pub open spec fn key(self) -> Seq<char> {
        match self {
            UserProperty::Timestamp => "__ts"@,
            UserProperty::Status => "__stat"@,
            UserProperty::StatusMessage => "__stMsg"@,
            UserProperty::IsApplicationError => "__apErr"@,
            UserProperty::SourceId => "__srcId"@,
            UserProperty::InvalidPropertyName => "__propName"@,
            UserProperty::InvalidPropertyValue => "__propVal"@,
            UserProperty::ProtocolVersion => "__protVer"@,
            UserProperty::SupportedMajorVersions => "__supProtMajVer"@,
            UserProperty::RequestProtocolVersion => "__requestProtVer"@,
        }
    }

    /// The property with this key, if the key is reserved.
    pub open spec fn with_key(key: Seq<char>) -> Option<UserProperty> {
        if key == UserProperty::Timestamp.key() {
            Some(UserProperty::Timestamp)
        } else if key == UserProperty::Status.key() {
            Some(UserProperty::Status)
        } else if key == UserProperty::StatusMessage.key() {
            Some(UserProperty::StatusMessage)
        } else if key == UserProperty::IsApplicationError.key() {
            Some(UserProperty::IsApplicationError)
        } else if key == UserProperty::SourceId.key() {
            Some(UserProperty::SourceId)
        } else if key == UserProperty::InvalidPropertyName.key() {
            Some(UserProperty::InvalidPropertyName)
        } else if key == UserProperty::InvalidPropertyValue.key() {
            Some(UserProperty::InvalidPropertyValue)
        } else if key == UserProperty::ProtocolVersion.key() {
            Some(UserProperty::ProtocolVersion)
        } else if key == UserProperty::SupportedMajorVersions.key() {
            Some(UserProperty::SupportedMajorVersions)
        } else if key == UserProperty::RequestProtocolVersion.key() {
            Some(UserProperty::RequestProtocolVersion)
        } else {
            None
        }
    }

    /// The key of the property.
    pub fn to_string(&self) -> (r: String)
        ensures
            r@ == self.key(),
    {
        match self {
            UserProperty::Timestamp => "__ts".to_string(),
            UserProperty::Status => "__stat".to_string(),
            UserProperty::StatusMessage => "__stMsg".to_string(),
            UserProperty::IsApplicationError => "__apErr".to_string(),
            UserProperty::SourceId => "__srcId".to_string(),
            UserProperty::InvalidPropertyName => "__propName".to_string(),
            UserProperty::InvalidPropertyValue => "__propVal".to_string(),
            UserProperty::ProtocolVersion => "__protVer".to_string(),
            UserProperty::SupportedMajorVersions => "__supProtMajVer".to_string(),
            UserProperty::RequestProtocolVersion => "__requestProtVer".to_string(),
        }
    }

    /// The property with this key, if the key is reserved.
    pub fn from_key(key: &str) -> (r: Option<UserProperty>)
        ensures
            r == Self::with_key(key@),
    {
        if text_is(key, "__ts") {
            Some(UserProperty::Timestamp)
        } else if text_is(key, "__stat") {
            Some(UserProperty::Status)
        } else if text_is(key, "__stMsg") {
            Some(UserProperty::StatusMessage)
        } else if text_is(key, "__apErr") {
            Some(UserProperty::IsApplicationError)
        } else if text_is(key, "__srcId") {
            Some(UserProperty::SourceId)
        } else if text_is(key, "__propName") {
            Some(UserProperty::InvalidPropertyName)
        } else if text_is(key, "__propVal") {
            Some(UserProperty::InvalidPropertyValue)
        } else if text_is(key, "__protVer") {
            Some(UserProperty::ProtocolVersion)
        } else if text_is(key, "__supProtMajVer") {
            Some(UserProperty::SupportedMajorVersions)
        } else if text_is(key, "__requestProtVer") {
            Some(UserProperty::RequestProtocolVersion)
        } else {
            None
        }
    }
}

/// A key that was written for a property is read as that property.
pub proof fn law_key_read_as_written(p: UserProperty)
    ensures
        UserProperty::with_key(p.key()) == Some(p),
{
    reveal_strlit("__ts");
    reveal_strlit("__stat");
    reveal_strlit("__stMsg");
    reveal_strlit("__apErr");
    reveal_strlit("__srcId");
    reveal_strlit("__propName");
    reveal_strlit("__propVal");
    reveal_strlit("__protVer");
    reveal_strlit("__supProtMajVer");
    reveal_strlit("__requestProtVer");
    assert("__ts"@.len() == 4);
    assert("__stat"@.len() == 6);
    assert("__stMsg"@.len() == 7);
    assert("__apErr"@.len() == 7);
    assert("__srcId"@.len() == 7);
    assert("__propName"@.len() == 10);
    assert("__propVal"@.len() == 9);
    assert("__protVer"@.len() == 9);
    assert("__supProtMajVer"@.len() == 15);
    assert("__requestProtVer"@.len() == 16);
    // Keys of the same length differ in some character.
    assert("__srcId"@[2] == 's' && "__stMsg"@[3] == 't' && "__srcId"@[3] == 'r');
    assert("__apErr"@[2] == 'a');
    assert("__propVal"@[5] == 'p' && "__protVer"@[5] == 't');
}

/// The partition key is none of the keys that the protocol reserves.
pub proof fn law_partition_key_is_not_reserved()
    ensures
        UserProperty::with_key(PARTITION_KEY@) is None,
{
    reveal_strlit("$partition");
    reveal_strlit("__propName");
    reveal_strlit("__ts");
    assert("__ts"@.len() == 4);
    reveal_strlit("__stat");
    assert("__stat"@.len() == 6);
    reveal_strlit("__stMsg");
    assert("__stMsg"@.len() == 7);
    reveal_strlit("__apErr");
    assert("__apErr"@.len() == 7);
    reveal_strlit("__srcId");
    assert("__srcId"@.len() == 7);
    reveal_strlit("__propVal");
    assert("__propVal"@.len() == 9);
    reveal_strlit("__protVer");
    assert("__protVer"@.len() == 9);
    reveal_strlit("__supProtMajVer");
    assert("__supProtMajVer"@.len() == 15);
    reveal_strlit("__requestProtVer");
    assert("__requestProtVer"@.len() == 16);
    assert(PARTITION_KEY@[0] == '$' && "__propName"@[0] == '_');
}

/// What is wrong with one user property of the application, if anything is.
pub open spec fn user_property_fault(p: text::Pair) -> Option<Seq<char>> {
    if p.0 == PARTITION_KEY@ {
        Some("Reserved user data key '"@ + p.0 + "' must not be used"@)
    } else if common::has_invalid_utf8(p.0) || common::has_invalid_utf8(p.1) {
        Some(
            "Invalid user data key '"@ + p.0 + "' or value '"@ + p.1
                + "' found, must be valid UTF-8"@,
        )
    } else {
        None
    }
}

/// What is wrong with the user properties of the application, if anything is: what is wrong with the
/// first faulty one.
pub open spec fn user_properties_fault(list: Seq<text::Pair>) -> Option<Seq<char>>
    decreases list.len(),
{
    if list.len() == 0 {
        None
    } else {
        match user_properties_fault(list.drop_last()) {
            Some(e) => Some(e),
            None => user_property_fault(list.last()),
        }
    }
}

/// Validates a vector of custom user properties provided as custom user data.
///
/// # Errors
/// Returns a `String` describing the error if any of `property_list`'s keys or values are invalid
/// utf-8 or the reserved [`PARTITION_KEY`] key is used.
pub fn validate_user_properties(property_list: &Vec<(String, String)>) -> (r: Result<(), String>)
    ensures
        match user_properties_fault(property_list.deep_view()) {
            Some(e) => r is Err && r->Err_0@ == e,
            None => r is Ok,
        },
{
    let ghost list = property_list.deep_view();
    for i in 0..property_list.len()
        invariant
            list == property_list.deep_view(),
            user_properties_fault(list.take(i as int)) is None,
    {
        let (key, value) = &property_list[i];
        proof {
            assert(list.take(i + 1).drop_last() =~= list.take(i as int));
            assert(list.take(i + 1).last() == (key@, value@));
        }
        if text_is(key.as_str(), PARTITION_KEY) {
            proof {
                lemma_first_fault_stays(list, i + 1);
            }
            return Err(
                "Reserved user data key '".to_string().concat(key.as_str()).concat(
                    "' must not be used",
                ),
            );
        }
        if is_invalid_utf8(key.as_str()) || is_invalid_utf8(value.as_str()) {
            proof {
                lemma_first_fault_stays(list, i + 1);
            }
            return Err(
                "Invalid user data key '".to_string().concat(key.as_str()).concat(
                    "' or value '",
                ).concat(value.as_str()).concat("' found, must be valid UTF-8"),
            );
        }
    }
    assert(list.take(list.len() as int) =~= list);
    Ok(())
}

/// What is wrong with the first properties is wrong with all of them.
proof fn lemma_first_fault_stays(list: Seq<text::Pair>, n: int)
    requires
        0 <= n <= list.len(),
        user_properties_fault(list.take(n)) is Some,
    ensures
        user_properties_fault(list) == user_properties_fault(list.take(n)),
    decreases list.len() - n,
{
    if n < list.len() {
        assert(list.take(n + 1).drop_last() =~= list.take(n));
        lemma_first_fault_stays(list, n + 1);
    } else {
        assert(list.take(n) =~= list);
    }
}

/// User properties pass the validation exactly if none of them has a fault.
pub proof fn law_valid_if_no_property_has_a_fault(list: Seq<text::Pair>)
    ensures
        user_properties_fault(list) is None <==> forall|i: int|
            0 <= i < list.len() ==> user_property_fault(#[trigger] list[i]) is None,
    decreases list.len(),
{
    if list.len() > 0 {
        law_valid_if_no_property_has_a_fault(list.drop_last());
        if user_properties_fault(list) is None {
            assert forall|i: int| 0 <= i < list.len() implies user_property_fault(
                #[trigger] list[i],
            ) is None by {
                if i < list.len() - 1 {
                    assert(list[i] == list.drop_last()[i]);
                }
            }
        }
        if forall|i: int| 0 <= i < list.len() ==> user_property_fault(#[trigger] list[i]) is None {
            assert(user_property_fault(list[list.len() - 1]) is None);
            assert forall|i: int| 0 <= i < list.len() - 1 implies user_property_fault(
                #[trigger] list.drop_last()[i],
            ) is None by {
                assert(user_property_fault(list[i]) is None);
            }
        }
    }
}

/// A key is read as a property exactly if it is the key of that property.
pub proof fn law_only_its_key_is_read_as_a_property(key: Seq<char>, p: UserProperty)
    ensures
        UserProperty::with_key(key) == Some(p) <==> key == p.key(),
{
    law_key_read_as_written(p);
}

/// What is wrong with user properties is what is wrong with the first of them that has a fault.
pub proof fn law_first_fault_is_told(list: Seq<text::Pair>)
    ensures
        user_properties_fault(list) matches Some(e) ==> exists|i: int|
            {
                &&& 0 <= i < list.len()
                &&& user_property_fault(#[trigger] list[i]) == Some(e)
                &&& forall|j: int| 0 <= j < i ==> user_property_fault(#[trigger] list[j]) is None
            },
    decreases list.len(),
{
    if list.len() > 0 {
        let rest = list.drop_last();
        law_first_fault_is_told(rest);
        law_valid_if_no_property_has_a_fault(rest);
        if let Some(e) = user_properties_fault(rest) {
            let i = choose|i: int|
                {
                    &&& 0 <= i < rest.len()
                    &&& user_property_fault(#[trigger] rest[i]) == Some(e)
                    &&& forall|j: int| 0 <= j < i ==> user_property_fault(#[trigger] rest[j]) is None
                };
            assert(list[i] == rest[i]);
            assert forall|j: int| 0 <= j < i implies user_property_fault(#[trigger] list[j]) is None by {
                assert(list[j] == rest[j]);
            }
        } else if let Some(e) = user_property_fault(list.last()) {
            let i = list.len() - 1;
            assert(user_property_fault(list[i]) == Some(e));
            assert forall|j: int| 0 <= j < i implies user_property_fault(#[trigger] list[j]) is None by {
                assert(list[j] == rest[j]);
            }
        }
    }
}

/// A user property has a fault exactly if its key is the reserved one, or its key or its value holds
/// a character that must not occur; and the fault tells the key.
pub proof fn law_faults_of_one_property(key: Seq<char>, value: Seq<char>)
    ensures
        user_property_fault((key, value)) is None <==> key != "$partition"@
            && !common::has_invalid_utf8(key) && !common::has_invalid_utf8(value),
        key == "$partition"@ ==> user_property_fault((key, value)) == Some(
            "Reserved user data key '"@ + key + "' must not be used"@,
        ),
        key != "$partition"@ && (common::has_invalid_utf8(key) || common::has_invalid_utf8(value))
            ==> user_property_fault((key, value)) == Some(
            "Invalid user data key '"@ + key + "' or value '"@ + value
                + "' found, must be valid UTF-8"@,
        ),
{
}

} // verus!
