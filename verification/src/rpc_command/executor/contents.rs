//! Reading the contents of a request.

use vstd::prelude::*;
use vstd::string::StringExecFns;

use crate::common::protocol_version::{self, ProtocolVersion};
use crate::common::user_properties::{UserProperty, PARTITION_KEY};
use crate::rpc_command::executor::arguments::{self, ResponseArguments};
use crate::rpc_command::{self, default_rpc_command_protocol_version, StatusCode};
use crate::text::{self, text_is};

verus! {

/// The major protocol versions that the executor supports.
pub open spec fn spec_supported_protocol_versions() -> Seq<u16> {
    seq![1u16]
}

/// The major protocol versions that the executor supports.
pub fn supported_protocol_versions() -> (r: Vec<u16>)
    ensures
        r@ == spec_supported_protocol_versions(),
{
    let r: Vec<u16> = vec![1u16];
    assert(r@ =~= spec_supported_protocol_versions());
    r
}

/// The value of the first property that tells the protocol version, if there is one.
pub open spec fn version_property(list: Seq<text::Pair>) -> Option<Seq<char>>
    decreases list.len(),
{
    if list.len() == 0 {
        None
    } else {
        match version_property(list.drop_last()) {
            Some(v) => Some(v),
            None => if UserProperty::with_key(list.last().0) == Some(UserProperty::ProtocolVersion) {
                Some(list.last().1)
            } else {
                None
            },
        }
    }
}

/// What a version is answered that cannot be parsed.
pub open spec fn unparsable_version_message(version: Seq<char>) -> Seq<char> {
    "Unparsable protocol version value provided: "@ + version + "."@
}

/// What a version is answered that is not supported.
pub open spec fn unsupported_version_message(version: Seq<char>) -> Seq<char> {
    "The command executor that received the request only supports major protocol versions '[1]', but '"@
        + version + "' was sent on the request."@
}

impl arguments::ArgumentsView {
    /// The arguments where the protocol version of a request is not supported.
    pub open spec fn with_version_fault(
        self,
        message: Seq<char>,
        version: Seq<char>,
    ) -> arguments::ArgumentsView {
        arguments::ArgumentsView {
            supported_protocol_major_versions: Some(spec_supported_protocol_versions()),
            request_protocol_version: Some(version),
            ..self.with_status(StatusCode::VersionNotSupported, message)
        }
    }

    /// The arguments after the protocol version of the request was checked.
    pub open spec fn version_checked(self, list: Seq<text::Pair>) -> arguments::ArgumentsView {
        match version_property(list) {
            Some(v) => match protocol_version::parsed_version(v) {
                None => self.with_version_fault(unparsable_version_message(v), v),
                Some(version) => self.version_known(version),
            },
            None => self.version_known(rpc_command::spec_default_rpc_command_protocol_version()),
        }
    }

    /// The arguments after the protocol version was parsed or assumed.
    pub open spec fn version_known(self, version: ProtocolVersion) -> arguments::ArgumentsView {
        if spec_supported_protocol_versions().contains(version.major) {
            self
        } else {
            self.with_version_fault(unsupported_version_message(version.text()), version.text())
        }
    }
}

/// The version that a request is taken to have: that of its first version property, and the default
/// one if it has none. None if it cannot be parsed.
pub open spec fn request_version(list: Seq<text::Pair>) -> Option<ProtocolVersion> {
    match version_property(list) {
        Some(v) => protocol_version::parsed_version(v),
        None => Some(rpc_command::spec_default_rpc_command_protocol_version()),
    }
}

/// Whether the version that a request is taken to have is supported.
pub open spec fn has_supported_version(list: Seq<text::Pair>) -> bool {
    match request_version(list) {
        Some(version) => spec_supported_protocol_versions().contains(version.major),
        None => false,
    }
}

/// The value of the first property that tells the protocol version, if there is one.
fn find_version_property(list: &Vec<(String, String)>) -> (r: Option<String>)
    ensures
        text::opt_text(r) == version_property(list.deep_view()),
{
    let ghost pairs = list.deep_view();
    for i in 0..list.len()
        invariant
            pairs == list.deep_view(),
            version_property(pairs.take(i as int)) is None,
    {
        let (key, value) = &list[i];
        proof {
            assert(pairs.take(i + 1).drop_last() =~= pairs.take(i as int));
            assert(pairs.take(i + 1).last() == (key@, value@));
        }
        if let Some(UserProperty::ProtocolVersion) = UserProperty::from_key(key.as_str()) {
            proof {
                lemma_version_property_stays(pairs, i + 1);
            }
            return Some(value.clone());
        }
    }
    assert(pairs.take(pairs.len() as int) =~= pairs);
    None
}

/// The first version property of the first properties is that of all of them.
proof fn lemma_version_property_stays(list: Seq<text::Pair>, n: int)
    requires
        0 <= n <= list.len(),
        version_property(list.take(n)) is Some,
    ensures
        version_property(list) == version_property(list.take(n)),
    decreases list.len() - n,
{
    if n < list.len() {
        assert(list.take(n + 1).drop_last() =~= list.take(n));
        lemma_version_property_stays(list, n + 1);
    } else {
        assert(list.take(n) =~= list);
    }
}

impl ResponseArguments {
    /// The protocol version of the request is not supported.
    fn set_version_fault(&mut self, message: String, version: String)
        ensures
            final(self)@ == old(self)@.with_version_fault(message@, version@),
    {
        self.set_status(StatusCode::VersionNotSupported, message);
        self.supported_protocol_major_versions = Some(supported_protocol_versions());
        self.request_protocol_version = Some(version);
    }

    /// Check the protocol version of the request. Returns whether it is supported.
    pub fn check_version(&mut self, user_properties: &Vec<(String, String)>) -> (r: bool)
        ensures
            final(self)@ == old(self)@.version_checked(user_properties.deep_view()),
            r == has_supported_version(user_properties.deep_view()),
    {
        // unused beyond validation, but may be used in the future to determine how to handle other
        // fields.
        // assume default version if none is provided
        let mut request_protocol_version = default_rpc_command_protocol_version();
        if let Some(protocol_version) = find_version_property(user_properties) {
            if let Some(request_version) = ProtocolVersion::parse_protocol_version(
                protocol_version.as_str(),
            ) {
                request_protocol_version = request_version;
            } else {
                let message = "Unparsable protocol version value provided: ".to_string().concat(
                    protocol_version.as_str(),
                ).concat(".");
                self.set_version_fault(message, protocol_version);
                return false;
            }
        }
        // Check that the version (or the default version if one isn't provided) is supported
        if !request_protocol_version.is_supported(&supported_protocol_versions()) {
            let version = request_protocol_version.to_string();
            let message =
                "The command executor that received the request only supports major protocol versions '[1]', but '".to_string().concat(
            version.as_str()).concat("' was sent on the request.");
            self.set_version_fault(message, version);
            return false;
        }
        true
    }
}

/// Why a clock refuses to be updated against a timestamp.
#[derive(Clone, Copy, Debug, PartialEq, Eq, Structural)]
pub enum HLCErrorKind {
    /// The clocks differ by too much.
    ClockDrift,
    /// The counter of the clock has no room left.
    OverflowWarning,
}

/// What came of updating the clock of the application against the timestamp of a request.
#[derive(Debug, PartialEq, Eq)]
pub enum ClockOutcome {
    /// The clock was updated.
    Updated,
    /// The timestamp could not be parsed. Holds the text of the error.
    Invalid(String),
    /// The clock could not be updated. Holds the kind of the error, and its text.
    Failed(HLCErrorKind, String),
}

/// What the user properties of a request tell.
#[verifier::ext_equal]
pub struct PropertiesView {
    /// The properties that are handed to the application.
    pub user_data: Seq<text::Pair>,
    /// The timestamp of the request.
    pub timestamp: Option<Seq<char>>,
    /// The client ID of the invoker.
    pub invoker_id: Option<Seq<char>>,
    /// The timestamps that the clock was updated against, or was to be.
    pub asked: Seq<Seq<char>>,
    /// The timestamp that the clock was not updated against, and why.
    pub fault: Option<(Seq<char>, ClockOutcome)>,
}

impl PropertiesView {
    /// Nothing is told yet.
    pub open spec fn empty() -> PropertiesView {
        PropertiesView {
            user_data: Seq::empty(),
            timestamp: None,
            invoker_id: None,
            asked: Seq::empty(),
            fault: None,
        }
    }

    /// What is told together with one more property, where `outcome` is what comes of updating the
    /// clock if the property is a timestamp.
    pub open spec fn with_property(self, p: text::Pair, outcome: ClockOutcome) -> PropertiesView {
        match UserProperty::with_key(p.0) {
            Some(UserProperty::Timestamp) => if outcome is Updated {
                PropertiesView { timestamp: Some(p.1), asked: self.asked.push(p.1), ..self }
            } else {
                PropertiesView { fault: Some((p.1, outcome)), asked: self.asked.push(p.1), ..self }
            },
            Some(UserProperty::SourceId) => PropertiesView { invoker_id: Some(p.1), ..self },
            Some(UserProperty::ProtocolVersion) => self,
            None => if p.0 == PARTITION_KEY@ {
                self
            } else {
                PropertiesView { user_data: self.user_data.push(p), ..self }
            },
            Some(_) => PropertiesView { user_data: self.user_data.push(p), ..self },
        }
    }

    /// What the properties tell, up to the first fault, where `outcomes` are what comes of updating
    /// the clock against the timestamps, in order.
    pub open spec fn read(list: Seq<text::Pair>, outcomes: Seq<ClockOutcome>) -> PropertiesView
        decreases list.len(),
    {
        if list.len() == 0 {
            PropertiesView::empty()
        } else {
            let before = PropertiesView::read(list.drop_last(), outcomes);
            if before.fault is Some {
                before
            } else {
                before.with_property(list.last(), outcomes[before.asked.len() as int])
            }
        }
    }
}

/// Whether the outcome is an answer of the clock to the timestamp.
pub open spec fn is_answer<U: Fn(String) -> ClockOutcome>(
    update_clock: U,
    asked: Seq<char>,
    outcome: ClockOutcome,
) -> bool {
    exists|timestamp: String|
        timestamp@ == asked && #[trigger] call_ensures(update_clock, (timestamp,), outcome)
}

/// Whether the outcomes are answers of the clock to the timestamps, in order.
pub open spec fn are_answers<U: Fn(String) -> ClockOutcome>(
    update_clock: U,
    asked: Seq<Seq<char>>,
    outcomes: Seq<ClockOutcome>,
) -> bool {
    &&& asked.len() == outcomes.len()
    &&& forall|i: int|
        0 <= i < asked.len() ==> is_answer(update_clock, #[trigger] asked[i], outcomes[i])
}

/// What the user properties of a request tell.
#[derive(Debug)]
pub struct PropertiesRead {
    pub user_data: Vec<(String, String)>,
    pub timestamp: Option<String>,
    pub invoker_id: Option<String>,
    pub fault: Option<(String, ClockOutcome)>,
}

impl PropertiesRead {
    /// Whether this is what the user properties of a request tell.
    pub open spec fn is_read(self, v: PropertiesView) -> bool {
        &&& self.user_data.deep_view() == v.user_data
        &&& text::opt_text(self.timestamp) == v.timestamp
        &&& text::opt_text(self.invoker_id) == v.invoker_id
        &&& match (self.fault, v.fault) {
            (Some((value, outcome)), Some(f)) => value@ == f.0 && outcome == f.1,
            (None, None) => true,
            _ => false,
        }
    }
}

/// Read the user properties of a request, in order, until there are no more or the clock cannot be
/// updated against a timestamp.
///
/// # Arguments
/// * `list` - The user properties
/// * `update_clock` - Updates the clock of the application against a timestamp
pub fn read_user_properties<U: Fn(String) -> ClockOutcome>(
    list: &Vec<(String, String)>,
    update_clock: &U,
) -> (r: PropertiesRead)
    requires
        forall|timestamp: String| #[trigger] call_requires(*update_clock, (timestamp,)),
    ensures
        exists|outcomes: Seq<ClockOutcome>|
            {
                &&& r.is_read(#[trigger] PropertiesView::read(list.deep_view(), outcomes))
                &&& are_answers(
                    *update_clock,
                    PropertiesView::read(list.deep_view(), outcomes).asked,
                    outcomes,
                )
            },
{
    let mut r = PropertiesRead {
        user_data: Vec::new(),
        timestamp: None,
        invoker_id: None,
        fault: None,
    };
    let ghost pairs = list.deep_view();
    let ghost mut outcomes: Seq<ClockOutcome> = Seq::empty();
    assert(r.user_data.deep_view() =~= Seq::<text::Pair>::empty());
    for i in 0..list.len()
        invariant
            pairs == list.deep_view(),
            forall|timestamp: String| #[trigger] call_requires(*update_clock, (timestamp,)),
            r.is_read(PropertiesView::read(pairs.take(i as int), outcomes)),
            r.fault is None,
            are_answers(
                *update_clock,
                PropertiesView::read(pairs.take(i as int), outcomes).asked,
                outcomes,
            ),
    {
        let (key, value) = &list[i];
        let ghost before = PropertiesView::read(pairs.take(i as int), outcomes);
        proof {
            assert(pairs.take(i + 1).drop_last() =~= pairs.take(i as int));
            assert(pairs.take(i + 1).last() == (key@, value@));
        }
        match UserProperty::from_key(key.as_str()) {
            Some(UserProperty::Timestamp) => {
                // Update application HLC against received timestamp
                let asked = value.clone();
                let ghost asked_for = asked;
                let outcome = update_clock(asked);
                proof {
                    assert(call_ensures(*update_clock, (asked_for,), outcome));
                    assert(is_answer(*update_clock, value@, outcome));
                    let longer = outcomes.push(outcome);
                    lemma_read_with_more_outcomes(pairs.take(i as int), outcomes, outcome);
                    assert(are_answers(*update_clock, before.asked.push(value@), longer));
                    outcomes = longer;
                }
                match outcome {
                    ClockOutcome::Updated => {
                        r.timestamp = Some(value.clone());
                    },
                    _ => {
                        r.fault = Some((value.clone(), outcome));
                        proof {
                            lemma_read_stops_at_fault(pairs, outcomes, i + 1);
                        }
                        return r;
                    },
                }
            },
            Some(UserProperty::SourceId) => {
                r.invoker_id = Some(value.clone());
            },
            Some(UserProperty::ProtocolVersion) => {
                // skip, already processed
            },
            None => {
                // Ignore partition key, it is meant for the broker
                if !text_is(key.as_str(), PARTITION_KEY) {
                    push_pair(&mut r.user_data, key, value);
                }
            },
            _ => {
                // Don't return error, although these properties shouldn't be in the request
                push_pair(&mut r.user_data, key, value);
            },
        }
    }
    assert(pairs.take(pairs.len() as int) =~= pairs);
    r
}

/// Append a copy of a pair of strings.
fn push_pair(list: &mut Vec<(String, String)>, key: &String, value: &String)
    ensures
        final(list).deep_view() == old(list).deep_view().push((key@, value@)),
{
    list.push((key.clone(), value.clone()));
    assert(list.deep_view() =~= old(list).deep_view().push((key@, value@)));
}

/// What properties tell does not depend on answers beyond those that were asked for.
proof fn lemma_read_with_more_outcomes(
    list: Seq<text::Pair>,
    outcomes: Seq<ClockOutcome>,
    outcome: ClockOutcome,
)
    requires
        PropertiesView::read(list, outcomes).asked.len() <= outcomes.len(),
    ensures
        PropertiesView::read(list, outcomes.push(outcome)) == PropertiesView::read(list, outcomes),
    decreases list.len(),
{
    if list.len() > 0 {
        let before = PropertiesView::read(list.drop_last(), outcomes);
        lemma_asked_grows(list, outcomes);
        lemma_read_with_more_outcomes(list.drop_last(), outcomes, outcome);
        if before.asked.len() == outcomes.len() {
            assert(UserProperty::with_key(list.last().0) != Some(UserProperty::Timestamp)
                || before.fault is Some);
        }
    }
}

/// The more properties are read, the more timestamps are asked for.
proof fn lemma_asked_grows(list: Seq<text::Pair>, outcomes: Seq<ClockOutcome>)
    requires
        list.len() > 0,
    ensures
        PropertiesView::read(list.drop_last(), outcomes).asked.len() <= PropertiesView::read(
            list,
            outcomes,
        ).asked.len(),
{
}

/// Nothing is read beyond the first fault.
proof fn lemma_read_stops_at_fault(list: Seq<text::Pair>, outcomes: Seq<ClockOutcome>, n: int)
    requires
        0 <= n <= list.len(),
        PropertiesView::read(list.take(n), outcomes).fault is Some,
    ensures
        PropertiesView::read(list, outcomes) == PropertiesView::read(list.take(n), outcomes),
    decreases list.len() - n,
{
    if n < list.len() {
        assert(list.take(n + 1).drop_last() =~= list.take(n));
        lemma_read_stops_at_fault(list, outcomes, n + 1);
    } else {
        assert(list.take(n) =~= list);
    }
}

} // verus!
