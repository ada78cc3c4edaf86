//! What holds of the user properties of requests.

use vstd::prelude::*;

use crate::common::protocol_version;
use crate::common::user_properties::{
    law_key_read_as_written, law_partition_key_is_not_reserved, UserProperty, PARTITION_KEY,
};
use crate::rpc_command::executor::contents::{self, ClockOutcome};
use crate::text;

verus! {

/// Whether a user property has this key.
pub open spec fn has_key(p: text::Pair, key: Seq<char>) -> bool {
    p.0 == key
}

/// Whether a user property of a request is meant for the application.
pub open spec fn is_custom(p: text::Pair) -> bool {
    &&& !has_key(p, "$partition"@)
    &&& !has_key(p, "__ts"@)
    &&& !has_key(p, "__srcId"@)
    &&& !has_key(p, "__protVer"@)
}

/// The keys that the executor looks for.
pub(crate) proof fn lemma_keys(key: Seq<char>)
    ensures
        UserProperty::with_key(key) == Some(UserProperty::Timestamp) <==> key == "__ts"@,
        UserProperty::with_key(key) == Some(UserProperty::SourceId) <==> key == "__srcId"@,
        UserProperty::with_key(key) == Some(UserProperty::ProtocolVersion) <==> key == "__protVer"@,
        key == "$partition"@ ==> UserProperty::with_key(key) is None,
        PARTITION_KEY@ == "$partition"@,
{
    law_key_read_as_written(UserProperty::Timestamp);
    law_key_read_as_written(UserProperty::SourceId);
    law_key_read_as_written(UserProperty::ProtocolVersion);
    law_partition_key_is_not_reserved();
}

/// Where reading the user properties of a request ends without a fault, the user data are all of
/// them, in order, but for the partition key and those that tell the timestamp, the source ID and
/// the protocol version.
pub proof fn law_user_data_are_all_custom_properties(
    list: Seq<text::Pair>,
    outcomes: Seq<ClockOutcome>,
)
    requires
        contents::PropertiesView::read(list, outcomes).fault is None,
    ensures
        contents::PropertiesView::read(list, outcomes).user_data == list.filter(
            |p: text::Pair| is_custom(p),
        ),
        forall|i: int|
            0 <= i < list.len() && is_custom(#[trigger] list[i])
                ==> contents::PropertiesView::read(list, outcomes).user_data.contains(list[i]),
    decreases list.len(),
{
    let pred = |p: text::Pair| is_custom(p);
    reveal(Seq::filter);
    if list.len() > 0 {
        let before = contents::PropertiesView::read(list.drop_last(), outcomes);
        assert(before.fault is None);
        law_user_data_are_all_custom_properties(list.drop_last(), outcomes);
        lemma_keys(list.last().0);
        assert(contents::PropertiesView::read(list, outcomes).user_data =~= list.filter(pred));
    } else {
        assert(contents::PropertiesView::read(list, outcomes).user_data =~= list.filter(pred));
    }
    assert forall|i: int| 0 <= i < list.len() && is_custom(#[trigger] list[i]) implies
        contents::PropertiesView::read(list, outcomes).user_data.contains(list[i]) by {
        list.lemma_filter_contains(pred, i);
    }
}

/// The timestamps that a request tells, in order.
pub open spec fn timestamps(list: Seq<text::Pair>) -> Seq<Seq<char>> {
    list.filter(|p: text::Pair| has_key(p, "__ts"@)).map_values(|p: text::Pair| p.1)
}

/// Where reading the user properties of a request ends without a fault, the clock was updated against
/// each of its timestamps, and the timestamp and the source ID that the application is told are those
/// that the request tells last.
pub proof fn law_last_timestamp_and_source_are_told(
    list: Seq<text::Pair>,
    outcomes: Seq<ClockOutcome>,
)
    requires
        contents::PropertiesView::read(list, outcomes).fault is None,
    ensures
        ({
            let read = contents::PropertiesView::read(list, outcomes);
            let sources = list.filter(|p: text::Pair| has_key(p, "__srcId"@));
            &&& read.asked == timestamps(list)
            &&& read.timestamp == if timestamps(list).len() == 0 {
                None
            } else {
                Some(timestamps(list).last())
            }
            &&& read.invoker_id == if sources.len() == 0 {
                None
            } else {
                Some(sources.last().1)
            }
        }),
    decreases list.len(),
{
    reveal(Seq::filter);
    let is_timestamp = |p: text::Pair| has_key(p, "__ts"@);
    let is_source = |p: text::Pair| has_key(p, "__srcId"@);
    let read = contents::PropertiesView::read(list, outcomes);
    if list.len() > 0 {
        let before = contents::PropertiesView::read(list.drop_last(), outcomes);
        assert(before.fault is None);
        law_last_timestamp_and_source_are_told(list.drop_last(), outcomes);
        lemma_keys(list.last().0);
        reveal_strlit("__ts");
        reveal_strlit("__srcId");
        assert("__ts"@.len() != "__srcId"@.len());
        if has_key(list.last(), "__ts"@) {
            assert(list.filter(is_timestamp) == list.drop_last().filter(is_timestamp).push(
                list.last(),
            ));
            assert(timestamps(list) =~= timestamps(list.drop_last()).push(list.last().1));
        } else {
            assert(list.filter(is_timestamp) == list.drop_last().filter(is_timestamp));
        }
        assert(read.asked =~= timestamps(list));
    } else {
        assert(list.filter(is_timestamp) =~= Seq::empty());
        assert(list.filter(is_source) =~= Seq::empty());
        assert(read.asked =~= timestamps(list));
    }
}

/// Reading the user properties of a request ends without a fault exactly if the clock could be
/// updated against each of its timestamps. Otherwise the fault is the first timestamp that the clock
/// could not be updated against, and the clock was asked about those up to it.
pub proof fn law_first_timestamp_that_fails_is_the_fault(
    list: Seq<text::Pair>,
    outcomes: Seq<ClockOutcome>,
)
    ensures
        contents::PropertiesView::read(list, outcomes).fault is None <==> forall|j: int|
            0 <= j < timestamps(list).len() ==> (#[trigger] outcomes[j]) is Updated,
        contents::PropertiesView::read(list, outcomes).fault matches Some((timestamp, outcome)) ==> {
            exists|k: int|
                {
                    &&& 0 <= k < timestamps(list).len()
                    &&& timestamp == timestamps(list)[k]
                    &&& contents::PropertiesView::read(list, outcomes).asked == timestamps(list).take(
                        k + 1,
                    )
                    &&& outcome == #[trigger] outcomes[k]
                    &&& !(outcomes[k] is Updated)
                    &&& forall|j: int| 0 <= j < k ==> (#[trigger] outcomes[j]) is Updated
                }
        },
    decreases list.len(),
{
    reveal(Seq::filter);
    let is_timestamp = |p: text::Pair| has_key(p, "__ts"@);
    let read = contents::PropertiesView::read(list, outcomes);
    if list.len() > 0 {
        let rest = list.drop_last();
        let before = contents::PropertiesView::read(rest, outcomes);
        law_first_timestamp_that_fails_is_the_fault(rest, outcomes);
        lemma_keys(list.last().0);
        let known = timestamps(rest);
        if has_key(list.last(), "__ts"@) {
            assert(list.filter(is_timestamp) == rest.filter(is_timestamp).push(list.last()));
            assert(timestamps(list) =~= known.push(list.last().1));
        } else {
            assert(list.filter(is_timestamp) == rest.filter(is_timestamp));
        }
        if let Some((timestamp, outcome)) = before.fault {
            let k = choose|k: int|
                {
                    &&& 0 <= k < known.len()
                    &&& timestamp == known[k]
                    &&& before.asked == known.take(k + 1)
                    &&& outcome == #[trigger] outcomes[k]
                    &&& !(outcomes[k] is Updated)
                    &&& forall|j: int| 0 <= j < k ==> (#[trigger] outcomes[j]) is Updated
                };
            assert(timestamps(list)[k] == known[k]);
            assert(timestamps(list).take(k + 1) =~= known.take(k + 1));
            assert(!(outcomes[k] is Updated));
        } else {
            law_last_timestamp_and_source_are_told(rest, outcomes);
            assert(before.asked.len() == known.len());
            if has_key(list.last(), "__ts"@) {
                let k = known.len() as int;
                assert(timestamps(list)[k] == list.last().1);
                assert(timestamps(list).take(k + 1) =~= known.push(list.last().1));
                assert(outcomes[k] == outcomes[before.asked.len() as int]);
            }
        }
    } else {
        assert(list.filter(is_timestamp) =~= Seq::empty());
    }
}

/// A request has a version that is supported exactly if the first of its properties that tells a
/// version tells one whose major number is 1, or none of them tells a version.
pub proof fn law_first_version_decides(list: Seq<text::Pair>)
    ensures
        ({
            let versions = list.filter(|p: text::Pair| has_key(p, "__protVer"@));
            &&& contents::version_property(list) == if versions.len() == 0 {
                None
            } else {
                Some(versions[0].1)
            }
            &&& contents::has_supported_version(list) <==> versions.len() == 0 || (
            protocol_version::parsed_version(versions[0].1) matches Some(v) && v.major == 1)
        }),
    decreases list.len(),
{
    reveal(Seq::filter);
    let is_version = |p: text::Pair| has_key(p, "__protVer"@);
    if list.len() > 0 {
        law_first_version_decides(list.drop_last());
        lemma_keys(list.last().0);
    } else {
        assert(list.filter(is_version) =~= Seq::empty());
    }
    let supported = contents::spec_supported_protocol_versions();
    assert(supported[0] == 1);
    assert forall|major: u16| supported.contains(major) implies major == 1 by {}
}

} // verus!
