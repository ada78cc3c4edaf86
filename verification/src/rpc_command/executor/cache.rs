//! Responses that were sent, kept to answer duplicates of their requests.

use bytes::Bytes;
use vstd::prelude::*;

use crate::bytes_data::{self, bytes_clone, bytes_eq};
use crate::common::payload_serialize::{self, SerializedPayload};
use crate::control_packet::{self, PublishProperties};
use crate::mask::{self, retain_where};
use crate::time::Instant;

verus! {

/// Command Executor Cache Key struct.
///
/// Used to uniquely identify a command request.
#[derive(Debug, PartialEq, Eq)]
pub struct CacheKey {
    pub response_topic: String,
    pub correlation_data: Bytes,
}

/// What a [`CacheKey`] stands for.
#[verifier::ext_equal]
pub struct CacheKeyView {
    pub response_topic: Seq<char>,
    pub correlation_data: Seq<u8>,
}

impl View for CacheKey {
    type V = CacheKeyView;

    open spec fn view(&self) -> CacheKeyView {
        CacheKeyView {
            response_topic: self.response_topic@,
            correlation_data: bytes_data::contents(self.correlation_data),
        }
    }
}

impl Clone for CacheKey {
    fn clone(&self) -> (r: Self)
        ensures
            r@ == self@,
    {
        CacheKey {
            response_topic: self.response_topic.clone(),
            correlation_data: bytes_clone(&self.correlation_data),
        }
    }
}

impl CacheKey {
    /// Whether the keys identify the same command request.
    pub fn same_as(&self, other: &CacheKey) -> (r: bool)
        ensures
            r == (self@ == other@),
    {
        let r = self.response_topic == other.response_topic && bytes_eq(
            &self.correlation_data,
            &other.correlation_data,
        );
        assert(r ==> self@ =~= other@);
        r
    }
}

/// Command Executor Cache Entry struct.
#[derive(Debug, PartialEq, Eq)]
pub struct CacheEntry {
    pub serialized_payload: SerializedPayload,
    pub properties: PublishProperties,
    pub expiration_time: Instant,
}

/// What a [`CacheEntry`] stands for.
#[verifier::ext_equal]
pub struct CacheEntryView {
    pub serialized_payload: payload_serialize::SerializedPayloadView,
    pub properties: control_packet::PublishPropertiesView,
    pub expiration_time: nat,
}

impl View for CacheEntry {
    type V = CacheEntryView;

    open spec fn view(&self) -> CacheEntryView {
        CacheEntryView {
            serialized_payload: self.serialized_payload@,
            properties: self.properties@,
            expiration_time: self.expiration_time@,
        }
    }
}

impl Clone for CacheEntry {
    fn clone(&self) -> (r: Self)
        ensures
            r@ == self@,
    {
        CacheEntry {
            serialized_payload: self.serialized_payload.clone(),
            properties: self.properties.clone(),
            expiration_time: self.expiration_time,
        }
    }
}

/// Command Executor Cache Entry Status enum.
///
/// Used to indicate the status of a cache entry.
///
/// Note: It is not possible for a cache entry to be in progress due to the nature of the underlying
/// session. If a command request is received, the session will drop duplicates while the first one
/// is being processed.
#[derive(Debug, PartialEq, Eq)]
pub enum CacheEntryStatus {
    /// The cache entry is cached and has not expired
    Cached(CacheEntry),
    /// The cache entry is expired
    Expired,
    /// The cache entry is not found
    NotFound,
}

/// What a [`CacheEntryStatus`] stands for.
pub enum StatusView {
    Cached(CacheEntryView),
    Expired,
    NotFound,
}

impl View for CacheEntryStatus {
    type V = StatusView;

    open spec fn view(&self) -> StatusView {
        match self {
            CacheEntryStatus::Cached(entry) => StatusView::Cached(entry@),
            CacheEntryStatus::Expired => StatusView::Expired,
            CacheEntryStatus::NotFound => StatusView::NotFound,
        }
    }
}

/// The status of a key in a cache.
pub open spec fn cache_status(
    cache: Map<CacheKeyView, CacheEntryView>,
    key: CacheKeyView,
    now: nat,
) -> StatusView {
    if !cache.contains_key(key) {
        StatusView::NotFound
    } else if cache[key].expiration_time < now {
        StatusView::Expired
    } else {
        StatusView::Cached(cache[key])
    }
}

/// The entries of a cache that have not expired.
pub open spec fn unexpired(
    cache: Map<CacheKeyView, CacheEntryView>,
    now: nat,
) -> Map<CacheKeyView, CacheEntryView> {
    cache.restrict(
        Set::new(|key: CacheKeyView| cache.contains_key(key) && cache[key].expiration_time >= now),
    )
}

/// The Command Executor Cache struct.
///
/// Used to cache command responses and determine if a command request is a duplicate.
pub struct Cache {
    entries: Vec<(CacheKey, CacheEntry)>,
}

/// Whether no two of the entries have the same key.
spec fn distinct_keys(entries: Seq<(CacheKey, CacheEntry)>) -> bool {
    forall|i: int, j: int|
        0 <= i < j < entries.len() ==> (#[trigger] entries[i]).0@ != (#[trigger] entries[j]).0@
}

/// Whether the key is that of an entry.
spec fn has_key(entries: Seq<(CacheKey, CacheEntry)>, key: CacheKeyView) -> bool {
    exists|i: int| 0 <= i < entries.len() && (#[trigger] entries[i]).0@ == key
}

/// The entry with this key.
spec fn entry_of(entries: Seq<(CacheKey, CacheEntry)>, key: CacheKeyView) -> CacheEntryView {
    let i = choose|i: int| 0 <= i < entries.len() && (#[trigger] entries[i]).0@ == key;
    entries[i].1@
}

impl View for Cache {
    type V = Map<CacheKeyView, CacheEntryView>;

    closed spec fn view(&self) -> Map<CacheKeyView, CacheEntryView> {
        Map::new(
            |key: CacheKeyView| has_key(self.entries@, key),
            |key: CacheKeyView| entry_of(self.entries@, key),
        )
    }
}

impl Cache {
    /// No two entries have the same key.
    pub closed spec fn wf(self) -> bool {
        distinct_keys(self.entries@)
    }

    /// An empty cache.
    pub fn new() -> (r: Self)
        ensures
            r.wf(),
            r@ == Map::<CacheKeyView, CacheEntryView>::empty(),
    {
        let r = Cache { entries: Vec::new() };
        assert(r@ =~= Map::<CacheKeyView, CacheEntryView>::empty());
        r
    }

    /// Get a cache entry from the [`Cache`].
    ///
    /// # Arguments
    /// * `key` - The cache key to get the cache entry for.
    /// * `now` - The present time.
    ///
    /// Returns a [`CacheEntryStatus`] indicating the status of the cache entry.
    pub fn get(&self, key: &CacheKey, now: Instant) -> (r: CacheEntryStatus)
        requires
            self.wf(),
        ensures
            r@ == cache_status(self@, key@, now@),
    {
        for i in 0..self.entries.len()
            invariant
                self.wf(),
                forall|j: int| 0 <= j < i ==> (#[trigger] self.entries@[j]).0@ != key@,
        {
            let entry = &self.entries[i];
            if entry.0.same_as(key) {
                assert(has_key(self.entries@, key@));
                assert(entry_of(self.entries@, key@) == entry.1@);
                if entry.1.expiration_time.has_passed(now) {
                    return CacheEntryStatus::Expired;
                }
                return CacheEntryStatus::Cached(entry.1.clone());
            }
        }
        assert(!has_key(self.entries@, key@));
        CacheEntryStatus::NotFound
    }

    /// Set a cache entry in the cache. Also removes expired cache entries.
    ///
    /// # Arguments
    /// * `key` - The cache key to set the cache entry for.
    /// * `entry` - The cache entry to set.
    /// * `now` - The present time.
    pub fn set(&mut self, key: CacheKey, entry: CacheEntry, now: Instant)
        requires
            old(self).wf(),
        ensures
            final(self).wf(),
            final(self)@ == unexpired(old(self)@, now@).insert(key@, entry@),
    {
        let n = self.entries.len();
        let ghost before = self.entries@;
        let mut keep: Vec<bool> = Vec::new();
        for i in 0..n
            invariant
                self.entries@ == before,
                n == before.len(),
                keep@.len() == i,
                forall|j: int|
                    0 <= j < i ==> #[trigger] keep@[j] == (before[j].1@.expiration_time >= now@
                        && before[j].0@ != key@),
        {
            let e = &self.entries[i];
            keep.push(!e.1.expiration_time.has_passed(now) && !e.0.same_as(&key));
        }
        retain_where(&mut self.entries, &keep);
        let ghost kept = self.entries@;
        let ghost flags = keep@;
        let ghost key_view = key@;
        let ghost entry_view = entry@;
        self.entries.push((key, entry));
        proof {
            lemma_kept_keys_distinct(before, flags);
            mask::lemma_keep_where_members(before, flags);
            let after = self.entries@;
            assert forall|i: int| 0 <= i < kept.len() implies (#[trigger] kept[i]).0@ != key_view by {
                assert(mask::is_kept(before, flags, mask::keep_where(before, flags)[i]));
            }
            assert forall|i: int, j: int| 0 <= i < j < after.len() implies (#[trigger] after[i]).0@
                != (#[trigger] after[j]).0@ by {
                assert(after[i] == kept[i]);
                if j < kept.len() {
                    assert(after[j] == kept[j]);
                }
            }
            let wanted = unexpired(old(self)@, now@).insert(key_view, entry_view);
            assert forall|k: CacheKeyView|
                has_key(after, k) == wanted.contains_key(k) && (has_key(after, k) ==> entry_of(after, k)
                    == wanted[k]) by {
                if k == key_view {
                    assert(after[kept.len() as int].0@ == k);
                } else {
                    if has_key(after, k) {
                        let i = choose|i: int| 0 <= i < after.len() && (#[trigger] after[i]).0@ == k;
                        assert(kept[i].0@ == k);
                        assert(has_key(kept, k));
                    }
                    if has_key(kept, k) {
                        let i = choose|i: int| 0 <= i < kept.len() && (#[trigger] kept[i]).0@ == k;
                        assert(mask::is_kept(before, flags, kept[i]));
                        let j = choose|j: int|
                            0 <= j < before.len() && flags[j] && #[trigger] before[j] == kept[i];
                        assert(0 <= j < before.len() && flags[j] && before[j] == kept[i]);
                        assert(has_key(before, k));
                        assert(after[i].0@ == k);
                        assert(entry_of(before, k) == before[j].1@);
                        assert(entry_of(after, k) == after[i].1@);
                    }
                    if wanted.contains_key(k) {
                        let j = choose|j: int| 0 <= j < before.len() && (#[trigger] before[j]).0@ == k;
                        assert(flags[j]);
                        assert(kept.contains(before[j]));
                        let i = kept.index_of(before[j]);
                        assert(after[i].0@ == k);
                    }
                }
            }
            assert(self@ =~= wanted);
        }
    }
}

/// Where no two entries have the same key, no two of those that are kept do.
proof fn lemma_kept_keys_distinct(entries: Seq<(CacheKey, CacheEntry)>, flags: Seq<bool>)
    requires
        entries.len() == flags.len(),
        distinct_keys(entries),
    ensures
        distinct_keys(mask::keep_where(entries, flags)),
    decreases entries.len(),
{
    if entries.len() > 0 {
        let rest = entries.drop_last();
        let rest_flags = flags.drop_last();
        let kept = mask::keep_where(entries, flags);
        let rest_kept = mask::keep_where(rest, rest_flags);
        assert forall|i: int, j: int| 0 <= i < j < rest.len() implies (#[trigger] rest[i]).0@ != (
        #[trigger] rest[j]).0@ by {
            assert(rest[i] == entries[i] && rest[j] == entries[j]);
        }
        lemma_kept_keys_distinct(rest, rest_flags);
        mask::lemma_keep_where_members(rest, rest_flags);
        assert forall|i: int, j: int| 0 <= i < j < kept.len() implies (#[trigger] kept[i]).0@ != (
        #[trigger] kept[j]).0@ by {
            assert(kept[i] == rest_kept[i]);
            if j < rest_kept.len() {
                assert(kept[j] == rest_kept[j]);
            } else {
                assert(mask::is_kept(rest, rest_flags, rest_kept[i]));
                let k = choose|k: int|
                    0 <= k < rest.len() && rest_flags[k] && #[trigger] rest[k] == rest_kept[i];
                assert(entries[k].0@ != entries[entries.len() - 1].0@);
            }
        }
    }
}

/// A response that was set is got back until it expires.
pub proof fn law_get_after_set(
    cache: Map<CacheKeyView, CacheEntryView>,
    key: CacheKeyView,
    entry: CacheEntryView,
    set_at: nat,
    now: nat,
)
    ensures
        cache_status(unexpired(cache, set_at).insert(key, entry), key, now) == if entry.expiration_time
            < now {
            StatusView::Expired
        } else {
            StatusView::Cached(entry)
        },
{
}

/// Setting one response leaves the others that have not expired as they are.
pub proof fn law_set_keeps_other_keys(
    cache: Map<CacheKeyView, CacheEntryView>,
    key: CacheKeyView,
    entry: CacheEntryView,
    set_at: nat,
    other: CacheKeyView,
    now: nat,
)
    requires
        other != key,
    ensures
        cache_status(unexpired(cache, set_at).insert(key, entry), other, now) == if cache_status(
            cache,
            other,
            set_at,
        ) is Cached {
            cache_status(cache, other, now)
        } else {
            StatusView::NotFound
        },
{
}

/// No response stays cached beyond the first set after it expired.
pub proof fn law_set_removes_expired(
    cache: Map<CacheKeyView, CacheEntryView>,
    key: CacheKeyView,
    entry: CacheEntryView,
    set_at: nat,
    other: CacheKeyView,
)
    requires
        other != key,
        cache_status(cache, other, set_at) is Expired,
    ensures
        !unexpired(cache, set_at).insert(key, entry).contains_key(other),
{
}

} // verus!
