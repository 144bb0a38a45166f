//! A bounded store of resolved locations whose entries expire.
//!
//! Time is a reading of a monotonic clock in nanoseconds; the store never
//! reads a clock itself, every operation is told the time.

use vstd::prelude::*;
use vstd::string::*;
use crate::location::{location_option_view, LocationInfo, LocationView};
use crate::text::same_text;

verus! {

/// Nanoseconds in one second.
pub const NANOS_PER_SECOND: u64 = 1_000_000_000;

/// What the store holds for one key: the record and when it was put there.
pub ghost struct CachedLocation {
    pub location: LocationView,
    pub inserted_at: u64,
}

/// The age at `now` of an entry put at `inserted_at`. A clock reading that
/// lies before the insertion counts as no time passed.
pub open spec fn age(now: u64, inserted_at: u64) -> int {
    if now >= inserted_at {
        now - inserted_at
    } else {
        0
    }
}

/// An entry is fresh while its age is below the time to live.
pub open spec fn is_fresh(inserted_at: u64, now: u64, ttl_seconds: u64) -> bool {
    age(now, inserted_at) < ttl_seconds * NANOS_PER_SECOND
}

/// What a lookup of `key` at `now` answers on the given contents: the record
/// of a fresh entry, and nothing where the key is unknown or its entry has
/// expired.
pub open spec fn lookup(
    contents: Map<Seq<char>, CachedLocation>,
    key: Seq<char>,
    now: u64,
    ttl_seconds: u64,
) -> Option<LocationView> {
    if contents.dom().contains(key) && is_fresh(contents[key].inserted_at, now, ttl_seconds) {
        Some(contents[key].location)
    } else {
        None
    }
}

/// The contents without the entries that have expired at `now`.
pub open spec fn sweep_of(contents: Map<Seq<char>, CachedLocation>, now: u64, ttl_seconds: u64) -> Map<
    Seq<char>,
    CachedLocation,
> {
    Map::new(
        |key: Seq<char>|
            contents.dom().contains(key) && is_fresh(contents[key].inserted_at, now, ttl_seconds),
        |key: Seq<char>| contents[key],
    )
}

/// What is left of `before` when room is made for one more entry at `now`.
///
/// Below capacity nothing leaves. At capacity the expired entries leave; if
/// that does not make room, entries leave oldest first until one place below
/// the capacity is reached. Which of two entries of the same age leaves is
/// left open.
pub open spec fn room_made(
    before: Map<Seq<char>, CachedLocation>,
    kept: Map<Seq<char>, CachedLocation>,
    now: u64,
    ttl_seconds: u64,
    max_entries: usize,
) -> bool {
    let swept = sweep_of(before, now, ttl_seconds);
    if before.len() < max_entries {
        kept == before
    } else if swept.len() < max_entries {
        kept == swept
    } else {
        &&& kept.submap_of(swept)
        &&& kept.dom().finite()
        &&& kept.len() == if max_entries == 0 {
            0
        } else {
            max_entries - 1
        }
        &&& forall|gone: Seq<char>, stays: Seq<char>|
            swept.dom().contains(gone) && !kept.dom().contains(gone) && kept.dom().contains(stays)
                ==> swept[gone].inserted_at <= swept[stays].inserted_at
    }
}

/// What holds of the contents after `record` was put under `key` at `now`:
/// room was made as [`room_made`] says, then the entry was written, in place
/// of an earlier one for the same key if there was one.
pub open spec fn put_result(
    before: Map<Seq<char>, CachedLocation>,
    after: Map<Seq<char>, CachedLocation>,
    key: Seq<char>,
    record: LocationView,
    now: u64,
    ttl_seconds: u64,
    max_entries: usize,
) -> bool {
    exists|kept: Map<Seq<char>, CachedLocation>|
        #![trigger room_made(before, kept, now, ttl_seconds, max_entries)]
        room_made(before, kept, now, ttl_seconds, max_entries) && after == kept.insert(
            key,
            CachedLocation { location: record, inserted_at: now },
        )
}

/// The largest number of entries a store of the given capacity ever holds: a
/// put always writes its entry, so a store of capacity zero holds one.
pub open spec fn size_bound(max_entries: usize) -> int {
    if max_entries == 0 {
        1
    } else {
        max_entries as int
    }
}

/// An entry that has expired at `now` was written no later than one that is
/// still fresh.
pub proof fn lemma_expired_is_older(expired_at: u64, fresh_at: u64, now: u64, ttl_seconds: u64)
    requires
        !is_fresh(expired_at, now, ttl_seconds),
        is_fresh(fresh_at, now, ttl_seconds),
    ensures
        expired_at <= fresh_at,
{
}

/// Expiry: an entry written at `inserted_at` is found by every lookup made
/// less than the time to live later, and by none made from then on.
pub proof fn lemma_ttl_expiry(
    before: Map<Seq<char>, CachedLocation>,
    after: Map<Seq<char>, CachedLocation>,
    key: Seq<char>,
    record: LocationView,
    inserted_at: u64,
    ttl_seconds: u64,
    max_entries: usize,
    now: u64,
)
    requires
        put_result(before, after, key, record, inserted_at, ttl_seconds, max_entries),
    ensures
        now >= inserted_at + ttl_seconds * NANOS_PER_SECOND ==> lookup(after, key, now, ttl_seconds)
            is None,
        inserted_at <= now < inserted_at + ttl_seconds * NANOS_PER_SECOND ==> lookup(
            after,
            key,
            now,
            ttl_seconds,
        ) == Some(record),
        lookup(after, key, now, ttl_seconds) == if is_fresh(inserted_at, now, ttl_seconds) {
            Some(record)
        } else {
            None
        },
{
}

/// Capacity: a put into a store that holds no more than its capacity leaves
/// it holding no more than its capacity, provided the capacity is not zero.
pub proof fn lemma_capacity(
    before: Map<Seq<char>, CachedLocation>,
    after: Map<Seq<char>, CachedLocation>,
    key: Seq<char>,
    record: LocationView,
    now: u64,
    ttl_seconds: u64,
    max_entries: usize,
)
    requires
        before.dom().finite(),
        before.len() <= max_entries,
        max_entries >= 1,
        put_result(before, after, key, record, now, ttl_seconds, max_entries),
    ensures
        after.dom().finite(),
        after.len() <= max_entries,
{
    let kept = choose|kept: Map<Seq<char>, CachedLocation>|
        #![trigger room_made(before, kept, now, ttl_seconds, max_entries)]
        room_made(before, kept, now, ttl_seconds, max_entries) && after == kept.insert(
            key,
            CachedLocation { location: record, inserted_at: now },
        );
    let swept = sweep_of(before, now, ttl_seconds);
    assert(swept.dom().subset_of(before.dom()));
    vstd::set_lib::lemma_len_subset(swept.dom(), before.dom());
    assert(kept.dom().finite());
    assert(kept.len() + 1 <= max_entries);
}

/// Oldest first: whatever a put drops was written no later than whatever it
/// keeps, so the entries that stay are the most recently written ones.
pub proof fn lemma_oldest_leave_first(
    before: Map<Seq<char>, CachedLocation>,
    after: Map<Seq<char>, CachedLocation>,
    key: Seq<char>,
    record: LocationView,
    now: u64,
    ttl_seconds: u64,
    max_entries: usize,
    gone: Seq<char>,
    stays: Seq<char>,
)
    requires
        put_result(before, after, key, record, now, ttl_seconds, max_entries),
        before.dom().contains(gone),
        !after.dom().contains(gone),
        after.dom().contains(stays),
        stays != key,
    ensures
        before.dom().contains(stays),
        after[stays] == before[stays],
        before[gone].inserted_at <= before[stays].inserted_at,
{
    let kept = choose|kept: Map<Seq<char>, CachedLocation>|
        #![trigger room_made(before, kept, now, ttl_seconds, max_entries)]
        room_made(before, kept, now, ttl_seconds, max_entries) && after == kept.insert(
            key,
            CachedLocation { location: record, inserted_at: now },
        );
    let swept = sweep_of(before, now, ttl_seconds);
    assert(kept.dom().contains(stays));
    assert(!kept.dom().contains(gone));
    if before.len() < max_entries {
    } else {
        assert(swept.dom().contains(stays) && swept[stays] == kept[stays]);
        if !swept.dom().contains(gone) {
            lemma_expired_is_older(
                before[gone].inserted_at,
                before[stays].inserted_at,
                now,
                ttl_seconds,
            );
        }
    }
}

/// A put changes nothing but the entry it writes and the entries it drops.
pub proof fn lemma_put_keeps_the_rest(
    before: Map<Seq<char>, CachedLocation>,
    after: Map<Seq<char>, CachedLocation>,
    key: Seq<char>,
    record: LocationView,
    now: u64,
    ttl_seconds: u64,
    max_entries: usize,
    other: Seq<char>,
)
    requires
        put_result(before, after, key, record, now, ttl_seconds, max_entries),
        after.dom().contains(other),
        other != key,
    ensures
        before.dom().contains(other),
        after[other] == before[other],
{
    let kept = choose|kept: Map<Seq<char>, CachedLocation>|
        #![trigger room_made(before, kept, now, ttl_seconds, max_entries)]
        room_made(before, kept, now, ttl_seconds, max_entries) && after == kept.insert(
            key,
            CachedLocation { location: record, inserted_at: now },
        );
    let swept = sweep_of(before, now, ttl_seconds);
    assert(kept.dom().contains(other));
    if before.len() >= max_entries {
        assert(swept.dom().contains(other) && swept[other] == kept[other]);
    }
}

#[derive(Debug)]
struct CacheEntry {
    key: String,
    location: LocationInfo,
    timestamp: u64,
}

spec fn entry_view(entry: CacheEntry) -> CachedLocation {
    CachedLocation { location: entry.location@, inserted_at: entry.timestamp }
}

spec fn has_key(entries: Seq<CacheEntry>, key: Seq<char>) -> bool {
    exists|i: int| 0 <= i < entries.len() && (#[trigger] entries[i]).key@ == key
}

spec fn index_of(entries: Seq<CacheEntry>, key: Seq<char>) -> int {
    choose|i: int| 0 <= i < entries.len() && (#[trigger] entries[i]).key@ == key
}

spec fn unique_keys(entries: Seq<CacheEntry>) -> bool {
    forall|i: int, j: int|
        0 <= i < j < entries.len() ==> (#[trigger] entries[i]).key@ != (#[trigger] entries[j]).key@
}

spec fn contents(entries: Seq<CacheEntry>) -> Map<Seq<char>, CachedLocation> {
    Map::new(
        |key: Seq<char>| has_key(entries, key),
        |key: Seq<char>| entry_view(entries[index_of(entries, key)]),
    )
}

spec fn entry_is_fresh(entry: CacheEntry, now: u64, ttl_seconds: u64) -> bool {
    is_fresh(entry.timestamp, now, ttl_seconds)
}

/// The fresh entries of `entries`, in their order.
spec fn fresh_part(entries: Seq<CacheEntry>, now: u64, ttl_seconds: u64) -> Seq<CacheEntry>
    decreases entries.len(),
{
    if entries.len() == 0 {
        Seq::empty()
    } else {
        let rest = fresh_part(entries.drop_last(), now, ttl_seconds);
        if entry_is_fresh(entries.last(), now, ttl_seconds) {
            rest.push(entries.last())
        } else {
            rest
        }
    }
}

spec fn older_than_all(timestamp: u64, entries: Seq<CacheEntry>) -> bool {
    forall|j: int| 0 <= j < entries.len() ==> timestamp <= (#[trigger] entries[j]).timestamp
}

/// With unique keys, the contents hold each entry under its key.
proof fn lemma_contents_at(entries: Seq<CacheEntry>, i: int)
    requires
        unique_keys(entries),
        0 <= i < entries.len(),
    ensures
        contents(entries).dom().contains(entries[i].key@),
        contents(entries)[entries[i].key@] == entry_view(entries[i]),
{
    let key = entries[i].key@;
    assert(has_key(entries, key));
    let j = index_of(entries, key);
    assert(0 <= j < entries.len() && entries[j].key@ == key);
    if i < j {
        assert(entries[i].key@ != entries[j].key@);
    } else if j < i {
        assert(entries[j].key@ != entries[i].key@);
    }
}

spec fn keys_of(entries: Seq<CacheEntry>) -> Seq<Seq<char>> {
    entries.map_values(|entry: CacheEntry| entry.key@)
}

/// With unique keys, the contents hold as many entries as the sequence.
proof fn lemma_contents_len(entries: Seq<CacheEntry>)
    requires
        unique_keys(entries),
    ensures
        contents(entries).dom().finite(),
        contents(entries).len() == entries.len(),
{
    let keys = keys_of(entries);
    assert(keys.no_duplicates()) by {
        assert forall|i: int, j: int| 0 <= i < keys.len() && 0 <= j < keys.len() && i != j implies keys[i]
            != keys[j] by {
            if i < j {
                assert(entries[i].key@ != entries[j].key@);
            } else {
                assert(entries[j].key@ != entries[i].key@);
            }
        }
    }
    keys.unique_seq_to_set();
    vstd::seq_lib::seq_to_set_is_finite(keys);
    assert(contents(entries).dom() =~= keys.to_set()) by {
        assert forall|key: Seq<char>| contents(entries).dom().contains(key) implies keys.to_set().contains(
            key,
        ) by {
            let i = index_of(entries, key);
            assert(keys[i] == key);
        }
        assert forall|key: Seq<char>| keys.to_set().contains(key) implies contents(entries).dom().contains(
            key,
        ) by {
            let i = choose|i: int| 0 <= i < keys.len() && keys[i] == key;
            assert(entries[i].key@ == key);
        }
    }
}

/// What `fresh_part` keeps: the fresh entries, each of them, with unique keys
/// where the keys were unique.
proof fn lemma_fresh_part(entries: Seq<CacheEntry>, now: u64, ttl_seconds: u64)
    ensures
        fresh_part(entries, now, ttl_seconds).len() <= entries.len(),
        forall|j: int|
            0 <= j < fresh_part(entries, now, ttl_seconds).len() ==> entries.contains(
                #[trigger] fresh_part(entries, now, ttl_seconds)[j],
            ) && entry_is_fresh(fresh_part(entries, now, ttl_seconds)[j], now, ttl_seconds),
        forall|i: int|
            0 <= i < entries.len() && entry_is_fresh(#[trigger] entries[i], now, ttl_seconds)
                ==> fresh_part(entries, now, ttl_seconds).contains(entries[i]),
        unique_keys(entries) ==> unique_keys(fresh_part(entries, now, ttl_seconds)),
    decreases entries.len(),
{
    let part = fresh_part(entries, now, ttl_seconds);
    if entries.len() > 0 {
        let shorter = entries.drop_last();
        let rest = fresh_part(shorter, now, ttl_seconds);
        lemma_fresh_part(shorter, now, ttl_seconds);
        assert forall|j: int| 0 <= j < part.len() implies entries.contains(#[trigger] part[j])
            && entry_is_fresh(part[j], now, ttl_seconds) by {
            if j < rest.len() {
                assert(shorter.contains(rest[j]));
                let i = choose|i: int| 0 <= i < shorter.len() && shorter[i] == rest[j];
                assert(entries[i] == part[j]);
            } else {
                assert(entries[entries.len() - 1] == part[j]);
            }
        }
        assert forall|i: int|
            0 <= i < entries.len() && entry_is_fresh(
                #[trigger] entries[i],
                now,
                ttl_seconds,
            ) implies part.contains(entries[i]) by {
            if i < shorter.len() {
                assert(shorter[i] == entries[i]);
                assert(rest.contains(shorter[i]));
                let j = choose|j: int| 0 <= j < rest.len() && rest[j] == shorter[i];
                assert(part[j] == entries[i]);
            } else {
                assert(part[part.len() - 1] == entries[i]);
            }
        }
        if unique_keys(entries) {
            assert(unique_keys(shorter)) by {
                assert forall|i: int, j: int| 0 <= i < j < shorter.len() implies (
                #[trigger] shorter[i]).key@ != (#[trigger] shorter[j]).key@ by {
                    assert(entries[i].key@ != entries[j].key@);
                }
            }
            assert forall|i: int, j: int| 0 <= i < j < part.len() implies (#[trigger] part[i]).key@ != (
            #[trigger] part[j]).key@ by {
                if j < rest.len() {
                    assert(rest[i].key@ != rest[j].key@);
                } else {
                    assert(shorter.contains(rest[i]));
                    let k = choose|k: int| 0 <= k < shorter.len() && shorter[k] == rest[i];
                    assert(entries[k].key@ != entries[entries.len() - 1].key@);
                }
            }
        }
    }
}

/// The contents of the fresh part are the swept contents.
proof fn lemma_fresh_part_contents(entries: Seq<CacheEntry>, now: u64, ttl_seconds: u64)
    requires
        unique_keys(entries),
    ensures
        unique_keys(fresh_part(entries, now, ttl_seconds)),
        contents(fresh_part(entries, now, ttl_seconds)) == sweep_of(
            contents(entries),
            now,
            ttl_seconds,
        ),
{
    let part = fresh_part(entries, now, ttl_seconds);
    let swept = sweep_of(contents(entries), now, ttl_seconds);
    lemma_fresh_part(entries, now, ttl_seconds);
    assert forall|key: Seq<char>| contents(part).dom().contains(key) implies swept.dom().contains(key)
        && swept[key] == contents(part)[key] by {
        let j = index_of(part, key);
        lemma_contents_at(part, j);
        assert(entries.contains(part[j]));
        let i = choose|i: int| 0 <= i < entries.len() && entries[i] == part[j];
        lemma_contents_at(entries, i);
    }
    assert forall|key: Seq<char>| swept.dom().contains(key) implies contents(part).dom().contains(
        key,
    ) by {
        let i = index_of(entries, key);
        lemma_contents_at(entries, i);
        assert(entry_is_fresh(entries[i], now, ttl_seconds));
        assert(part.contains(entries[i]));
        let j = choose|j: int| 0 <= j < part.len() && part[j] == entries[i];
        assert(part[j].key@ == key);
    }
    assert(contents(part) =~= swept);
}

/// Writing an entry under a new key adds it to the contents.
proof fn lemma_contents_push(entries: Seq<CacheEntry>, entry: CacheEntry)
    requires
        unique_keys(entries),
        !has_key(entries, entry.key@),
    ensures
        unique_keys(entries.push(entry)),
        contents(entries.push(entry)) == contents(entries).insert(entry.key@, entry_view(entry)),
{
    let longer = entries.push(entry);
    assert forall|i: int, j: int| 0 <= i < j < longer.len() implies (#[trigger] longer[i]).key@ != (
    #[trigger] longer[j]).key@ by {
        if j < entries.len() {
            assert(entries[i].key@ != entries[j].key@);
        } else {
            assert(entries[i].key@ != entry.key@);
        }
    }
    let target = contents(entries).insert(entry.key@, entry_view(entry));
    assert forall|key: Seq<char>| contents(longer).dom().contains(key) implies target.dom().contains(key)
        && target[key] == contents(longer)[key] by {
        let j = index_of(longer, key);
        lemma_contents_at(longer, j);
        if j < entries.len() {
            lemma_contents_at(entries, j);
        }
    }
    assert forall|key: Seq<char>| target.dom().contains(key) implies contents(longer).dom().contains(
        key,
    ) by {
        if key == entry.key@ {
            assert(longer[entries.len() as int].key@ == key);
        } else {
            let i = index_of(entries, key);
            assert(longer[i].key@ == key);
        }
    }
    assert(contents(longer) =~= target);
}

/// Writing an entry in place of the one that has its key replaces it in the
/// contents.
proof fn lemma_contents_update(entries: Seq<CacheEntry>, at: int, entry: CacheEntry)
    requires
        unique_keys(entries),
        0 <= at < entries.len(),
        entries[at].key@ == entry.key@,
    ensures
        unique_keys(entries.update(at, entry)),
        contents(entries.update(at, entry)) == contents(entries).insert(
            entry.key@,
            entry_view(entry),
        ),
{
    let changed = entries.update(at, entry);
    assert forall|i: int, j: int| 0 <= i < j < changed.len() implies (#[trigger] changed[i]).key@ != (
    #[trigger] changed[j]).key@ by {
        assert(entries[i].key@ != entries[j].key@);
    }
    let target = contents(entries).insert(entry.key@, entry_view(entry));
    assert forall|key: Seq<char>| contents(changed).dom().contains(key) implies target.dom().contains(
        key,
    ) && target[key] == contents(changed)[key] by {
        let j = index_of(changed, key);
        lemma_contents_at(changed, j);
        lemma_contents_at(entries, j);
    }
    assert forall|key: Seq<char>| target.dom().contains(key) implies contents(changed).dom().contains(
        key,
    ) by {
        if key == entry.key@ {
            assert(changed[at].key@ == key);
        } else {
            let i = index_of(entries, key);
            assert(changed[i].key@ == key);
        }
    }
    assert(contents(changed) =~= target);
}

fn fresh(timestamp: u64, now: u64, ttl_seconds: u64) -> (yes: bool)
    ensures
        yes == is_fresh(timestamp, now, ttl_seconds),
{
    let elapsed: u64 = if now >= timestamp {
        now - timestamp
    } else {
        0
    };
    (elapsed as u128) < (ttl_seconds as u128) * (NANOS_PER_SECOND as u128)
}

/// The place of the entry with the given key.
fn find(entries: &Vec<CacheEntry>, key: &str) -> (found: Option<usize>)
    ensures
        match found {
            Some(at) => at < entries@.len() && entries@[at as int].key@ == key@,
            None => !has_key(entries@, key@),
        },
{
    let mut i: usize = 0;
    while i < entries.len()
        invariant
            i <= entries@.len(),
            forall|j: int| 0 <= j < i ==> (#[trigger] entries@[j]).key@ != key@,
        decreases entries@.len() - i,
    {
        if same_text(entries[i].key.as_str(), key) {
            return Some(i);
        }
        i += 1;
    }
    None
}

/// Removes the expired entries.
fn sweep(entries: &mut Vec<CacheEntry>, now: u64, ttl_seconds: u64)
    ensures
        final(entries)@ == fresh_part(old(entries)@, now, ttl_seconds),
{
    let ghost all = entries@;
    let ghost mut seen: int = 0;
    let mut i: usize = 0;
    while i < entries.len()
        invariant
            all == old(entries)@,
            0 <= seen <= all.len(),
            i == fresh_part(all.subrange(0, seen), now, ttl_seconds).len(),
            entries@ == fresh_part(all.subrange(0, seen), now, ttl_seconds) + all.subrange(
                seen,
                all.len() as int,
            ),
        decreases entries@.len() - i,
    {
        proof {
            assert(entries@[i as int] == all[seen]);
            assert(all.subrange(0, seen + 1).drop_last() =~= all.subrange(0, seen));
            assert(all.subrange(0, seen + 1).last() == all[seen]);
        }
        if fresh(entries[i].timestamp, now, ttl_seconds) {
            proof {
                assert(entries@ =~= fresh_part(all.subrange(0, seen + 1), now, ttl_seconds)
                    + all.subrange(seen + 1, all.len() as int));
                seen = seen + 1;
            }
            i += 1;
        } else {
            let ghost before = entries@;
            entries.remove(i);
            proof {
                assert(entries@ =~= fresh_part(all.subrange(0, seen + 1), now, ttl_seconds)
                    + all.subrange(seen + 1, all.len() as int));
                seen = seen + 1;
            }
        }
    }
    proof {
        assert(seen == all.len()) by {
            assert(entries@.len() == i + (all.len() - seen));
        }
        assert(all.subrange(0, seen) =~= all);
        assert(entries@ =~= fresh_part(all, now, ttl_seconds));
    }
}

/// The place of an entry that is at least as old as every other.
fn oldest(entries: &Vec<CacheEntry>) -> (at: usize)
    requires
        entries@.len() > 0,
    ensures
        at < entries@.len(),
        older_than_all(entries@[at as int].timestamp, entries@),
{
    let mut at: usize = 0;
    let mut i: usize = 1;
    while i < entries.len()
        invariant
            at < i <= entries@.len(),
            forall|j: int| 0 <= j < i ==> entries@[at as int].timestamp <= (
            #[trigger] entries@[j]).timestamp,
        decreases entries@.len() - i,
    {
        if entries[i].timestamp < entries[at].timestamp {
            at = i;
        }
        i += 1;
    }
    at
}

/// Removes `count` entries, oldest first, or all of them where there are
/// no more than `count`.
fn evict_oldest(entries: &mut Vec<CacheEntry>, count: usize)
    requires
        unique_keys(old(entries)@),
    ensures
        unique_keys(final(entries)@),
        final(entries)@.len() == if count >= old(entries)@.len() {
            0
        } else {
            old(entries)@.len() - count
        },
        forall|j: int|
            0 <= j < final(entries)@.len() ==> old(entries)@.contains(#[trigger] final(entries)@[j]),
        forall|i: int|
            0 <= i < old(entries)@.len() ==> final(entries)@.contains(#[trigger] old(entries)@[i])
                || older_than_all(old(entries)@[i].timestamp, final(entries)@),
{
    let ghost all = entries@;
    let mut removed: usize = 0;
    while removed < count && entries.len() > 0
        invariant
            all == old(entries)@,
            removed <= count,
            entries@.len() + removed == all.len(),
            unique_keys(entries@),
            forall|j: int| 0 <= j < entries@.len() ==> all.contains(#[trigger] entries@[j]),
            forall|i: int|
                0 <= i < all.len() ==> entries@.contains(#[trigger] all[i]) || older_than_all(
                    all[i].timestamp,
                    entries@,
                ),
        decreases entries@.len(),
    {
        let at = oldest(entries);
        let ghost before = entries@;
        entries.remove(at);
        removed += 1;
        proof {
            let after = entries@;
            assert(after == before.remove(at as int));
            assert forall|j: int| 0 <= j < after.len() implies before.contains(#[trigger] after[j])
                && all.contains(after[j]) by {
                if j < at {
                    assert(before[j] == after[j]);
                } else {
                    assert(before[j + 1] == after[j]);
                }
            }
            assert forall|i: int, j: int| 0 <= i < j < after.len() implies (#[trigger] after[i]).key@ != (
            #[trigger] after[j]).key@ by {
                let bi = if i < at { i } else { i + 1 };
                let bj = if j < at { j } else { j + 1 };
                assert(before[bi].key@ != before[bj].key@);
            }
            assert forall|t: u64| older_than_all(t, before) implies older_than_all(t, after) by {
                assert forall|j: int| 0 <= j < after.len() implies t <= (#[trigger] after[j]).timestamp by {
                    let bj = if j < at { j } else { j + 1 };
                    assert(before[bj] == after[j]);
                }
            }
            assert forall|i: int| 0 <= i < all.len() implies after.contains(#[trigger] all[i])
                || older_than_all(all[i].timestamp, after) by {
                if before.contains(all[i]) {
                    let k = choose|k: int| 0 <= k < before.len() && before[k] == all[i];
                    if k < at {
                        assert(after[k] == all[i]);
                    } else if k > at {
                        assert(after[k - 1] == all[i]);
                    } else {
                        assert(older_than_all(before[at as int].timestamp, before));
                    }
                } else {
                    assert(older_than_all(all[i].timestamp, before));
                }
            }
        }
    }
}

/// A store of resolved locations, keyed by IP address, that holds a bounded
/// number of entries and lets each expire a fixed time after it was written.
#[derive(Debug)]
pub struct CacheStore {
    entries: Vec<CacheEntry>,
    ttl_seconds: u64,
    max_entries: usize,
}

impl CacheStore {
    #[verifier::type_invariant]
    spec fn inv(self) -> bool {
        &&& unique_keys(self.entries@)
        &&& self.entries@.len() <= size_bound(self.max_entries)
    }

    /// What the store holds: for each key the record and its time of insertion.
    pub closed spec fn view(&self) -> Map<Seq<char>, CachedLocation> {
        contents(self.entries@)
    }

    /// The time to live of an entry, in seconds.
    pub closed spec fn ttl(&self) -> u64 {
        self.ttl_seconds
    }

    /// The number of entries the store is meant to hold at most.
    pub closed spec fn capacity(&self) -> usize {
        self.max_entries
    }

    /// An empty store with the given time to live and capacity.
    pub fn new(ttl_seconds: u64, max_entries: usize) -> (store: Self)
        ensures
            store@ == Map::<Seq<char>, CachedLocation>::empty(),
            store.ttl() == ttl_seconds,
            store.capacity() == max_entries,
    {
        let store = CacheStore { entries: Vec::new(), ttl_seconds, max_entries };
        assert(store@ =~= Map::<Seq<char>, CachedLocation>::empty());
        store
    }

    /// The time to live of an entry, in seconds.
    pub fn ttl_seconds(&self) -> (ttl: u64)
        ensures
            ttl == self.ttl(),
    {
        self.ttl_seconds
    }

    /// The number of entries the store is meant to hold at most.
    pub fn max_entries(&self) -> (max: usize)
        ensures
            max == self.capacity(),
    {
        self.max_entries
    }

    /// The number of entries held, expired ones included.
    pub fn size(&self) -> (n: usize)
        ensures
            self@.dom().finite(),
            n == self@.len(),
            n <= size_bound(self.capacity()),
    {
        proof {
            use_type_invariant(&*self);
            lemma_contents_len(self.entries@);
        }
        self.entries.len()
    }

    /// Looks `key` up at time `now`: a copy of the record of a fresh entry,
    /// or `None` where there is no entry or it has expired. The store is not
    /// changed.
    pub fn get(&self, key: &str, now: u64) -> (hit: Option<LocationInfo>)
        ensures
            location_option_view(hit) == lookup(self@, key@, now, self.ttl()),
    {
        proof {
            use_type_invariant(&*self);
        }
        match find(&self.entries, key) {
            Some(at) => {
                proof {
                    lemma_contents_at(self.entries@, at as int);
                }
                if fresh(self.entries[at].timestamp, now, self.ttl_seconds) {
                    Some(self.entries[at].location.clone())
                } else {
                    None
                }
            },
            None => None,
        }
    }

    /// Writes `record` under `key` with the time `now`, in place of an
    /// earlier entry for the key. A store that is at capacity first drops
    /// its expired entries and then, if it must, its oldest ones.
    pub fn put(&mut self, key: &str, record: &LocationInfo, now: u64)
        ensures
            final(self).ttl() == old(self).ttl(),
            final(self).capacity() == old(self).capacity(),
            old(self)@.dom().finite(),
            final(self)@.dom().finite(),
            put_result(
                old(self)@,
                final(self)@,
                key@,
                record@,
                now,
                old(self).ttl(),
                old(self).capacity(),
            ),
            final(self)@.len() <= size_bound(old(self).capacity()),
    {
        proof {
            use_type_invariant(&*self);
        }
        let ttl_seconds = self.ttl_seconds;
        let max_entries = self.max_entries;
        let mut entries: Vec<CacheEntry> = Vec::new();
        std::mem::swap(&mut entries, &mut self.entries);
        let ghost before = entries@;
        proof {
            lemma_contents_len(before);
        }
        if entries.len() >= max_entries {
            sweep(&mut entries, now, ttl_seconds);
            let ghost swept = entries@;
            proof {
                lemma_fresh_part(before, now, ttl_seconds);
                lemma_fresh_part_contents(before, now, ttl_seconds);
                lemma_contents_len(swept);
            }
            if entries.len() >= max_entries {
                let count: usize = entries.len() - max_entries + 1;
                evict_oldest(&mut entries, count);
                proof {
                    let kept = entries@;
                    lemma_contents_len(kept);
                    assert forall|key: Seq<char>| contents(kept).dom().contains(key) implies contents(
                        swept,
                    ).dom().contains(key) && contents(swept)[key] == contents(kept)[key] by {
                        let j = index_of(kept, key);
                        lemma_contents_at(kept, j);
                        assert(swept.contains(kept[j]));
                        let i = choose|i: int| 0 <= i < swept.len() && swept[i] == kept[j];
                        lemma_contents_at(swept, i);
                    }
                    assert(contents(kept).submap_of(contents(swept)));
                    assert forall|gone: Seq<char>, stays: Seq<char>|
                        contents(swept).dom().contains(gone) && !contents(kept).dom().contains(gone)
                            && contents(kept).dom().contains(stays) implies contents(
                        swept,
                    )[gone].inserted_at <= contents(swept)[stays].inserted_at by {
                        let i = index_of(swept, gone);
                        lemma_contents_at(swept, i);
                        let j = index_of(kept, stays);
                        lemma_contents_at(kept, j);
                        if kept.contains(swept[i]) {
                            let k = choose|k: int| 0 <= k < kept.len() && kept[k] == swept[i];
                            lemma_contents_at(kept, k);
                        } else {
                            assert(older_than_all(swept[i].timestamp, kept));
                            assert(swept[i].timestamp <= kept[j].timestamp);
                        }
                    }
                }
            }
        }
        let ghost kept = entries@;
        proof {
            lemma_contents_len(kept);
            assert(room_made(contents(before), contents(kept), now, ttl_seconds, max_entries));
        }
        let entry = CacheEntry { key: String::from_str(key), location: record.clone(), timestamp: now };
        match find(&entries, key) {
            Some(at) => {
                proof {
                    lemma_contents_update(kept, at as int, entry);
                }
                entries.set(at, entry);
            },
            None => {
                proof {
                    lemma_contents_push(kept, entry);
                }
                entries.push(entry);
            },
        }
        proof {
            lemma_contents_len(entries@);
        }
        self.entries = entries;
    }

    /// How many entries the store holds, and how many of them are fresh at
    /// `now`. The store is not changed.
    pub fn stats(&self, now: u64) -> (counts: (usize, usize))
        ensures
            self@.dom().finite(),
            counts.0 == self@.len(),
            sweep_of(self@, now, self.ttl()).dom().finite(),
            counts.1 == sweep_of(self@, now, self.ttl()).len(),
    {
        proof {
            use_type_invariant(&*self);
            lemma_contents_len(self.entries@);
        }
        let ghost all = self.entries@;
        let mut valid: usize = 0;
        let mut i: usize = 0;
        while i < self.entries.len()
            invariant
                all == self.entries@,
                i <= all.len(),
                valid <= i,
                valid == fresh_part(all.subrange(0, i as int), now, self.ttl_seconds).len(),
            decreases all.len() - i,
        {
            proof {
                assert(all.subrange(0, i + 1).drop_last() =~= all.subrange(0, i as int));
                assert(all.subrange(0, i + 1).last() == all[i as int]);
            }
            if fresh(self.entries[i].timestamp, now, self.ttl_seconds) {
                valid += 1;
            }
            i += 1;
        }
        proof {
            assert(all.subrange(0, i as int) =~= all);
            lemma_fresh_part_contents(all, now, self.ttl_seconds);
            lemma_contents_len(fresh_part(all, now, self.ttl_seconds));
        }
        (self.entries.len(), valid)
    }
}

} // verus!
