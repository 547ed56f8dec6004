//! What the cache-aside protocol guarantees over time.
//!
//! A catalogue model holds the durable store, the cache with each entry's
//! lapse moment, and the clock. The runs below compose the very decision
//! functions the caller executes (the cache module's spec twins) with the
//! collaborators' documented effects: a cache read sees an entry until it
//! lapses, a fill installs one for its lifetime, an invalidation deletes one,
//! and the store is read and written by identifier. The laws: a read served
//! within a fill's lifetime returns the byte-identical payload with no further
//! store read; a read after a committed update returns the new payload, never
//! a stale one; a read after a committed deletion is missing even though a
//! cache entry had existed; and a creation publishes exactly one event,
//! carrying the new identifier, whose failure fails the creation although the
//! record is already durable.

use vstd::prelude::*;

use crate::cache::{
    spec_absorb_planet_fetch, spec_complete_create, spec_invalid_id_message,
    spec_missing_planet_message, spec_plan_planet_read, CacheReadV, CacheStepV,
};
use crate::error::CustomErrorV;
use crate::keys::spec_planet_key;
use crate::model::spec_is_record_id;

verus! {

/// A cache entry: the bytes, and the moment they lapse.
pub ghost struct CacheEntryV {
    pub value: Seq<u8>,
    pub expires_at: int,
}

/// The whole system as the protocol sees it: the durable store's payloads by
/// identifier, the cache by key, and the clock.
pub ghost struct CatalogModelV {
    pub store: Map<Seq<char>, Seq<u8>>,
    pub cache: Map<Seq<char>, CacheEntryV>,
    pub now: int,
}

/// The same system, `dt` seconds later, untouched in between.
pub open spec fn spec_advance(m: CatalogModelV, dt: int) -> CatalogModelV {
    CatalogModelV { now: m.now + dt, ..m }
}

/// Whether the cache still serves `key` at the model's moment.
pub open spec fn spec_cache_fresh(m: CatalogModelV, key: Seq<char>) -> bool {
    m.cache.contains_key(key) && m.now < m.cache[key].expires_at
}

/// The cache's answer to a read of `key`: the entry's bytes until it lapses,
/// nothing afterwards or where none was written.
pub open spec fn spec_cache_lookup(m: CatalogModelV, key: Seq<char>) -> CacheReadV {
    if spec_cache_fresh(m, key) {
        CacheReadV::Hit(m.cache[key].value)
    } else {
        CacheReadV::Missing
    }
}

/// The store's answer to a read of `id`.
pub open spec fn spec_store_lookup(m: CatalogModelV, id: Seq<char>) -> Option<Seq<u8>> {
    if m.store.contains_key(id) {
        Some(m.store[id])
    } else {
        None
    }
}

/// One whole read of a record: its outcome, how many times the durable store
/// was read, and the system afterwards.
pub ghost struct GetRunV {
    pub result: Result<Seq<u8>, CustomErrorV>,
    pub store_reads: nat,
    pub after: CatalogModelV,
}

/// Runs the read of record `id` on `m`: the cache is consulted first and a
/// hit is served as it is; a miss falls back to the durable store, and the
/// found payload is written back under the record's key for the fill's
/// lifetime before being served.
pub open spec fn spec_run_get(m: CatalogModelV, id: Seq<char>) -> GetRunV {
    let key = spec_planet_key(id);
    match spec_plan_planet_read(id, spec_cache_lookup(m, key)) {
        CacheStepV::UseCached(bytes) => GetRunV { result: Ok(bytes), store_reads: 0, after: m },
        CacheStepV::Fail(e) => GetRunV { result: Err(e), store_reads: 0, after: m },
        CacheStepV::FetchStore => match spec_absorb_planet_fetch(id, spec_store_lookup(m, id)) {
            Ok(fill) => GetRunV {
                result: Ok(fill.value),
                store_reads: 1,
                after: CatalogModelV {
                    cache: m.cache.insert(
                        fill.key,
                        CacheEntryV { value: fill.value, expires_at: m.now + fill.ttl_seconds },
                    ),
                    ..m
                },
            },
            Err(e) => GetRunV { result: Err(e), store_reads: 1, after: m },
        },
    }
}

/// One whole update of a record: its outcome and the system afterwards.
pub ghost struct UpdateRunV {
    pub result: Result<Seq<u8>, CustomErrorV>,
    pub after: CatalogModelV,
}

/// Runs the update of record `id` to `new_payload` on `m`: an identifier of
/// the wrong shape is rejected before the store is touched; a record the
/// store holds is committed there first and the cache entry is deleted only
/// afterwards; a record it does not hold fails, and nothing is invalidated.
pub open spec fn spec_run_update(m: CatalogModelV, id: Seq<char>, new_payload: Seq<u8>) -> UpdateRunV {
    if !spec_is_record_id(id) {
        UpdateRunV { result: Err(CustomErrorV::NotFound(spec_invalid_id_message(id))), after: m }
    } else if m.store.contains_key(id) {
        UpdateRunV {
            result: Ok(new_payload),
            after: CatalogModelV {
                store: m.store.insert(id, new_payload),
                cache: m.cache.remove(spec_planet_key(id)),
                ..m
            },
        }
    } else {
        UpdateRunV {
            result: Err(CustomErrorV::NotFound("Can't find updated planet: "@ + id)),
            after: m,
        }
    }
}

/// One whole deletion of a record: its outcome and the system afterwards.
pub ghost struct DeleteRunV {
    pub result: Result<(), CustomErrorV>,
    pub after: CatalogModelV,
}

/// Runs the deletion of record `id` on `m`: an identifier of the wrong shape
/// is rejected before the store is touched; a record the store holds is
/// removed there first and the cache entry is deleted only afterwards; a
/// record it does not hold fails, and nothing is invalidated.
pub open spec fn spec_run_delete(m: CatalogModelV, id: Seq<char>) -> DeleteRunV {
    if !spec_is_record_id(id) {
        DeleteRunV { result: Err(CustomErrorV::NotFound(spec_invalid_id_message(id))), after: m }
    } else if m.store.contains_key(id) {
        DeleteRunV {
            result: Ok(()),
            after: CatalogModelV {
                store: m.store.remove(id),
                cache: m.cache.remove(spec_planet_key(id)),
                ..m
            },
        }
    } else {
        DeleteRunV {
            result: Err(CustomErrorV::NotFound(spec_missing_planet_message(id))),
            after: m,
        }
    }
}

/// One whole creation: its outcome, the identifiers of the events it
/// published, and the system afterwards.
pub ghost struct CreateRunV {
    pub result: Result<Seq<u8>, CustomErrorV>,
    pub published: Seq<Seq<char>>,
    pub after: CatalogModelV,
}

/// Runs the creation of a record on `m`: the store commits the payload under
/// the fresh identifier it assigned, exactly one event carrying that
/// identifier is published, and the creation is reported successful exactly
/// where the publication was — the cache is left alone, so the first read
/// after a creation misses by design.
pub open spec fn spec_run_create(
    m: CatalogModelV,
    id: Seq<char>,
    payload: Seq<u8>,
    publish: Result<(), CustomErrorV>,
) -> CreateRunV {
    CreateRunV {
        result: if spec_complete_create(publish is Ok) {
            Ok(payload)
        } else {
            Err(publish->Err_0)
        },
        published: seq![id],
        after: CatalogModelV { store: m.store.insert(id, payload), ..m },
    }
}

/// A read served from a live cache entry returns its bytes byte-identically,
/// reads the durable store not at all, and leaves the system as it was.
pub proof fn lemma_get_hit_serves_cache(m: CatalogModelV, id: Seq<char>)
    requires
        spec_cache_fresh(m, spec_planet_key(id)),
    ensures
        spec_run_get(m, id).result == Ok::<Seq<u8>, CustomErrorV>(
            m.cache[spec_planet_key(id)].value,
        ),
        spec_run_get(m, id).store_reads == 0,
        spec_run_get(m, id).after == m,
{
}

/// A read that misses on a record the store holds reads the store once,
/// serves its payload, and writes it back under the record's key for the
/// fill's lifetime.
pub proof fn lemma_get_miss_populates(m: CatalogModelV, id: Seq<char>)
    requires
        !spec_cache_fresh(m, spec_planet_key(id)),
        spec_is_record_id(id),
        m.store.contains_key(id),
    ensures
        spec_run_get(m, id).result == Ok::<Seq<u8>, CustomErrorV>(m.store[id]),
        spec_run_get(m, id).store_reads == 1,
        spec_run_get(m, id).after.store == m.store,
        spec_run_get(m, id).after.cache == m.cache.insert(
            spec_planet_key(id),
            CacheEntryV { value: m.store[id], expires_at: m.now + 60 },
        ),
{
}

/// A read within sixty seconds of the read that populated the cache returns
/// the byte-identical payload without a second durable-store read, and leaves
/// the cache as it found it — so every further read inside the window does
/// the same.
pub proof fn lemma_get_within_ttl_reads_store_once(m: CatalogModelV, id: Seq<char>, dt: int)
    requires
        !spec_cache_fresh(m, spec_planet_key(id)),
        spec_is_record_id(id),
        m.store.contains_key(id),
        0 <= dt < 60,
    ensures
        ({
            let first = spec_run_get(m, id);
            let later = spec_run_get(spec_advance(first.after, dt), id);
            &&& first.result == Ok::<Seq<u8>, CustomErrorV>(m.store[id])
            &&& first.store_reads == 1
            &&& later.result == first.result
            &&& later.store_reads == 0
            &&& later.after == spec_advance(first.after, dt)
        }),
{
    lemma_get_miss_populates(m, id);
}

/// A read after a committed update returns the new payload, never a stale
/// cached value, however much time has passed.
pub proof fn lemma_update_then_get(m: CatalogModelV, id: Seq<char>, new_payload: Seq<u8>, dt: int)
    requires
        spec_run_update(m, id, new_payload).result is Ok,
        dt >= 0,
    ensures
        spec_run_get(
            spec_advance(spec_run_update(m, id, new_payload).after, dt),
            id,
        ).result == Ok::<Seq<u8>, CustomErrorV>(new_payload),
{
}

/// A read after a committed deletion fails as missing — the entry the cache
/// had held for the record is gone with the deletion.
pub proof fn lemma_delete_then_get(m: CatalogModelV, id: Seq<char>, dt: int)
    requires
        spec_run_delete(m, id).result is Ok,
        dt >= 0,
    ensures
        spec_run_get(spec_advance(spec_run_delete(m, id).after, dt), id).result == Err::<
            Seq<u8>,
            CustomErrorV,
        >(CustomErrorV::NotFound(spec_missing_planet_message(id))),
{
}

/// A record is never cached before its first read: the read immediately
/// following a creation misses, reads the durable store once, and serves the
/// created payload byte-identically — and from then on the window law above
/// applies.
pub proof fn lemma_create_then_get(
    m: CatalogModelV,
    id: Seq<char>,
    payload: Seq<u8>,
    publish: Result<(), CustomErrorV>,
    dt: int,
)
    requires
        spec_is_record_id(id),
        !m.cache.contains_key(spec_planet_key(id)),
        dt >= 0,
    ensures
        ({
            let read = spec_run_get(spec_advance(spec_run_create(m, id, payload, publish).after, dt), id);
            &&& read.result == Ok::<Seq<u8>, CustomErrorV>(payload)
            &&& read.store_reads == 1
        }),
{
}

/// A creation publishes exactly one event, carrying the created record's
/// identifier; where the publication failed the creation is reported failed,
/// although the record already exists durably.
pub proof fn lemma_create_publishes_once(
    m: CatalogModelV,
    id: Seq<char>,
    payload: Seq<u8>,
    publish: Result<(), CustomErrorV>,
)
    ensures
        spec_run_create(m, id, payload, publish).published =~= seq![id],
        spec_run_create(m, id, payload, publish).after.store.contains_key(id),
        spec_run_create(m, id, payload, publish).after.store[id] == payload,
        publish is Ok <==> spec_run_create(m, id, payload, publish).result == Ok::<
            Seq<u8>,
            CustomErrorV,
        >(payload),
        publish is Err ==> spec_run_create(m, id, payload, publish).result == Err::<
            Seq<u8>,
            CustomErrorV,
        >(publish->Err_0),
{
}

} // verus!
