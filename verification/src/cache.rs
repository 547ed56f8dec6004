//! Cache-aside reads, write-invalidation and the creation notification.
//!
//! The store and the cache are reached over the network by the caller; the
//! functions here make every decision between those calls. A read first plans
//! against the cache's answer: a hit is served as it is, a miss (after the
//! identifier's shape is checked) sends the caller to the durable store, whose
//! answer is then absorbed into a time-bounded cache fill and the payload.
//! A mutation is committed to the store first and answered with the cache key
//! to invalidate afterwards; a creation is followed by exactly one published
//! event, whose failure fails the whole request even though the record is
//! already durable.

use vstd::prelude::*;

use crate::dto::{PlanetMessage, PlanetMessageV};
use crate::error::{CustomError, CustomErrorV, CustomResult};
use crate::keys::{
    planet_cache_key, planet_image_cache_key, spec_planet_image_key, spec_planet_key,
};
use crate::model::{spec_is_record_id, Planet};
use crate::assets::{get_planet_image, spec_image_file_name, AssetStore};

verus! {

/// How long a cache fill lives, in seconds.
pub const CACHE_TTL_SECONDS: u64 = 60;

/// The channel creation events are published on.
pub fn new_planets_channel() -> (channel: &'static str)
    ensures
        channel@ == "new_planets"@,
{
    "new_planets"
}

/// The cache's answer to a read, as the caller observed it: no value, a
/// value's bytes, or an answer of an unexpected shape.
pub enum CacheReadResult {
    Missing,
    Hit(Vec<u8>),
    Unexpected,
}

impl View for CacheReadResult {
    type V = CacheReadV;

    open spec fn view(&self) -> CacheReadV {
        match self {
            CacheReadResult::Missing => CacheReadV::Missing,
            CacheReadResult::Hit(bytes) => CacheReadV::Hit(bytes@),
            CacheReadResult::Unexpected => CacheReadV::Unexpected,
        }
    }
}

/// The mathematical shape of a `CacheReadResult`.
pub ghost enum CacheReadV {
    Missing,
    Hit(Seq<u8>),
    Unexpected,
}

/// What a read does after the cache's answer: serve the cached bytes, fetch
/// from the durable store, or fail.
pub enum CacheStep {
    UseCached(Vec<u8>),
    FetchStore,
    Fail(CustomError),
}

impl View for CacheStep {
    type V = CacheStepV;

    open spec fn view(&self) -> CacheStepV {
        match self {
            CacheStep::UseCached(bytes) => CacheStepV::UseCached(bytes@),
            CacheStep::FetchStore => CacheStepV::FetchStore,
            CacheStep::Fail(e) => CacheStepV::Fail(e@),
        }
    }
}

/// The mathematical shape of a `CacheStep`.
pub ghost enum CacheStepV {
    UseCached(Seq<u8>),
    FetchStore,
    Fail(CustomErrorV),
}

/// A value to write back into the cache, bounded by a lifetime.
pub struct CacheFill {
    pub key: String,
    pub value: Vec<u8>,
    pub ttl_seconds: u64,
}

impl View for CacheFill {
    type V = CacheFillV;

    open spec fn view(&self) -> CacheFillV {
        CacheFillV { key: self.key@, value: self.value@, ttl_seconds: self.ttl_seconds as int }
    }
}

/// The mathematical shape of a `CacheFill`.
pub ghost struct CacheFillV {
    pub key: Seq<char>,
    pub value: Seq<u8>,
    pub ttl_seconds: int,
}

/// A cache key to delete after a committed write.
pub struct CacheInvalidate {
    pub key: String,
}

/// The message a record's id is rejected with.
pub open spec fn spec_invalid_id_message(id: Seq<char>) -> Seq<char> {
    "Invalid planet id: "@ + id
}

/// The message a record missing from the store is rejected with.
pub open spec fn spec_missing_planet_message(id: Seq<char>) -> Seq<char> {
    "Can't find a planet by id: "@ + id
}

/// What a record read does after the cache's answer `cache`: cached bytes are
/// served as they are; on a miss, an identifier of the store's shape sends the
/// read to the store and any other is missing outright; an unexpected cache
/// answer aborts the request.
pub open spec fn spec_plan_planet_read(id: Seq<char>, cache: CacheReadV) -> CacheStepV {
    match cache {
        CacheReadV::Hit(bytes) => CacheStepV::UseCached(bytes),
        CacheReadV::Missing => if spec_is_record_id(id) {
            CacheStepV::FetchStore
        } else {
            CacheStepV::Fail(CustomErrorV::NotFound(spec_invalid_id_message(id)))
        },
        CacheReadV::Unexpected => CacheStepV::Fail(
            CustomErrorV::Redis("Unexpected response from Redis"@),
        ),
    }
}

/// Plans the read of the record `planet_id` against the cache's answer.
pub fn plan_planet_read(planet_id: &str, cache: CacheReadResult) -> (step: CacheStep)
    ensures
        step@ == spec_plan_planet_read(planet_id@, cache@),
{
    match cache {
        CacheReadResult::Hit(bytes) => CacheStep::UseCached(bytes),
        CacheReadResult::Missing => {
            if crate::model::is_valid_record_id(planet_id) {
                CacheStep::FetchStore
            } else {
                let mut message = String::from_str("Invalid planet id: ");
                message.append(planet_id);
                CacheStep::Fail(CustomError::NotFound { message })
            }
        },
        CacheReadResult::Unexpected => CacheStep::Fail(
            CustomError::RedisError {
                message: String::from_str("Unexpected response from Redis"),
            },
        ),
    }
}

/// Plans the read of the blob of the record `planet_id` against the cache's
/// answer; the plan is the record read's, on the blob's own key.
pub fn plan_blob_read(planet_id: &str, cache: CacheReadResult) -> (step: CacheStep)
    ensures
        step@ == spec_plan_planet_read(planet_id@, cache@),
{
    plan_planet_read(planet_id, cache)
}

/// What absorbing the store's answer to a record read yields: the payload as
/// a time-bounded cache fill, or the missing-record failure.
pub open spec fn spec_absorb_planet_fetch(id: Seq<char>, found: Option<Seq<u8>>) -> Result<
    CacheFillV,
    CustomErrorV,
> {
    match found {
        Some(payload) => Ok(
            CacheFillV {
                key: spec_planet_key(id),
                value: payload,
                ttl_seconds: CACHE_TTL_SECONDS as int,
            },
        ),
        None => Err(CustomErrorV::NotFound(spec_missing_planet_message(id))),
    }
}

/// Absorbs the store's answer to the read of record `planet_id`: the found
/// payload becomes the fill to write back (and to serve), a missing record
/// fails the read.
pub fn absorb_planet_fetch(planet_id: &str, found: Option<Vec<u8>>) -> (r: CustomResult<CacheFill>)
    ensures
        match r {
            Ok(fill) => spec_absorb_planet_fetch(planet_id@, spec_payload_view(found)) == Ok::<
                CacheFillV,
                CustomErrorV,
            >(fill@),
            Err(e) => spec_absorb_planet_fetch(planet_id@, spec_payload_view(found)) == Err::<
                CacheFillV,
                CustomErrorV,
            >(e@),
        },
{
    match found {
        Some(payload) => Ok(
            CacheFill {
                key: planet_cache_key(planet_id),
                value: payload,
                ttl_seconds: CACHE_TTL_SECONDS,
            },
        ),
        None => {
            let mut message = String::from_str("Can't find a planet by id: ");
            message.append(planet_id);
            Err(CustomError::NotFound { message })
        },
    }
}

/// The view of an optional payload.
pub open spec fn spec_payload_view(found: Option<Vec<u8>>) -> Option<Seq<u8>> {
    match found {
        Some(payload) => Some(payload@),
        None => None,
    }
}

/// Absorbs the store's answer to the read of the blob of record `planet_id`:
/// the record's image is looked up in `assets` under its name and becomes the
/// fill on the blob's key; a record the store does not hold, like a name no
/// blob is stored under, fails the read.
pub fn absorb_blob_fetch(planet_id: &str, found: Option<&Planet>, assets: &AssetStore) -> (r:
    CustomResult<CacheFill>)
    requires
        assets.wf(),
    ensures
        found is None ==> r is Err && r->Err_0@ == CustomErrorV::NotFound(
            spec_missing_planet_message(planet_id@),
        ),
        (found is Some && assets.contents().contains_key(
            spec_image_file_name(found->Some_0@.name),
        )) ==> r is Ok && r->Ok_0@ == (CacheFillV {
            key: spec_planet_image_key(planet_id@),
            value: assets.contents()[spec_image_file_name(found->Some_0@.name)],
            ttl_seconds: CACHE_TTL_SECONDS as int,
        }),
        (found is Some && !assets.contents().contains_key(
            spec_image_file_name(found->Some_0@.name),
        )) ==> r is Err && r->Err_0@ == CustomErrorV::NotFound(
            "Can't find an image for planet: "@ + found->Some_0@.name,
        ),
{
    match found {
        Some(planet) => match get_planet_image(assets, planet.name.as_str()) {
            Some(image) => Ok(
                CacheFill {
                    key: planet_image_cache_key(planet_id),
                    value: image,
                    ttl_seconds: CACHE_TTL_SECONDS,
                },
            ),
            None => {
                let mut message = String::from_str("Can't find an image for planet: ");
                message.append(planet.name.as_str());
                Err(CustomError::NotFound { message })
            },
        },
        None => {
            let mut message = String::from_str("Can't find a planet by id: ");
            message.append(planet_id);
            Err(CustomError::NotFound { message })
        },
    }
}

/// Checks the shape of a record identifier before a mutation touches the
/// store: an identifier the store could never have assigned is missing.
pub fn validate_planet_id(planet_id: &str) -> (r: CustomResult<()>)
    ensures
        r is Ok <==> spec_is_record_id(planet_id@),
        r is Err ==> r->Err_0@ == CustomErrorV::NotFound(spec_invalid_id_message(planet_id@)),
{
    if crate::model::is_valid_record_id(planet_id) {
        Ok(())
    } else {
        let mut message = String::from_str("Invalid planet id: ");
        message.append(planet_id);
        Err(CustomError::NotFound { message })
    }
}

/// Absorbs the store's answer to an update of record `planet_id`: the updated
/// record passes through together with the cache key to delete; a record the
/// store did not hold fails the update, and nothing is invalidated.
pub fn absorb_planet_update(planet_id: &str, updated: Option<Planet>) -> (r: CustomResult<
    (Planet, CacheInvalidate),
>)
    ensures
        r is Ok <==> updated is Some,
        r is Ok ==> r->Ok_0.0 == updated->Some_0 && r->Ok_0.1.key@ == spec_planet_key(planet_id@),
        r is Err ==> r->Err_0@ == CustomErrorV::NotFound(
            "Can't find updated planet: "@ + planet_id@,
        ),
{
    match updated {
        Some(planet) => Ok((planet, CacheInvalidate { key: planet_cache_key(planet_id) })),
        None => {
            let mut message = String::from_str("Can't find updated planet: ");
            message.append(planet_id);
            Err(CustomError::NotFound { message })
        },
    }
}

/// Absorbs the store's answer to a deletion of record `planet_id`: a deleted
/// record yields the cache key to delete; a record the store did not hold
/// fails the deletion, and nothing is invalidated.
pub fn absorb_planet_delete(planet_id: &str, deleted: bool) -> (r: CustomResult<CacheInvalidate>)
    ensures
        r is Ok <==> deleted,
        r is Ok ==> r->Ok_0.key@ == spec_planet_key(planet_id@),
        r is Err ==> r->Err_0@ == CustomErrorV::NotFound(spec_missing_planet_message(planet_id@)),
{
    if deleted {
        Ok(CacheInvalidate { key: planet_cache_key(planet_id) })
    } else {
        let mut message = String::from_str("Can't find a planet by id: ");
        message.append(planet_id);
        Err(CustomError::NotFound { message })
    }
}

/// Absorbs the store's answer to reading back a just-inserted record: the
/// record passes through; a store that cannot find what it just created fails
/// the creation.
pub fn absorb_planet_insert(created: Option<Planet>) -> (r: CustomResult<Planet>)
    ensures
        r is Ok <==> created is Some,
        r is Ok ==> r->Ok_0 == created->Some_0,
        r is Err ==> r->Err_0@ == CustomErrorV::NotFound("Can't find created planet"@),
{
    match created {
        Some(planet) => Ok(planet),
        None => Err(CustomError::NotFound { message: String::from_str("Can't find created planet") }),
    }
}

/// The one publication a successful creation sends: the event for `planet`,
/// on the fixed channel.
pub struct Publication {
    pub channel: String,
    pub message: PlanetMessage,
}

/// Plans the notification of the created `planet`, which carries its
/// store-assigned identifier.
pub fn plan_create_notification(planet: &Planet) -> (publication: Publication)
    requires
        planet.id is Some,
    ensures
        publication.channel@ == "new_planets"@,
        publication.message@ == (PlanetMessageV {
            id: planet@.id->Some_0,
            name: planet@.name,
            planet_type: planet@.planet_type,
        }),
{
    Publication {
        channel: String::from_str(new_planets_channel()),
        message: PlanetMessage::from(planet),
    }
}

/// Whether a creation is reported as successful, given how its publication
/// went: a publish failure fails the whole creation even though the record is
/// already durable.
pub open spec fn spec_complete_create(publish_ok: bool) -> bool {
    publish_ok
}

/// Finishes a creation: the created record where its event was published, the
/// publication's own failure otherwise — the record then already exists
/// durably, and the caller is told the creation failed all the same.
pub fn complete_create(planet: Planet, publish: CustomResult<()>) -> (r: CustomResult<Planet>)
    ensures
        r is Ok <==> spec_complete_create(publish is Ok),
        r is Ok ==> r->Ok_0 == planet,
        r is Err ==> publish is Err && r->Err_0 == publish->Err_0,
{
    match publish {
        Ok(()) => Ok(planet),
        Err(e) => Err(e),
    }
}

} // verus!
