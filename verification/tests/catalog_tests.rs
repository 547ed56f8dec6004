use std::collections::HashMap;

use solar_catalog::assets::AssetStore;
use solar_catalog::cache::{
    absorb_blob_fetch, absorb_planet_delete, absorb_planet_fetch, absorb_planet_insert,
    complete_create, new_planets_channel, plan_create_notification, plan_planet_read,
    validate_planet_id, CacheReadResult, CacheStep, CACHE_TTL_SECONDS,
};
use solar_catalog::error::CustomError;
use solar_catalog::model::{Planet, PlanetType};

const MARS_ID: &str = "60ef3c72b4b0d9c1d0a4a1b2";

fn mars_with_id() -> Planet {
    Planet {
        id: Some(String::from(MARS_ID)),
        name: String::from("Mars"),
        planet_type: PlanetType::TerrestrialPlanet,
        mean_radius: 3_389_500,
        satellites: None,
    }
}

fn mars_payload() -> Vec<u8> {
    Vec::from(&b"{\"name\":\"Mars\",\"type\":\"TerrestrialPlanet\",\"mean_radius\":3389.5}"[..])
}

/// The scenario: a creation with valid read-write credentials succeeds and
/// yields the record under its generated identifier; a read within the
/// lifetime serves the identical payload with no further store read; after a
/// deletion the read is missing.
#[test]
fn create_get_delete_scenario() {
    let mut store: HashMap<String, Vec<u8>> = HashMap::new();
    let mut cache: HashMap<String, Vec<u8>> = HashMap::new();
    let mut store_reads: usize = 0;

    // Create: the store commits first and assigns the identifier.
    store.insert(String::from(MARS_ID), mars_payload());
    let created = absorb_planet_insert(Some(mars_with_id())).expect("the inserted record reads back");
    let publication = plan_create_notification(&created);
    assert_eq!(publication.channel, "new_planets");
    assert_eq!(publication.message.id, MARS_ID);
    let created = complete_create(created, Ok(())).expect("a published creation succeeds");
    assert_eq!(created.id.as_deref(), Some(MARS_ID));
    assert_eq!(created.name, "Mars");
    assert_eq!(created.mean_radius, 3_389_500);

    // First read: a miss by design, one store read, then the write-back.
    let first = match plan_planet_read(MARS_ID, CacheReadResult::Missing) {
        CacheStep::FetchStore => {
            store_reads += 1;
            let found = store.get(MARS_ID).cloned();
            absorb_planet_fetch(MARS_ID, found).expect("the stored record is found")
        }
        _ => panic!("a cache miss on a well-formed identifier goes to the store"),
    };
    assert_eq!(first.key, format!("planet{}", MARS_ID));
    assert_eq!(first.ttl_seconds, CACHE_TTL_SECONDS);
    assert_eq!(first.value, mars_payload());
    cache.insert(first.key.clone(), first.value.clone());

    // Second read within the lifetime: served from the cache, byte-identical,
    // with no further store read.
    let cached = cache.get(&format!("planet{}", MARS_ID)).cloned().expect("the fill is cached");
    match plan_planet_read(MARS_ID, CacheReadResult::Hit(cached)) {
        CacheStep::UseCached(bytes) => assert_eq!(bytes, first.value),
        _ => panic!("a cache hit is served as it is"),
    }
    assert_eq!(store_reads, 1);

    // Delete: the store first, the cache entry afterwards.
    validate_planet_id(MARS_ID).expect("the identifier is well-formed");
    let removed = store.remove(MARS_ID).is_some();
    let invalidate = absorb_planet_delete(MARS_ID, removed).expect("the held record deletes");
    cache.remove(&invalidate.key);

    // The next read misses and the store no longer holds the record.
    match plan_planet_read(MARS_ID, CacheReadResult::Missing) {
        CacheStep::FetchStore => {
            store_reads += 1;
            let found = store.get(MARS_ID).cloned();
            match absorb_planet_fetch(MARS_ID, found) {
                Err(CustomError::NotFound { message }) => {
                    assert_eq!(message, format!("Can't find a planet by id: {}", MARS_ID));
                }
                _ => panic!("a deleted record must be missing"),
            }
        }
        _ => panic!("the invalidated key must miss"),
    }
}

/// After an update the invalidated key misses, so the next read serves the
/// new payload from the store, never the stale cached value.
#[test]
fn update_invalidates_so_the_next_read_is_fresh() {
    let mut store: HashMap<String, Vec<u8>> = HashMap::new();
    let mut cache: HashMap<String, Vec<u8>> = HashMap::new();
    store.insert(String::from(MARS_ID), mars_payload());
    cache.insert(format!("planet{}", MARS_ID), mars_payload());

    let new_payload = Vec::from(&b"{\"name\":\"Mars\",\"mean_radius\":3390.0}"[..]);
    validate_planet_id(MARS_ID).expect("the identifier is well-formed");
    store.insert(String::from(MARS_ID), new_payload.clone());
    let mut updated = mars_with_id();
    updated.mean_radius = 3_390_000;
    let (updated, invalidate) = solar_catalog::cache::absorb_planet_update(MARS_ID, Some(updated))
        .expect("the held record updates");
    assert_eq!(updated.mean_radius, 3_390_000);
    assert_eq!(invalidate.key, format!("planet{}", MARS_ID));
    cache.remove(&invalidate.key);

    assert!(cache.get(&format!("planet{}", MARS_ID)).is_none());
    match plan_planet_read(MARS_ID, CacheReadResult::Missing) {
        CacheStep::FetchStore => {
            let found = store.get(MARS_ID).cloned();
            let fill = absorb_planet_fetch(MARS_ID, found).expect("the updated record is found");
            assert_eq!(fill.value, new_payload);
        }
        _ => panic!("the invalidated key must miss"),
    }
}

#[test]
fn update_of_a_missing_record_fails_and_invalidates_nothing() {
    match solar_catalog::cache::absorb_planet_update(MARS_ID, None) {
        Err(CustomError::NotFound { message }) => {
            assert_eq!(message, format!("Can't find updated planet: {}", MARS_ID));
        }
        _ => panic!("a record the store does not hold must fail the update"),
    }
}

#[test]
fn publish_failure_fails_the_creation_though_the_record_is_durable() {
    let mut store: HashMap<String, Vec<u8>> = HashMap::new();
    store.insert(String::from(MARS_ID), mars_payload());
    let created = absorb_planet_insert(Some(mars_with_id())).expect("the inserted record reads back");
    let publish_failure = Err(CustomError::RedisError { message: String::from("broken pipe") });
    match complete_create(created, publish_failure) {
        Err(CustomError::RedisError { .. }) => {}
        _ => panic!("a publish failure must fail the creation"),
    }
    assert!(store.contains_key(MARS_ID), "the record stays durable all the same");
}

#[test]
fn store_that_cannot_read_back_its_insert_fails_the_creation() {
    match absorb_planet_insert(None) {
        Err(CustomError::NotFound { message }) => assert_eq!(message, "Can't find created planet"),
        _ => panic!("a vanished insert must fail as missing"),
    }
}

#[test]
fn malformed_identifier_is_missing_without_a_store_read() {
    match plan_planet_read("not-a-record-id", CacheReadResult::Missing) {
        CacheStep::Fail(CustomError::NotFound { message }) => {
            assert_eq!(message, "Invalid planet id: not-a-record-id");
        }
        _ => panic!("a malformed identifier must be missing outright"),
    }
    assert!(validate_planet_id("60ef3c72b4b0d9c1d0a4a1b2").is_ok());
    assert!(validate_planet_id("60EF3C72B4B0D9C1D0A4A1B2").is_ok());
    assert!(validate_planet_id("60ef3c72b4b0d9c1d0a4a1b").is_err());
    assert!(validate_planet_id("60ef3c72b4b0d9c1d0a4a1bg").is_err());
}

#[test]
fn unexpected_cache_answer_aborts_the_read() {
    match plan_planet_read(MARS_ID, CacheReadResult::Unexpected) {
        CacheStep::Fail(e) => {
            assert!(matches!(e, CustomError::RedisError { .. }));
            assert_eq!(e.status_code(), 500);
        }
        _ => panic!("an unexpected cache answer must abort the request"),
    }
}

#[test]
fn blob_read_fills_under_the_image_key() {
    let mut assets = AssetStore::new();
    assets.add(String::from("mars.jpg"), vec![0xff, 0xd8, 0xff, 0xe0]);
    let planet = mars_with_id();
    let fill = absorb_blob_fetch(MARS_ID, Some(&planet), &assets).expect("the image is stored");
    assert_eq!(fill.key, format!("planet{}image", MARS_ID));
    assert_eq!(fill.value, vec![0xff, 0xd8, 0xff, 0xe0]);
    assert_eq!(fill.ttl_seconds, CACHE_TTL_SECONDS);
}

#[test]
fn blob_read_of_a_missing_record_or_image_fails() {
    let assets = AssetStore::new();
    match absorb_blob_fetch(MARS_ID, None, &assets) {
        Err(CustomError::NotFound { message }) => {
            assert_eq!(message, format!("Can't find a planet by id: {}", MARS_ID));
        }
        _ => panic!("a record the store does not hold must be missing"),
    }
    let planet = mars_with_id();
    match absorb_blob_fetch(MARS_ID, Some(&planet), &assets) {
        Err(CustomError::NotFound { message }) => {
            assert_eq!(message, "Can't find an image for planet: Mars");
        }
        _ => panic!("a name no blob is stored under must be missing"),
    }
}

#[test]
fn image_lookup_lowercases_the_name() {
    let mut assets = AssetStore::new();
    assets.add(String::from("mars.jpg"), vec![1, 2, 3]);
    let found = solar_catalog::assets::get_planet_image(&assets, "Mars");
    assert_eq!(found, Some(vec![1, 2, 3]));
    let missing = solar_catalog::assets::get_planet_image(&assets, "Venus");
    assert_eq!(missing, None);
}

#[test]
fn asset_store_keeps_the_first_blob_under_a_name() {
    let mut assets = AssetStore::new();
    assets.add(String::from("mars.jpg"), vec![1]);
    assets.add(String::from("mars.jpg"), vec![2]);
    assert_eq!(assets.find(&String::from("mars.jpg")), Some(&vec![1]));
    assert_eq!(assets.find(&String::from("venus.jpg")), None);
}

#[test]
fn category_names_match_the_wire() {
    assert_eq!(PlanetType::TerrestrialPlanet.name(), "TerrestrialPlanet");
    assert_eq!(PlanetType::GasGiant.name(), "GasGiant");
    assert_eq!(PlanetType::IceGiant.name(), "IceGiant");
    assert_eq!(PlanetType::DwarfPlanet.name(), "DwarfPlanet");
    assert_eq!(new_planets_channel(), "new_planets");
}
