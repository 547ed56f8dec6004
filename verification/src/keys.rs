//! Cache and rate-counter keys, derived deterministically from an entity's
//! identifier or a client's address.

use vstd::prelude::*;

use crate::text::{decimal_string, spec_decimal};

verus! {

/// Cache key of a record: a fixed prefix followed by the identifier.
pub open spec fn spec_planet_key(id: Seq<char>) -> Seq<char> {
    "planet"@ + id
}

/// Cache key of a record's binary blob: the record's key with a fixed suffix.
pub open spec fn spec_planet_image_key(id: Seq<char>) -> Seq<char> {
    "planet"@ + id + "image"@
}

/// Key of a client's rate counter for one minute bucket.
pub open spec fn spec_rate_limit_key(client: Seq<char>, minute: nat) -> Seq<char> {
    "rate_limit:"@ + client + ":"@ + spec_decimal(minute)
}

/// The minute-of-hour bucket a moment falls in.
pub open spec fn spec_minute_of(epoch_seconds: nat) -> nat {
    (epoch_seconds / 60) % 60
}

/// Derives the cache key of the record `planet_id`.
pub fn planet_cache_key(planet_id: &str) -> (key: String)
    ensures
        key@ == spec_planet_key(planet_id@),
{
    let mut key = String::from_str("planet");
    key.append(planet_id);
    key
}

/// Derives the cache key of the binary blob of the record `planet_id`.
pub fn planet_image_cache_key(planet_id: &str) -> (key: String)
    ensures
        key@ == spec_planet_image_key(planet_id@),
{
    let mut key = String::from_str("planet");
    key.append(planet_id);
    key.append("image");
    key
}

/// The minute-of-hour bucket of the moment `epoch_seconds`.
pub fn minute_of_epoch(epoch_seconds: u64) -> (minute: u64)
    ensures
        minute == spec_minute_of(epoch_seconds as nat),
        minute < 60,
{
    (epoch_seconds / 60) % 60
}

/// Derives the rate-counter key of `client` for the bucket `minute`.
pub fn rate_limit_bucket_key(client: &str, minute: u64) -> (key: String)
    ensures
        key@ == spec_rate_limit_key(client@, minute as nat),
{
    let mut key = String::from_str("rate_limit:");
    key.append(client);
    key.append(":");
    let rendered = decimal_string(minute);
    key.append(rendered.as_str());
    key
}

} // verus!
