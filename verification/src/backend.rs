//! The one cache-backend value the library hands out: the client built from a
//! connection URI. Building it only parses the URI; no network is touched
//! until the caller opens a connection on it.

use vstd::prelude::*;

verus! {

#[verifier::external_type_specification]
#[verifier::external_body]
pub struct ExRedisClient(redis::Client);

#[verifier::external_type_specification]
#[verifier::external_body]
pub struct ExRedisError(redis::RedisError);

/// Whether `uri` is a connection URI the cache client accepts. A pure
/// function of the text alone.
pub uninterp spec fn redis_uri_ok(uri: Seq<char>) -> bool;

/// Relies on redis::Client::open: it parses the URI without any I/O and
/// fails exactly on one it does not accept.
#[verifier::external_body]
pub fn create_redis_client(redis_uri: String) -> (r: Result<redis::Client, redis::RedisError>)
    ensures
        r is Ok <==> redis_uri_ok(redis_uri@),
{
    redis::Client::open(redis_uri)
}

} // verus!
