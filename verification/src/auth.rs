//! The credential gate in front of every mutating operation.
//!
//! The check runs linearly, each stage irreversible on failure: the Basic
//! credential header is parsed, the identity is resolved in the durable store,
//! the supplied password is verified against the stored hash, and the access
//! level is required to equal `ReadWrite` exactly. The store lookup is the
//! caller's: it receives the parsed credentials' username, queries the store,
//! and hands the result to `complete_authentication`. The four rejections are
//! distinct error values here; externally they collapse to one unauthorized
//! outcome (see the error module).

use vstd::prelude::*;

use argon2::PasswordVerifier;

use crate::error::{CustomError, CustomErrorV, CustomResult};
use crate::model::{AccessType, User};

verus! {

/// A username and password extracted from a Basic credential header.
pub struct Credentials {
    pub username: String,
    pub password: String,
}

/// Opaque proof that the request was authorized; it carries no state.
pub struct BasicAuth;

/// The username and password a Basic credential header carries, or nothing
/// where the header is malformed. A pure function of the header text.
pub uninterp spec fn basic_credentials_of(header: Seq<char>) -> Option<(Seq<char>, Seq<char>)>;

/// Whether `password` matches the PHC-format hash `stored_hash`; false also
/// where the hash itself does not parse. A pure function of the two texts.
pub uninterp spec fn password_verifies(password: Seq<char>, stored_hash: Seq<char>) -> bool;

/// Relies on http_auth_basic::Credentials::from_header: it accepts exactly a
/// "Basic"-scheme value whose base64 payload decodes to `username:password`,
/// and returns those two parts; a function of the header text alone. The error
/// text is the crate's own rendering of what was malformed.
#[verifier::external_body]
fn parse_basic_header(header: &str) -> (r: Result<Credentials, String>)
    ensures
        r is Ok <==> basic_credentials_of(header@) is Some,
        r is Ok ==> basic_credentials_of(header@) == Some(
            (r->Ok_0.username@, r->Ok_0.password@),
        ),
{
    match http_auth_basic::Credentials::from_header(header.to_string()) {
        Ok(c) => Ok(Credentials { username: c.user_id, password: c.password }),
        Err(e) => Err(e.to_string()),
    }
}

/// Relies on argon2::Argon2::verify_password for string hashes: it parses the
/// PHC hash text, re-derives the hash of `password` with the parameters and
/// salt the text carries, and compares; deterministic in the two texts. Ok
/// means a match; a mismatch and an unparsable hash text are both Err.
#[verifier::external_body]
fn argon2_password_matches(password: &str, stored_hash: &str) -> (matched: bool)
    ensures
        matched == password_verifies(password@, stored_hash@),
{
    argon2::Argon2::default().verify_password(password.as_bytes(), stored_hash).is_ok()
}

/// First stage: extracts the username and password from the
/// credential header, rejecting a missing or malformed one.
pub fn parse_credentials(header: Option<&str>) -> (r: CustomResult<Credentials>)
    ensures
        r is Ok <==> header is Some && basic_credentials_of(header->Some_0@) is Some,
        r is Ok ==> basic_credentials_of(header->Some_0@) == Some(
            (r->Ok_0.username@, r->Ok_0.password@),
        ),
        r is Err ==> r->Err_0@ is InvalidAuthorizationHeader,
{
    match header {
        None => Err(
            CustomError::InvalidAuthorizationHeader {
                message: String::from_str(
                    "Invalid value provided for the HTTP Authorization header",
                ),
            },
        ),
        Some(value) => match parse_basic_header(value) {
            Ok(credentials) => Ok(credentials),
            Err(message) => Err(CustomError::InvalidAuthorizationHeader { message }),
        },
    }
}

/// Second stage: the identity the store resolved for the username, or the
/// unknown-identity rejection where it resolved none.
pub fn resolve_identity(username: &str, lookup: Option<User>) -> (r: CustomResult<User>)
    ensures
        r is Ok <==> lookup is Some,
        r is Ok ==> r->Ok_0 == lookup->Some_0,
        r is Err ==> r->Err_0@ == CustomErrorV::UserNotFound(
            "Can't find a user by username: "@ + username@,
        ),
{
    match lookup {
        Some(user) => Ok(user),
        None => {
            let mut message = String::from_str("Can't find a user by username: ");
            message.append(username);
            Err(CustomError::UserNotFound { message })
        },
    }
}

/// Third stage: verifies the supplied password against the identity's stored
/// hash; a mismatch, like an unparsable stored hash, is rejected.
pub fn verify_password(credentials: &Credentials, user: &User) -> (r: CustomResult<()>)
    ensures
        r is Ok <==> password_verifies(credentials.password@, user.password@),
        r is Err ==> r->Err_0@ == CustomErrorV::Hash("invalid password"@),
{
    if argon2_password_matches(credentials.password.as_str(), user.password.as_str()) {
        Ok(())
    } else {
        Err(CustomError::HashError { message: String::from_str("invalid password") })
    }
}

/// Fourth stage: requires the access level to equal `ReadWrite` exactly;
/// anything else, including `ReadOnly`, is rejected.
pub fn check_access(user: &User) -> (r: CustomResult<BasicAuth>)
    ensures
        r is Ok <==> user.access == AccessType::ReadWrite,
        r is Err ==> r->Err_0@ is UserUnauthorized,
{
    if user.access == AccessType::ReadWrite {
        Ok(BasicAuth)
    } else {
        let mut message = String::from_str("User doesn't have enough permissions: got ");
        message.append(user.access.name());
        message.append(", but required ReadWrite");
        Err(CustomError::UserUnauthorized { message })
    }
}

/// The chain's tail, from the store's answer on: authorized exactly where an
/// identity was resolved, its stored hash matches the supplied password, and
/// its access level is `ReadWrite`; otherwise rejected with the first failing
/// stage's error.
pub fn complete_authentication(credentials: &Credentials, lookup: Option<User>) -> (r:
    CustomResult<BasicAuth>)
    ensures
        r is Ok <==> (lookup is Some && password_verifies(
            credentials.password@,
            lookup->Some_0.password@,
        ) && lookup->Some_0.access == AccessType::ReadWrite),
        lookup is None ==> r->Err_0@ is UserNotFound,
        (lookup is Some && !password_verifies(credentials.password@, lookup->Some_0.password@))
            ==> r->Err_0@ is Hash,
        (lookup is Some && password_verifies(credentials.password@, lookup->Some_0.password@)
            && lookup->Some_0.access != AccessType::ReadWrite) ==> r->Err_0@ is UserUnauthorized,
        r is Err ==> crate::error::spec_is_unauthorized(r->Err_0@),
{
    let user = match resolve_identity(credentials.username.as_str(), lookup) {
        Ok(user) => user,
        Err(e) => {
            return Err(e);
        },
    };
    match verify_password(credentials, &user) {
        Ok(()) => {},
        Err(e) => {
            return Err(e);
        },
    }
    check_access(&user)
}

} // verus!
