//! The error taxonomy, and its one mapping to an external status.
//!
//! Every failure is terminal for the request it arose in and is mapped exactly
//! once: the four credential-gate rejections collapse to one unauthorized
//! outcome that does not say which check failed, a missing record surfaces
//! with its message, throttling carries the observed and permitted counts, and
//! everything else is a generic internal failure whose detail is only logged.

use vstd::prelude::*;

use crate::text::{decimal_string, spec_decimal};

verus! {

/// A failure of a request, wrapping the collaborator it arose in.
#[derive(Debug)]
pub enum CustomError {
    MongoDbError { message: String },
    RedisError { message: String },
    NotFound { message: String },
    SerdeError { message: String },
    TemplateError { message: String },
    InvalidAuthorizationHeader { message: String },
    UserNotFound { message: String },
    UserUnauthorized { message: String },
    HashError { message: String },
    TooManyRequests { actual_count: u64, permission_count: u64 },
}

/// The result type of every operation of the library.
pub type CustomResult<T> = Result<T, CustomError>;

/// The mathematical shape of a `CustomError`.
pub ghost enum CustomErrorV {
    MongoDb(Seq<char>),
    Redis(Seq<char>),
    NotFound(Seq<char>),
    Serde(Seq<char>),
    Template(Seq<char>),
    InvalidAuthorizationHeader(Seq<char>),
    UserNotFound(Seq<char>),
    UserUnauthorized(Seq<char>),
    Hash(Seq<char>),
    TooManyRequests { actual: int, threshold: int },
}

impl View for CustomError {
    type V = CustomErrorV;

    open spec fn view(&self) -> CustomErrorV {
        match self {
            CustomError::MongoDbError { message } => CustomErrorV::MongoDb(message@),
            CustomError::RedisError { message } => CustomErrorV::Redis(message@),
            CustomError::NotFound { message } => CustomErrorV::NotFound(message@),
            CustomError::SerdeError { message } => CustomErrorV::Serde(message@),
            CustomError::TemplateError { message } => CustomErrorV::Template(message@),
            CustomError::InvalidAuthorizationHeader { message } => CustomErrorV::InvalidAuthorizationHeader(
                message@,
            ),
            CustomError::UserNotFound { message } => CustomErrorV::UserNotFound(message@),
            CustomError::UserUnauthorized { message } => CustomErrorV::UserUnauthorized(message@),
            CustomError::HashError { message } => CustomErrorV::Hash(message@),
            CustomError::TooManyRequests { actual_count, permission_count } => CustomErrorV::TooManyRequests {
                actual: *actual_count as int,
                threshold: *permission_count as int,
            },
        }
    }
}

/// Whether the error is a credential-gate rejection: a bad header, an unknown
/// identity, bad credentials, or insufficient access.
pub open spec fn spec_is_unauthorized(e: CustomErrorV) -> bool {
    ||| e is InvalidAuthorizationHeader
    ||| e is UserNotFound
    ||| e is Hash
    ||| e is UserUnauthorized
}

/// The HTTP status an error is reported with.
pub open spec fn spec_status_code(e: CustomErrorV) -> int {
    if spec_is_unauthorized(e) {
        401
    } else if e is NotFound {
        404
    } else if e is TooManyRequests {
        429
    } else {
        500
    }
}

/// The body text an error is reported with. Only a missing record shows its
/// own message; every other class shows a fixed, generic text.
pub open spec fn spec_public_message(e: CustomErrorV) -> Seq<char> {
    if spec_is_unauthorized(e) {
        "Unauthorized"@
    } else if e is NotFound {
        e->NotFound_0
    } else if e is TooManyRequests {
        "Too many requests"@
    } else {
        "Something went wrong"@
    }
}

/// The full detail of an error, as logged on the server side only.
pub open spec fn spec_detail_message(e: CustomErrorV) -> Seq<char> {
    match e {
        CustomErrorV::MongoDb(m) => m,
        CustomErrorV::Redis(m) => m,
        CustomErrorV::NotFound(m) => m,
        CustomErrorV::Serde(m) => m,
        CustomErrorV::Template(m) => m,
        CustomErrorV::InvalidAuthorizationHeader(m) => m,
        CustomErrorV::UserNotFound(m) => m,
        CustomErrorV::UserUnauthorized(m) => m,
        CustomErrorV::Hash(m) => m,
        CustomErrorV::TooManyRequests { actual, threshold } => "Too many requests: actual_count = "@
            + spec_decimal(actual as nat) + ", permission_count: "@ + spec_decimal(
            threshold as nat,
        ),
    }
}

impl CustomError {
    /// The HTTP status this error is reported with.
    pub fn status_code(&self) -> (code: u16)
        ensures
            code as int == spec_status_code(self@),
    {
        match self {
            CustomError::InvalidAuthorizationHeader { .. } => 401,
            CustomError::UserNotFound { .. } => 401,
            CustomError::HashError { .. } => 401,
            CustomError::UserUnauthorized { .. } => 401,
            CustomError::NotFound { .. } => 404,
            CustomError::TooManyRequests { .. } => 429,
            _ => 500,
        }
    }

    /// Whether the response must carry an authentication challenge header.
    pub fn requires_challenge(&self) -> (challenge: bool)
        ensures
            challenge == spec_is_unauthorized(self@),
    {
        match self {
            CustomError::InvalidAuthorizationHeader { .. } => true,
            CustomError::UserNotFound { .. } => true,
            CustomError::HashError { .. } => true,
            CustomError::UserUnauthorized { .. } => true,
            _ => false,
        }
    }

    /// The body text this error is reported with.
    pub fn public_message(&self) -> (body: String)
        ensures
            body@ == spec_public_message(self@),
    {
        match self {
            CustomError::InvalidAuthorizationHeader { .. } => String::from_str("Unauthorized"),
            CustomError::UserNotFound { .. } => String::from_str("Unauthorized"),
            CustomError::HashError { .. } => String::from_str("Unauthorized"),
            CustomError::UserUnauthorized { .. } => String::from_str("Unauthorized"),
            CustomError::NotFound { message } => String::from_str(message.as_str()),
            CustomError::TooManyRequests { .. } => String::from_str("Too many requests"),
            _ => String::from_str("Something went wrong"),
        }
    }

    /// The full detail of this error, for the server-side log.
    pub fn detail_message(&self) -> (detail: String)
        ensures
            detail@ == spec_detail_message(self@),
    {
        match self {
            CustomError::MongoDbError { message } => String::from_str(message.as_str()),
            CustomError::RedisError { message } => String::from_str(message.as_str()),
            CustomError::NotFound { message } => String::from_str(message.as_str()),
            CustomError::SerdeError { message } => String::from_str(message.as_str()),
            CustomError::TemplateError { message } => String::from_str(message.as_str()),
            CustomError::InvalidAuthorizationHeader { message } => String::from_str(
                message.as_str(),
            ),
            CustomError::UserNotFound { message } => String::from_str(message.as_str()),
            CustomError::UserUnauthorized { message } => String::from_str(message.as_str()),
            CustomError::HashError { message } => String::from_str(message.as_str()),
            CustomError::TooManyRequests { actual_count, permission_count } => {
                let mut detail = String::from_str("Too many requests: actual_count = ");
                let actual = decimal_string(*actual_count);
                detail.append(actual.as_str());
                detail.append(", permission_count: ");
                let threshold = decimal_string(*permission_count);
                detail.append(threshold.as_str());
                detail
            },
        }
    }
}

/// Every credential-gate rejection is externally indistinguishable: it is
/// reported as status 401 with the fixed body and an authentication challenge,
/// whichever of the four checks failed.
pub proof fn lemma_gate_rejections_collapse(e: CustomErrorV)
    requires
        spec_is_unauthorized(e),
    ensures
        spec_status_code(e) == 401,
        spec_public_message(e) == "Unauthorized"@,
{
}

} // verus!
