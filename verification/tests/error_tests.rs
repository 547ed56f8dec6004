use solar_catalog::error::CustomError;

#[test]
fn gate_rejections_collapse_to_unauthorized() {
    let rejections = vec![
        CustomError::InvalidAuthorizationHeader { message: String::from("bad header") },
        CustomError::UserNotFound { message: String::from("no such user") },
        CustomError::HashError { message: String::from("invalid password") },
        CustomError::UserUnauthorized { message: String::from("read only") },
    ];
    for rejection in rejections {
        assert_eq!(rejection.status_code(), 401);
        assert!(rejection.requires_challenge());
        assert_eq!(rejection.public_message(), "Unauthorized");
    }
}

#[test]
fn missing_record_shows_its_own_message() {
    let err = CustomError::NotFound { message: String::from("Can't find a planet by id: abc") };
    assert_eq!(err.status_code(), 404);
    assert!(!err.requires_challenge());
    assert_eq!(err.public_message(), "Can't find a planet by id: abc");
    assert_eq!(err.detail_message(), "Can't find a planet by id: abc");
}

#[test]
fn throttling_reports_both_counts_in_detail_only() {
    let err = CustomError::TooManyRequests { actual_count: 11, permission_count: 10 };
    assert_eq!(err.status_code(), 429);
    assert!(!err.requires_challenge());
    assert_eq!(err.public_message(), "Too many requests");
    assert_eq!(
        err.detail_message(),
        "Too many requests: actual_count = 11, permission_count: 10"
    );
}

#[test]
fn collaborator_failures_stay_generic() {
    let store = CustomError::MongoDbError { message: String::from("socket closed") };
    assert_eq!(store.status_code(), 500);
    assert_eq!(store.public_message(), "Something went wrong");
    assert_eq!(store.detail_message(), "socket closed");

    let cache = CustomError::RedisError { message: String::from("connection refused") };
    assert_eq!(cache.status_code(), 500);
    assert_eq!(cache.public_message(), "Something went wrong");

    let serde = CustomError::SerdeError { message: String::from("eof") };
    assert_eq!(serde.status_code(), 500);
    assert_eq!(serde.public_message(), "Something went wrong");
}
