use abot::{AbotError, ApiError, CacheError, ErrorResponse, MatrixError};

#[test]
fn cache_error_texts() {
    let d = || "boom".to_string();
    assert_eq!(
        CacheError::RedisPoolError(d()).render(),
        "Could not get redis connection from pool : boom"
    );
    assert_eq!(
        CacheError::RedisTypeError(d()).render(),
        "Error parsing string from redis result: boom"
    );
    assert_eq!(CacheError::RedisCMDError(d()).render(), "Error executing redis command: boom");
    assert_eq!(CacheError::RedisClientError(d()).render(), "Error creating redis client: boom");
    assert_eq!(CacheError::RedisPongError.render(), "Pong response error");
    assert_eq!(CacheError::Other(d()).render(), "Other error: boom");
}

#[test]
fn matrix_error_texts() {
    let d = || "bad".to_string();
    assert_eq!(MatrixError::ReqwestError(d()).render(), "Reqwest error: bad");
    assert_eq!(MatrixError::ParseError(d()).render(), "ParseError error: bad");
    assert_eq!(MatrixError::SerdeError(d()).render(), "SerdeError error: bad");
    assert_eq!(MatrixError::IOError(d()).render(), "IOError error: bad");
    assert_eq!(MatrixError::ParseIntError(d()).render(), "ParseInt error: bad");
    assert_eq!(MatrixError::Other(d()).render(), "bad");
    assert_eq!(
        MatrixError::from_cache(CacheError::RedisPongError).render(),
        "Cache error: Pong response error"
    );
}

#[test]
fn abot_error_texts() {
    let d = || "z".to_string();
    assert_eq!(
        AbotError::from_cache(CacheError::Other(d())).render(),
        "Cache error: Other error: z"
    );
    assert_eq!(AbotError::Utf8Error(d()).render(), "Utf8 error: z");
    assert_eq!(
        AbotError::from_matrix(MatrixError::Other(d())).render(),
        "Matrix error: z"
    );
    assert_eq!(AbotError::SubscriptionFinished.render(), "Subscription finished");
    assert_eq!(AbotError::ReqwestError(d()).render(), "Reqwest error: z");
    assert_eq!(AbotError::ParseError(d()).render(), "ParseError error: z");
    assert_eq!(AbotError::SerdeError(d()).render(), "SerdeError error: z");
    assert_eq!(AbotError::IOError(d()).render(), "IOError error: z");
    assert_eq!(AbotError::from_reason("why").render(), "Other error: why");
}

#[test]
fn conversions_to_api_errors() {
    assert_eq!(
        ApiError::from_cache(CacheError::RedisPongError),
        ApiError::InternalServerError("Pong response error".to_string())
    );
    assert_eq!(
        ApiError::from_matrix(MatrixError::IOError("eof".to_string())),
        ApiError::InternalServerError("IOError error: eof".to_string())
    );
    assert_eq!(
        ApiError::from_abot(AbotError::SubscriptionFinished),
        ApiError::InternalServerError("Subscription finished".to_string())
    );
    assert_eq!(
        ApiError::from_reason("oops"),
        ApiError::InternalServerError("oops".to_string())
    );
    assert_eq!(
        ApiError::from_debug("Os { code: 2 }".to_string()),
        ApiError::InternalServerError("Os { code: 2 }".to_string())
    );
}

#[test]
fn empty_renderings_get_fallback() {
    assert_eq!(
        ApiError::from_matrix(MatrixError::Other(String::new())),
        ApiError::InternalServerError("Unknown error".to_string())
    );
    assert_eq!(ApiError::from_reason("").message(), "Unknown error");
    assert_eq!(ApiError::from_debug(String::new()).message(), "Unknown error");
}

#[test]
fn status_codes_and_bodies() {
    let cases = [
        (ApiError::BadRequest("b".to_string()), 400u16, "b"),
        (ApiError::NotFound("n".to_string()), 404u16, "n"),
        (ApiError::InternalServerError("i".to_string()), 500u16, "i"),
    ];
    for (e, status, msg) in cases.iter() {
        assert_eq!(e.status_code(), *status);
        let (s, body) = e.error_response();
        assert_eq!(s, *status);
        assert_eq!(body.errors(), &vec![msg.to_string()]);
    }
}

#[test]
fn error_response_single_message() {
    let r = ErrorResponse::from_message(&"m".to_string());
    assert_eq!(r.errors(), &vec!["m".to_string()]);
}
