use vstd::prelude::*;

verus! {

/// Failures of the key-value cache client. Each detail is the rendered text
/// of the client's own failure.
#[derive(Clone, Debug)]
pub enum CacheError {
    RedisPoolError(String),
    RedisTypeError(String),
    RedisCMDError(String),
    RedisClientError(String),
    RedisPongError,
    Other(String),
}

/// Failures of the messaging-bridge client. Each detail is the rendered
/// text of the underlying failure.
#[derive(Clone, Debug)]
pub enum MatrixError {
    ReqwestError(String),
    ParseError(String),
    SerdeError(String),
    IOError(String),
    CacheError(CacheError),
    ParseIntError(String),
    Other(String),
}

/// Service-internal failures.
#[derive(Clone, Debug)]
pub enum AbotError {
    CacheError(CacheError),
    Utf8Error(String),
    MatrixError(String),
    SubscriptionFinished,
    ReqwestError(String),
    ParseError(String),
    SerdeError(String),
    IOError(String),
    Other(String),
}

/// Client-facing failures.
#[derive(Clone, Debug, PartialEq)]
pub enum ApiError {
    BadRequest(String),
    NotFound(String),
    InternalServerError(String),
}

/// The mathematical value of an [`ApiError`].
pub enum ApiErrorView {
    BadRequest(Seq<char>),
    NotFound(Seq<char>),
    InternalServerError(Seq<char>),
}

impl View for ApiError {
    type V = ApiErrorView;

    open spec fn view(&self) -> ApiErrorView {
        match self {
            ApiError::BadRequest(m) => ApiErrorView::BadRequest(m@),
            ApiError::NotFound(m) => ApiErrorView::NotFound(m@),
            ApiError::InternalServerError(m) => ApiErrorView::InternalServerError(m@),
        }
    }
}

/// Body of an error response: a list of messages.
#[derive(Clone, Debug)]
pub struct ErrorResponse {
    errors: Vec<String>,
}

impl View for ErrorResponse {
    type V = Seq<Seq<char>>;

    closed spec fn view(&self) -> Seq<Seq<char>> {
        self.errors@.map_values(|s: String| s@)
    }
}

pub open spec fn cache_text(e: CacheError) -> Seq<char> {
    match e {
        CacheError::RedisPoolError(d) => "Could not get redis connection from pool : "@ + d@,
        CacheError::RedisTypeError(d) => "Error parsing string from redis result: "@ + d@,
        CacheError::RedisCMDError(d) => "Error executing redis command: "@ + d@,
        CacheError::RedisClientError(d) => "Error creating redis client: "@ + d@,
        CacheError::RedisPongError => "Pong response error"@,
        CacheError::Other(d) => "Other error: "@ + d@,
    }
}

pub open spec fn matrix_text(e: MatrixError) -> Seq<char> {
    match e {
        MatrixError::ReqwestError(d) => "Reqwest error: "@ + d@,
        MatrixError::ParseError(d) => "ParseError error: "@ + d@,
        MatrixError::SerdeError(d) => "SerdeError error: "@ + d@,
        MatrixError::IOError(d) => "IOError error: "@ + d@,
        MatrixError::CacheError(c) => "Cache error: "@ + cache_text(c),
        MatrixError::ParseIntError(d) => "ParseInt error: "@ + d@,
        MatrixError::Other(d) => d@,
    }
}

pub open spec fn abot_text(e: AbotError) -> Seq<char> {
    match e {
        AbotError::CacheError(c) => "Cache error: "@ + cache_text(c),
        AbotError::Utf8Error(d) => "Utf8 error: "@ + d@,
        AbotError::MatrixError(d) => "Matrix error: "@ + d@,
        AbotError::SubscriptionFinished => "Subscription finished"@,
        AbotError::ReqwestError(d) => "Reqwest error: "@ + d@,
        AbotError::ParseError(d) => "ParseError error: "@ + d@,
        AbotError::SerdeError(d) => "SerdeError error: "@ + d@,
        AbotError::IOError(d) => "IOError error: "@ + d@,
        AbotError::Other(d) => "Other error: "@ + d@,
    }
}

/// Text substituted for a failure whose rendering came out empty.
pub open spec fn fallback_text() -> Seq<char> {
    "Unknown error"@
}

/// A message as shown to clients: never empty.
pub open spec fn shown(t: Seq<char>) -> Seq<char> {
    if t.len() == 0 {
        fallback_text()
    } else {
        t
    }
}

/// The client-facing error for an ad hoc internal reason.
pub open spec fn internal(t: Seq<char>) -> ApiErrorView {
    ApiErrorView::InternalServerError(shown(t))
}

pub open spec fn api_message(v: ApiErrorView) -> Seq<char> {
    match v {
        ApiErrorView::BadRequest(m) => m,
        ApiErrorView::NotFound(m) => m,
        ApiErrorView::InternalServerError(m) => m,
    }
}

pub open spec fn api_status(v: ApiErrorView) -> u16 {
    match v {
        ApiErrorView::BadRequest(_) => 400,
        ApiErrorView::NotFound(_) => 404,
        ApiErrorView::InternalServerError(_) => 500,
    }
}

fn prefixed(prefix: &str, detail: &String) -> (r: String)
    ensures
        r@ == prefix@ + detail@,
{
    let mut r = String::from_str(prefix);
    r.append(detail.as_str());
    r
}

impl CacheError {
    /// Human-readable description.
    pub fn render(&self) -> (r: String)
        ensures
            r@ == cache_text(*self),
    {
        match self {
            CacheError::RedisPoolError(d) => prefixed("Could not get redis connection from pool : ", d),
            CacheError::RedisTypeError(d) => prefixed("Error parsing string from redis result: ", d),
            CacheError::RedisCMDError(d) => prefixed("Error executing redis command: ", d),
            CacheError::RedisClientError(d) => prefixed("Error creating redis client: ", d),
            CacheError::RedisPongError => String::from_str("Pong response error"),
            CacheError::Other(d) => prefixed("Other error: ", d),
        }
    }
}

impl MatrixError {
    /// Human-readable description.
    pub fn render(&self) -> (r: String)
        ensures
            r@ == matrix_text(*self),
    {
        match self {
            MatrixError::ReqwestError(d) => prefixed("Reqwest error: ", d),
            MatrixError::ParseError(d) => prefixed("ParseError error: ", d),
            MatrixError::SerdeError(d) => prefixed("SerdeError error: ", d),
            MatrixError::IOError(d) => prefixed("IOError error: ", d),
            MatrixError::CacheError(c) => {
                let t = c.render();
                prefixed("Cache error: ", &t)
            },
            MatrixError::ParseIntError(d) => prefixed("ParseInt error: ", d),
            MatrixError::Other(d) => d.clone(),
        }
    }
}

impl AbotError {
    /// Human-readable description.
    pub fn render(&self) -> (r: String)
        ensures
            r@ == abot_text(*self),
    {
        match self {
            AbotError::CacheError(c) => {
                let t = c.render();
                prefixed("Cache error: ", &t)
            },
            AbotError::Utf8Error(d) => prefixed("Utf8 error: ", d),
            AbotError::MatrixError(d) => prefixed("Matrix error: ", d),
            AbotError::SubscriptionFinished => String::from_str("Subscription finished"),
            AbotError::ReqwestError(d) => prefixed("Reqwest error: ", d),
            AbotError::ParseError(d) => prefixed("ParseError error: ", d),
            AbotError::SerdeError(d) => prefixed("SerdeError error: ", d),
            AbotError::IOError(d) => prefixed("IOError error: ", d),
            AbotError::Other(d) => prefixed("Other error: ", d),
        }
    }

    /// An ad hoc internal reason.
    pub fn from_reason(reason: &str) -> (r: AbotError)
        ensures
            r matches AbotError::Other(d) && d@ == reason@,
    {
        AbotError::Other(String::from_str(reason))
    }

    /// Wraps a cache failure.
    pub fn from_cache(e: CacheError) -> (r: AbotError)
        ensures
            r == AbotError::CacheError(e),
    {
        AbotError::CacheError(e)
    }

    /// Folds a messaging-bridge failure into its description.
    pub fn from_matrix(e: MatrixError) -> (r: AbotError)
        ensures
            r matches AbotError::MatrixError(d) && d@ == matrix_text(e),
    {
        AbotError::MatrixError(e.render())
    }
}

impl MatrixError {
    /// Wraps a cache failure.
    pub fn from_cache(e: CacheError) -> (r: MatrixError)
        ensures
            r == MatrixError::CacheError(e),
    {
        MatrixError::CacheError(e)
    }
}

fn shown_string(t: String) -> (r: String)
    ensures
        r@ == shown(t@),
{
    if t.as_str().is_empty() {
        String::from_str("Unknown error")
    } else {
        t
    }
}

impl ApiError {
    /// An ad hoc internal reason, reported as an internal server error.
    pub fn from_reason(reason: &str) -> (r: ApiError)
        ensures
            r@ == internal(reason@),
    {
        ApiError::InternalServerError(shown_string(String::from_str(reason)))
    }

    /// A raw I/O or serialization failure, given by its debug rendering.
    pub fn from_debug(rendered: String) -> (r: ApiError)
        ensures
            r@ == internal(rendered@),
    {
        ApiError::InternalServerError(shown_string(rendered))
    }

    /// A cache failure, reported as an internal server error.
    pub fn from_cache(e: CacheError) -> (r: ApiError)
        ensures
            r@ == internal(cache_text(e)),
    {
        ApiError::InternalServerError(shown_string(e.render()))
    }

    /// A messaging-bridge failure, reported as an internal server error.
    pub fn from_matrix(e: MatrixError) -> (r: ApiError)
        ensures
            r@ == internal(matrix_text(e)),
    {
        ApiError::InternalServerError(shown_string(e.render()))
    }

    /// A service-internal failure, reported through its description.
    pub fn from_abot(e: AbotError) -> (r: ApiError)
        ensures
            r@ == internal(abot_text(e)),
    {
        ApiError::InternalServerError(shown_string(e.render()))
    }

    /// HTTP status of the response for this error.
    pub fn status_code(&self) -> (r: u16)
        ensures
            r == api_status(self@),
    {
        match self {
            ApiError::BadRequest(_) => 400,
            ApiError::NotFound(_) => 404,
            ApiError::InternalServerError(_) => 500,
        }
    }

    /// The message carried by this error.
    pub fn message(&self) -> (r: &String)
        ensures
            r@ == api_message(self@),
    {
        match self {
            ApiError::BadRequest(m) => m,
            ApiError::NotFound(m) => m,
            ApiError::InternalServerError(m) => m,
        }
    }

    /// Status and body of the HTTP response for this error.
    pub fn error_response(&self) -> (r: (u16, ErrorResponse))
        ensures
            r.0 == api_status(self@),
            r.1@ == seq![api_message(self@)],
    {
        (self.status_code(), ErrorResponse::from_message(self.message()))
    }
}

impl ErrorResponse {
    /// A body holding the single message `m`.
    pub fn from_message(m: &String) -> (r: ErrorResponse)
        ensures
            r@ == seq![m@],
    {
        let r = ErrorResponse { errors: vec![m.clone()] };
        assert(r@ =~= seq![m@]);
        r
    }

    /// The messages of this body.
    pub fn errors(&self) -> (r: &Vec<String>)
        ensures
            r@.map_values(|s: String| s@) == self@,
    {
        &self.errors
    }
}

/// Every internal failure, whatever its family, reaches the client as an
/// internal server error with a non-empty message, and its response has
/// status 500 and exactly one message.
pub proof fn lemma_every_failure_is_reported(c: CacheError, m: MatrixError, a: AbotError, t: Seq<char>)
    ensures
        internal(cache_text(c)) is InternalServerError,
        internal(matrix_text(m)) is InternalServerError,
        internal(abot_text(a)) is InternalServerError,
        internal(t) is InternalServerError,
        api_message(internal(cache_text(c))).len() > 0,
        api_message(internal(matrix_text(m))).len() > 0,
        api_message(internal(abot_text(a))).len() > 0,
        api_message(internal(t)).len() > 0,
        api_status(internal(t)) == 500,
{
    reveal_strlit("Unknown error");
}

/// A failure whose description is not empty reaches the client unchanged.
pub proof fn lemma_descriptions_kept(t: Seq<char>)
    requires
        t.len() > 0,
    ensures
        api_message(internal(t)) == t,
{
}

} // verus!
