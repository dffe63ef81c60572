use vstd::prelude::*;

verus! {

/// What the transport reported about a request that never produced a
/// response: the kind of failure, and its message.
#[derive(Debug)]
pub struct RequestFailure {
    /// The request ran past its timeout.
    pub is_timeout: bool,
    /// The connection could not be established.
    pub is_connect: bool,
    /// The request itself could not be sent.
    pub is_request: bool,
    /// Human-readable description of the failure.
    pub message: String,
}

/// Every error the library reports.
#[derive(Debug)]
pub enum SerpError {
    /// No API key was given, neither explicitly nor through the environment.
    MissingApiKey,
    /// The HTTP transport could not be constructed.
    ClientBuilder(String),
    /// The request failed below the HTTP layer.
    RequestFailed(RequestFailure),
    /// The response body does not have the expected shape.
    InvalidResponse(String),
    /// The service asked to wait `retry_after` seconds before trying again.
    RateLimited { retry_after: u64 },
    /// The service answered with a non-success status other than 429.
    ApiError { code: u16, message: String },
    /// A value could not be encoded or decoded as JSON.
    Serialization(String),
    /// The query parameters could not be form-encoded.
    UrlEncoding(serde_urlencoded::ser::Error),
    /// A parameter failed local validation.
    InvalidParameter(String),
    /// The request exceeded its time budget.
    Timeout,
    /// Any other network-level failure.
    Network(String),
}

/// Result type used across the library.
pub type SerpResult<T> = Result<T, SerpError>;

#[verifier::external_type_specification]
#[verifier::external_body]
pub struct ExUrlEncodeError(serde_urlencoded::ser::Error);

/// Whether an error is transient: a transport failure of the timeout, connect
/// or request kind, a 5xx status, a timeout or another network failure.
pub open spec fn transient(e: SerpError) -> bool {
    match e {
        SerpError::RequestFailed(f) => f.is_timeout || f.is_connect || f.is_request,
        SerpError::ApiError { code, .. } => 500 <= code < 600,
        SerpError::Timeout => true,
        SerpError::Network(_) => true,
        _ => false,
    }
}

impl SerpError {
    /// Whether retrying the request that produced this error may succeed.
    pub fn is_transient(&self) -> (r: bool)
        ensures
            r == transient(*self),
    {
        match self {
            SerpError::RequestFailed(f) => f.is_timeout || f.is_connect || f.is_request,
            SerpError::ApiError { code, .. } => 500 <= *code && *code < 600,
            SerpError::Timeout => true,
            SerpError::Network(_) => true,
            _ => false,
        }
    }
}

} // verus!
