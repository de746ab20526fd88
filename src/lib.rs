//! Request dispatch and authentication layer of a REST API client: how a
//! logical call becomes an HTTP request, and how the HTTP response becomes a
//! uniform result.

pub mod encode;
pub mod request;
pub mod response;
pub mod auth;

pub use auth::{ApplicationOnlyAuthenticator, Bearer, PreparedRequest, RequestError};
pub use encode::create_query;
pub use request::{
    build_request, BuildError, Method, ParameterValue, RequestBody, RequestContent, RequestParts,
    StreamContent,
};
pub use response::{
    rate_limit_status, read_to_twitter_result, ErrorCode, ErrorResponse, HttpError,
    InternalErrorResponse, RateLimitStatus, RawResponse, TwitterError, TwitterResponse,
    TwitterResult,
};
