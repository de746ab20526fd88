//! Turning a received response into a success envelope or a classified error,
//! with the rate-limit status read from its headers.

use vstd::prelude::*;

verus! {

/// The quota counters that the API reports in its response headers.
#[derive(Clone, Copy, Debug, PartialEq, Eq, Structural)]
pub struct RateLimitStatus {
    pub limit: i32,
    pub remaining: i32,
    pub reset: i32,
}

/// One entry of the error list of an error response.
#[derive(Clone, Debug)]
pub struct ErrorCode {
    pub code: i32,
    pub message: String,
}

/// The two shapes an error body may take: an `errors` list or an `error` list.
#[derive(Clone, Debug)]
pub struct InternalErrorResponse {
    pub errors: Option<Vec<ErrorCode>>,
    pub error: Option<Vec<ErrorCode>>,
}

/// A successful call: the payload, the body text as received and the
/// rate-limit status.
#[derive(Clone, Debug)]
pub struct TwitterResponse<T> {
    pub object: T,
    pub raw_response: String,
    pub rate_limit: Option<RateLimitStatus>,
}

/// A non-2xx response that was received and read.
#[derive(Clone, Debug)]
pub struct ErrorResponse {
    pub status: u16,
    pub errors: Option<Vec<ErrorCode>>,
    pub raw_response: String,
    pub rate_limit: Option<RateLimitStatus>,
}

/// A failure below the API: the request could not be sent or read.
#[derive(Clone, Debug, PartialEq, Eq)]
pub enum HttpError {
    /// The URL did not parse; nothing was sent.
    InvalidUrl,
    /// The transport failed; its message.
    Network(String),
    /// Reading the body failed; its message.
    Io(String),
}

/// Every way a call can fail.
#[derive(Clone, Debug)]
pub enum TwitterError {
    ErrorResponse(ErrorResponse),
    HttpError(HttpError),
}

pub type TwitterResult<T> = Result<TwitterResponse<T>, TwitterError>;

/// A response as the transport delivered it: the status, the first value of
/// each rate-limit header that was present, and the body or the error that
/// reading it gave.
#[derive(Debug)]
pub struct RawResponse {
    pub status: u16,
    pub limit_header: Option<String>,
    pub remaining_header: Option<String>,
    pub reset_header: Option<String>,
    pub body: Result<String, String>,
}

/// Whether every character is an ASCII digit.
pub open spec fn all_digits(s: Seq<char>) -> bool {
    forall|i: int| 0 <= i < s.len() ==> '0' <= #[trigger] s[i] <= '9'
}

/// The value of a string of decimal digits.
pub open spec fn digits_value(s: Seq<char>) -> int
    decreases s.len(),
{
    if s.len() == 0 {
        0
    } else {
        digits_value(s.drop_last()) * 10 + (s.last() as int - '0' as int)
    }
}

/// The integer a text spells: an optional sign followed by at least one digit.
pub open spec fn decimal_value(s: Seq<char>) -> Option<int> {
    if s.len() > 1 && (s[0] == '-' || s[0] == '+') && all_digits(s.drop_first()) {
        if s[0] == '-' {
            Some(-digits_value(s.drop_first()))
        } else {
            Some(digits_value(s.drop_first()))
        }
    } else if s.len() > 0 && all_digits(s) {
        Some(digits_value(s))
    } else {
        None
    }
}

/// The `i32` a text spells, if it spells one in range.
pub open spec fn parse_i32(s: Seq<char>) -> Option<i32> {
    match decimal_value(s) {
        Some(v) => if i32::MIN <= v <= i32::MAX {
            Some(v as i32)
        } else {
            None
        },
        None => None,
    }
}

/// Relies on `str::parse::<i32>`: an optional `+` or `-` and then only
/// digits, in range; anything else is an error.
#[verifier::external_body]
fn parse_int(s: &str) -> (r: Option<i32>)
    ensures
        r == parse_i32(s@),
{
    s.parse::<i32>().ok()
}

/// The value of an optional header.
pub open spec fn header_value(h: Option<String>) -> Option<i32> {
    match h {
        Some(t) => parse_i32(t@),
        None => None,
    }
}

/// The rate-limit status that three optional header values give: present
/// exactly when all three are integers.
pub open spec fn rate_limit_of(
    limit: Option<String>,
    remaining: Option<String>,
    reset: Option<String>,
) -> Option<RateLimitStatus> {
    match (header_value(limit), header_value(remaining), header_value(reset)) {
        (Some(l), Some(m), Some(r)) => Some(RateLimitStatus { limit: l, remaining: m, reset: r }),
        _ => None,
    }
}

fn header_int(h: &Option<String>) -> (r: Option<i32>)
    ensures
        r == header_value(*h),
{
    match h {
        Some(t) => parse_int(t.as_str()),
        None => None,
    }
}

/// Reads the rate-limit status from the values of the `X-Rate-Limit-Limit`,
/// `X-Rate-Limit-Remaining` and `X-Rate-Limit-Reset` headers. It is absent,
/// never partial, unless all three are present and parse.
pub fn rate_limit_status(
    limit: &Option<String>,
    remaining: &Option<String>,
    reset: &Option<String>,
) -> (r: Option<RateLimitStatus>)
    ensures
        r == rate_limit_of(*limit, *remaining, *reset),
{
    let l = header_int(limit);
    let m = header_int(remaining);
    let s = header_int(reset);
    match (l, m, s) {
        (Some(l), Some(m), Some(s)) => Some(RateLimitStatus { limit: l, remaining: m, reset: s }),
        _ => None,
    }
}

/// The rate-limit status is all or nothing: it is present exactly when each
/// of the three headers is present and holds an integer, and then it holds
/// those three integers; one header missing or malformed leaves it absent.
pub proof fn lemma_rate_limit_all_or_nothing(
    limit: Option<String>,
    remaining: Option<String>,
    reset: Option<String>,
)
    ensures
        rate_limit_of(limit, remaining, reset) is Some <==> (header_value(limit) is Some
            && header_value(remaining) is Some && header_value(reset) is Some),
        rate_limit_of(limit, remaining, reset) matches Some(st) ==> (header_value(limit) == Some(
            st.limit,
        ) && header_value(remaining) == Some(st.remaining) && header_value(reset) == Some(
            st.reset,
        )),
{
}

/// A 2xx status.
pub open spec fn is_success(status: u16) -> bool {
    200 <= status <= 299
}

/// The error list of a parsed error body: `errors`, else `error`.
pub open spec fn error_list(parsed: Option<InternalErrorResponse>) -> Option<Vec<ErrorCode>> {
    match parsed {
        Some(p) => match p.errors {
            Some(e) => Some(e),
            None => p.error,
        },
        None => None,
    }
}

/// What a call returns, given what the transport delivered and, for an error
/// body, what it parsed to (`None` when it was not a valid error body).
pub open spec fn twitter_result_of(
    source: Result<RawResponse, HttpError>,
    parsed: Option<InternalErrorResponse>,
    r: TwitterResult<()>,
) -> bool {
    match source {
        Err(e) => r == Err::<TwitterResponse<()>, TwitterError>(TwitterError::HttpError(e)),
        Ok(res) => match res.body {
            Err(msg) => r == Err::<TwitterResponse<()>, TwitterError>(
                TwitterError::HttpError(HttpError::Io(msg)),
            ),
            Ok(body) => {
                let rl = rate_limit_of(res.limit_header, res.remaining_header, res.reset_header);
                if is_success(res.status) {
                    r == Ok::<TwitterResponse<()>, TwitterError>(
                        TwitterResponse { object: (), raw_response: body, rate_limit: rl },
                    )
                } else {
                    r == Err::<TwitterResponse<()>, TwitterError>(
                        TwitterError::ErrorResponse(
                            ErrorResponse {
                                status: res.status,
                                errors: error_list(parsed),
                                raw_response: body,
                                rate_limit: rl,
                            },
                        ),
                    )
                }
            },
        },
    }
}

/// Normalizes a response. A transport failure or a failed body read is an
/// `HttpError`; a 2xx status is a success envelope with the body text; any
/// other status is an `ErrorResponse` with the status, the parsed error list
/// if the body parsed, the body text and the rate-limit status.
pub fn read_to_twitter_result(
    source: Result<RawResponse, HttpError>,
    parsed: Option<InternalErrorResponse>,
) -> (r: TwitterResult<()>)
    ensures
        twitter_result_of(source, parsed, r),
{
    match source {
        Err(e) => Err(TwitterError::HttpError(e)),
        Ok(res) => {
            let rate_limit = rate_limit_status(
                &res.limit_header,
                &res.remaining_header,
                &res.reset_header,
            );
            match res.body {
                Err(msg) => Err(TwitterError::HttpError(HttpError::Io(msg))),
                Ok(body) => {
                    if 200 <= res.status && res.status <= 299 {
                        Ok(TwitterResponse { object: (), raw_response: body, rate_limit })
                    } else {
                        let errors = match parsed {
                            Some(p) => match p.errors {
                                Some(e) => Some(e),
                                None => p.error,
                            },
                            None => None,
                        };
                        Err(
                            TwitterError::ErrorResponse(
                                ErrorResponse {
                                    status: res.status,
                                    errors,
                                    raw_response: body,
                                    rate_limit,
                                },
                            ),
                        )
                    }
                },
            }
        },
    }
}

} // verus!
