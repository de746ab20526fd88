//! Application-only authentication: a static bearer token attached to every
//! request, and the preparation of a request from a URL string.

use vstd::prelude::*;
use crate::encode::pairs_view;
use crate::request::{build_request, built, file_in_query, BuildError, Method, RequestContent, RequestParts};

verus! {

#[verifier::external_type_specification]
#[verifier::external_body]
pub struct ExUrl(url::Url);

#[verifier::external_type_specification]
#[verifier::external_body]
pub struct ExParseError(url::ParseError);

/// Whether a text is an absolute URL that url's parser accepts.
pub uninterp spec fn url_parses(s: Seq<char>) -> bool;

/// Relies on `url::Url::parse`: it succeeds exactly on the texts it accepts.
#[verifier::external_body]
fn parse_url(s: &str) -> (r: Result<url::Url, url::ParseError>)
    ensures
        r is Ok <==> url_parses(s@),
{
    url::Url::parse(s)
}

/// Relies on `url::Url::query_pairs`: the decoded pairs of the URL's query.
#[verifier::external_body]
fn url_query_pairs(u: &url::Url) -> Vec<(String, String)> {
    u.query_pairs().map(|(k, v)| (k.into_owned(), v.into_owned())).collect()
}

/// Relies on `url::Url::set_query`: replaces the URL's query.
#[verifier::external_body]
fn set_url_query(u: &mut url::Url, q: &str) {
    u.set_query(Some(q))
}

/// The value of an `Authorization: Bearer` header.
#[derive(Clone, Debug, PartialEq, Eq)]
pub struct Bearer {
    pub token: String,
}

/// Authenticates every request with one application-only access token.
#[derive(Clone, Debug)]
pub struct ApplicationOnlyAuthenticator {
    pub access_token: String,
}

/// A request ready for the transport: method, final URL, body parts and the
/// authorization to attach.
#[derive(Debug)]
pub struct PreparedRequest {
    pub method: Method,
    pub url: url::Url,
    pub parts: RequestParts,
    pub authorization: Bearer,
}

/// Why a request could not be prepared.
#[derive(Clone, Copy, Debug)]
pub enum RequestError {
    /// The URL did not parse, with the parser's reason.
    InvalidUrl(url::ParseError),
    /// The content could not be encoded.
    Build(BuildError),
}

/// Whether a prepared request (or its failure to build) is what
/// `build_request` gives for these pairs already in the URL's query.
pub open spec fn prepared_as(
    m: Method,
    existing: Seq<(Seq<char>, Seq<char>)>,
    c: RequestContent,
    r: Result<PreparedRequest, RequestError>,
) -> bool {
    match r {
        Ok(p) => built(m, existing, c, Ok(p.parts)),
        Err(RequestError::Build(e)) => built(m, existing, c, Err(e)),
        Err(RequestError::InvalidUrl(_)) => false,
    }
}

impl ApplicationOnlyAuthenticator {
    pub fn new(access_token: String) -> (r: ApplicationOnlyAuthenticator)
        ensures
            r.access_token@ == access_token@,
    {
        ApplicationOnlyAuthenticator { access_token }
    }

    /// The bearer scheme carrying the access token, the same on every call.
    pub fn create_authorization_header(&self) -> (r: Option<Bearer>)
        ensures
            r matches Some(b) && b.token@ == self.access_token@,
    {
        Some(Bearer { token: self.access_token.clone() })
    }

    /// Parses the URL and builds the request for it, authorized with the
    /// access token. An unparseable URL fails before anything else; otherwise
    /// the parts are those that `build_request` gives for the pairs already in
    /// the URL's query.
    pub fn prepare_request(&self, method: Method, url: &str, content: &RequestContent) -> (r: Result<
        PreparedRequest,
        RequestError,
    >)
        requires
            !file_in_query(method, *content),
        ensures
            !url_parses(url@) <==> r matches Err(RequestError::InvalidUrl(_)),
            url_parses(url@) ==> exists|existing: Seq<(Seq<char>, Seq<char>)>|
                prepared_as(method, existing, *content, r),
            r matches Ok(p) ==> p.method == method && p.authorization.token@ == self.access_token@,
    {
        match parse_url(url) {
            Err(e) => Err(RequestError::InvalidUrl(e)),
            Ok(mut u) => {
                let existing = url_query_pairs(&u);
                let built_parts = build_request(method, &existing, content);
                proof {
                    assert(built(method, pairs_view(existing@), *content, built_parts));
                }
                let r = match built_parts {
                    Err(e) => Err(RequestError::Build(e)),
                    Ok(parts) => {
                        if let Some(q) = &parts.query {
                            set_url_query(&mut u, q.as_str());
                        }
                        let token = self.access_token.clone();
                        Ok(
                            PreparedRequest {
                                method,
                                url: u,
                                parts,
                                authorization: Bearer { token },
                            },
                        )
                    },
                };
                proof {
                    assert(prepared_as(method, pairs_view(existing@), *content, r));
                }
                r
            },
        }
    }
}

} // verus!
