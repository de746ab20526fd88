//! Turning a logical call (method, parameters or stream) into the parts of an
//! HTTP request: the query string, the body and its content type.

use vstd::prelude::*;
use vstd::string::*;
use crate::encode::{create_query, encode_query, pairs_view};

verus! {

/// The HTTP methods that the API is called with.
#[derive(Clone, Copy, Debug, PartialEq, Eq, Structural)]
pub enum Method {
    Get,
    Post,
    Put,
    Delete,
    Head,
}

/// GET, DELETE and HEAD carry their parameters in the query string; the
/// other methods carry a body.
pub open spec fn has_body(m: Method) -> bool {
    !(m is Get || m is Delete || m is Head)
}

/// Whether a request with this method carries a body.
pub fn method_has_body(m: Method) -> (r: bool)
    ensures
        r == has_body(m),
{
    match m {
        Method::Get | Method::Delete | Method::Head => false,
        _ => true,
    }
}

/// The value of a request parameter: text, or a file that the caller reads
/// from (named by the caller's own index of its open files).
#[derive(Clone, Debug)]
pub enum ParameterValue {
    Text(String),
    File(usize),
}

/// A raw payload: its declared MIME type and, when known, its length. The
/// bytes themselves stay with the caller, which streams them to the transport.
#[derive(Clone, Debug)]
pub struct StreamContent {
    pub content_type: String,
    pub content_length: Option<u64>,
}

/// What a request carries: named parameters in order, or a raw payload.
#[derive(Clone, Debug)]
pub enum RequestContent {
    KeyValuePairs(Vec<(String, ParameterValue)>),
    Stream(StreamContent),
}

/// How the body of a request is to be sent.
#[derive(Clone, Debug)]
pub enum RequestBody {
    /// No body.
    Empty,
    /// A URL-encoded form.
    Form(String),
    /// The caller's stream, sent with this fixed length.
    Sized(u64),
    /// The caller's stream, sent chunked.
    Chunked,
}

/// The request-dependent parts of an outgoing request.
#[derive(Clone, Debug)]
pub struct RequestParts {
    /// The new query string of the URL, when it is to be replaced.
    pub query: Option<String>,
    pub body: RequestBody,
    /// The `Content-Type` header, when one is sent.
    pub content_type: Option<String>,
}

/// A request that this layer does not know how to encode.
#[derive(Clone, Copy, Debug, PartialEq, Eq, Structural)]
pub enum BuildError {
    /// File parameters in a body: multipart encoding is not implemented.
    MultipartNotImplemented,
}

pub open spec fn is_file(v: ParameterValue) -> bool {
    v is File
}

/// Whether any parameter is a file.
pub open spec fn has_file(ps: Seq<(String, ParameterValue)>) -> bool {
    exists|i: int| 0 <= i < ps.len() && is_file(#[trigger] ps[i].1)
}

/// The text of a parameter value; a file has none.
pub open spec fn value_text(v: ParameterValue) -> Seq<char> {
    match v {
        ParameterValue::Text(t) => t@,
        ParameterValue::File(_) => seq![],
    }
}

/// The parameters as text pairs.
pub open spec fn param_pairs(ps: Seq<(String, ParameterValue)>) -> Seq<(Seq<char>, Seq<char>)> {
    ps.map_values(|p: (String, ParameterValue)| (p.0@, value_text(p.1)))
}

/// A method and content that callers must never pass: a file
/// parameter on a query-only method.
pub open spec fn file_in_query(m: Method, c: RequestContent) -> bool {
    !has_body(m) && match c {
        RequestContent::KeyValuePairs(ps) => has_file(ps@),
        RequestContent::Stream(_) => false,
    }
}

/// The content type of a URL-encoded form.
pub open spec fn form_content_type() -> Seq<char> {
    "application/x-www-form-urlencoded"@
}

/// What building a request gives, given the pairs already in the URL's query.
pub open spec fn built(
    m: Method,
    existing: Seq<(Seq<char>, Seq<char>)>,
    c: RequestContent,
    r: Result<RequestParts, BuildError>,
) -> bool {
    match c {
        RequestContent::KeyValuePairs(ps) => if !has_body(m) {
            match r {
                Ok(p) => p.body is Empty && p.content_type is None && match p.query {
                    Some(q) => q@ == encode_query(existing + param_pairs(ps@)),
                    None => false,
                },
                Err(_) => false,
            }
        } else if has_file(ps@) {
            r == Err::<RequestParts, BuildError>(BuildError::MultipartNotImplemented)
        } else {
            match r {
                Ok(p) => p.query is None && match (p.body, p.content_type) {
                    (RequestBody::Form(b), Some(t)) => b@ == encode_query(param_pairs(ps@)) && t@
                        == form_content_type(),
                    _ => false,
                },
                Err(_) => false,
            }
        },
        RequestContent::Stream(s) => match r {
            Ok(p) => if !has_body(m) {
                p.body is Empty && p.content_type is None && p.query is None
            } else {
                p.query is None && match p.content_type {
                    Some(t) => t@ == s.content_type@,
                    None => false,
                } && match s.content_length {
                    Some(n) => p.body == RequestBody::Sized(n),
                    None => p.body is Chunked,
                }
            },
            Err(_) => false,
        },
    }
}

/// Whether any parameter is a file.
fn is_multipart(params: &Vec<(String, ParameterValue)>) -> (r: bool)
    ensures
        r == has_file(params@),
{
    let mut i: usize = 0;
    while i < params.len()
        invariant
            0 <= i <= params.len(),
            forall|j: int| 0 <= j < i ==> !is_file(#[trigger] params@[j].1),
        decreases params.len() - i,
    {
        if let ParameterValue::File(_) = params[i].1 {
            return true;
        }
        i = i + 1;
    }
    false
}

/// The text pairs of `existing` followed by those of `params`, copied.
fn merged_pairs(existing: &Vec<(String, String)>, params: &Vec<(String, ParameterValue)>) -> (r: Vec<
    (String, String),
>)
    ensures
        pairs_view(r@) == pairs_view(existing@) + param_pairs(params@),
{
    let mut out: Vec<(String, String)> = Vec::new();
    let mut i: usize = 0;
    while i < existing.len()
        invariant
            0 <= i <= existing.len(),
            pairs_view(out@) == pairs_view(existing@).take(i as int),
        decreases existing.len() - i,
    {
        let k = existing[i].0.clone();
        let v = existing[i].1.clone();
        let ghost before = out@;
        out.push((k, v));
        proof {
            assert(out@ == before.push((k, v)));
            assert(pairs_view(out@) =~= pairs_view(before).push((k@, v@)));
            assert(pairs_view(existing@).take(i + 1) =~= pairs_view(existing@).take(i as int).push(
                pairs_view(existing@)[i as int],
            ));
        }
        i = i + 1;
    }
    let mut j: usize = 0;
    while j < params.len()
        invariant
            0 <= j <= params.len(),
            pairs_view(out@) == pairs_view(existing@) + param_pairs(params@).take(j as int),
        decreases params.len() - j,
    {
        let v = match &params[j].1 {
            ParameterValue::Text(t) => t.clone(),
            ParameterValue::File(_) => String::new(),
        };
        let k = params[j].0.clone();
        let ghost before = out@;
        out.push((k, v));
        proof {
            assert(out@ == before.push((k, v)));
            assert(v@ == value_text(params@[j as int].1));
            assert(pairs_view(out@) =~= pairs_view(before).push((k@, v@)));
            assert(param_pairs(params@).take(j + 1) =~= param_pairs(params@).take(j as int).push(
                param_pairs(params@)[j as int],
            ));
            assert(pairs_view(out@) =~= pairs_view(existing@) + param_pairs(params@).take(j + 1));
        }
        j = j + 1;
    }
    proof {
        assert(param_pairs(params@).take(j as int) =~= param_pairs(params@));
        assert(pairs_view(existing@).take(existing@.len() as int) =~= pairs_view(existing@));
    }
    out
}

/// Decides where the content goes. A query-only method puts its parameters,
/// after the pairs already in the URL's query (`existing`), into a new query
/// string and sends no body. Another method sends its parameters as a
/// URL-encoded form, or the stream with its declared type, fixed-length when
/// its length is known and chunked otherwise. File parameters in a body are
/// refused as not implemented; on a query-only method they are a caller error.
pub fn build_request(method: Method, existing: &Vec<(String, String)>, content: &RequestContent) -> (r:
    Result<RequestParts, BuildError>)
    requires
        !file_in_query(method, *content),
    ensures
        built(method, pairs_view(existing@), *content, r),
{
    let with_body = method_has_body(method);
    match content {
        RequestContent::KeyValuePairs(params) => {
            if !with_body {
                let all = merged_pairs(existing, params);
                let q = create_query(&all);
                Ok(RequestParts { query: Some(q), body: RequestBody::Empty, content_type: None })
            } else if is_multipart(params) {
                Err(BuildError::MultipartNotImplemented)
            } else {
                let none: Vec<(String, String)> = Vec::new();
                let texts = merged_pairs(&none, params);
                proof {
                    assert(pairs_view(none@) =~= Seq::<(Seq<char>, Seq<char>)>::empty());
                    assert(pairs_view(texts@) =~= param_pairs(params@));
                }
                let b = create_query(&texts);
                let t = String::from_str("application/x-www-form-urlencoded");
                Ok(RequestParts { query: None, body: RequestBody::Form(b), content_type: Some(t) })
            }
        },
        RequestContent::Stream(s) => {
            if !with_body {
                Ok(RequestParts { query: None, body: RequestBody::Empty, content_type: None })
            } else {
                let body = match s.content_length {
                    Some(n) => RequestBody::Sized(n),
                    None => RequestBody::Chunked,
                };
                Ok(
                    RequestParts {
                        query: None,
                        body,
                        content_type: Some(s.content_type.clone()),
                    },
                )
            }
        },
    }
}

} // verus!
