//! Response construction.
//!
//! A response is built from a resource path and the outcome of the one file
//! read the host performs for the request: bytes on success, nothing on any
//! read failure. Success yields status 200, the resolved MIME type and four
//! fixed cross-origin-isolation headers; failure yields status 404 with an
//! empty body and no headers.

use vstd::prelude::*;
use crate::mime::get_mime_type;
use crate::mime::mime_type_of;
use crate::uri::resource_path_of;

verus! {

/// An HTTP-like response: transient, produced once per request.
pub struct ContentResponse {
    pub status: u16,
    pub headers: Vec<(String, String)>,
    pub body: Vec<u8>,
}

/// The header list of a successful response: the resolved content type,
/// permissive CORS, and the three cross-origin-isolation headers a webview
/// needs for certain Wasm features.
pub open spec fn success_headers(mime: Seq<char>) -> Seq<(Seq<char>, Seq<char>)> {
    seq![
        ("Content-Type"@, mime),
        ("Access-Control-Allow-Origin"@, "*"@),
        ("Cross-Origin-Opener-Policy"@, "same-origin"@),
        ("Cross-Origin-Embedder-Policy"@, "require-corp"@),
        ("Cross-Origin-Resource-Policy"@, "cross-origin"@),
    ]
}

/// The read outcome as a mathematical value: the bytes read, or nothing.
pub open spec fn bytes_view(data: Option<Vec<u8>>) -> Option<Seq<u8>> {
    match data {
        Option::Some(d) => Option::Some(d@),
        Option::None => Option::None,
    }
}

/// The status a read outcome earns: 200 when the read succeeded, 404 on any
/// failure.
pub open spec fn response_status_of(data: Option<Seq<u8>>) -> int {
    if data is Some {
        200
    } else {
        404
    }
}

/// The body a read outcome earns: the bytes read, or an empty body.
pub open spec fn response_body_of(data: Option<Seq<u8>>) -> Seq<u8> {
    match data {
        Option::Some(d) => d,
        Option::None => Seq::empty(),
    }
}

/// The headers a response carries: the full success set for a served
/// resource, none for a failed read.
pub open spec fn response_headers_of(path: Seq<char>, data: Option<Seq<u8>>) -> Seq<
    (Seq<char>, Seq<char>),
> {
    if data is Some {
        success_headers(mime_type_of(path))
    } else {
        Seq::empty()
    }
}

/// The header list `hs` carries exactly the pairs of `model`, in order.
pub open spec fn headers_match(hs: Seq<(String, String)>, model: Seq<(Seq<char>, Seq<char>)>) -> bool {
    &&& hs.len() == model.len()
    &&& forall|i: int| 0 <= i < hs.len() ==> (#[trigger] hs[i]).0@ == model[i].0 && hs[i].1@ == model[i].1
}

/// Builds the response for one request from its resource path and its read
/// outcome: 200 with the bytes, the MIME type and the fixed header set on
/// success; 404 with an empty body and no headers on any read failure.
pub fn content_response(resource_path: &str, data: Option<Vec<u8>>) -> (r: ContentResponse)
    ensures
        r.status == response_status_of(bytes_view(data)),
        r.body@ == response_body_of(bytes_view(data)),
        headers_match(r.headers@, response_headers_of(resource_path@, bytes_view(data))),
{
    match data {
        Option::Some(bytes) => {
            let mime: &str = get_mime_type(resource_path);
            let mut headers: Vec<(String, String)> = Vec::new();
            headers.push(("Content-Type".to_owned(), mime.to_owned()));
            headers.push(("Access-Control-Allow-Origin".to_owned(), "*".to_owned()));
            headers.push(("Cross-Origin-Opener-Policy".to_owned(), "same-origin".to_owned()));
            headers.push(("Cross-Origin-Embedder-Policy".to_owned(), "require-corp".to_owned()));
            headers.push(("Cross-Origin-Resource-Policy".to_owned(), "cross-origin".to_owned()));
            ContentResponse { status: 200, headers, body: bytes }
        },
        Option::None => {
            ContentResponse { status: 404, headers: Vec::new(), body: Vec::new() }
        },
    }
}

/// No cross-talk between requests: a response is determined by its own
/// request's URI and read outcome alone, so concurrently handled requests
/// cannot influence one another — equal inputs always receive equal
/// responses, whatever else is in flight.
pub proof fn lemma_responses_independent(
    uri1: Seq<char>,
    data1: Option<Seq<u8>>,
    uri2: Seq<char>,
    data2: Option<Seq<u8>>,
)
    requires
        uri1 == uri2,
        data1 == data2,
    ensures
        response_status_of(data1) == response_status_of(data2),
        response_body_of(data1) == response_body_of(data2),
        response_headers_of(resource_path_of(uri1), data1) == response_headers_of(
            resource_path_of(uri2),
            data2,
        ),
{
}

} // verus!
