//! Assembly of the outgoing "list models" request.
//!
//! A `Request` pairs a base URL with query parameters. Assembly appends
//! the fixed resource path segment to the base, encodes the parameters as
//! the query string, and yields a transport-agnostic GET request; it fails
//! with `CannotBeABase` when the base URL's scheme does not support
//! hierarchical paths, in which case the base is handed back untouched
//! inside the error.

use crate::base::BaseUrl;
use crate::params::query_string_of;
use crate::params::QueryParams;
use vstd::prelude::*;
use vstd::string::StringExecFns;

verus! {

/// The HTTP method of the outgoing request. Listing models only ever
/// issues GET.
#[derive(Debug, Clone, Copy, PartialEq, Eq, Structural)]
pub enum HttpMethod {
    Get,
}

/// The fixed path segment that identifies the "list models" endpoint.
pub open spec fn resource_path() -> Seq<char> {
    "models"@
}

/// The URL that assembly yields for a base with serialization `base` and
/// path `path`, and an encoded query string `qs`: the resource path
/// appended as one more path segment, then the query string when it is
/// not empty (no `?` is emitted for an empty query). A `/` separates the
/// new segment from the existing path, except when that path is exactly
/// the root `/`, which already ends in the separator; a path with a
/// trailing slash thus keeps its final empty segment.
pub open spec fn assembled_url(base: Seq<char>, path: Seq<char>, qs: Seq<char>) -> Seq<char> {
    let with_path = if path == "/"@ {
        base + resource_path()
    } else {
        base + "/"@ + resource_path()
    };
    if qs.len() == 0 {
        with_path
    } else {
        with_path + "?"@ + qs
    }
}

/// The one failure of request assembly: the base URL's scheme does not
/// support hierarchical paths, so no path segment can be appended. It
/// carries the offending base URL, untouched.
#[derive(Debug)]
pub enum IntoRequestError {
    CannotBeABase { url: BaseUrl },
}

/// The produced artifact: a transport-agnostic description of the
/// outgoing HTTP request, a method (always GET here) and the fully
/// assembled URL. No body and no headers are set by this library.
#[derive(Debug)]
pub struct OutgoingHttpRequest {
    method: HttpMethod,
    url: String,
}

impl OutgoingHttpRequest {
    /// The HTTP method of the request.
    pub closed spec fn method_spec(&self) -> HttpMethod {
        self.method
    }

    /// The fully assembled request URL.
    pub closed spec fn url_spec(&self) -> Seq<char> {
        self.url@
    }

    /// The HTTP method of the request.
    pub fn method(&self) -> (r: HttpMethod)
        ensures
            r == self.method_spec(),
    {
        self.method
    }

    /// The fully assembled request URL.
    pub fn url(&self) -> (r: &str)
        ensures
            r@ == self.url_spec(),
    {
        self.url.as_str()
    }
}

/// A list request before assembly: a base URL paired with the query
/// parameters. It is consumed when the outgoing request is built.
#[derive(Debug)]
pub struct Request {
    base: BaseUrl,
    query_params: QueryParams,
}

impl Request {
    /// The base URL the request was built with.
    pub closed spec fn base_spec(&self) -> BaseUrl {
        self.base
    }

    /// The query parameters the request was built with.
    pub closed spec fn query_params_spec(&self) -> QueryParams {
        self.query_params
    }

    /// Pairs a base URL with query parameters.
    pub fn new(base: BaseUrl, query_params: QueryParams) -> (r: Request)
        ensures
            r.base_spec() == base,
            r.query_params_spec() == query_params,
    {
        Request { base, query_params }
    }

    /// Assembles the outgoing GET request: appends the resource path
    /// segment to the base and encodes the parameters as the query
    /// string. When the base cannot carry path segments, fails with
    /// `CannotBeABase` holding that base, untouched; nothing is partially
    /// mutated.
    pub fn into_http_request(self) -> (r: Result<OutgoingHttpRequest, IntoRequestError>)
        ensures
            self.base_spec().is_hierarchical() ==> (r matches Ok(out) && out.method_spec()
                == HttpMethod::Get && out.url_spec() == assembled_url(
                self.base_spec().serialization(),
                self.base_spec().path_spec(),
                query_string_of(
                    self.query_params_spec().page_size_spec(),
                    self.query_params_spec().page_token_spec(),
                ),
            )),
            !self.base_spec().is_hierarchical() ==> (r matches Err(e) && e == (
            IntoRequestError::CannotBeABase { url: self.base_spec() })),
    {
        let ghost base0 = self.base_spec();
        let Request { base, query_params } = self;
        if !base.can_be_a_base() {
            return Result::Err(IntoRequestError::CannotBeABase { url: base });
        }
        let qs = query_params.to_query_string();
        let root = base.has_root_path();
        let mut url = base.into_text();
        if !root {
            url.append("/");
        }
        url.append("models");
        if !qs.as_str().is_empty() {
            url.append("?");
            url.append(qs.as_str());
            proof {
                assert(url@ =~= assembled_url(base0.serialization(), base0.path_spec(), qs@));
            }
        } else {
            proof {
                assert(url@ =~= assembled_url(base0.serialization(), base0.path_spec(), qs@));
            }
        }
        Result::Ok(OutgoingHttpRequest { method: HttpMethod::Get, url })
    }
}

/// Assembly is deterministic: two requests whose bases have equal
/// serializations and whose parameters hold equal fields assemble to the
/// same URL, byte for byte.
pub proof fn lemma_assembly_deterministic(r1: Request, r2: Request)
    requires
        r1.base_spec().serialization() == r2.base_spec().serialization(),
        r1.base_spec().path_spec() == r2.base_spec().path_spec(),
        r1.query_params_spec().page_size_spec() == r2.query_params_spec().page_size_spec(),
        r1.query_params_spec().page_token_spec() == r2.query_params_spec().page_token_spec(),
    ensures
        assembled_url(
            r1.base_spec().serialization(),
            r1.base_spec().path_spec(),
            query_string_of(
                r1.query_params_spec().page_size_spec(),
                r1.query_params_spec().page_token_spec(),
            ),
        ) == assembled_url(
            r2.base_spec().serialization(),
            r2.base_spec().path_spec(),
            query_string_of(
                r2.query_params_spec().page_size_spec(),
                r2.query_params_spec().page_token_spec(),
            ),
        ),
{
}

} // verus!
