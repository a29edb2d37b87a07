//! Construction of outbound request descriptions.
//!
//! A [`RequestPlan`] is a plain value that says everything the transport
//! (an external collaborator) needs to perform one HTTP request: method,
//! target URL, query parameters, headers, and which of the two mutually
//! exclusive body encodings to use.  Building a plan performs no I/O.

use vstd::prelude::*;

use crate::cli::UploadArgs;

verus! {

/// The HTTP method of a request plan.
#[derive(Clone, Copy, Debug, PartialEq, Eq, Structural)]
pub enum Method {
    Put,
    Get,
    Delete,
}

/// The body of a request plan: exactly one encoding, or none.
pub enum BodyPlan {
    /// Multipart body carrying the content of this local file under the
    /// form field named `file`.
    MultipartFile(String),
    /// URL-encoded form body carrying `url` mapped to this remote resource.
    FormUrl(String),
    /// No body.
    Empty,
}

/// Everything the transport needs to perform one request.
pub struct RequestPlan {
    pub method: Method,
    pub url: String,
    pub query: Vec<(String, String)>,
    pub headers: Vec<(String, String)>,
    pub body: BodyPlan,
}

/// A misuse caught before any request is built.
#[derive(Clone, Copy, Debug, PartialEq, Eq, Structural)]
pub enum RequestError {
    /// Neither of the two mutually exclusive sources was given.
    MissingSource,
    /// Both of the two mutually exclusive sources were given.
    ConflictingSources,
}

/// The fixed upload endpoint of the vault service.
pub open spec fn api_endpoint_spec() -> Seq<char> {
    "https://waifuvault.moe/rest"@
}

/// The fixed upload endpoint of the vault service.
pub fn api_endpoint() -> (r: &'static str)
    ensures
        r@ == api_endpoint_spec(),
{
    "https://waifuvault.moe/rest"
}

/// The views of a sequence of query or header pairs.
pub open spec fn pairs_view(q: Seq<(String, String)>) -> Seq<(Seq<char>, Seq<char>)> {
    Seq::new(q.len(), |i: int| (q[i].0@, q[i].1@))
}

/// How a boolean is written into a query parameter.
pub open spec fn bool_str(b: bool) -> Seq<char> {
    if b {
        "true"@
    } else {
        "false"@
    }
}

/// The URL that addresses a stored file by its token.
pub open spec fn token_url_spec(token: Seq<char>) -> Seq<char> {
    api_endpoint_spec() + "/"@ + token
}

/// The query parameters of an upload request: always the hide-filename
/// flag, then `password` and `expires` when present.
pub open spec fn upload_query_spec(args: UploadArgs) -> Seq<(Seq<char>, Seq<char>)> {
    let q = seq![("hide_filename"@, bool_str(args.hide_filename))];
    let q = match args.password {
        Some(p) => q.push(("password"@, p@)),
        None => q,
    };
    match args.expires {
        Some(e) => q.push(("expires"@, e@)),
        None => q,
    }
}

/// Whether the upload arguments name exactly one source to store.
pub open spec fn one_upload_source(args: UploadArgs) -> bool {
    (args.file is Some) <==> (args.url is None)
}

/// The shape of a built upload plan: the store-or-replace verb on the
/// fixed endpoint, the upload query parameters, and the body encoding the
/// single source selects.
pub open spec fn upload_plan(plan: RequestPlan, args: UploadArgs) -> bool {
    &&& plan.method == Method::Put
    &&& plan.url@ == api_endpoint_spec()
    &&& pairs_view(plan.query@) == upload_query_spec(args)
    &&& plan.headers@.len() == 0
    &&& (args.file matches Some(f) ==> plan.body matches BodyPlan::MultipartFile(p) && p@ == f@)
    &&& (args.url matches Some(u) ==> plan.body matches BodyPlan::FormUrl(p) && p@ == u@)
}

/// What building an upload request returns: a plan exactly when one
/// source is given, and the matching precondition error otherwise.
pub open spec fn upload_build_spec(r: Result<RequestPlan, RequestError>, args: UploadArgs) -> bool {
    &&& r is Ok <==> one_upload_source(args)
    &&& (args.file is Some && args.url is Some ==> r == Err::<RequestPlan, RequestError>(
        RequestError::ConflictingSources,
    ))
    &&& (args.file is None && args.url is None ==> r == Err::<RequestPlan, RequestError>(
        RequestError::MissingSource,
    ))
    &&& (r matches Ok(plan) ==> upload_plan(plan, args))
}

/// The shape of a metadata request: a GET of the token's URL asking for
/// human-readable timestamps.
pub open spec fn metadata_plan(plan: RequestPlan, token: Seq<char>) -> bool {
    &&& plan.method == Method::Get
    &&& plan.url@ == token_url_spec(token)
    &&& pairs_view(plan.query@) == seq![("formatted"@, "true"@)]
    &&& plan.headers@.len() == 0
    &&& plan.body is Empty
}

/// The shape of a delete request: a DELETE of the token's URL.
pub open spec fn delete_plan(plan: RequestPlan, token: Seq<char>) -> bool {
    &&& plan.method == Method::Delete
    &&& plan.url@ == token_url_spec(token)
    &&& plan.query@.len() == 0
    &&& plan.headers@.len() == 0
    &&& plan.body is Empty
}

/// The shape of a raw content request: a plain GET of the resource URL,
/// with an `x-password` header exactly when a password was supplied.
pub open spec fn content_plan(plan: RequestPlan, url: Seq<char>, password: Option<String>) -> bool {
    &&& plan.method == Method::Get
    &&& plan.url@ == url
    &&& plan.query@.len() == 0
    &&& (password matches Some(p) ==> pairs_view(plan.headers@) == seq![("x-password"@, p@)])
    &&& (password is None ==> plan.headers@.len() == 0)
    &&& plan.body is Empty
}

/// Build the store-or-replace request for an upload.
///
/// The body is a multipart file upload when a local file is given and a
/// URL-encoded form when a remote URL is given; the caller's argument
/// validation guarantees exactly one of the two, but a misuse with both
/// or neither sources is still rejected here, before any I/O.
pub fn build_upload_request(args: &UploadArgs) -> (r: Result<RequestPlan, RequestError>)
    ensures
        upload_build_spec(r, *args),
{
    let body = match (&args.file, &args.url) {
        (Some(_), Some(_)) => {
            return Err(RequestError::ConflictingSources);
        },
        (None, None) => {
            return Err(RequestError::MissingSource);
        },
        (Some(file), None) => BodyPlan::MultipartFile(file.clone()),
        (None, Some(url)) => BodyPlan::FormUrl(url.clone()),
    };
    let mut query: Vec<(String, String)> = Vec::new();
    let flag = if args.hide_filename {
        "true"
    } else {
        "false"
    };
    query.push((String::from_str("hide_filename"), String::from_str(flag)));
    if let Some(p) = &args.password {
        query.push((String::from_str("password"), p.clone()));
    }
    if let Some(e) = &args.expires {
        query.push((String::from_str("expires"), e.clone()));
    }
    let plan = RequestPlan {
        method: Method::Put,
        url: String::from_str(api_endpoint()),
        query,
        headers: Vec::new(),
        body,
    };
    proof {
        assert(pairs_view(plan.query@) =~= upload_query_spec(*args));
    }
    Ok(plan)
}

/// Build the metadata request for a stored file: a GET of the token's URL
/// with `formatted=true`, so that the service reports a human-readable
/// retention period.  The info subcommand and the first leg of a download
/// by token both send this request.
pub fn build_info_request(token: &String) -> (plan: RequestPlan)
    ensures
        metadata_plan(plan, token@),
{
    let mut query: Vec<(String, String)> = Vec::new();
    query.push((String::from_str("formatted"), String::from_str("true")));
    let plan = RequestPlan {
        method: Method::Get,
        url: String::from_str(api_endpoint()).concat("/").concat(token.as_str()),
        query,
        headers: Vec::new(),
        body: BodyPlan::Empty,
    };
    proof {
        assert(pairs_view(plan.query@) =~= seq![("formatted"@, "true"@)]);
    }
    plan
}

/// Build the delete request for a stored file.
pub fn build_delete_request(token: &String) -> (plan: RequestPlan)
    ensures
        delete_plan(plan, token@),
{
    RequestPlan {
        method: Method::Delete,
        url: String::from_str(api_endpoint()).concat("/").concat(token.as_str()),
        query: Vec::new(),
        headers: Vec::new(),
        body: BodyPlan::Empty,
    }
}

/// Build the raw content request of a download.
pub fn build_content_request(url: &String, password: &Option<String>) -> (plan: RequestPlan)
    ensures
        content_plan(plan, url@, *password),
{
    let mut headers: Vec<(String, String)> = Vec::new();
    if let Some(p) = password {
        headers.push((String::from_str("x-password"), p.clone()));
    }
    let plan = RequestPlan {
        method: Method::Get,
        url: url.clone(),
        query: Vec::new(),
        headers,
        body: BodyPlan::Empty,
    };
    proof {
        if password is Some {
            assert(pairs_view(plan.headers@) =~= seq![("x-password"@, password->0@)]);
        }
    }
    plan
}

} // verus!
