use vstd::prelude::*;
use crate::content::Document;
use crate::error::SyncError;
use crate::json::{encode, json_of};
use crate::text::{occurs_in, text_contains};

verus! {

/// Who talks to the service, and where.
pub struct Credentials {
    pub username: String,
    pub password: String,
    pub endpoint: String,
}

/// The version record of a remote page.
#[derive(Debug, PartialEq, Eq)]
pub struct Version {
    pub number: u32,
}

/// The space a page lives in.
#[derive(Debug, PartialEq, Eq)]
pub struct Space {
    pub key: String,
}

/// The service's view of an existing page, as one search result gives it.
#[derive(Debug, PartialEq, Eq)]
pub struct ConfluencePage {
    pub id: String,
    pub title: String,
    pub version: Version,
    pub space: Space,
}

/// The rendered body of a page.
#[derive(Debug, PartialEq, Eq)]
pub struct BodyView {
    pub value: String,
}

#[derive(Debug, PartialEq, Eq)]
pub struct Body {
    pub view: BodyView,
}

/// A page fetched by id, with its rendered body, for display.
#[derive(Debug, PartialEq, Eq)]
pub struct ContentView {
    pub id: String,
    pub title: String,
    pub body: Body,
}

/// The path of the content API below a service endpoint.
pub open spec fn content_path() -> Seq<char> {
    "/confluence/rest/api/content"@
}

/// The base URL of the content API for the given credentials.
pub fn get_endpoint(credentials: &Credentials) -> (r: String)
    ensures
        r@ == credentials.endpoint@ + content_path(),
{
    credentials.endpoint.clone().concat("/confluence/rest/api/content")
}

/// One of the four primitive remote operations.
#[derive(Debug, PartialEq, Eq)]
pub enum Request {
    /// Look a page up by exact space key and exact title.
    Search { space: String, title: String },
    /// Fetch one page, with its rendered body, by id.
    Fetch { id: String },
    /// Submit a new page.
    Create { document: Document },
    /// Submit a revision of the page `id`.
    Update { id: String, document: Document },
}

/// Which of the four operations a request is.
#[derive(Clone, Copy, Debug, PartialEq, Eq, Structural)]
pub enum RequestKind {
    Search,
    Fetch,
    Create,
    Update,
}

pub open spec fn kind_of(r: Request) -> RequestKind {
    match r {
        Request::Search { .. } => RequestKind::Search,
        Request::Fetch { .. } => RequestKind::Fetch,
        Request::Create { .. } => RequestKind::Create,
        Request::Update { .. } => RequestKind::Update,
    }
}

impl Request {
    pub fn kind(&self) -> (k: RequestKind)
        ensures
            k == kind_of(*self),
    {
        match self {
            Request::Search { .. } => RequestKind::Search,
            Request::Fetch { .. } => RequestKind::Fetch,
            Request::Create { .. } => RequestKind::Create,
            Request::Update { .. } => RequestKind::Update,
        }
    }
}

#[derive(Clone, Copy, Debug, PartialEq, Eq, Structural)]
pub enum Method {
    Get,
    Post,
    Put,
}

/// One HTTP exchange, as the caller is to perform it: basic authentication
/// with the credentials; a body, where there is one, is JSON text.
#[derive(Debug, PartialEq, Eq)]
pub struct HttpCall {
    pub method: Method,
    pub url: String,
    pub query: Vec<(String, String)>,
    pub body: Option<String>,
}

/// The query parameters of a call, as pairs of plain strings.
pub open spec fn query_view(q: Seq<(String, String)>) -> Seq<(Seq<char>, Seq<char>)> {
    q.map_values(|p: (String, String)| (p.0@, p.1@))
}

/// The query of a search: exact space and title, with version and space expanded.
pub open spec fn search_query(space: Seq<char>, title: Seq<char>) -> Seq<(Seq<char>, Seq<char>)> {
    seq![("spaceKey"@, space), ("title"@, title), ("expand"@, "version,space"@)]
}

/// The query of a fetch by id: the rendered body expanded.
pub open spec fn fetch_query() -> Seq<(Seq<char>, Seq<char>)> {
    seq![("expand"@, "body.view"@)]
}

/// The URL of one page below the content API.
pub open spec fn page_url(endpoint: Seq<char>, id: Seq<char>) -> Seq<char> {
    endpoint + content_path() + "/"@ + id
}

/// What HTTP exchange performs a request.
pub open spec fn call_for(endpoint: Seq<char>, r: Request, c: HttpCall) -> bool {
    match r {
        Request::Search { space, title } => {
            &&& c.method == Method::Get
            &&& c.url@ == endpoint + content_path()
            &&& query_view(c.query@) == search_query(space@, title@)
            &&& c.body is None
        },
        Request::Fetch { id } => {
            &&& c.method == Method::Get
            &&& c.url@ == page_url(endpoint, id@)
            &&& query_view(c.query@) == fetch_query()
            &&& c.body is None
        },
        Request::Create { document } => {
            &&& c.method == Method::Post
            &&& c.url@ == endpoint + content_path()
            &&& c.query@.len() == 0
            &&& c.body matches Some(text)
            &&& text@ == json_of(document@)
        },
        Request::Update { id, document } => {
            &&& c.method == Method::Put
            &&& c.url@ == page_url(endpoint, id@)
            &&& c.query@.len() == 0
            &&& c.body matches Some(text)
            &&& text@ == json_of(document@)
        },
    }
}

fn pair(k: &str, v: String) -> (p: (String, String))
    ensures
        p.0@ == k@,
        p.1@ == v@,
{
    (String::from_str(k), v)
}

fn url_of_page(credentials: &Credentials, id: &String) -> (r: String)
    ensures
        r@ == page_url(credentials.endpoint@, id@),
{
    get_endpoint(credentials).concat("/").concat(id.as_str())
}

/// The HTTP exchange that performs a request against the service.
pub fn to_http(credentials: &Credentials, request: Request) -> (c: HttpCall)
    ensures
        call_for(credentials.endpoint@, request, c),
{
    match request {
        Request::Search { space, title } => {
            let mut query: Vec<(String, String)> = Vec::new();
            query.push(pair("spaceKey", space));
            query.push(pair("title", title));
            query.push(pair("expand", String::from_str("version,space")));
            let c = HttpCall { method: Method::Get, url: get_endpoint(credentials), query, body: None };
            assert(query_view(c.query@) =~= search_query(space@, title@));
            c
        },
        Request::Fetch { id } => {
            let mut query: Vec<(String, String)> = Vec::new();
            query.push(pair("expand", String::from_str("body.view")));
            let c = HttpCall {
                method: Method::Get,
                url: url_of_page(credentials, &id),
                query,
                body: None,
            };
            assert(query_view(c.query@) =~= fetch_query());
            c
        },
        Request::Create { document } => HttpCall {
            method: Method::Post,
            url: get_endpoint(credentials),
            query: Vec::new(),
            body: Some(encode(&document)),
        },
        Request::Update { id, document } => HttpCall {
            method: Method::Put,
            url: url_of_page(credentials, &id),
            query: Vec::new(),
            body: Some(encode(&document)),
        },
    }
}

/// A status in the 2xx range.
pub open spec fn success_status(status: u16) -> bool {
    200 <= status <= 299
}

pub fn is_success(status: u16) -> (r: bool)
    ensures
        r == success_status(status),
{
    200 <= status && status <= 299
}

/// A request that did not succeed.
#[derive(Debug, PartialEq, Eq)]
pub enum Failure {
    /// No reply came.
    Transport { message: String },
    /// A reply came that was not a success, or whose body could not be read
    /// as the expected shape.
    Status { status: u16, body: String },
}

/// The credentials were rejected.
pub open spec fn auth_rejected(status: u16) -> bool {
    status == 401 || status == 403
}

/// The body text by which the service reports a duplicate title.
pub open spec fn duplicate_title_text() -> Seq<char> {
    "already exists"@
}

/// A create was refused because the title is taken.
pub open spec fn title_taken(status: u16, body: Seq<char>) -> bool {
    status == 409 || (status == 400 && occurs_in(duplicate_title_text(), body))
}

/// An update was refused because its version does not follow the stored one.
pub open spec fn version_stale(status: u16) -> bool {
    status == 409
}

/// The error a failed reply to a request of the given kind stands for.
pub open spec fn status_error(kind: RequestKind, status: u16, body: String) -> SyncError {
    if auth_rejected(status) {
        SyncError::Unauthorized { body }
    } else if kind == RequestKind::Create && title_taken(status, body@) {
        SyncError::Conflict { body }
    } else if kind == RequestKind::Update && version_stale(status) {
        SyncError::VersionConflict { body }
    } else {
        SyncError::RemoteError { status, body }
    }
}

pub open spec fn failure_error(kind: RequestKind, f: Failure) -> SyncError {
    match f {
        Failure::Transport { message } => SyncError::Transport { message },
        Failure::Status { status, body } => status_error(kind, status, body),
    }
}

/// Maps a failed request of the given kind to the error it stands for.
pub fn classify(kind: RequestKind, failure: Failure) -> (e: SyncError)
    ensures
        e == failure_error(kind, failure),
{
    match failure {
        Failure::Transport { message } => SyncError::Transport { message },
        Failure::Status { status, body } => {
            if status == 401 || status == 403 {
                SyncError::Unauthorized { body }
            } else if kind == RequestKind::Create && (status == 409 || (status == 400
                && text_contains(body.as_str(), "already exists"))) {
                SyncError::Conflict { body }
            } else if kind == RequestKind::Update && status == 409 {
                SyncError::VersionConflict { body }
            } else {
                SyncError::RemoteError { status, body }
            }
        },
    }
}

} // verus!
