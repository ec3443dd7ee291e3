use vstd::prelude::*;

use reqwest::header::HeaderMap;

use crate::decode::{decode_gist, decode_gists, gist_of, listing_of};
use crate::entity::{gists_view, opt_view, Gist};
use crate::headers::{header_count, header_entries, insert_header, is_header_value, new_header_map};
use crate::json::Json;
use crate::text::{decimal, decimal_of};

verus! {

/// The base URL of the GitHub API.
pub fn get_api_endpoint() -> (r: String)
    ensures
        r@ == "https://api.github.com"@,
{
    String::from_str("https://api.github.com")
}

/// Where the host is and how this client names itself to it.
pub struct ApiConfig {
    pub base_url: String,
    pub user_agent: String,
}

impl ApiConfig {
    /// The public GitHub host, with this client's product name.
    pub fn github() -> (r: ApiConfig)
        ensures
            r.base_url@ == "https://api.github.com"@,
            r.user_agent@ == "gstm"@,
    {
        ApiConfig { base_url: get_api_endpoint(), user_agent: String::from_str("gstm") }
    }
}

/// A point in time with its UTC offset, as a listing filter takes it.
#[derive(Clone, Copy, Debug)]
pub struct Timestamp {
    pub seconds: i64,
    pub offset_seconds: i32,
}

/// The instant, in seconds since the epoch, and the UTC offset, in seconds,
/// that an RFC 3339 text denotes, if it is one.
pub uninterp spec fn rfc3339_instant(s: Seq<char>) -> Option<(i64, i32)>;

/// Relies on chrono's `DateTime::parse_from_rfc3339`: whether a text parses,
/// and to which instant and offset, depends on the text alone.
#[verifier::external_body]
fn parse_rfc3339(s: &str) -> (r: Option<Timestamp>)
    ensures
        match r {
            Some(t) => rfc3339_instant(s@) == Some((t.seconds, t.offset_seconds)),
            None => rfc3339_instant(s@) is None,
        },
{
    match chrono::DateTime::parse_from_rfc3339(s) {
        Ok(t) => Some(
            Timestamp { seconds: t.timestamp(), offset_seconds: t.offset().local_minus_utc() },
        ),
        Err(_) => None,
    }
}

/// The listing filter that an RFC 3339 text denotes; none where the text is
/// not one.
pub fn parse_since(text: &str) -> (r: Option<Timestamp>)
    ensures
        match r {
            Some(t) => rfc3339_instant(text@) == Some((t.seconds, t.offset_seconds)),
            None => rfc3339_instant(text@) is None,
        },
{
    parse_rfc3339(text)
}

/// The HTTP method of a request.
#[derive(PartialEq, Eq, Structural, Clone, Copy, Debug)]
pub enum Method {
    Get,
    Post,
}

/// An HTTP request to the host, ready to be sent.
#[derive(Debug)]
pub struct Request {
    pub method: Method,
    pub url: String,
    pub headers: HeaderMap,
    pub body: Option<Json>,
}

/// Why an operation failed.
#[derive(Debug, PartialEq)]
pub enum Error {
    /// The host answered with a status outside 200..=299: the code and its
    /// reason phrase.
    APIError { status: String },
    /// The request did not complete, or its body did not decode.
    RequestError { cause: String },
    /// A local file could not be read.
    FileIOError { path: String, cause: String },
}

/// What an error says to a user.
pub open spec fn error_message(e: Error) -> Seq<char> {
    match e {
        Error::APIError { status } => "GitHub responded with a HTTP status of "@ + status@,
        Error::RequestError { cause } => "Network and parsing request failed: "@ + cause@,
        Error::FileIOError { path, cause } => "File I/O error occurred on "@ + path@ + ": "@
            + cause@,
    }
}

impl Error {
    /// What the error says to a user.
    pub fn message(&self) -> (r: String)
        ensures
            r@ == error_message(*self),
    {
        match self {
            Error::APIError { status } => String::from_str(
                "GitHub responded with a HTTP status of ",
            ).concat(status.as_str()),
            Error::RequestError { cause } => String::from_str(
                "Network and parsing request failed: ",
            ).concat(cause.as_str()),
            Error::FileIOError { path, cause } => String::from_str(
                "File I/O error occurred on ",
            ).concat(path.as_str()).concat(": ").concat(cause.as_str()),
        }
    }
}

/// What a local file read gave: its text, or why it failed.
#[derive(Debug)]
pub struct FileRead {
    pub path: String,
    pub content: Result<String, String>,
}

/// The headers of every request: the product name as user agent and, with
/// a credential, `token <credential>` as authorization.
pub open spec fn headers_for(agent: Seq<char>, token: Option<Seq<char>>) -> Map<
    Seq<char>,
    Seq<char>,
> {
    let base = Map::<Seq<char>, Seq<char>>::empty().insert("user-agent"@, agent);
    match token {
        Some(t) => base.insert("authorization"@, "token "@ + t),
        None => base,
    }
}

/// Every header value of a request can be carried.
pub open spec fn headers_valid(agent: Seq<char>, token: Option<Seq<char>>) -> bool {
    &&& is_header_value(agent)
    &&& token matches Some(t) ==> is_header_value("token "@ + t)
}

pub open spec fn create_url(base: Seq<char>) -> Seq<char> {
    base + "/gists"@
}

/// The listing of one user's gists, or the global public listing.
pub open spec fn list_url(base: Seq<char>, by_user: Option<Seq<char>>) -> Seq<char> {
    match by_user {
        Some(user) => base + "/users/"@ + user + "/gists"@,
        None => base + "/gists/public"@,
    }
}

pub open spec fn gist_url(base: Seq<char>, id: Seq<char>) -> Seq<char> {
    base + "/gists/"@ + id
}

pub open spec fn fork_url(base: Seq<char>, id: Seq<char>) -> Seq<char> {
    base + "/gists/"@ + id + "/forks"@
}

/// `j` is the body of a create request: the description, the visibility and,
/// for each file in order, its path mapped to an object holding its content.
pub open spec fn is_create_payload(
    j: Json,
    description: Seq<char>,
    public: bool,
    files: Seq<(Seq<char>, Seq<char>)>,
) -> bool {
    match j {
        Json::Object(top) => {
            &&& top@.len() == 3
            &&& top@[0].0@ == "description"@
            &&& top@[0].1 matches Json::Str(d) && d@ == description
            &&& top@[1].0@ == "public"@
            &&& top@[1].1 == Json::Bool(public)
            &&& top@[2].0@ == "files"@
            &&& top@[2].1 matches Json::Object(fs) && fs@.len() == files.len() && forall|i: int|
                0 <= i < files.len() ==> #[trigger] fs@[i].0@ == files[i].0 && is_content_object(
                    fs@[i].1,
                    files[i].1,
                )
        },
        _ => false,
    }
}

/// `j` is `{"content": content}`.
pub open spec fn is_content_object(j: Json, content: Seq<char>) -> bool {
    match j {
        Json::Object(m) => m@.len() == 1 && m@[0].0@ == "content"@ && match m@[0].1 {
            Json::Str(c) => c@ == content,
            _ => false,
        },
        _ => false,
    }
}

/// Every read before `i` succeeded.
pub open spec fn all_read_before(reads: Seq<FileRead>, i: int) -> bool {
    forall|k: int| 0 <= k < i ==> (#[trigger] reads[k]).content is Ok
}

/// Some read failed.
pub open spec fn some_read_failed(reads: Seq<FileRead>) -> bool {
    exists|i: int| 0 <= i < reads.len() && (#[trigger] reads[i]).content is Err
}

/// Each path with the text read from it; meaningful where every read succeeded.
pub open spec fn read_files(reads: Seq<FileRead>) -> Seq<(Seq<char>, Seq<char>)> {
    reads.map_values(|r: FileRead| (r.path@, r.content->Ok_0@))
}

/// The reason phrase that the HTTP standard gives a status code, if any.
pub uninterp spec fn reason_phrase(code: u16) -> Option<Seq<char>>;

/// Relies on `reqwest::StatusCode::from_u16` and `StatusCode::canonical_reason`
/// (the `http` crate's table of reason phrases): the phrase depends on the
/// code alone, a number outside 100..=999 is no status code, and the table
/// gives 404 the phrase "Not Found".
#[verifier::external_body]
fn canonical_reason(code: u16) -> (r: Option<String>)
    ensures
        opt_view(r) == reason_phrase(code),
        code < 100 || code > 999 ==> r is None,
        code == 404 ==> opt_view(r) == Some("Not Found"@),
{
    match reqwest::StatusCode::from_u16(code) {
        Ok(s) => s.canonical_reason().map(String::from),
        Err(_) => None,
    }
}

/// A status line as this client reports it: the code, a space, and the
/// reason phrase (empty where there is none).
pub open spec fn status_line(code: u16, reason: Option<Seq<char>>) -> Seq<char> {
    decimal_of(code as nat) + " "@ + match reason {
        Some(p) => p,
        None => Seq::empty(),
    }
}

pub open spec fn is_success(status: u16) -> bool {
    200 <= status <= 299
}

/// The status text of an API error for `status`.
pub open spec fn status_text_of(status: u16) -> Seq<char> {
    status_line(status, reason_phrase(status))
}

/// The status line for `code` with the given reason phrase.
pub fn format_status(code: u16, reason: Option<&str>) -> (r: String)
    ensures
        r@ == status_line(
            code,
            match reason {
                Some(p) => Some(p@),
                None => None,
            },
        ),
{
    let s = decimal(code as u64).concat(" ");
    match reason {
        Some(p) => s.concat(p),
        None => s,
    }
}

/// The status line for `code` with its standard reason phrase.
pub fn status_text(code: u16) -> (r: String)
    ensures
        r@ == status_text_of(code),
        code == 404 ==> r@ == "404 Not Found"@,
{
    let reason = canonical_reason(code);
    let r = match reason {
        Some(p) => format_status(code, Some(p.as_str())),
        None => format_status(code, None),
    };
    proof {
        if code == 404 {
            reveal_strlit("Not Found");
            reveal_strlit("404 Not Found");
            reveal_strlit(" ");
            reveal_with_fuel(decimal_of, 4);
            assert(decimal_of(404) =~= seq!['4', '0', '4']);
            assert(r@ =~= "404 Not Found"@);
        }
    }
    r
}

/// The user agent, and `token <credential>` as authorization where a
/// credential is given; none where a value holds a character that a header
/// cannot carry.
pub fn build_headers(config: &ApiConfig, token: Option<String>) -> (r: Option<HeaderMap>)
    ensures
        r is Some <==> headers_valid(config.user_agent@, opt_view(token)),
        r matches Some(m) ==> header_entries(m) == headers_for(
            config.user_agent@,
            opt_view(token),
        ),
        r matches Some(m) ==> header_count(m) == if token is Some {
            2nat
        } else {
            1nat
        },
{
    proof {
        reveal_strlit("user-agent");
        reveal_strlit("authorization");
    }
    let mut headers = new_header_map();
    if !insert_header(&mut headers, "user-agent", config.user_agent.as_str()) {
        return None;
    }
    match token {
        Some(t) => {
            let value = String::from_str("token ").concat(t.as_str());
            assert("authorization"@.len() != "user-agent"@.len());
            if !insert_header(&mut headers, "authorization", value.as_str()) {
                return None;
            }
        },
        None => {},
    }
    Some(headers)
}

fn unsendable_header() -> (e: Error)
    ensures
        e is RequestError,
{
    Error::RequestError { cause: String::from_str("a header value holds a control character") }
}

fn join(a: &str, b: &str) -> (r: String)
    ensures
        r@ == a@ + b@,
{
    String::from_str(a).concat(b)
}

/// The request that creates a gist from files already read, in order.
///
/// Where a read failed, no request is made: the first failed read is
/// reported. Files are keyed by their path exactly as given.
pub fn create(
    config: &ApiConfig,
    reads: &Vec<FileRead>,
    is_public: bool,
    description: Option<String>,
    token: Option<String>,
) -> (r: Result<Request, Error>)
    ensures
        some_read_failed(reads@) ==> (r matches Err(e) && exists|i: int|
            0 <= i < reads@.len() && all_read_before(reads@, i) && #[trigger] reads@[i].content
                is Err && e == (Error::FileIOError {
                path: reads@[i].path,
                cause: reads@[i].content->Err_0,
            })),
        !some_read_failed(reads@) && !headers_valid(config.user_agent@, opt_view(token)) ==> (r matches Err(
            e,
        ) && e is RequestError),
        !some_read_failed(reads@) && headers_valid(config.user_agent@, opt_view(token)) ==> (r matches Ok(
            req,
        ) && {
            &&& req.method == Method::Post
            &&& req.url@ == create_url(config.base_url@)
            &&& header_entries(req.headers) == headers_for(config.user_agent@, opt_view(token))
            &&& req.body matches Some(b) && is_create_payload(
                b,
                match description {
                    Some(d) => d@,
                    None => Seq::empty(),
                },
                is_public,
                read_files(reads@),
            )
        }),
{
    let mut files: Vec<(String, Json)> = Vec::new();
    let mut i: usize = 0;
    while i < reads.len()
        invariant
            i <= reads@.len(),
            all_read_before(reads@, i as int),
            files@.len() == i,
            forall|k: int|
                0 <= k < i ==> #[trigger] files@[k].0@ == reads@[k].path@ && is_content_object(
                    files@[k].1,
                    reads@[k].content->Ok_0@,
                ),
        decreases reads@.len() - i,
    {
        match &reads[i].content {
            Ok(text) => {
                let mut entry: Vec<(String, Json)> = Vec::new();
                entry.push((String::from_str("content"), Json::Str(text.clone())));
                files.push((reads[i].path.clone(), Json::Object(entry)));
            },
            Err(cause) => {
                return Err(
                    Error::FileIOError { path: reads[i].path.clone(), cause: cause.clone() },
                );
            },
        }
        i = i + 1;
    }
    assert(!some_read_failed(reads@));
    let headers = match build_headers(config, token) {
        Some(h) => h,
        None => return Err(unsendable_header()),
    };
    let description = match description {
        Some(d) => d,
        None => String::new(),
    };
    let mut top: Vec<(String, Json)> = Vec::new();
    top.push((String::from_str("description"), Json::Str(description)));
    top.push((String::from_str("public"), Json::Bool(is_public)));
    top.push((String::from_str("files"), Json::Object(files)));
    let url = join(config.base_url.as_str(), "/gists");
    let body = Json::Object(top);
    proof {
        let rf = read_files(reads@);
        assert forall|k: int| 0 <= k < rf.len() implies #[trigger] files@[k].0@ == rf[k].0
            && is_content_object(files@[k].1, rf[k].1) by {
            assert(rf[k] == (reads@[k].path@, reads@[k].content->Ok_0@));
        }
        assert(url@ == create_url(config.base_url@));
        assert(is_create_payload(body, description@, is_public, rf));
    }
    Ok(Request { method: Method::Post, url, headers, body: Some(body) })
}

/// The request for a listing: one user's gists, or the global public ones.
///
/// The time filter is accepted and not sent: the host's listing is not
/// filtered by it.
pub fn list(
    config: &ApiConfig,
    by_user: Option<String>,
    _since: Option<Timestamp>,
    token: Option<String>,
) -> (r: Result<Request, Error>)
    ensures
        r is Ok <==> headers_valid(config.user_agent@, opt_view(token)),
        r matches Err(e) ==> e is RequestError,
        r matches Ok(req) ==> {
            &&& req.method == Method::Get
            &&& req.url@ == list_url(config.base_url@, opt_view(by_user))
            &&& header_entries(req.headers) == headers_for(config.user_agent@, opt_view(token))
            &&& req.body is None
        },
{
    let headers = match build_headers(config, token) {
        Some(h) => h,
        None => return Err(unsendable_header()),
    };
    let url = match by_user {
        Some(user) => {
            let prefix = join(config.base_url.as_str(), "/users/");
            join(prefix.concat(user.as_str()).as_str(), "/gists")
        },
        None => join(config.base_url.as_str(), "/gists/public"),
    };
    Ok(Request { method: Method::Get, url, headers, body: None })
}

/// The request for one gist by its id.
pub fn get(config: &ApiConfig, id: &str, token: Option<String>) -> (r: Result<Request, Error>)
    ensures
        r is Ok <==> headers_valid(config.user_agent@, opt_view(token)),
        r matches Err(e) ==> e is RequestError,
        r matches Ok(req) ==> {
            &&& req.method == Method::Get
            &&& req.url@ == gist_url(config.base_url@, id@)
            &&& header_entries(req.headers) == headers_for(config.user_agent@, opt_view(token))
            &&& req.body is None
        },
{
    let headers = match build_headers(config, token) {
        Some(h) => h,
        None => return Err(unsendable_header()),
    };
    let url = join(config.base_url.as_str(), "/gists/").concat(id);
    Ok(Request { method: Method::Get, url, headers, body: None })
}

/// The request that forks a gist; the host only forks for a credential.
pub fn fork(config: &ApiConfig, id: &str, token: Option<String>) -> (r: Result<Request, Error>)
    ensures
        r is Ok <==> headers_valid(config.user_agent@, opt_view(token)),
        r matches Err(e) ==> e is RequestError,
        r matches Ok(req) ==> {
            &&& req.method == Method::Post
            &&& req.url@ == fork_url(config.base_url@, id@)
            &&& header_entries(req.headers) == headers_for(config.user_agent@, opt_view(token))
            &&& req.body is None
        },
{
    let headers = match build_headers(config, token) {
        Some(h) => h,
        None => return Err(unsendable_header()),
    };
    let url = join(join(config.base_url.as_str(), "/gists/").as_str(), id).concat("/forks");
    Ok(Request { method: Method::Post, url, headers, body: None })
}

/// The part of the classification shared by every operation: a status
/// outside 200..=299 is an API error carrying its status line.
pub fn check_status(status: u16) -> (r: Result<(), Error>)
    ensures
        r is Ok <==> is_success(status),
        r matches Err(e) ==> (e matches Error::APIError { status: s } && s@ == status_text_of(
            status,
        )),
        status == 404 ==> (r matches Err(Error::APIError { status: s }) && s@
            == "404 Not Found"@),
{
    if 200 <= status && status <= 299 {
        Ok(())
    } else {
        Err(Error::APIError { status: status_text(status) })
    }
}

fn body_mismatch() -> (e: Error)
    ensures
        e is RequestError,
{
    Error::RequestError {
        cause: String::from_str("the response body is not of the expected shape"),
    }
}

/// Classifies the answer to create, get or fork: an API error for a status
/// outside 200..=299; a request error where the body could not be read or
/// does not decode to a gist; else the gist.
pub fn classify_gist(status: u16, body: Result<Json, String>) -> (r: Result<Gist, Error>)
    ensures
        !is_success(status) ==> (r matches Err(Error::APIError { status: s }) && s@
            == status_text_of(status)),
        status == 404 ==> (r matches Err(Error::APIError { status: s }) && s@
            == "404 Not Found"@),
        is_success(status) && body is Err ==> r == Err::<Gist, Error>(
            Error::RequestError { cause: body->Err_0 },
        ),
        is_success(status) && body is Ok && gist_of(body->Ok_0) is None ==> (r matches Err(
            Error::RequestError { .. },
        )),
        is_success(status) && body is Ok && gist_of(body->Ok_0) is Some ==> (r matches Ok(g)
            && gist_of(body->Ok_0) == Some(g@) && g.wf()),
{
    match check_status(status) {
        Err(e) => Err(e),
        Ok(()) => match body {
            Err(cause) => Err(Error::RequestError { cause }),
            Ok(j) => match decode_gist(&j) {
                Some(g) => Ok(g),
                None => Err(body_mismatch()),
            },
        },
    }
}

/// Classifies the answer to a listing, as `classify_gist` does for one gist.
pub fn classify_gists(status: u16, body: Result<Json, String>) -> (r: Result<Vec<Gist>, Error>)
    ensures
        !is_success(status) ==> (r matches Err(Error::APIError { status: s }) && s@
            == status_text_of(status)),
        status == 404 ==> (r matches Err(Error::APIError { status: s }) && s@
            == "404 Not Found"@),
        is_success(status) && body is Err ==> r == Err::<Vec<Gist>, Error>(
            Error::RequestError { cause: body->Err_0 },
        ),
        is_success(status) && body is Ok && listing_of(body->Ok_0) is None ==> (r matches Err(
            Error::RequestError { .. },
        )),
        is_success(status) && body is Ok && listing_of(body->Ok_0) is Some ==> (r matches Ok(gs)
            && listing_of(body->Ok_0) == Some(gists_view(gs@)) && forall|i: int|
            0 <= i < gs@.len() ==> (#[trigger] gs@[i]).wf()),
{
    match check_status(status) {
        Err(e) => Err(e),
        Ok(()) => match body {
            Err(cause) => Err(Error::RequestError { cause }),
            Ok(j) => match decode_gists(&j) {
                Some(gs) => Ok(gs),
                None => Err(body_mismatch()),
            },
        },
    }
}

} // verus!
