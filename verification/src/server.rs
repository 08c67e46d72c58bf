//! The decisions behind each HTTP request of the shortener. The HTTP
//! plumbing (sockets, reading the body, writing the response and the
//! access log) belongs to the caller: it hands in a `Request`, performs
//! what a `RequestStep` asks, and sends the `HttpResponse` it gets back.
use crate::api_key::api_key_hash;
use crate::code::{generate_code, is_alphanumeric, is_valid_code, valid_code};
use crate::config::Config;
use crate::database::{Database, DatabaseError};
use crate::text::{
    before_first, decode_utf8_lossy, has_prefix, join2, join3, starts_with, str_equal,
    text_before_first, trim, trimmed, u64_to_decimal, utf8_lossy, decimal,
};
use vstd::prelude::*;

verus! {

/// Largest request body, in bytes, that a `POST` may carry.
pub const MAX_BODY_SIZE: usize = 8192;

/// Number of random codes tried before a `POST` without a code gives up.
pub const CODE_ATTEMPTS: usize = 3;

/// What the shortener needs to know of an incoming HTTP request.
pub struct Request {
    /// The method as sent, e.g. `GET`.
    pub method: String,
    /// The request target as sent, used in the access log.
    pub uri: String,
    /// The path component of the request target.
    pub path: String,
    /// The peer's IP address.
    pub remote_ip: String,
    /// The `X-Forwarded-For` header, when present and readable as text.
    pub forwarded_for: Option<String>,
    /// The `Authorization` header, when present and readable as text.
    pub authorization: Option<String>,
}

/// An HTTP response to send.
pub struct HttpResponse {
    /// The status code.
    pub status: u16,
    /// The `Location` header, for redirects.
    pub location: Option<String>,
    /// Whether to send `Content-Type: text/plain; charset=utf-8` and
    /// `X-Content-Type-Options: nosniff` (error responses do).
    pub plain_text: bool,
    /// The body.
    pub body: String,
}

/// A finished request: the response and the lines for the access log.
pub struct Handled {
    pub response: HttpResponse,
    pub log_lines: Vec<String>,
}

/// A `POST` that passed authentication and waits for its body.
pub struct PendingCreate {
    /// The code asked for in the path; empty when one is to be generated.
    pub custom_code: String,
    /// Who the new code is attributed to.
    pub created_by: String,
    /// The access-log prefix: client host, method and URI.
    pub request_line: String,
}

/// What the caller must do next with a request.
pub enum RequestStep {
    /// Send this response.
    Done(Handled),
    /// Read at most `MAX_BODY_SIZE` bytes of body and hand them (or `None`
    /// when the body is larger) to `Shortener::finish_create`.
    ReadBody(PendingCreate),
}

/// A `200 OK` response with the given body and no extra headers.
pub open spec fn is_plain(r: HttpResponse, body: Seq<char>) -> bool {
    &&& r.status == 200
    &&& r.location is None
    &&& !r.plain_text
    &&& r.body@ == body
}

/// An error response: the status, plain-text headers and the message
/// followed by a newline.
pub open spec fn is_error(r: HttpResponse, status: u16, message: Seq<char>) -> bool {
    &&& r.status == status
    &&& r.location is None
    &&& r.plain_text
    &&& r.body@ == message + "\n"@
}

/// A `302 Found` redirect to `location`, whose body is the location
/// followed by a newline.
pub open spec fn is_redirect(r: HttpResponse, location: Seq<char>) -> bool {
    &&& r.status == 302
    &&& r.location matches Some(l) && l@ == location
    &&& !r.plain_text
    &&& r.body@ == location + "\n"@
}

/// The access log holds exactly this one line.
pub open spec fn logs_one(h: Handled, line: Seq<char>) -> bool {
    h.log_lines@.len() == 1 && h.log_lines@[0]@ == line
}

/// The client host for the log: the peer address, or behind a trusted
/// proxy the first `X-Forwarded-For` entry, trimmed, when it is not empty.
pub open spec fn client_host_of(trust_proxy: bool, remote_ip: Seq<char>, forwarded_for: Option<Seq<char>>) -> Seq<char> {
    if !trust_proxy {
        remote_ip
    } else {
        let header = match forwarded_for {
            Some(h) => h,
            None => Seq::empty(),
        };
        let host = trimmed(before_first(header, ','));
        if host.len() == 0 {
            remote_ip
        } else {
            host
        }
    }
}

/// The view of an optional text.
pub open spec fn opt_view(s: Option<String>) -> Option<Seq<char>> {
    match s {
        Some(t) => Some(t@),
        None => None,
    }
}

/// The access-log prefix of a request: client host, method and URI,
/// separated by spaces.
pub open spec fn request_line_of(config: Config, request: Request) -> Seq<char> {
    client_host_of(config.trust_proxy, request.remote_ip@, opt_view(request.forwarded_for))
        + " "@ + request.method@ + " "@ + request.uri@
}

/// What `percent_encoding` decodes a text to: `%XX` escapes replaced by
/// their bytes, the result read as UTF-8 with invalid sequences replaced
/// by U+FFFD.
pub uninterp spec fn percent_decoded(s: Seq<char>) -> Seq<char>;

/// The scheme of a text when `url::Url::parse` accepts it, `None` when it
/// does not.
pub uninterp spec fn url_scheme(s: Seq<char>) -> Option<Seq<char>>;

/// The path is the root: empty or a lone `/`.
pub open spec fn is_root(path: Seq<char>) -> bool {
    path.len() == 0 || path == "/"@
}

/// A path without one leading `/`.
pub open spec fn path_rest(path: Seq<char>) -> Seq<char> {
    if path.len() > 0 && path[0] == '/' {
        path.drop_first()
    } else {
        path
    }
}

/// The code a path names: the path without one leading `/`,
/// percent-decoded.
pub open spec fn path_code(path: Seq<char>) -> Seq<char> {
    percent_decoded(path_rest(path))
}

/// The path of a short URL names its code: a `/` followed by a valid code
/// is that code with no escape to decode.
pub proof fn lemma_code_path_round_trip(code: Seq<char>)
    requires
        valid_code(code),
    ensures
        path_rest(seq!['/'] + code) == code,
        !code.contains('%'),
{
    assert((seq!['/'] + code).drop_first() =~= code);
    if code.contains('%') {
        let i = choose|i: int| 0 <= i < code.len() && code[i] == '%';
        assert(crate::code::is_code_char(code[i]));
    }
}

/// The code a `POST` asks for: none at the root, the path's code elsewhere.
pub open spec fn requested_code(path: Seq<char>) -> Seq<char> {
    if is_root(path) {
        Seq::empty()
    } else {
        path_code(path)
    }
}

/// An absolute URL with scheme `http` or `https`.
pub open spec fn is_http_url(s: Seq<char>) -> bool {
    url_scheme(s) == Some("http"@) || url_scheme(s) == Some("https"@)
}

/// The target URL a `POST` body carries: the body read as UTF-8, trimmed.
pub open spec fn body_target(body: Seq<u8>) -> Seq<char> {
    trimmed(utf8_lossy(body))
}

/// Calls `percent_encoding::percent_decode_str(..).decode_utf8_lossy()` and
/// takes ownership of the text. Claimed: the result is the named decoding
/// of the input, and a text without `%` comes back unchanged (the decoder
/// passes every other byte through, and the bytes of a `str` are valid
/// UTF-8).
#[verifier::external_body]
fn percent_decode_lossy(s: &str) -> (res: String)
    ensures
        res@ == percent_decoded(s@),
        !s@.contains('%') ==> res@ == s@,
{
    percent_encoding::percent_decode_str(s).decode_utf8_lossy().into_owned()
}

/// Calls `url::Url::parse` and, when it succeeds, `Url::scheme`. Claimed:
/// the result is the named scheme of the input.
#[verifier::external_body]
fn parse_url_scheme(s: &str) -> (res: Option<String>)
    ensures
        opt_view(res) == url_scheme(s@),
{
    match url::Url::parse(s) {
        Ok(url) => Some(url.scheme().to_owned()),
        Err(_) => None,
    }
}

/// Checks that the input parses as an absolute URL with scheme `http` or
/// `https`.
pub fn is_valid_http_url(input: &str) -> (res: bool)
    ensures
        res == is_http_url(input@),
{
    match parse_url_scheme(input) {
        Some(scheme) => {
            let http = str_equal(scheme.as_str(), "http");
            let https = str_equal(scheme.as_str(), "https");
            http || https
        },
        None => false,
    }
}

/// The client host for the access log: the peer address, or, behind a
/// trusted proxy, the first `X-Forwarded-For` entry (trimmed) when it is
/// not empty.
pub fn get_client_host(trust_proxy: bool, remote_ip: &str, forwarded_for: Option<&str>) -> (res:
    String)
    ensures
        res@ == client_host_of(
            trust_proxy,
            remote_ip@,
            match forwarded_for {
                Some(h) => Some(h@),
                None => None,
            },
        ),
{
    if !trust_proxy {
        return String::from_str(remote_ip);
    }
    let header = match forwarded_for {
        Some(h) => h,
        None => {
            proof {
                reveal_strlit("");
            }
            assert(""@ =~= Seq::<char>::empty());
            ""
        },
    };
    let host = trim(text_before_first(header, ','));
    if host.unicode_len() == 0 {
        String::from_str(remote_ip)
    } else {
        String::from_str(host)
    }
}

/// The code a request path names: the path without one leading `/`,
/// percent-decoded.
pub fn code_from_path(path: &str) -> (res: String)
    ensures
        res@ == path_code(path@),
        !path_rest(path@).contains('%') ==> res@ == path_rest(path@),
{
    let n = path.unicode_len();
    if n > 0 && path.get_char(0) == '/' {
        let rest = path.substring_char(1, n);
        assert(rest@ =~= path@.drop_first());
        percent_decode_lossy(rest)
    } else {
        percent_decode_lossy(path)
    }
}

fn is_root_path(path: &str) -> (res: bool)
    ensures
        res == is_root(path@),
{
    path.unicode_len() == 0 || str_equal(path, "/")
}

/// A `200 OK` response carrying `body`.
pub fn plain_response(body: String) -> (r: HttpResponse)
    ensures
        is_plain(r, body@),
{
    HttpResponse { status: 200, location: None, plain_text: false, body }
}

/// An error response: `status`, plain-text headers, and the message
/// followed by a newline.
pub fn http_error(status: u16, message: &str) -> (r: HttpResponse)
    ensures
        is_error(r, status, message@),
{
    HttpResponse { status, location: None, plain_text: true, body: join2(message, "\n") }
}

/// A `302 Found` redirect to `location`.
pub fn redirect_response(location: &str) -> (r: HttpResponse)
    ensures
        is_redirect(r, location@),
{
    HttpResponse {
        status: 302,
        location: Some(String::from_str(location)),
        plain_text: false,
        body: join2(location, "\n"),
    }
}

fn handled(response: HttpResponse, line: String) -> (h: Handled)
    ensures
        h.response == response,
        logs_one(h, line@),
{
    let mut log_lines: Vec<String> = Vec::new();
    log_lines.push(line);
    Handled { response, log_lines }
}

/// The answer to a `GET` of a code, given what the lookup returned: a
/// redirect to the stored URL, `404` for an unknown code, `500` otherwise.
pub fn redirect_outcome(request_line: &str, result: Result<String, DatabaseError>) -> (h: Handled)
    ensures
        match result {
            Ok(url) => is_redirect(h.response, url@) && logs_one(h, request_line@ + " => "@ + url@),
            Err(DatabaseError::NotFound) => is_error(h.response, 404, "Not found"@) && logs_one(
                h,
                request_line@ + " [Not found]"@,
            ),
            Err(_) => is_error(h.response, 500, "Internal server error"@) && h.log_lines@.len()
                == 1 && has_prefix(h.log_lines@[0]@, request_line@ + " ["@),
        },
{
    match result {
        Ok(url) => {
            let line = join3(request_line, " => ", url.as_str());
            handled(redirect_response(url.as_str()), line)
        },
        Err(DatabaseError::NotFound) => {
            let line = join2(request_line, " [Not found]");
            handled(http_error(404, "Not found"), line)
        },
        Err(error) => {
            let message = error.message();
            let head = join2(request_line, " [");
            let line = join3(head.as_str(), message.as_str(), "]");
            assert(line@.subrange(0, head@.len() as int) =~= head@);
            handled(http_error(500, "Internal server error"), line)
        },
    }
}

/// The first step of an authenticated `POST` once its key was checked:
/// the request waits for its body, attributed to the key's owner, when the
/// check returned an owner; it is refused with `401` otherwise.
pub fn key_checked_step(custom_code: String, request_line: String, key_check: Result<
    String,
    DatabaseError,
>) -> (step: RequestStep)
    ensures
        match key_check {
            Ok(owner) => step matches RequestStep::ReadBody(p) && p.created_by@ == owner@
                && p.custom_code@ == custom_code@ && p.request_line@ == request_line@,
            Err(_) => step matches RequestStep::Done(h) && is_error(
                h.response,
                401,
                "Unauthorized"@,
            ) && logs_one(h, request_line@ + " [Invalid credentials]"@),
        },
{
    match key_check {
        Ok(owner) => RequestStep::ReadBody(PendingCreate { custom_code, created_by: owner, request_line }),
        Err(_) => {
            let line = join2(request_line.as_str(), " [Invalid credentials]");
            RequestStep::Done(handled(http_error(401, "Unauthorized"), line))
        },
    }
}

/// One attempt at storing a random code.
pub enum CodeAttempt {
    /// The code was stored.
    Stored(String),
    /// It was not; the access-log line says why.
    Failed(String),
}

/// The access-log head of a failed attempt: request line, attempt number
/// and the code tried.
pub open spec fn attempt_head(request_line: Seq<char>, attempt: usize, candidate: Seq<char>) -> Seq<char> {
    request_line + " [Attempt "@ + decimal(attempt as nat) + ": "@ + candidate + ": "@
}

/// One attempt of a `POST` without a code, given what storing the random
/// `candidate` returned: the candidate when it was stored, otherwise a log
/// line naming the attempt, the candidate and the reason.
pub fn code_attempt(request_line: &str, attempt: usize, candidate: String, result: Result<
    (),
    DatabaseError,
>) -> (res: CodeAttempt)
    ensures
        match result {
            Ok(()) => res == CodeAttempt::Stored(candidate),
            Err(DatabaseError::CodeAlreadyInUse) => res matches CodeAttempt::Failed(l) && l@
                == attempt_head(request_line@, attempt, candidate@) + "Code already in use"@ + "]"@,
            Err(_) => res matches CodeAttempt::Failed(l) && has_prefix(
                l@,
                attempt_head(request_line@, attempt, candidate@),
            ),
        },
{
    match result {
        Ok(()) => CodeAttempt::Stored(candidate),
        Err(error) => {
            let reason = match error {
                DatabaseError::CodeAlreadyInUse => String::from_str("Code already in use"),
                other => other.message(),
            };
            let number = u64_to_decimal(attempt as u64);
            let a = join3(request_line, " [Attempt ", number.as_str());
            let b = join3(a.as_str(), ": ", candidate.as_str());
            let head = join2(b.as_str(), ": ");
            let c = join2(head.as_str(), reason.as_str());
            let line = join2(c.as_str(), "]");
            assert(line@.subrange(0, head@.len() as int) =~= head@);
            CodeAttempt::Failed(line)
        },
    }
}

/// A generated code: `length` ASCII letters and digits, at least one.
pub open spec fn generated_code_shape(code: Seq<char>, length: usize) -> bool {
    &&& length > 0
    &&& code.len() == length
    &&& forall|i: int| 0 <= i < code.len() ==> is_alphanumeric(#[trigger] code[i])
}

/// The short URL for a code: the prefix followed by the code.
pub open spec fn short_url(prefix: Seq<char>, code: Seq<char>) -> Seq<char> {
    prefix + code
}

/// The answer once a code is stored: `200 OK` with the short URL and a
/// newline, logged with the target.
pub fn created_outcome(request_line: &str, url_prefix: &str, target: &str, code: &str) -> (h:
    Handled)
    ensures
        is_plain(h.response, short_url(url_prefix@, code@) + "\n"@),
        logs_one(h, request_line@ + " ("@ + target@ + ") => "@ + short_url(url_prefix@, code@)),
{
    let new_url = join2(url_prefix, code);
    let head = join3(request_line, " (", target);
    let line = join3(head.as_str(), ") => ", new_url.as_str());
    let body = join2(new_url.as_str(), "\n");
    handled(plain_response(body), line)
}

/// The answer to a `POST` with a code of its own, given what storing it
/// returned: the short URL, `409` when the code is taken, `500` otherwise.
pub fn custom_code_outcome(
    request_line: &str,
    url_prefix: &str,
    target: &str,
    code: &str,
    result: Result<(), DatabaseError>,
) -> (h: Handled)
    ensures
        match result {
            Ok(()) => is_plain(h.response, short_url(url_prefix@, code@) + "\n"@) && logs_one(
                h,
                request_line@ + " ("@ + target@ + ") => "@ + short_url(url_prefix@, code@),
            ),
            Err(DatabaseError::CodeAlreadyInUse) => is_error(h.response, 409, "Code already in use"@)
                && logs_one(h, request_line@ + " [Code already in use]"@),
            Err(_) => is_error(h.response, 500, "Internal server error"@) && h.log_lines@.len()
                == 1 && has_prefix(h.log_lines@[0]@, request_line@ + " ["@),
        },
{
    match result {
        Ok(()) => created_outcome(request_line, url_prefix, target, code),
        Err(DatabaseError::CodeAlreadyInUse) => {
            let line = join2(request_line, " [Code already in use]");
            handled(http_error(409, "Code already in use"), line)
        },
        Err(error) => {
            let message = error.message();
            let head = join2(request_line, " [");
            let line = join3(head.as_str(), message.as_str(), "]");
            assert(line@.subrange(0, head@.len() as int) =~= head@);
            handled(http_error(500, "Internal server error"), line)
        },
    }
}

/// The URL shortener: its configuration and its database.
pub struct Shortener {
    pub config: Config,
    pub database: Database,
}

impl Shortener {
    /// Generated codes must have a length a string can hold.
    pub open spec fn wf(&self) -> bool {
        self.config.code_length <= isize::MAX
    }

    /// Creates a shortener from `config`, opening or creating its SQLite
    /// database and applying the schema.
    pub fn new(config: Config) -> (res: Result<Self, DatabaseError>)
        ensures
            res matches Ok(s) ==> s.config == config,
            res matches Err(e) ==> e is Sqlite,
    {
        let database = match Database::new(config.database.as_str(), true) {
            Ok(database) => database,
            Err(e) => return Err(e),
        };
        match database.init() {
            Ok(()) => {},
            Err(e) => return Err(e),
        }
        Ok(Shortener { config, database })
    }

    fn request_line(&self, request: &Request) -> (res: String)
        ensures
            res@ == request_line_of(self.config, *request),
    {
        let forwarded = match &request.forwarded_for {
            Some(h) => Some(h.as_str()),
            None => None,
        };
        let host = get_client_host(self.config.trust_proxy, request.remote_ip.as_str(), forwarded);
        let a = join3(host.as_str(), " ", request.method.as_str());
        join3(a.as_str(), " ", request.uri.as_str())
    }

    /// The answer to `GET /`: a redirect to the main page when one is
    /// configured, a greeting otherwise.
    fn homepage(&self, request_line: String) -> (h: Handled)
        ensures
            logs_one(h, request_line@),
            match self.config.main_page {
                Some(page) => is_redirect(h.response, page@),
                None => is_plain(h.response, "hello, world\n"@),
            },
    {
        let response = match &self.config.main_page {
            Some(page) => redirect_response(page.as_str()),
            None => plain_response(String::from_str("hello, world\n")),
        };
        handled(response, request_line)
    }

    /// The first step of every request. `GET /` is the home page, any
    /// other `GET` looks up a code, a `POST` creates a code (after checking
    /// credentials when authentication is on), and every other method is
    /// refused with `405`.
    pub fn handle(&self, request: &Request) -> (step: RequestStep)
        ensures
            ({
                let line = request_line_of(self.config, *request);
                if request.method@ == "GET"@ {
                    step matches RequestStep::Done(h) && if is_root(request.path@) {
                        logs_one(h, line) && match self.config.main_page {
                            Some(page) => is_redirect(h.response, page@),
                            None => is_plain(h.response, "hello, world\n"@),
                        }
                    } else {
                        ||| (h.response.location matches Some(l) && is_redirect(h.response, l@)
                            && logs_one(h, line + " => "@ + l@))
                        ||| (is_error(h.response, 404, "Not found"@) && logs_one(
                            h,
                            line + " [Not found]"@,
                        ))
                        ||| (is_error(h.response, 500, "Internal server error"@)
                            && h.log_lines@.len() == 1 && has_prefix(h.log_lines@[0]@, line + " ["@))
                    }
                } else if request.method@ == "POST"@ {
                    self.create_step(*request, step)
                } else {
                    step matches RequestStep::Done(h) && is_error(
                        h.response,
                        405,
                        "Method not allowed"@,
                    ) && logs_one(h, line + " Method not allowed"@)
                }
            }),
    {
        let line = self.request_line(request);
        if str_equal(request.method.as_str(), "GET") {
            if is_root_path(request.path.as_str()) {
                RequestStep::Done(self.homepage(line))
            } else {
                let code = code_from_path(request.path.as_str());
                let result = self.database.get_url(code.as_str());
                let h = redirect_outcome(line.as_str(), result);
                RequestStep::Done(h)
            }
        } else if str_equal(request.method.as_str(), "POST") {
            self.begin_create(request, line)
        } else {
            let message = join2(line.as_str(), " Method not allowed");
            RequestStep::Done(handled(http_error(405, "Method not allowed"), message))
        }
    }

    /// What the first step of a `POST` does: with authentication on, a
    /// missing `Bearer` token, or one that is not a base64 key, is refused
    /// with `401` before the body is read; otherwise the request waits for its body, asking for the
    /// code its path names and attributed to the client host (without
    /// authentication) or to the key's owner (with it).
    pub open spec fn create_step(self, request: Request, step: RequestStep) -> bool {
        let line = request_line_of(self.config, request);
        let header = match request.authorization {
            Some(h) => h@,
            None => Seq::empty(),
        };
        &&& (self.config.auth && !has_prefix(header, "Bearer "@)) ==> (step matches RequestStep::Done(
            h,
        ) && is_error(h.response, 401, "Unauthorized"@) && logs_one(
            h,
            line + " [Missing credentials]"@,
        ))
        &&& (self.config.auth && has_prefix(header, "Bearer "@) && api_key_hash(
            header.subrange(7, header.len() as int),
        ) is None) ==> step is Done
        &&& (self.config.auth && has_prefix(header, "Bearer "@) && step is Done) ==> (
        step matches RequestStep::Done(h) && is_error(h.response, 401, "Unauthorized"@) && logs_one(
            h,
            line + " [Invalid credentials]"@,
        ))
        &&& (self.config.auth && step is ReadBody) ==> (has_prefix(header, "Bearer "@)
            && api_key_hash(header.subrange(7, header.len() as int)) is Some)
        &&& !self.config.auth ==> step is ReadBody
        &&& step matches RequestStep::ReadBody(p) ==> {
            &&& p.custom_code@ == requested_code(request.path@)
            &&& p.request_line@ == line
            &&& !self.config.auth ==> p.created_by@ == client_host_of(
                self.config.trust_proxy,
                request.remote_ip@,
                opt_view(request.forwarded_for),
            )
        }
    }

    fn begin_create(&self, request: &Request, line: String) -> (step: RequestStep)
        requires
            line@ == request_line_of(self.config, *request),
        ensures
            self.create_step(*request, step),
    {
        let custom_code = if is_root_path(request.path.as_str()) {
            String::new()
        } else {
            code_from_path(request.path.as_str())
        };
        let created_by = if self.config.auth {
            let header = match &request.authorization {
                Some(h) => h.as_str(),
                None => {
                    proof {
                        reveal_strlit("");
                    }
                    assert(""@ =~= Seq::<char>::empty());
                    ""
                },
            };
            if !starts_with(header, "Bearer ") {
                let message = join2(line.as_str(), " [Missing credentials]");
                return RequestStep::Done(handled(http_error(401, "Unauthorized"), message));
            }
            proof {
                reveal_strlit("Bearer ");
            }
            let key = header.substring_char(7, header.unicode_len());
            return key_checked_step(custom_code, line, self.database.check_api_key(key));
        } else {
            let forwarded = match &request.forwarded_for {
                Some(h) => Some(h.as_str()),
                None => None,
            };
            get_client_host(self.config.trust_proxy, request.remote_ip.as_str(), forwarded)
        };
        RequestStep::ReadBody(PendingCreate { custom_code, created_by, request_line: line })
    }

    /// What the second step of a `POST` answers, given the body that was
    /// read (`None` when it was too large). The checks that depend on the
    /// request alone are stated exactly; a code that reaches the database
    /// ends in `200` with its short URL, `409` (a code of the request's
    /// own that is taken) or `500`.
    pub open spec fn finish_step(self, pending: PendingCreate, body: Option<Vec<u8>>, h: Handled) -> bool {
        let line = pending.request_line@;
        let custom = pending.custom_code@;
        match body {
            None => is_error(h.response, 413, "Request body too large"@) && logs_one(
                h,
                line + " [Request body too large]"@,
            ),
            Some(bytes) => {
                let target = body_target(bytes@);
                if !is_http_url(target) {
                    is_error(h.response, 400, "Invalid URL"@) && logs_one(h, line + " [Invalid URL]"@)
                } else if custom.len() > 0 && !valid_code(custom) {
                    is_error(h.response, 400, "Invalid code"@) && logs_one(h, line + " [Invalid code]"@)
                } else {
                    &&& (h.response.status == 200 || h.response.status == 409 || h.response.status
                        == 500)
                    &&& h.response.status == 200 ==> exists|code: Seq<char>|
                        {
                            &&& is_plain(
                                h.response,
                                #[trigger] short_url(self.config.url_prefix@, code) + "\n"@,
                            )
                            &&& h.log_lines@.len() > 0
                            &&& h.log_lines@.last()@ == line + " ("@ + target + ") => "@ + short_url(
                                self.config.url_prefix@,
                                code,
                            )
                            &&& custom.len() > 0 ==> code == custom
                            &&& custom.len() == 0 ==> generated_code_shape(
                                code,
                                self.config.code_length,
                            )
                        }
                    &&& h.response.status == 409 ==> custom.len() > 0 && is_error(
                        h.response,
                        409,
                        "Code already in use"@,
                    )
                    &&& h.response.status == 500 ==> is_error(
                        h.response,
                        500,
                        "Internal server error"@,
                    )
                }
            },
        }
    }

    /// Tries up to `CODE_ATTEMPTS` random codes until one is stored,
    /// logging each failed attempt. Gives `None` (with a last log line)
    /// when none was stored, or when codes are empty. A code that is given
    /// back is one whose `create_code` returned `Ok` (see `code_attempt`).
    fn create_generated_code(&self, target: &str, created_by: &str, request_line: &str) -> (res: (
        Option<String>,
        Vec<String>,
    ))
        requires
            self.wf(),
        ensures
            res.0 matches Some(code) ==> generated_code_shape(code@, self.config.code_length)
                && res.1@.len() < CODE_ATTEMPTS,
            res.0 is None ==> 0 < res.1@.len() <= CODE_ATTEMPTS + 1 && res.1@.last()@
                == request_line@ + " [Could not generate code]"@,
    {
        let mut log_lines: Vec<String> = Vec::new();
        let mut code = String::new();
        let mut attempt: usize = 0;
        while attempt < CODE_ATTEMPTS
            invariant_except_break
                code@.len() == 0,
                log_lines@.len() == attempt,
            invariant
                self.wf(),
                attempt <= CODE_ATTEMPTS,
            ensures
                code@.len() == 0 || generated_code_shape(code@, self.config.code_length),
                log_lines@.len() <= CODE_ATTEMPTS,
                code@.len() > 0 ==> log_lines@.len() < CODE_ATTEMPTS,
            decreases CODE_ATTEMPTS - attempt,
        {
            let candidate = generate_code(self.config.code_length);
            let result = self.database.create_code(target, candidate.as_str(), created_by);
            match code_attempt(request_line, attempt, candidate, result) {
                CodeAttempt::Stored(stored) => {
                    code = stored;
                    break;
                },
                CodeAttempt::Failed(line) => {
                    log_lines.push(line);
                },
            }
            attempt = attempt + 1;
        }
        if code.as_str().unicode_len() == 0 {
            log_lines.push(join2(request_line, " [Could not generate code]"));
            return (None, log_lines);
        }
        (Some(code), log_lines)
    }

    /// The second step of a `POST`: checks the body's URL and the
    /// requested code, then stores the code (generating one when none was
    /// asked for) and answers with the short URL.
    pub fn finish_create(&self, pending: PendingCreate, body: Option<Vec<u8>>) -> (h: Handled)
        requires
            self.wf(),
        ensures
            self.finish_step(pending, body, h),
    {
        let line = pending.request_line.as_str();
        let bytes = match &body {
            None => {
                let message = join2(line, " [Request body too large]");
                return handled(http_error(413, "Request body too large"), message);
            },
            Some(b) => b,
        };
        let text = decode_utf8_lossy(bytes.as_slice());
        let target = trim(text.as_str());
        if !is_valid_http_url(target) {
            let message = join2(line, " [Invalid URL]");
            return handled(http_error(400, "Invalid URL"), message);
        }
        let custom = pending.custom_code.as_str();
        let custom_len = custom.unicode_len();
        if custom_len > 0 && !is_valid_code(custom) {
            let message = join2(line, " [Invalid code]");
            return handled(http_error(400, "Invalid code"), message);
        }
        let prefix = self.config.url_prefix.as_str();
        if custom_len == 0 {
            let (generated, mut log_lines) = self.create_generated_code(
                target,
                pending.created_by.as_str(),
                line,
            );
            match generated {
                None => Handled {
                    response: http_error(500, "Internal server error"),
                    log_lines,
                },
                Some(code) => {
                    let created = created_outcome(line, prefix, target, code.as_str());
                    let mut created_lines = created.log_lines;
                    let last = created_lines.pop().unwrap();
                    log_lines.push(last);
                    Handled { response: created.response, log_lines }
                },
            }
        } else {
            let result = self.database.create_code(target, custom, pending.created_by.as_str());
            custom_code_outcome(line, prefix, target, custom, result)
        }
    }
}

} // verus!
