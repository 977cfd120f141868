//! The two request handlers of the daemon: the redirect to HTTPS and the
//! answer to an HTTP-01 challenge.

use crate::args::optional_view;
use crate::chall::{is_valid_token, valid_token};
use vstd::prelude::*;
use vstd::string::{StrSliceExecFns, StringExecFns, StringSliceAdditionalSpecFns};

verus! {

/// Body of a refused request.
pub const BAD_REQUEST: &'static str = "Bad request\n";

/// Body of the answer to a challenge that has no proof.
pub const NOT_FOUND: &'static str = "Not found\n";

/// Body of a redirect.
pub const REDIRECT: &'static str = "Redirecting to https\n";

/// The directory, below the working directory, that holds the proofs.
pub const CHALLENGE_DIR: &'static str = "challs";

/// What the handlers read of a request.
#[derive(Debug, PartialEq)]
pub struct Request {
    /// The bytes of the `Host` header, if the request has one.
    pub host: Option<Vec<u8>>,
    /// Path and query, as the client sent them.
    pub uri: String,
}

/// The model of [`Request`].
pub struct RequestModel {
    pub host: Option<Seq<u8>>,
    pub uri: Seq<char>,
}

impl View for Request {
    type V = RequestModel;

    open spec fn view(&self) -> RequestModel {
        RequestModel {
            host: match self.host {
                Some(bytes) => Some(bytes@),
                None => None,
            },
            uri: self.uri@,
        }
    }
}

/// What a handler answers.
#[derive(Debug, PartialEq)]
pub struct Response {
    pub status: u16,
    /// The value of the `Location` header, if there is one.
    pub location: Option<String>,
    pub body: Vec<u8>,
}

/// The model of [`Response`].
pub struct ResponseModel {
    pub status: u16,
    pub location: Option<Seq<char>>,
    pub body: Seq<u8>,
}

impl View for Response {
    type V = ResponseModel;

    open spec fn view(&self) -> ResponseModel {
        ResponseModel {
            status: self.status,
            location: match self.location {
                Some(url) => Some(url@),
                None => None,
            },
            body: self.body@,
        }
    }
}

/// The answer 400 with its fixed body.
pub open spec fn bad_request_model() -> ResponseModel {
    ResponseModel { status: 400, location: None, body: BAD_REQUEST.spec_bytes() }
}

/// The answer 404 with its fixed body.
pub open spec fn not_found_model() -> ResponseModel {
    ResponseModel { status: 404, location: None, body: NOT_FOUND.spec_bytes() }
}

/// The answer 301 to `url`, with its fixed body.
pub open spec fn moved_model(url: Seq<char>) -> ResponseModel {
    ResponseModel { status: 301, location: Some(url), body: REDIRECT.spec_bytes() }
}

/// The answer 200 with `body` as its body.
pub open spec fn proof_model(body: Seq<u8>) -> ResponseModel {
    ResponseModel { status: 200, location: None, body }
}

/// The answer to a request that is refused.
pub fn bad_request() -> (r: Response)
    ensures
        r@ == bad_request_model(),
{
    Response { status: 400, location: None, body: BAD_REQUEST.as_bytes_vec() }
}

/// The answer to a challenge that has no proof.
pub fn not_found() -> (r: Response)
    ensures
        r@ == not_found_model(),
{
    Response { status: 404, location: None, body: NOT_FOUND.as_bytes_vec() }
}

/// Whether a byte of a header value is text: printable ASCII, a space or a
/// tab.
pub open spec fn is_visible_ascii(b: u8) -> bool {
    (32 <= b && b < 127) || b == 9
}

/// The bytes of a header value as text, where each of them is text.
pub open spec fn header_text(bytes: Seq<u8>) -> Option<Seq<char>> {
    if forall|i: int| 0 <= i < bytes.len() ==> is_visible_ascii(#[trigger] bytes[i]) {
        Some(Seq::new(bytes.len(), |i: int| bytes[i] as char))
    } else {
        None
    }
}

/// The host that a request names: the text of its `Host` header, where it
/// has one that is text.
pub open spec fn host_of(req: RequestModel) -> Option<Seq<char>> {
    match req.host {
        Some(bytes) => header_text(bytes),
        None => None,
    }
}

/// `String::push` of std: the string afterwards is the string before with
/// `c` at its end.
#[verifier::external_body]
fn push_char(text: &mut String, c: char)
    ensures
        final(text)@ == old(text)@.push(c),
{
    text.push(c)
}

/// The host that a request names.
pub fn get_host(req: &Request) -> (r: Option<String>)
    ensures
        optional_view(r) == host_of(req@),
{
    match &req.host {
        None => None,
        Some(bytes) => {
            let mut text = String::new();
            let mut i: usize = 0;
            while i < bytes.len()
                invariant
                    req.host == Some(*bytes),
                    i <= bytes.len(),
                    text@.len() == i,
                    forall|j: int| 0 <= j < i ==> is_visible_ascii(#[trigger] bytes[j]),
                    forall|j: int| 0 <= j < i ==> #[trigger] text@[j] == bytes[j] as char,
                decreases bytes.len() - i,
            {
                let b = bytes[i];
                if !((32 <= b && b < 127) || b == 9) {
                    assert(!is_visible_ascii(bytes@[i as int]));
                    return None;
                }
                push_char(&mut text, b as char);
                i += 1;
            }
            assert(text@ =~= header_text(bytes@)->Some_0);
            Some(text)
        },
    }
}

/// Whether `text` holds a carriage return or a line feed.
pub open spec fn has_line_break(text: Seq<char>) -> bool {
    exists|i: int| 0 <= i < text.len() && is_line_break(#[trigger] text[i])
}

/// Whether `c` is a carriage return or a line feed.
pub open spec fn is_line_break(c: char) -> bool {
    c == '\n' || c == '\r'
}

/// Where a request for `uri` on `host` is sent: the same place, by HTTPS.
pub open spec fn redirect_target(host: Seq<char>, uri: Seq<char>) -> Seq<char> {
    "https://"@ + host + uri
}

/// The answer of the redirect handler: 301 to the HTTPS place of the
/// request, or 400 where the request names no host or the place would not
/// fit in one header line.
pub open spec fn redirected(req: RequestModel) -> ResponseModel {
    match host_of(req) {
        None => bad_request_model(),
        Some(host) => {
            let url = redirect_target(host, req.uri);
            if has_line_break(url) {
                bad_request_model()
            } else {
                moved_model(url)
            }
        },
    }
}

fn contains_line_break(text: &str) -> (r: bool)
    ensures
        r == has_line_break(text@),
{
    for c in it: text.chars()
        invariant
            it.seq() == text@,
            forall|j: int| 0 <= j < it.index() ==> !is_line_break(#[trigger] text@[j]),
    {
        if c == '\n' || c == '\r' {
            assert(is_line_break(text@[it.index()]));
            return true;
        }
    }
    false
}

/// Answers a request that is no challenge: sends the client to the same
/// place by HTTPS.
pub fn redirect(req: &Request) -> (r: Response)
    ensures
        r@ == redirected(req@),
{
    let host = match get_host(req) {
        Some(host) => host,
        None => {
            return bad_request();
        },
    };
    let mut url = "https://".to_owned();
    url.append(host.as_str());
    url.append(req.uri.as_str());
    if contains_line_break(url.as_str()) {
        return bad_request();
    }
    Response { status: 301, location: Some(url), body: REDIRECT.as_bytes_vec() }
}

/// What the challenge handler does with a token before any file is
/// touched.
#[derive(Debug, PartialEq)]
pub enum Challenge {
    /// The token is refused, with this answer.
    Reject(Response),
    /// The proof is to be read from the file at this path, relative to the
    /// working directory.
    Read(String),
}

/// Where the proof for `token` lies.
pub open spec fn proof_path(token: Seq<char>) -> Seq<char> {
    CHALLENGE_DIR@ + "/"@ + token
}

/// Decides on a challenge request: a token of the right syntax has its
/// proof read, any other is refused without a look at the files.
pub fn acme(token: &str) -> (r: Challenge)
    ensures
        match r {
            Challenge::Read(path) => is_valid_token(token@) && path@ == proof_path(token@),
            Challenge::Reject(response) => !is_valid_token(token@) && response@
                == bad_request_model(),
        },
{
    if !valid_token(token) {
        return Challenge::Reject(bad_request());
    }
    let mut path = CHALLENGE_DIR.to_owned();
    path.append("/");
    path.append(token);
    Challenge::Read(path)
}

/// The answer to a challenge once the file was looked for: what was read,
/// or 404 where nothing was.
pub fn acme_proof(found: Option<Vec<u8>>) -> (r: Response)
    ensures
        match found {
            Some(bytes) => r@ == proof_model(bytes@),
            None => r@ == not_found_model(),
        },
{
    match found {
        Some(bytes) => Response { status: 200, location: None, body: bytes },
        None => not_found(),
    }
}

/// The answer of the challenge handler to a request for `token`, where
/// `found` is what the file of the proof holds, or none if there is no such
/// file: that of [`acme`] for a token that it refuses, else that of
/// [`acme_proof`].
pub open spec fn challenged(token: Seq<char>, found: Option<Seq<u8>>) -> ResponseModel {
    if !is_valid_token(token) {
        bad_request_model()
    } else {
        match found {
            Some(bytes) => proof_model(bytes),
            None => not_found_model(),
        }
    }
}

/// The challenge handler answers 400 to a token of the wrong syntax,
/// whatever the files hold, and to a valid one 200 where its file is there
/// and 404 where it is not. It answers nothing else, and never sends a
/// `Location`.
pub proof fn law_challenge_answers(token: Seq<char>, found: Option<Seq<u8>>)
    ensures
        challenged(token, found).status == 400 <==> !is_valid_token(token),
        challenged(token, found).status == 200 <==> is_valid_token(token) && found is Some,
        challenged(token, found).status == 404 <==> is_valid_token(token) && found is None,
        challenged(token, found).location is None,
{
}

/// The path under which the proofs are asked for.
pub const CHALLENGE_PREFIX: &'static str = "/.well-known/acme-challenge/";

/// Milliseconds that a client is given to send the head of its request.
pub const CLIENT_TIMEOUT_MS: u64 = 5000;

/// The handler that a path belongs to.
#[derive(Debug, PartialEq)]
pub enum Route {
    /// The challenge handler, with the token that the path ends in.
    Challenge(String),
    /// The redirect handler.
    Redirect,
}

/// The token of a challenge path: what follows the prefix, where that is
/// one segment and not empty.
pub open spec fn challenge_token(path: Seq<char>) -> Option<Seq<char>> {
    let prefix = CHALLENGE_PREFIX@;
    let token = path.subrange(prefix.len() as int, path.len() as int);
    if path.len() > prefix.len() && path.subrange(0, prefix.len() as int) == prefix
        && !token.contains('/') {
        Some(token)
    } else {
        None
    }
}

/// Finds the handler for the path of a request: the challenge handler for
/// a path that is the prefix and one more segment, the redirect handler for
/// every other path.
pub fn route(path: &str) -> (r: Route)
    ensures
        match challenge_token(path@) {
            Some(token) => r matches Route::Challenge(t) && t@ == token,
            None => r == Route::Redirect,
        },
{
    let n = path.unicode_len();
    let m = CHALLENGE_PREFIX.unicode_len();
    if n <= m {
        return Route::Redirect;
    }
    let ghost token = path@.subrange(m as int, n as int);
    let mut i: usize = 0;
    for c in it: path.chars()
        invariant
            it.seq() == path@,
            i == it.index(),
            m < n == path@.len(),
            m == CHALLENGE_PREFIX@.len(),
            token == path@.subrange(m as int, n as int),
            forall|j: int| 0 <= j < i && j < m ==> path@[j] == CHALLENGE_PREFIX@[j],
            forall|j: int| 0 <= j < i - m ==> token[j] != '/',
    {
        if i < m {
            if c != CHALLENGE_PREFIX.get_char(i) {
                assert(path@.subrange(0, m as int)[i as int] != CHALLENGE_PREFIX@[i as int]);
                return Route::Redirect;
            }
        } else if c == '/' {
            assert(token[i - m] == '/');
            return Route::Redirect;
        }
        i += 1;
    }
    assert(path@.subrange(0, m as int) =~= CHALLENGE_PREFIX@);
    Route::Challenge(path.substring_char(m, n).to_owned())
}

/// A request without a `Host` header is refused, whatever its path.
pub proof fn law_missing_host_is_refused(req: RequestModel)
    requires
        req.host is None,
    ensures
        redirected(req) == bad_request_model(),
{
}

/// A request whose `Host` header holds a byte that is no text is refused.
pub proof fn law_invalid_host_is_refused(req: RequestModel, i: int)
    requires
        req.host matches Some(bytes) && 0 <= i < bytes.len() && !is_visible_ascii(bytes[i]),
    ensures
        redirected(req) == bad_request_model(),
{
}

/// A line break in the path of a request has the request refused.
pub proof fn law_line_break_is_refused(req: RequestModel)
    requires
        has_line_break(req.uri),
    ensures
        redirected(req) == bad_request_model(),
{
    match host_of(req) {
        Some(host) => {
            let i = choose|i: int| 0 <= i < req.uri.len() && is_line_break(#[trigger] req.uri[i]);
            let url = redirect_target(host, req.uri);
            let at = "https://"@.len() + host.len() + i;
            assert(url[at] == req.uri[i]);
        },
        None => {},
    }
}

/// The redirect handler answers 301 or 400 and nothing else, and no
/// `Location` that it sends holds a line break: what a client puts into
/// the host or the path never starts a header line of its own.
pub proof fn law_location_is_one_line(req: RequestModel)
    ensures
        redirected(req).status == 301 || redirected(req) == bad_request_model(),
        redirected(req).location matches Some(url) ==> !has_line_break(url),
{
}

} // verus!
