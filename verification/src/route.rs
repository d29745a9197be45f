//! From a request's head to a routed request: the API key header and the
//! five fixed paths.

use vstd::prelude::*;
use vstd::string::*;
use vstd::utf8::*;

verus! {

/// How many bytes of body a request may carry.
pub const BODY_LIMIT: usize = 1024;

/// How many seconds a request may take to arrive before it is dropped.
pub const REQUEST_TIMEOUT_SECONDS: u64 = 10;

/// The five credential commands.
#[derive(Debug, Clone, Copy, PartialEq, Eq, Structural)]
pub enum Command {
    GetAuth,
    CreateAuth,
    SetPassword,
    SetPrivileges,
    RecordLogin,
}

/// One header line of a request: its name and its raw value.
pub struct Header {
    pub name: String,
    pub value: Vec<u8>,
}

/// What the head of a request amounts to.
#[derive(Debug)]
pub enum Request {
    /// A known path, with the API key that the caller presented.
    ValidCommand(String, Command),
    /// A known path without an API key: the header is missing, or its value
    /// is no UTF-8.
    Unauthorized,
    /// Any other path.
    PageNotFound,
}

/// The mathematical value of a `Request`.
pub enum RequestView {
    ValidCommand(Seq<char>, Command),
    Unauthorized,
    PageNotFound,
}

impl View for Request {
    type V = RequestView;

    open spec fn view(&self) -> RequestView {
        match *self {
            Request::ValidCommand(key, command) => RequestView::ValidCommand(key@, command),
            Request::Unauthorized => RequestView::Unauthorized,
            Request::PageNotFound => RequestView::PageNotFound,
        }
    }
}

/// The command that a path names: an exact match on five literals.
pub open spec fn route_of(path: Seq<char>) -> Option<Command> {
    if path == "/v1/get_auth"@ {
        Some(Command::GetAuth)
    } else if path == "/v1/create_auth"@ {
        Some(Command::CreateAuth)
    } else if path == "/v1/set_password"@ {
        Some(Command::SetPassword)
    } else if path == "/v1/set_privileges"@ {
        Some(Command::SetPrivileges)
    } else if path == "/v1/record_login"@ {
        Some(Command::RecordLogin)
    } else {
        None
    }
}

/// Whether a header carries the API key.
pub open spec fn is_secret_header(header: Header) -> bool {
    header.name@ == "X-Minetest-ApiSecret"@
}

/// The key that a header value stands for: its text, and no key at all
/// where the bytes are no UTF-8.
pub open spec fn secret_text(value: Seq<u8>) -> Option<Seq<char>> {
    if valid_utf8(value) {
        Some(decode_utf8(value))
    } else {
        None
    }
}

/// The key of the first API key header at or after `start`. That header
/// alone decides: where its value is no UTF-8 there is no key, whatever
/// follows it.
pub open spec fn secret_from(headers: Seq<Header>, start: int) -> Option<Seq<char>>
    decreases headers.len() - start,
{
    if start < 0 || start >= headers.len() {
        None
    } else if is_secret_header(headers[start]) {
        secret_text(headers[start].value@)
    } else {
        secret_from(headers, start + 1)
    }
}

/// The request that a head with these headers and this path amounts to.
pub open spec fn request_of(headers: Seq<Header>, path: Seq<char>) -> RequestView {
    match route_of(path) {
        None => RequestView::PageNotFound,
        Some(command) => match secret_from(headers, 0) {
            None => RequestView::Unauthorized,
            Some(key) => RequestView::ValidCommand(key, command),
        },
    }
}

/// Whether two texts are the same.
pub fn same_text(a: &str, b: &str) -> (r: bool)
    ensures
        r == (a@ == b@),
{
    let x = String::from_str(a);
    let y = String::from_str(b);
    x == y
}

/// `std::str::from_utf8`, with the text copied out: `Some` exactly on valid
/// UTF-8, and then the text that the bytes encode.
#[verifier::external_body]
fn utf8_text(bytes: &[u8]) -> (r: Option<String>)
    ensures
        r is Some <==> valid_utf8(bytes@),
        r is Some ==> r->0@ == decode_utf8(bytes@),
{
    match std::str::from_utf8(bytes) {
        Ok(text) => Some(text.to_string()),
        Err(_) => None,
    }
}

/// Maps a path to its command.
pub fn route(path: &str) -> (r: Option<Command>)
    ensures
        r == route_of(path@),
{
    if same_text(path, "/v1/get_auth") {
        Some(Command::GetAuth)
    } else if same_text(path, "/v1/create_auth") {
        Some(Command::CreateAuth)
    } else if same_text(path, "/v1/set_password") {
        Some(Command::SetPassword)
    } else if same_text(path, "/v1/set_privileges") {
        Some(Command::SetPrivileges)
    } else if same_text(path, "/v1/record_login") {
        Some(Command::RecordLogin)
    } else {
        None
    }
}

/// Finds the API key among the headers: the value of the first header named
/// `X-Minetest-ApiSecret`. A value that is no UTF-8 is no key.
pub fn api_secret(headers: &Vec<Header>) -> (r: Option<String>)
    ensures
        match r {
            Some(key) => secret_from(headers@, 0) == Some(key@),
            None => secret_from(headers@, 0) is None,
        },
{
    let mut i: usize = 0;
    while i < headers.len()
        invariant
            i <= headers.len(),
            secret_from(headers@, 0) == secret_from(headers@, i as int),
        decreases headers.len() - i,
    {
        if same_text(headers[i].name.as_str(), "X-Minetest-ApiSecret") {
            return utf8_text(headers[i].value.as_slice());
        }
        i += 1;
    }
    None
}

/// Turns the head of a request into a routed request.
pub fn headers_received(headers: &Vec<Header>, path: &str) -> (r: Request)
    ensures
        r@ == request_of(headers@, path@),
{
    match route(path) {
        None => Request::PageNotFound,
        Some(command) => match api_secret(headers) {
            None => Request::Unauthorized,
            Some(key) => Request::ValidCommand(key, command),
        },
    }
}

} // verus!
