//! The service boundary: the three operations that a server offers on its
//! registry, from a request to a response.

use crate::codec::{base64_text, encode};
use crate::message::{UpdateMessage, ValidationError};
use crate::registry::{validation, ServerData};
use vstd::prelude::*;
use vstd::string::*;

verus! {

/// What a client asks of the server.
#[derive(Debug, Clone, PartialEq, Eq)]
pub enum Request {
    /// The public key of a user.
    GetKey(String),
    /// The latest update of a name.
    GetUpdate(String),
    /// A candidate update for a name; `None` where the body could not be read
    /// as an update message.
    PutUpdate(String, Option<UpdateMessage>),
    /// Anything else.
    Other,
}

/// What the server answers.
#[derive(Debug, Clone, PartialEq, Eq)]
pub enum Response {
    /// Success, with a text.
    Text(String),
    /// Success, with an update message.
    Update(UpdateMessage),
    /// Nothing is known under that name.
    NotFound,
    /// The body was not an update message.
    BadRequest,
    /// The candidate was not valid.
    Rejected(ValidationError),
}

impl Response {
    /// The HTTP status that goes with the response.
    pub open spec fn status_code(self) -> u16 {
        match self {
            Response::Text(_) => 200,
            Response::Update(_) => 200,
            Response::NotFound => 404,
            Response::BadRequest => 400,
            Response::Rejected(_) => 403,
        }
    }

    /// The HTTP status that goes with the response.
    pub fn status(&self) -> (code: u16)
        ensures
            code == self.status_code(),
    {
        match self {
            Response::Text(_) => 200,
            Response::Update(_) => 200,
            Response::NotFound => 404,
            Response::BadRequest => 400,
            Response::Rejected(_) => 403,
        }
    }
}

/// The one path segment that follows `prefix` in `url`: what is left of the
/// address after the prefix, where that is not empty and holds no slash.
pub open spec fn segment_after(url: Seq<char>, prefix: Seq<char>) -> Option<Seq<char>> {
    if prefix.len() < url.len() && url.subrange(0, prefix.len() as int) == prefix && !url.subrange(
        prefix.len() as int,
        url.len() as int,
    ).contains('/') {
        Some(url.subrange(prefix.len() as int, url.len() as int))
    } else {
        None
    }
}

/// Takes the one path segment that follows `prefix` in `url`, if `url` has
/// that form.
pub fn take_segment(url: &str, prefix: &str) -> (segment: Option<String>)
    ensures
        segment is Some <==> segment_after(url@, prefix@) is Some,
        segment is Some ==> segment_after(url@, prefix@) == Some(segment->Some_0@),
{
    let n = url.unicode_len();
    let p = prefix.unicode_len();
    if n <= p {
        return None;
    }
    let mut k: usize = 0;
    while k < p
        invariant
            p == prefix@.len(),
            n == url@.len(),
            p < n,
            k <= p,
            url@.subrange(0, k as int) == prefix@.subrange(0, k as int),
        decreases p - k,
    {
        if url.get_char(k) != prefix.get_char(k) {
            assert(url@.subrange(0, p as int)[k as int] != prefix@[k as int]);
            return None;
        }
        assert(url@.subrange(0, k + 1) =~= url@.subrange(0, k as int).push(url@[k as int]));
        assert(prefix@.subrange(0, k + 1) =~= prefix@.subrange(0, k as int).push(
            prefix@[k as int],
        ));
        k += 1;
    }
    assert(prefix@.subrange(0, p as int) =~= prefix@);
    let ghost rest = url@.subrange(p as int, n as int);
    while k < n
        invariant
            p <= k <= n,
            n == url@.len(),
            p == prefix@.len(),
            url@.subrange(0, p as int) == prefix@,
            rest == url@.subrange(p as int, n as int),
            forall|j: int| 0 <= j < k - p ==> rest[j] != '/',
        decreases n - k,
    {
        if url.get_char(k) == '/' {
            assert(rest[k - p] == '/');
            assert(rest.contains('/'));
            return None;
        }
        k += 1;
    }
    Some(String::from_str(url.substring_char(p, n)))
}

/// Reads a request off its method, its address and, for a submission, the
/// update message that its body held, if it held one. A `GET` of `/id/` and a
/// user asks for the user's key, a `GET` of `/name/` and a name for the
/// name's update, a `POST` to `/name/` and a name submits the candidate; all
/// else is `Other`.
pub fn route(method: &str, url: &str, candidate: Option<UpdateMessage>) -> (r: Request)
    ensures
        match r {
            Request::GetKey(username) => method@ == "GET"@ && segment_after(url@, "/id/"@) == Some(
                username@,
            ),
            Request::GetUpdate(name) => method@ == "GET"@ && segment_after(url@, "/id/"@) is None
                && segment_after(url@, "/name/"@) == Some(name@),
            Request::PutUpdate(name, body) => method@ != "GET"@ && method@ == "POST"@
                && segment_after(url@, "/name/"@) == Some(name@) && body == candidate,
            Request::Other => {
                &&& method@ == "GET"@ ==> segment_after(url@, "/id/"@) is None && segment_after(
                    url@,
                    "/name/"@,
                ) is None
                &&& method@ == "POST"@ ==> method@ == "GET"@ || segment_after(url@, "/name/"@)
                    is None
            },
        },
{
    if String::from_str(method) == String::from_str("GET") {
        match take_segment(url, "/id/") {
            Some(username) => Request::GetKey(username),
            None => match take_segment(url, "/name/") {
                Some(name) => Request::GetUpdate(name),
                None => Request::Other,
            },
        }
    } else if String::from_str(method) == String::from_str("POST") {
        match take_segment(url, "/name/") {
            Some(name) => Request::PutUpdate(name, candidate),
            None => Request::Other,
        }
    } else {
        Request::Other
    }
}


/// Answers a request for a user's public key: the key as base64 text, or
/// `NotFound` where the user is not registered.
pub fn get_key(server: &ServerData, username: &str) -> (r: Response)
    requires
        server.wf(),
    ensures
        match r {
            Response::Text(text) => server@.keys.contains_key(username@) && text@ == base64_text(
                server@.keys[username@],
            ),
            Response::NotFound => !server@.keys.contains_key(username@),
            _ => false,
        },
{
    match server.get_id_key(username) {
        Some(key) => Response::Text(encode(key)),
        None => Response::NotFound,
    }
}

/// Answers a request for a name's latest update: the message, or `NotFound`
/// where none was accepted for the name.
pub fn get_update(server: &ServerData, name: &str) -> (r: Response)
    ensures
        match r {
            Response::Update(msg) => server@.names.contains_key(name@) && msg
                == server@.names[name@],
            Response::NotFound => !server@.names.contains_key(name@),
            _ => false,
        },
{
    match server.get_name(name) {
        Some(msg) => Response::Update(msg.duplicate()),
        None => Response::NotFound,
    }
}

/// The answer to a submission, from the verdict of its validation: the text
/// "ok" for a valid candidate, else the rejection.
pub fn reply(verdict: Result<(), ValidationError>) -> (r: Response)
    ensures
        match r {
            Response::Text(text) => verdict is Ok && text@ == "ok"@,
            Response::Rejected(e) => verdict == Err::<(), ValidationError>(e),
            _ => false,
        },
{
    match verdict {
        Ok(_) => Response::Text(String::from_str("ok")),
        Err(e) => Response::Rejected(e),
    }
}

/// Submits a candidate for a name. Without a candidate the answer is
/// `BadRequest`. A valid candidate becomes the name's entry and the answer is
/// the text "ok"; an invalid one is answered with its rejection. The registry
/// changes on a valid candidate only.
pub fn put_update(server: &mut ServerData, name: &str, candidate: Option<UpdateMessage>) -> (r:
    Response)
    requires
        old(server).wf(),
    ensures
        final(server).wf(),
        match candidate {
            None => r is BadRequest && final(server)@ == old(server)@,
            Some(msg) => final(server)@ == old(server)@.submitted(name@, msg) && match r {
                Response::Text(text) => validation(old(server)@.keys, msg) is Ok && text@ == "ok"@,
                Response::Rejected(e) => validation(old(server)@.keys, msg) == Err::<
                    (),
                    ValidationError,
                >(e) && final(server)@ == old(server)@,
                _ => false,
            },
        },
{
    match candidate {
        None => Response::BadRequest,
        Some(msg) => {
            let verdict = server.apply_update_if_valid(name, &msg);
            reply(verdict)
        },
    }
}

/// Answers a request: the three operations each by its own function, and
/// anything else with a greeting that leaves the registry alone.
pub fn handle(server: &mut ServerData, request: Request) -> (r: Response)
    requires
        old(server).wf(),
    ensures
        final(server).wf(),
        match request {
            Request::GetKey(username) => final(server)@ == old(server)@ && match r {
                Response::Text(text) => old(server)@.keys.contains_key(username@) && text@
                    == base64_text(old(server)@.keys[username@]),
                Response::NotFound => !old(server)@.keys.contains_key(username@),
                _ => false,
            },
            Request::GetUpdate(name) => final(server)@ == old(server)@ && match r {
                Response::Update(msg) => old(server)@.names.contains_key(name@) && msg == old(
                    server,
                )@.names[name@],
                Response::NotFound => !old(server)@.names.contains_key(name@),
                _ => false,
            },
            Request::PutUpdate(name, None) => r is BadRequest && final(server)@ == old(server)@,
            Request::PutUpdate(name, Some(msg)) => final(server)@ == old(server)@.submitted(
                name@,
                msg,
            ) && match r {
                Response::Text(text) => validation(old(server)@.keys, msg) is Ok && text@ == "ok"@,
                Response::Rejected(e) => validation(old(server)@.keys, msg) == Err::<
                    (),
                    ValidationError,
                >(e),
                _ => false,
            },
            Request::Other => final(server)@ == old(server)@ && match r {
                Response::Text(text) => text@ == "hello world"@,
                _ => false,
            },
        },
{
    match request {
        Request::GetKey(username) => get_key(server, username.as_str()),
        Request::GetUpdate(name) => get_update(server, name.as_str()),
        Request::PutUpdate(name, candidate) => put_update(server, name.as_str(), candidate),
        Request::Other => Response::Text(String::from_str("hello world")),
    }
}

} // verus!
