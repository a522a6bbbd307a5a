//! The response handed back to the host, and the outcome it is built from.

use vstd::prelude::*;

verus! {

/// The class of a response. The host maps it to a status code range.
#[derive(Clone, Copy, Debug, PartialEq, Eq, Structural)]
pub enum ResKind {
    /// Success and other non-error, informational responses.
    Other,
    /// The inbound payload was malformed or failed validation or parsing.
    ClientError,
    /// The dispatcher failed while acting on a valid event.
    ServerError,
}

impl ResKind {
    /// The status code that stands for a class on the wire.
    pub open spec fn status(self) -> int {
        match self {
            ResKind::Other => 200,
            ResKind::ClientError => 400,
            ResKind::ServerError => 500,
        }
    }

    /// The status code for the host to answer with: 2xx for success, 4xx for
    /// a client error, 5xx for a server error.
    pub fn status_code(self) -> (code: u16)
        ensures
            code == self.status(),
            self == ResKind::Other <==> 200 <= code < 300,
            self == ResKind::ClientError <==> 400 <= code < 500,
            self == ResKind::ServerError <==> 500 <= code < 600,
    {
        match self {
            ResKind::Other => 200,
            ResKind::ClientError => 400,
            ResKind::ServerError => 500,
        }
    }
}

/// The mathematical value of a response: its class and the characters of its body.
pub struct ResView {
    pub kind: ResKind,
    pub body: Seq<char>,
}

/// The terminal artifact of one invocation. It is built once and never changed.
#[derive(Clone, Debug, PartialEq, Eq)]
pub struct Res {
    kind: ResKind,
    body: String,
}

impl View for Res {
    type V = ResView;

    closed spec fn view(&self) -> ResView {
        ResView { kind: self.kind, body: self.body@ }
    }
}

/// The body of every successful response.
pub open spec fn ok_body() -> Seq<char> {
    "OK"@
}

/// The response that answers a failure of the given class with the given message.
pub open spec fn failure(kind: ResKind, message: Seq<char>) -> ResView {
    ResView { kind, body: message }
}

/// The response that acknowledges a successful dispatch.
pub open spec fn acknowledgement() -> ResView {
    ResView { kind: ResKind::Other, body: ok_body() }
}

impl Res {
    /// Acknowledges a dispatcher success. The success value is not examined.
    pub fn ok<T>(_value: T) -> (res: Res)
        ensures
            res@ == acknowledgement(),
    {
        Res { kind: ResKind::Other, body: "OK".to_owned() }
    }

    /// Blames the caller: the message becomes the body, unchanged.
    pub fn bad_request(message: String) -> (res: Res)
        ensures
            res@ == failure(ResKind::ClientError, message@),
    {
        Res { kind: ResKind::ClientError, body: message }
    }

    /// Reports an internal fault: the message becomes the body, unchanged.
    pub fn err(message: String) -> (res: Res)
        ensures
            res@ == failure(ResKind::ServerError, message@),
    {
        Res { kind: ResKind::ServerError, body: message }
    }

    pub fn get_kind(&self) -> (kind: ResKind)
        ensures
            kind == self@.kind,
    {
        self.kind
    }

    pub fn body(&self) -> (body: &str)
        ensures
            body@ == self@.body,
    {
        self.body.as_str()
    }
}

/// What the chain of stages ended with: the dispatcher's success value, or
/// the first failure, already tagged with the class of the stage that raised it.
pub enum Outcome<T> {
    Success(T),
    ClientError(String),
    ServerError(String),
}

impl<T> Outcome<T> {
    /// The response that this outcome is answered with.
    pub open spec fn response(self) -> ResView {
        match self {
            Outcome::Success(_) => acknowledgement(),
            Outcome::ClientError(message) => failure(ResKind::ClientError, message@),
            Outcome::ServerError(message) => failure(ResKind::ServerError, message@),
        }
    }
}

/// Builds the response for an outcome. The class follows the outcome's tag
/// alone; no message is inspected.
pub fn build<T>(outcome: Outcome<T>) -> (res: Res)
    ensures
        res@ == outcome.response(),
{
    match outcome {
        Outcome::Success(value) => Res::ok(value),
        Outcome::ClientError(message) => Res::bad_request(message),
        Outcome::ServerError(message) => Res::err(message),
    }
}

} // verus!
