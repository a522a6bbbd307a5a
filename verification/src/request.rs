//! The inbound side: the raw request, its validation and the decoding of its
//! body into text.

use vstd::prelude::*;
use vstd::utf8::{decode_utf8, valid_utf8};

verus! {

/// The body of an inbound request, as the host delivers it.
#[derive(Clone, Debug, PartialEq, Eq)]
pub enum RawBody {
    Empty,
    Text(String),
    Binary(Vec<u8>),
}

/// The mathematical value of a body.
pub enum BodyView {
    Empty,
    Text(Seq<char>),
    Binary(Seq<u8>),
}

impl View for RawBody {
    type V = BodyView;

    open spec fn view(&self) -> BodyView {
        match self {
            RawBody::Empty => BodyView::Empty,
            RawBody::Text(text) => BodyView::Text(text@),
            RawBody::Binary(bytes) => BodyView::Binary(bytes@),
        }
    }
}

impl BodyView {
    /// A body is present when it holds at least one character or byte.
    pub open spec fn is_present(self) -> bool {
        match self {
            BodyView::Empty => false,
            BodyView::Text(text) => text.len() > 0,
            BodyView::Binary(bytes) => bytes.len() > 0,
        }
    }

    /// The body read as text: text as it stands, bytes where they are UTF-8.
    pub open spec fn text(self) -> Option<Seq<char>> {
        match self {
            BodyView::Empty => None,
            BodyView::Text(text) => Some(text),
            BodyView::Binary(bytes) => if valid_utf8(bytes) {
                Some(decode_utf8(bytes))
            } else {
                None
            },
        }
    }
}

impl RawBody {
    pub fn is_present(&self) -> (present: bool)
        ensures
            present == self@.is_present(),
    {
        match self {
            RawBody::Empty => false,
            RawBody::Text(text) => !text.as_str().is_empty(),
            RawBody::Binary(bytes) => bytes.len() > 0,
        }
    }
}

/// The inbound request, reduced to what this handler reads of it.
#[derive(Clone, Debug, PartialEq, Eq)]
pub struct RawRequest {
    pub body: RawBody,
}

/// Why a request was turned away before its payload was parsed.
#[derive(Clone, Copy, Debug, PartialEq, Eq, Structural)]
pub enum RequestError {
    /// There is no body, or it is empty.
    MissingBody,
    /// The body is binary and not UTF-8.
    NotText,
}

impl RequestError {
    /// The message that names this failure to the caller.
    pub open spec fn rendered(self) -> Seq<char> {
        match self {
            RequestError::MissingBody => "request body is missing"@,
            RequestError::NotText => "request body is not valid UTF-8 text"@,
        }
    }

    pub fn message(&self) -> (message: String)
        ensures
            message@ == self.rendered(),
    {
        match self {
            RequestError::MissingBody => "request body is missing".to_owned(),
            RequestError::NotText => "request body is not valid UTF-8 text".to_owned(),
        }
    }
}

/// The text that a body yields for parsing, or the reason why it yields none.
pub open spec fn payload_text(body: BodyView) -> Result<Seq<char>, RequestError> {
    if !body.is_present() {
        Err(RequestError::MissingBody)
    } else {
        match body.text() {
            Some(text) => Ok(text),
            None => Err(RequestError::NotText),
        }
    }
}

/// A request whose body is known to be present.
#[derive(Debug)]
pub struct ValidatedRequest {
    body: RawBody,
}

impl ValidatedRequest {
    #[verifier::type_invariant]
    spec fn body_is_present(self) -> bool {
        self.body@.is_present()
    }

    /// The body that the request carries.
    pub closed spec fn body(self) -> BodyView {
        self.body@
    }
}

/// A payload that is present and is text. Whether it is JSON, and of which
/// shape, is not yet known.
#[derive(Debug)]
pub struct JsonPayload {
    text: String,
}

impl View for JsonPayload {
    type V = Seq<char>;

    closed spec fn view(&self) -> Seq<char> {
        self.text@
    }
}

impl JsonPayload {
    #[verifier::type_invariant]
    spec fn text_is_present(self) -> bool {
        self.text@.len() > 0
    }

    pub fn as_str(&self) -> (text: &str)
        ensures
            text@ == self@,
    {
        self.text.as_str()
    }

    pub fn into_string(self) -> (text: String)
        ensures
            text@ == self@,
    {
        self.text
    }

    /// Hands the text to the event schema's parser and returns what it says.
    pub fn deserialize<E, P: FnOnce(String) -> Result<E, String>>(self, parse: P) -> (parsed:
        Result<E, String>)
        requires
            accepts(parse, self@),
        ensures
            may_parse_to(parse, self@, parsed),
    {
        parse(self.text)
    }
}

/// The text of a present body holds at least one character.
pub proof fn lemma_payload_text_is_present(body: BodyView)
    requires
        payload_text(body) is Ok,
    ensures
        payload_text(body)->Ok_0.len() > 0,
{
    if let BodyView::Binary(bytes) = body {
        assert(decode_utf8(bytes).len() > 0);
    }
}

/// The parser may be called on every string that holds the given text.
pub open spec fn accepts<E, P: FnOnce(String) -> Result<E, String>>(
    parse: P,
    text: Seq<char>,
) -> bool {
    forall|payload: String| payload@ == text ==> #[trigger] call_requires(parse, (payload,))
}

/// The parser can answer the given text with the given result.
pub open spec fn may_parse_to<E, P: FnOnce(String) -> Result<E, String>>(
    parse: P,
    text: Seq<char>,
    parsed: Result<E, String>,
) -> bool {
    exists|payload: String| payload@ == text && #[trigger] call_ensures(parse, (payload,), parsed)
}

/// `String::from_utf8` of the standard library. It returns the bytes as a
/// string exactly when they are valid UTF-8, and the string then holds the
/// characters that the bytes encode.
#[verifier::external_body]
fn text_from_utf8(bytes: Vec<u8>) -> (text: Option<String>)
    ensures
        text is Some <==> valid_utf8(bytes@),
        text matches Some(decoded) ==> decoded@ == decode_utf8(bytes@),
{
    match String::from_utf8(bytes) {
        Ok(decoded) => Some(decoded),
        Err(_) => None,
    }
}

/// Admits a raw request when its body is present.
pub fn adapt(raw: RawRequest) -> (adapted: Result<ValidatedRequest, RequestError>)
    ensures
        match adapted {
            Ok(request) => raw.body@.is_present() && request.body() == raw.body@,
            Err(reason) => !raw.body@.is_present() && reason == RequestError::MissingBody,
        },
{
    if raw.body.is_present() {
        Ok(ValidatedRequest { body: raw.body })
    } else {
        Err(RequestError::MissingBody)
    }
}

/// Reads the body of an admitted request as text.
pub fn decode(request: ValidatedRequest) -> (decoded: Result<JsonPayload, RequestError>)
    ensures
        request.body().is_present(),
        match decoded {
            Ok(payload) => request.body().text() == Some(payload@) && payload@.len() > 0,
            Err(reason) => request.body().text() is None && reason == RequestError::NotText,
        },
{
    proof {
        use_type_invariant(&request);
        if payload_text(request.body@) is Ok {
            lemma_payload_text_is_present(request.body@);
        }
    }
    match request.body {
        RawBody::Text(text) => Ok(JsonPayload { text }),
        RawBody::Binary(bytes) => match text_from_utf8(bytes) {
            Some(text) => Ok(JsonPayload { text }),
            None => Err(RequestError::NotText),
        },
        RawBody::Empty => Err(RequestError::NotText),
    }
}

} // verus!
