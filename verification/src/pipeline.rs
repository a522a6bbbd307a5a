//! The chain of stages from one raw request to one response: adapt, decode,
//! deserialize, dispatch, respond. The first failure ends the chain and is
//! answered with the class of the stage that raised it.

use vstd::prelude::*;
use crate::logging::{log_response, severity_of, LogRecord};
use crate::request::{
    accepts, adapt, decode, may_parse_to, payload_text, BodyView, JsonPayload, RawRequest,
    RequestError,
};
use crate::response::{acknowledgement, build, failure, Outcome, Res, ResKind, ResView};

verus! {

/// What one invocation hands back: the response for the host and the record
/// for the logging sink.
#[derive(Clone, Debug, PartialEq, Eq)]
pub struct Handled {
    pub response: Res,
    pub record: LogRecord,
}

/// The response to what the dispatcher returned.
pub open spec fn dispatched_response<S>(acted: Result<S, String>) -> ResView {
    match acted {
        Ok(_) => acknowledgement(),
        Err(message) => failure(ResKind::ServerError, message@),
    }
}

/// `res` answers the parser's result: a rejection is answered at once, an
/// event with the response to something the dispatcher can return for it.
pub open spec fn answers_parsed<E, S, D: FnOnce(E) -> Result<S, String>>(
    dispatch: D,
    parsed: Result<E, String>,
    res: ResView,
) -> bool {
    match parsed {
        Err(message) => res == failure(ResKind::ClientError, message@),
        Ok(event) => exists|acted: Result<S, String>| #[trigger]
            call_ensures(dispatch, (event,), acted) && res == dispatched_response(acted),
    }
}

/// `res` answers a request with the given body: a body that yields no text is
/// answered with the reason, and any other with the answer to something the
/// parser can return for its text.
pub open spec fn answers<
    E,
    S,
    P: FnOnce(String) -> Result<E, String>,
    D: FnOnce(E) -> Result<S, String>,
>(body: BodyView, parse: P, dispatch: D, res: ResView) -> bool {
    match payload_text(body) {
        Err(reason) => res == failure(ResKind::ClientError, reason.rendered()),
        Ok(text) => exists|parsed: Result<E, String>| #[trigger]
            may_parse_to(parse, text, parsed) && answers_parsed(dispatch, parsed, res),
    }
}

/// The outcome that what the dispatcher returned is tagged with.
pub open spec fn dispatched_outcome<S>(acted: Result<S, String>) -> Outcome<S> {
    match acted {
        Ok(value) => Outcome::Success(value),
        Err(message) => Outcome::ServerError(message),
    }
}

/// `outcome` follows from the parser's result: a rejection is a client error
/// with the parser's message, an event leads to the outcome of something the
/// dispatcher can return for it.
pub open spec fn follows_parsed<E, S, D: FnOnce(E) -> Result<S, String>>(
    dispatch: D,
    parsed: Result<E, String>,
    outcome: Outcome<S>,
) -> bool {
    match parsed {
        Err(message) => outcome == Outcome::<S>::ClientError(message),
        Ok(event) => exists|acted: Result<S, String>| #[trigger]
            call_ensures(dispatch, (event,), acted) && outcome == dispatched_outcome(acted),
    }
}

/// `outcome` is an outcome of the stages on a request with the given body: the
/// first stage that fails decides it, and the dispatcher's result does where
/// none fails.
pub open spec fn results_in<
    E,
    S,
    P: FnOnce(String) -> Result<E, String>,
    D: FnOnce(E) -> Result<S, String>,
>(body: BodyView, parse: P, dispatch: D, outcome: Outcome<S>) -> bool {
    match payload_text(body) {
        Err(reason) => outcome matches Outcome::ClientError(message) && message@
            == reason.rendered(),
        Ok(text) => exists|parsed: Result<E, String>| #[trigger]
            may_parse_to(parse, text, parsed) && follows_parsed(dispatch, parsed, outcome),
    }
}

/// The response to an outcome of the stages answers the request.
pub proof fn lemma_outcome_answers<
    E,
    S,
    P: FnOnce(String) -> Result<E, String>,
    D: FnOnce(E) -> Result<S, String>,
>(body: BodyView, parse: P, dispatch: D, outcome: Outcome<S>)
    requires
        results_in(body, parse, dispatch, outcome),
    ensures
        answers(body, parse, dispatch, outcome.response()),
{
    if payload_text(body) is Ok {
        let text = payload_text(body)->Ok_0;
        let parsed = choose|parsed: Result<E, String>| #[trigger]
            may_parse_to(parse, text, parsed) && follows_parsed(dispatch, parsed, outcome);
        assert(answers_parsed(dispatch, parsed, outcome.response()));
    }
}

/// The dispatcher may be called on every event that the parser can return
/// for the given text.
pub open spec fn dispatchable<
    E,
    S,
    P: FnOnce(String) -> Result<E, String>,
    D: FnOnce(E) -> Result<S, String>,
>(parse: P, dispatch: D, text: Seq<char>) -> bool {
    forall|event: E| #[trigger]
        may_parse_to(parse, text, Ok::<E, String>(event)) ==> call_requires(dispatch, (event,))
}

/// The first two stages: admits the request and reads its body as text.
pub fn read_payload(raw: RawRequest) -> (staged: Result<JsonPayload, RequestError>)
    ensures
        match staged {
            Ok(payload) => payload_text(raw.body@) == Ok::<Seq<char>, RequestError>(payload@),
            Err(reason) => payload_text(raw.body@) == Err::<Seq<char>, RequestError>(reason),
        },
{
    match adapt(raw) {
        Ok(request) => decode(request),
        Err(reason) => Err(reason),
    }
}

/// The outcome of a request that was turned away before parsing.
pub fn refused<S>(reason: RequestError) -> (outcome: Outcome<S>)
    ensures
        outcome matches Outcome::ClientError(message) && message@ == reason.rendered(),
{
    Outcome::ClientError(reason.message())
}

/// Tags what the parser returned: an event goes on to the dispatcher, a
/// rejection ends the chain and blames the caller with the parser's message.
pub fn parsed_stage<E, S>(parsed: Result<E, String>) -> (staged: Result<E, Outcome<S>>)
    ensures
        match parsed {
            Ok(event) => staged == Ok::<E, Outcome<S>>(event),
            Err(message) => staged == Err::<E, Outcome<S>>(Outcome::ClientError(message)),
        },
{
    match parsed {
        Ok(event) => Ok(event),
        Err(message) => Err(Outcome::ClientError(message)),
    }
}

/// Tags what the dispatcher returned: its success value is passed through,
/// its failure is an internal fault with the dispatcher's message.
pub fn acted_outcome<S>(acted: Result<S, String>) -> (outcome: Outcome<S>)
    ensures
        outcome == dispatched_outcome(acted),
        outcome.response() == dispatched_response(acted),
{
    match acted {
        Ok(value) => Outcome::Success(value),
        Err(message) => Outcome::ServerError(message),
    }
}

/// Runs the stages in order and stops at the first failure. The parser is
/// called only on the text of a body that yields one, and the dispatcher only
/// on an event that the parser returned.
pub fn run<E, S, P: FnOnce(String) -> Result<E, String>, D: FnOnce(E) -> Result<S, String>>(
    raw: RawRequest,
    parse: P,
    dispatch: D,
) -> (outcome: Outcome<S>)
    requires
        payload_text(raw.body@) matches Ok(text) ==> accepts(parse, text) && dispatchable(
            parse,
            dispatch,
            text,
        ),
    ensures
        results_in(raw.body@, parse, dispatch, outcome),
{
    let payload = match read_payload(raw) {
        Ok(payload) => payload,
        Err(reason) => {
            return refused(reason);
        },
    };
    let parsed = payload.deserialize(parse);
    let event = match parsed_stage(parsed) {
        Ok(event) => event,
        Err(outcome) => {
            return outcome;
        },
    };
    acted_outcome(dispatch(event))
}

/// Handles one invocation: runs the stages, builds the one response and
/// derives the record that describes it.
pub fn handle_invocation<
    E,
    S,
    P: FnOnce(String) -> Result<E, String>,
    D: FnOnce(E) -> Result<S, String>,
>(request: RawRequest, parse: P, dispatch: D) -> (handled: Handled)
    requires
        payload_text(request.body@) matches Ok(text) ==> accepts(parse, text) && dispatchable(
            parse,
            dispatch,
            text,
        ),
    ensures
        answers(request.body@, parse, dispatch, handled.response@),
        handled.record.severity == severity_of(handled.response@.kind),
        handled.record.message@ == handled.response@.body,
{
    let ghost body = request.body@;
    let outcome = run(request, parse, dispatch);
    proof {
        lemma_outcome_answers(body, parse, dispatch, outcome);
    }
    let response = build(outcome);
    let record = log_response(&response);
    Handled { response, record }
}

/// Two results of a collaborator lead to the same response: both succeed, or
/// both fail with the same message.
pub open spec fn same_reply<T>(first: Result<T, String>, second: Result<T, String>) -> bool {
    match (first, second) {
        (Ok(_), Ok(_)) => true,
        (Err(m), Err(n)) => m@ == n@,
        _ => false,
    }
}

/// A request whose body is missing or is not text is answered with a client
/// error that names the reason, whatever the parser and the dispatcher are:
/// two pipelines with different collaborators give the same response.
pub proof fn lemma_malformed_request_is_refused<
    E,
    S,
    P: FnOnce(String) -> Result<E, String>,
    D: FnOnce(E) -> Result<S, String>,
    E2,
    S2,
    P2: FnOnce(String) -> Result<E2, String>,
    D2: FnOnce(E2) -> Result<S2, String>,
>(body: BodyView, parse: P, dispatch: D, res: ResView, parse2: P2, dispatch2: D2, res2: ResView)
    requires
        !body.is_present() || body.text() is None,
        answers(body, parse, dispatch, res),
        answers(body, parse2, dispatch2, res2),
    ensures
        res.kind == ResKind::ClientError,
        payload_text(body) matches Err(reason) && res.body == reason.rendered(),
        res2 == res,
{
}

/// A payload that the parser rejects, as malformed or as of an unknown shape,
/// is answered with a client error whose body is the parser's own message.
pub proof fn lemma_rejected_payload_is_client_error<
    E,
    S,
    P: FnOnce(String) -> Result<E, String>,
    D: FnOnce(E) -> Result<S, String>,
>(body: BodyView, parse: P, dispatch: D, res: ResView)
    requires
        payload_text(body) is Ok,
        forall|parsed: Result<E, String>| #[trigger]
            may_parse_to(parse, payload_text(body)->Ok_0, parsed) ==> parsed is Err,
        answers(body, parse, dispatch, res),
    ensures
        res.kind == ResKind::ClientError,
        exists|message: String| #[trigger]
            may_parse_to(parse, payload_text(body)->Ok_0, Err::<E, String>(message)) && res.body
                == message@,
{
    let text = payload_text(body)->Ok_0;
    let parsed = choose|parsed: Result<E, String>| #[trigger]
        may_parse_to(parse, text, parsed) && answers_parsed(dispatch, parsed, res);
    assert(may_parse_to(parse, text, Err::<E, String>(parsed->Err_0)));
}

/// Where the parser accepts the payload and the dispatcher succeeds on the
/// event, the response is the standard acknowledgement.
pub proof fn lemma_success_is_acknowledged<
    E,
    S,
    P: FnOnce(String) -> Result<E, String>,
    D: FnOnce(E) -> Result<S, String>,
>(body: BodyView, parse: P, dispatch: D, res: ResView)
    requires
        payload_text(body) is Ok,
        forall|parsed: Result<E, String>| #[trigger]
            may_parse_to(parse, payload_text(body)->Ok_0, parsed) ==> parsed is Ok,
        forall|event: E, acted: Result<S, String>|
            #[trigger] may_parse_to(parse, payload_text(body)->Ok_0, Ok::<E, String>(event))
                && #[trigger] call_ensures(dispatch, (event,), acted) ==> acted is Ok,
        answers(body, parse, dispatch, res),
    ensures
        res == acknowledgement(),
        res.kind == ResKind::Other,
{
}

/// Where the parser accepts the payload and the dispatcher fails on the event,
/// the response is a server error whose body is the dispatcher's own message.
pub proof fn lemma_dispatch_failure_is_server_error<
    E,
    S,
    P: FnOnce(String) -> Result<E, String>,
    D: FnOnce(E) -> Result<S, String>,
>(body: BodyView, parse: P, dispatch: D, res: ResView)
    requires
        payload_text(body) is Ok,
        forall|parsed: Result<E, String>| #[trigger]
            may_parse_to(parse, payload_text(body)->Ok_0, parsed) ==> parsed is Ok,
        forall|event: E, acted: Result<S, String>|
            #[trigger] may_parse_to(parse, payload_text(body)->Ok_0, Ok::<E, String>(event))
                && #[trigger] call_ensures(dispatch, (event,), acted) ==> acted is Err,
        answers(body, parse, dispatch, res),
    ensures
        res.kind == ResKind::ServerError,
        exists|event: E, message: String|
            may_parse_to(parse, payload_text(body)->Ok_0, Ok::<E, String>(event))
                && #[trigger] call_ensures(dispatch, (event,), Err::<S, String>(message))
                && res.body == message@,
{
    let text = payload_text(body)->Ok_0;
    let parsed = choose|parsed: Result<E, String>| #[trigger]
        may_parse_to(parse, text, parsed) && answers_parsed(dispatch, parsed, res);
    let event = parsed->Ok_0;
    let acted = choose|acted: Result<S, String>| #[trigger]
        call_ensures(dispatch, (event,), acted) && res == dispatched_response(acted);
    assert(may_parse_to(parse, text, Ok::<E, String>(event)));
    assert(call_ensures(dispatch, (event,), Err::<S, String>(acted->Err_0)));
}

/// With a parser and a dispatcher that answer the same input the same way,
/// one request has one response: nothing but the request and the
/// collaborators' answers enters it.
pub proof fn lemma_response_is_determined<
    E,
    S,
    P: FnOnce(String) -> Result<E, String>,
    D: FnOnce(E) -> Result<S, String>,
>(body: BodyView, parse: P, dispatch: D, first: ResView, second: ResView)
    requires
        forall|p1: Result<E, String>, p2: Result<E, String>|
            payload_text(body) is Ok && #[trigger] may_parse_to(
                parse,
                payload_text(body)->Ok_0,
                p1,
            ) && #[trigger] may_parse_to(parse, payload_text(body)->Ok_0, p2) ==> same_reply(p1, p2)
                && (p1 is Ok ==> p1 == p2),
        forall|event: E, a1: Result<S, String>, a2: Result<S, String>|
            #[trigger] call_ensures(dispatch, (event,), a1) && #[trigger] call_ensures(
                dispatch,
                (event,),
                a2,
            ) ==> same_reply(a1, a2),
        answers(body, parse, dispatch, first),
        answers(body, parse, dispatch, second),
    ensures
        first == second,
{
    if payload_text(body) is Ok {
        let text = payload_text(body)->Ok_0;
        let p1 = choose|parsed: Result<E, String>| #[trigger]
            may_parse_to(parse, text, parsed) && answers_parsed(dispatch, parsed, first);
        let p2 = choose|parsed: Result<E, String>| #[trigger]
            may_parse_to(parse, text, parsed) && answers_parsed(dispatch, parsed, second);
        assert(same_reply(p1, p2));
        if p1 is Ok {
            let event = p1->Ok_0;
            let a1 = choose|acted: Result<S, String>| #[trigger]
                call_ensures(dispatch, (event,), acted) && first == dispatched_response(acted);
            let a2 = choose|acted: Result<S, String>| #[trigger]
                call_ensures(dispatch, (event,), acted) && second == dispatched_response(acted);
            assert(same_reply(a1, a2));
        }
    }
}

} // verus!
