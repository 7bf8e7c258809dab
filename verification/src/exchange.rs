//! One call as a conversation with the outside world. The exchange holds the
//! request and decides, from what happened last, what is to be done next:
//! fetch a token, send, ask the delegate, rest, decode, or finish. Whoever
//! drives it performs each action and reports the event that came of it.

use std::time::Duration;
use vstd::prelude::*;
use crate::client::{Error, Method, Notice, Retry};
use crate::params::{pairs_text, without_all, Pairs, Params};
use crate::request::{all_params, decodes, draft, expanded, first_clash, Route, RouteView};
use crate::scopes::{ascending, ScopeSet};
use crate::text::{nat_text, u64_text};
use crate::web::{
    fits, fits_a_url, media_type_text, parse_with_params, plain_media_type, status_is_success,
    url_with_params,
};

verus! {

/// The body of a request and what it is.
#[derive(Clone, Debug, PartialEq, Eq)]
pub struct Content {
    pub media_type: String,
    pub bytes: Vec<u8>,
}

/// The model of a body.
pub struct ContentView {
    pub media_type: Seq<char>,
    pub bytes: Seq<u8>,
}

impl View for Content {
    type V = ContentView;

    open spec fn view(&self) -> ContentView {
        ContentView { media_type: self.media_type@, bytes: self.bytes@ }
    }
}

/// What stays the same in every attempt of a call.
#[derive(Clone, Debug, PartialEq, Eq)]
pub struct Request {
    pub method: Method,
    pub url: String,
    pub user_agent: String,
    pub content: Option<Content>,
}

/// The model of a request.
pub struct RequestView {
    pub method: Method,
    pub url: Seq<char>,
    pub user_agent: Seq<char>,
    pub content: Option<ContentView>,
}

impl View for Request {
    type V = RequestView;

    open spec fn view(&self) -> RequestView {
        RequestView {
            method: self.method,
            url: self.url@,
            user_agent: self.user_agent@,
            content: match self.content {
                Some(c) => Some(c@),
                None => None,
            },
        }
    }
}

/// The header fields that a request carries.
#[derive(Clone, Copy, Debug, PartialEq, Eq, Structural)]
pub enum HeaderName {
    UserAgent,
    Authorization,
    ContentType,
    ContentLength,
}

/// A header field and its value.
#[derive(Clone, Debug, PartialEq, Eq)]
pub struct Header {
    pub name: HeaderName,
    pub value: String,
}

/// The model of a list of header fields.
pub type Headers = Seq<(HeaderName, Seq<char>)>;

/// The names and the texts of a list of header fields.
pub open spec fn headers_text(v: Seq<Header>) -> Headers {
    Seq::new(v.len(), |i: int| (v[i].name, v[i].value@))
}

/// Where a call stands.
#[derive(Clone, Copy, Debug, PartialEq, Eq, Structural)]
pub enum Phase {
    /// Nothing has happened yet.
    Ready,
    /// The authenticator is asked for a token.
    NeedToken,
    /// The authenticator had none; the delegate is asked.
    NeedFallbackToken,
    /// The request is on its way.
    Sending,
    /// The connection failed; the delegate is asked whether to try again.
    ConnectionFailed,
    /// The server refused; the delegate is asked whether to try again.
    Refused,
    /// The delegate asked for a pause before the next attempt.
    Resting,
    /// The refusal stands; its body is looked at.
    Classifying,
    /// The server accepted; the body is decoded.
    Decoding,
    /// The call is over.
    Done,
}

/// How a call succeeded.
#[derive(Clone, Copy, Debug, PartialEq, Eq, Structural)]
pub enum Success {
    /// The body of the answer was decoded into the result.
    Decoded,
    /// The caller asked for another format than JSON: the result is empty
    /// and the answer itself holds the data.
    Undecoded,
}

/// What happened last.
#[derive(Clone, Debug, PartialEq, Eq)]
pub enum Event {
    /// The delegate was told that the call begins.
    Begin,
    /// The one who was asked had a token.
    TokenGranted(String),
    /// The one who was asked had no token.
    TokenDenied,
    /// The request did not reach the server, or no answer came back.
    ConnectionFailed,
    /// The server answered with this status code.
    Responded(u16),
    /// The delegate said whether to try again.
    Verdict(Retry),
    /// The pause is over.
    Rested,
    /// Whether the body of a refusal decoded as the server's error report.
    ErrorBodyDecoded(bool),
    /// Whether the body of the answer decoded as the result.
    BodyDecoded(bool),
}

/// The model of an event.
pub enum EventView {
    Begin,
    TokenGranted(Seq<char>),
    TokenDenied,
    ConnectionFailed,
    Responded(u16),
    Verdict(Retry),
    Rested,
    ErrorBodyDecoded(bool),
    BodyDecoded(bool),
}

impl View for Event {
    type V = EventView;

    open spec fn view(&self) -> EventView {
        match *self {
            Event::Begin => EventView::Begin,
            Event::TokenGranted(token) => EventView::TokenGranted(token@),
            Event::TokenDenied => EventView::TokenDenied,
            Event::ConnectionFailed => EventView::ConnectionFailed,
            Event::Responded(code) => EventView::Responded(code),
            Event::Verdict(retry) => EventView::Verdict(retry),
            Event::Rested => EventView::Rested,
            Event::ErrorBodyDecoded(ok) => EventView::ErrorBodyDecoded(ok),
            Event::BodyDecoded(ok) => EventView::BodyDecoded(ok),
        }
    }
}

/// What is to be done next.
#[derive(Debug, PartialEq, Eq)]
pub enum Action {
    /// Ask the authenticator for a token for the scopes of the exchange.
    FetchToken,
    /// Ask the delegate for a token.
    AskDelegateForToken,
    /// Tell the delegate that a request goes out, and send the request of
    /// the exchange with these header fields.
    Send(Vec<Header>),
    /// Ask the delegate what to do about the failed connection.
    AskAfterConnectionFailure,
    /// Ask the delegate what to do about the refusal.
    AskAfterRefusal,
    /// Pause for this long.
    Rest(Duration),
    /// Try to decode the body as the server's error report.
    DecodeErrorBody,
    /// Decode the body as the result.
    DecodeBody,
    /// Give the delegate the notice that goes with the outcome, and return.
    Finish(Result<Success, Error>),
}

/// The model of an action.
pub enum ActionView {
    FetchToken,
    AskDelegateForToken,
    Send(Headers),
    AskAfterConnectionFailure,
    AskAfterRefusal,
    Rest(Duration),
    DecodeErrorBody,
    DecodeBody,
    Finish(Result<Success, Error>),
}

impl View for Action {
    type V = ActionView;

    open spec fn view(&self) -> ActionView {
        match *self {
            Action::FetchToken => ActionView::FetchToken,
            Action::AskDelegateForToken => ActionView::AskDelegateForToken,
            Action::Send(headers) => ActionView::Send(headers_text(headers@)),
            Action::AskAfterConnectionFailure => ActionView::AskAfterConnectionFailure,
            Action::AskAfterRefusal => ActionView::AskAfterRefusal,
            Action::Rest(time) => ActionView::Rest(time),
            Action::DecodeErrorBody => ActionView::DecodeErrorBody,
            Action::DecodeBody => ActionView::DecodeBody,
            Action::Finish(outcome) => ActionView::Finish(outcome),
        }
    }
}

/// The model of an exchange.
pub struct ExchangeView {
    pub request: RequestView,
    pub scopes: Seq<Seq<char>>,
    pub decode: bool,
    pub phase: Phase,
    /// How the call ended, once it has.
    pub outcome: Option<Result<Success, Error>>,
}

/// A call in progress.
#[derive(Debug)]
pub struct Exchange {
    request: Request,
    scopes: ScopeSet,
    decode: bool,
    phase: Phase,
    outcome: Option<Result<Success, Error>>,
}

impl View for Exchange {
    type V = ExchangeView;

    closed spec fn view(&self) -> ExchangeView {
        ExchangeView {
            request: self.request@,
            scopes: self.scopes@,
            decode: self.decode,
            phase: self.phase,
            outcome: self.outcome,
        }
    }
}

/// Whether a status code stands for success.
pub open spec fn succeeded(code: u16) -> bool {
    200 <= code < 300
}

/// The header fields of an attempt: who asks and on whose authority, and for
/// a request with a body what the body is and how long.
pub open spec fn headers_of(request: RequestView, token: Seq<char>) -> Headers {
    let head = seq![
        (HeaderName::UserAgent, request.user_agent),
        (HeaderName::Authorization, "Bearer "@ + token),
    ];
    match request.content {
        Some(content) => head + seq![
            (HeaderName::ContentType, content.media_type),
            (HeaderName::ContentLength, nat_text(content.bytes.len())),
        ],
        None => head,
    }
}

/// The phase that follows and the action that is due when `event` comes in
/// state `x`; `None` where the event does not belong to the phase.
pub open spec fn transition(x: ExchangeView, event: EventView) -> Option<(Phase, ActionView)> {
    match (x.phase, event) {
        (Phase::Ready, EventView::Begin) => Some((Phase::NeedToken, ActionView::FetchToken)),
        (Phase::NeedToken, EventView::TokenGranted(token)) => Some(
            (Phase::Sending, ActionView::Send(headers_of(x.request, token))),
        ),
        (Phase::NeedToken, EventView::TokenDenied) => Some(
            (Phase::NeedFallbackToken, ActionView::AskDelegateForToken),
        ),
        (Phase::NeedFallbackToken, EventView::TokenGranted(token)) => Some(
            (Phase::Sending, ActionView::Send(headers_of(x.request, token))),
        ),
        (Phase::NeedFallbackToken, EventView::TokenDenied) => Some(
            (Phase::Done, ActionView::Finish(Err(Error::MissingToken))),
        ),
        (Phase::Sending, EventView::ConnectionFailed) => Some(
            (Phase::ConnectionFailed, ActionView::AskAfterConnectionFailure),
        ),
        (Phase::Sending, EventView::Responded(code)) => if !succeeded(code) {
            Some((Phase::Refused, ActionView::AskAfterRefusal))
        } else if x.decode {
            Some((Phase::Decoding, ActionView::DecodeBody))
        } else {
            Some((Phase::Done, ActionView::Finish(Ok(Success::Undecoded))))
        },
        (Phase::ConnectionFailed, EventView::Verdict(Retry::After(time))) => Some(
            (Phase::Resting, ActionView::Rest(time)),
        ),
        (Phase::ConnectionFailed, EventView::Verdict(Retry::Abort)) => Some(
            (Phase::Done, ActionView::Finish(Err(Error::HttpError))),
        ),
        (Phase::Refused, EventView::Verdict(Retry::After(time))) => Some(
            (Phase::Resting, ActionView::Rest(time)),
        ),
        (Phase::Refused, EventView::Verdict(Retry::Abort)) => Some(
            (Phase::Classifying, ActionView::DecodeErrorBody),
        ),
        (Phase::Classifying, EventView::ErrorBodyDecoded(described)) => Some(
            (
                Phase::Done,
                ActionView::Finish(
                    Err(
                        if described {
                            Error::BadRequest
                        } else {
                            Error::Failure
                        },
                    ),
                ),
            ),
        ),
        (Phase::Resting, EventView::Rested) => Some((Phase::NeedToken, ActionView::FetchToken)),
        (Phase::Decoding, EventView::BodyDecoded(decoded)) => Some(
            (
                Phase::Done,
                ActionView::Finish(
                    if decoded {
                        Ok(Success::Decoded)
                    } else {
                        Err(Error::JsonDecodeError)
                    },
                ),
            ),
        ),
        _ => None,
    }
}

/// The state in which `event` leaves the exchange: in the next phase, and
/// with the outcome where the call finishes, if the event belongs to the
/// phase; as it was if it does not.
pub open spec fn moved(x: ExchangeView, event: EventView) -> ExchangeView {
    match transition(x, event) {
        Some((phase, ActionView::Finish(outcome))) => ExchangeView {
            phase,
            outcome: Some(outcome),
            ..x
        },
        Some((phase, _)) => ExchangeView { phase, ..x },
        None => x,
    }
}

/// Whether one of the events is an answer with a status of success.
pub open spec fn accepted(events: Seq<EventView>) -> bool {
    exists|i: int|
        0 <= i < events.len() && (#[trigger] events[i] matches EventView::Responded(code)
            && succeeded(code))
}

/// The state in which a series of events leaves the exchange.
pub open spec fn after(x: ExchangeView, events: Seq<EventView>) -> ExchangeView
    decreases events.len(),
{
    if events.len() == 0 {
        x
    } else {
        after(moved(x, events[0]), events.drop_first())
    }
}

/// How many requests go out while a series of events comes in.
pub open spec fn requests(x: ExchangeView, events: Seq<EventView>) -> nat
    decreases events.len(),
{
    if events.len() == 0 {
        0
    } else {
        let sent: nat = if transition(x, events[0]) matches Some((_, ActionView::Send(_))) {
            1
        } else {
            0
        };
        sent + requests(moved(x, events[0]), events.drop_first())
    }
}

/// How often, in a series of events, the delegate asks for another attempt.
pub open spec fn retries(events: Seq<EventView>) -> nat
    decreases events.len(),
{
    if events.len() == 0 {
        0
    } else {
        let asked: nat = if events[0] matches EventView::Verdict(Retry::After(_)) {
            1
        } else {
            0
        };
        asked + retries(events.drop_first())
    }
}

/// How many requests a phase allows without a word of the delegate: one as
/// long as none is on its way, and one after a rest.
pub open spec fn due(phase: Phase) -> nat {
    match phase {
        Phase::Ready | Phase::NeedToken | Phase::NeedFallbackToken | Phase::Resting => 1,
        _ => 0,
    }
}

/// The notice that goes with an outcome.
pub open spec fn notice_for(outcome: Result<Success, Error>) -> Notice {
    match outcome {
        Ok(_) => Notice::Finished(true),
        Err(Error::JsonDecodeError) => Notice::DecodeFailed,
        Err(Error::InvalidUrl) | Err(Error::UrlTooLong) => Notice::Silent,
        Err(_) => Notice::Finished(false),
    }
}

/// Whatever happens, an exchange keeps its request, its scopes and its way
/// with the body: events move it from phase to phase, to its outcome in the
/// end, and change nothing else.
pub proof fn lemma_events_keep_the_request(x: ExchangeView, events: Seq<EventView>)
    ensures
        after(x, events).request == x.request,
        after(x, events).scopes == x.scopes,
        after(x, events).decode == x.decode,
    decreases events.len(),
{
    if events.len() > 0 {
        lemma_events_keep_the_request(moved(x, events[0]), events.drop_first());
    }
}

/// A call that has not ended has no outcome, and one that has ended has one:
/// this holds of a fresh exchange and stays true whatever happens.
pub proof fn lemma_outcome_comes_with_the_end(x: ExchangeView, events: Seq<EventView>)
    requires
        x.phase == Phase::Done <==> x.outcome is Some,
    ensures
        after(x, events).phase == Phase::Done <==> after(x, events).outcome is Some,
    decreases events.len(),
{
    if events.len() > 0 {
        lemma_outcome_comes_with_the_end(moved(x, events[0]), events.drop_first());
    }
}

/// No success without an answer of success: a call that has not begun ends
/// in success only where, among all that happened, the server answered with
/// a status of success.
pub proof fn lemma_success_needs_an_accepting_answer(x: ExchangeView, events: Seq<EventView>)
    requires
        x.outcome is None,
        x.phase != Phase::Decoding,
        after(x, events).outcome matches Some(Ok(_)),
    ensures
        accepted(events),
    decreases events.len(),
{
    if events.len() > 0 {
        let next = moved(x, events[0]);
        let rest = events.drop_first();
        if next.outcome is Some {
            lemma_outcome_is_final(next, rest);
        } else if next.phase != Phase::Decoding {
            lemma_success_needs_an_accepting_answer(next, rest);
            let i = choose|i: int|
                0 <= i < rest.len() && (#[trigger] rest[i] matches EventView::Responded(code)
                    && succeeded(code));
            assert(events[i + 1] == rest[i]);
        }
    }
}

/// The attempts are bounded by the delegate: whatever happens, a call sends
/// one request, and one more for each time that the delegate asks for another
/// attempt, and no further one.
pub proof fn lemma_requests_are_bounded(x: ExchangeView, events: Seq<EventView>)
    ensures
        requests(x, events) <= due(x.phase) + retries(events),
    decreases events.len(),
{
    if events.len() > 0 {
        lemma_requests_are_bounded(moved(x, events[0]), events.drop_first());
    }
}

/// An outcome, once there, is not replaced: a call ends once.
pub proof fn lemma_outcome_is_final(x: ExchangeView, events: Seq<EventView>)
    requires
        x.outcome is Some,
        x.phase == Phase::Done,
    ensures
        after(x, events) == x,
    decreases events.len(),
{
    if events.len() > 0 {
        lemma_outcome_is_final(x, events.drop_first());
    }
}

/// A call that is over stays over: no event moves an exchange that is done.
pub proof fn lemma_done_is_final(x: ExchangeView, event: EventView)
    requires
        x.phase == Phase::Done,
    ensures
        transition(x, event) is None,
{
}

/// An exchange finishes exactly when it comes to the phase `Done`.
pub proof fn lemma_finish_at_done(x: ExchangeView, event: EventView)
    ensures
        transition(x, event) matches Some((phase, action)) ==> (phase == Phase::Done
            <==> action is Finish),
{
}

/// A call succeeds only after the server accepted the request: at once where
/// the body is not to be decoded, else when the body has decoded. And a body
/// is decoded only after a status of success.
pub proof fn lemma_success_follows_acceptance(x: ExchangeView, event: EventView)
    ensures
        transition(x, event) matches Some((_, ActionView::Finish(Ok(how)))) ==> {
            ||| {
                &&& event matches EventView::Responded(code)
                &&& succeeded(code)
                &&& x.phase == Phase::Sending
                &&& !x.decode
                &&& how == Success::Undecoded
            }
            ||| {
                &&& event == EventView::BodyDecoded(true)
                &&& x.phase == Phase::Decoding
                &&& how == Success::Decoded
            }
        },
        transition(x, event) matches Some((Phase::Decoding, _)) ==> {
            &&& event matches EventView::Responded(code)
            &&& succeeded(code)
            &&& x.phase == Phase::Sending
            &&& x.decode
        },
{
}

/// Another attempt is made only where the delegate asks for it: the exchange
/// rests only on the delegate's word after a failed connection or a refusal,
/// and asks for a token only at the beginning and after a rest.
pub proof fn lemma_only_the_delegate_retries(x: ExchangeView, event: EventView)
    ensures
        transition(x, event) matches Some((Phase::Resting, action)) ==> {
            &&& event matches EventView::Verdict(Retry::After(time))
            &&& action == ActionView::Rest(time)
            &&& x.phase == Phase::ConnectionFailed || x.phase == Phase::Refused
        },
        transition(x, event) matches Some((Phase::NeedToken, _)) ==> {
            ||| x.phase == Phase::Ready && event == EventView::Begin
            ||| x.phase == Phase::Resting && event == EventView::Rested
        },
{
}

/// A request goes out only with a token that was just granted, and carries
/// the header fields of the exchange with that token.
pub proof fn lemma_requests_carry_the_token(x: ExchangeView, event: EventView)
    ensures
        transition(x, event) matches Some((_, ActionView::Send(headers))) ==> {
            &&& event matches EventView::TokenGranted(token)
            &&& headers == headers_of(x.request, token)
            &&& x.phase == Phase::NeedToken || x.phase == Phase::NeedFallbackToken
        },
{
}

/// The delegate hears of success exactly where the call succeeded, and of a
/// body that did not decode exactly where that is the error.
pub proof fn lemma_notice_tells_the_outcome(outcome: Result<Success, Error>)
    ensures
        notice_for(outcome) == Notice::Finished(true) <==> outcome is Ok,
        notice_for(outcome) == Notice::DecodeFailed <==> outcome == Err::<Success, Error>(
            Error::JsonDecodeError,
        ),
        notice_for(outcome) == Notice::Silent <==> outcome == Err::<Success, Error>(
            Error::InvalidUrl,
        ) || outcome == Err::<Success, Error>(Error::UrlTooLong),
{
}

/// The scopes that a call asks a token for: its own, or the default scope of
/// the service where it has none.
pub open spec fn effective_scopes(scopes: Seq<Seq<char>>, default_scope: Seq<char>) -> Seq<
    Seq<char>,
> {
    if scopes.len() == 0 {
        seq![default_scope]
    } else {
        scopes
    }
}

/// The body of a request that carries JSON.
pub open spec fn json_content(body: Option<Seq<u8>>) -> Option<ContentView> {
    match body {
        Some(bytes) => Some(ContentView { media_type: "application/json"@, bytes }),
        None => None,
    }
}

/// The URL of an address and a query, or why there is none: the two are too
/// long together, or they make no absolute URL.
pub open spec fn located(address: Seq<char>, query: Pairs) -> Result<Seq<char>, Error> {
    if !fits_a_url(address, query) {
        Err(Error::UrlTooLong)
    } else {
        match url_with_params(address, query) {
            Some(url) => Ok(url),
            None => Err(Error::InvalidUrl),
        }
    }
}

/// The text of a URL that may be missing.
pub open spec fn url_text(url: Result<String, Error>) -> Result<Seq<char>, Error> {
    match url {
        Ok(text) => Ok(text@),
        Err(e) => Err(e),
    }
}

/// What `Exchange::open` owes for the URL of a call: the error where there
/// is no URL, else the exchange, ready, with the request of the call.
pub open spec fn opened(
    r: Result<Exchange, Error>,
    method: Method,
    decode: bool,
    url: Result<Seq<char>, Error>,
    user_agent: Seq<char>,
    scopes: Seq<Seq<char>>,
    default_scope: Seq<char>,
    body: Option<Seq<u8>>,
) -> bool {
    match url {
        Err(e) => r matches Err(x) && x == e,
        Ok(url) => r matches Ok(x) && x@ == (ExchangeView {
            request: RequestView { method, url, user_agent, content: json_content(body) },
            scopes: effective_scopes(scopes, default_scope),
            decode,
            phase: Phase::Ready,
            outcome: None,
        }),
    }
}

/// What the preparation of a call owes, said by the address and the query
/// of the call: the clash with the first reserved name that the additional
/// parameters hold, where there is one; else the error of an address and
/// query that are too long or make no URL; else the exchange, ready, with
/// that URL.
pub open spec fn begun(
    r: Result<Exchange, Error>,
    reserved: Seq<Seq<char>>,
    extra: Pairs,
    method: Method,
    address: Seq<char>,
    query: Pairs,
    decode: bool,
    user_agent: Seq<char>,
    scopes: Seq<Seq<char>>,
    default_scope: Seq<char>,
    body: Option<Seq<u8>>,
) -> bool {
    let k = first_clash(reserved, extra);
    if k < reserved.len() {
        r matches Err(e) && e.is_clash_on(reserved[k])
    } else {
        opened(
            r,
            method,
            decode,
            located(address, query),
            user_agent,
            scopes,
            default_scope,
            body,
        )
    }
}

/// What `start` owes: what `begun` says of the address with its markers
/// filled and of the query without the path values.
pub open spec fn started(
    r: Result<Exchange, Error>,
    route: RouteView,
    base_url: Seq<char>,
    user_agent: Seq<char>,
    named: Pairs,
    extra: Pairs,
    scopes: Seq<Seq<char>>,
    default_scope: Seq<char>,
    body: Option<Seq<u8>>,
) -> bool {
    let params = all_params(named, extra, route.serves_media);
    begun(
        r,
        route.reserved,
        extra,
        route.method,
        expanded(base_url + route.path, params, route.markers),
        without_all(params, route.dropped),
        decodes(named, extra, route.serves_media),
        user_agent,
        scopes,
        default_scope,
        body,
    )
}

/// Whether a status code stands for success.
pub fn is_success(code: u16) -> (r: bool)
    ensures
        r == succeeded(code),
{
    if code < 100 || code >= 1000 {
        false
    } else {
        status_is_success(code)
    }
}

/// The notice that the delegate is given when a call ends with `outcome`:
/// that it finished, with success or without, or that the body did not
/// decode.
pub fn notice_of(outcome: &Result<Success, Error>) -> (r: Notice)
    ensures
        r == notice_for(*outcome),
{
    match outcome {
        Ok(_) => Notice::Finished(true),
        Err(e) => e.notice(),
    }
}

/// The body of a request that carries JSON.
fn json_body(body: Option<Vec<u8>>) -> (r: Option<Content>)
    ensures
        match r {
            Some(c) => Some(c@),
            None => None,
        } == json_content(
            match body {
                Some(bytes) => Some(bytes@),
                None => None,
            },
        ),
{
    match body {
        Some(bytes) => {
            proof {
                reveal_strlit("application/json");
                let s = "application/json"@;
                assert(s[11] == '/');
            }
            Some(Content { media_type: media_type_text("application/json"), bytes })
        },
        None => None,
    }
}

/// What the parsing of an address and a query gave, as the URL of a call or
/// the error of the call.
pub fn url_of(parsed: Result<String, url::ParseError>) -> (r: Result<String, Error>)
    ensures
        match parsed {
            Ok(url) => r matches Ok(text) && text@ == url@,
            Err(_) => r matches Err(Error::InvalidUrl),
        },
{
    match parsed {
        Ok(url) => Ok(url),
        Err(_) => Err(Error::InvalidUrl),
    }
}

/// Makes one URL of an address and a query, unless they are too long or make
/// no absolute URL.
pub fn locate(address: &str, query: &Vec<(String, String)>) -> (r: Result<String, Error>)
    ensures
        url_text(r) == located(address@, pairs_text(query@)),
{
    if !fits(address, query) {
        Err(Error::UrlTooLong)
    } else {
        url_of(parse_with_params(address, query))
    }
}

impl Exchange {
    /// Makes the exchange of a call from its URL, or hands on the error where
    /// there is none.
    pub fn open(
        method: Method,
        decode: bool,
        url: Result<String, Error>,
        user_agent: &str,
        scopes: ScopeSet,
        default_scope: &str,
        body: Option<Vec<u8>>,
    ) -> (r: Result<Exchange, Error>)
        ensures
            opened(
                r,
                method,
                decode,
                url_text(url),
                user_agent@,
                scopes@,
                default_scope@,
                match body {
                    Some(bytes) => Some(bytes@),
                    None => None,
                },
            ),
    {
        match url {
            Err(e) => Err(e),
            Ok(url) => {
                let ghost given = scopes@;
                let scopes = if scopes.len() == 0 {
                    scopes.insert(default_scope)
                } else {
                    scopes
                };
                assert(scopes@ =~= effective_scopes(given, default_scope@));
                Ok(
                    Exchange {
                        request: Request {
                            method,
                            url,
                            user_agent: String::from_str(user_agent),
                            content: json_body(body),
                        },
                        scopes,
                        decode,
                        phase: Phase::Ready,
                        outcome: None,
                    },
                )
            },
        }
    }

    /// The request.
    pub fn request(&self) -> (r: &Request)
        ensures
            r@ == self@.request,
    {
        &self.request
    }

    /// The scopes for which a token is asked. They ascend.
    pub fn scopes(&self) -> (r: &ScopeSet)
        ensures
            r@ == self@.scopes,
            ascending(self@.scopes),
    {
        self.scopes.well_formed();
        &self.scopes
    }

    /// Whether the body of the answer is decoded.
    pub fn decode(&self) -> (r: bool)
        ensures
            r == self@.decode,
    {
        self.decode
    }

    /// Where the call stands.
    pub fn phase(&self) -> (r: Phase)
        ensures
            r == self@.phase,
    {
        self.phase
    }

    /// How the call ended, once it has.
    pub fn outcome(&self) -> (r: Option<Result<Success, Error>>)
        ensures
            r == self@.outcome,
    {
        self.outcome
    }

    fn headers(&self, token: &str) -> (r: Vec<Header>)
        ensures
            headers_text(r@) == headers_of(self@.request, token@),
    {
        let mut headers: Vec<Header> = Vec::new();
        headers.push(
            Header { name: HeaderName::UserAgent, value: self.request.user_agent.clone() },
        );
        headers.push(
            Header {
                name: HeaderName::Authorization,
                value: String::from_str("Bearer ").concat(token),
            },
        );
        match &self.request.content {
            Some(content) => {
                headers.push(
                    Header { name: HeaderName::ContentType, value: content.media_type.clone() },
                );
                headers.push(
                    Header {
                        name: HeaderName::ContentLength,
                        value: u64_text(content.bytes.len() as u64),
                    },
                );
            },
            None => {},
        }
        headers
    }

    /// Takes in what happened and says what is to be done next. An event that
    /// does not belong to the phase changes nothing and gets no action.
    pub fn step(&mut self, event: Event) -> (r: Option<Action>)
        ensures
            final(self)@ == moved(old(self)@, event@),
            match transition(old(self)@, event@) {
                Some((_, action)) => r matches Some(a) && a@ == action,
                None => r is None,
            },
    {
        let (phase, action) = match (self.phase, event) {
            (Phase::Ready, Event::Begin) => (Phase::NeedToken, Action::FetchToken),
            (Phase::NeedToken, Event::TokenGranted(token)) => (
                Phase::Sending,
                Action::Send(self.headers(token.as_str())),
            ),
            (Phase::NeedToken, Event::TokenDenied) => (
                Phase::NeedFallbackToken,
                Action::AskDelegateForToken,
            ),
            (Phase::NeedFallbackToken, Event::TokenGranted(token)) => (
                Phase::Sending,
                Action::Send(self.headers(token.as_str())),
            ),
            (Phase::NeedFallbackToken, Event::TokenDenied) => (
                Phase::Done,
                Action::Finish(Err(Error::MissingToken)),
            ),
            (Phase::Sending, Event::ConnectionFailed) => (
                Phase::ConnectionFailed,
                Action::AskAfterConnectionFailure,
            ),
            (Phase::Sending, Event::Responded(code)) => {
                if !is_success(code) {
                    (Phase::Refused, Action::AskAfterRefusal)
                } else if self.decode {
                    (Phase::Decoding, Action::DecodeBody)
                } else {
                    (Phase::Done, Action::Finish(Ok(Success::Undecoded)))
                }
            },
            (Phase::ConnectionFailed, Event::Verdict(Retry::After(time))) => (
                Phase::Resting,
                Action::Rest(time),
            ),
            (Phase::ConnectionFailed, Event::Verdict(Retry::Abort)) => (
                Phase::Done,
                Action::Finish(Err(Error::HttpError)),
            ),
            (Phase::Refused, Event::Verdict(Retry::After(time))) => (
                Phase::Resting,
                Action::Rest(time),
            ),
            (Phase::Refused, Event::Verdict(Retry::Abort)) => (
                Phase::Classifying,
                Action::DecodeErrorBody,
            ),
            (Phase::Classifying, Event::ErrorBodyDecoded(described)) => (
                Phase::Done,
                Action::Finish(
                    Err(
                        if described {
                            Error::BadRequest
                        } else {
                            Error::Failure
                        },
                    ),
                ),
            ),
            (Phase::Resting, Event::Rested) => (Phase::NeedToken, Action::FetchToken),
            (Phase::Decoding, Event::BodyDecoded(decoded)) => (
                Phase::Done,
                Action::Finish(
                    if decoded {
                        Ok(Success::Decoded)
                    } else {
                        Err(Error::JsonDecodeError)
                    },
                ),
            ),
            _ => {
                return None;
            },
        };
        self.phase = phase;
        match &action {
            Action::Finish(outcome) => {
                self.outcome = Some(*outcome);
            },
            _ => {},
        }
        Some(action)
    }
}

/// Prepares a call: drafts its address and query, has the two made one URL,
/// and opens the exchange.
pub fn start(
    route: &Route,
    base_url: &str,
    user_agent: &str,
    named: Vec<(String, String)>,
    extra: &Params,
    scopes: ScopeSet,
    default_scope: &str,
    body: Option<Vec<u8>>,
) -> (r: Result<Exchange, Error>)
    ensures
        started(
            r,
            route@,
            base_url@,
            user_agent@,
            pairs_text(named@),
            extra@,
            scopes@,
            default_scope@,
            match body {
                Some(bytes) => Some(bytes@),
                None => None,
            },
        ),
{
    match draft(route, base_url, named, extra) {
        Err(e) => Err(e),
        Ok(d) => {
            let url = locate(d.address.as_str(), &d.query);
            Exchange::open(route.method, d.decode, url, user_agent, scopes, default_scope, body)
        },
    }
}

} // verus!
