//! The HTTP routing layer: which route a request names, and the response
//! that each outcome is answered with.

use vstd::prelude::*;
use crate::models::{ErrorResponse, ErrorResponseModel, Payload, PayloadModel};
use crate::params::{parse_id_at, parse_id_of};
use crate::service::{
    resume, resume_of, resume_with_draw, start, start_of, Answer, AnswerModel, Effect, EffectModel,
    Operation, Outcome, OutcomeModel, Pending, Step, StepModel,
};
use crate::text::chars_of;

verus! {

/// The request methods that routes tell apart.
#[derive(Debug, Clone, Copy, PartialEq, Eq)]
pub enum Method {
    Get,
    Options,
    /// Any other method.
    Other,
}

/// Where a request goes.
#[derive(Debug, Clone, Copy, PartialEq, Eq)]
pub enum Route {
    /// To the quote service.
    Service(Operation),
    /// The liveness probe.
    Health,
    /// A cross-origin preflight.
    Preflight,
    /// The path names a quote or an image, but not by an integer.
    BadId,
    /// The path is served, but not with this method.
    MethodNotAllowed,
    /// Nothing is served at the path.
    NotFound,
}

/// One header of a response.
#[derive(Debug, Clone, PartialEq, Eq)]
pub struct Header {
    pub name: String,
    pub value: String,
}

/// The body of a response.
#[derive(Debug, Clone, PartialEq, Eq)]
pub enum Body {
    Empty,
    /// Plain text.
    Text(String),
    /// A payload, to be sent as its JSON object.
    Json(Payload),
    /// Raw bytes.
    Bytes(Vec<u8>),
}

/// A response, ready to be sent.
#[derive(Debug, Clone, PartialEq, Eq)]
pub struct HttpResponse {
    pub status: u16,
    pub headers: Vec<Header>,
    pub body: Body,
}

/// Mathematical value of a [`Header`].
pub struct HeaderModel {
    pub name: Seq<char>,
    pub value: Seq<char>,
}

/// Mathematical value of a [`Body`].
pub enum BodyModel {
    Empty,
    Text(Seq<char>),
    Json(PayloadModel),
    Bytes(Seq<u8>),
}

/// Mathematical value of an [`HttpResponse`].
pub struct ResponseModel {
    pub status: u16,
    pub headers: Seq<HeaderModel>,
    pub body: BodyModel,
}

impl View for Header {
    type V = HeaderModel;

    open spec fn view(&self) -> HeaderModel {
        HeaderModel { name: self.name@, value: self.value@ }
    }
}

impl View for Body {
    type V = BodyModel;

    open spec fn view(&self) -> BodyModel {
        match self {
            Body::Empty => BodyModel::Empty,
            Body::Text(text) => BodyModel::Text(text@),
            Body::Json(payload) => BodyModel::Json(payload@),
            Body::Bytes(bytes) => BodyModel::Bytes(bytes@),
        }
    }
}

impl View for HttpResponse {
    type V = ResponseModel;

    open spec fn view(&self) -> ResponseModel {
        ResponseModel {
            status: self.status,
            headers: Seq::new(self.headers@.len(), |i: int| self.headers@[i]@),
            body: self.body@,
        }
    }
}

/// The path under which the quote service is reached.
pub open spec fn api_root() -> Seq<char> {
    "/api/wisdom/"@
}

/// A path segment that can stand for a parameter: not empty, and without a
/// slash.
pub open spec fn is_segment(s: Seq<char>) -> bool {
    s.len() > 0 && !s.contains('/')
}

/// The route of a parameter that should be an identifier.
pub open spec fn id_route(param: Seq<char>, image: bool) -> Route {
    match parse_id_of(param) {
        Some(id) => Route::Service(
            if image {
                Operation::ImageById { id }
            } else {
                Operation::QuoteById { id }
            },
        ),
        None => Route::BadId,
    }
}

/// Where a `GET` request for `path` goes. Paths are matched as they are:
/// a trailing slash makes another path.
pub open spec fn get_route_of(path: Seq<char>) -> Route {
    if path == "/health"@ {
        Route::Health
    } else if api_root().is_prefix_of(path) {
        let rest = path.skip(api_root().len() as int);
        if rest.len() == 0 {
            Route::Service(Operation::RandomQuote)
        } else if rest == "img"@ {
            Route::Service(Operation::RandomImage)
        } else if "img/"@.is_prefix_of(rest) {
            let param = rest.skip("img/"@.len() as int);
            if is_segment(param) {
                id_route(param, true)
            } else {
                Route::NotFound
            }
        } else if is_segment(rest) {
            id_route(rest, false)
        } else {
            Route::NotFound
        }
    } else {
        Route::NotFound
    }
}

/// Where a request goes. Every path under the service's root answers a
/// preflight; a path that `GET` serves refuses the other methods.
pub open spec fn route_of(method: Method, path: Seq<char>) -> Route {
    match method {
        Method::Get => get_route_of(path),
        Method::Options => if api_root().is_prefix_of(path) {
            Route::Preflight
        } else if get_route_of(path) != Route::NotFound {
            Route::MethodNotAllowed
        } else {
            Route::NotFound
        },
        Method::Other => if get_route_of(path) != Route::NotFound {
            Route::MethodNotAllowed
        } else {
            Route::NotFound
        },
    }
}

/// The header that opens a response to every origin.
pub open spec fn allow_any_origin() -> HeaderModel {
    HeaderModel { name: "Access-Control-Allow-Origin"@, value: "*"@ }
}

/// A JSON response: the payload as body, marked as JSON and open to every
/// origin.
pub open spec fn json_response_of(payload: PayloadModel, status: u16) -> ResponseModel {
    ResponseModel {
        status,
        headers: seq![
            HeaderModel { name: "Content-Type"@, value: "application/json"@ },
            allow_any_origin(),
        ],
        body: BodyModel::Json(payload),
    }
}

/// A JSON response that carries an error message.
pub open spec fn error_response_of(message: Seq<char>, status: u16) -> ResponseModel {
    json_response_of(PayloadModel::Error(ErrorResponseModel { error: message }), status)
}

/// An image response: the bytes as body, marked as PNG, cacheable by anyone
/// for a day and open to every origin.
pub open spec fn image_response_of(bytes: Seq<u8>) -> ResponseModel {
    ResponseModel {
        status: 200,
        headers: seq![
            HeaderModel { name: "Content-Type"@, value: "image/png"@ },
            HeaderModel { name: "Cache-Control"@, value: "public, max-age=86400"@ },
            allow_any_origin(),
        ],
        body: BodyModel::Bytes(bytes),
    }
}

/// The answer to the liveness probe.
pub open spec fn health_response_of() -> ResponseModel {
    ResponseModel {
        status: 200,
        headers: seq![HeaderModel { name: "Content-Type"@, value: "text/plain; charset=utf-8"@ }],
        body: BodyModel::Text("OK"@),
    }
}

/// The answer to a preflight: no body, and the three cross-origin headers.
pub open spec fn preflight_response_of() -> ResponseModel {
    ResponseModel {
        status: 204,
        headers: seq![
            allow_any_origin(),
            HeaderModel { name: "Access-Control-Allow-Methods"@, value: "GET, OPTIONS"@ },
            HeaderModel { name: "Access-Control-Allow-Headers"@, value: "Content-Type"@ },
        ],
        body: BodyModel::Empty,
    }
}

/// An error response in plain text, without headers.
pub open spec fn plain_error_of(message: Seq<char>, status: u16) -> ResponseModel {
    ResponseModel { status, headers: seq![], body: BodyModel::Text(message) }
}

/// The response to each outcome of the service. Whatever was not found is
/// answered with 404 and a message of its own; a store failure with 500.
pub open spec fn respond_of(outcome: OutcomeModel) -> ResponseModel {
    match outcome {
        OutcomeModel::Quote(quote) => json_response_of(
            PayloadModel::Quote(quote.to_response()),
            200,
        ),
        OutcomeModel::NoQuotes => error_response_of("No quotes found"@, 404),
        OutcomeModel::QuoteNotFound => error_response_of("Quote not found"@, 404),
        OutcomeModel::Image(bytes) => image_response_of(bytes),
        OutcomeModel::NoImages => error_response_of("No images available"@, 404),
        OutcomeModel::ImageNotFound => error_response_of("Image not found"@, 404),
        OutcomeModel::NoImageForQuote => error_response_of("Quote does not have an image"@, 404),
        OutcomeModel::ImageFileNotFound => error_response_of("Image file not found"@, 404),
        OutcomeModel::StoreFailed => plain_error_of("INTERNAL SERVER ERROR"@, 500),
    }
}

/// One move of a request's handling: a lookup for the host, with the place
/// to resume from, or the response to send.
#[derive(Debug, Clone, PartialEq, Eq)]
pub enum Turn {
    Ask(Effect, Pending),
    Reply(HttpResponse),
}

/// Mathematical value of a [`Turn`].
pub enum TurnModel {
    Ask(EffectModel, Pending),
    Reply(ResponseModel),
}

impl View for Turn {
    type V = TurnModel;

    open spec fn view(&self) -> TurnModel {
        match self {
            Turn::Ask(effect, pending) => TurnModel::Ask(effect@, *pending),
            Turn::Reply(response) => TurnModel::Reply(response@),
        }
    }
}

/// The turn that a move of the service amounts to: its lookup, or the
/// response to its outcome.
pub open spec fn turn_of(step: StepModel) -> TurnModel {
    match step {
        StepModel::Ask(effect, pending) => TurnModel::Ask(effect, pending),
        StepModel::Done(outcome) => TurnModel::Reply(respond_of(outcome)),
    }
}

/// The first turn of a request: routes that need no store are answered at
/// once, a malformed identifier is refused before any lookup, and the rest
/// begins its operation.
pub open spec fn handle_of(method: Method, path: Seq<char>) -> TurnModel {
    match route_of(method, path) {
        Route::Service(operation) => turn_of(start_of(operation)),
        Route::Health => TurnModel::Reply(health_response_of()),
        Route::Preflight => TurnModel::Reply(preflight_response_of()),
        Route::BadId => TurnModel::Reply(error_response_of("Invalid ID format"@, 400)),
        Route::MethodNotAllowed => TurnModel::Reply(plain_error_of("Method Not Allowed"@, 405)),
        Route::NotFound => TurnModel::Reply(plain_error_of("Not Found"@, 404)),
    }
}

/// The turn that follows the host's answer, for a given draw.
pub open spec fn proceed_of(pending: Pending, answer: AnswerModel, draw: u64) -> TurnModel {
    turn_of(resume_of(pending, answer, draw))
}

/// Whether `word` stands in `text` at position `at`.
fn stands_at(text: &Vec<char>, at: usize, word: &Vec<char>) -> (found: bool)
    requires
        at <= text.len(),
    ensures
        found == word@.is_prefix_of(text@.skip(at as int)),
{
    if word.len() > text.len() - at {
        return false;
    }
    let mut i: usize = 0;
    while i < word.len()
        invariant
            i <= word.len(),
            at <= text.len(),
            word.len() <= text.len() - at,
            forall|j: int| 0 <= j < i ==> word@[j] == text@[at + j],
        decreases word.len() - i,
    {
        if word[i] != text[at + i] {
            assert(text@.skip(at as int).subrange(0, word@.len() as int)[i as int] != word@[i as int]);
            return false;
        }
        i = i + 1;
    }
    assert(word@ =~= text@.skip(at as int).subrange(0, word@.len() as int));
    true
}

/// Whether the part of `text` from position `at` on is a path segment.
fn segment_at(text: &Vec<char>, at: usize) -> (found: bool)
    requires
        at <= text.len(),
    ensures
        found == is_segment(text@.skip(at as int)),
{
    if at == text.len() {
        return false;
    }
    let mut i: usize = at;
    while i < text.len()
        invariant
            at <= i <= text.len(),
            forall|j: int| at <= j < i ==> text@[j] != '/',
        decreases text.len() - i,
    {
        if text[i] == '/' {
            assert(text@.skip(at as int)[i - at] == '/');
            return false;
        }
        i = i + 1;
    }
    assert forall|j: int| 0 <= j < text@.skip(at as int).len() implies text@.skip(at as int)[j]
        != '/' by {
        assert(text@.skip(at as int)[j] == text@[at + j]);
    }
    true
}

/// The route of the parameter that starts at position `at`.
fn route_id(text: &Vec<char>, at: usize, image: bool) -> (route: Route)
    requires
        at <= text.len(),
    ensures
        route == id_route(text@.skip(at as int), image),
{
    match parse_id_at(text, at) {
        Some(id) => Route::Service(
            if image {
                Operation::ImageById { id }
            } else {
                Operation::QuoteById { id }
            },
        ),
        None => Route::BadId,
    }
}

/// Where a `GET` request for the path `text` goes.
fn get_route(text: &Vec<char>) -> (route: Route)
    ensures
        route == get_route_of(text@),
{
    let health = chars_of("/health");
    let root = chars_of("/api/wisdom/");
    let img = chars_of("img");
    let img_slash = chars_of("img/");
    proof {
        assert(text@.skip(0) =~= text@);
    }
    if text.len() == health.len() && stands_at(text, 0, &health) {
        assert(text@ =~= health@);
        return Route::Health;
    }
    if !stands_at(text, 0, &root) {
        return Route::NotFound;
    }
    let at = root.len();
    let ghost rest = text@.skip(at as int);
    if at == text.len() {
        return Route::Service(Operation::RandomQuote);
    }
    if text.len() - at == img.len() && stands_at(text, at, &img) {
        assert(rest =~= img@);
        return Route::Service(Operation::RandomImage);
    }
    if stands_at(text, at, &img_slash) {
        let param_at = at + img_slash.len();
        assert(rest.skip(img_slash@.len() as int) =~= text@.skip(param_at as int));
        return if segment_at(text, param_at) {
            route_id(text, param_at, true)
        } else {
            Route::NotFound
        };
    }
    if segment_at(text, at) {
        route_id(text, at, false)
    } else {
        Route::NotFound
    }
}

/// Finds the route of a request.
pub fn route(method: Method, path: &str) -> (route: Route)
    ensures
        route == route_of(method, path@),
{
    let text = chars_of(path);
    match method {
        Method::Get => get_route(&text),
        Method::Options => {
            let root = chars_of("/api/wisdom/");
            proof {
                assert(text@.skip(0) =~= text@);
            }
            if stands_at(&text, 0, &root) {
                Route::Preflight
            } else {
                match get_route(&text) {
                    Route::NotFound => Route::NotFound,
                    _ => Route::MethodNotAllowed,
                }
            }
        },
        Method::Other => match get_route(&text) {
            Route::NotFound => Route::NotFound,
            _ => Route::MethodNotAllowed,
        },
    }
}

/// A header with the given name and value.
fn header(name: &str, value: &str) -> (header: Header)
    ensures
        header@ == (HeaderModel { name: name@, value: value@ }),
{
    Header { name: String::from_str(name), value: String::from_str(value) }
}

/// Wraps a payload into a JSON response with the given status.
pub fn json_response(payload: Payload, status: u16) -> (response: HttpResponse)
    ensures
        response@ == json_response_of(payload@, status),
{
    let mut headers: Vec<Header> = Vec::new();
    headers.push(header("Content-Type", "application/json"));
    headers.push(header("Access-Control-Allow-Origin", "*"));
    let response = HttpResponse { status, headers, body: Body::Json(payload) };
    assert(response@.headers =~= json_response_of(payload@, status).headers);
    response
}

/// A JSON response that carries `message` as its error.
pub fn error_response(message: &str, status: u16) -> (response: HttpResponse)
    ensures
        response@ == error_response_of(message@, status),
{
    json_response(Payload::Error(ErrorResponse { error: String::from_str(message) }), status)
}

/// A response that carries the bytes of an image.
pub fn image_response(bytes: Vec<u8>) -> (response: HttpResponse)
    ensures
        response@ == image_response_of(bytes@),
{
    let mut headers: Vec<Header> = Vec::new();
    headers.push(header("Content-Type", "image/png"));
    headers.push(header("Cache-Control", "public, max-age=86400"));
    headers.push(header("Access-Control-Allow-Origin", "*"));
    let response = HttpResponse { status: 200, headers, body: Body::Bytes(bytes) };
    assert(response@.headers =~= image_response_of(bytes@).headers);
    response
}

/// The answer to the liveness probe: 200 and the text `OK`.
pub fn health_response() -> (response: HttpResponse)
    ensures
        response@ == health_response_of(),
{
    let mut headers: Vec<Header> = Vec::new();
    headers.push(header("Content-Type", "text/plain; charset=utf-8"));
    let response = HttpResponse { status: 200, headers, body: Body::Text(String::from_str("OK")) };
    assert(response@.headers =~= health_response_of().headers);
    response
}

/// The answer to a preflight: 204, the cross-origin headers, no body.
pub fn preflight_response() -> (response: HttpResponse)
    ensures
        response@ == preflight_response_of(),
{
    let mut headers: Vec<Header> = Vec::new();
    headers.push(header("Access-Control-Allow-Origin", "*"));
    headers.push(header("Access-Control-Allow-Methods", "GET, OPTIONS"));
    headers.push(header("Access-Control-Allow-Headers", "Content-Type"));
    let response = HttpResponse { status: 204, headers, body: Body::Empty };
    assert(response@.headers =~= preflight_response_of().headers);
    response
}

/// An error response in plain text, without headers.
pub fn plain_error(message: &str, status: u16) -> (response: HttpResponse)
    ensures
        response@ == plain_error_of(message@, status),
{
    let response = HttpResponse {
        status,
        headers: Vec::new(),
        body: Body::Text(String::from_str(message)),
    };
    assert(response@.headers =~= plain_error_of(message@, status).headers);
    response
}

/// Turns an outcome of the service into the response to send.
pub fn respond(outcome: Outcome) -> (response: HttpResponse)
    ensures
        response@ == respond_of(outcome@),
{
    match outcome {
        Outcome::Quote(quote) => json_response(Payload::Quote(quote.to_response()), 200),
        Outcome::NoQuotes => error_response("No quotes found", 404),
        Outcome::QuoteNotFound => error_response("Quote not found", 404),
        Outcome::Image(bytes) => image_response(bytes),
        Outcome::NoImages => error_response("No images available", 404),
        Outcome::ImageNotFound => error_response("Image not found", 404),
        Outcome::NoImageForQuote => error_response("Quote does not have an image", 404),
        Outcome::ImageFileNotFound => error_response("Image file not found", 404),
        Outcome::StoreFailed => plain_error("INTERNAL SERVER ERROR", 500),
    }
}

/// The turn that a move of the service amounts to.
fn turn(step: Step) -> (turn: Turn)
    ensures
        turn@ == turn_of(step@),
{
    match step {
        Step::Ask(effect, pending) => Turn::Ask(effect, pending),
        Step::Done(outcome) => Turn::Reply(respond(outcome)),
    }
}

/// Takes a request: answers it at once where no store is needed, else names
/// the first lookup.
pub fn handle(method: Method, path: &str) -> (first: Turn)
    ensures
        first@ == handle_of(method, path@),
{
    match route(method, path) {
        Route::Service(operation) => turn(start(operation)),
        Route::Health => Turn::Reply(health_response()),
        Route::Preflight => Turn::Reply(preflight_response()),
        Route::BadId => Turn::Reply(error_response("Invalid ID format", 400)),
        Route::MethodNotAllowed => Turn::Reply(plain_error("Method Not Allowed", 405)),
        Route::NotFound => Turn::Reply(plain_error("Not Found", 404)),
    }
}

/// Takes the host's answer to a lookup, for a given draw.
pub fn proceed_with_draw(pending: Pending, answer: Answer, draw: u64) -> (next: Turn)
    ensures
        next@ == proceed_of(pending, answer@, draw),
{
    turn(resume_with_draw(pending, answer, draw))
}

/// Takes the host's answer to a lookup: names the next lookup, or gives the
/// response. Where a random quote is chosen, the draw is made here.
pub fn proceed(pending: Pending, answer: Answer) -> (next: Turn)
    ensures
        exists|draw: u64| next@ == #[trigger] proceed_of(pending, answer@, draw),
        !crate::service::draws(pending, answer@) ==> next@ == proceed_of(pending, answer@, 0),
{
    let ghost given = answer@;
    let step = resume(pending, answer);
    proof {
        let draw = choose|draw: u64| step@ == #[trigger] resume_of(pending, given, draw);
        assert(turn_of(step@) == proceed_of(pending, given, draw));
    }
    turn(step)
}

} // verus!
