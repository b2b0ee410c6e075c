//! The request translator: the typed action vocabulary, the execution-mode
//! tag, the error classification, and the three entry points that turn
//! (method, optional second path token, body) into a `ParsedRequest` or an
//! `Error`, reporting to the counters exactly as each branch prescribes.

use vstd::prelude::*;
use vstd::string::StringExecFns;

use crate::config::{config_from_fields, spec_config_of_fields, MmdsConfig};
use crate::json::{json_object_fields, json_ok, parse_json_shape};
use crate::metrics::{after_get, after_patch, after_put, bump, MmdsMetrics};
use crate::text::{str_eq, unrecognized_message, unrecognized_view};
use crate::version::{spec_version_of_fields, version_from_fields, MmdsVersion};

verus! {

/// A request body, held verbatim as text.
#[derive(Clone, Debug, PartialEq)]
pub struct Body {
    text: String,
}

impl View for Body {
    type V = Seq<char>;

    closed spec fn view(&self) -> Seq<char> {
        self.text@
    }
}

impl Body {
    /// A body holding the given text.
    pub fn new(body: &str) -> (b: Body)
        ensures
            b@ == body@,
    {
        Body { text: String::from_str(body) }
    }

    /// The body's text.
    pub fn raw(&self) -> (r: &str)
        ensures
            r@ == self@,
    {
        self.text.as_str()
    }

    /// An owned copy of the body's text.
    pub fn to_text(&self) -> (r: String)
        ensures
            r@ == self@,
    {
        self.text.clone()
    }
}

/// The HTTP-style status classification carried by a `Malformed` error.
#[derive(Clone, Copy, Debug, PartialEq, Eq, Structural)]
pub enum StatusCode {
    BadRequest,
}

/// How a parsed request is classified as structurally invalid or
/// undecodable.
#[derive(Clone, Debug, PartialEq)]
pub enum Error {
    /// The request addressed an unknown path suffix; carries a status
    /// classification and a message naming the offending token.
    Malformed(StatusCode, String),
    /// The body could not be decoded into the shape the matched path
    /// requires; carries the underlying cause.
    BodyDecodeFailed(String),
}

/// The closed set of actions a request translates to.
#[derive(Clone, Debug, PartialEq)]
pub enum Action {
    /// Retrieve the entire metadata document.
    FetchAll,
    /// Retrieve the active protocol version identifier.
    FetchVersion,
    /// Replace the entire metadata document with the given JSON text,
    /// stored verbatim.
    ReplaceAll(String),
    /// Replace the service's configuration.
    ReplaceConfiguration(MmdsConfig),
    /// Switch the active protocol version.
    SetVersion(MmdsVersion),
    /// Apply a merge patch, given as JSON text stored verbatim, to the
    /// metadata document.
    MergePatch(String),
}

/// Whether the action must be executed synchronously, on the calling path,
/// before the request is acknowledged, or may be handed to the asynchronous
/// processing path.
#[derive(Clone, Copy, Debug, PartialEq, Eq, Structural)]
pub enum ExecutionMode {
    Immediate,
    Queued,
}

/// An action paired with its execution mode.
#[derive(Clone, Debug, PartialEq)]
pub struct ParsedRequest {
    pub action: Action,
    pub mode: ExecutionMode,
}

impl ParsedRequest {
    /// A request handled by the asynchronous processing path.
    pub fn new(action: Action) -> (r: ParsedRequest)
        ensures
            r.action == action,
            r.mode is Queued,
    {
        ParsedRequest { action, mode: ExecutionMode::Queued }
    }

    /// A request the caller must execute synchronously before answering.
    pub fn new_sync(action: Action) -> (r: ParsedRequest)
        ensures
            r.action == action,
            r.mode is Immediate,
    {
        ParsedRequest { action, mode: ExecutionMode::Immediate }
    }
}

/// The view of an optional path token.
pub open spec fn token_view(t: Option<&str>) -> Option<Seq<char>> {
    match t {
        Some(s) => Some(s@),
        None => None,
    }
}

/// The configuration a PUT `/config` body decodes to, or `None` when it
/// does not decode.
pub open spec fn config_of_body(b: Seq<char>) -> Option<Option<Seq<char>>> {
    match json_object_fields(b) {
        Some(fs) => spec_config_of_fields(fs),
        None => None,
    }
}

/// The version a PUT `/version` body decodes to, or `None` when it does
/// not decode.
pub open spec fn version_of_body(b: Seq<char>) -> Option<MmdsVersion> {
    match json_object_fields(b) {
        Some(fs) => spec_version_of_fields(fs),
        None => None,
    }
}

/// What `parse_get_mmds` returns, for every token: the bare path fetches
/// the whole document, `version` fetches the version, anything else is
/// malformed, with a message naming the token.
pub open spec fn get_post(token: Option<Seq<char>>, r: Result<ParsedRequest, Error>) -> bool {
    match token {
        None => r matches Ok(pr) && pr.action is FetchAll && pr.mode is Queued,
        Some(t) => if t == "version"@ {
            r matches Ok(pr) && pr.action is FetchVersion && pr.mode is Queued
        } else {
            r matches Err(e) && e matches Error::Malformed(code, msg) && code is BadRequest
                && msg@ == unrecognized_view("GET"@, t)
        },
    }
}

/// What `parse_put_mmds` returns, for every body and token: the bare path
/// replaces the document with the body verbatim when the body is JSON; the
/// `config` path replaces the configuration, in immediate mode, exactly
/// when the body decodes to one; the `version` path switches the version
/// exactly when the body decodes to a supported tag; any other token is
/// malformed, with a message naming it.
pub open spec fn put_post(
    b: Seq<char>,
    token: Option<Seq<char>>,
    r: Result<ParsedRequest, Error>,
) -> bool {
    match token {
        None => match r {
            Ok(pr) => {
                &&& json_ok(b)
                &&& pr.mode is Queued
                &&& pr.action matches Action::ReplaceAll(doc) && doc@ == b
            },
            Err(e) => !json_ok(b) && e is BodyDecodeFailed,
        },
        Some(t) => if t == "config"@ {
            match r {
                Ok(pr) => {
                    &&& config_of_body(b) matches Some(addr)
                        && pr.action matches Action::ReplaceConfiguration(c) && c@ == addr
                    &&& pr.mode is Immediate
                },
                Err(e) => config_of_body(b) is None && e is BodyDecodeFailed,
            }
        } else if t == "version"@ {
            match r {
                Ok(pr) => {
                    &&& version_of_body(b) matches Some(v)
                        && pr.action matches Action::SetVersion(w) && w == v
                    &&& pr.mode is Queued
                },
                Err(e) => version_of_body(b) is None && e is BodyDecodeFailed,
            }
        } else {
            r matches Err(e) && e matches Error::Malformed(code, msg) && code is BadRequest
                && msg@ == unrecognized_view("PUT"@, t)
        },
    }
}

/// What `parse_patch_mmds` returns, for every body: a merge patch holding
/// the body verbatim when the body is JSON, a decode failure otherwise.
pub open spec fn patch_post(b: Seq<char>, r: Result<ParsedRequest, Error>) -> bool {
    match r {
        Ok(pr) => {
            &&& json_ok(b)
            &&& pr.mode is Queued
            &&& pr.action matches Action::MergePatch(doc) && doc@ == b
        },
        Err(e) => !json_ok(b) && e is BodyDecodeFailed,
    }
}

/// Translates a GET request. Only the bare-path branch reports a "get
/// observed" request to the counters; the `version` branch does not.
pub fn parse_get_mmds(path_second_token: Option<&str>, metrics: &mut MmdsMetrics) -> (r: Result<
    ParsedRequest,
    Error,
>)
    ensures
        get_post(token_view(path_second_token), r),
        *final(metrics) == after_get(*old(metrics), path_second_token is None),
{
    match path_second_token {
        None => {
            metrics.get_observed = bump(metrics.get_observed);
            Ok(ParsedRequest::new(Action::FetchAll))
        },
        Some(token) => {
            if str_eq(token, "version") {
                Ok(ParsedRequest::new(Action::FetchVersion))
            } else {
                Err(
                    Error::Malformed(
                        StatusCode::BadRequest,
                        unrecognized_message("GET", token),
                    ),
                )
            }
        },
    }
}

/// Translates a PUT request. A "put observed" request is reported to the
/// counters before dispatch, unconditionally; a "put failed" is reported
/// exactly when the result is an error.
pub fn parse_put_mmds(
    body: &Body,
    path_second_token: Option<&str>,
    metrics: &mut MmdsMetrics,
) -> (r: Result<ParsedRequest, Error>)
    ensures
        put_post(body@, token_view(path_second_token), r),
        *final(metrics) == after_put(*old(metrics), r is Err),
{
    metrics.put_observed = bump(metrics.put_observed);
    match path_second_token {
        None => match parse_json_shape(body.raw()) {
            Ok(_) => Ok(ParsedRequest::new(Action::ReplaceAll(body.to_text()))),
            Err(cause) => {
                metrics.put_failed = bump(metrics.put_failed);
                Err(Error::BodyDecodeFailed(cause))
            },
        },
        Some(token) => {
            if str_eq(token, "config") {
                match parse_json_shape(body.raw()) {
                    Ok(Some(fields)) => match config_from_fields(&fields) {
                        Ok(config) => Ok(
                            ParsedRequest::new_sync(Action::ReplaceConfiguration(config)),
                        ),
                        Err(cause) => {
                            metrics.put_failed = bump(metrics.put_failed);
                            Err(Error::BodyDecodeFailed(cause))
                        },
                    },
                    Ok(None) => {
                        metrics.put_failed = bump(metrics.put_failed);
                        Err(
                            Error::BodyDecodeFailed(
                                String::from_str("the request body must be a JSON object"),
                            ),
                        )
                    },
                    Err(cause) => {
                        metrics.put_failed = bump(metrics.put_failed);
                        Err(Error::BodyDecodeFailed(cause))
                    },
                }
            } else if str_eq(token, "version") {
                match parse_json_shape(body.raw()) {
                    Ok(Some(fields)) => match version_from_fields(&fields) {
                        Ok(version) => Ok(ParsedRequest::new(Action::SetVersion(version))),
                        Err(cause) => {
                            metrics.put_failed = bump(metrics.put_failed);
                            Err(Error::BodyDecodeFailed(cause))
                        },
                    },
                    Ok(None) => {
                        metrics.put_failed = bump(metrics.put_failed);
                        Err(
                            Error::BodyDecodeFailed(
                                String::from_str("the request body must be a JSON object"),
                            ),
                        )
                    },
                    Err(cause) => {
                        metrics.put_failed = bump(metrics.put_failed);
                        Err(Error::BodyDecodeFailed(cause))
                    },
                }
            } else {
                metrics.put_failed = bump(metrics.put_failed);
                Err(
                    Error::Malformed(
                        StatusCode::BadRequest,
                        unrecognized_message("PUT", token),
                    ),
                )
            }
        },
    }
}

/// Translates a PATCH request. A "patch observed" request is reported to
/// the counters before decoding; a "patch failed" is reported exactly when
/// the body does not decode.
pub fn parse_patch_mmds(body: &Body, metrics: &mut MmdsMetrics) -> (r: Result<
    ParsedRequest,
    Error,
>)
    ensures
        patch_post(body@, r),
        *final(metrics) == after_patch(*old(metrics), r is Err),
{
    metrics.patch_observed = bump(metrics.patch_observed);
    match parse_json_shape(body.raw()) {
        Ok(_) => Ok(ParsedRequest::new(Action::MergePatch(body.to_text()))),
        Err(cause) => {
            metrics.patch_failed = bump(metrics.patch_failed);
            Err(Error::BodyDecodeFailed(cause))
        },
    }
}

/// Structural identity of two actions, payloads compared by their views.
pub open spec fn same_action(a1: Action, a2: Action) -> bool {
    match (a1, a2) {
        (Action::FetchAll, Action::FetchAll) => true,
        (Action::FetchVersion, Action::FetchVersion) => true,
        (Action::ReplaceAll(d1), Action::ReplaceAll(d2)) => d1@ == d2@,
        (Action::ReplaceConfiguration(c1), Action::ReplaceConfiguration(c2)) => c1@ == c2@,
        (Action::SetVersion(v1), Action::SetVersion(v2)) => v1 == v2,
        (Action::MergePatch(d1), Action::MergePatch(d2)) => d1@ == d2@,
        _ => false,
    }
}

/// Structural identity of two parse outcomes on their success side: both
/// succeed with the same action and mode, or both fail.
pub open spec fn same_success(
    r1: Result<ParsedRequest, Error>,
    r2: Result<ParsedRequest, Error>,
) -> bool {
    match (r1, r2) {
        (Ok(p1), Ok(p2)) => same_action(p1.action, p2.action) && p1.mode == p2.mode,
        (Err(_), Err(_)) => true,
        _ => false,
    }
}

/// Translating the same GET token twice yields structurally identical
/// outcomes: the translator is a pure function of its input, aside from
/// the counters.
pub proof fn lemma_parse_get_deterministic(
    token: Option<Seq<char>>,
    r1: Result<ParsedRequest, Error>,
    r2: Result<ParsedRequest, Error>,
)
    requires
        get_post(token, r1),
        get_post(token, r2),
    ensures
        same_success(r1, r2),
{
}

/// Translating the same PUT body and token twice yields structurally
/// identical outcomes: the translator is a pure function of its input,
/// aside from the counters.
pub proof fn lemma_parse_put_deterministic(
    b: Seq<char>,
    token: Option<Seq<char>>,
    r1: Result<ParsedRequest, Error>,
    r2: Result<ParsedRequest, Error>,
)
    requires
        put_post(b, token, r1),
        put_post(b, token, r2),
    ensures
        same_success(r1, r2),
{
}

/// Translating the same PATCH body twice yields structurally identical
/// outcomes: the translator is a pure function of its input, aside from
/// the counters.
pub proof fn lemma_parse_patch_deterministic(
    b: Seq<char>,
    r1: Result<ParsedRequest, Error>,
    r2: Result<ParsedRequest, Error>,
)
    requires
        patch_post(b, r1),
        patch_post(b, r2),
    ensures
        same_success(r1, r2),
{
}

} // verus!
