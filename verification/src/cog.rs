//! Talking to a model's inference server.

use std::collections::HashMap;

use reqwest::Url;
use serde_json::Value;
use vstd::prelude::*;
use vstd::string::StringSliceAdditionalSpecFns;

use crate::json::{json_text, push_all, write_value};
use crate::types::Failure;

verus! {

/// One complaint of the server about a prediction's input.
#[derive(Debug)]
pub struct ValidationError {
    pub location: Vec<String>,
    pub message: String,
    pub error_type: String,
}

/// Body of the answer that rejects a prediction's input.
#[derive(Debug)]
pub struct HTTPValidationError {
    pub detail: Vec<ValidationError>,
}

/// Status of setup or prediction.
#[derive(Clone, Copy, Debug, PartialEq, Eq, Structural)]
pub enum Status {
    Starting,
    Processing,
    Succeeded,
    Canceled,
    Failed,
}

/// Result of a model setup.
#[derive(Debug)]
pub struct SetupResult {
    pub started_at: String,
    pub completed_at: String,
    pub logs: String,
    pub status: Status,
}

/// Health status.
#[derive(Clone, Copy, Debug, PartialEq, Eq, Structural)]
pub enum Health {
    Unknown,
    Starting,
    Ready,
    Busy,
    SetupFailed,
}

/// Health check.
#[derive(Debug)]
pub struct HealthCheck {
    pub status: Health,
    pub setup: SetupResult,
}

/// What the server answers to a prediction.
#[derive(Debug)]
pub struct PredictionResponse {
    pub input: Option<Value>,
    pub output: Option<Value>,
    pub id: Option<String>,
    pub version: Option<String>,
    pub created_at: Option<String>,
    pub started_at: Option<String>,
    pub completed_at: Option<String>,
    pub logs: String,
    pub error: Option<String>,
    pub status: Status,
    pub metrics: Option<HashMap<String, Value>>,
}

/// The word by which a status is written.
pub open spec fn status_text(status: Status) -> Seq<char> {
    match status {
        Status::Starting => "starting"@,
        Status::Processing => "processing"@,
        Status::Succeeded => "succeeded"@,
        Status::Canceled => "canceled"@,
        Status::Failed => "failed"@,
    }
}

impl Status {
    /// The status as a word.
    pub fn to_string(&self) -> (word: String)
        ensures
            word@ == status_text(*self),
    {
        match self {
            Status::Starting => "starting".to_owned(),
            Status::Processing => "processing".to_owned(),
            Status::Succeeded => "succeeded".to_owned(),
            Status::Canceled => "canceled".to_owned(),
            Status::Failed => "failed".to_owned(),
        }
    }
}

/// What to do after one look at the server's health.
#[derive(Debug)]
pub enum Probe {
    /// The server is ready.
    Ready,
    /// The server will not become ready.
    Failed(Error),
    /// Look again after so many milliseconds.
    Wait(u64),
}

/// What the status code of an answer to a prediction says about its body.
#[derive(Clone, Copy, Debug, PartialEq, Eq, Structural)]
pub enum ReplyKind {
    /// The input was rejected; the body lists why.
    Rejected,
    /// The body is the prediction.
    Answer,
    /// The request failed.
    Failed,
}

/// An answer to a prediction, its body read as its status code asks.
#[derive(Debug)]
pub enum Reply {
    Rejected(HTTPValidationError),
    Answer(PredictionResponse),
    /// The request failed: it was not answered, the status code says so, or
    /// the body could not be read.
    Failed(Failure),
}

/// What the connector reports as failed.
#[derive(Debug)]
pub enum Error {
    /// The server reported that the model's setup failed.
    SetupFailed,
    /// The server rejected the input of a prediction.
    InputValidation { errors: Vec<ValidationError> },
}

/// `reqwest::Url`, taken as it is: nothing of its inside is known here.
#[verifier::external_type_specification]
#[verifier::external_body]
pub struct ExUrl(Url);

/// The text that a parsed address holds: its serialization.
pub uninterp spec fn address(url: Url) -> Seq<char>;

/// The serialization of the absolute address that `text` parses to, if it
/// parses to one.
pub uninterp spec fn url_parse(text: Seq<char>) -> Option<Seq<char>>;

/// The serialization of the address that `reference` resolves to against the
/// base address serialized as `base`, if it resolves.
pub uninterp spec fn url_join(base: Seq<char>, reference: Seq<char>) -> Option<Seq<char>>;

/// `Url::parse`: parses an absolute address, or says in words why the text is
/// none.
#[verifier::external_body]
fn parse_url(text: &str) -> (parsed: Result<Url, String>)
    ensures
        parsed is Ok == url_parse(text@) is Some,
        parsed is Ok ==> Some(address(parsed->Ok_0)) == url_parse(text@),
{
    Url::parse(text).map_err(|e| e.to_string())
}

/// `Url::join`: resolves `reference` against `base`, or says in words why it
/// does not resolve.
#[verifier::external_body]
fn join_url(base: &Url, reference: &str) -> (joined: Result<Url, String>)
    ensures
        joined is Ok == url_join(address(*base), reference@) is Some,
        joined is Ok ==> Some(address(joined->Ok_0)) == url_join(address(*base), reference@),
{
    base.join(reference).map_err(|e| e.to_string())
}

/// `String::from` on a `Url`: the serialization it holds.
#[verifier::external_body]
fn url_text(url: Url) -> (text: String)
    ensures
        text@ == address(url),
{
    String::from(url)
}

/// How a request is made.
#[derive(Clone, Copy, Debug, PartialEq, Eq, Structural)]
pub enum Method {
    Get,
    Post,
}

/// A request to the inference server, for whoever speaks HTTP to make.
#[derive(Debug)]
pub struct Request {
    pub method: Method,
    /// The absolute address to send it to.
    pub url: String,
    /// The JSON text to send along, if any.
    pub body: Option<Vec<u8>>,
}

/// Connector to one inference server: where it is, and how to ask it.
#[derive(Debug)]
pub struct Connector {
    url: Url,
}

impl Connector {
    /// The serialization of the server's base address.
    pub closed spec fn base(&self) -> Seq<char> {
        address(self.url)
    }

    /// A connector to the server at the base address `url`. Fails exactly when
    /// `url` is no absolute address.
    pub fn new(url: &str) -> (made: Result<Connector, Failure>)
        ensures
            made is Ok == url_parse(url@) is Some,
            made is Ok ==> Some(made->Ok_0.base()) == url_parse(url@),
            made is Err ==> made->Err_0 is Outside,
    {
        match parse_url(url) {
            Ok(url) => Ok(Connector { url }),
            Err(words) => Err(Failure::Outside(words)),
        }
    }

    /// The request for `path` below the base address, with no body.
    fn get(&self, path: &str) -> (request: Result<Request, Failure>)
        ensures
            request is Ok == url_join(self.base(), path@) is Some,
            request is Ok ==> {
                &&& request->Ok_0.method == Method::Get
                &&& Some(request->Ok_0.url@) == url_join(self.base(), path@)
                &&& request->Ok_0.body is None
            },
            request is Err ==> request->Err_0 is Outside,
    {
        match join_url(&self.url, path) {
            Ok(url) => Ok(Request { method: Method::Get, url: url_text(url), body: None }),
            Err(words) => Err(Failure::Outside(words)),
        }
    }

    /// The request that asks the server for its OpenAPI schema.
    pub fn openapi_schema(&self) -> (request: Result<Request, Failure>)
        ensures
            request is Ok == url_join(self.base(), "openapi.json"@) is Some,
            request is Ok ==> {
                &&& request->Ok_0.method == Method::Get
                &&& Some(request->Ok_0.url@) == url_join(self.base(), "openapi.json"@)
                &&& request->Ok_0.body is None
            },
            request is Err ==> request->Err_0 is Outside,
    {
        self.get("openapi.json")
    }

    /// The request that asks the server how it is.
    pub fn health_check(&self) -> (request: Result<Request, Failure>)
        ensures
            request is Ok == url_join(self.base(), "health-check"@) is Some,
            request is Ok ==> {
                &&& request->Ok_0.method == Method::Get
                &&& Some(request->Ok_0.url@) == url_join(self.base(), "health-check"@)
                &&& request->Ok_0.body is None
            },
            request is Err ==> request->Err_0 is Outside,
    {
        self.get("health-check")
    }
}

/// The body of a prediction request whose input is written as `input`.
pub open spec fn prediction_body(input: Seq<u8>) -> Seq<u8> {
    "{\"input\":".spec_bytes() + input + "}".spec_bytes()
}

/// Frames the written input of a prediction as the request's body.
pub fn frame_input(input: Vec<u8>) -> (body: Vec<u8>)
    ensures
        body@ == prediction_body(input@),
{
    let mut body: Vec<u8> = Vec::new();
    push_all(&mut body, "{\"input\":".as_bytes());
    push_all(&mut body, input.as_slice());
    push_all(&mut body, "}".as_bytes());
    body
}

/// What the status code `status` says about the body of an answer to a
/// prediction: 422 rejects the input, the codes from 200 to 299 bring the
/// prediction, every other code is a failure.
pub open spec fn reply_kind_of(status: u16) -> ReplyKind {
    if status == 422 {
        ReplyKind::Rejected
    } else if 200 <= status <= 299 {
        ReplyKind::Answer
    } else {
        ReplyKind::Failed
    }
}

/// Tells by the status code how to read an answer to a prediction.
pub fn reply_kind(status: u16) -> (kind: ReplyKind)
    ensures
        kind == reply_kind_of(status),
{
    if status == 422 {
        ReplyKind::Rejected
    } else if 200 <= status && status <= 299 {
        ReplyKind::Answer
    } else {
        ReplyKind::Failed
    }
}

/// Whether the status code of an answer to a plain request says that it was
/// served.
pub fn is_success(status: u16) -> (served: bool)
    ensures
        served == (200 <= status <= 299),
{
    200 <= status && status <= 299
}

impl Connector {
    /// One round of waiting for the server: ready when it says so, failed for
    /// good when its setup failed, and in every other case, a failed look
    /// included, another look a second later.
    pub fn ensure_ready(&self, health: &Result<HealthCheck, Failure>) -> (probe: Probe)
        ensures
            match *health {
                Ok(check) => match check.status {
                    Health::Ready => probe == Probe::Ready,
                    Health::SetupFailed => probe == Probe::Failed(Error::SetupFailed),
                    _ => probe == Probe::Wait(1000),
                },
                Err(_) => probe == Probe::Wait(1000),
            },
    {
        match health {
            Ok(check) => match check.status {
                Health::Ready => Probe::Ready,
                Health::SetupFailed => Probe::Failed(Error::SetupFailed),
                _ => Probe::Wait(1000),
            },
            Err(_) => Probe::Wait(1000),
        }
    }

    /// The request that asks the server for a prediction on `input`, given
    /// the outcome `written` of writing `input` as JSON.
    pub fn predict_written(&self, written: Result<Vec<u8>, String>) -> (request: Result<
        Request,
        Failure,
    >)
        ensures
            request is Ok == (url_join(self.base(), "predictions"@) is Some && written is Ok),
            request is Ok ==> {
                &&& request->Ok_0.method == Method::Post
                &&& Some(request->Ok_0.url@) == url_join(self.base(), "predictions"@)
                &&& request->Ok_0.body is Some
                &&& request->Ok_0.body->Some_0@ == prediction_body(written->Ok_0@)
            },
            request is Err ==> request->Err_0 is Outside,
    {
        match join_url(&self.url, "predictions") {
            Ok(url) => match written {
                Ok(input) => Ok(
                    Request {
                        method: Method::Post,
                        url: url_text(url),
                        body: Some(frame_input(input)),
                    },
                ),
                Err(words) => Err(Failure::Outside(words)),
            },
            Err(words) => Err(Failure::Outside(words)),
        }
    }

    /// The request that asks the server for a prediction on `input`. It fails
    /// exactly where the address of predictions cannot be formed.
    pub fn predict(&self, input: &Value) -> (request: Result<Request, Failure>)
        ensures
            request is Ok == url_join(self.base(), "predictions"@) is Some,
            request is Ok ==> {
                &&& request->Ok_0.method == Method::Post
                &&& Some(request->Ok_0.url@) == url_join(self.base(), "predictions"@)
                &&& request->Ok_0.body is Some
                &&& request->Ok_0.body->Some_0@ == prediction_body(json_text(*input))
            },
            request is Err ==> request->Err_0 is Outside,
    {
        self.predict_written(write_value(input))
    }

    /// What a prediction comes to, given the server's answer: the prediction
    /// itself, the server's complaints about the input, or the failure.
    pub fn prediction(reply: Reply) -> (outcome: Result<PredictionResponse, Failure>)
        ensures
            match reply {
                Reply::Answer(response) => outcome == Ok::<PredictionResponse, Failure>(response),
                Reply::Rejected(complaint) => outcome == Err::<PredictionResponse, Failure>(
                    Failure::Connector(Error::InputValidation { errors: complaint.detail }),
                ),
                Reply::Failed(failure) => outcome == Err::<PredictionResponse, Failure>(failure),
            },
    {
        match reply {
            Reply::Answer(response) => Ok(response),
            Reply::Rejected(complaint) => Err(
                Failure::Connector(Error::InputValidation { errors: complaint.detail }),
            ),
            Reply::Failed(failure) => Err(failure),
        }
    }
}

} // verus!
