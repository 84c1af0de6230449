//! The engine that answers requests on accepted agreements.

use std::collections::HashMap;

use serde_json::Value;
use vstd::prelude::*;

use crate::cog::{
    prediction_body, status_text, url_join, url_parse, Connector, Health, HealthCheck, Method,
    PredictionResponse, Reply,
};
use crate::data::ModelRepo;
use crate::engine::{finished_cleanly, finished_with, Action, Engine, Error, Event, Note, Received};
use crate::json::{json_parse, json_string, json_text, parse, write_value};
use crate::protocol::{blake2_256, carries, hash_upload, retry_download, ChainEvent};
use crate::types::{
    opt_string_text, opt_value_text, result_text, AgreementDetails, AgreementId, ContentId,
    ExecutionResult, Failure, ModelDetailsView, ModelId, OrderId,
};
use crate::utils::{is_wanting, Retry};

verus! {

/// How often the chain is asked again for an agreement, and the exchange for
/// a request's content.
pub const FIVE_TIMES: usize = 5;

/// How long to wait before the chain is asked again for an agreement.
pub const AGREEMENT_INTERVAL_MILLIS: u64 = 5000;

/// A request that is being answered.
#[derive(Debug)]
pub struct Job {
    pub agreement_id: AgreementId,
    pub request_index: u32,
    pub content_id: ContentId,
    /// Base address of the inference server of the agreement's model.
    pub url: String,
}

/// Where the execution engine stands.
#[derive(Debug)]
pub enum Phase {
    /// Waiting for the next chain event.
    Idle,
    /// Reading the agreement of an accepted bid: asked for, or, when
    /// `waiting`, about to be asked for again.
    Agreement { order_id: OrderId, retry: Retry, waiting: bool },
    /// Fetching a request's content: asked for, or, when `waiting`, about to
    /// be asked for again.
    Content { job: Job, retry: Retry, waiting: bool },
    /// Waiting for the inference server to be ready: asked how it is, or,
    /// when `waiting`, about to be asked again.
    Health { job: Job, connector: Connector, input: Value, waiting: bool },
    /// The prediction has been asked for.
    Prediction { job: Job },
    /// The result is being stored under `content_id`.
    Upload { job: Job, content_id: ContentId },
    /// The response is being submitted.
    Response,
    /// Stopped for good.
    Stopped,
}

/// Answers the requests made on agreements that came out of this provider's
/// bids.
pub struct ExecutionEngine {
    agreements: HashMap<AgreementId, ModelId>,
    phase: Phase,
}

/// The rule by which reading an agreement is retried.
pub open spec fn agreement_retry() -> Retry {
    Retry { retries: 0, max_retries: FIVE_TIMES, interval_millis: AGREEMENT_INTERVAL_MILLIS }
}

/// The rule by which fetching a request's content is retried.
pub open spec fn content_retry() -> Retry {
    Retry { retries: 0, max_retries: FIVE_TIMES, interval_millis: 1000 }
}

/// Whether the engine takes up the request on agreement `agreement_id`: it
/// knows the agreement, and the agreement's model is served.
pub open spec fn takes_up(
    known: Map<AgreementId, Seq<char>>,
    served: Map<Seq<char>, ModelDetailsView>,
    agreement_id: AgreementId,
) -> bool {
    known.dom().contains(agreement_id) && served.dom().contains(known[agreement_id])
}

/// Whether `next` and `action` are how the idle engine reacts to the chain
/// event `event`, knowing the agreements `known` while the models `served`
/// are served.
pub open spec fn reacts(
    known: Map<AgreementId, Seq<char>>,
    served: Map<Seq<char>, ModelDetailsView>,
    event: ChainEvent,
    next: Phase,
    action: Action,
) -> bool {
    match event {
        ChainEvent::BidAccepted { order_id } => {
            &&& next == (Phase::Agreement { order_id, retry: agreement_retry(), waiting: false })
            &&& action == (Action::GetAgreement { agreement_id: order_id })
        },
        ChainEvent::RequestCreated { agreement_id, request_index, content_id } => {
            if takes_up(known, served, agreement_id) {
                &&& next matches Phase::Content { job, retry, waiting }
                &&& job.agreement_id == agreement_id
                &&& job.request_index == request_index
                &&& job.content_id == content_id
                &&& job.url@ == served[known[agreement_id]].url
                &&& retry == content_retry()
                &&& !waiting
                &&& action == (Action::Download { content_id })
            } else if known.dom().contains(agreement_id) {
                next is Idle && action == Action::Receive(Some(Note::ModelNotServed))
            } else {
                next is Idle && action == Action::Receive(None)
            }
        },
        ChainEvent::OrderCreated { .. } => next is Idle && action == Action::Receive(None),
    }
}

/// Whether `next`, `action` and the agreements `known_after` are how the
/// engine goes on when reading the agreement of order `order_id` came to
/// `outcome`, after the retries counted in `retry`.
pub open spec fn agreement_read(
    known: Map<AgreementId, Seq<char>>,
    order_id: OrderId,
    retry: Retry,
    outcome: Result<Option<AgreementDetails>, Failure>,
    known_after: Map<AgreementId, Seq<char>>,
    next: Phase,
    action: Action,
) -> bool {
    if retry.goes_on(is_wanting(outcome)) {
        &&& known_after == known
        &&& next == (Phase::Agreement { order_id, retry: retry.bumped(), waiting: true })
        &&& action == (Action::Wait { millis: retry.interval_millis })
    } else {
        &&& next is Idle
        &&& match outcome {
            Ok(Some(details)) => {
                &&& known_after == known.insert(order_id, details.model_id@)
                &&& action == Action::Receive(None)
            },
            Ok(None) => {
                &&& known_after == known
                &&& action == Action::Receive(Some(Note::AgreementNotFound))
            },
            Err(failure) => {
                &&& known_after == known
                &&& action == Action::Receive(Some(Note::Failed(failure)))
            },
        }
    }
}

/// Whether the engine gives the event up because something outside failed.
pub open spec fn gives_up(next: Phase, action: Action) -> bool {
    &&& next is Idle
    &&& action matches Action::Receive(Some(Note::Failed(failure)))
    &&& failure is Outside
}

/// Whether `next` and `action` ask the server behind `connector` how it is,
/// on the way to a prediction on `input` for `job`.
pub open spec fn asks_health(
    job: Job,
    connector: Connector,
    input: Value,
    next: Phase,
    action: Action,
) -> bool {
    &&& next == (Phase::Health { job, connector, input, waiting: false })
    &&& action matches Action::HealthCheck(request)
    &&& request.method == Method::Get
    &&& Some(request.url@) == url_join(connector.base(), "health-check"@)
    &&& request.body is None
}

/// Whether `next` and `action` are how work on `job` begins once its content
/// `content` is there: the content is read as JSON, the server's address is
/// parsed, and the server is asked how it is. Where the content is no JSON or
/// the address is none, the request is given up.
pub open spec fn prediction_begun(job: Job, content: Seq<u8>, next: Phase, action: Action) -> bool {
    if json_parse(content) is Some && url_parse(job.url@) is Some && url_join(
        url_parse(job.url@)->Some_0,
        "health-check"@,
    ) is Some {
        &&& next matches Phase::Health { job: begun, connector, input, waiting }
        &&& begun == job
        &&& Some(connector.base()) == url_parse(job.url@)
        &&& Some(json_text(input)) == json_parse(content)
        &&& asks_health(job, connector, input, next, action)
    } else {
        gives_up(next, action)
    }
}

/// Whether `next` and `action` are how the engine goes on when fetching the
/// content of `job` came to `outcome`, after the retries counted in `retry`.
pub open spec fn content_fetched(
    job: Job,
    retry: Retry,
    outcome: Result<Option<Vec<u8>>, Failure>,
    next: Phase,
    action: Action,
) -> bool {
    if retry.goes_on(is_wanting(outcome)) {
        &&& next == (Phase::Content { job, retry: retry.bumped(), waiting: true })
        &&& action == (Action::Wait { millis: retry.interval_millis })
    } else {
        match outcome {
            Ok(Some(content)) => prediction_begun(job, content@, next, action),
            Ok(None) => next is Idle && action == Action::Receive(Some(Note::ContentNotFound)),
            Err(failure) => next is Idle && action == Action::Receive(
                Some(Note::Failed(failure)),
            ),
        }
    }
}

/// Whether `next` and `action` ask the server behind `connector` for the
/// prediction for `job`, on an input written as `input`.
pub open spec fn asks_prediction(
    job: Job,
    connector: Connector,
    input: Seq<u8>,
    next: Phase,
    action: Action,
) -> bool {
    &&& next == (Phase::Prediction { job })
    &&& action matches Action::Predict(request)
    &&& request.method == Method::Post
    &&& Some(request.url@) == url_join(connector.base(), "predictions"@)
    &&& request.body matches Some(body)
    &&& body@ == prediction_body(input)
}

/// Whether `next` and `action` are how the engine goes on once the server is
/// ready, given the outcome `written` of writing the input as JSON.
pub open spec fn input_written(
    job: Job,
    connector: Connector,
    written: Result<Vec<u8>, String>,
    next: Phase,
    action: Action,
) -> bool {
    if written is Ok && url_join(connector.base(), "predictions"@) is Some {
        asks_prediction(job, connector, written->Ok_0@, next, action)
    } else {
        gives_up(next, action)
    }
}

/// Whether `next` and `action` are how the engine goes on when it has been
/// told how the server is: on to the prediction when the server is ready,
/// giving up when its setup failed, and otherwise, a failed look included,
/// another look a second later.
pub open spec fn health_seen(
    job: Job,
    connector: Connector,
    input: Value,
    outcome: Result<HealthCheck, Failure>,
    next: Phase,
    action: Action,
) -> bool {
    match outcome {
        Ok(check) if check.status == Health::Ready => {
            if url_join(connector.base(), "predictions"@) is Some {
                asks_prediction(job, connector, json_text(input), next, action)
            } else {
                gives_up(next, action)
            }
        },
        Ok(check) if check.status == Health::SetupFailed => {
            &&& next is Idle
            &&& action == Action::Receive(
                Some(Note::Failed(Failure::Connector(crate::cog::Error::SetupFailed))),
            )
        },
        _ => {
            &&& next == (Phase::Health { job, connector, input, waiting: true })
            &&& action == (Action::Wait { millis: 1000 })
        },
    }
}

/// Whether `next` and `action` are how the engine looks at the server again
/// after a wait.
pub open spec fn looks_again(
    job: Job,
    connector: Connector,
    input: Value,
    next: Phase,
    action: Action,
) -> bool {
    if url_join(connector.base(), "health-check"@) is Some {
        asks_health(job, connector, input, next, action)
    } else {
        gives_up(next, action)
    }
}

/// The bytes that the answer `response` of the server is stored as.
pub open spec fn stored_as(response: PredictionResponse) -> Seq<u8> {
    result_text(
        json_string(status_text(response.status)),
        opt_value_text(response.output),
        opt_string_text(response.error),
        opt_string_text(response.started_at),
        opt_string_text(response.completed_at),
    )
}

/// Whether `next` and `action` are how the engine goes on given the outcome
/// `encoded` of writing the result for `job`: the bytes go up under their
/// digest, or the request is given up with the failure.
pub open spec fn result_encoded(
    job: Job,
    encoded: Result<Vec<u8>, Failure>,
    next: Phase,
    action: Action,
) -> bool {
    match encoded {
        Ok(bytes) => {
            &&& next matches Phase::Upload { job: kept, content_id }
            &&& kept == job
            &&& content_id@ == blake2_256(bytes@)
            &&& action matches Action::Upload(upload)
            &&& carries(upload, bytes@)
        },
        Err(failure) => next is Idle && action == Action::Receive(Some(Note::Failed(failure))),
    }
}

/// Whether `next` and `action` are how the engine goes on when the server
/// answered the prediction for `job` with `reply`.
pub open spec fn predicted(job: Job, reply: Reply, next: Phase, action: Action) -> bool {
    match reply {
        Reply::Answer(response) => {
            &&& next matches Phase::Upload { job: kept, content_id }
            &&& kept == job
            &&& content_id@ == blake2_256(stored_as(response))
            &&& action matches Action::Upload(upload)
            &&& carries(upload, stored_as(response))
        },
        Reply::Rejected(complaint) => {
            &&& next is Idle
            &&& action == Action::Receive(
                Some(
                    Note::Failed(
                        Failure::Connector(
                            crate::cog::Error::InputValidation { errors: complaint.detail },
                        ),
                    ),
                ),
            )
        },
        Reply::Failed(failure) => next is Idle && action == Action::Receive(
            Some(Note::Failed(failure)),
        ),
    }
}

/// Whether `next` and `action` are how the engine goes on when storing the
/// result for `job` under `content_id` came to `outcome`.
pub open spec fn uploaded(
    job: Job,
    content_id: ContentId,
    outcome: Result<(), Failure>,
    next: Phase,
    action: Action,
) -> bool {
    match outcome {
        Ok(_) => {
            &&& next is Response
            &&& action == (Action::ResponseCreate {
                agreement_id: job.agreement_id,
                request_index: job.request_index,
                content_id,
            })
        },
        Err(failure) => next is Idle && action == Action::Receive(Some(Note::Failed(failure))),
    }
}

/// Asks the server behind `connector` how it is.
fn ask_health(job: Job, connector: Connector, input: Value) -> (step: (Phase, Action))
    ensures
        looks_again(job, connector, input, step.0, step.1),
{
    match connector.health_check() {
        Ok(request) => (
            Phase::Health { job, connector, input, waiting: false },
            Action::HealthCheck(request),
        ),
        Err(failure) => (Phase::Idle, Action::Receive(Some(Note::Failed(failure)))),
    }
}

/// Begins the work on `job` with its content.
fn begin(job: Job, content: Vec<u8>) -> (step: (Phase, Action))
    ensures
        prediction_begun(job, content@, step.0, step.1),
{
    let input = match parse(&content) {
        Ok(input) => input,
        Err(words) => {
            return (Phase::Idle, Action::Receive(Some(Note::Failed(Failure::Outside(words)))));
        },
    };
    let connector = match Connector::new(job.url.as_str()) {
        Ok(connector) => connector,
        Err(failure) => {
            return (Phase::Idle, Action::Receive(Some(Note::Failed(failure))));
        },
    };
    ask_health(job, connector, input)
}

/// Goes on after an attempt to fetch the content of `job`.
pub fn on_content(job: Job, retry: Retry, outcome: Result<Option<Vec<u8>>, Failure>) -> (step: (
    Phase,
    Action,
))
    ensures
        content_fetched(job, retry, outcome, step.0, step.1),
{
    let mut retry = retry;
    match retry.check(&outcome) {
        Some(millis) => (Phase::Content { job, retry, waiting: true }, Action::Wait { millis }),
        None => match outcome {
            Ok(Some(content)) => begin(job, content),
            Ok(None) => (Phase::Idle, Action::Receive(Some(Note::ContentNotFound))),
            Err(failure) => (Phase::Idle, Action::Receive(Some(Note::Failed(failure)))),
        },
    }
}

/// Goes on once the server is ready and the input has been written as JSON,
/// or could not be.
pub fn on_input_written(job: Job, connector: Connector, written: Result<Vec<u8>, String>) -> (step:
    (Phase, Action))
    ensures
        input_written(job, connector, written, step.0, step.1),
{
    match connector.predict_written(written) {
        Ok(request) => (Phase::Prediction { job }, Action::Predict(request)),
        Err(failure) => (Phase::Idle, Action::Receive(Some(Note::Failed(failure)))),
    }
}

/// Goes on after a look at the server's health.
pub fn on_health(
    job: Job,
    connector: Connector,
    input: Value,
    outcome: Result<HealthCheck, Failure>,
) -> (step: (Phase, Action))
    ensures
        health_seen(job, connector, input, outcome, step.0, step.1),
{
    match connector.ensure_ready(&outcome) {
        crate::cog::Probe::Ready => {
            let written = write_value(&input);
            on_input_written(job, connector, written)
        },
        crate::cog::Probe::Failed(error) => (
            Phase::Idle,
            Action::Receive(Some(Note::Failed(Failure::Connector(error)))),
        ),
        crate::cog::Probe::Wait(millis) => (
            Phase::Health { job, connector, input, waiting: true },
            Action::Wait { millis },
        ),
    }
}

/// Goes on once the result for `job` has been written as bytes, or could not
/// be.
pub fn on_result_encoded(job: Job, encoded: Result<Vec<u8>, Failure>) -> (step: (Phase, Action))
    ensures
        result_encoded(job, encoded, step.0, step.1),
{
    match encoded {
        Ok(bytes) => {
            let upload = hash_upload(bytes);
            (Phase::Upload { job, content_id: upload.content_id }, Action::Upload(upload))
        },
        Err(failure) => (Phase::Idle, Action::Receive(Some(Note::Failed(failure)))),
    }
}

/// Goes on after the server's answer to the prediction for `job`.
pub fn on_predicted(job: Job, reply: Reply) -> (step: (Phase, Action))
    ensures
        predicted(job, reply, step.0, step.1),
{
    match Connector::prediction(reply) {
        Ok(response) => {
            let result = ExecutionResult::from(response);
            assert(result.encoded() == stored_as(response));
            on_result_encoded(job, result.encode())
        },
        Err(failure) => (Phase::Idle, Action::Receive(Some(Note::Failed(failure)))),
    }
}

/// Goes on after the attempt to store the result for `job`.
pub fn on_uploaded(job: Job, content_id: ContentId, outcome: Result<(), Failure>) -> (step: (
    Phase,
    Action,
))
    ensures
        uploaded(job, content_id, outcome, step.0, step.1),
{
    match outcome {
        Ok(()) => (
            Phase::Response,
            Action::ResponseCreate {
                agreement_id: job.agreement_id,
                request_index: job.request_index,
                content_id,
            },
        ),
        Err(failure) => (Phase::Idle, Action::Receive(Some(Note::Failed(failure)))),
    }
}

/// Whether `next`, `action` and the agreements `known_after` are the engine's
/// answer to `event` in phase `phase`, knowing the agreements `known` while
/// the models `served` are served. An event that answers nothing the phase
/// asked for ends the engine.
pub open spec fn answers(
    phase: Phase,
    known: Map<AgreementId, Seq<char>>,
    served: Map<Seq<char>, ModelDetailsView>,
    event: Event,
    known_after: Map<AgreementId, Seq<char>>,
    next: Phase,
    action: Action,
) -> bool {
    match (phase, event) {
        (_, Event::Cancelled) => {
            &&& known_after == known
            &&& next is Stopped
            &&& action == finished_cleanly()
        },
        (Phase::Idle, Event::Received(Received::Event(chain_event))) => {
            &&& known_after == known
            &&& reacts(known, served, chain_event, next, action)
        },
        (Phase::Idle, Event::Received(Received::Lagged(lost))) => {
            &&& known_after == known
            &&& next is Idle
            &&& action == Action::Receive(Some(Note::Lagged(lost)))
        },
        (Phase::Idle, Event::Received(Received::Closed)) => {
            &&& known_after == known
            &&& next is Stopped
            &&& action == finished_with(Failure::Engine(Error::ReceiverClosed))
        },
        (Phase::Agreement { order_id, retry, waiting }, Event::Agreement(outcome)) if !waiting => {
            agreement_read(known, order_id, retry, outcome, known_after, next, action)
        },
        (Phase::Agreement { order_id, retry, waiting }, Event::Waited) if waiting => {
            &&& known_after == known
            &&& next == (Phase::Agreement { order_id, retry, waiting: false })
            &&& action == (Action::GetAgreement { agreement_id: order_id })
        },
        (Phase::Content { job, retry, waiting }, Event::Content(outcome)) if !waiting => {
            &&& known_after == known
            &&& content_fetched(job, retry, outcome, next, action)
        },
        (Phase::Content { job, retry, waiting }, Event::Waited) if waiting => {
            &&& known_after == known
            &&& next == (Phase::Content { job, retry, waiting: false })
            &&& action == (Action::Download { content_id: job.content_id })
        },
        (Phase::Health { job, connector, input, waiting }, Event::Health(outcome)) if !waiting => {
            &&& known_after == known
            &&& health_seen(job, connector, input, outcome, next, action)
        },
        (Phase::Health { job, connector, input, waiting }, Event::Waited) if waiting => {
            &&& known_after == known
            &&& looks_again(job, connector, input, next, action)
        },
        (Phase::Prediction { job }, Event::Predicted(reply)) => {
            &&& known_after == known
            &&& predicted(job, reply, next, action)
        },
        (Phase::Upload { job, content_id }, Event::Uploaded(outcome)) => {
            &&& known_after == known
            &&& uploaded(job, content_id, outcome, next, action)
        },
        (Phase::Response, Event::Submitted(Ok(_))) => {
            &&& known_after == known
            &&& next is Idle
            &&& action == Action::Receive(None)
        },
        (Phase::Response, Event::Submitted(Err(failure))) => {
            &&& known_after == known
            &&& next is Stopped
            &&& action == finished_with(failure)
        },
        _ => {
            &&& known_after == known
            &&& next is Stopped
            &&& action == finished_with(Failure::Engine(Error::OutOfTurn))
        },
    }
}

impl ExecutionEngine {
    /// The agreements the engine knows: agreement id to model id.
    pub closed spec fn known(&self) -> Map<AgreementId, Seq<char>> {
        self.agreements@.map_values(|model_id: ModelId| model_id@)
    }

    /// Where the engine stands.
    pub closed spec fn phase(&self) -> Phase {
        self.phase
    }

    /// An engine that knows no agreement yet and waits for its first chain
    /// event.
    pub fn new() -> (engine: ExecutionEngine)
        ensures
            engine.known() == Map::<AgreementId, Seq<char>>::empty(),
            engine.phase() is Idle,
    {
        let engine = ExecutionEngine { agreements: HashMap::new(), phase: Phase::Idle };
        assert(engine.known() =~= Map::<AgreementId, Seq<char>>::empty());
        engine
    }

    /// The model of agreement `agreement_id`, if the engine knows the
    /// agreement.
    pub fn model_of(&self, agreement_id: AgreementId) -> (model_id: Option<ModelId>)
        ensures
            model_id.is_some() == self.known().dom().contains(agreement_id),
            model_id.is_some() ==> model_id.unwrap()@ == self.known()[agreement_id],
    {
        broadcast use vstd::std_specs::hash::group_hash_axioms;

        match self.agreements.get(&agreement_id) {
            Some(model_id) => Some(model_id.clone()),
            None => None,
        }
    }

    /// Reacts to a chain event while idle. An accepted bid makes the engine
    /// read the agreement. A request is taken up exactly when its agreement
    /// is known and the agreement's model is served: then its content is
    /// fetched. Every other event is passed over.
    pub fn process_chain_event<R: ModelRepo>(&self, event: ChainEvent, repo: &R) -> (step: (
        Phase,
        Action,
    ))
        ensures
            reacts(self.known(), repo.served(), event, step.0, step.1),
    {
        broadcast use vstd::std_specs::hash::group_hash_axioms;

        match event {
            ChainEvent::BidAccepted { order_id } => (
                Phase::Agreement {
                    order_id,
                    retry: Retry::new(FIVE_TIMES, AGREEMENT_INTERVAL_MILLIS),
                    waiting: false,
                },
                Action::GetAgreement { agreement_id: order_id },
            ),
            ChainEvent::RequestCreated { agreement_id, request_index, content_id } => {
                match self.agreements.get(&agreement_id) {
                    Some(model_id) => {
                        assert(self.known()[agreement_id] == model_id@);
                        match repo.get_by_model_id(model_id) {
                            Some(model) => {
                                let job = Job {
                                    agreement_id,
                                    request_index,
                                    content_id,
                                    url: model.details.url,
                                };
                                (
                                    Phase::Content {
                                        job,
                                        retry: retry_download(FIVE_TIMES),
                                        waiting: false,
                                    },
                                    Action::Download { content_id },
                                )
                            },
                            None => (Phase::Idle, Action::Receive(Some(Note::ModelNotServed))),
                        }
                    },
                    None => (Phase::Idle, Action::Receive(None)),
                }
            },
            ChainEvent::OrderCreated { .. } => (Phase::Idle, Action::Receive(None)),
        }
    }

    /// Goes on after an attempt to read the agreement of order `order_id`:
    /// waits and asks again while the agreement is missing or the read fails
    /// and retries are left; otherwise remembers the agreement's model, or
    /// gives the event up.
    fn on_agreement(
        &mut self,
        order_id: OrderId,
        retry: Retry,
        outcome: Result<Option<AgreementDetails>, Failure>,
    ) -> (step: (Phase, Action))
        ensures
            agreement_read(
                old(self).known(),
                order_id,
                retry,
                outcome,
                final(self).known(),
                step.0,
                step.1,
            ),
            final(self).phase == old(self).phase,
    {
        broadcast use vstd::std_specs::hash::group_hash_axioms;

        let mut retry = retry;
        match retry.check(&outcome) {
            Some(millis) => (
                Phase::Agreement { order_id, retry, waiting: true },
                Action::Wait { millis },
            ),
            None => match outcome {
                Ok(Some(details)) => {
                    self.agreements.insert(order_id, details.model_id);
                    assert(self.known() =~= old(self).known().insert(order_id, details.model_id@));
                    (Phase::Idle, Action::Receive(None))
                },
                Ok(None) => (Phase::Idle, Action::Receive(Some(Note::AgreementNotFound))),
                Err(failure) => (Phase::Idle, Action::Receive(Some(Note::Failed(failure)))),
            },
        }
    }
}

impl Engine for ExecutionEngine {
    closed spec fn stopped(&self) -> bool {
        self.phase is Stopped
    }

    /// One step of the execution engine, as [`answers`] says.
    fn run<R: ModelRepo>(&mut self, event: Event, repo: &R) -> (action: Action)
        ensures
            answers(
                old(self).phase(),
                old(self).known(),
                repo.served(),
                event,
                final(self).known(),
                final(self).phase(),
                action,
            ),
    {
        let mut phase = Phase::Stopped;
        std::mem::swap(&mut self.phase, &mut phase);
        let (next, action) = match (phase, event) {
            (_, Event::Cancelled) => (Phase::Stopped, Action::Finish(Ok(()))),
            (Phase::Idle, Event::Received(Received::Event(chain_event))) => {
                self.process_chain_event(chain_event, repo)
            },
            (Phase::Idle, Event::Received(Received::Lagged(lost))) => (
                Phase::Idle,
                Action::Receive(Some(Note::Lagged(lost))),
            ),
            (Phase::Idle, Event::Received(Received::Closed)) => (
                Phase::Stopped,
                Action::Finish(Err(Failure::Engine(Error::ReceiverClosed))),
            ),
            (Phase::Agreement { order_id, retry, waiting: false }, Event::Agreement(outcome)) => {
                self.on_agreement(order_id, retry, outcome)
            },
            (Phase::Agreement { order_id, retry, waiting: true }, Event::Waited) => (
                Phase::Agreement { order_id, retry, waiting: false },
                Action::GetAgreement { agreement_id: order_id },
            ),
            (Phase::Content { job, retry, waiting: false }, Event::Content(outcome)) => {
                on_content(job, retry, outcome)
            },
            (Phase::Content { job, retry, waiting: true }, Event::Waited) => {
                let content_id = job.content_id;
                (Phase::Content { job, retry, waiting: false }, Action::Download { content_id })
            },
            (
                Phase::Health { job, connector, input, waiting: false },
                Event::Health(outcome),
            ) => on_health(job, connector, input, outcome),
            (Phase::Health { job, connector, input, waiting: true }, Event::Waited) => {
                ask_health(job, connector, input)
            },
            (Phase::Prediction { job }, Event::Predicted(reply)) => on_predicted(job, reply),
            (Phase::Upload { job, content_id }, Event::Uploaded(outcome)) => {
                on_uploaded(job, content_id, outcome)
            },
            (Phase::Response, Event::Submitted(Ok(_))) => (Phase::Idle, Action::Receive(None)),
            (Phase::Response, Event::Submitted(Err(failure))) => (
                Phase::Stopped,
                Action::Finish(Err(failure)),
            ),
            _ => (Phase::Stopped, Action::Finish(Err(Failure::Engine(Error::OutOfTurn)))),
        };
        self.phase = next;
        action
    }
}

/// The work on a request begins exactly when the engine knows the request's
/// agreement and the agreement's model is served: then, and only then, the
/// request's content is fetched.
pub proof fn law_execution_filtering(
    known: Map<AgreementId, Seq<char>>,
    served: Map<Seq<char>, ModelDetailsView>,
    agreement_id: AgreementId,
    request_index: u32,
    content_id: ContentId,
    next: Phase,
    action: Action,
)
    requires
        reacts(
            known,
            served,
            ChainEvent::RequestCreated { agreement_id, request_index, content_id },
            next,
            action,
        ),
    ensures
        action is Download <==> takes_up(known, served, agreement_id),
        next is Content <==> takes_up(known, served, agreement_id),
        takes_up(known, served, agreement_id) ==> action == (Action::Download { content_id }),
        !takes_up(known, served, agreement_id) ==> next is Idle && action is Receive,
{
}

/// Whatever the execution engine is doing, a request for shutdown makes it
/// stop cleanly, and it forgets nothing on the way.
pub proof fn law_execution_engine_stops_on_cancel(
    phase: Phase,
    known: Map<AgreementId, Seq<char>>,
    served: Map<Seq<char>, ModelDetailsView>,
    known_after: Map<AgreementId, Seq<char>>,
    next: Phase,
    action: Action,
)
    requires
        answers(phase, known, served, Event::Cancelled, known_after, next, action),
    ensures
        next is Stopped,
        action == finished_cleanly(),
        known_after == known,
{
}

/// The engine stops exactly when it says so: with a request for shutdown,
/// with the end of the stream, with a response that could not be submitted,
/// or with an event out of turn.
pub proof fn law_execution_engine_stops_when_finished(
    phase: Phase,
    known: Map<AgreementId, Seq<char>>,
    served: Map<Seq<char>, ModelDetailsView>,
    event: Event,
    known_after: Map<AgreementId, Seq<char>>,
    next: Phase,
    action: Action,
)
    requires
        answers(phase, known, served, event, known_after, next, action),
    ensures
        next is Stopped <==> action is Finish,
{
}

} // verus!
