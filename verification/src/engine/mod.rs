//! The engines that react to chain events.
//!
//! An engine never performs a request itself. It is told what happened, one
//! [`Event`] at a time, and answers each with the [`Action`] to perform next;
//! the outcome of that action is the next event it is told.

use vstd::prelude::*;

use crate::cog::{HealthCheck, Reply, Request};
use crate::data::ModelRepo;
use crate::protocol::{ChainEvent, Upload};
use crate::types::{AgreementDetails, AgreementId, Balance, ContentId, Failure, OrderId};

pub mod bid_engine;
pub mod execution_engine;

verus! {

/// What ends an engine.
#[derive(Debug)]
pub enum Error {
    /// The stream of chain events has no producer any more.
    ReceiverClosed,
    /// The engine was told something that answers nothing it had asked for.
    OutOfTurn,
}

/// What the stream of chain events handed over.
#[derive(Debug)]
pub enum Received {
    /// The next event.
    Event(ChainEvent),
    /// So many events were missed because the engine fell behind.
    Lagged(u64),
    /// The stream has ended.
    Closed,
}

/// What an engine is told.
#[derive(Debug)]
pub enum Event {
    /// Shutdown was asked for.
    Cancelled,
    /// Answers [`Action::Receive`].
    Received(Received),
    /// Answers [`Action::BidCreate`] and [`Action::ResponseCreate`].
    Submitted(Result<(), Failure>),
    /// Answers [`Action::GetAgreement`].
    Agreement(Result<Option<AgreementDetails>, Failure>),
    /// Answers [`Action::Download`].
    Content(Result<Option<Vec<u8>>, Failure>),
    /// Answers [`Action::Wait`].
    Waited,
    /// Answers [`Action::HealthCheck`].
    Health(Result<HealthCheck, Failure>),
    /// Answers [`Action::Predict`].
    Predicted(Reply),
    /// Answers [`Action::Upload`].
    Uploaded(Result<(), Failure>),
}

/// Why an engine gave up on an event, or what it missed.
#[derive(Debug)]
pub enum Note {
    /// So many events were missed.
    Lagged(u64),
    /// The chain did not know the agreement, even after retrying.
    AgreementNotFound,
    /// The model of the agreement is not served any more.
    ModelNotServed,
    /// The exchange did not have the content, even after retrying.
    ContentNotFound,
    /// Working on the event failed.
    Failed(Failure),
}

/// What an engine asks for next.
#[derive(Debug)]
pub enum Action {
    /// Wait for the next chain event. The note says what became of the last
    /// one, where that is worth a line in the log.
    Receive(Option<Note>),
    /// Submit a bid.
    BidCreate { order_id: OrderId, price_per_request: Balance },
    /// Read an agreement from the chain's storage.
    GetAgreement { agreement_id: AgreementId },
    /// Fetch a blob from the content exchange.
    Download { content_id: ContentId },
    /// Let so many milliseconds pass.
    Wait { millis: u64 },
    /// Ask the inference server how it is.
    HealthCheck(Request),
    /// Ask the inference server for a prediction.
    Predict(Request),
    /// Store a blob in the content exchange.
    Upload(Upload),
    /// Submit the response to a request.
    ResponseCreate { agreement_id: AgreementId, request_index: u32, content_id: ContentId },
    /// Stop: cleanly, or with what went wrong.
    Finish(Result<(), Failure>),
}

/// The clean end.
pub open spec fn finished_cleanly() -> Action {
    Action::Finish(Ok(()))
}

/// The end that a failure brings.
pub open spec fn finished_with(failure: Failure) -> Action {
    Action::Finish(Err(failure))
}

/// An engine: something that reacts to chain events, one step at a time.
pub trait Engine {
    /// Whether the engine has stopped for good.
    spec fn stopped(&self) -> bool;

    /// One step: told `event`, the engine answers with what to do next.
    /// Whatever it was doing, a request for shutdown makes it stop cleanly.
    fn run<R: ModelRepo>(&mut self, event: Event, repo: &R) -> (action: Action)
        ensures
            event is Cancelled ==> action == finished_cleanly() && final(self).stopped(),
            action is Finish == final(self).stopped(),
    ;
}

} // verus!
