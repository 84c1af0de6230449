//! The engine that bids on orders for served models.

use vstd::prelude::*;

use crate::data::ModelRepo;
use crate::engine::{finished_cleanly, finished_with, Action, Engine, Error, Event, Note, Received};
use crate::protocol::{ChainEvent, ChainEventView};
use crate::types::{Failure, ModelDetailsView};

verus! {

/// Where the bid engine stands.
#[derive(Clone, Copy, Debug, PartialEq, Eq, Structural)]
pub enum BidPhase {
    /// Waiting for the next chain event.
    Idle,
    /// A bid is being submitted.
    Bidding,
    /// Stopped for good.
    Stopped,
}

/// Bids on every new order whose model is served, at the model's price.
#[derive(Debug)]
pub struct BidEngine {
    pub phase: BidPhase,
}

/// What the bid engine does about a chain event, given the models `served`:
/// one bid at the model's price on a new order for a served model, and
/// nothing otherwise.
pub open spec fn bid_for(event: ChainEventView, served: Map<Seq<char>, ModelDetailsView>) -> Action {
    match event {
        ChainEventView::OrderCreated { order_id, model_id } if served.dom().contains(model_id) => {
            Action::BidCreate { order_id, price_per_request: served[model_id].price_per_request }
        },
        _ => Action::Receive(None),
    }
}

/// Where the bid engine stands after answering with `action`.
pub open spec fn bid_phase_after(action: Action) -> BidPhase {
    match action {
        Action::BidCreate { .. } => BidPhase::Bidding,
        Action::Finish(_) => BidPhase::Stopped,
        _ => BidPhase::Idle,
    }
}

/// The bid engine's answer to `event` in phase `phase`, given the models
/// `served`.
pub open spec fn bid_answer(
    phase: BidPhase,
    event: Event,
    served: Map<Seq<char>, ModelDetailsView>,
) -> Action {
    match (phase, event) {
        (_, Event::Cancelled) => finished_cleanly(),
        (BidPhase::Idle, Event::Received(Received::Event(chain_event))) => bid_for(
            chain_event@,
            served,
        ),
        (BidPhase::Idle, Event::Received(Received::Lagged(lost))) => Action::Receive(
            Some(Note::Lagged(lost)),
        ),
        (BidPhase::Idle, Event::Received(Received::Closed)) => finished_with(
            Failure::Engine(Error::ReceiverClosed),
        ),
        (BidPhase::Bidding, Event::Submitted(Ok(_))) => Action::Receive(None),
        (BidPhase::Bidding, Event::Submitted(Err(failure))) => finished_with(failure),
        _ => finished_with(Failure::Engine(Error::OutOfTurn)),
    }
}

impl BidEngine {
    /// A bid engine that waits for its first chain event.
    pub fn new() -> (engine: BidEngine)
        ensures
            engine.phase == BidPhase::Idle,
    {
        BidEngine { phase: BidPhase::Idle }
    }

    /// Reacts to a chain event: a new order for a served model gets exactly
    /// one bid, at the price the model is served for; every other event gets
    /// none.
    pub fn process_chain_event<R: ModelRepo>(&self, event: &ChainEvent, repo: &R) -> (action: Action)
        ensures
            action == bid_for(event@, repo.served()),
    {
        match event {
            ChainEvent::OrderCreated { order_id, model_id } => {
                match repo.get_by_model_id(model_id) {
                    Some(model) => Action::BidCreate {
                        order_id: *order_id,
                        price_per_request: model.details.price_per_request,
                    },
                    None => Action::Receive(None),
                }
            },
            _ => Action::Receive(None),
        }
    }
}

impl Engine for BidEngine {
    open spec fn stopped(&self) -> bool {
        self.phase == BidPhase::Stopped
    }

    /// One step of the bid engine. While idle it bids as
    /// [`BidEngine::process_chain_event`] says, notes missed events, and
    /// fails when the stream has ended. A bid that could not be submitted
    /// ends the engine with that failure.
    fn run<R: ModelRepo>(&mut self, event: Event, repo: &R) -> (action: Action)
        ensures
            action == bid_answer(old(self).phase, event, repo.served()),
            final(self).phase == bid_phase_after(action),
    {
        let action = match (self.phase, event) {
            (_, Event::Cancelled) => Action::Finish(Ok(())),
            (BidPhase::Idle, Event::Received(Received::Event(chain_event))) => {
                self.process_chain_event(&chain_event, repo)
            },
            (BidPhase::Idle, Event::Received(Received::Lagged(lost))) => Action::Receive(
                Some(Note::Lagged(lost)),
            ),
            (BidPhase::Idle, Event::Received(Received::Closed)) => Action::Finish(
                Err(Failure::Engine(Error::ReceiverClosed)),
            ),
            (BidPhase::Bidding, Event::Submitted(Ok(_))) => Action::Receive(None),
            (BidPhase::Bidding, Event::Submitted(Err(failure))) => Action::Finish(Err(failure)),
            _ => Action::Finish(Err(Failure::Engine(Error::OutOfTurn))),
        };
        self.phase = match &action {
            Action::BidCreate { .. } => BidPhase::Bidding,
            Action::Finish(_) => BidPhase::Stopped,
            _ => BidPhase::Idle,
        };
        action
    }
}

/// A new order gets a bid exactly when its model is served, and then one bid,
/// on that order, at the price the model is served for. No other event gets a
/// bid.
pub proof fn law_bid_trigger(event: ChainEventView, served: Map<Seq<char>, ModelDetailsView>)
    ensures
        bid_for(event, served) is BidCreate <==> (event matches ChainEventView::OrderCreated {
            model_id,
            ..
        } && served.dom().contains(model_id)),
        !(bid_for(event, served) is BidCreate) ==> bid_for(event, served) == Action::Receive(None),
        match event {
            ChainEventView::OrderCreated { order_id, model_id } => served.dom().contains(model_id)
                ==> bid_for(event, served) == (Action::BidCreate {
                order_id,
                price_per_request: served[model_id].price_per_request,
            }),
            _ => true,
        },
{
}

/// Whatever the bid engine is doing, a request for shutdown makes it stop
/// cleanly.
pub proof fn law_bid_engine_stops_on_cancel(phase: BidPhase, served: Map<Seq<char>, ModelDetailsView>)
    ensures
        bid_answer(phase, Event::Cancelled, served) == finished_cleanly(),
        bid_phase_after(bid_answer(phase, Event::Cancelled, served)) == BidPhase::Stopped,
{
}

} // verus!
