//! What the chain reports and what is sent back to it.

use subxt::config::substrate::BlakeTwo256;
use subxt::config::Hasher;
use vstd::prelude::*;

use crate::types::{AccountId, AgreementId, ContentId, Failure, ModelId, OrderId, same_bytes};
use crate::utils::Retry;

verus! {

/// An event of the chain that the engines react to.
#[derive(Debug)]
pub enum ChainEvent {
    /// A new order has been created.
    OrderCreated { order_id: OrderId, model_id: ModelId },
    /// A bid of this provider has been accepted.
    BidAccepted { order_id: OrderId },
    /// A request has been created.
    RequestCreated { agreement_id: AgreementId, request_index: u32, content_id: ContentId },
}

/// Mathematical value of a [`ChainEvent`].
pub enum ChainEventView {
    OrderCreated { order_id: u32, model_id: Seq<char> },
    BidAccepted { order_id: u32 },
    RequestCreated { agreement_id: u32, request_index: u32, content_id: Seq<u8> },
}

impl View for ChainEvent {
    type V = ChainEventView;

    open spec fn view(&self) -> ChainEventView {
        match *self {
            ChainEvent::OrderCreated { order_id, model_id } => ChainEventView::OrderCreated {
                order_id,
                model_id: model_id@,
            },
            ChainEvent::BidAccepted { order_id } => ChainEventView::BidAccepted { order_id },
            ChainEvent::RequestCreated {
                agreement_id,
                request_index,
                content_id,
            } => ChainEventView::RequestCreated {
                agreement_id,
                request_index,
                content_id: content_id@,
            },
        }
    }
}

impl Clone for ChainEvent {
    fn clone(&self) -> (copy: ChainEvent)
        ensures
            copy@ == self@,
    {
        match self {
            ChainEvent::OrderCreated { order_id, model_id } => ChainEvent::OrderCreated {
                order_id: *order_id,
                model_id: model_id.clone(),
            },
            ChainEvent::BidAccepted { order_id } => ChainEvent::BidAccepted { order_id: *order_id },
            ChainEvent::RequestCreated {
                agreement_id,
                request_index,
                content_id,
            } => ChainEvent::RequestCreated {
                agreement_id: *agreement_id,
                request_index: *request_index,
                content_id: *content_id,
            },
        }
    }
}

/// What ends the listener.
#[derive(Debug)]
pub enum Error {
    /// The subscription to new blocks handed over no next block.
    NextBlock,
}

/// The events of the chain that matter here, told apart by pallet and name.
#[derive(Clone, Copy, Debug, PartialEq, Eq, Structural)]
pub enum EventKind {
    OrderCreated,
    BidAccepted,
    RequestCreated,
    Other,
}

/// The kind of the event that pallet `pallet` emits under `name`.
pub open spec fn kind_of(pallet: Seq<char>, name: Seq<char>) -> EventKind {
    if pallet == "airo_market"@ && name == "OrderCreated"@ {
        EventKind::OrderCreated
    } else if pallet == "airo_market"@ && name == "BidAccepted"@ {
        EventKind::BidAccepted
    } else if pallet == "airo_execution"@ && name == "RequestCreated"@ {
        EventKind::RequestCreated
    } else {
        EventKind::Other
    }
}

/// Whether `text` reads exactly as `word`.
fn reads(text: &str, word: &str) -> (same: bool)
    ensures
        same == (text@ == word@),
{
    text.to_owned() == word.to_owned()
}

/// Tells the events that matter from the rest, by pallet and name.
pub fn event_kind(pallet: &str, name: &str) -> (kind: EventKind)
    ensures
        kind == kind_of(pallet@, name@),
{
    if reads(pallet, "airo_market") && reads(name, "OrderCreated") {
        EventKind::OrderCreated
    } else if reads(pallet, "airo_market") && reads(name, "BidAccepted") {
        EventKind::BidAccepted
    } else if reads(pallet, "airo_execution") && reads(name, "RequestCreated") {
        EventKind::RequestCreated
    } else {
        EventKind::Other
    }
}

/// The text that a byte string stands for when every ill-formed part of it
/// is read as U+FFFD.
pub uninterp spec fn utf8_lossy(bytes: Seq<u8>) -> Seq<char>;

/// `String::from_utf8_lossy`: the bytes read as UTF-8, ill-formed parts
/// replaced.
#[verifier::external_body]
fn text_of(bytes: &Vec<u8>) -> (text: String)
    ensures
        text@ == utf8_lossy(bytes@),
{
    String::from_utf8_lossy(bytes).into_owned()
}

/// The model id that the chain carries as `bytes`: the bytes read as text,
/// ill-formed parts replaced.
pub fn model_id_of(bytes: &Vec<u8>) -> (id: ModelId)
    ensures
        id@ == utf8_lossy(bytes@),
{
    text_of(bytes)
}

/// The decoded fields of an event that matters.
#[derive(Debug)]
pub enum EventFields {
    OrderCreated { order_id: OrderId, model_id: Vec<u8> },
    BidAccepted { order_id: OrderId, provider: AccountId },
    RequestCreated { agreement_id: AgreementId, request_index: u32, content_id: ContentId },
}

/// An event as a block carries it: where it comes from and, for the kinds
/// that matter, what it says.
#[derive(Debug)]
pub struct RawEvent {
    pub pallet: String,
    pub name: String,
    pub fields: Option<EventFields>,
}

/// What the engines get to see of `event`, for the provider `provider`:
/// orders and requests as they are, accepted bids only when they are the
/// provider's own, and nothing of an event whose fields are not those of its
/// kind.
pub open spec fn surfaced(event: RawEvent, provider: Seq<u8>) -> Option<ChainEventView> {
    match (kind_of(event.pallet@, event.name@), event.fields) {
        (
            EventKind::OrderCreated,
            Some(EventFields::OrderCreated { order_id, model_id }),
        ) => Some(ChainEventView::OrderCreated { order_id, model_id: utf8_lossy(model_id@) }),
        (EventKind::BidAccepted, Some(EventFields::BidAccepted { order_id, provider: bidder })) => {
            if bidder@ == provider {
                Some(ChainEventView::BidAccepted { order_id })
            } else {
                None
            }
        },
        (
            EventKind::RequestCreated,
            Some(EventFields::RequestCreated { agreement_id, request_index, content_id }),
        ) => Some(
            ChainEventView::RequestCreated {
                agreement_id,
                request_index,
                content_id: content_id@,
            },
        ),
        _ => None,
    }
}

/// Maps one event of a block to what the engines see of it.
pub fn map_event(event: &RawEvent, provider: &AccountId) -> (mapped: Option<ChainEvent>)
    ensures
        mapped.is_some() == surfaced(*event, provider@).is_some(),
        mapped.is_some() ==> mapped.unwrap()@ == surfaced(*event, provider@).unwrap(),
{
    let kind = event_kind(event.pallet.as_str(), event.name.as_str());
    match (kind, &event.fields) {
        (EventKind::OrderCreated, Some(EventFields::OrderCreated { order_id, model_id })) => {
            Some(ChainEvent::OrderCreated { order_id: *order_id, model_id: model_id_of(model_id) })
        },
        (EventKind::BidAccepted, Some(EventFields::BidAccepted { order_id, provider: bidder })) => {
            if same_bytes(&bidder.0, &provider.0) {
                Some(ChainEvent::BidAccepted { order_id: *order_id })
            } else {
                None
            }
        },
        (
            EventKind::RequestCreated,
            Some(EventFields::RequestCreated { agreement_id, request_index, content_id }),
        ) => Some(
            ChainEvent::RequestCreated {
                agreement_id: *agreement_id,
                request_index: *request_index,
                content_id: *content_id,
            },
        ),
        _ => None,
    }
}

/// Whether every entry of `entries` could be read.
pub open spec fn intact(entries: Seq<Result<RawEvent, Failure>>) -> bool {
    forall|i: int| 0 <= i < entries.len() ==> (#[trigger] entries[i]) is Ok
}

/// What one readable entry adds to what is published.
pub open spec fn surfaced_seq(event: RawEvent, provider: Seq<u8>) -> Seq<ChainEventView> {
    match surfaced(event, provider) {
        Some(view) => seq![view],
        None => Seq::empty(),
    }
}

/// What is published of a block's entries: what the engines see of each entry
/// that precedes the first unreadable one, in the block's order.
pub open spec fn published(entries: Seq<Result<RawEvent, Failure>>, provider: Seq<u8>) -> Seq<
    ChainEventView,
>
    decreases entries.len(),
{
    if entries.len() == 0 {
        Seq::empty()
    } else {
        let front = published(entries.drop_last(), provider);
        match entries.last() {
            Ok(event) if intact(entries.drop_last()) => front + surfaced_seq(event, provider),
            _ => front,
        }
    }
}

/// The first unreadable entry's failure, if there is such an entry.
pub open spec fn first_failure(entries: Seq<Result<RawEvent, Failure>>) -> Option<Failure>
    decreases entries.len(),
{
    if entries.len() == 0 {
        None
    } else {
        match first_failure(entries.drop_last()) {
            Some(failure) => Some(failure),
            None => match entries.last() {
                Ok(_) => None,
                Err(failure) => Some(failure),
            },
        }
    }
}

/// The views of `events`, in order.
pub open spec fn views(events: Seq<ChainEvent>) -> Seq<ChainEventView> {
    events.map_values(|event: ChainEvent| event@)
}

/// Entries behind an unreadable one add nothing.
proof fn lemma_stops_at_failure(entries: Seq<Result<RawEvent, Failure>>, provider: Seq<u8>, at: int)
    requires
        0 <= at < entries.len(),
        entries[at] is Err,
        intact(entries.take(at)),
    ensures
        published(entries, provider) == published(entries.take(at), provider),
        first_failure(entries) == Some(entries[at]->Err_0),
    decreases entries.len(),
{
    let front = entries.drop_last();
    if at == entries.len() - 1 {
        assert(front =~= entries.take(at));
        lemma_intact_has_no_failure(front);
    } else {
        assert(front.take(at) =~= entries.take(at));
        assert(front[at] is Err);
        lemma_stops_at_failure(front, provider, at);
    }
}

/// Among readable entries there is no first failure.
proof fn lemma_intact_has_no_failure(entries: Seq<Result<RawEvent, Failure>>)
    requires
        intact(entries),
    ensures
        first_failure(entries) is None,
    decreases entries.len(),
{
    if entries.len() > 0 {
        assert(entries.last() is Ok);
        lemma_intact_has_no_failure(entries.drop_last());
    }
}

/// Goes through the entries of one block in order and collects what is to be
/// published to the engines. Reading stops at the first unreadable entry: what
/// was collected before it is still published, and its failure is handed back.
pub fn process_block(entries: Vec<Result<RawEvent, Failure>>, provider: &AccountId) -> (outcome: (
    Vec<ChainEvent>,
    Result<(), Failure>,
))
    ensures
        views(outcome.0@) == published(entries@, provider@),
        outcome.1 is Ok == intact(entries@),
        outcome.1 is Err ==> Some(outcome.1->Err_0) == first_failure(entries@),
{
    let ghost all = entries@;
    let mut out: Vec<ChainEvent> = Vec::new();
    proof {
        assert(all.take(0) =~= Seq::empty());
        assert(views(out@) =~= published(all.take(0), provider@));
    }
    for entry in iter: entries
        invariant
            iter.seq() == all,
            intact(all.take(iter.index() as int)),
            views(out@) == published(all.take(iter.index() as int), provider@),
    {
        let ghost done = iter.index() as int;
        match entry {
            Ok(event) => {
                let mapped = map_event(&event, provider);
                let ghost before = out@;
                if let Some(chain_event) = mapped {
                    out.push(chain_event);
                }
                proof {
                    let next = all.take(done + 1);
                    assert(next.drop_last() =~= all.take(done));
                    assert(next.last() == all[done]);
                    assert(views(out@) =~= views(before) + surfaced_seq(event, provider@));
                    assert(intact(next));
                }
            },
            Err(failure) => {
                proof {
                    lemma_stops_at_failure(all, provider@, done);
                }
                return (out, Err(failure));
            },
        }
    }
    proof {
        assert(all.take(all.len() as int) =~= all);
        lemma_intact_has_no_failure(all);
    }
    (out, Ok(()))
}

/// Whether `entry` is a readable report that the bid of `provider` on order
/// `order_id` was accepted.
pub open spec fn reports_own_bid(
    entry: Result<RawEvent, Failure>,
    provider: Seq<u8>,
    order_id: u32,
) -> bool {
    match entry {
        Ok(event) => kind_of(event.pallet@, event.name@) == EventKind::BidAccepted && match event.fields {
            Some(EventFields::BidAccepted { order_id: accepted, provider: bidder }) => accepted
                == order_id && bidder@ == provider,
            _ => false,
        },
        Err(_) => false,
    }
}

/// Accepted bids of other providers never reach the engines: every accepted
/// bid among what is published of a block is reported by an entry of that block
/// that names this provider as the bidder.
pub proof fn law_foreign_bids_are_dropped(
    entries: Seq<Result<RawEvent, Failure>>,
    provider: Seq<u8>,
    at: int,
)
    requires
        0 <= at < published(entries, provider).len(),
        published(entries, provider)[at] is BidAccepted,
    ensures
        exists|j: int|
            0 <= j < entries.len() && reports_own_bid(
                #[trigger] entries[j],
                provider,
                published(entries, provider)[at]->BidAccepted_order_id,
            ),
    decreases entries.len(),
{
    let front = entries.drop_last();
    let before = published(front, provider);
    if at < before.len() {
        assert(published(entries, provider)[at] == before[at]);
        law_foreign_bids_are_dropped(front, provider, at);
        let j = choose|j: int|
            0 <= j < front.len() && reports_own_bid(
                #[trigger] front[j],
                provider,
                before[at]->BidAccepted_order_id,
            );
        assert(entries[j] == front[j]);
    } else {
        let last = entries.len() - 1;
        assert(reports_own_bid(
            entries[last],
            provider,
            published(entries, provider)[at]->BidAccepted_order_id,
        ));
    }
}

/// What the subscription to finalized blocks handed over, or that the
/// shutdown signal came first.
#[derive(Debug)]
pub enum Delivery {
    /// The next block with the entries of its event list, or why the block or
    /// its events could not be had.
    Block(Result<Vec<Result<RawEvent, Failure>>, Failure>),
    /// The subscription has no next block.
    Ended,
    /// Shutdown was asked for.
    Cancelled,
}

/// What the listener does with a delivery.
#[derive(Debug)]
pub struct Heard {
    /// The events to publish to the engines, in order.
    pub publish: Vec<ChainEvent>,
    /// `None` to go on listening; otherwise how listening ends.
    pub verdict: Option<Result<(), Failure>>,
}

/// One turn of the listener for the provider `provider`. A block's events are
/// published as [`process_block`] says, and listening goes on unless one of
/// them was unreadable. Shutdown ends listening cleanly. A block that could
/// not be had, and a subscription that ended, end it with a failure.
pub fn listen(delivery: Delivery, provider: &AccountId) -> (heard: Heard)
    ensures
        match delivery {
            Delivery::Cancelled => heard.publish@.len() == 0 && heard.verdict == Some(
                Ok::<(), Failure>(()),
            ),
            Delivery::Ended => heard.publish@.len() == 0 && heard.verdict == Some(
                Err::<(), Failure>(Failure::Protocol(Error::NextBlock)),
            ),
            Delivery::Block(Err(failure)) => heard.publish@.len() == 0 && heard.verdict == Some(
                Err::<(), Failure>(failure),
            ),
            Delivery::Block(Ok(entries)) => {
                &&& views(heard.publish@) == published(entries@, provider@)
                &&& heard.verdict is None == intact(entries@)
                &&& heard.verdict is Some ==> heard.verdict->Some_0 is Err && Some(
                    heard.verdict->Some_0->Err_0,
                ) == first_failure(entries@)
            },
        },
{
    match delivery {
        Delivery::Cancelled => Heard { publish: Vec::new(), verdict: Some(Ok(())) },
        Delivery::Ended => Heard {
            publish: Vec::new(),
            verdict: Some(Err(Failure::Protocol(Error::NextBlock))),
        },
        Delivery::Block(Err(failure)) => Heard { publish: Vec::new(), verdict: Some(Err(failure)) },
        Delivery::Block(Ok(entries)) => {
            let (publish, read) = process_block(entries, provider);
            match read {
                Ok(()) => Heard { publish, verdict: None },
                Err(failure) => Heard { publish, verdict: Some(Err(failure)) },
            }
        },
    }
}

/// The Blake2b digest of 256 bits of a byte string.
pub uninterp spec fn blake2_256(bytes: Seq<u8>) -> Seq<u8>;

/// `BlakeTwo256::hash`: the Blake2b-256 digest of `data`.
#[verifier::external_body]
fn digest(data: &Vec<u8>) -> (id: ContentId)
    ensures
        id@ == blake2_256(data@),
{
    ContentId(BlakeTwo256::hash(data).0)
}

/// A blob on its way to the content exchange, under the id it is stored by.
#[derive(Debug)]
pub struct Upload {
    pub content_id: ContentId,
    pub data: Vec<u8>,
}

/// Whether `upload` carries exactly `data`, under the digest of `data`.
pub open spec fn carries(upload: Upload, data: Seq<u8>) -> bool {
    upload.content_id@ == blake2_256(data) && upload.data@ == data
}

/// Names `data` by its digest: the upload to make, whose content id is what
/// the chain will accept for these bytes.
pub fn hash_upload(data: Vec<u8>) -> (upload: Upload)
    ensures
        carries(upload, data@),
        upload.data == data,
{
    let content_id = digest(&data);
    Upload { content_id, data }
}

/// The rule by which a download is retried: up to `max_retries` more attempts
/// after the first, one second apart, for as long as the content is missing
/// or the request fails.
pub fn retry_download(max_retries: usize) -> (retry: Retry)
    ensures
        retry == (Retry { retries: 0, max_retries, interval_millis: 1000 }),
        retry.wf(),
{
    Retry::new(max_retries, 1000)
}

/// A download retried by the rule of [`retry_download`] makes at most
/// `max_retries + 1` attempts, and waits at most `max_retries` seconds in
/// all, whatever the exchange answers.
pub proof fn law_download_retry_bound(max_retries: usize, wanting: Seq<bool>)
    ensures
        ({
            let retry = Retry { retries: 0, max_retries, interval_millis: 1000 };
            &&& retry.attempts(wanting) <= max_retries + 1
            &&& retry.waits(wanting) <= max_retries
            &&& retry.waits(wanting) * 1000 <= max_retries * 1000
        }),
{
    let retry = Retry { retries: 0, max_retries, interval_millis: 1000 };
    retry.law_retry_bound(wanting);
}

/// Uploading the same bytes again yields the same content id.
pub proof fn law_upload_is_idempotent(first: Upload, second: Upload, data: Seq<u8>)
    requires
        carries(first, data),
        carries(second, data),
    ensures
        first.content_id@ == second.content_id@,
        first.data@ == second.data@,
{
}

/// An exchange that keeps what it is sent, modelled as a map from content id
/// to bytes, after it has taken in `upload`.
pub open spec fn after_upload(store: Map<Seq<u8>, Seq<u8>>, upload: Upload) -> Map<
    Seq<u8>,
    Seq<u8>,
> {
    store.insert(upload.content_id@, upload.data@)
}

/// What such an exchange answers to a download of `content_id`.
pub open spec fn download_from(store: Map<Seq<u8>, Seq<u8>>, content_id: Seq<u8>) -> Option<
    Seq<u8>,
> {
    if store.dom().contains(content_id) {
        Some(store[content_id])
    } else {
        None
    }
}

/// Bytes that went up under their digest come down again under it, whatever
/// the exchange held before.
pub proof fn law_content_round_trip(store: Map<Seq<u8>, Seq<u8>>, upload: Upload, data: Seq<u8>)
    requires
        carries(upload, data),
    ensures
        download_from(after_upload(store, upload), upload.content_id@) == Some(data),
        download_from(after_upload(store, upload), blake2_256(data)) == Some(data),
{
}

} // verus!
