//! Plain data shared by every component.

use serde_json::Value;
use vstd::prelude::*;
use vstd::string::StringSliceAdditionalSpecFns;

use crate::cog;
use crate::cog::{status_text, PredictionResponse};
use crate::json::{json_string, json_text, push_all, write_string, write_value};
use crate::engine;
use crate::protocol;

verus! {

/// An amount of the chain's currency.
pub type Balance = u128;

/// Identifier of a model, as the chain carries it.
pub type ModelId = String;

/// Identifier the chain assigns to an order.
pub type OrderId = u32;

/// Identifier of an agreement; the order it grew out of has the same number.
pub type AgreementId = OrderId;

/// Digest that names a blob in the content exchange.
#[derive(Clone, Copy, Debug)]
pub struct ContentId(pub [u8; 32]);

impl View for ContentId {
    type V = Seq<u8>;

    open spec fn view(&self) -> Seq<u8> {
        self.0@
    }
}

/// Public identity of an account on the chain.
#[derive(Clone, Copy, Debug)]
pub struct AccountId(pub [u8; 32]);

impl View for AccountId {
    type V = Seq<u8>;

    open spec fn view(&self) -> Seq<u8> {
        self.0@
    }
}

/// Whether two 32-byte values hold the same bytes.
pub fn same_bytes(a: &[u8; 32], b: &[u8; 32]) -> (same: bool)
    ensures
        same == (a@ == b@),
{
    let mut i: usize = 0;
    while i < 32
        invariant
            i <= 32,
            forall|j: int| 0 <= j < i ==> a@[j] == b@[j],
        decreases 32 - i,
    {
        if a[i] != b[i] {
            assert(a@[i as int] != b@[i as int]);
            return false;
        }
        i += 1;
    }
    assert(a@ =~= b@);
    true
}

/// What the chain stores about an agreement.
#[derive(Debug)]
pub struct AgreementDetails {
    pub model_id: ModelId,
}

/// Why something went wrong: one of the library's own errors, or the words of
/// an error raised by whoever performed a request on its behalf.
#[derive(Debug)]
pub enum Failure {
    Protocol(protocol::Error),
    Engine(engine::Error),
    Connector(cog::Error),
    Outside(String),
}

/// What the operator sets for a served model.
#[derive(Debug)]
pub struct ModelDetails {
    /// Price asked for one inference request.
    pub price_per_request: Balance,
    /// Base address of the model's inference server.
    pub url: String,
}

/// Mathematical value of a [`ModelDetails`].
pub struct ModelDetailsView {
    pub price_per_request: u128,
    pub url: Seq<char>,
}

impl View for ModelDetails {
    type V = ModelDetailsView;

    open spec fn view(&self) -> ModelDetailsView {
        ModelDetailsView { price_per_request: self.price_per_request, url: self.url@ }
    }
}

impl Clone for ModelDetails {
    fn clone(&self) -> (copy: ModelDetails)
        ensures
            copy@ == self@,
    {
        ModelDetails { price_per_request: self.price_per_request, url: self.url.clone() }
    }
}

/// A model this provider serves.
#[derive(Debug)]
pub struct Model {
    pub id: ModelId,
    pub details: ModelDetails,
}

/// Mathematical value of a [`Model`].
pub struct ModelView {
    pub id: Seq<char>,
    pub details: ModelDetailsView,
}

impl View for Model {
    type V = ModelView;

    open spec fn view(&self) -> ModelView {
        ModelView { id: self.id@, details: self.details@ }
    }
}

impl Clone for Model {
    fn clone(&self) -> (copy: Model)
        ensures
            copy@ == self@,
    {
        Model { id: self.id.clone(), details: self.details.clone() }
    }
}

impl Model {
    /// A model served under `id` on the operator's terms `details`.
    pub fn new(id: ModelId, details: ModelDetails) -> (model: Model)
        ensures
            model.id == id,
            model.details == details,
    {
        Model { id, details }
    }
}

/// What a request came to, as it is stored for the buyer.
#[derive(Debug)]
pub struct ExecutionResult {
    pub status: String,
    pub output: Option<Value>,
    pub error: Option<String>,
    pub started_at: Option<String>,
    pub completed_at: Option<String>,
}

/// The JSON text of something optional: its own text, or `null`.
pub open spec fn or_null(written: Option<Seq<u8>>) -> Seq<u8> {
    match written {
        Some(text) => text,
        None => "null".spec_bytes(),
    }
}

/// The JSON object that an execution result is stored as, given the JSON
/// text of each of its fields.
pub open spec fn result_text(
    status: Seq<u8>,
    output: Option<Seq<u8>>,
    error: Option<Seq<u8>>,
    started_at: Option<Seq<u8>>,
    completed_at: Option<Seq<u8>>,
) -> Seq<u8> {
    "{\"status\":".spec_bytes() + status + ",\"output\":".spec_bytes() + or_null(output)
        + ",\"error\":".spec_bytes() + or_null(error) + ",\"started_at\":".spec_bytes() + or_null(
        started_at,
    ) + ",\"completed_at\":".spec_bytes() + or_null(completed_at) + "}".spec_bytes()
}

/// The view of optional bytes.
pub open spec fn opt_view(written: Option<Vec<u8>>) -> Option<Seq<u8>> {
    match written {
        Some(text) => Some(text@),
        None => None,
    }
}

/// Appends the JSON text of something optional to `out`.
fn push_or_null(out: &mut Vec<u8>, written: &Option<Vec<u8>>)
    ensures
        final(out)@ == old(out)@ + or_null(
            opt_view(*written),
        ),
{
    match written {
        Some(text) => push_all(out, text.as_slice()),
        None => push_all(out, "null".as_bytes()),
    }
}

/// Frames the JSON texts of the fields of an execution result as one JSON
/// object.
pub fn frame_result(
    status: Vec<u8>,
    output: Option<Vec<u8>>,
    error: Option<Vec<u8>>,
    started_at: Option<Vec<u8>>,
    completed_at: Option<Vec<u8>>,
) -> (bytes: Vec<u8>)
    ensures
        bytes@ == result_text(
            status@,
            opt_view(output),
            opt_view(error),
            opt_view(started_at),
            opt_view(completed_at),
        ),
{
    let mut bytes: Vec<u8> = Vec::new();
    push_all(&mut bytes, "{\"status\":".as_bytes());
    push_all(&mut bytes, status.as_slice());
    push_all(&mut bytes, ",\"output\":".as_bytes());
    push_or_null(&mut bytes, &output);
    push_all(&mut bytes, ",\"error\":".as_bytes());
    push_or_null(&mut bytes, &error);
    push_all(&mut bytes, ",\"started_at\":".as_bytes());
    push_or_null(&mut bytes, &started_at);
    push_all(&mut bytes, ",\"completed_at\":".as_bytes());
    push_or_null(&mut bytes, &completed_at);
    push_all(&mut bytes, "}".as_bytes());
    bytes
}

/// The JSON text of an optional string.
pub open spec fn opt_string_text(text: Option<String>) -> Option<Seq<u8>> {
    match text {
        Some(text) => Some(json_string(text@)),
        None => None,
    }
}

/// The JSON text of an optional value.
pub open spec fn opt_value_text(value: Option<Value>) -> Option<Seq<u8>> {
    match value {
        Some(value) => Some(json_text(value)),
        None => None,
    }
}

/// Writes an optional string as JSON: nothing where there is no string, and
/// otherwise the string's JSON text.
fn write_opt_string(text: &Option<String>) -> (written: Result<Option<Vec<u8>>, String>)
    ensures
        written is Ok,
        opt_view(written->Ok_0) == opt_string_text(*text),
{
    match text {
        Some(text) => match write_string(text.as_str()) {
            Ok(bytes) => Ok(Some(bytes)),
            Err(words) => Err(words),
        },
        None => Ok(None),
    }
}

/// Writes an optional value as JSON: nothing where there is no value, and
/// otherwise the value's JSON text.
fn write_opt_value(value: &Option<Value>) -> (written: Result<Option<Vec<u8>>, String>)
    ensures
        written is Ok,
        opt_view(written->Ok_0) == opt_value_text(*value),
{
    match value {
        Some(value) => match write_value(value) {
            Ok(bytes) => Ok(Some(bytes)),
            Err(words) => Err(words),
        },
        None => Ok(None),
    }
}

impl ExecutionResult {
    /// What a prediction's answer is stored as: its status as a word, and its
    /// output, error and times as they came.
    pub fn from(response: PredictionResponse) -> (result: ExecutionResult)
        ensures
            result.status@ == status_text(response.status),
            result.output == response.output,
            result.error == response.error,
            result.started_at == response.started_at,
            result.completed_at == response.completed_at,
    {
        ExecutionResult {
            status: response.status.to_string(),
            output: response.output,
            error: response.error,
            started_at: response.started_at,
            completed_at: response.completed_at,
        }
    }

    /// The bytes this result is stored as: a JSON object of its five fields
    /// in their order, an absent field written as `null`.
    pub open spec fn encoded(&self) -> Seq<u8> {
        result_text(
            json_string(self.status@),
            opt_value_text(self.output),
            opt_string_text(self.error),
            opt_string_text(self.started_at),
            opt_string_text(self.completed_at),
        )
    }

    /// Writes this result as the bytes it is stored as. Every result can be
    /// written.
    pub fn encode(&self) -> (bytes: Result<Vec<u8>, Failure>)
        ensures
            bytes is Ok,
            bytes->Ok_0@ == self.encoded(),
    {
        let status = match write_string(self.status.as_str()) {
            Ok(written) => written,
            Err(words) => { return Err(Failure::Outside(words)); },
        };
        let output = match write_opt_value(&self.output) {
            Ok(written) => written,
            Err(words) => { return Err(Failure::Outside(words)); },
        };
        let error = match write_opt_string(&self.error) {
            Ok(written) => written,
            Err(words) => { return Err(Failure::Outside(words)); },
        };
        let started_at = match write_opt_string(&self.started_at) {
            Ok(written) => written,
            Err(words) => { return Err(Failure::Outside(words)); },
        };
        let completed_at = match write_opt_string(&self.completed_at) {
            Ok(written) => written,
            Err(words) => { return Err(Failure::Outside(words)); },
        };
        Ok(frame_result(status, output, error, started_at, completed_at))
    }
}

} // verus!
