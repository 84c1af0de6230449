//! JSON values, read from bytes and written back to bytes.

use serde_json::Value;
use vstd::prelude::*;

verus! {

/// `serde_json::Value`, taken as it is: nothing of its inside is known here.
#[verifier::external_type_specification]
#[verifier::external_body]
pub struct ExValue(Value);

/// The compact JSON text that a value is written as.
pub uninterp spec fn json_text(value: Value) -> Seq<u8>;

/// The compact JSON text of the value that `bytes` reads as, if `bytes` is
/// one JSON text.
pub uninterp spec fn json_parse(bytes: Seq<u8>) -> Option<Seq<u8>>;

/// The JSON string literal that stands for `text`, quotes included.
pub uninterp spec fn json_string(text: Seq<char>) -> Seq<u8>;

/// `serde_json::from_slice` at `Value`: the value that the bytes read as, or
/// in words why they are no JSON text.
#[verifier::external_body]
pub(crate) fn parse(bytes: &Vec<u8>) -> (parsed: Result<Value, String>)
    ensures
        parsed is Ok == json_parse(bytes@) is Some,
        parsed is Ok ==> Some(json_text(parsed->Ok_0)) == json_parse(bytes@),
{
    serde_json::from_slice::<Value>(bytes).map_err(|e| e.to_string())
}

/// `serde_json::to_vec` on a `Value`: its compact JSON text. Writing does not
/// fail: the serializer fails only where its writer does or a map's key is no
/// string, the writer is a vector, and the keys of a `Value` are strings.
#[verifier::external_body]
pub(crate) fn write_value(value: &Value) -> (written: Result<Vec<u8>, String>)
    ensures
        written is Ok,
        written->Ok_0@ == json_text(*value),
{
    serde_json::to_vec(value).map_err(|e| e.to_string())
}

/// `serde_json::to_vec` on a `str`: the JSON string literal for it. Writing
/// does not fail: the serializer fails only where its writer does, and the
/// writer is a vector.
#[verifier::external_body]
pub(crate) fn write_string(text: &str) -> (written: Result<Vec<u8>, String>)
    ensures
        written is Ok,
        written->Ok_0@ == json_string(text@),
{
    serde_json::to_vec(text).map_err(|e| e.to_string())
}

/// Appends `bytes` to `out`.
pub(crate) fn push_all(out: &mut Vec<u8>, bytes: &[u8])
    ensures
        final(out)@ == old(out)@ + bytes@,
{
    let mut i: usize = 0;
    while i < bytes.len()
        invariant
            i <= bytes@.len(),
            out@ == old(out)@ + bytes@.take(i as int),
        decreases bytes@.len() - i,
    {
        out.push(bytes[i]);
        assert(bytes@.take(i + 1) =~= bytes@.take(i as int).push(bytes@[i as int]));
        i += 1;
    }
    assert(bytes@.take(i as int) =~= bytes@);
}

} // verus!
