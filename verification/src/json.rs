//! The JSON boundary.
//!
//! Custom-JSON operations arrive as raw bytes. serde_json splits a body
//! into its podping documents (one, or one per element of a batched array)
//! and extracts from each the plain fields the schema classification
//! reads, together with the document's canonical payload bytes. Both steps
//! are named as functions of the bytes alone, so everything past this
//! boundary is verified: the pipeline's contracts reach from the
//! operation's bytes to the podpings it yields.

use vstd::prelude::*;

use crate::decoder::PodpingFields;

verus! {

/// Whether a byte sequence is one well-formed JSON document, as
/// serde_json's parser accepts it.
pub uninterp spec fn json_well_formed(s: Seq<u8>) -> bool;

/// The canonical bytes of each podping document held in a well-formed JSON
/// byte sequence: each element for a JSON array (batched podpings), or the
/// single document itself — a function of the bytes alone.
pub uninterp spec fn doc_bytes_of(s: Seq<u8>) -> Seq<Seq<u8>>;

/// The plain fields extracted from one document's canonical bytes — a
/// function of those bytes alone.
pub uninterp spec fn fields_of(s: Seq<u8>) -> PodpingFields;

/// The extracted fields of each podping document in an operation body.
pub open spec fn parsed_fields_of(s: Seq<u8>) -> Seq<PodpingFields> {
    doc_bytes_of(s).map_values(|b: Seq<u8>| fields_of(b))
}

/// Relies on serde_json::from_slice::<Value> (parsing succeeds exactly on
/// well-formed JSON documents and depends on the bytes alone), on
/// Value::as_array, and on serde_json::to_vec (the canonical serialization
/// of a Value, which never fails): splits an operation body into the
/// canonical bytes of its podping documents.
#[verifier::external_body]
pub fn parse_podping_docs(bytes: &Vec<u8>) -> (r: Option<Vec<Vec<u8>>>)
    ensures
        r is Some <==> json_well_formed(bytes@),
        r matches Some(d) ==> d.deep_view() == doc_bytes_of(bytes@),
{
    let v: serde_json::Value = match serde_json::from_slice(bytes) {
        Ok(v) => v,
        Err(_) => return None,
    };
    let docs = match v.as_array() {
        Some(a) => a.clone(),
        None => vec![v],
    };
    Some(docs.iter().map(|d| serde_json::to_vec(d).unwrap_or_default()).collect())
}

/// Relies on serde_json::from_slice::<Value> and the Value accessors
/// get / as_str / as_u64, plus serde_json::to_vec for the canonical
/// payload: the plain fields of one document, a function of its bytes
/// alone. This boundary only ever hands it canonical document bytes; a
/// document that somehow fails to reparse reads as null and has no fields.
#[verifier::external_body]
pub fn extract_fields(doc: &Vec<u8>) -> (r: PodpingFields)
    ensures
        r == fields_of(doc@),
{
    let v: serde_json::Value = serde_json::from_slice(doc).unwrap_or(serde_json::Value::Null);
    PodpingFields {
        version: v.get("version").and_then(|x| x.as_str()).map(|s| s.as_bytes().to_vec()),
        has_medium: v.get("medium").is_some(),
        has_reason: v.get("reason").is_some(),
        has_iris: v.get("iris").is_some(),
        has_urls: v.get("url").is_some() || v.get("urls").is_some(),
        session_id: v.get("session_id").and_then(|x| x.as_str()).map(|s| s.as_bytes().to_vec()),
        timestamp_ns: v.get("timestamp_ns").and_then(|x| x.as_u64()),
        payload: serde_json::to_vec(&v).unwrap_or_default(),
    }
}

} // verus!
