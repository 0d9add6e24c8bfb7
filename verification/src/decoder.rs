//! The podping decoder.
//!
//! A custom-JSON operation carries an id, a JSON body, and the accounts
//! that authorized it. An operation is considered at all only when its id
//! is a recognized podping identifier; its body must then parse as JSON,
//! and each of its documents (one, or one per element of a batched array)
//! must match one of the five schema versions — tried newest first. The
//! decoder is pure, and its result is pinned for every operation: the
//! classification of the fields named by the JSON boundary.

use vstd::prelude::*;

use crate::json::{
    doc_bytes_of, extract_fields, json_well_formed, parse_podping_docs, parsed_fields_of,
};
use crate::podping::Podping;

verus! {

/// Why an operation carrying a recognized podping id was rejected: its
/// body was not JSON, or the JSON matched no known schema version.
#[derive(Debug, Clone, Copy, PartialEq, Eq, Structural)]
pub enum PodpingError {
    DecodeError,
    SchemaError,
}

/// One custom-JSON operation as it appears inside a raw block.
#[derive(Debug, Clone)]
pub struct CustomJsonOp {
    pub id: Vec<u8>,
    pub json: Vec<u8>,
    pub required_posting_auths: Vec<Vec<u8>>,
}

/// What the decoder made of one operation: not a podping at all (unknown
/// id — silently dropped), an invalid podping (logged and skipped), or its
/// podpings in order.
#[derive(Debug)]
pub enum DecodeOutcome {
    NotPodping,
    Invalid(PodpingError),
    Podpings(Vec<Podping>),
}

/// The id `podping`.
pub open spec fn podping_id() -> Seq<u8> {
    seq![112u8, 111u8, 100u8, 112u8, 105u8, 110u8, 103u8]
}

/// The id prefix `pp_`.
pub open spec fn pp_prefix() -> Seq<u8> {
    seq![112u8, 112u8, 95u8]
}

/// A recognized podping operation id: `podping` itself, or anything under
/// the `pp_` prefix.
pub open spec fn id_recognized(id: Seq<u8>) -> bool {
    id == podping_id() || (id.len() >= 3 && id.take(3) == pp_prefix())
}

/// Decides whether an operation id is a recognized podping id.
pub fn op_id_recognized(id: &Vec<u8>) -> (r: bool)
    ensures
        r == id_recognized(id@),
{
    if id.len() >= 3 && id[0] == 112 && id[1] == 112 && id[2] == 95 {
        proof {
            assert(id@.take(3) =~= pp_prefix());
        }
        return true;
    }
    let r = id.len() == 7 && id[0] == 112 && id[1] == 111 && id[2] == 100 && id[3] == 112 && id[4]
        == 105 && id[5] == 110 && id[6] == 103;
    proof {
        if r {
            assert(id@ =~= podping_id());
        } else {
            if id@ == podping_id() {
                assert(id@[0] == 112 && id@[1] == 111 && id@[2] == 100 && id@[3] == 112 && id@[4]
                    == 105 && id@[5] == 110 && id@[6] == 103);
            }
            if id@.len() >= 3 && id@.take(3) == pp_prefix() {
                assert(id@[0] == id@.take(3)[0] && id@[1] == id@.take(3)[1] && id@[2] == id@.take(
                    3,
                )[2]);
            }
        }
    }
    r
}

/// The plain fields the schema classification reads, extracted from one
/// parsed JSON document, together with its canonical payload bytes.
pub struct PodpingFields {
    pub version: Option<Vec<u8>>,
    pub has_medium: bool,
    pub has_reason: bool,
    pub has_iris: bool,
    pub has_urls: bool,
    pub session_id: Option<Vec<u8>>,
    pub timestamp_ns: Option<u64>,
    pub payload: Vec<u8>,
}

/// `1.1`
pub open spec fn version_11() -> Seq<u8> {
    seq![49u8, 46u8, 49u8]
}

/// `1.0`
pub open spec fn version_10() -> Seq<u8> {
    seq![49u8, 46u8, 48u8]
}

/// `0.3`
pub open spec fn version_03() -> Seq<u8> {
    seq![48u8, 46u8, 51u8]
}

/// `0.2`
pub open spec fn version_02() -> Seq<u8> {
    seq![48u8, 46u8, 50u8]
}

/// The schema classification, newest version first. The two current
/// versions require medium, reason and iris; the newest additionally
/// requires its session id and nanosecond timestamp. The three early
/// versions carried their feeds under `url`/`urls` (or `iris`), versioned
/// `0.2` / `0.3` or unversioned for the very first. Anything else matches
/// no schema.
pub open spec fn classify_spec(f: PodpingFields) -> Result<Podping, PodpingError> {
    match f.version {
        Option::Some(v) => if v@ == version_11() {
            if f.session_id is Some && f.timestamp_ns is Some && f.has_medium && f.has_reason
                && f.has_iris {
                Result::Ok(
                    Podping::V11 {
                        session_id: f.session_id->0,
                        timestamp_ns: f.timestamp_ns->0,
                        payload: f.payload,
                    },
                )
            } else {
                Result::Err(PodpingError::SchemaError)
            }
        } else if v@ == version_10() {
            if f.has_medium && f.has_reason && f.has_iris {
                Result::Ok(Podping::V10 { payload: f.payload })
            } else {
                Result::Err(PodpingError::SchemaError)
            }
        } else if v@ == version_03() {
            if f.has_urls || f.has_iris {
                Result::Ok(Podping::V03 { payload: f.payload })
            } else {
                Result::Err(PodpingError::SchemaError)
            }
        } else if v@ == version_02() {
            if f.has_urls || f.has_iris {
                Result::Ok(Podping::V02 { payload: f.payload })
            } else {
                Result::Err(PodpingError::SchemaError)
            }
        } else {
            Result::Err(PodpingError::SchemaError)
        },
        Option::None => if f.has_urls {
            Result::Ok(Podping::V0 { payload: f.payload })
        } else {
            Result::Err(PodpingError::SchemaError)
        },
    }
}

/// The classification of a whole operation body: every document must match
/// a schema, and the podpings come out in document order.
pub open spec fn classify_all(docs: Seq<PodpingFields>) -> Result<Seq<Podping>, PodpingError>
    decreases docs.len(),
{
    if docs.len() == 0 {
        Result::Ok(Seq::empty())
    } else {
        match classify_all(docs.drop_last()) {
            Result::Ok(ps) => match classify_spec(docs.last()) {
                Result::Ok(p) => Result::Ok(ps.push(p)),
                Result::Err(e) => Result::Err(e),
            },
            Result::Err(e) => Result::Err(e),
        }
    }
}

/// A batch can only fail as a schema error: no single document classifies
/// to any other error.
pub proof fn lemma_classify_all_err_is_schema(docs: Seq<PodpingFields>)
    ensures
        classify_all(docs) is Err ==> classify_all(docs) == Result::<
            Seq<Podping>,
            PodpingError,
        >::Err(PodpingError::SchemaError),
    decreases docs.len(),
{
    if docs.len() > 0 {
        lemma_classify_all_err_is_schema(docs.drop_last());
    }
}

/// One document that matches no schema fails the whole batch.
pub proof fn lemma_classify_all_err(docs: Seq<PodpingFields>, k: int)
    requires
        0 <= k < docs.len(),
        classify_spec(docs[k]) is Err,
    ensures
        classify_all(docs) == Result::<Seq<Podping>, PodpingError>::Err(PodpingError::SchemaError),
    decreases docs.len(),
{
    if k < docs.len() - 1 {
        assert(docs.drop_last()[k] == docs[k]);
        lemma_classify_all_err(docs.drop_last(), k);
    }
    lemma_classify_all_err_is_schema(docs);
}

/// Classifies extracted fields into a schema version, newest first.
pub fn classify_fields(f: PodpingFields) -> (r: Result<Podping, PodpingError>)
    ensures
        r == classify_spec(f),
{
    match f.version {
        Some(v) => {
            if eq3(&v, 49, 46, 49) {
                match (f.session_id, f.timestamp_ns) {
                    (Some(session_id), Some(timestamp_ns)) => {
                        if f.has_medium && f.has_reason && f.has_iris {
                            Ok(Podping::V11 { session_id, timestamp_ns, payload: f.payload })
                        } else {
                            Err(PodpingError::SchemaError)
                        }
                    },
                    _ => Err(PodpingError::SchemaError),
                }
            } else if eq3(&v, 49, 46, 48) {
                if f.has_medium && f.has_reason && f.has_iris {
                    Ok(Podping::V10 { payload: f.payload })
                } else {
                    Err(PodpingError::SchemaError)
                }
            } else if eq3(&v, 48, 46, 51) {
                if f.has_urls || f.has_iris {
                    Ok(Podping::V03 { payload: f.payload })
                } else {
                    Err(PodpingError::SchemaError)
                }
            } else if eq3(&v, 48, 46, 50) {
                if f.has_urls || f.has_iris {
                    Ok(Podping::V02 { payload: f.payload })
                } else {
                    Err(PodpingError::SchemaError)
                }
            } else {
                Err(PodpingError::SchemaError)
            }
        },
        None => {
            if f.has_urls {
                Ok(Podping::V0 { payload: f.payload })
            } else {
                Err(PodpingError::SchemaError)
            }
        },
    }
}

/// Decides whether `v` is the three bytes `a b c`.
fn eq3(v: &Vec<u8>, a: u8, b: u8, c: u8) -> (r: bool)
    ensures
        r == (v@ == seq![a, b, c]),
{
    let r = v.len() == 3 && v[0] == a && v[1] == b && v[2] == c;
    proof {
        if r {
            assert(v@ =~= seq![a, b, c]);
        } else if v@ == seq![a, b, c] {
            assert(v@[0] == a && v@[1] == b && v@[2] == c);
        }
    }
    r
}

/// Decodes one custom-JSON operation: unknown ids are silently not
/// podpings; a body that is not JSON is a decode error; well-formed JSON
/// yields exactly the classification of its documents — their podpings in
/// order, or a schema error.
pub fn decode_operation(op: &CustomJsonOp) -> (r: DecodeOutcome)
    ensures
        !id_recognized(op.id@) ==> r is NotPodping,
        id_recognized(op.id@) && !json_well_formed(op.json@) ==> r == DecodeOutcome::Invalid(
            PodpingError::DecodeError,
        ),
        id_recognized(op.id@) && json_well_formed(op.json@) ==> (match classify_all(
            parsed_fields_of(op.json@),
        ) {
            Result::Ok(ps) => r matches DecodeOutcome::Podpings(v) && v@ == ps,
            Result::Err(_) => r == DecodeOutcome::Invalid(PodpingError::SchemaError),
        }),
{
    if !op_id_recognized(&op.id) {
        return DecodeOutcome::NotPodping;
    }
    let docs = match parse_podping_docs(&op.json) {
        Some(d) => d,
        None => {
            return DecodeOutcome::Invalid(PodpingError::DecodeError);
        },
    };
    let ghost all = parsed_fields_of(op.json@);
    proof {
        assert(all.len() == docs@.len());
    }
    let mut out: Vec<Podping> = Vec::new();
    let mut i: usize = 0;
    while i < docs.len()
        invariant
            0 <= i <= docs@.len(),
            docs.deep_view() == doc_bytes_of(op.json@),
            all == parsed_fields_of(op.json@),
            all.len() == docs@.len(),
            id_recognized(op.id@),
            json_well_formed(op.json@),
            classify_all(all.take(i as int)) == Result::<Seq<Podping>, PodpingError>::Ok(out@),
        decreases docs@.len() - i,
    {
        let f = extract_fields(&docs[i]);
        proof {
            assert(docs.deep_view()[i as int] == docs@[i as int].deep_view());
            assert(docs@[i as int].deep_view() =~= docs@[i as int]@);
            assert(f == all[i as int]);
            assert(all.take(i + 1).drop_last() =~= all.take(i as int));
            assert(all.take(i + 1).last() == all[i as int]);
        }
        match classify_fields(f) {
            Ok(p) => {
                out.push(p);
            },
            Err(_) => {
                proof {
                    lemma_classify_all_err(all, i as int);
                }
                return DecodeOutcome::Invalid(PodpingError::SchemaError);
            },
        }
        i = i + 1;
    }
    proof {
        assert(all.take(all.len() as int) =~= all);
    }
    DecodeOutcome::Podpings(out)
}

/// The podpings one operation contributes to its transaction: none unless
/// it has a posting authority, a recognized id, a well-formed body and
/// fully classifying documents.
pub open spec fn op_podpings(op: CustomJsonOp) -> Seq<Podping> {
    if op.required_posting_auths@.len() == 0 || !id_recognized(op.id@) || !json_well_formed(
        op.json@,
    ) {
        Seq::empty()
    } else {
        match classify_all(parsed_fields_of(op.json@)) {
            Result::Ok(ps) => ps,
            Result::Err(_) => Seq::empty(),
        }
    }
}

/// Whether one operation counts as an invalid podping (one warning each):
/// a considered operation whose body failed to decode or to classify.
pub open spec fn op_skipped(op: CustomJsonOp) -> nat {
    if op.required_posting_auths@.len() > 0 && id_recognized(op.id@) && (!json_well_formed(op.json@)
        || classify_all(parsed_fields_of(op.json@)) is Err) {
        1
    } else {
        0
    }
}

/// The podpings of a whole operation sequence, in operation order.
pub open spec fn ops_podpings(ops: Seq<CustomJsonOp>) -> Seq<Podping>
    decreases ops.len(),
{
    if ops.len() == 0 {
        Seq::empty()
    } else {
        ops_podpings(ops.drop_last()) + op_podpings(ops.last())
    }
}

/// How many operations of a sequence count as invalid podpings.
pub open spec fn ops_skipped(ops: Seq<CustomJsonOp>) -> nat
    decreases ops.len(),
{
    if ops.len() == 0 {
        0
    } else {
        ops_skipped(ops.drop_last()) + op_skipped(ops.last())
    }
}

} // verus!
