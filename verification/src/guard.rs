//! The ingestion guard itself: content-type gate, size ceiling, parse,
//! and structural extraction, each step short-circuiting.
//!
//! `ingest_model` is the complete functional specification of the guard:
//! `ingest` returns exactly the outcome it names for every input.

use crate::json::{json_of, parse_json};
use crate::receipt::{
    receipt_model_of, Error, ErrorModel, Outcome, OutcomeModel, Receipt,
};
use vstd::prelude::*;
use vstd::string::StrSliceExecFns;

verus! {

/// An ASCII upper-case letter folded to lower case; all else unchanged.
pub open spec fn fold_ascii_case(c: char) -> char {
    if 'A' <= c && c <= 'Z' {
        ((c as u8) + 32) as char
    } else {
        c
    }
}

/// A character sequence folded to ASCII lower case.
pub open spec fn fold_case(s: Seq<char>) -> Seq<char> {
    s.map_values(|c: char| fold_ascii_case(c))
}

/// The declared media type names JSON: it equals `application/json`
/// exactly, up to ASCII case.
pub open spec fn is_json_media_type(ct: Seq<char>) -> bool {
    fold_case(ct) == "application/json"@
}

fn fold_char(c: char) -> (r: char)
    ensures
        r == fold_ascii_case(c),
{
    if 'A' <= c && c <= 'Z' {
        ((c as u8) + 32) as char
    } else {
        c
    }
}

/// Whether the declared content type is `application/json`, compared
/// case-insensitively, character by character.
#[verifier::loop_isolation(false)]
pub fn media_type_is_json(content_type: &str) -> (r: bool)
    ensures
        r == is_json_media_type(content_type@),
{
    let expected = "application/json";
    let n = content_type.unicode_len();
    if n != expected.unicode_len() {
        return false;
    }
    for i in 0..n
        invariant
            forall|k: int| 0 <= k < i ==> fold_ascii_case(content_type@[k]) == expected@[k],
    {
        let c = fold_char(content_type.get_char(i));
        if c != expected.get_char(i) {
            return false;
        }
    }
    proof {
        assert(fold_case(content_type@) =~= expected@);
    }
    true
}

/// The body handed to the guard: the bytes the transport produced, or
/// the cause of the read failure.
pub open spec fn body_model(body: &Result<Vec<u8>, String>) -> Result<Seq<u8>, Seq<char>> {
    match body {
        Ok(bytes) => Ok(bytes@),
        Err(cause) => Err(cause@),
    }
}

/// What the guard decides, step by short-circuiting step: a non-JSON
/// content type forwards; a failed read, an oversized body, malformed
/// JSON and a wrong shape reject, each with its own kind; a complete
/// document is accepted as the receipt it describes.
pub open spec fn ingest_model(
    ct: Seq<char>,
    body: Result<Seq<u8>, Seq<char>>,
    limit: nat,
) -> OutcomeModel {
    if !is_json_media_type(ct) {
        OutcomeModel::Forward
    } else {
        match body {
            Err(cause) => OutcomeModel::Reject(ErrorModel::IoFailure(cause)),
            Ok(bytes) => if bytes.len() > limit {
                OutcomeModel::Reject(ErrorModel::PayloadTooLarge)
            } else {
                match json_of(bytes) {
                    None => OutcomeModel::Reject(ErrorModel::MalformedJson),
                    Some(doc) => match receipt_model_of(doc) {
                        None => OutcomeModel::Reject(ErrorModel::StructuralMismatch),
                        Some(receipt) => OutcomeModel::Accept(receipt),
                    },
                }
            },
        }
    }
}

/// The guard. `body` is what the transport handed over: the bytes it
/// read — the caller reads no more than `limit + 1` of them, which is
/// enough to tell "at the limit" from "over it" — or the cause of the
/// read failure.
pub fn ingest(content_type: &str, body: Result<Vec<u8>, String>, limit: usize) -> (o: Outcome)
    ensures
        o@ == ingest_model(content_type@, body_model(&body), limit as nat),
{
    if !media_type_is_json(content_type) {
        return Outcome::Forward;
    }
    let bytes = match body {
        Ok(bytes) => bytes,
        Err(cause) => return Outcome::Reject(Error::IoFailure(cause)),
    };
    if bytes.len() > limit {
        return Outcome::Reject(Error::PayloadTooLarge);
    }
    let doc = match parse_json(bytes.as_slice()) {
        Some(doc) => doc,
        None => return Outcome::Reject(Error::MalformedJson),
    };
    match Receipt::from_json(&doc) {
        Ok(receipt) => Outcome::Accept(receipt),
        Err(_) => Outcome::Reject(Error::StructuralMismatch),
    }
}

/// Content-type gating: whatever the body holds and whatever the limit,
/// a request whose declared media type is not `application/json` is
/// forwarded, never rejected and never accepted.
pub proof fn lemma_content_type_gating(
    ct: Seq<char>,
    body: Result<Seq<u8>, Seq<char>>,
    limit: nat,
)
    requires
        !is_json_media_type(ct),
    ensures
        ingest_model(ct, body, limit) == OutcomeModel::Forward,
{
}

/// Size ceiling: with the media type matched, a body of more than
/// `limit` bytes is rejected as too large however it reads, and one of
/// at most `limit` bytes that parses to a complete receipt document is
/// accepted — so the ceiling is exact.
pub proof fn lemma_size_ceiling(ct: Seq<char>, bytes: Seq<u8>, limit: nat)
    requires
        is_json_media_type(ct),
    ensures
        bytes.len() > limit ==> ingest_model(ct, Ok(bytes), limit) == OutcomeModel::Reject(
            ErrorModel::PayloadTooLarge,
        ),
        bytes.len() <= limit ==> match json_of(bytes) {
            Some(doc) => match receipt_model_of(doc) {
                Some(receipt) => ingest_model(ct, Ok(bytes), limit) == OutcomeModel::Accept(
                    receipt,
                ),
                None => true,
            },
            None => true,
        },
{
}

} // verus!
