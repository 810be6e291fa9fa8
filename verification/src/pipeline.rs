//! The three-stage ingestion pipeline for the binary-payload endpoint:
//! decompress a snappy-compressed body, validate the bytes as UTF-8 text,
//! parse the text as JSON.  Each stage fails fast with its own typed error,
//! and the classification of every input is stated exactly.

use vstd::prelude::*;
use vstd::utf8::decode_utf8;
use vstd::utf8::valid_utf8;

verus! {

#[verifier::external_type_specification]
#[verifier::external_body]
pub struct ExValue(serde_json::Value);

/// What snap's raw format makes of a byte sequence: the decompressed bytes
/// where the sequence is well-formed snappy data, nothing where it is not.
/// The decompressor's result depends on the input bytes alone.
pub uninterp spec fn snappy_decompressed(b: Seq<u8>) -> Option<Seq<u8>>;

/// Whether a text is syntactically valid JSON, as serde_json reads it.
/// The parser's verdict depends on the text alone.
pub uninterp spec fn json_parses(s: Seq<char>) -> bool;

/// Relies on snap::raw::Decoder::decompress_vec: decompression is a pure
/// function of the input bytes, returning the decompressed buffer on
/// well-formed snappy data and an error on anything else.
#[verifier::external_body]
fn decompress_snappy(body: &Vec<u8>) -> (r: Result<Vec<u8>, String>)
    ensures
        r is Ok <==> snappy_decompressed(body@) is Some,
        r matches Ok(d) ==> Some(d@) == snappy_decompressed(body@),
{
    match snap::raw::Decoder::new().decompress_vec(body) {
        Ok(d) => Ok(d),
        Err(e) => Err(e.to_string()),
    }
}

/// Relies on String::from_utf8: it succeeds exactly on valid UTF-8 input,
/// and the string it returns holds the decoded characters of that input.
#[verifier::external_body]
fn decode_text(bytes: Vec<u8>) -> (r: Result<String, String>)
    ensures
        r is Ok <==> valid_utf8(bytes@),
        r matches Ok(s) ==> s@ == decode_utf8(bytes@),
{
    match String::from_utf8(bytes) {
        Ok(s) => Ok(s),
        Err(e) => Err(e.to_string()),
    }
}

/// Relies on serde_json::from_str::<Value>: whether a text parses as JSON
/// is a function of the text alone.
#[verifier::external_body]
fn parse_json(text: &str) -> (r: Result<serde_json::Value, String>)
    ensures
        r is Ok <==> json_parses(text@),
{
    match serde_json::from_str::<serde_json::Value>(text) {
        Ok(v) => Ok(v),
        Err(e) => Err(e.to_string()),
    }
}

/// A per-request failure of the ingestion pipeline.  The three stage errors
/// carry the underlying cause text; an oversized body is rejected before the
/// first stage runs.
#[derive(Debug)]
pub enum PipelineError {
    PayloadTooLarge,
    Decompression { details: String },
    Encoding { details: String },
    Parsing { details: String },
}

/// How far a body makes it through the pipeline.
#[derive(Clone, Copy, Debug, PartialEq, Eq, Structural)]
pub enum StageOutcome {
    TooLarge,
    DecompressionFailed,
    EncodingFailed,
    ParsingFailed,
    Parsed,
}

/// The outcome the pipeline owes a body under a given payload ceiling:
/// the stages run in order and the first to fail names the outcome.
pub open spec fn spec_pipeline(b: Seq<u8>, max: nat) -> StageOutcome {
    if b.len() > max {
        StageOutcome::TooLarge
    } else {
        match snappy_decompressed(b) {
            None => StageOutcome::DecompressionFailed,
            Some(d) => if !valid_utf8(d) {
                StageOutcome::EncodingFailed
            } else if !json_parses(decode_utf8(d)) {
                StageOutcome::ParsingFailed
            } else {
                StageOutcome::Parsed
            },
        }
    }
}

/// The outcome a pipeline result reports.
pub open spec fn outcome_class(r: Result<serde_json::Value, PipelineError>) -> StageOutcome {
    match r {
        Ok(_) => StageOutcome::Parsed,
        Err(PipelineError::PayloadTooLarge) => StageOutcome::TooLarge,
        Err(PipelineError::Decompression { .. }) => StageOutcome::DecompressionFailed,
        Err(PipelineError::Encoding { .. }) => StageOutcome::EncodingFailed,
        Err(PipelineError::Parsing { .. }) => StageOutcome::ParsingFailed,
    }
}

/// Runs the three stages on a request body, short-circuiting on the first
/// failure.  A body over the ceiling is rejected before decompression; a
/// body that decompresses, decodes and parses comes back as the parsed
/// JSON value.
pub fn run_pipeline(body: &Vec<u8>, max_payload_size: usize) -> (r: Result<
    serde_json::Value,
    PipelineError,
>)
    ensures
        outcome_class(r) == spec_pipeline(body@, max_payload_size as nat),
{
    if body.len() > max_payload_size {
        return Err(PipelineError::PayloadTooLarge);
    }
    let decompressed = match decompress_snappy(body) {
        Ok(d) => d,
        Err(details) => {
            return Err(PipelineError::Decompression { details });
        },
    };
    let text = match decode_text(decompressed) {
        Ok(s) => s,
        Err(details) => {
            return Err(PipelineError::Encoding { details });
        },
    };
    let value = match parse_json(text.as_str()) {
        Ok(v) => v,
        Err(details) => {
            return Err(PipelineError::Parsing { details });
        },
    };
    Ok(value)
}

} // verus!
