//! Response assembly: the uniform success/failure envelope and the pure
//! mapping from a pipeline outcome to envelope and HTTP status code.

use vstd::prelude::*;

use crate::pipeline::PipelineError;
use crate::pipeline::StageOutcome;
use crate::pipeline::outcome_class;
use crate::pipeline::spec_pipeline;

verus! {

/// The outward-facing response body.  Exactly one variant is built per
/// request: `Success` carries the worker identifier, the pipeline duration
/// in whole milliseconds and the parsed value verbatim; `Failure` carries a
/// machine-stable description of the failed stage and the cause text.
pub enum ResultEnvelope {
    Success { worker_id: u32, processing_time_ms: u64, received_data: serde_json::Value },
    Failure { error: String, details: String },
}

/// The HTTP status owed to each outcome: 200 for a fully parsed body,
/// 413 for one over the ceiling, 400 for every stage failure.
pub open spec fn status_code_for(o: StageOutcome) -> u16 {
    match o {
        StageOutcome::Parsed => 200,
        StageOutcome::TooLarge => 413,
        StageOutcome::DecompressionFailed => 400,
        StageOutcome::EncodingFailed => 400,
        StageOutcome::ParsingFailed => 400,
    }
}

/// The machine-stable description of each failure outcome.
pub open spec fn stage_label(o: StageOutcome) -> Seq<char> {
    match o {
        StageOutcome::TooLarge => "Payload too large"@,
        StageOutcome::DecompressionFailed => "Failed to decompress snappy data"@,
        StageOutcome::EncodingFailed => "Failed to decode UTF-8"@,
        StageOutcome::ParsingFailed => "Failed to parse JSON"@,
        StageOutcome::Parsed => Seq::<char>::empty(),
    }
}

/// Wraps a pipeline outcome into the response envelope with its status
/// code.  A pure mapping: a success keeps the parsed value, the worker
/// identifier and the elapsed milliseconds verbatim; a failure names the
/// stage that failed and keeps its cause text.
pub fn assemble_response(
    outcome: Result<serde_json::Value, PipelineError>,
    worker_id: u32,
    elapsed_ms: u64,
) -> (r: (u16, ResultEnvelope))
    ensures
        r.0 == status_code_for(outcome_class(outcome)),
        outcome matches Ok(v) ==> r.1 == (ResultEnvelope::Success {
            worker_id,
            processing_time_ms: elapsed_ms,
            received_data: v,
        }),
        outcome is Err ==> (r.1 is Failure && r.1->error@ == stage_label(outcome_class(outcome))),
        outcome matches Err(PipelineError::Decompression { details }) ==> (r.1 matches
        ResultEnvelope::Failure { details: d, .. } && d == details),
        outcome matches Err(PipelineError::Encoding { details }) ==> (r.1 matches
        ResultEnvelope::Failure { details: d, .. } && d == details),
        outcome matches Err(PipelineError::Parsing { details }) ==> (r.1 matches
        ResultEnvelope::Failure { details: d, .. } && d == details),
        outcome matches Err(PipelineError::PayloadTooLarge) ==> (r.1 matches
        ResultEnvelope::Failure { details: d, .. } && d@
            == "Request body exceeds the configured maximum payload size"@),
{
    match outcome {
        Ok(v) => (
            200,
            ResultEnvelope::Success {
                worker_id,
                processing_time_ms: elapsed_ms,
                received_data: v,
            },
        ),
        Err(PipelineError::PayloadTooLarge) => (
            413,
            ResultEnvelope::Failure {
                error: "Payload too large".to_owned(),
                details: "Request body exceeds the configured maximum payload size".to_owned(),
            },
        ),
        Err(PipelineError::Decompression { details }) => (
            400,
            ResultEnvelope::Failure { error: "Failed to decompress snappy data".to_owned(), details },
        ),
        Err(PipelineError::Encoding { details }) => (
            400,
            ResultEnvelope::Failure { error: "Failed to decode UTF-8".to_owned(), details },
        ),
        Err(PipelineError::Parsing { details }) => (
            400,
            ResultEnvelope::Failure { error: "Failed to parse JSON".to_owned(), details },
        ),
    }
}

/// Law: an envelope reports exactly one of success and failure.
pub proof fn lemma_envelope_exclusive(e: &ResultEnvelope)
    ensures
        e is Success <==> !(e is Failure),
{
}

/// Law: a response built from a body's pipeline outcome carries status 200
/// exactly when every stage succeeds, 413 exactly when the body is over the
/// ceiling, and 400 exactly when one of the three stages rejects it.
pub proof fn lemma_status_classification(b: Seq<u8>, max: nat)
    ensures
        status_code_for(spec_pipeline(b, max)) == 200 <==> spec_pipeline(b, max)
            is Parsed,
        status_code_for(spec_pipeline(b, max)) == 413 <==> b.len() > max,
        status_code_for(spec_pipeline(b, max)) == 400 <==> (b.len() <= max && spec_pipeline(b, max)
            !is Parsed),
{
}

} // verus!
