//! Decision logic of the transcription client stage.
//!
//! The stage submits the encoded payload as a file-form upload and reads a
//! `text` field out of the JSON reply. The transport itself lives outside
//! this crate; here stand the two decisions around it: whether a run may go
//! to the network at all (only with a credential in hand), and what the
//! endpoint's answer means (success text, rejection, or malformed body).

use vstd::prelude::*;
use vstd::string::StringExecFns;

use crate::errors::PipelineError;

verus! {

/// What the endpoint reply's body says: `None` when it is not a JSON
/// document at all, otherwise the characters of its `text` field — the
/// empty string when the field is absent or not a string, since the field
/// is optional in the contract as consumed.
pub uninterp spec fn transcript_field(body: Seq<char>) -> Option<Seq<char>>;

/// Relies on `serde_json::from_str` and `serde_json::Value::as_str`:
/// whether the body parses as JSON, and what its `text` field holds, are
/// functions of the body's characters alone. A document whose `text` field
/// is absent or not a string yields the empty string.
#[verifier::external_body]
fn extract_transcript(body: &str) -> (r: Option<String>)
    ensures
        r is Some <==> transcript_field(body@) is Some,
        r matches Some(t) ==> transcript_field(body@) == Some(t@),
{
    match serde_json::from_str::<serde_json::Value>(body) {
        Ok(doc) => Some(doc["text"].as_str().unwrap_or("").to_string()),
        Err(_) => None,
    }
}

/// Everything the transport needs to make the one upload request: the
/// endpoint, the full authorization header value, the payload and how to
/// present it, and the fixed model identifier.
pub struct UploadPlan {
    pub endpoint: String,
    pub authorization: String,
    pub payload: Vec<u8>,
    pub file_name: String,
    pub mime_type: String,
    pub model: String,
}

/// Gate a pipeline run on the credential. With none in hand the run aborts
/// here, before any network call can exist: the request is only ever built
/// on the `Ok` path. With a credential, the plan carries exactly the fixed
/// endpoint, file part and model identifier, and a bearer authorization
/// built from the credential.
pub fn plan_upload(credential: Option<String>, payload: Vec<u8>) -> (r: Result<
    UploadPlan,
    PipelineError,
>)
    ensures
        r is Err <==> credential is None,
        r matches Err(e) ==> e matches PipelineError::MissingCredential,
        credential matches Some(key) ==> (r matches Ok(plan) && {
            &&& plan.endpoint@ == "https://api.openai.com/v1/audio/transcriptions"@
            &&& plan.authorization@ == "Bearer "@ + key@
            &&& plan.payload@ == payload@
            &&& plan.file_name@ == "recording.mp3"@
            &&& plan.mime_type@ == "audio/mpeg"@
            &&& plan.model@ == "whisper-1"@
        }),
{
    match credential {
        None => Err(PipelineError::MissingCredential),
        Some(key) => Ok(
            UploadPlan {
                endpoint: String::from_str("https://api.openai.com/v1/audio/transcriptions"),
                authorization: String::from_str("Bearer ").concat(key.as_str()),
                payload,
                file_name: String::from_str("recording.mp3"),
                mime_type: String::from_str("audio/mpeg"),
                model: String::from_str("whisper-1"),
            },
        ),
    }
}

/// HTTP success as the stage consumes it.
pub open spec fn spec_is_success(status: u16) -> bool {
    200 <= status < 300
}

/// What one reply means, given the already-extracted `text` field. Public
/// on its own so that the meaning of any concrete reply can be reached
/// without going through the JSON library: a non-success status is a
/// rejection carrying status and body, a body that did not parse is a
/// malformed response, and otherwise the extracted text is the result.
pub fn classify_response(status: u16, body: String, parsed: Option<String>) -> (r: Result<
    String,
    PipelineError,
>)
    ensures
        !spec_is_success(status) ==> (r matches Err(e)
            && e matches PipelineError::RemoteRejection { status: s, body: b } && s == status
            && b@ == body@),
        spec_is_success(status) && parsed is None ==> (r matches Err(e)
            && e matches PipelineError::MalformedResponse),
        spec_is_success(status) ==> (parsed matches Some(text) ==> (r matches Ok(out) && out@
            == text@)),
{
    if !(200 <= status && status < 300) {
        Err(PipelineError::RemoteRejection { status, body })
    } else {
        match parsed {
            None => Err(PipelineError::MalformedResponse),
            Some(text) => Ok(text),
        }
    }
}

/// Read the endpoint's reply: parse the body and classify the outcome.
pub fn interpret_response(status: u16, body: String) -> (r: Result<String, PipelineError>)
    ensures
        !spec_is_success(status) ==> (r matches Err(e)
            && e matches PipelineError::RemoteRejection { status: s, body: b } && s == status
            && b@ == body@),
        spec_is_success(status) && transcript_field(body@) is None ==> (r matches Err(e)
            && e matches PipelineError::MalformedResponse),
        spec_is_success(status) ==> (transcript_field(body@) matches Some(text) ==> (r matches Ok(
            out,
        ) && out@ == text)),
{
    let parsed = extract_transcript(body.as_str());
    classify_response(status, body, parsed)
}

} // verus!
