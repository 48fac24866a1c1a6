//! The failure taxonomy of one pipeline run.
//!
//! Each kind names one way a run can abort; every one of them is recovered
//! by the orchestrator, reported once through the notifier, and followed by
//! the guaranteed-release cleanup. The injection stage is the lone
//! best-effort step and so has no kind here.

use vstd::prelude::*;
use vstd::string::StringExecFns;

use crate::notify::{decimal_string, spec_decimal};

verus! {

/// Why a recording attempt or a pipeline run aborted.
#[derive(Debug)]
pub enum PipelineError {
    /// No input device was found, or its configuration could not be read;
    /// the session never left `Idle`.
    DeviceUnavailable,
    /// The capture stream failed while stopping; samples already captured
    /// are kept.
    StreamFailure { detail: String },
    /// Encoder setup or the encode call failed; nothing is uploaded.
    EncodeFailure,
    /// The credential was absent, found out before any network call.
    MissingCredential,
    /// The endpoint could not be reached at the network level.
    Transport { detail: String },
    /// The endpoint answered with a non-success status.
    RemoteRejection { status: u16, body: String },
    /// The endpoint's body was not the expected document shape.
    MalformedResponse,
}

/// The notification title for each kind: failures of the remote exchange
/// are set apart from local ones.
pub open spec fn spec_title(e: PipelineError) -> Seq<char> {
    match e {
        PipelineError::Transport { .. } => "API Error"@,
        PipelineError::RemoteRejection { .. } => "API Error"@,
        PipelineError::MalformedResponse => "API Error"@,
        _ => "Error"@,
    }
}

/// The notification message for each kind.
pub open spec fn spec_message(e: PipelineError) -> Seq<char> {
    match e {
        PipelineError::DeviceUnavailable => "No input device"@,
        PipelineError::StreamFailure { detail } => "Failed to stop audio: "@ + detail@,
        PipelineError::EncodeFailure => "Audio encoding failed"@,
        PipelineError::MissingCredential => "OPENAI_API_KEY environment variable not set"@,
        PipelineError::Transport { detail } => "API request failed: "@ + detail@,
        PipelineError::RemoteRejection { status, body } => "API Error "@ + spec_decimal(
            status as nat,
        ) + ": "@ + body@,
        PipelineError::MalformedResponse => "Failed to parse API response"@,
    }
}

impl PipelineError {
    /// The title half of the one notification this failure produces.
    pub fn title(&self) -> (t: &'static str)
        ensures
            t@ == spec_title(*self),
    {
        match self {
            PipelineError::Transport { .. } => "API Error",
            PipelineError::RemoteRejection { .. } => "API Error",
            PipelineError::MalformedResponse => "API Error",
            _ => "Error",
        }
    }

    /// The message half of the one notification this failure produces.
    pub fn message(&self) -> (m: String)
        ensures
            m@ == spec_message(*self),
    {
        match self {
            PipelineError::DeviceUnavailable => String::from_str("No input device"),
            PipelineError::StreamFailure { detail } => String::from_str(
                "Failed to stop audio: ",
            ).concat(detail.as_str()),
            PipelineError::EncodeFailure => String::from_str("Audio encoding failed"),
            PipelineError::MissingCredential => String::from_str(
                "OPENAI_API_KEY environment variable not set",
            ),
            PipelineError::Transport { detail } => String::from_str("API request failed: ").concat(
                detail.as_str(),
            ),
            PipelineError::RemoteRejection { status, body } => String::from_str(
                "API Error ",
            ).concat(decimal_string(*status).as_str()).concat(": ").concat(body.as_str()),
            PipelineError::MalformedResponse => String::from_str("Failed to parse API response"),
        }
    }
}

} // verus!
