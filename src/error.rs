use vstd::prelude::*;

verus! {

/// Why a webhook delivery was rejected.
#[derive(PartialEq, Eq, Structural, Clone, Copy, Debug)]
pub enum PipelineError {
    /// The request carries no event-type header.
    EventHeaderMissing,
    /// The request carries no signature header.
    SignatureMissing,
    /// The signature header lacks the `sha256=` prefix or is not hex.
    SignatureMalformed,
    /// The signature does not match the body.
    SignatureMismatch,
    /// The event envelope carries an action other than a published package.
    PayloadUnsupported,
    /// The body is not an event envelope, or lacks a field the pipeline needs.
    PayloadMalformed,
    /// The repository holds no project configuration file.
    SourceFileMissing,
    /// The project configuration is not a valid document.
    SourceFileMalformed,
    /// The configuration file could not be decoded from its transport encoding.
    TransportDecodeError,
    /// The chart index has no chart of the requested name.
    TemplateNotFound,
    /// The chart index could not be fetched.
    IndexUnreachable,
    /// The chart index could not be decoded.
    IndexMalformed,
    /// The merged values could not be serialized.
    ValuesSerializationError,
    /// The cluster refused the descriptor.
    ApplyRejected,
    /// The cluster could not be reached.
    ApplyUnreachable,
}

/// The HTTP status with which every rejection is answered.
pub const REJECTION_STATUS: u16 = 400;

pub open spec fn message_of(e: PipelineError) -> Seq<char> {
    match e {
        PipelineError::EventHeaderMissing => "Expected X-Github-Event"@,
        PipelineError::SignatureMissing => "Signature is missing."@,
        PipelineError::SignatureMalformed => "Malformed signature."@,
        PipelineError::SignatureMismatch => "Bad signature."@,
        PipelineError::PayloadUnsupported => "The supplied webhook payload type is not accepted."@,
        PipelineError::PayloadMalformed => "Unable to parse webhook request body."@,
        PipelineError::SourceFileMissing => "The project configuration file was not found."@,
        PipelineError::SourceFileMalformed => "The project configuration file is malformed."@,
        PipelineError::TransportDecodeError => "The project configuration file could not be decoded."@,
        PipelineError::TemplateNotFound => "No viable charts were found."@,
        PipelineError::IndexUnreachable => "The chart index could not be fetched."@,
        PipelineError::IndexMalformed => "The chart index is malformed."@,
        PipelineError::ValuesSerializationError => "The merged values could not be serialized."@,
        PipelineError::ApplyRejected => "The cluster rejected the application."@,
        PipelineError::ApplyUnreachable => "The cluster could not be reached."@,
    }
}

impl PipelineError {
    /// The HTTP status of the response to a rejected delivery.
    pub fn status(&self) -> (r: u16)
        ensures
            r == REJECTION_STATUS,
    {
        REJECTION_STATUS
    }

    /// The human-readable message of the response to a rejected delivery.
    pub fn message(&self) -> (r: &'static str)
        ensures
            r@ == message_of(*self),
    {
        match self {
            PipelineError::EventHeaderMissing => "Expected X-Github-Event",
            PipelineError::SignatureMissing => "Signature is missing.",
            PipelineError::SignatureMalformed => "Malformed signature.",
            PipelineError::SignatureMismatch => "Bad signature.",
            PipelineError::PayloadUnsupported => "The supplied webhook payload type is not accepted.",
            PipelineError::PayloadMalformed => "Unable to parse webhook request body.",
            PipelineError::SourceFileMissing => "The project configuration file was not found.",
            PipelineError::SourceFileMalformed => "The project configuration file is malformed.",
            PipelineError::TransportDecodeError => "The project configuration file could not be decoded.",
            PipelineError::TemplateNotFound => "No viable charts were found.",
            PipelineError::IndexUnreachable => "The chart index could not be fetched.",
            PipelineError::IndexMalformed => "The chart index is malformed.",
            PipelineError::ValuesSerializationError => "The merged values could not be serialized.",
            PipelineError::ApplyRejected => "The cluster rejected the application.",
            PipelineError::ApplyUnreachable => "The cluster could not be reached.",
        }
    }
}

} // verus!
