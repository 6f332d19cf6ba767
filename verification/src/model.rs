//! What is known of models, their requests and their failures.
use std::sync::Arc;

use vstd::prelude::*;

use crate::share::share;

verus! {

/// Parts of a usage report that a provider may leave out.
#[derive(Debug, Clone, Copy, PartialEq, Eq)]
pub struct UsageDetails {
    pub reasoning_tokens: Option<u64>,
    pub cached_input_tokens: Option<u64>,
}

/// The usage that one or more model requests reported.
#[derive(Debug, Clone, Copy, PartialEq, Eq)]
pub struct ModelUsage {
    pub input_tokens: u64,
    pub output_tokens: u64,
    pub total_tokens: u64,
    pub details: Option<UsageDetails>,
}

/// When one request produced its output, in milliseconds from its dispatch.
#[derive(Debug, Clone, Copy, PartialEq, Eq)]
pub struct GenerationEvidence {
    /// How long after the attempt's start the request was dispatched.
    pub dispatch_after_start_ms: Option<u64>,
    pub first_output_ms: Option<u64>,
    pub last_output_ms: Option<u64>,
    pub terminal_ms: u64,
}

/// Why a model stopped.
#[derive(Debug, PartialEq, Eq)]
pub enum ModelFinishReason {
    Stop,
    Refusal,
    ToolCalls,
    MaxOutputTokens,
    ContentFilter,
    Other { reason: String },
}

impl Clone for ModelFinishReason {
    fn clone(&self) -> (copy: Self)
        ensures
            copy == *self,
    {
        match self {
            ModelFinishReason::Stop => ModelFinishReason::Stop,
            ModelFinishReason::Refusal => ModelFinishReason::Refusal,
            ModelFinishReason::ToolCalls => ModelFinishReason::ToolCalls,
            ModelFinishReason::MaxOutputTokens => ModelFinishReason::MaxOutputTokens,
            ModelFinishReason::ContentFilter => ModelFinishReason::ContentFilter,
            ModelFinishReason::Other { reason } => ModelFinishReason::Other {
                reason: reason.clone(),
            },
        }
    }
}

/// The normalized kind of a model failure.
#[derive(Debug, Clone, Copy, PartialEq, Eq, Structural)]
pub enum ModelErrorKind {
    RateLimit,
    Authentication,
    InvalidRequest,
    ContextOverflow,
    Unavailable,
    Timeout,
    Protocol,
}

/// Whether a failed request may be tried again.
#[derive(Debug, Clone, Copy, PartialEq, Eq, Structural)]
pub enum ModelRetryDisposition {
    Transient,
    Permanent,
}

/// A model failure with everything that the provider said of it.
#[derive(Debug, Clone, PartialEq, Eq)]
pub struct ModelError {
    pub kind: ModelErrorKind,
    pub message: String,
    pub retry_disposition: ModelRetryDisposition,
    pub retry_after_ms: Option<u64>,
    /// The provider's own code. It never leaves the runtime.
    pub provider_code: Option<String>,
}

/// A runtime failure.
#[derive(Debug, PartialEq, Eq)]
pub struct RuntimeError {
    pub message: String,
}

impl Clone for RuntimeError {
    fn clone(&self) -> (copy: Self)
        ensures
            copy == *self,
    {
        RuntimeError { message: self.message.clone() }
    }
}

/// Why an attempt failed.
#[derive(Debug, Clone, PartialEq, Eq)]
pub enum AttemptFailure {
    Model { error: ModelError },
    Runtime { error: RuntimeError },
}

/// A limit of one attempt.
#[derive(Debug, Clone, Copy, PartialEq, Eq, Structural)]
pub enum AttemptLimit {
    Turns,
    ToolCalls,
    ModelRetries,
}

/// Where a token count comes from.
#[derive(Debug, Clone, Copy, PartialEq, Eq, Structural)]
pub enum TokenMeasurementSource {
    ProviderReported,
    Estimated,
}

/// A token count with its provenance.
#[derive(Debug, Clone, Copy, PartialEq, Eq, Structural)]
pub struct TokenMeasurement {
    pub input_tokens: u64,
    pub source: TokenMeasurementSource,
}

/// The model that an attempt runs on from its admission to its end.
#[derive(Debug, Clone, PartialEq, Eq)]
pub struct AttemptModelView {
    pub model: String,
    pub reasoning_profile: Option<String>,
}

/// The model configuration that a client asks for.
#[derive(Debug, Clone, PartialEq, Eq)]
pub struct SessionModelConfig {
    pub model: String,
    pub reasoning_profile: Option<String>,
    pub request_params: Vec<(String, String)>,
}

/// The session's model state, without credentials.
#[derive(Debug, Clone, PartialEq, Eq)]
pub struct SessionModelView {
    /// The configuration that was asked for.
    pub configured: SessionModelConfig,
    /// The model that an attempt admitted now would freeze.
    pub attempt: Arc<AttemptModelView>,
}

impl SessionModelView {
    /// The model that an attempt admitted now would freeze.
    pub fn to_attempt_view(&self) -> (view: Arc<AttemptModelView>)
        ensures
            view == self.attempt,
    {
        share(&self.attempt)
    }
}

/// One model that a client may choose.
#[derive(Debug, Clone, PartialEq, Eq)]
pub struct ModelCatalogEntry {
    pub model: String,
    pub reasoning_profiles: Vec<String>,
}

/// The models that a client may choose from.
#[derive(Debug, Clone, PartialEq, Eq)]
pub struct ModelCatalog {
    pub entries: Vec<ModelCatalogEntry>,
}

} // verus!
