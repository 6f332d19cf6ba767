//! Tool calls and what becomes of them.
use vstd::prelude::*;

use crate::identity::{ServerId, ToolCallId, ToolId};
use crate::json::JsonText;

verus! {

/// Why work was cancelled.
#[derive(Debug, Clone, Copy, PartialEq, Eq, Structural)]
pub enum CancellationReason {
    UserRequested,
    RuntimeShutdown,
    ParentCancelled,
}

/// How far a tool execution had come when it was cancelled.
#[derive(Debug, Clone, Copy, PartialEq, Eq, Structural)]
pub enum ToolCancellationPhase {
    BeforeStart,
    DuringExecution,
}

/// A tool failure.
#[derive(Debug, PartialEq, Eq)]
pub struct ToolError {
    pub message: String,
}

impl Clone for ToolError {
    fn clone(&self) -> (copy: Self)
        ensures
            copy == *self,
    {
        ToolError { message: self.message.clone() }
    }
}

/// How a tool execution ended.
#[derive(Debug, Clone, PartialEq, Eq)]
pub enum ToolExecutionStatus {
    Success,
    Failed { error: ToolError },
    Denied { reason: String },
    Cancelled { reason: CancellationReason, phase: ToolCancellationPhase },
    TimedOut,
    /// Whether the work was done is not known.
    OutcomeUnknown { detail: String },
}

/// One part of what a tool printed.
#[derive(Debug, Clone, PartialEq, Eq)]
pub enum ToolContent {
    Text { text: String },
    Json { document: JsonText },
}

/// A file that a tool left behind.
#[derive(Debug, Clone, PartialEq, Eq)]
pub struct ToolArtifact {
    pub name: String,
    pub location: String,
}

/// What was cut from a tool's output.
#[derive(Debug, Clone, Copy, PartialEq, Eq)]
pub struct ToolTruncation {
    pub omitted_bytes: u64,
}

/// Output that is kept elsewhere.
#[derive(Debug, Clone, PartialEq, Eq)]
pub struct ManagedOutput {
    pub reference: String,
}

/// The normalized result of one tool execution.
#[derive(Debug, Clone, PartialEq, Eq)]
pub struct ToolExecutionResult {
    pub status: ToolExecutionStatus,
    pub content: Vec<ToolContent>,
    pub duration_ms: u64,
    pub exit_code: Option<i32>,
    pub artifacts: Vec<ToolArtifact>,
    pub truncation: Option<ToolTruncation>,
    pub managed_output: Option<ManagedOutput>,
}

/// The value of a tool execution result.
#[verifier::ext_equal]
pub struct ToolResultModel {
    pub status: ToolExecutionStatus,
    pub content: Seq<ToolContent>,
    pub duration_ms: u64,
    pub exit_code: Option<i32>,
    pub artifacts: Seq<ToolArtifact>,
    pub truncation: Option<ToolTruncation>,
    pub managed_output: Option<ManagedOutput>,
}

impl View for ToolExecutionResult {
    type V = ToolResultModel;

    open spec fn view(&self) -> ToolResultModel {
        ToolResultModel {
            status: self.status,
            content: self.content@,
            duration_ms: self.duration_ms,
            exit_code: self.exit_code,
            artifacts: self.artifacts@,
            truncation: self.truncation,
            managed_output: self.managed_output,
        }
    }
}

impl ToolResultModel {
    /// The result of an execution that failed before it produced anything.
    pub open spec fn failed(error: ToolError) -> Self {
        ToolResultModel {
            status: ToolExecutionStatus::Failed { error },
            content: Seq::empty(),
            duration_ms: 0,
            exit_code: None,
            artifacts: Seq::empty(),
            truncation: None,
            managed_output: None,
        }
    }
}

impl ToolExecutionResult {
    /// The result of an execution that failed before it produced anything.
    pub fn failed(error: &ToolError) -> (result: Self)
        ensures
            result@ == ToolResultModel::failed(*error),
    {
        ToolExecutionResult {
            status: ToolExecutionStatus::Failed { error: error.clone() },
            content: Vec::new(),
            duration_ms: 0,
            exit_code: None,
            artifacts: Vec::new(),
            truncation: None,
            managed_output: None,
        }
    }
}

/// An amount of work, as the bits of the floating-point number that reports it.
#[derive(Debug, Clone, Copy, PartialEq, Eq)]
pub struct Amount {
    pub bits: u64,
}

/// One bounded report of a running tool.
#[derive(Debug, PartialEq, Eq)]
pub struct ToolProgress {
    pub message: Option<String>,
    pub completed: Option<Amount>,
    pub total: Option<Amount>,
}

impl Clone for ToolProgress {
    fn clone(&self) -> (copy: Self)
        ensures
            copy == *self,
    {
        ToolProgress {
            message: match &self.message {
                Some(message) => Some(message.clone()),
                None => None,
            },
            completed: self.completed,
            total: self.total,
        }
    }
}

/// What is known of a tool call when the model starts to propose it.
#[derive(Debug, PartialEq, Eq)]
pub struct ToolCallStart {
    pub id: ToolCallId,
    pub tool_id: ToolId,
    pub name: String,
}

impl Clone for ToolCallStart {
    fn clone(&self) -> (copy: Self)
        ensures
            copy == *self,
    {
        ToolCallStart {
            id: self.id.clone(),
            tool_id: self.tool_id.clone(),
            name: self.name.clone(),
        }
    }
}

/// A complete tool call.
#[derive(Debug, PartialEq, Eq)]
pub struct ToolCall {
    pub id: ToolCallId,
    pub tool_id: ToolId,
    pub name: String,
    pub arguments: JsonText,
}

impl Clone for ToolCall {
    fn clone(&self) -> (copy: Self)
        ensures
            copy == *self,
    {
        ToolCall {
            id: self.id.clone(),
            tool_id: self.tool_id.clone(),
            name: self.name.clone(),
            arguments: self.arguments.clone(),
        }
    }
}

/// Where a tool comes from.
#[derive(Debug, PartialEq, Eq)]
pub enum ToolOrigin {
    Builtin,
    Mcp { server_id: ServerId },
    Python { package: String },
}

impl Clone for ToolOrigin {
    fn clone(&self) -> (copy: Self)
        ensures
            copy == *self,
    {
        match self {
            ToolOrigin::Builtin => ToolOrigin::Builtin,
            ToolOrigin::Mcp { server_id } => ToolOrigin::Mcp { server_id: server_id.clone() },
            ToolOrigin::Python { package } => ToolOrigin::Python { package: package.clone() },
        }
    }
}

/// Whether a call is waited for.
#[derive(Debug, Clone, Copy, PartialEq, Eq, Structural)]
pub enum ToolInvocationMode {
    Foreground,
    Background,
}

#[derive(Debug, Clone, Copy, PartialEq, Eq, Structural)]
pub enum ToolExecutionPolicy {
    ForegroundOnly,
    BackgroundAllowed,
}

#[derive(Debug, Clone, Copy, PartialEq, Eq, Structural)]
pub enum ToolConcurrencyPolicy {
    Exclusive,
    Parallel,
}

#[derive(Debug, Clone, Copy, PartialEq, Eq, Structural)]
pub enum ToolApprovalPolicy {
    Never,
    Ask,
}

#[derive(Debug, Clone, Copy, PartialEq, Eq, Structural)]
pub enum ToolReplayPolicy {
    Replayable,
    NotReplayable,
}

/// The registered definition of one tool.
#[derive(Debug, Clone, PartialEq, Eq)]
pub struct ToolDefinition {
    pub id: ToolId,
    pub name: String,
    pub description: String,
    pub input_schema: JsonText,
    pub execution_policy: ToolExecutionPolicy,
    pub concurrency_policy: ToolConcurrencyPolicy,
    pub approval_policy: ToolApprovalPolicy,
    pub replay_policy: ToolReplayPolicy,
    pub origin: ToolOrigin,
}

} // verus!
