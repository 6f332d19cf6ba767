//! Prompts that the runtime puts to a client, and their answers.
use vstd::prelude::*;

use crate::identity::{AttemptId, ConversationId, InteractionId, SubagentId, ToolCallId, ToolId};
use crate::json::JsonText;
use crate::tool::{ToolInvocationMode, ToolOrigin};

verus! {

/// The address of one interaction: identities of interactions are scoped to the
/// conversation that asks.
#[derive(Debug, PartialEq, Eq)]
pub struct InteractionRef {
    pub conversation_id: ConversationId,
    pub interaction_id: InteractionId,
}

impl InteractionRef {
    pub fn new(conversation_id: ConversationId, interaction_id: InteractionId) -> (address: Self)
        ensures
            address.conversation_id == conversation_id,
            address.interaction_id == interaction_id,
    {
        InteractionRef { conversation_id, interaction_id }
    }

    /// Whether two addresses name the same interaction.
    pub open spec fn same_spec(self, other: Self) -> bool {
        self.conversation_id@ == other.conversation_id@ && self.interaction_id@
            == other.interaction_id@
    }

    /// Whether two addresses name the same interaction.
    pub fn same(&self, other: &Self) -> (same: bool)
        ensures
            same == self.same_spec(*other),
    {
        self.conversation_id.same(&other.conversation_id) && self.interaction_id.same(
            &other.interaction_id,
        )
    }

    /// Whether this address comes strictly before another: by conversation, then by
    /// interaction.
    pub open spec fn precedes_spec(self, other: Self) -> bool {
        crate::identity::text_precedes(self.conversation_id@, other.conversation_id@) || (self.conversation_id@
            == other.conversation_id@ && crate::identity::text_precedes(
            self.interaction_id@,
            other.interaction_id@,
        ))
    }

    /// Whether this address comes strictly before another.
    pub fn precedes(&self, other: &Self) -> (before: bool)
        ensures
            before == self.precedes_spec(*other),
    {
        self.conversation_id.precedes(&other.conversation_id) || (self.conversation_id.same(
            &other.conversation_id,
        ) && self.interaction_id.precedes(&other.interaction_id))
    }
}

impl Clone for InteractionRef {
    fn clone(&self) -> (copy: Self)
        ensures
            copy == *self,
    {
        InteractionRef {
            conversation_id: self.conversation_id.clone(),
            interaction_id: self.interaction_id.clone(),
        }
    }
}

/// Who asks.
#[derive(Debug, Clone, PartialEq, Eq)]
pub enum InteractionSource {
    Primary,
    Subagent { subagent_id: SubagentId, child_conversation_id: ConversationId, agent: String },
}

/// What is asked.
#[derive(Debug, Clone, PartialEq, Eq)]
pub enum InteractionKind {
    Approval {
        call_id: ToolCallId,
        tool_id: ToolId,
        tool_name: String,
        origin: ToolOrigin,
        mode: ToolInvocationMode,
        arguments: JsonText,
        reason: String,
    },
    Questionnaire { questions: Vec<String> },
}

/// One bounded prompt.
#[derive(Debug, Clone, PartialEq, Eq)]
pub struct InteractionRequest {
    pub id: InteractionId,
    pub conversation_id: ConversationId,
    pub attempt_id: AttemptId,
    pub turn: u32,
    pub kind: InteractionKind,
}

/// A prompt with its address and its source.
#[derive(Debug, Clone, PartialEq, Eq)]
pub struct RoutedInteraction {
    pub interaction: InteractionRef,
    pub source: InteractionSource,
    pub request: InteractionRequest,
}

impl RoutedInteraction {
    /// The prompt of the conversation's own agent.
    pub fn primary(request: InteractionRequest) -> (routed: Self)
        ensures
            routed.interaction.conversation_id == request.conversation_id,
            routed.interaction.interaction_id == request.id,
            routed.source == InteractionSource::Primary,
            routed.request == request,
    {
        RoutedInteraction {
            interaction: InteractionRef::new(request.conversation_id.clone(), request.id.clone()),
            source: InteractionSource::Primary,
            request,
        }
    }

    /// The prompt of a subagent, addressed by the subagent's own conversation.
    pub fn subagent(
        subagent_id: SubagentId,
        child_conversation_id: ConversationId,
        agent: String,
        request: InteractionRequest,
    ) -> (routed: Self)
        ensures
            routed.interaction.conversation_id == child_conversation_id,
            routed.interaction.interaction_id == request.id,
            routed.source == (InteractionSource::Subagent {
                subagent_id,
                child_conversation_id,
                agent,
            }),
            routed.request == request,
    {
        RoutedInteraction {
            interaction: InteractionRef::new(child_conversation_id.clone(), request.id.clone()),
            source: InteractionSource::Subagent { subagent_id, child_conversation_id, agent },
            request,
        }
    }
}

#[derive(Debug, Clone, Copy, PartialEq, Eq, Structural)]
pub enum ApprovalDecision {
    Allow,
    Deny,
}

/// What a client answers.
#[derive(Debug, Clone, PartialEq, Eq)]
pub enum InteractionResponse {
    Approval { decision: ApprovalDecision },
    Questionnaire { answers: Vec<String> },
}

/// How an interaction ended.
#[derive(Debug, Clone, PartialEq, Eq)]
pub enum InteractionOutcome {
    Responded { response: InteractionResponse },
    Cancelled,
    Abandoned,
}

/// Prompts are ordered by their conversations, and those of one conversation by themselves. The
/// same prompt does not come before itself.
pub proof fn law_prompts_are_ordered_by_conversation(a: InteractionRef, b: InteractionRef)
    ensures
        a.conversation_id@ != b.conversation_id@ ==> (a.precedes_spec(b)
            <==> crate::identity::text_precedes(a.conversation_id@, b.conversation_id@)),
        a.conversation_id@ == b.conversation_id@ ==> (a.precedes_spec(b)
            <==> crate::identity::text_precedes(a.interaction_id@, b.interaction_id@)),
        a.same_spec(b) <==> a.conversation_id@ == b.conversation_id@ && a.interaction_id@
            == b.interaction_id@,
        a.same_spec(b) ==> !a.precedes_spec(b),
        !a.same_spec(b) ==> a.precedes_spec(b) != b.precedes_spec(a),
{
    crate::identity::law_text_order_is_total(
        a.conversation_id@,
        b.conversation_id@,
        a.conversation_id@,
    );
    crate::identity::law_text_order_is_total(
        b.conversation_id@,
        a.conversation_id@,
        b.conversation_id@,
    );
    crate::identity::law_text_order_is_total(
        a.interaction_id@,
        b.interaction_id@,
        a.interaction_id@,
    );
}

} // verus!
