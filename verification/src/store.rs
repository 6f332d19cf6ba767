//! The durable record of a conversation, as far as responses are derived from it.
use std::sync::Arc;

use vstd::prelude::*;

use crate::clock::Timestamp;
use crate::identity::{ConversationId, MessageId, RequestId};
use crate::journal::{RuntimeEvent, RuntimeEventEnvelope, SurfaceRevision};
use crate::message::MessageBlock;
use crate::model::ModelUsage;
use crate::response::{CompletedResponseTiming, ResponseOrigin};

verus! {

/// Why a read of the durable record failed.
#[derive(Debug, PartialEq, Eq)]
pub enum ConversationStoreError {
    /// The record refers to something that it does not hold.
    InvalidReference(String),
    UnknownRequest { request_id: RequestId },
    UnknownSurface { revision: SurfaceRevision },
    /// The storage itself failed.
    Unavailable { message: String },
}

/// The value of a read failure.
#[verifier::ext_equal]
pub enum StoreFailure {
    InvalidReference(Seq<char>),
    UnknownRequest { request_id: Seq<char> },
    UnknownSurface { revision: SurfaceRevision },
    Unavailable { message: Seq<char> },
}

impl View for ConversationStoreError {
    type V = StoreFailure;

    open spec fn view(&self) -> StoreFailure {
        match self {
            ConversationStoreError::InvalidReference(message) => StoreFailure::InvalidReference(
                message@,
            ),
            ConversationStoreError::UnknownRequest { request_id } => StoreFailure::UnknownRequest {
                request_id: request_id@,
            },
            ConversationStoreError::UnknownSurface { revision } => StoreFailure::UnknownSurface {
                revision: *revision,
            },
            ConversationStoreError::Unavailable { message } => StoreFailure::Unavailable {
                message: message@,
            },
        }
    }
}

/// The kinds of facts from which responses are derived.
#[derive(Debug, Clone, Copy, PartialEq, Eq, Structural)]
pub enum FactKind {
    AttemptStarted,
    ModelRequestStarted,
    ModelRequestCompleted,
    ModelRequestFailed,
    AssistantMessageCommitted,
    AttemptCompleted,
    AttemptCancelled,
    AttemptFailed,
    AttemptTimedOut,
    AttemptLimitExceeded,
}

impl RuntimeEvent {
    /// The kind of a fact from which responses are derived.
    pub open spec fn fact_kind_spec(self) -> Option<FactKind> {
        match self {
            RuntimeEvent::AttemptStarted { .. } => Some(FactKind::AttemptStarted),
            RuntimeEvent::ModelRequestStarted { .. } => Some(FactKind::ModelRequestStarted),
            RuntimeEvent::ModelRequestCompleted { .. } => Some(FactKind::ModelRequestCompleted),
            RuntimeEvent::ModelRequestFailed { .. } => Some(FactKind::ModelRequestFailed),
            RuntimeEvent::AssistantMessageCommitted { .. } => Some(
                FactKind::AssistantMessageCommitted,
            ),
            RuntimeEvent::AttemptCompleted { .. } => Some(FactKind::AttemptCompleted),
            RuntimeEvent::AttemptCancelled { .. } => Some(FactKind::AttemptCancelled),
            RuntimeEvent::AttemptFailed { .. } => Some(FactKind::AttemptFailed),
            RuntimeEvent::AttemptTimedOut { .. } => Some(FactKind::AttemptTimedOut),
            RuntimeEvent::AttemptLimitExceeded { .. } => Some(FactKind::AttemptLimitExceeded),
            _ => None,
        }
    }

    /// The kind of a fact from which responses are derived.
    pub fn fact_kind(&self) -> (kind: Option<FactKind>)
        ensures
            kind == self.fact_kind_spec(),
    {
        match self {
            RuntimeEvent::AttemptStarted { .. } => Some(FactKind::AttemptStarted),
            RuntimeEvent::ModelRequestStarted { .. } => Some(FactKind::ModelRequestStarted),
            RuntimeEvent::ModelRequestCompleted { .. } => Some(FactKind::ModelRequestCompleted),
            RuntimeEvent::ModelRequestFailed { .. } => Some(FactKind::ModelRequestFailed),
            RuntimeEvent::AssistantMessageCommitted { .. } => Some(
                FactKind::AssistantMessageCommitted,
            ),
            RuntimeEvent::AttemptCompleted { .. } => Some(FactKind::AttemptCompleted),
            RuntimeEvent::AttemptCancelled { .. } => Some(FactKind::AttemptCancelled),
            RuntimeEvent::AttemptFailed { .. } => Some(FactKind::AttemptFailed),
            RuntimeEvent::AttemptTimedOut { .. } => Some(FactKind::AttemptTimedOut),
            RuntimeEvent::AttemptLimitExceeded { .. } => Some(FactKind::AttemptLimitExceeded),
            _ => None,
        }
    }
}

/// A question to the journal: the facts of some kinds, behind one place and through
/// another, oldest first and not more than a limit.
#[derive(Debug, Clone, PartialEq, Eq)]
pub struct FactQuery {
    pub kinds: Vec<FactKind>,
    pub after: u64,
    pub through: u64,
    pub limit: usize,
}

/// Picks the facts of some kinds behind one place and through another.
pub open spec fn asked_for(kinds: Seq<FactKind>, after: u64, through: u64) -> spec_fn(
    Arc<RuntimeEventEnvelope>,
) -> bool {
    |envelope: Arc<RuntimeEventEnvelope>|
        after < envelope.sequence <= through && (envelope.event.fact_kind_spec() matches Some(kind)
            && kinds.contains(kind))
}

/// The first items, as many as a limit allows.
pub open spec fn at_most<T>(items: Seq<T>, limit: nat) -> Seq<T> {
    if items.len() > limit {
        items.take(limit as int)
    } else {
        items
    }
}

/// The answer of a journal to a question.
pub open spec fn answer(
    journal: Seq<Arc<RuntimeEventEnvelope>>,
    kinds: Seq<FactKind>,
    after: u64,
    through: u64,
    limit: nat,
) -> Seq<Arc<RuntimeEventEnvelope>> {
    at_most(journal.filter(asked_for(kinds, after, through)), limit)
}

/// The native evidence of a completed response.
#[derive(Debug, PartialEq, Eq)]
pub struct CompletedResponseProvenance {
    /// The messages of the attempt, in the order of their identities.
    pub process_message_ids: Vec<MessageId>,
    pub closing_message_id: MessageId,
    pub origin: ResponseOrigin,
    pub completed_at: Timestamp,
    pub timing: Option<CompletedResponseTiming>,
    pub retry_message_id: Option<MessageId>,
    pub usage: Option<ModelUsage>,
}

/// The value of the evidence of a completed response.
#[verifier::ext_equal]
pub struct ProvenanceModel {
    pub process_message_ids: Seq<MessageId>,
    pub closing_message_id: MessageId,
    pub origin: ResponseOrigin,
    pub completed_at: Timestamp,
    pub timing: Option<CompletedResponseTiming>,
    pub retry_message_id: Option<MessageId>,
    pub usage: Option<ModelUsage>,
}

impl View for CompletedResponseProvenance {
    type V = ProvenanceModel;

    open spec fn view(&self) -> ProvenanceModel {
        ProvenanceModel {
            process_message_ids: self.process_message_ids@,
            closing_message_id: self.closing_message_id,
            origin: self.origin,
            completed_at: self.completed_at,
            timing: self.timing,
            retry_message_id: self.retry_message_id,
            usage: self.usage,
        }
    }
}

/// The values of evidence.
pub open spec fn provenance_models(responses: Seq<CompletedResponseProvenance>) -> Seq<
    ProvenanceModel,
> {
    Seq::new(responses.len(), |i: int| responses[i]@)
}

impl Clone for CompletedResponseProvenance {
    fn clone(&self) -> (copy: Self)
        ensures
            copy@ == self@,
    {
        let process_message_ids = self.process_message_ids.clone();
        assert(process_message_ids@ =~= self.process_message_ids@);
        CompletedResponseProvenance {
            process_message_ids,
            closing_message_id: self.closing_message_id.clone(),
            origin: self.origin.clone(),
            completed_at: self.completed_at,
            timing: self.timing,
            retry_message_id: match &self.retry_message_id {
                Some(id) => Some(id.clone()),
                None => None,
            },
            usage: self.usage,
        }
    }
}

/// One read of the durable record.
pub enum StoreRead {
    Frontier,
    Inherited,
    Events { after: u64, through: u64 },
    Request { request_id: Seq<char> },
    Surface { revision: SurfaceRevision },
    Messages { id: Seq<char> },
    AppendRevision { id: Seq<char> },
}

/// The durable record of one conversation.
///
/// What a store holds is described by its spec functions. A read gives what they say, or
/// fails as `failure` says of that read. They speak of the store's value: where others
/// write to the record meanwhile, they hold of one fixed cut of it, and a read behind that
/// cut belongs to another value.
pub trait ConversationStore {
    /// The conversation.
    spec fn owner(&self) -> ConversationId;

    /// The journal, oldest fact first.
    spec fn journal(&self) -> Seq<Arc<RuntimeEventEnvelope>>;

    /// The place through which the journal can be read now.
    spec fn frontier(&self) -> u64;

    /// The responses that the conversation inherited.
    spec fn inherited(&self) -> Seq<ProvenanceModel>;

    /// The version of the message sequence that a model request saw.
    spec fn request_surface(&self, request_id: Seq<char>) -> SurfaceRevision;

    /// The message sequence of a version.
    spec fn surface(&self, revision: SurfaceRevision) -> Seq<Arc<MessageBlock>>;

    /// The canonical messages with an identity.
    spec fn messages(&self, id: Seq<char>) -> Seq<Arc<MessageBlock>>;

    /// The first version of the message sequence that holds a message.
    spec fn append_revision(&self, id: Seq<char>) -> Option<SurfaceRevision>;

    /// How a read fails, if it does.
    spec fn failure(&self, read: StoreRead) -> Option<StoreFailure>;

    /// The facts of a journal have ascending places.
    proof fn journal_ascends(&self)
        ensures
            forall|i: int, j: int|
                0 <= i < j < self.journal().len() ==> (#[trigger] self.journal()[i]).sequence < (
                #[trigger] self.journal()[j]).sequence,
    ;

    fn conversation_id(&self) -> (id: &ConversationId)
        ensures
            *id == self.owner(),
    ;

    fn presentation_frontier(&self) -> (result: Result<u64, ConversationStoreError>)
        ensures
            match result {
                Ok(frontier) => self.failure(StoreRead::Frontier) is None && frontier
                    == self.frontier(),
                Err(error) => self.failure(StoreRead::Frontier) == Some(error@),
            },
    ;

    fn load_inherited_responses(&self) -> (result: Result<
        Vec<CompletedResponseProvenance>,
        ConversationStoreError,
    >)
        ensures
            match result {
                Ok(responses) => self.failure(StoreRead::Inherited) is None && provenance_models(
                    responses@,
                ) == self.inherited(),
                Err(error) => self.failure(StoreRead::Inherited) == Some(error@),
            },
    ;

    fn read_presentation_events(&self, query: &FactQuery) -> (result: Result<
        Vec<Arc<RuntimeEventEnvelope>>,
        ConversationStoreError,
    >)
        ensures
            match result {
                Ok(events) => self.failure(
                    StoreRead::Events { after: query.after, through: query.through },
                ) is None && events@ == answer(
                    self.journal(),
                    query.kinds@,
                    query.after,
                    query.through,
                    query.limit as nat,
                ),
                Err(error) => self.failure(
                    StoreRead::Events { after: query.after, through: query.through },
                ) == Some(error@),
            },
    ;

    fn load_request_surface(&self, request_id: &RequestId) -> (result: Result<
        SurfaceRevision,
        ConversationStoreError,
    >)
        ensures
            match result {
                Ok(revision) => self.failure(
                    StoreRead::Request { request_id: request_id@ },
                ) is None && revision == self.request_surface(request_id@),
                Err(error) => self.failure(StoreRead::Request { request_id: request_id@ }) == Some(
                    error@,
                ),
            },
    ;

    fn load_surface_snapshot(&self, revision: SurfaceRevision) -> (result: Result<
        Vec<Arc<MessageBlock>>,
        ConversationStoreError,
    >)
        ensures
            match result {
                Ok(messages) => self.failure(StoreRead::Surface { revision }) is None && messages@
                    == self.surface(revision),
                Err(error) => self.failure(StoreRead::Surface { revision }) == Some(error@),
            },
    ;

    fn load_messages(&self, id: &MessageId) -> (result: Result<
        Vec<Arc<MessageBlock>>,
        ConversationStoreError,
    >)
        ensures
            match result {
                Ok(messages) => self.failure(StoreRead::Messages { id: id@ }) is None && messages@
                    == self.messages(id@),
                Err(error) => self.failure(StoreRead::Messages { id: id@ }) == Some(error@),
            },
    ;

    fn message_append_revision(&self, id: &MessageId) -> (result: Result<
        Option<SurfaceRevision>,
        ConversationStoreError,
    >)
        ensures
            match result {
                Ok(revision) => self.failure(StoreRead::AppendRevision { id: id@ }) is None
                    && revision == self.append_revision(id@),
                Err(error) => self.failure(StoreRead::AppendRevision { id: id@ }) == Some(error@),
            },
    ;
}

} // verus!
