//! A durable record that is kept in memory.
use std::sync::Arc;

use vstd::prelude::*;

use crate::identity::{ConversationId, MessageId, RequestId};
use crate::journal::{RuntimeEventEnvelope, SurfaceRevision};
use crate::message::{message_id_of, MessageBlock};
use crate::share::{share, share_all};
use crate::snapshot::{
    RuntimeClientTranscriptCursor, RuntimeClientTranscriptEntry, RuntimeClientTranscriptItem,
    RuntimeClientTranscriptPage,
};
#[allow(unused_imports)]
use crate::snapshot::TranscriptPageModel;
use crate::store::{
    CompletedResponseProvenance, ConversationStore, ConversationStoreError, FactQuery,
};
#[allow(unused_imports)]
use crate::store::{ProvenanceModel, StoreFailure, StoreRead};

verus! {

/// A canonical message, and the first version of the message sequence that holds it.
pub struct CanonicalMessage {
    pub message: Arc<MessageBlock>,
    pub revision: SurfaceRevision,
}

/// A model request, and the version of the message sequence that it saw.
pub struct RecordedRequest {
    pub id: RequestId,
    pub revision: SurfaceRevision,
}

/// One version of the message sequence.
pub struct SurfaceVersion {
    pub messages: Vec<Arc<MessageBlock>>,
}

/// The record of one conversation, in memory.
pub struct MemoryConversationStore {
    conversation_id: ConversationId,
    journal: Vec<Arc<RuntimeEventEnvelope>>,
    inherited: Vec<CompletedResponseProvenance>,
    canonical: Vec<CanonicalMessage>,
    surfaces: Vec<SurfaceVersion>,
    requests: Vec<RecordedRequest>,
}

/// The contents of a record in memory.
#[verifier::ext_equal]
pub struct RecordModel {
    pub conversation_id: ConversationId,
    pub journal: Seq<Arc<RuntimeEventEnvelope>>,
    pub inherited: Seq<ProvenanceModel>,
    pub canonical: Seq<CanonicalMessage>,
    /// The versions of the message sequence, the current one last.
    pub surfaces: Seq<Seq<Arc<MessageBlock>>>,
    pub requests: Seq<RecordedRequest>,
}

/// Picks the requests with an identity.
pub open spec fn is_request(id: Seq<char>) -> spec_fn(RecordedRequest) -> bool {
    |request: RecordedRequest| request.id@ == id
}

/// Picks the canonical messages with an identity.
pub open spec fn is_canonical(id: Seq<char>) -> spec_fn(CanonicalMessage) -> bool {
    |record: CanonicalMessage| record.message.spec_id()@ == id
}

/// The messages of canonical records.
pub open spec fn messages_of(records: Seq<CanonicalMessage>) -> Seq<Arc<MessageBlock>> {
    Seq::new(records.len(), |i: int| records[i].message)
}

/// The message sequences of versions.
pub open spec fn sequences_of(surfaces: Seq<SurfaceVersion>) -> Seq<Seq<Arc<MessageBlock>>> {
    Seq::new(surfaces.len(), |i: int| surfaces[i].messages@)
}

impl RecordModel {
    /// The record of a conversation in which nothing has happened.
    pub open spec fn empty(conversation_id: ConversationId) -> Self {
        RecordModel {
            conversation_id,
            journal: Seq::empty(),
            inherited: Seq::empty(),
            canonical: Seq::empty(),
            surfaces: seq![Seq::empty()],
            requests: Seq::empty(),
        }
    }

    /// The current version of the message sequence.
    pub open spec fn head(self) -> SurfaceRevision {
        SurfaceRevision { value: (self.surfaces.len() - 1) as u64 }
    }

    /// The record with one message more, canonical and at the end of the sequence.
    pub open spec fn with_message(self, message: Arc<MessageBlock>) -> Self {
        self.with_surface(message, self.surfaces.last().push(message))
    }

    /// The record after the whole sequence was replaced by a summary of it.
    pub open spec fn compacted(self, summary: Arc<MessageBlock>) -> Self {
        self.with_surface(summary, seq![summary])
    }

    /// The record with one canonical message more and a new version of the sequence.
    pub open spec fn with_surface(
        self,
        message: Arc<MessageBlock>,
        surface: Seq<Arc<MessageBlock>>,
    ) -> Self {
        RecordModel {
            canonical: self.canonical.push(
                CanonicalMessage {
                    message,
                    revision: SurfaceRevision { value: self.surfaces.len() as u64 },
                },
            ),
            surfaces: self.surfaces.push(surface),
            ..self
        }
    }

    /// Whether one fact more and one version more can be numbered.
    pub open spec fn has_room(self) -> bool {
        self.journal.len() < u64::MAX && self.surfaces.len() < u64::MAX
    }

    /// The transcript entry at a place.
    pub open spec fn entry(self, index: int) -> RuntimeClientTranscriptEntry {
        RuntimeClientTranscriptEntry {
            cursor: RuntimeClientTranscriptCursor { value: (index + 1) as u64 },
            item: RuntimeClientTranscriptItem::Message { message: self.canonical[index].message },
            completed_response: None,
            completed_process: None,
            response_pending: false,
        }
    }

    /// How many transcript entries lie before a position.
    pub open spec fn entries_before(self, before: Option<RuntimeClientTranscriptCursor>) -> int {
        match before {
            None => self.canonical.len() as int,
            Some(cursor) => if cursor.value == 0 {
                0
            } else if cursor.value <= self.canonical.len() {
                cursor.value - 1
            } else {
                self.canonical.len() as int
            },
        }
    }

    /// The newest entries before a position, oldest first and not more than a limit, and
    /// the position from which the next older ones can be asked for.
    pub open spec fn transcript_page(
        self,
        before: Option<RuntimeClientTranscriptCursor>,
        limit: nat,
    ) -> TranscriptPageModel {
        let end = self.entries_before(before);
        let start = if limit < end {
            end - limit
        } else {
            0
        };
        TranscriptPageModel {
            entries: Seq::new((end - start) as nat, |i: int| self.entry(start + i)),
            next_cursor: if start == 0 {
                None
            } else {
                Some(RuntimeClientTranscriptCursor { value: (start + 1) as u64 })
            },
            statistics: None,
        }
    }
}

impl View for MemoryConversationStore {
    type V = RecordModel;

    closed spec fn view(&self) -> RecordModel {
        RecordModel {
            conversation_id: self.conversation_id,
            journal: self.numbered_journal(),
            inherited: crate::store::provenance_models(self.inherited@),
            canonical: self.canonical@,
            surfaces: sequences_of(self.surfaces@),
            requests: self.requests@,
        }
    }
}

impl MemoryConversationStore {
    /// The journal, if its facts are numbered from one.
    spec fn numbered_journal(&self) -> Seq<Arc<RuntimeEventEnvelope>> {
        if self.well_formed() {
            self.journal@
        } else {
            Seq::empty()
        }
    }

    #[verifier::type_invariant]
    spec fn well_formed(self) -> bool {
        &&& self.surfaces@.len() >= 1
        &&& self.journal@.len() <= u64::MAX
        &&& forall|i: int|
            0 <= i < self.journal@.len() ==> (#[trigger] self.journal@[i]).sequence == i + 1
    }

    /// The record of a conversation in which nothing has happened.
    pub fn new(conversation_id: ConversationId) -> (store: Self)
        ensures
            store@ == RecordModel::empty(conversation_id),
    {
        let mut surfaces: Vec<SurfaceVersion> = Vec::new();
        surfaces.push(SurfaceVersion { messages: Vec::new() });
        let store = MemoryConversationStore {
            conversation_id,
            journal: Vec::new(),
            inherited: Vec::new(),
            canonical: Vec::new(),
            surfaces,
            requests: Vec::new(),
        };
        assert(store@ =~~= RecordModel::empty(conversation_id));
        store
    }

    /// The record of a conversation that inherits responses from another.
    pub fn inheriting(
        conversation_id: ConversationId,
        inherited: Vec<CompletedResponseProvenance>,
    ) -> (store: Self)
        ensures
            store@ == (RecordModel {
                inherited: crate::store::provenance_models(inherited@),
                ..RecordModel::empty(conversation_id)
            }),
    {
        let mut store = Self::new(conversation_id);
        proof {
            use_type_invariant(&store);
        }
        store.inherited = inherited;
        store
    }

    /// Adds a fact at the end of the journal and gives it its place.
    pub fn append_event(&mut self, event: RuntimeEventEnvelope) -> (sequence: u64)
        requires
            old(self)@.has_room(),
        ensures
            sequence == old(self)@.journal.len() + 1,
            final(self)@ == (RecordModel {
                journal: old(self)@.journal.push(
                    Arc::new(RuntimeEventEnvelope { sequence, ..event }),
                ),
                ..old(self)@
            }),
    {
        proof {
            use_type_invariant(&*self);
        }
        let mut journal: Vec<Arc<RuntimeEventEnvelope>> = Vec::new();
        std::mem::swap(&mut journal, &mut self.journal);
        let sequence: u64 = journal.len() as u64 + 1;
        journal.push(Arc::new(RuntimeEventEnvelope { sequence, ..event }));
        self.journal = journal;
        sequence
    }

    /// Adds a canonical message and a version of the message sequence.
    fn add_surface(&mut self, message: Arc<MessageBlock>, messages: Vec<Arc<MessageBlock>>)
        requires
            old(self)@.has_room(),
        ensures
            final(self)@ == old(self)@.with_surface(message, messages@),
    {
        let ghost before = self@;
        proof {
            use_type_invariant(&*self);
        }
        let mut surfaces: Vec<SurfaceVersion> = Vec::new();
        surfaces.push(SurfaceVersion { messages: Vec::new() });
        std::mem::swap(&mut surfaces, &mut self.surfaces);
        let revision = SurfaceRevision { value: surfaces.len() as u64 };
        surfaces.push(SurfaceVersion { messages });
        self.surfaces = surfaces;
        let mut canonical: Vec<CanonicalMessage> = Vec::new();
        std::mem::swap(&mut canonical, &mut self.canonical);
        canonical.push(CanonicalMessage { message, revision });
        self.canonical = canonical;
        assert(self@.surfaces =~= before.with_surface(message, messages@).surfaces);
    }

    /// Adds a message, canonical and at the end of the sequence.
    pub fn append_canonical(&mut self, message: Arc<MessageBlock>)
        requires
            old(self)@.has_room(),
        ensures
            final(self)@ == old(self)@.with_message(message),
    {
        proof {
            use_type_invariant(&*self);
        }
        let mut messages = share_all(&self.surfaces[self.surfaces.len() - 1].messages);
        messages.push(share(&message));
        self.add_surface(message, messages);
    }

    /// Replaces the whole message sequence by a summary of it. Every message stays
    /// canonical.
    pub fn commit_compaction(&mut self, summary: Arc<MessageBlock>)
        requires
            old(self)@.has_room(),
        ensures
            final(self)@ == old(self)@.compacted(summary),
    {
        let mut messages: Vec<Arc<MessageBlock>> = Vec::new();
        messages.push(share(&summary));
        assert(messages@ =~= seq![summary]);
        self.add_surface(summary, messages);
    }

    /// Records that a model request sees the current version of the message sequence.
    pub fn record_request(&mut self, id: RequestId)
        requires
            old(self)@.has_room(),
        ensures
            final(self)@ == (RecordModel {
                requests: old(self)@.requests.push(
                    RecordedRequest { id, revision: old(self)@.head() },
                ),
                ..old(self)@
            }),
    {
        proof {
            use_type_invariant(&*self);
        }
        let revision = SurfaceRevision { value: (self.surfaces.len() - 1) as u64 };
        let mut requests: Vec<RecordedRequest> = Vec::new();
        std::mem::swap(&mut requests, &mut self.requests);
        requests.push(RecordedRequest { id, revision });
        self.requests = requests;
    }

    /// The newest transcript entries before a position, oldest first and not more than a
    /// limit.
    pub fn transcript_page(
        &self,
        before: Option<RuntimeClientTranscriptCursor>,
        limit: usize,
    ) -> (page: RuntimeClientTranscriptPage)
        requires
            self@.canonical.len() < u64::MAX,
        ensures
            page@ == self@.transcript_page(before, limit as nat),
    {
        let count: usize = self.canonical.len();
        let end: usize = match before {
            None => count,
            Some(cursor) => if cursor.value == 0 {
                0
            } else if cursor.value <= count as u64 {
                (cursor.value - 1) as usize
            } else {
                count
            },
        };
        let start: usize = if limit < end {
            end - limit
        } else {
            0
        };
        let mut entries: Vec<RuntimeClientTranscriptEntry> = Vec::new();
        let mut i: usize = start;
        while i < end
            invariant
                start <= i <= end <= self.canonical@.len() < u64::MAX,
                self.canonical@ == self@.canonical,
                entries@ == Seq::new((i - start) as nat, |k: int| self@.entry(start + k)),
            decreases end - i,
        {
            entries.push(
                RuntimeClientTranscriptEntry {
                    cursor: RuntimeClientTranscriptCursor { value: i as u64 + 1 },
                    item: RuntimeClientTranscriptItem::Message {
                        message: share(&self.canonical[i].message),
                    },
                    completed_response: None,
                    completed_process: None,
                    response_pending: false,
                },
            );
            i += 1;
            assert(entries@ =~= Seq::new((i - start) as nat, |k: int| self@.entry(start + k)));
        }
        RuntimeClientTranscriptPage {
            entries,
            next_cursor: if start == 0 {
                None
            } else {
                Some(RuntimeClientTranscriptCursor { value: start as u64 + 1 })
            },
            statistics: None,
        }
    }

    /// The place of a request among the recorded ones.
    fn request_index(&self, id: &RequestId) -> (index: Option<usize>)
        ensures
            match index {
                Some(index) => index < self.requests@.len() && crate::search::position(
                    self.requests@,
                    is_request(id@),
                ) == Some(index as int),
                None => crate::search::position(self.requests@, is_request(id@)) is None,
            },
    {
        let ghost test = is_request(id@);
        let mut i: usize = 0;
        while i < self.requests.len()
            invariant
                i <= self.requests@.len(),
                test == is_request(id@),
                forall|k: int| 0 <= k < i ==> !test(#[trigger] self.requests@[k]),
            decreases self.requests@.len() - i,
        {
            if self.requests[i].id.same(id) {
                proof {
                    crate::search::lemma_position_at(self.requests@, test, i as int);
                }
                return Some(i);
            }
            i += 1;
        }
        proof {
            crate::search::lemma_position_none(self.requests@, test);
        }
        None
    }

    /// Whether a fact is asked for.
    fn is_asked_for(envelope: &Arc<RuntimeEventEnvelope>, query: &FactQuery) -> (is: bool)
        ensures
            is == crate::store::asked_for(query.kinds@, query.after, query.through)(*envelope),
    {
        if envelope.sequence <= query.after || envelope.sequence > query.through {
            return false;
        }
        match envelope.event.fact_kind() {
            None => false,
            Some(kind) => {
                let mut i: usize = 0;
                while i < query.kinds.len()
                    invariant
                        i <= query.kinds@.len(),
                        forall|k: int| 0 <= k < i ==> #[trigger] query.kinds@[k] != kind,
                    ensures
                        i <= query.kinds@.len(),
                        query.kinds@.contains(kind) == (i < query.kinds@.len()),
                    decreases query.kinds@.len() - i,
                {
                    if query.kinds[i] == kind {
                        assert(query.kinds@[i as int] == kind);
                        break;
                    }
                    i += 1;
                }
                i < query.kinds.len()
            },
        }
    }
}

/// A filter gives not more than there is, and all of it is settled by what it has seen
/// once a limit is reached.
proof fn lemma_filter_prefix<T>(items: Seq<T>, test: spec_fn(T) -> bool, count: int)
    requires
        0 <= count <= items.len(),
    ensures
        items.filter(test).len() >= items.take(count).filter(test).len(),
        items.filter(test).take(items.take(count).filter(test).len() as int) == items.take(
            count,
        ).filter(test),
    decreases items.len() - count,
{
    reveal(Seq::filter);
    if count == items.len() {
        assert(items.take(count) =~= items);
        assert(items.filter(test).take(items.filter(test).len() as int) =~= items.filter(test));
    } else {
        lemma_filter_prefix(items, test, count + 1);
        assert(items.take(count + 1).drop_last() =~= items.take(count));
        let fewer = items.take(count).filter(test);
        let more = items.take(count + 1).filter(test);
        assert(more.take(fewer.len() as int) =~= fewer);
        assert(items.filter(test).take(fewer.len() as int) =~= items.filter(test).take(
            more.len() as int,
        ).take(fewer.len() as int));
    }
}

impl ConversationStore for MemoryConversationStore {
    open spec fn owner(&self) -> ConversationId {
        self@.conversation_id
    }

    open spec fn journal(&self) -> Seq<Arc<RuntimeEventEnvelope>> {
        self@.journal
    }

    open spec fn frontier(&self) -> u64 {
        self@.journal.len() as u64
    }

    open spec fn inherited(&self) -> Seq<ProvenanceModel> {
        self@.inherited
    }

    open spec fn request_surface(&self, request_id: Seq<char>) -> SurfaceRevision {
        self@.requests[crate::search::position(
            self@.requests,
            is_request(request_id),
        )->Some_0].revision
    }

    open spec fn surface(&self, revision: SurfaceRevision) -> Seq<Arc<MessageBlock>> {
        self@.surfaces[revision.value as int]
    }

    open spec fn messages(&self, id: Seq<char>) -> Seq<Arc<MessageBlock>> {
        messages_of(self@.canonical.filter(is_canonical(id)))
    }

    open spec fn append_revision(&self, id: Seq<char>) -> Option<SurfaceRevision> {
        match crate::search::position(self@.canonical, is_canonical(id)) {
            Some(index) => Some(self@.canonical[index].revision),
            None => None,
        }
    }

    open spec fn failure(&self, read: StoreRead) -> Option<StoreFailure> {
        match read {
            StoreRead::Request { request_id } => if crate::search::position(
                self@.requests,
                is_request(request_id),
            ) is None {
                Some(StoreFailure::UnknownRequest { request_id })
            } else {
                None
            },
            StoreRead::Surface { revision } => if revision.value >= self@.surfaces.len() {
                Some(StoreFailure::UnknownSurface { revision })
            } else {
                None
            },
            _ => None,
        }
    }

    proof fn journal_ascends(&self) {
    }

    fn conversation_id(&self) -> (id: &ConversationId) {
        &self.conversation_id
    }

    fn presentation_frontier(&self) -> (result: Result<u64, ConversationStoreError>) {
        proof {
            use_type_invariant(self);
        }
        Ok(self.journal.len() as u64)
    }

    fn load_inherited_responses(&self) -> (result: Result<
        Vec<CompletedResponseProvenance>,
        ConversationStoreError,
    >) {
        let mut responses: Vec<CompletedResponseProvenance> = Vec::new();
        let mut i: usize = 0;
        while i < self.inherited.len()
            invariant
                i <= self.inherited@.len(),
                crate::store::provenance_models(responses@) == self@.inherited.take(i as int),
                self@.inherited == crate::store::provenance_models(self.inherited@),
            decreases self.inherited@.len() - i,
        {
            let ghost earlier = responses@;
            let response = self.inherited[i].clone();
            responses.push(response);
            proof {
                assert(crate::store::provenance_models(responses@)
                    =~= crate::store::provenance_models(earlier).push(response@));
                assert(self@.inherited.take(i + 1) =~= self@.inherited.take(i as int).push(
                    self@.inherited[i as int],
                ));
            }
            i += 1;
        }
        assert(self@.inherited.take(i as int) =~= self@.inherited);
        Ok(responses)
    }

    fn read_presentation_events(&self, query: &FactQuery) -> (result: Result<
        Vec<Arc<RuntimeEventEnvelope>>,
        ConversationStoreError,
    >) {
        proof {
            use_type_invariant(self);
        }
        let ghost test = crate::store::asked_for(query.kinds@, query.after, query.through);
        let mut events: Vec<Arc<RuntimeEventEnvelope>> = Vec::new();
        let mut i: usize = 0;
        proof {
            reveal(Seq::filter);
            assert(self.journal@.take(0).filter(test) =~= Seq::empty());
        }
        while i < self.journal.len() && events.len() < query.limit
            invariant
                i <= self.journal@.len(),
                test == crate::store::asked_for(query.kinds@, query.after, query.through),
                events@ == self.journal@.take(i as int).filter(test),
                events@.len() <= query.limit,
            decreases self.journal@.len() - i,
        {
            proof {
                reveal(Seq::filter);
                assert(self.journal@.take(i + 1).drop_last() =~= self.journal@.take(i as int));
            }
            if Self::is_asked_for(&self.journal[i], query) {
                events.push(share(&self.journal[i]));
            }
            i += 1;
        }
        proof {
            lemma_filter_prefix(self.journal@, test, i as int);
            assert(self.journal@.take(self.journal@.len() as int) =~= self.journal@);
            let all = self.journal@.filter(test);
            if all.len() <= query.limit && events@.len() == query.limit {
                assert(all.take(events@.len() as int) =~= all);
            }
        }
        Ok(events)
    }

    fn load_request_surface(&self, request_id: &RequestId) -> (result: Result<
        SurfaceRevision,
        ConversationStoreError,
    >) {
        match self.request_index(request_id) {
            Some(index) => Ok(self.requests[index].revision),
            None => Err(ConversationStoreError::UnknownRequest { request_id: request_id.clone() }),
        }
    }

    fn load_surface_snapshot(&self, revision: SurfaceRevision) -> (result: Result<
        Vec<Arc<MessageBlock>>,
        ConversationStoreError,
    >) {
        if revision.value >= self.surfaces.len() as u64 {
            return Err(ConversationStoreError::UnknownSurface { revision });
        }
        Ok(share_all(&self.surfaces[revision.value as usize].messages))
    }

    fn load_messages(&self, id: &MessageId) -> (result: Result<
        Vec<Arc<MessageBlock>>,
        ConversationStoreError,
    >) {
        let ghost test = is_canonical(id@);
        let mut messages: Vec<Arc<MessageBlock>> = Vec::new();
        let mut i: usize = 0;
        proof {
            reveal(Seq::filter);
            assert(messages_of(self.canonical@.take(0).filter(test)) =~= Seq::empty());
        }
        while i < self.canonical.len()
            invariant
                i <= self.canonical@.len(),
                test == is_canonical(id@),
                messages@ == messages_of(self.canonical@.take(i as int).filter(test)),
            decreases self.canonical@.len() - i,
        {
            proof {
                reveal(Seq::filter);
                assert(self.canonical@.take(i + 1).drop_last() =~= self.canonical@.take(i as int));
                let kept = self.canonical@.take(i as int).filter(test);
                let record = self.canonical@[i as int];
                assert(messages_of(kept.push(record)) =~= messages_of(kept).push(record.message));
            }
            if message_id_of(&self.canonical[i].message).same(id) {
                messages.push(share(&self.canonical[i].message));
            }
            i += 1;
        }
        assert(self.canonical@.take(i as int) =~= self.canonical@);
        Ok(messages)
    }

    fn message_append_revision(&self, id: &MessageId) -> (result: Result<
        Option<SurfaceRevision>,
        ConversationStoreError,
    >) {
        let ghost test = is_canonical(id@);
        let mut i: usize = 0;
        while i < self.canonical.len()
            invariant
                i <= self.canonical@.len(),
                test == is_canonical(id@),
                forall|k: int| 0 <= k < i ==> !test(#[trigger] self.canonical@[k]),
            decreases self.canonical@.len() - i,
        {
            if message_id_of(&self.canonical[i].message).same(id) {
                proof {
                    crate::search::lemma_position_at(self.canonical@, test, i as int);
                }
                return Ok(Some(self.canonical[i].revision));
            }
            i += 1;
        }
        proof {
            crate::search::lemma_position_none(self.canonical@, test);
        }
        Ok(None)
    }
}

} // verus!
