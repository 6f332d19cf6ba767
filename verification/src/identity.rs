//! Opaque identities.
//!
//! Every identity is the same thing, a text that is compared and never read,
//! under a type of its own, so that an attempt can not be named where a message
//! is meant. The mathematical value of an identity is its sequence of characters.
use std::marker::PhantomData;

use vstd::prelude::*;

verus! {

/// One identity of kind `K`.
#[derive(Debug, PartialEq, Eq)]
pub struct Identity<K> {
    text: String,
    kind: PhantomData<K>,
}

impl<K> View for Identity<K> {
    type V = Seq<char>;

    closed spec fn view(&self) -> Seq<char> {
        self.text@
    }
}

impl<K> Identity<K> {
    /// The identity with this text.
    pub fn new(text: &str) -> (identity: Self)
        ensures
            identity@ == text@,
    {
        Identity { text: text.to_owned(), kind: PhantomData }
    }

    /// The text of the identity.
    pub fn as_str(&self) -> (text: &str)
        ensures
            text@ == self@,
    {
        self.text.as_str()
    }

    /// Whether two identities are the same.
    pub fn same(&self, other: &Self) -> (same: bool)
        ensures
            same == (self@ == other@),
    {
        self.text == other.text
    }

    /// Whether this identity comes strictly before `other`.
    ///
    /// Identities are ordered as strings are: by their bytes.
    pub fn precedes(&self, other: &Self) -> (before: bool)
        ensures
            before == text_precedes(self@, other@),
    {
        let left = self.text.as_str().as_bytes();
        let right = other.text.as_str().as_bytes();
        let mut i: usize = 0;
        assert(left@.skip(0) =~= left@ && right@.skip(0) =~= right@);
        while i < left.len() && i < right.len() && left[i] == right[i]
            invariant
                left@ == vstd::utf8::encode_utf8(self@),
                right@ == vstd::utf8::encode_utf8(other@),
                i <= left@.len(),
                i <= right@.len(),
                bytes_precede(left@, right@) == bytes_precede(
                    left@.skip(i as int),
                    right@.skip(i as int),
                ),
            decreases left@.len() - i,
        {
            proof {
                assert(left@.skip(i as int).drop_first() =~= left@.skip(i + 1));
                assert(right@.skip(i as int).drop_first() =~= right@.skip(i + 1));
            }
            i += 1;
        }
        i < right.len() && (i == left.len() || left[i] < right[i])
    }
}

impl<K> Clone for Identity<K> {
    fn clone(&self) -> (copy: Self)
        ensures
            copy == *self,
    {
        Identity { text: self.text.clone(), kind: self.kind }
    }
}

/// The strict lexicographic order of byte strings: a proper prefix comes first.
pub open spec fn bytes_precede(left: Seq<u8>, right: Seq<u8>) -> bool
    decreases left.len(),
{
    if right.len() == 0 {
        false
    } else if left.len() == 0 {
        true
    } else if left[0] == right[0] {
        bytes_precede(left.drop_first(), right.drop_first())
    } else {
        left[0] < right[0]
    }
}

/// The strict order of texts, which is the order of their UTF-8 bytes.
pub open spec fn text_precedes(left: Seq<char>, right: Seq<char>) -> bool {
    bytes_precede(vstd::utf8::encode_utf8(left), vstd::utf8::encode_utf8(right))
}

/// The order of texts is a strict total order: of two different texts exactly one
/// comes first, none comes before itself, and coming first is transitive.
pub proof fn law_text_order_is_total(a: Seq<char>, b: Seq<char>, c: Seq<char>)
    ensures
        !text_precedes(a, a),
        a != b ==> text_precedes(a, b) != text_precedes(b, a),
        text_precedes(a, b) && text_precedes(b, c) ==> text_precedes(a, c),
{
    lemma_bytes_irreflexive(vstd::utf8::encode_utf8(a));
    lemma_bytes_total(vstd::utf8::encode_utf8(a), vstd::utf8::encode_utf8(b));
    if text_precedes(a, b) && text_precedes(b, c) {
        lemma_bytes_transitive(vstd::utf8::encode_utf8(a), vstd::utf8::encode_utf8(b), vstd::utf8::encode_utf8(c));
    }
    vstd::utf8::encode_utf8_decode_utf8(a);
    vstd::utf8::encode_utf8_decode_utf8(b);
}

proof fn lemma_bytes_irreflexive(a: Seq<u8>)
    ensures
        !bytes_precede(a, a),
    decreases a.len(),
{
    if a.len() > 0 {
        lemma_bytes_irreflexive(a.drop_first());
    }
}

proof fn lemma_bytes_total(a: Seq<u8>, b: Seq<u8>)
    ensures
        a != b ==> bytes_precede(a, b) != bytes_precede(b, a),
    decreases a.len(),
{
    if a.len() == 0 || b.len() == 0 {
        if a.len() == b.len() {
            assert(a =~= b);
        }
    } else if a[0] == b[0] {
        lemma_bytes_total(a.drop_first(), b.drop_first());
        if a.drop_first() == b.drop_first() {
            assert(a =~= seq![a[0]] + a.drop_first());
            assert(b =~= seq![b[0]] + b.drop_first());
        }
    }
}

proof fn lemma_bytes_transitive(a: Seq<u8>, b: Seq<u8>, c: Seq<u8>)
    requires
        bytes_precede(a, b),
        bytes_precede(b, c),
    ensures
        bytes_precede(a, c),
    decreases a.len(),
{
    if a.len() > 0 && a[0] == b[0] && b[0] == c[0] {
        lemma_bytes_transitive(a.drop_first(), b.drop_first(), c.drop_first());
    }
}

/// Tags a conversation.
#[derive(Debug, PartialEq, Eq)]
pub struct ConversationKind;

/// Tags an agent.
#[derive(Debug, PartialEq, Eq)]
pub struct AgentKind;

/// Tags an attempt.
#[derive(Debug, PartialEq, Eq)]
pub struct AttemptKind;

/// Tags a turn.
#[derive(Debug, PartialEq, Eq)]
pub struct TurnKind;

/// Tags a message.
#[derive(Debug, PartialEq, Eq)]
pub struct MessageKind;

/// Tags a model request.
#[derive(Debug, PartialEq, Eq)]
pub struct RequestKind;

/// Tags a tool.
#[derive(Debug, PartialEq, Eq)]
pub struct ToolKind;

/// Tags a logical tool call.
#[derive(Debug, PartialEq, Eq)]
pub struct ToolCallKind;

/// Tags a detached tool execution.
#[derive(Debug, PartialEq, Eq)]
pub struct ToolExecutionKind;

/// Tags a publication stream.
#[derive(Debug, PartialEq, Eq)]
pub struct PublicationStreamKind;

/// Tags an interaction.
#[derive(Debug, PartialEq, Eq)]
pub struct InteractionTag;

/// Tags a subagent.
#[derive(Debug, PartialEq, Eq)]
pub struct SubagentKind;

/// Tags a skill.
#[derive(Debug, PartialEq, Eq)]
pub struct SkillKind;

/// Tags one version of a skill.
#[derive(Debug, PartialEq, Eq)]
pub struct SkillVersionKind;

/// Tags a tool server.
#[derive(Debug, PartialEq, Eq)]
pub struct ServerKind;

/// Tags a journal event.
#[derive(Debug, PartialEq, Eq)]
pub struct EventKind;

/// Tags a client attachment.
#[derive(Debug, PartialEq, Eq)]
pub struct AttachmentKind;

/// Tags a session.
#[derive(Debug, PartialEq, Eq)]
pub struct SessionKind;

pub type ConversationId = Identity<ConversationKind>;

pub type AgentId = Identity<AgentKind>;

pub type AttemptId = Identity<AttemptKind>;

pub type TurnId = Identity<TurnKind>;

pub type MessageId = Identity<MessageKind>;

/// The identity of one model request.
pub type RequestId = Identity<RequestKind>;

pub type ToolId = Identity<ToolKind>;

pub type ToolCallId = Identity<ToolCallKind>;

pub type ToolExecutionId = Identity<ToolExecutionKind>;

pub type PublicationStreamId = Identity<PublicationStreamKind>;

pub type InteractionId = Identity<InteractionTag>;

pub type SubagentId = Identity<SubagentKind>;

pub type SkillId = Identity<SkillKind>;

pub type SkillVersionId = Identity<SkillVersionKind>;

pub type ServerId = Identity<ServerKind>;

pub type EventId = Identity<EventKind>;

pub type AttachmentId = Identity<AttachmentKind>;

pub type SessionId = Identity<SessionKind>;

/// One text comes before another by the first byte in which they differ, or because it is a
/// proper beginning of the other.
pub proof fn law_the_first_difference_decides(left: Seq<u8>, right: Seq<u8>, common: int)
    requires
        0 <= common <= left.len(),
        common <= right.len(),
        forall|i: int| 0 <= i < common ==> left[i] == right[i],
    ensures
        common < left.len() && common < right.len() && left[common] < right[common]
            ==> bytes_precede(left, right),
        common < left.len() && common < right.len() && left[common] > right[common]
            ==> !bytes_precede(left, right),
        common == left.len() && common < right.len() ==> bytes_precede(left, right),
        common == right.len() ==> !bytes_precede(left, right),
    decreases common,
{
    if common > 0 {
        assert(left[0] == right[0]);
        let rest = left.drop_first();
        let other = right.drop_first();
        assert forall|i: int| 0 <= i < common - 1 implies rest[i] == other[i] by {
            assert(left[i + 1] == right[i + 1]);
        }
        law_the_first_difference_decides(rest, other, common - 1);
    }
}

} // verus!
