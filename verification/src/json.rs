//! JSON documents that are carried and shown, never looked into.
use vstd::prelude::*;

verus! {

/// The compact text that `serde_json` prints for the document that it reads in `text`,
/// or nothing where it reads none. Two calls stand behind the name: the one that reads the
/// document and the one that prints what was read.
pub uninterp spec fn compact_json(text: Seq<char>) -> Option<Seq<char>>;

/// Reads a JSON document and prints it without spaces.
///
/// Calls `serde_json::from_str` for a `serde_json::Value` and prints that value with its
/// `to_string`. What comes out is named `compact_json`; the claim is only that it rests
/// on the text alone.
#[verifier::external_body]
fn serde_compact(text: &str) -> (compact: Option<String>)
    ensures
        match compact {
            Some(compact) => compact_json(text@) == Some(compact@),
            None => compact_json(text@) is None,
        },
{
    serde_json::from_str::<serde_json::Value>(text).ok().map(|value| value.to_string())
}

/// One JSON document, held as its compact text.
#[derive(Debug, PartialEq, Eq)]
pub struct JsonText {
    text: String,
}

impl View for JsonText {
    type V = Seq<char>;

    closed spec fn view(&self) -> Seq<char> {
        self.text@
    }
}

impl JsonText {
    /// The document that a text holds, if it holds one.
    pub fn parse(text: &str) -> (document: Option<Self>)
        ensures
            match document {
                Some(document) => compact_json(text@) == Some(document@),
                None => compact_json(text@) is None,
            },
    {
        match serde_compact(text) {
            Some(text) => Some(JsonText { text }),
            None => None,
        }
    }

    /// The compact text of the document.
    pub fn as_str(&self) -> (text: &str)
        ensures
            text@ == self@,
    {
        self.text.as_str()
    }
}

impl Clone for JsonText {
    fn clone(&self) -> (copy: Self)
        ensures
            copy == *self,
    {
        JsonText { text: self.text.clone() }
    }
}

} // verus!
