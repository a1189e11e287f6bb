//! Questions as the store keeps them.

use vstd::prelude::*;

verus! {

/// The storage-assigned identifier of a question.
#[derive(Clone, Copy, Debug, Hash, PartialEq, Eq, Structural)]
pub struct QuestionId(pub i32);

/// A stored question.
#[derive(Clone, Debug, PartialEq, Eq)]
pub struct Question {
    pub id: QuestionId,
    pub title: String,
    pub content: String,
    pub tags: Option<Vec<String>>,
}

/// A question as submitted, before storage assigns it an identifier.
#[derive(Clone, Debug, PartialEq, Eq)]
pub struct NewQuestion {
    pub title: String,
    pub content: String,
    pub tags: Option<Vec<String>>,
}

} // verus!
