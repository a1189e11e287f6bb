//! Answers as the store keeps them.

use crate::question::QuestionId;
use vstd::prelude::*;

verus! {

/// The storage-assigned identifier of an answer.
#[derive(Clone, Copy, Debug, Hash, PartialEq, Eq, Structural)]
pub struct AnswerId(pub i32);

/// A stored answer.
#[derive(Clone, Debug, PartialEq, Eq)]
pub struct Answer {
    pub id: AnswerId,
    pub content: String,
    pub question_id: QuestionId,
}

/// An answer as submitted, before storage assigns it an identifier.
#[derive(Clone, Debug, PartialEq, Eq)]
pub struct NewAnswer {
    pub content: String,
    pub question_id: QuestionId,
}

} // verus!
