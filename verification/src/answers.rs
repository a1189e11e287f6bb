//! Decisions of the answer route: an answer is stored only with its
//! content censored by the moderation gateway.

use crate::answer::NewAnswer;
use crate::error::Error;
use vstd::prelude::*;

verus! {

/// How the moderation outcome of the content settles an answer: the
/// stored answer keeps its question and takes the censored text; a
/// moderation failure refuses the answer.
pub fn moderated_answer(new_answer: NewAnswer, content: Result<String, Error>) -> (r: Result<
    NewAnswer,
    Error,
>)
    ensures
        match content {
            Ok(c) => r == Ok::<NewAnswer, Error>(
                (NewAnswer { content: c, question_id: new_answer.question_id }),
            ),
            Err(e) => r == Err::<NewAnswer, Error>(e),
        },
{
    match content {
        Ok(c) => Ok(NewAnswer { content: c, question_id: new_answer.question_id }),
        Err(e) => Err(e),
    }
}

} // verus!
