//! Decisions of the question routes: the ownership gate that guards
//! every mutation, and how the moderation outcomes of the two text
//! fields settle what is stored.

use crate::error::Error;
use crate::question::{NewQuestion, Question};
use vstd::prelude::*;

verus! {

/// The ownership gate: a mutation proceeds only when storage confirmed
/// the acting account owns the resource; anything else is refused
/// before the resource is touched.
pub fn authorize_owner(is_owner: bool) -> (r: Result<(), Error>)
    ensures
        r == (if is_owner {
            Ok::<(), Error>(())
        } else {
            Err::<(), Error>(Error::Unauthorized)
        }),
{
    if is_owner {
        Ok(())
    } else {
        Err(Error::Unauthorized)
    }
}

/// How the moderation outcomes of title and content settle an update:
/// the stored question keeps its identifier and tags and takes both
/// censored texts; either failure refuses the update, the title's
/// failure surfacing first.
pub fn moderated_question(
    question: Question,
    title: Result<String, Error>,
    content: Result<String, Error>,
) -> (r: Result<Question, Error>)
    ensures
        match (title, content) {
            (Ok(t), Ok(c)) => r == Ok::<Question, Error>(
                (Question { id: question.id, title: t, content: c, tags: question.tags }),
            ),
            (Err(e), _) => r == Err::<Question, Error>(e),
            (Ok(_), Err(e)) => r == Err::<Question, Error>(e),
        },
{
    match (title, content) {
        (Ok(t), Ok(c)) => Ok(
            Question { id: question.id, title: t, content: c, tags: question.tags },
        ),
        (Err(e), _) => Err(e),
        (Ok(_), Err(e)) => Err(e),
    }
}

/// The same settlement for a question being created.
pub fn moderated_new_question(
    new_question: NewQuestion,
    title: Result<String, Error>,
    content: Result<String, Error>,
) -> (r: Result<NewQuestion, Error>)
    ensures
        match (title, content) {
            (Ok(t), Ok(c)) => r == Ok::<NewQuestion, Error>(
                (NewQuestion { title: t, content: c, tags: new_question.tags }),
            ),
            (Err(e), _) => r == Err::<NewQuestion, Error>(e),
            (Ok(_), Err(e)) => r == Err::<NewQuestion, Error>(e),
        },
{
    match (title, content) {
        (Ok(t), Ok(c)) => Ok(NewQuestion { title: t, content: c, tags: new_question.tags }),
        (Err(e), _) => Err(e),
        (Ok(_), Err(e)) => Err(e),
    }
}

} // verus!
