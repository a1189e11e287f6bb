//! The registration-to-deletion story, told against the verified core
//! with storage and transport played by the test.

use eroteme::account::{Account, AccountId};
use eroteme::answer::NewAnswer;
use eroteme::authentication::{authenticate, login_lookup, login_with_account};
use eroteme::error::Error;
use eroteme::password::prepare_account;
use eroteme::profanity::{moderate_transcript, BadWordsResponse, ModerationEvent};
use eroteme::question::{NewQuestion, QuestionId};
use eroteme::questions::{authorize_owner, moderated_new_question, moderated_question};
use eroteme::token::TokenCodec;

fn censored(text: &str) -> ModerationEvent {
    ModerationEvent::Response {
        status: 200,
        body: Some(BadWordsResponse {
            content: String::new(),
            bad_words_total: 1,
            bad_words_list: Vec::new(),
            censored_content: text.to_string(),
        }),
        error: None,
    }
}

#[test]
fn register_login_post_and_be_refused_as_a_stranger() {
    let codec = TokenCodec::new(b"RANDOM WORDS WINTER MACINTOSH PC".to_vec()).unwrap();
    let now: i64 = 1_700_000_000;

    // Registration: the submitted account is stored with its password hashed.
    let submitted = Account {
        id: None,
        email: "a@b.com".to_string(),
        password: "pw".to_string(),
    };
    let mut stored = prepare_account(submitted).unwrap();
    assert_ne!(stored.password, "pw");
    stored.id = Some(AccountId(1));

    // Login with the wrong password is refused as exactly that.
    assert_eq!(
        login_with_account(&codec, &stored, "wrong", now),
        Err(Error::WrongPassword)
    );

    // Login with the right password issues a token that authenticates.
    let token = login_with_account(&codec, &stored, "pw", now).unwrap();
    let session = authenticate(&codec, Some(&token), now).unwrap();
    assert_eq!(session.account_id, AccountId(1));

    // A missing header never reaches a handler.
    assert_eq!(authenticate(&codec, None, now), Err(Error::Unauthorized));

    // Posting a question stores the censored title, not the submission.
    let new_question = NewQuestion {
        title: "a shitty title".to_string(),
        content: "fine content".to_string(),
        tags: None,
    };
    let title = moderate_transcript(vec![censored("a ****** title")]);
    let content = moderate_transcript(vec![censored("fine content")]);
    let stored_question = moderated_new_question(new_question, title, content).unwrap();
    assert_eq!(stored_question.title, "a ****** title");
    assert_eq!(stored_question.content, "fine content");

    // A stranger's session does not pass the ownership gate.
    let stranger = codec.issue_at(AccountId(2), now).unwrap();
    let stranger_session = authenticate(&codec, Some(&stranger), now).unwrap();
    assert_ne!(stranger_session.account_id, session.account_id);
    let is_owner = stranger_session.account_id == session.account_id;
    assert_eq!(authorize_owner(is_owner), Err(Error::Unauthorized));
    assert_eq!(authorize_owner(true), Ok(()));
}

#[test]
fn an_unknown_email_fails_exactly_like_a_wrong_password() {
    let codec = TokenCodec::new(b"RANDOM WORDS WINTER MACINTOSH PC".to_vec()).unwrap();
    let now: i64 = 1_700_000_000;
    let mut stored = prepare_account(Account {
        id: None,
        email: "a@b.com".to_string(),
        password: "pw".to_string(),
    })
    .unwrap();
    stored.id = Some(AccountId(1));

    let unknown_email = login_lookup(&codec, None, "pw", now).unwrap_err();
    let wrong_password = login_lookup(&codec, Some(&stored), "wrong", now).unwrap_err();
    assert_eq!(unknown_email, Error::WrongPassword);
    assert_eq!(unknown_email, wrong_password);
    assert_eq!(unknown_email.reply_body(), wrong_password.reply_body());
    assert_eq!(unknown_email.status_code(), 401);
}

#[test]
fn a_failed_moderation_never_updates_the_question() {
    let question = eroteme::question::Question {
        id: QuestionId(5),
        title: "old".to_string(),
        content: "old".to_string(),
        tags: None,
    };
    let title = moderate_transcript(vec![ModerationEvent::Transport; 4]);
    let content = moderate_transcript(vec![censored("fine")]);
    let r = moderated_question(question, title, content);
    assert_eq!(r, Err(Error::ModerationTransport));
}

#[test]
fn an_answer_takes_the_censored_content() {
    let answer = NewAnswer {
        content: "a shitty answer".to_string(),
        question_id: QuestionId(3),
    };
    let content = moderate_transcript(vec![censored("a ****** answer")]);
    let stored = eroteme::answers::moderated_answer(answer, content).unwrap();
    assert_eq!(stored.content, "a ****** answer");
    assert_eq!(stored.question_id, QuestionId(3));
}
