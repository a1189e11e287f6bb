//! The moderation gateway: free text goes to an external filtering
//! service; what comes back is either the censored text or a failure
//! classified by kind. The gateway's decisions — what to retry, how
//! long to back off, and how each response settles the outcome — are
//! one step function, folded over the transcript of attempts.

use crate::error::{APILayerError, Error};
use vstd::prelude::*;

verus! {

/// A success body of the moderation service, already decoded.
#[derive(Debug, Clone, PartialEq, Eq)]
pub struct BadWord {
    pub original: String,
    pub word: String,
    pub deviations: i64,
    pub info: i64,
    pub replaced_len: i64,
}

/// The body the moderation service answers a successful check with.
#[derive(Debug, Clone, PartialEq, Eq)]
pub struct BadWordsResponse {
    pub content: String,
    pub bad_words_total: i64,
    pub bad_words_list: Vec<BadWord>,
    pub censored_content: String,
}

/// The body the moderation service answers an error with.
#[derive(Debug, Clone, PartialEq, Eq)]
pub struct APIResponse {
    pub message: String,
}

/// How many extra attempts follow the first one.
pub const MODERATION_RETRY_LIMIT: u8 = 3;

/// What one attempt against the moderation service came to: either no
/// response arrived at all, or a response with its status and whatever
/// of it could be decoded.
#[derive(Debug, Clone, PartialEq, Eq)]
pub enum ModerationEvent {
    /// A connection failure or timeout: no response arrived.
    Transport,
    /// A response arrived. `body` carries the decoded success schema
    /// when the bytes parsed as one, `error` the decoded error schema.
    Response { status: u16, body: Option<BadWordsResponse>, error: Option<APIResponse> },
}

/// What the gateway does after one attempt: try again after a pause,
/// or settle.
#[derive(Debug, PartialEq, Eq)]
pub enum GatewayStep {
    Retry { delay_ms: u64 },
    Done(Result<String, Error>),
}

pub open spec fn is_success_status(status: u16) -> bool {
    200 <= status < 300
}

/// The statuses worth another attempt: server errors, request timeout
/// and too-many-requests.
pub open spec fn is_retryable_status(status: u16) -> bool {
    500 <= status < 600 || status == 408 || status == 429
}

pub open spec fn is_client_error_status(status: u16) -> bool {
    400 <= status < 500
}

/// The pause before retry number `attempt + 1`: one second doubled per
/// attempt, capped at half an hour.
pub open spec fn backoff_ms(attempt: nat) -> nat
    decreases attempt,
{
    if attempt == 0 {
        1000
    } else if backoff_ms((attempt - 1) as nat) * 2 > 1_800_000 {
        1_800_000
    } else {
        backoff_ms((attempt - 1) as nat) * 2
    }
}

proof fn lemma_backoff_bounds(attempt: nat)
    ensures
        1000 <= backoff_ms(attempt) <= 1_800_000,
    decreases attempt,
{
    if attempt > 0 {
        lemma_backoff_bounds((attempt - 1) as nat);
    }
}

/// What the gateway decides after attempt number `attempt` (counted
/// from zero) came to `event`: a success response settles on its
/// censored text when the body decoded, and on a decode failure when
/// it did not; a transient outcome inside the retry budget waits and
/// tries again; anything else settles on the failure its status class
/// names, a decode failure when the error body itself was undecodable.
pub open spec fn gateway_step_spec(attempt: nat, event: ModerationEvent) -> GatewayStep {
    match event {
        ModerationEvent::Transport => {
            if attempt < MODERATION_RETRY_LIMIT as nat {
                GatewayStep::Retry { delay_ms: backoff_ms(attempt) as u64 }
            } else {
                GatewayStep::Done(Err(Error::ModerationTransport))
            }
        },
        ModerationEvent::Response { status, body, error } => {
            if is_success_status(status) {
                match body {
                    Some(b) => GatewayStep::Done(Ok(b.censored_content)),
                    None => GatewayStep::Done(Err(Error::ModerationDecode)),
                }
            } else if is_retryable_status(status) && attempt < MODERATION_RETRY_LIMIT as nat {
                GatewayStep::Retry { delay_ms: backoff_ms(attempt) as u64 }
            } else {
                match error {
                    Some(e) => if is_client_error_status(status) {
                        GatewayStep::Done(
                            Err(
                                Error::ModerationClient(
                                    APILayerError { status, message: e.message },
                                ),
                            ),
                        )
                    } else {
                        GatewayStep::Done(
                            Err(
                                Error::ModerationServer(
                                    APILayerError { status, message: e.message },
                                ),
                            ),
                        )
                    },
                    None => GatewayStep::Done(Err(Error::ModerationDecode)),
                }
            }
        },
    }
}

/// The pause before the next attempt, in executable form.
pub fn backoff_delay_ms(attempt: u8) -> (r: u64)
    ensures
        r == backoff_ms(attempt as nat),
{
    let mut delay: u64 = 1000;
    let mut k: u8 = 0;
    proof {
        lemma_backoff_bounds(attempt as nat);
    }
    while k < attempt
        invariant
            k <= attempt,
            delay == backoff_ms(k as nat),
            delay <= 1_800_000,
        decreases attempt - k,
    {
        delay = if delay * 2 > 1_800_000 {
            1_800_000
        } else {
            delay * 2
        };
        k = k + 1;
    }
    delay
}

/// One gateway decision, in executable form.
pub fn gateway_step(attempt: u8, event: ModerationEvent) -> (r: GatewayStep)
    ensures
        r == gateway_step_spec(attempt as nat, event),
{
    match event {
        ModerationEvent::Transport => {
            if attempt < MODERATION_RETRY_LIMIT {
                GatewayStep::Retry { delay_ms: backoff_delay_ms(attempt) }
            } else {
                GatewayStep::Done(Err(Error::ModerationTransport))
            }
        },
        ModerationEvent::Response { status, body, error } => {
            if 200 <= status && status < 300 {
                match body {
                    Some(b) => GatewayStep::Done(Ok(b.censored_content)),
                    None => GatewayStep::Done(Err(Error::ModerationDecode)),
                }
            } else if (500 <= status && status < 600 || status == 408 || status == 429) && attempt
                < MODERATION_RETRY_LIMIT {
                GatewayStep::Retry { delay_ms: backoff_delay_ms(attempt) }
            } else {
                match error {
                    Some(e) => if 400 <= status && status < 500 {
                        GatewayStep::Done(
                            Err(
                                Error::ModerationClient(
                                    APILayerError { status, message: e.message },
                                ),
                            ),
                        )
                    } else {
                        GatewayStep::Done(
                            Err(
                                Error::ModerationServer(
                                    APILayerError { status, message: e.message },
                                ),
                            ),
                        )
                    },
                    None => GatewayStep::Done(Err(Error::ModerationDecode)),
                }
            }
        },
    }
}

/// The settled outcome of a transcript of attempts, the first of which
/// is attempt number `attempt`: the first event that settles decides;
/// a transcript that runs out while a retry was still owed counts as a
/// transport failure.
pub open spec fn moderation_outcome(events: Seq<ModerationEvent>, attempt: nat) -> Result<
    String,
    Error,
>
    decreases events.len(),
{
    if events.len() == 0 {
        Err(Error::ModerationTransport)
    } else {
        match gateway_step_spec(attempt, events[0]) {
            GatewayStep::Retry { delay_ms } => moderation_outcome(events.drop_first(), attempt + 1),
            GatewayStep::Done(r) => r,
        }
    }
}

/// Folds the gateway over a whole transcript of attempts: what a run
/// of the moderation call comes to when its attempts come to `events`.
#[verifier::loop_isolation(false)]
pub fn moderate_transcript(events: Vec<ModerationEvent>) -> (r: Result<String, Error>)
    ensures
        r == moderation_outcome(events@, 0),
{
    let mut rest = events;
    let mut attempt: u8 = 0;
    loop
        invariant
            attempt <= MODERATION_RETRY_LIMIT,
            moderation_outcome(events@, 0) == moderation_outcome(rest@, attempt as nat),
        decreases rest@.len(),
    {
        if rest.len() == 0 {
            return Err(Error::ModerationTransport);
        }
        let ghost pre = rest@;
        let e = rest.remove(0);
        assert(pre.drop_first() =~= rest@);
        match gateway_step(attempt, e) {
            GatewayStep::Retry { delay_ms: _ } => {
                attempt = attempt + 1;
            },
            GatewayStep::Done(r) => {
                return r;
            },
        }
    }
}

/// Censored text is never invented: when a run settles on a success,
/// some attempt answered with a success status and a decoded body, and
/// the text returned is exactly that body's censored content. Text is
/// never accepted because the attempts merely ran out.
pub proof fn lemma_success_only_from_a_success_response(
    events: Seq<ModerationEvent>,
    attempt: nat,
    t: String,
)
    requires
        moderation_outcome(events, attempt) == Ok::<String, Error>(t),
    ensures
        exists|i: int|
            0 <= i < events.len() && (#[trigger] events[i] matches ModerationEvent::Response {
                status,
                body: Some(b),
                ..
            } && is_success_status(status) && b.censored_content == t),
    decreases events.len(),
{
    if events.len() > 0 {
        match gateway_step_spec(attempt, events[0]) {
            GatewayStep::Retry { delay_ms } => {
                lemma_success_only_from_a_success_response(events.drop_first(), attempt + 1, t);
                let j = choose|j: int|
                    0 <= j < events.drop_first().len() && (#[trigger] events.drop_first()[j] matches
                        ModerationEvent::Response {
                        status,
                        body: Some(b),
                        ..
                    } && is_success_status(status) && b.censored_content == t);
                assert(events[j + 1] == events.drop_first()[j]);
            },
            GatewayStep::Done(r) => {
                assert(events[0] matches ModerationEvent::Response {
                    status,
                    body: Some(b),
                    ..
                } && is_success_status(status) && b.censored_content == t);
            },
        }
    }
}

/// A permanent client error settles the outcome at once: whatever
/// attempts would have followed, none is made.
pub proof fn lemma_client_error_settles_at_once(
    events: Seq<ModerationEvent>,
    attempt: nat,
    status: u16,
    body: Option<BadWordsResponse>,
    error: APIResponse,
)
    requires
        events.len() > 0,
        events[0] == (ModerationEvent::Response { status, body, error: Some(error) }),
        is_client_error_status(status),
        !is_success_status(status),
        !is_retryable_status(status),
    ensures
        moderation_outcome(events, attempt) == Err::<String, Error>(
            Error::ModerationClient(APILayerError { status, message: error.message }),
        ),
{
}

/// A transient server failure inside the retry budget settles nothing:
/// the outcome is whatever the remaining attempts come to, one more
/// attempt having been spent.
pub proof fn lemma_transient_spends_one_attempt(events: Seq<ModerationEvent>, attempt: nat)
    requires
        events.len() > 0,
        attempt < MODERATION_RETRY_LIMIT as nat,
        (events[0] matches ModerationEvent::Transport) || (events[0] matches
            ModerationEvent::Response { status, .. } && is_retryable_status(status)
            && !is_success_status(status)),
    ensures
        moderation_outcome(events, attempt) == moderation_outcome(events.drop_first(), attempt + 1),
{
}

/// Joins the two moderation outcomes of a title and a content field:
/// text passes only when both passed, and the title's failure is
/// surfaced before the content's.
pub fn join_moderation(title: Result<String, Error>, content: Result<String, Error>) -> (r: Result<
    (String, String),
    Error,
>)
    ensures
        match (title, content) {
            (Ok(t), Ok(c)) => r == Ok::<(String, String), Error>((t, c)),
            (Err(e), _) => r == Err::<(String, String), Error>(e),
            (Ok(_), Err(e)) => r == Err::<(String, String), Error>(e),
        },
{
    match (title, content) {
        (Ok(t), Ok(c)) => Ok((t, c)),
        (Err(e), _) => Err(e),
        (Ok(_), Err(e)) => Err(e),
    }
}

} // verus!
