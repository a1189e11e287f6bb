use eroteme::error::{APILayerError, Error};
use eroteme::profanity::{
    backoff_delay_ms, gateway_step, join_moderation, moderate_transcript, APIResponse,
    BadWordsResponse, GatewayStep, ModerationEvent,
};

fn success_body(censored: &str) -> BadWordsResponse {
    BadWordsResponse {
        content: "this is a shitty sentence".to_string(),
        bad_words_total: 1,
        bad_words_list: Vec::new(),
        censored_content: censored.to_string(),
    }
}

fn ok_response(censored: &str) -> ModerationEvent {
    ModerationEvent::Response {
        status: 200,
        body: Some(success_body(censored)),
        error: None,
    }
}

fn error_response(status: u16, message: &str) -> ModerationEvent {
    ModerationEvent::Response {
        status,
        body: None,
        error: Some(APIResponse { message: message.to_string() }),
    }
}

#[test]
fn a_success_yields_exactly_the_censored_text() {
    let outcome = moderate_transcript(vec![ok_response("this is a ****** sentence")]);
    assert_eq!(outcome, Ok("this is a ****** sentence".to_string()));
}

#[test]
fn persistent_server_errors_fail_only_after_the_full_budget() {
    // Three retries are owed, so the first three server errors only pause.
    for attempt in 0..3u8 {
        match gateway_step(attempt, error_response(500, "boom")) {
            GatewayStep::Retry { delay_ms } => {
                assert_eq!(delay_ms, backoff_delay_ms(attempt));
            }
            GatewayStep::Done(r) => panic!("settled early at attempt {attempt}: {r:?}"),
        }
    }
    // The fourth attempt settles on the server failure.
    let outcome = moderate_transcript(vec![
        error_response(500, "boom"),
        error_response(500, "boom"),
        error_response(500, "boom"),
        error_response(500, "boom"),
    ]);
    assert_eq!(
        outcome,
        Err(Error::ModerationServer(APILayerError {
            status: 500,
            message: "boom".to_string(),
        }))
    );
}

#[test]
fn a_server_error_that_recovers_still_succeeds() {
    let outcome = moderate_transcript(vec![
        error_response(503, "busy"),
        ok_response("all clean"),
    ]);
    assert_eq!(outcome, Ok("all clean".to_string()));
}

#[test]
fn a_client_error_fails_with_zero_retries() {
    let step = gateway_step(0, error_response(400, "bad api key"));
    assert_eq!(
        step,
        GatewayStep::Done(Err(Error::ModerationClient(APILayerError {
            status: 400,
            message: "bad api key".to_string(),
        })))
    );
    // Even with a success waiting behind it, the client error settles first.
    let outcome = moderate_transcript(vec![
        error_response(400, "bad api key"),
        ok_response("never reached"),
    ]);
    assert_eq!(
        outcome,
        Err(Error::ModerationClient(APILayerError {
            status: 400,
            message: "bad api key".to_string(),
        }))
    );
}

#[test]
fn timeouts_and_throttling_are_retried() {
    assert!(matches!(
        gateway_step(0, error_response(408, "timeout")),
        GatewayStep::Retry { .. }
    ));
    assert!(matches!(
        gateway_step(0, error_response(429, "slow down")),
        GatewayStep::Retry { .. }
    ));
    assert!(matches!(
        gateway_step(0, error_response(404, "gone")),
        GatewayStep::Done(Err(Error::ModerationClient(_)))
    ));
}

#[test]
fn transport_failures_exhaust_into_a_transport_error() {
    let outcome = moderate_transcript(vec![
        ModerationEvent::Transport,
        ModerationEvent::Transport,
        ModerationEvent::Transport,
        ModerationEvent::Transport,
    ]);
    assert_eq!(outcome, Err(Error::ModerationTransport));
}

#[test]
fn an_unreadable_success_body_is_a_decode_failure() {
    let outcome = moderate_transcript(vec![ModerationEvent::Response {
        status: 200,
        body: None,
        error: None,
    }]);
    assert_eq!(outcome, Err(Error::ModerationDecode));
}

#[test]
fn an_unreadable_error_body_is_a_decode_failure() {
    let outcome = moderate_transcript(vec![ModerationEvent::Response {
        status: 400,
        body: None,
        error: None,
    }]);
    assert_eq!(outcome, Err(Error::ModerationDecode));
}

#[test]
fn backoff_doubles_from_one_second() {
    assert_eq!(backoff_delay_ms(0), 1000);
    assert_eq!(backoff_delay_ms(1), 2000);
    assert_eq!(backoff_delay_ms(2), 4000);
    assert_eq!(backoff_delay_ms(3), 8000);
    assert_eq!(backoff_delay_ms(30), 1_800_000);
}

#[test]
fn joined_moderation_needs_both_fields_to_pass() {
    let ok = |s: &str| Ok::<String, Error>(s.to_string());
    assert_eq!(
        join_moderation(ok("a"), ok("b")),
        Ok(("a".to_string(), "b".to_string()))
    );
    assert_eq!(
        join_moderation(Err(Error::ModerationTransport), ok("b")),
        Err(Error::ModerationTransport)
    );
    assert_eq!(
        join_moderation(ok("a"), Err(Error::ModerationDecode)),
        Err(Error::ModerationDecode)
    );
    // When both fail, the title's failure is the one surfaced.
    assert_eq!(
        join_moderation(
            Err(Error::ModerationTransport),
            Err(Error::ModerationDecode)
        ),
        Err(Error::ModerationTransport)
    );
}
