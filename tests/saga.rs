use base64::Engine;
use intents_ark::intents::{
    get_deadline_180s, select_best_quote, settlement_step, swap_intent_message,
    withdraw_intent_message, PollDecision, PollReply, Quote, QuoteError, QuoteReply, QuoteStep,
    quote_step,
};
use intents_ark::saga::{
    Now, PublishReply, Saga, SagaAction, SagaEvent, SagaPhase, StorageReply, SwapInput,
};

fn quote(out: &str) -> Quote {
    Quote {
        amount_in: "1000".to_string(),
        amount_out: out.to_string(),
        expiration_time: "2030-01-01T00:00:00.000Z".to_string(),
        quote_hash: format!("hash-{}", out),
    }
}

#[test]
fn best_quote_is_a_largest_parseable_one() {
    let quotes = vec![quote("100"), quote("250"), quote("abc"), quote("250")];
    let i = select_best_quote(&quotes).unwrap();
    assert_eq!(quotes[i].amount_out, "250");
    assert_eq!(i, 3);
    assert_eq!(select_best_quote(&vec![]), None);
    assert_eq!(select_best_quote(&vec![quote("abc")]), Some(0));
}

#[test]
fn quote_attempts_retry_then_give_up() {
    let e = QuoteError::HttpStatus(502);
    assert_eq!(
        quote_step(1, QuoteReply::Failed(e.clone())),
        QuoteStep::Retry { attempt: 2, delay_ms: 1000, last_error: e.clone() }
    );
    assert_eq!(quote_step(3, QuoteReply::Failed(e.clone())), QuoteStep::GiveUp(e));
    assert_eq!(
        quote_step(3, QuoteReply::Quotes(vec![])),
        QuoteStep::GiveUp(QuoteError::NoQuotes)
    );
    assert_eq!(
        quote_step(2, QuoteReply::Quotes(vec![quote("1"), quote("7")])),
        QuoteStep::Accept(quote("7"))
    );
}

fn status(s: &str) -> PollReply {
    PollReply::Status(s.to_string())
}

fn run_polls(replies: Vec<PollReply>) -> (PollDecision, u32) {
    let mut polls = 0u32;
    for r in replies {
        polls += 1;
        let d = settlement_step(polls, r);
        if d != PollDecision::PollAgain {
            return (d, polls);
        }
    }
    (PollDecision::PollAgain, polls)
}

#[test]
fn pending_pending_settled_succeeds() {
    assert_eq!(
        run_polls(vec![status("PENDING"), status("PENDING"), status("SETTLED")]),
        (PollDecision::Settled, 3)
    );
}

#[test]
fn thirty_pending_statuses_time_out() {
    let replies = (0..40).map(|_| status("PENDING")).collect();
    assert_eq!(run_polls(replies), (PollDecision::TimedOut, 30));
}

#[test]
fn failed_status_stops_polling_at_once() {
    let mut replies = vec![status("FAILED")];
    replies.extend((0..29).map(|_| status("SETTLED")));
    assert_eq!(run_polls(replies), (PollDecision::Failed, 1));
    assert_eq!(settlement_step(5, status("NOT_FOUND_OR_NOT_VALID_ANYMORE")), PollDecision::Failed);
    assert_eq!(settlement_step(5, PollReply::NoStatus), PollDecision::PollAgain);
    assert_eq!(
        settlement_step(5, PollReply::Broken("down".to_string())),
        PollDecision::Broken("down".to_string())
    );
}

#[test]
fn intent_messages_are_json() {
    let m = swap_intent_message("swap.near", "D", "nep141:a", "10", "nep141:b", "20");
    assert_eq!(
        m,
        r#"{"signer_id": "swap.near","deadline": "D","intents": [{"intent": "token_diff","diff": {"nep141:a": "-10","nep141:b": "20"}}]}"#
    );
    let w = withdraw_intent_message("swap.near", "D", "b", "alice.near", "20");
    assert_eq!(
        w,
        r#"{"signer_id":"swap.near","deadline":"D","intents":[{"intent":"ft_withdraw","token":"b","receiver_id":"alice.near","amount":"20"}]}"#
    );
    let quoted = swap_intent_message("a\"b", "D", "x", "1", "y", "2");
    assert!(quoted.contains(r#""a\"b""#));
}

#[test]
fn deadline_is_a_calendar_date() {
    assert_eq!(get_deadline_180s(0), "1970-01-01T00:03:00.000Z");
    assert_eq!(get_deadline_180s(1_700_000_000 - 180), "2023-11-14T22:13:20.000Z");
    assert_eq!(get_deadline_180s(951_782_400 - 180), "2000-02-29T00:00:00.000Z");
    assert_eq!(get_deadline_180s(4_102_444_799 - 180), "2099-12-31T23:59:59.000Z");
}

fn input(min: &str) -> SwapInput {
    SwapInput {
        sender_id: "alice.near".to_string(),
        token_in: "nep141:usdc.near".to_string(),
        token_out: "nep141:wrap.near".to_string(),
        amount_in: "1000".to_string(),
        min_amount_out: min.to_string(),
        swap_contract_id: "swap.near".to_string(),
    }
}

fn key() -> String {
    format!("ed25519:{}", bs58::encode(&[1u8; 32]).into_string())
}

const NOW: Now = Now { unix_secs: 1_700_000_000, unix_nanos: 1_700_000_000_000_000_000 };

fn finish(a: SagaAction) -> intents_ark::types::SwapResponse {
    match a {
        SagaAction::Finish(o) => o,
        other => panic!("expected the end, got {:?}", other),
    }
}

#[test]
fn quote_below_minimum_fails_with_the_minimum() {
    let (mut saga, first) = Saga::start(input("500"), key());
    assert!(matches!(first, SagaAction::RequestQuote { delay_ms: 0, .. }));
    let a = saga.advance(SagaEvent::Quote(QuoteReply::Quotes(vec![quote("400")])), NOW);
    let out = finish(a);
    assert!(!out.success);
    assert_eq!(out.error_message.as_deref(), Some("Insufficient liquidity: 400 < 500"));
    assert!(saga.is_done());
}

#[test]
fn quote_failures_end_in_an_internal_error() {
    let (mut saga, _) = Saga::start(input("1"), key());
    for attempt in 2..=3 {
        let a = saga.advance(SagaEvent::Quote(QuoteReply::Failed(QuoteError::HttpStatus(500))), NOW);
        assert!(matches!(a, SagaAction::RequestQuote { delay_ms: 1000, .. }));
        assert_eq!(saga.phase, SagaPhase::Quoting { attempt });
    }
    let a = saga.advance(SagaEvent::Quote(QuoteReply::Failed(QuoteError::Api("busy".to_string()))), NOW);
    assert_eq!(
        finish(a).error_message.as_deref(),
        Some("Internal error: Quote API failed after 3 retries. Last error: Quote API error: busy")
    );
}

#[test]
fn full_saga_succeeds_with_the_withdrawal_hash() {
    let (mut saga, _) = Saga::start(input("100"), key());
    let a = saga.advance(
        SagaEvent::Quote(QuoteReply::Quotes(vec![quote("150"), quote("abc"), quote("200")])),
        NOW,
    );
    match a {
        SagaAction::CheckStorage { token_contract, args } => {
            assert_eq!(token_contract, "wrap.near");
            assert_eq!(args, r#"{"account_id":"alice.near"}"#);
        }
        other => panic!("{:?}", other),
    }
    let a = saga.advance(SagaEvent::Storage(StorageReply::Unavailable("timeout".to_string())), NOW);
    match a {
        SagaAction::Deposit { token_contract, receiver_id, args, gas, deposit } => {
            assert_eq!(token_contract, "usdc.near");
            assert_eq!(receiver_id, "intents.near");
            assert_eq!(args, r#"{"amount":"1000","msg":"","receiver_id":"intents.near"}"#);
            assert_eq!((gas, deposit), (300_000_000_000_000, 1));
        }
        other => panic!("{:?}", other),
    }
    let a = saga.advance(SagaEvent::Deposit(Ok("tx".to_string())), NOW);
    match a {
        SagaAction::PublishIntent { intent, quote_hash } => {
            assert_eq!(quote_hash.as_deref(), Some("hash-200"));
            assert!(intent.message.contains(r#""nep141:usdc.near": "-1000""#));
            assert!(intent.message.contains(r#""nep141:wrap.near": "200""#));
            assert_eq!(intent.standard, "nep413");
            assert!(intent.signature.starts_with("ed25519:"));
            let nonce = base64::engine::general_purpose::STANDARD.decode(&intent.nonce).unwrap();
            assert_eq!(nonce.len(), 32);
        }
        other => panic!("{:?}", other),
    }
    let a = saga.advance(
        SagaEvent::Published(PublishReply::Published {
            status: "OK".to_string(),
            intent_hash: Some("swap-hash".to_string()),
        }),
        NOW,
    );
    assert_eq!(a, SagaAction::PollStatus { intent_hash: "swap-hash".to_string(), delay_ms: 0 });
    let a = saga.advance(SagaEvent::Status(status("PENDING")), NOW);
    assert_eq!(a, SagaAction::PollStatus { intent_hash: "swap-hash".to_string(), delay_ms: 1000 });
    let a = saga.advance(SagaEvent::Status(status("SETTLED")), NOW);
    match a {
        SagaAction::PublishIntent { intent, quote_hash } => {
            assert_eq!(quote_hash, None);
            assert!(intent.message.contains(r#""intent":"ft_withdraw","token":"wrap.near""#));
            assert!(intent.message.contains(r#""deadline":"2023-11-14T22:16:20.000Z""#));
        }
        other => panic!("{:?}", other),
    }
    let a = saga.advance(
        SagaEvent::Published(PublishReply::Published {
            status: "OK".to_string(),
            intent_hash: Some("withdraw-hash".to_string()),
        }),
        NOW,
    );
    assert_eq!(a, SagaAction::PollStatus { intent_hash: "withdraw-hash".to_string(), delay_ms: 0 });
    let out = finish(saga.advance(SagaEvent::Status(status("SETTLED")), NOW));
    assert!(out.success);
    assert_eq!(out.amount_out.as_deref(), Some("200"));
    assert_eq!(out.intent_hash.as_deref(), Some("withdraw-hash"));
    assert_eq!(out.error_message, None);
}

#[test]
fn unregistered_recipient_fails_early() {
    let (mut saga, _) = Saga::start(input("1"), key());
    saga.advance(SagaEvent::Quote(QuoteReply::Quotes(vec![quote("5")])), NOW);
    let out = finish(saga.advance(SagaEvent::Storage(StorageReply::NotRegistered), NOW));
    assert_eq!(
        out.error_message.as_deref(),
        Some("User alice.near has no storage deposit for output token wrap.near. Please call storage_deposit first.")
    );
}

#[test]
fn settlement_timeout_reports_the_intent() {
    let (mut saga, _) = Saga::start(input("1"), key());
    saga.advance(SagaEvent::Quote(QuoteReply::Quotes(vec![quote("5")])), NOW);
    saga.advance(SagaEvent::Storage(StorageReply::Registered), NOW);
    saga.advance(SagaEvent::Deposit(Ok("tx".to_string())), NOW);
    saga.advance(
        SagaEvent::Published(PublishReply::Published {
            status: "OK".to_string(),
            intent_hash: Some("h".to_string()),
        }),
        NOW,
    );
    let out = finish(saga.advance(SagaEvent::Status(status("FAILED")), NOW));
    assert!(!out.success);
    assert_eq!(
        out.error_message.as_deref(),
        Some("Intent settlement failed: the venue reported a final failure")
    );
    assert_eq!(out.intent_hash.as_deref(), Some("h"));
}

fn published_saga() -> Saga {
    let (mut saga, _) = Saga::start(input("1"), key());
    saga.advance(SagaEvent::Quote(QuoteReply::Quotes(vec![quote("5")])), NOW);
    saga.advance(SagaEvent::Storage(StorageReply::Registered), NOW);
    saga.advance(SagaEvent::Deposit(Ok("tx".to_string())), NOW);
    saga.advance(
        SagaEvent::Published(PublishReply::Published {
            status: "OK".to_string(),
            intent_hash: Some("h".to_string()),
        }),
        NOW,
    );
    saga
}

#[test]
fn thirty_pending_polls_time_out_with_the_intent() {
    let mut saga = published_saga();
    for _ in 0..29 {
        let a = saga.advance(SagaEvent::Status(status("PENDING")), NOW);
        assert_eq!(a, SagaAction::PollStatus { intent_hash: "h".to_string(), delay_ms: 1000 });
    }
    let out = finish(saga.advance(SagaEvent::Status(status("PENDING")), NOW));
    assert_eq!(out.error_message.as_deref(), Some("Intent failed to settle within timeout"));
    assert_eq!(out.intent_hash.as_deref(), Some("h"));
}

#[test]
fn broken_poll_keeps_the_intent_hash() {
    let mut saga = published_saga();
    let out = finish(saga.advance(SagaEvent::Status(PollReply::Broken("down".to_string())), NOW));
    assert!(!out.success);
    assert_eq!(out.error_message.as_deref(), Some("Internal error: down"));
    assert_eq!(out.intent_hash.as_deref(), Some("h"));
}

#[test]
fn failed_withdrawal_keeps_amount_and_hash() {
    let (mut saga, _) = Saga::start(input("1"), key());
    saga.advance(SagaEvent::Quote(QuoteReply::Quotes(vec![quote("5")])), NOW);
    saga.advance(SagaEvent::Storage(StorageReply::Registered), NOW);
    saga.advance(SagaEvent::Deposit(Ok("tx".to_string())), NOW);
    saga.advance(
        SagaEvent::Published(PublishReply::Published {
            status: "OK".to_string(),
            intent_hash: Some("h".to_string()),
        }),
        NOW,
    );
    saga.advance(SagaEvent::Status(status("SETTLED")), NOW);
    let out = finish(saga.advance(
        SagaEvent::Published(PublishReply::Published { status: "FAILED".to_string(), intent_hash: None }),
        NOW,
    ));
    assert!(!out.success);
    assert_eq!(out.amount_out.as_deref(), Some("5"));
    assert_eq!(out.intent_hash.as_deref(), Some("h"));
    assert_eq!(out.error_message.as_deref(), Some("Failed to withdraw tokens from intents contract"));
}

#[test]
fn errors_mid_saga_end_it() {
    let (mut saga, _) = Saga::start(input("1"), key());
    let out = finish(saga.advance(SagaEvent::Storage(StorageReply::Registered), NOW));
    assert_eq!(out.error_message.as_deref(), Some("Internal error: Unexpected event for the current step"));

    let (mut saga, _) = Saga::start(input("1"), "not-a-key!".to_string());
    saga.advance(SagaEvent::Quote(QuoteReply::Quotes(vec![quote("5")])), NOW);
    saga.advance(SagaEvent::Storage(StorageReply::Registered), NOW);
    let out = finish(saga.advance(SagaEvent::Deposit(Ok("tx".to_string())), NOW));
    assert_eq!(out.error_message.as_deref(), Some("Internal error: Failed to decode private key"));

    let (mut saga, _) = Saga::start(input("1"), key());
    saga.advance(SagaEvent::Quote(QuoteReply::Quotes(vec![quote("5")])), NOW);
    saga.advance(SagaEvent::Storage(StorageReply::Registered), NOW);
    let out = finish(saga.advance(SagaEvent::Deposit(Err("Receipt 0 failed: boom".to_string())), NOW));
    assert_eq!(out.error_message.as_deref(), Some("Internal error: Receipt 0 failed: boom"));
}
