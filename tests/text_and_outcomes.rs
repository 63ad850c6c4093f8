use intents_ark::calls::{
    account_args, ft_transfer_call_args, registration_output, storage_deposit_args,
    storage_test_step, view_args_base64, view_result_text, BalanceLookup,
};
use intents_ark::outcome::{
    classify_outcome, format_tx_error, ActionError, ActionErrorKind, ExecutionOutcome,
    ExecutionStatus, FinalExecutionOutcome, FinalExecutionStatus, FunctionCallErrorKind,
    OutcomeError, TxExecutionError,
};
use intents_ark::text::{decimal, padded_decimal, parse_u128, strip_prefix};

#[test]
fn decimal_text_round_trips() {
    assert_eq!(decimal(0), "0");
    assert_eq!(decimal(999_000), "999000");
    assert_eq!(decimal(u128::MAX), u128::MAX.to_string());
    assert_eq!(padded_decimal(7, 4), "0007");
    assert_eq!(padded_decimal(12345, 4), "12345");
    assert_eq!(parse_u128("250"), Some(250));
    assert_eq!(parse_u128("+7"), Some(7));
    assert_eq!(parse_u128("abc"), None);
    assert_eq!(parse_u128(""), None);
    assert_eq!(parse_u128("+"), None);
    assert_eq!(parse_u128("-1"), None);
    assert_eq!(parse_u128(&u128::MAX.to_string()), Some(u128::MAX));
    assert_eq!(parse_u128("340282366920938463463374607431768211456"), None);
    assert_eq!(strip_prefix("nep141:wrap.near", "nep141:"), Some("wrap.near"));
    assert_eq!(strip_prefix("wrap.near", "nep141:"), None);
}

#[test]
fn call_arguments_are_json() {
    assert_eq!(account_args("a.near"), r#"{"account_id":"a.near"}"#);
    assert_eq!(
        ft_transfer_call_args("intents.near", "5", ""),
        r#"{"amount":"5","msg":"","receiver_id":"intents.near"}"#
    );
    assert_eq!(storage_deposit_args(None, false), r#"{"account_id":null,"registration_only":false}"#);
    assert_eq!(
        storage_deposit_args(Some("x"), true),
        r#"{"account_id":"x","registration_only":true}"#
    );
    assert_eq!(view_args_base64("{}").as_deref(), Some("e30="));
    assert_eq!(
        account_args("a\"b\\c\u{1}\u{1f}\n\t\u{8}\u{c}\r\u{7f}é"),
        "{\"account_id\":\"a\\\"b\\\\c\\u0001\\u001f\\n\\t\\b\\f\\r\u{7f}é\"}"
    );
}

#[test]
fn view_results_decode_as_utf8() {
    assert_eq!(view_result_text(&vec![110, 117, 108, 108]).as_deref(), Some("null"));
    assert_eq!(view_result_text(&vec![104, 105]).as_deref(), Some("hi"));
    assert_eq!(view_result_text(&vec![321]), None);
    assert_eq!(view_result_text(&vec![256 + 104, 105]), None);
    assert_eq!(view_result_text(&vec![0xff, 0xfe]), None);
}

#[test]
fn storage_test_reports() {
    let o = storage_test_step(BalanceLookup::Registered { total: None }).unwrap();
    assert!(o.success && o.already_registered);
    assert_eq!(o.storage_balance.as_deref(), Some("unknown"));
    assert_eq!(storage_test_step(BalanceLookup::NotRegistered), None);
    assert_eq!(storage_test_step(BalanceLookup::Failed("x".to_string())), None);
    let o = registration_output(Ok("tx".to_string()));
    assert!(o.success && !o.already_registered);
    assert_eq!(o.tx_hash.as_deref(), Some("tx"));
    let o = registration_output(Err("bad".to_string()));
    assert!(!o.success);
    assert_eq!(o.error.as_deref(), Some("bad"));
}

fn ok_outcome(id: &str) -> ExecutionOutcome {
    ExecutionOutcome {
        id: id.to_string(),
        logs: vec![],
        status: ExecutionStatus::SuccessValue(String::new()),
    }
}

fn panic_error(index: Option<u64>, text: &str) -> TxExecutionError {
    TxExecutionError::ActionError(ActionError {
        index,
        kind: ActionErrorKind::FunctionCallError(FunctionCallErrorKind::ExecutionError(
            text.to_string(),
        )),
    })
}

fn report(status: FinalExecutionStatus, tx: ExecutionOutcome, receipts: Vec<ExecutionOutcome>) -> FinalExecutionOutcome {
    FinalExecutionOutcome {
        transaction_hash: "txhash".to_string(),
        status,
        transaction_outcome: tx,
        receipts_outcome: receipts,
    }
}

#[test]
fn outcome_levels_are_checked_in_order() {
    let ok = FinalExecutionStatus::SuccessValue(String::new());
    assert_eq!(
        classify_outcome(&report(ok.clone(), ok_outcome("t"), vec![ok_outcome("r0")])),
        Ok("txhash".to_string())
    );
    let e = panic_error(Some(0), "nope");
    assert_eq!(
        classify_outcome(&report(FinalExecutionStatus::Failure(e.clone()), ok_outcome("t"), vec![])),
        Err(OutcomeError::Failed(e.clone()))
    );
    assert_eq!(
        classify_outcome(&report(FinalExecutionStatus::Started, ok_outcome("t"), vec![])),
        Err(OutcomeError::Started)
    );
    let failed_tx = ExecutionOutcome { id: "t".to_string(), logs: vec![], status: ExecutionStatus::Failure(e.clone()) };
    assert_eq!(
        classify_outcome(&report(ok.clone(), failed_tx, vec![])),
        Err(OutcomeError::TransactionFailed(e.clone()))
    );
    let bad = |t: &str| ExecutionOutcome {
        id: "r".to_string(),
        logs: vec!["log".to_string()],
        status: ExecutionStatus::Failure(panic_error(None, t)),
    };
    let r = classify_outcome(&report(ok, ok_outcome("t"), vec![ok_outcome("r0"), bad("first"), bad("second")]));
    assert_eq!(r, Err(OutcomeError::ReceiptFailed { index: 1, error: panic_error(None, "first") }));
    assert_eq!(r.unwrap_err().message(), "Receipt 1 failed: Smart contract panicked: first");
}

#[test]
fn execution_errors_read_well() {
    assert_eq!(format_tx_error(&panic_error(Some(2), "boom")), "action 2: Smart contract panicked: boom");
    assert_eq!(
        format_tx_error(&TxExecutionError::InvalidTxError("{\"x\":1}".to_string())),
        "Invalid transaction: {\"x\":1}"
    );
    assert_eq!(
        format_tx_error(&TxExecutionError::ActionError(ActionError {
            index: None,
            kind: ActionErrorKind::Other("AccountDoesNotExist".to_string()),
        })),
        "Action error: AccountDoesNotExist"
    );
    assert_eq!(OutcomeError::NotStarted.message(), "Transaction not started");
}
