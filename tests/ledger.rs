use intents_ark::fees::split_fee;
use intents_ark::ledger::{
    Contract, ExecutionResult, LedgerError, Settlement, SwapFailure,
};
use intents_ark::types::{ExecutionOutput, ExecutionResponse, SwapResponse, TokenReceiverMessage};

fn owner() -> String {
    "owner.near".to_string()
}

fn ledger() -> Contract {
    let mut c = Contract::new(owner(), None, None, None).unwrap();
    c.whitelist_token(&owner(), "usdc.near".to_string(), None, 100).unwrap();
    c.whitelist_token(&owner(), "wnear.near".to_string(), Some("nep141:wrap.near".to_string()), 1)
        .unwrap();
    c
}

fn swap_msg(token_out: &str, min: Option<&str>) -> TokenReceiverMessage {
    TokenReceiverMessage::Swap {
        token_out: token_out.to_string(),
        min_amount_out: min.map(|m| m.to_string()),
    }
}

fn completed(report: &str) -> ExecutionResult {
    ExecutionResult::Completed(ExecutionResponse {
        success: true,
        output: Some(ExecutionOutput { data: report.to_string(), format: "Json".to_string() }),
        error: None,
    })
}

fn report(success: bool, amount_out: Option<&str>, hash: Option<&str>) -> SwapResponse {
    SwapResponse {
        success,
        amount_out: amount_out.map(|a| a.to_string()),
        error_message: if success { None } else { Some("venue failed".to_string()) },
        intent_hash: hash.map(|h| h.to_string()),
    }
}

#[test]
fn fee_scenario_one_million_at_ten_bps() {
    assert_eq!(split_fee(1_000_000, 10), (1_000, 999_000));
}

#[test]
fn fee_and_remainder_add_up() {
    for (amount, bps) in [(0u128, 0u16), (9_999, 1_000), (12_345_678, 37), (u128::MAX, 1_000), (u128::MAX, 999)] {
        let (fee, rest) = split_fee(amount, bps);
        assert_eq!(fee + rest, amount);
        assert!(fee <= amount);
        if let Some(p) = amount.checked_mul(bps as u128) {
            assert_eq!(fee, p / 10000);
        }
    }
    assert_eq!(split_fee(u128::MAX, 1_000).0, u128::MAX / 10);
    assert_eq!(split_fee(9_999, 1_000), (999, 9_000));
}

#[test]
fn new_ledger_defaults() {
    let c = Contract::new(owner(), None, None, None).unwrap();
    let config = c.get_config();
    assert_eq!(config.operator_id, "owner.near");
    assert_eq!(config.secrets_profile, "production");
    assert_eq!(config.fee_basis_points, 10);
    assert_eq!(config.next_request_id, 0);
    assert!(Contract::new(owner(), None, None, Some(1001)).is_err());
}

#[test]
fn deposit_creates_a_dispatch_job() {
    let mut c = ledger();
    let d = c
        .ft_on_transfer(
            "usdc.near".to_string(),
            "alice.near".to_string(),
            1_000_000,
            swap_msg("wnear.near", Some("500")),
            77,
            &"swap.near".to_string(),
        )
        .unwrap();
    assert_eq!(d.request_id, 0);
    assert_eq!(d.fee_amount, 1_000);
    assert_eq!(d.amount_in, 1_000_000);
    assert_eq!(d.min_amount_out, 500);
    assert_eq!(d.job.token_in, "nep141:usdc.near");
    assert_eq!(d.job.token_out, "nep141:wrap.near");
    assert_eq!(d.job.amount_in, "999000");
    assert_eq!(d.job.min_amount_out, "500");
    assert_eq!(d.job.swap_contract_id, "swap.near");
    let pending = c.get_pending_swap(0).unwrap();
    assert_eq!(pending.amount_in, 1_000_000);
    assert_eq!(pending.timestamp, 77);
    assert_eq!(pending.fee_amount, 1_000);
    assert_eq!(pending.sender_id, "alice.near");
}

#[test]
fn request_ids_strictly_increase() {
    let mut c = ledger();
    let mut last = None;
    for _ in 0..4 {
        let d = c
            .ft_on_transfer(
                "usdc.near".to_string(),
                "alice.near".to_string(),
                1_000,
                swap_msg("wnear.near", None),
                0,
                &"swap.near".to_string(),
            )
            .unwrap();
        if let Some(prev) = last {
            assert!(d.request_id > prev);
        }
        last = Some(d.request_id);
    }
    assert_eq!(c.next_request_id, 4);
}

#[test]
fn non_whitelisted_token_is_rejected_before_dispatch() {
    let mut c = ledger();
    let r = c.ft_on_transfer(
        "scam.near".to_string(),
        "alice.near".to_string(),
        1_000,
        swap_msg("wnear.near", None),
        0,
        &"swap.near".to_string(),
    );
    assert_eq!(r, Err(LedgerError::TokenInNotWhitelisted));
    let r = c.ft_on_transfer(
        "usdc.near".to_string(),
        "alice.near".to_string(),
        1_000,
        swap_msg("scam.near", None),
        0,
        &"swap.near".to_string(),
    );
    assert_eq!(r, Err(LedgerError::TokenOutNotWhitelisted));
    assert_eq!(c.next_request_id, 0);
    assert!(c.get_pending_swap(0).is_none());
}

#[test]
fn deposit_validation_errors() {
    let mut c = ledger();
    let cur = "swap.near".to_string();
    let go = |c: &mut Contract, token: &str, amount: u128, out: &str| {
        c.ft_on_transfer(token.to_string(), "a".to_string(), amount, swap_msg(out, None), 0, &cur)
    };
    assert_eq!(go(&mut c, "usdc.near", 1_000, "usdc.near"), Err(LedgerError::SameToken));
    assert_eq!(go(&mut c, "wnear.near", 0, "usdc.near"), Err(LedgerError::ZeroAmount));
    assert_eq!(
        go(&mut c, "usdc.near", 99, "wnear.near"),
        Err(LedgerError::BelowMinimum { amount: 99, minimum: 100 })
    );
    c.set_swap_paused(&owner(), true).unwrap();
    assert_eq!(go(&mut c, "usdc.near", 1_000, "wnear.near"), Err(LedgerError::SwapsPaused));
    c.set_paused(&owner(), true).unwrap();
    assert_eq!(go(&mut c, "usdc.near", 1_000, "wnear.near"), Err(LedgerError::Paused));
}

#[test]
fn unreadable_minimum_counts_as_zero() {
    let mut c = ledger();
    let d = c
        .ft_on_transfer(
            "usdc.near".to_string(),
            "a".to_string(),
            1_000,
            swap_msg("wnear.near", Some("lots")),
            0,
            &"swap.near".to_string(),
        )
        .unwrap();
    assert_eq!(d.min_amount_out, 0);
    assert_eq!(d.job.min_amount_out, "0");
    assert_eq!(c.get_pending_swap(d.request_id).unwrap().min_amount_out, 0);
}

fn dispatched(c: &mut Contract, min: &str) -> intents_ark::ledger::SwapDispatch {
    c.ft_on_transfer(
        "usdc.near".to_string(),
        "alice.near".to_string(),
        1_000_000,
        swap_msg("wnear.near", Some(min)),
        0,
        &"swap.near".to_string(),
    )
    .unwrap()
}

fn settle(c: &mut Contract, d: &intents_ark::ledger::SwapDispatch, result: ExecutionResult, decoded: Option<SwapResponse>) -> Settlement {
    c.on_execution_response(d.request_id, result, decoded)
}

#[test]
fn settlement_below_minimum_refunds() {
    let mut c = ledger();
    let d = dispatched(&mut c, "500");
    let s = settle(&mut c, &d, completed("{}"), Some(report(true, Some("400"), Some("h1"))));
    assert_eq!(
        s,
        Settlement::Refund {
            token_id: "usdc.near".to_string(),
            receiver_id: "alice.near".to_string(),
            amount: 1_000_000,
            reason: SwapFailure::BelowMinimum { amount_out: 400, min_amount_out: 500 },
        }
    );
    assert_eq!(c.get_collected_fees(&"usdc.near".to_string()), 0);
    assert!(c.get_pending_swap(d.request_id).is_none());
}

#[test]
fn successful_settlement_pays_out_and_collects_the_fee() {
    let mut c = ledger();
    let d = dispatched(&mut c, "500");
    let s = settle(&mut c, &d, completed("{}"), Some(report(true, Some("600"), Some("h1"))));
    assert_eq!(
        s,
        Settlement::Payout {
            token_id: "wnear.near".to_string(),
            receiver_id: "alice.near".to_string(),
            amount: 600,
            memo: "NEAR Intents swap completed. Intent: h1".to_string(),
        }
    );
    assert_eq!(c.get_collected_fees(&"usdc.near".to_string()), 1_000);
    assert!(c.get_pending_swap(d.request_id).is_none());
    let again = settle(&mut c, &d, completed("{}"), Some(report(true, Some("600"), None)));
    assert_eq!(again, Settlement::NotPending);
    assert_eq!(c.get_collected_fees(&"usdc.near".to_string()), 1_000);
    assert!(c.get_pending_swap(d.request_id).is_none());
}

#[test]
fn dispatcher_failures_abort_without_transfer() {
    let cases = vec![
        (ExecutionResult::PromiseFailed, SwapFailure::PromiseFailed),
        (ExecutionResult::NoResponse, SwapFailure::NoResponse),
        (
            ExecutionResult::Completed(ExecutionResponse { success: false, output: None, error: Some("boom".to_string()) }),
            SwapFailure::ExecutionFailed(Some("boom".to_string())),
        ),
    ];
    for (result, reason) in cases {
        let mut c = ledger();
        let d = dispatched(&mut c, "1");
        assert_eq!(settle(&mut c, &d, result, None), Settlement::Aborted { reason });
        assert!(c.get_pending_swap(d.request_id).is_none());
        assert_eq!(c.get_collected_fees(&"usdc.near".to_string()), 0);
    }
}

#[test]
fn failed_swaps_refund_the_whole_deposit() {
    let cases = vec![
        (
            ExecutionResult::Completed(ExecutionResponse { success: true, output: None, error: None }),
            None,
            SwapFailure::NoOutput,
        ),
        (completed("garbage"), None, SwapFailure::Undecodable),
        (
            completed("{}"),
            Some(report(false, None, None)),
            SwapFailure::SwapFailed(Some("venue failed".to_string())),
        ),
        (
            completed("{}"),
            Some(report(true, Some("many"), None)),
            SwapFailure::UnreadableAmount("many".to_string()),
        ),
    ];
    for (result, decoded, reason) in cases {
        let mut c = ledger();
        let d = dispatched(&mut c, "0");
        let s = settle(&mut c, &d, result, decoded);
        assert_eq!(
            s,
            Settlement::Refund {
                token_id: "usdc.near".to_string(),
                receiver_id: "alice.near".to_string(),
                amount: 1_000_000,
                reason,
            }
        );
        assert!(c.get_pending_swap(d.request_id).is_none());
        assert_eq!(c.get_collected_fees(&"usdc.near".to_string()), 0);
    }
}

#[test]
fn unknown_request_changes_nothing() {
    let mut c = ledger();
    let s = c.on_execution_response(42, completed("{}"), Some(report(true, Some("600"), Some("h"))));
    assert_eq!(s, Settlement::NotPending);
    assert_eq!(c.get_collected_fees(&"usdc.near".to_string()), 0);
}

#[test]
fn admin_calls_need_the_owner() {
    let mut c = ledger();
    let mallory = "mallory.near".to_string();
    assert_eq!(c.set_owner(&mallory, mallory.clone()), Err(LedgerError::NotOwner));
    assert_eq!(c.set_fee_percentage(&owner(), 1001), Err(LedgerError::FeeTooHigh));
    assert_eq!(c.set_fee_percentage(&owner(), 1000), Ok(()));
    assert_eq!(
        c.update_token_config(&owner(), "nope.near".to_string(), None, Some(5)),
        Err(LedgerError::TokenNotWhitelisted)
    );
    c.update_token_config(&owner(), "usdc.near".to_string(), None, Some(5)).unwrap();
    let config = c.get_token_config(&"usdc.near".to_string()).unwrap();
    assert_eq!(config.min_swap_amount, 5);
    assert_eq!(config.defuse_asset_id, "nep141:usdc.near");
    c.remove_token_from_whitelist(&owner(), "usdc.near".to_string()).unwrap();
    assert!(!c.is_token_whitelisted(&"usdc.near".to_string()));
    c.set_owner(&owner(), "new.near".to_string()).unwrap();
    assert_eq!(c.set_paused(&owner(), true), Err(LedgerError::NotOwner));
    assert!(!c.is_swap_paused());
}

#[test]
fn fees_are_withdrawn_to_the_owner() {
    let mut c = ledger();
    let d = dispatched(&mut c, "1");
    settle(&mut c, &d, completed("{}"), Some(report(true, Some("10"), None)));
    let token = "usdc.near".to_string();
    assert_eq!(c.withdraw_fees(&owner(), "wnear.near".to_string(), None), Err(LedgerError::NoFees));
    assert_eq!(
        c.withdraw_fees(&owner(), token.clone(), Some(5_000)),
        Err(LedgerError::InsufficientFees { requested: 5_000, available: 1_000 })
    );
    let w = c.withdraw_fees(&owner(), token.clone(), Some(400)).unwrap();
    assert_eq!((w.amount, w.remaining, w.receiver_id.as_str()), (400, 600, "owner.near"));
    let w = c.withdraw_fees(&owner(), token.clone(), None).unwrap();
    assert_eq!((w.amount, w.remaining), (600, 0));
    assert_eq!(c.get_collected_fees(&token), 0);
}
