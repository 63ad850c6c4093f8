//! The function calls the worker makes on the ledger, and their JSON arguments.
use vstd::prelude::*;
use vstd::utf8::encode_utf8;
use crate::primitives::{base64_encode, base64_of, json_quote, json_quoted, utf8_text};
use vstd::utf8::{decode_utf8, valid_utf8};

verus! {

/// Gas for a transfer-with-message call: 300 TGas.
pub const FT_TRANSFER_CALL_GAS: u64 = 300_000_000_000_000;

/// Deposit a transfer-with-message call requires: one yoctoNEAR.
pub const FT_TRANSFER_CALL_DEPOSIT: u128 = 1;

/// Gas for a storage registration call: 30 TGas.
pub const STORAGE_DEPOSIT_GAS: u64 = 30_000_000_000_000;

/// Deposit that pays for a storage registration: 0.00125 NEAR.
pub const STORAGE_DEPOSIT_AMOUNT: u128 = 1_250_000_000_000_000_000_000;

/// `{"account_id":<account_id>}`.
pub open spec fn account_args_of(account_id: Seq<char>) -> Seq<char> {
    "{\"account_id\":"@ + json_quoted(account_id) + "}"@
}

/// `{"amount":..,"msg":..,"receiver_id":..}`, keys in sorted order.
pub open spec fn ft_transfer_call_args_of(
    receiver_id: Seq<char>,
    amount: Seq<char>,
    msg: Seq<char>,
) -> Seq<char> {
    "{\"amount\":"@ + json_quoted(amount) + ",\"msg\":"@ + json_quoted(msg) + ",\"receiver_id\":"@
        + json_quoted(receiver_id) + "}"@
}

/// `{"account_id":..,"registration_only":..}`; a missing account is `null`.
pub open spec fn storage_deposit_args_of(
    account_id: Option<Seq<char>>,
    registration_only: bool,
) -> Seq<char> {
    "{\"account_id\":"@ + match account_id {
        Some(a) => json_quoted(a),
        None => "null"@,
    } + ",\"registration_only\":"@ + if registration_only {
        "true"@
    } else {
        "false"@
    } + "}"@
}

pub fn account_args(account_id: &str) -> (r: String)
    ensures
        r@ == account_args_of(account_id@),
{
    String::from_str("{\"account_id\":").concat(json_quote(account_id).as_str()).concat("}")
}

pub fn ft_transfer_call_args(receiver_id: &str, amount: &str, msg: &str) -> (r: String)
    ensures
        r@ == ft_transfer_call_args_of(receiver_id@, amount@, msg@),
{
    String::from_str("{\"amount\":").concat(json_quote(amount).as_str()).concat(",\"msg\":").concat(
        json_quote(msg).as_str(),
    ).concat(",\"receiver_id\":").concat(json_quote(receiver_id).as_str()).concat("}")
}

pub fn storage_deposit_args(account_id: Option<&str>, registration_only: bool) -> (r: String)
    ensures
        r@ == storage_deposit_args_of(
            match account_id {
                Some(a) => Some(a@),
                None => None,
            },
            registration_only,
        ),
{
    let account = match account_id {
        Some(a) => json_quote(a),
        None => String::from_str("null"),
    };
    let flag = if registration_only {
        "true"
    } else {
        "false"
    };
    String::from_str("{\"account_id\":").concat(account.as_str()).concat(
        ",\"registration_only\":",
    ).concat(flag).concat("}")
}

/// The arguments of a read-only call as the ledger's RPC takes them: the
/// base64 text of their UTF-8 bytes.
pub fn view_args_base64(args: &str) -> (r: Option<String>)
    ensures
        r is Some <==> encode_utf8(args@).len() <= usize::MAX / 2,
        r matches Some(text) ==> text@ == base64_of(encode_utf8(args@)),
{
    let bytes = args.as_bytes();
    if bytes.len() > usize::MAX / 2 {
        return None;
    }
    Some(base64_encode(bytes))
}

/// Whether every number of a read-only call's result is a byte value.
pub open spec fn all_bytes(values: Seq<u64>) -> bool {
    forall|i: int| 0 <= i < values.len() ==> #[trigger] values[i] <= 255
}

/// The bytes of a read-only call's result, when every number is a byte value.
pub open spec fn result_bytes_of(values: Seq<u64>) -> Seq<u8> {
    values.map_values(|v: u64| v as u8)
}

/// The text a read-only call returned: its result bytes as UTF-8. Nothing
/// when a number is above 255 or the bytes are not valid UTF-8.
pub fn view_result_text(values: &Vec<u64>) -> (r: Option<String>)
    ensures
        r is Some <==> all_bytes(values@) && valid_utf8(result_bytes_of(values@)),
        r matches Some(s) ==> s@ == decode_utf8(result_bytes_of(values@)),
{
    let mut bytes: Vec<u8> = Vec::new();
    let mut i: usize = 0;
    while i < values.len()
        invariant
            i <= values@.len(),
            all_bytes(values@.subrange(0, i as int)),
            bytes@ == result_bytes_of(values@.subrange(0, i as int)),
        decreases values@.len() - i,
    {
        if values[i] > 255 {
            assert(!all_bytes(values@)) by {
                assert(values@[i as int] > 255);
            }
            return None;
        }
        bytes.push(values[i] as u8);
        assert(result_bytes_of(values@.subrange(0, i + 1)) =~= result_bytes_of(
            values@.subrange(0, i as int),
        ).push(values@[i as int] as u8));
        assert(all_bytes(values@.subrange(0, i + 1))) by {
            assert forall|k: int| 0 <= k < i + 1 implies #[trigger] values@.subrange(0, i + 1)[k]
                <= 255 by {
                if k < i {
                    assert(values@.subrange(0, i + 1)[k] == values@.subrange(0, i as int)[k]);
                }
            }
        }
        i = i + 1;
    }
    assert(values@.subrange(0, values@.len() as int) =~= values@);
    utf8_text(bytes)
}

/// What the storage test found when it looked up the worker's own storage
/// balance on a token contract.
#[derive(Debug, Clone, PartialEq, Eq)]
pub enum BalanceLookup {
    /// A balance is recorded; `total` is its total, when it is text.
    Registered { total: Option<String> },
    /// The contract returned no balance.
    NotRegistered,
    /// The lookup failed.
    Failed(String),
}

/// The storage test's report.
#[derive(Debug, Clone, PartialEq, Eq)]
pub struct TestStorageOutput {
    pub success: bool,
    pub already_registered: bool,
    pub storage_balance: Option<String>,
    pub tx_hash: Option<String>,
    pub error: Option<String>,
}

/// Whether `o` reports an account that was registered already, with this balance.
pub open spec fn reports_registered(o: TestStorageOutput, balance: Seq<char>) -> bool {
    &&& o.success
    &&& o.already_registered
    &&& o.storage_balance matches Some(b) && b@ == balance
    &&& o.tx_hash is None
    &&& o.error is None
}

/// The storage test's report when the account is registered already, or
/// nothing when it must register first. A total that is not text is
/// reported as `unknown`.
pub fn storage_test_step(lookup: BalanceLookup) -> (r: Option<TestStorageOutput>)
    ensures
        match lookup {
            BalanceLookup::Registered { total } => r matches Some(o) && reports_registered(
                o,
                match total {
                    Some(t) => t@,
                    None => "unknown"@,
                },
            ),
            _ => r is None,
        },
{
    match lookup {
        BalanceLookup::Registered { total } => {
            let balance = match total {
                Some(t) => t,
                None => String::from_str("unknown"),
            };
            Some(
                TestStorageOutput {
                    success: true,
                    already_registered: true,
                    storage_balance: Some(balance),
                    tx_hash: None,
                    error: None,
                },
            )
        },
        _ => None,
    }
}

/// The storage test's report after registering: the transaction's hash, or
/// why it failed.
pub fn registration_output(result: Result<String, String>) -> (r: TestStorageOutput)
    ensures
        !r.already_registered,
        r.storage_balance is None,
        match result {
            Ok(hash) => r.success && r.tx_hash == Some(hash) && r.error is None,
            Err(e) => !r.success && r.tx_hash is None && r.error == Some(e),
        },
{
    match result {
        Ok(hash) => TestStorageOutput {
            success: true,
            already_registered: false,
            storage_balance: None,
            tx_hash: Some(hash),
            error: None,
        },
        Err(e) => TestStorageOutput {
            success: false,
            already_registered: false,
            storage_balance: None,
            tx_hash: None,
            error: Some(e),
        },
    }
}

} // verus!
