//! Records the escrow ledger keeps and the messages it exchanges.
use vstd::prelude::*;

verus! {

/// An amount of a fungible token, in its smallest unit.
pub type Balance = u128;

/// A token's account name on the ledger.
pub type TokenId = String;

/// How an allow-listed token is named at the settlement venue, and the
/// smallest deposit of it that may be swapped.
#[derive(Debug, Clone, PartialEq, Eq)]
pub struct TokenConfig {
    pub defuse_asset_id: String,
    pub min_swap_amount: Balance,
}

/// A swap whose outcome the ledger is waiting for.
#[derive(Debug, Clone, PartialEq, Eq)]
pub struct SwapRequest {
    pub request_id: u64,
    pub sender_id: String,
    pub token_in: TokenId,
    pub token_out: TokenId,
    /// The whole deposit, fee included, so that a refund returns all of it.
    pub amount_in: Balance,
    pub min_amount_out: Balance,
    /// The fee taken from the deposit, credited only if the swap pays out.
    pub fee_amount: Balance,
    pub timestamp: u64,
}

/// The worker's report of one swap.
#[derive(Debug, Clone, PartialEq, Eq)]
pub struct SwapResponse {
    pub success: bool,
    pub amount_out: Option<String>,
    pub error_message: Option<String>,
    pub intent_hash: Option<String>,
}

/// What a deposit's message asks for.
#[derive(Debug, Clone, PartialEq, Eq)]
pub enum TokenReceiverMessage {
    Swap { token_out: TokenId, min_amount_out: Option<String> },
}

/// The compute dispatcher's report of a job it ran.
#[derive(Debug, Clone, PartialEq, Eq)]
pub struct ExecutionResponse {
    pub success: bool,
    pub output: Option<ExecutionOutput>,
    pub error: Option<String>,
}

/// The output of a job: its data and the format it is in.
#[derive(Debug, Clone, PartialEq, Eq)]
pub struct ExecutionOutput {
    pub data: String,
    pub format: String,
}

pub(crate) fn copy_string(s: &String) -> (r: String)
    ensures
        r == *s,
{
    s.clone()
}

impl TokenConfig {
    pub fn copy(&self) -> (r: TokenConfig)
        ensures
            r == *self,
    {
        TokenConfig {
            defuse_asset_id: copy_string(&self.defuse_asset_id),
            min_swap_amount: self.min_swap_amount,
        }
    }
}

impl SwapRequest {
    pub fn copy(&self) -> (r: SwapRequest)
        ensures
            r == *self,
    {
        SwapRequest {
            request_id: self.request_id,
            sender_id: copy_string(&self.sender_id),
            token_in: copy_string(&self.token_in),
            token_out: copy_string(&self.token_out),
            amount_in: self.amount_in,
            min_amount_out: self.min_amount_out,
            fee_amount: self.fee_amount,
            timestamp: self.timestamp,
        }
    }
}

} // verus!
