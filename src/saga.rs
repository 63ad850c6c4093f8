//! The swap saga: quote, pre-flight check, deposit, publish intent, poll
//! settlement, withdraw, poll settlement again.
//!
//! The saga decides; its host acts. Each call of `Saga::advance` takes what
//! the last action brought back and returns the next action, until it
//! returns `Finish` with the saga's one structured result. Any failure ends
//! the saga at once with a failure result; nothing escapes as a panic.
use vstd::prelude::*;
use crate::calls::{ft_transfer_call_args, ft_transfer_call_args_of, account_args, account_args_of, FT_TRANSFER_CALL_DEPOSIT, FT_TRANSFER_CALL_GAS};
use crate::calendar::is_iso_time;
use crate::crypto::{
    generate_nonce, intents_contract, key_prefix, nonce_of, opt_view, signed_message, SignError,
    INTENTS_CONTRACT,
};
use crate::intents::{
    get_deadline_180s, is_best_quote, is_signed_intent, poll_decision, quote_step, settlement_step,
    signed_intent, swap_intent_message, swap_message_of, withdraw_intent_message,
    withdraw_message_of, PollDecision, PollReply, Quote, QuoteError, QuoteReply, QuoteStep,
    SignedIntent, MAX_QUOTE_ATTEMPTS, MAX_STATUS_POLLS, PUBLISH_OK, QUOTE_RETRY_DELAY_MS,
    STATUS_POLL_DELAY_MS, WITHDRAW_DEADLINE_SECS,
};
use crate::ledger::ASSET_PREFIX;
use crate::text::{decimal, decimal_of, has_prefix, parse_u128, parsed_u128, strip_prefix, trim_prefix, without_prefix};
use crate::types::{copy_string, SwapResponse};

verus! {

pub const INTERNAL_ERROR: &'static str = "Internal error: ";

pub const SETTLE_TIMEOUT: &'static str = "Intent failed to settle within timeout";

pub const SETTLE_FAILED: &'static str = "Intent settlement failed: the venue reported a final failure";

pub const WITHDRAW_FAILED: &'static str = "Failed to withdraw tokens from intents contract";

/// One swap to run, as the ledger's job describes it. Token names are the
/// venue's asset identifiers (`nep141:` and the token's account); amounts
/// are decimal text.
#[derive(Debug, Clone, PartialEq, Eq)]
pub struct SwapInput {
    pub sender_id: String,
    pub token_in: String,
    pub token_out: String,
    pub amount_in: String,
    pub min_amount_out: String,
    pub swap_contract_id: String,
}

/// The time when an event arrives, in whole seconds and in nanoseconds
/// since the Unix epoch.
#[derive(Debug, Clone, Copy, PartialEq, Eq)]
pub struct Now {
    pub unix_secs: u64,
    pub unix_nanos: u128,
}

/// Why the pre-flight storage check came back as it did.
#[derive(Debug, Clone, PartialEq, Eq)]
pub enum StorageReply {
    /// The recipient holds a storage deposit for the output token.
    Registered,
    /// The token contract reports no storage deposit for the recipient.
    NotRegistered,
    /// The token contract's answer is not a storage balance.
    Unreadable,
    /// The check itself failed; the saga goes on.
    Unavailable(String),
}

/// Why publishing an intent failed before the venue gave a status.
#[derive(Debug, Clone, PartialEq, Eq)]
pub enum PublishError {
    Transport(String),
    HttpStatus(u16),
    Malformed(String),
    Api(String),
    NoResult,
}

/// What publishing an intent brought back.
#[derive(Debug, Clone, PartialEq, Eq)]
pub enum PublishReply {
    Failed(PublishError),
    Published { status: String, intent_hash: Option<String> },
}

/// What the last action brought back.
#[derive(Debug)]
pub enum SagaEvent {
    Quote(QuoteReply),
    Storage(StorageReply),
    /// The deposit transaction's hash, or why it failed.
    Deposit(Result<String, String>),
    Published(PublishReply),
    Status(PollReply),
}

/// What the host must do next.
#[derive(Debug, Clone, PartialEq, Eq)]
pub enum SagaAction {
    /// Wait `delay_ms`, then ask the venue for quotes.
    RequestQuote { token_in: String, token_out: String, amount_in: String, delay_ms: u64 },
    /// Ask the output token's contract for the recipient's storage balance.
    CheckStorage { token_contract: String, args: String },
    /// Send a transfer-with-message transaction on the input token's contract.
    Deposit { token_contract: String, receiver_id: String, args: String, gas: u64, deposit: u128 },
    /// Publish a signed intent, with the quote it answers when there is one.
    PublishIntent { intent: SignedIntent, quote_hash: Option<String> },
    /// Wait `delay_ms`, then ask the venue for the intent's status.
    PollStatus { intent_hash: String, delay_ms: u64 },
    /// The saga is over; this is its result.
    Finish(SwapResponse),
}

/// Why the saga broke off.
#[derive(Debug, Clone, PartialEq, Eq)]
pub enum SagaError {
    Quote(QuoteError),
    BadAmountOut,
    BadMinAmountOut,
    BadTokenOut,
    BadTokenIn,
    StorageUnreadable,
    Deposit(String),
    Sign(SignError),
    Publish(PublishError),
    Rejected(String),
    NoIntentHash,
    Status(String),
    UnexpectedEvent,
}

/// Where the saga stands.
#[derive(Debug, Clone, PartialEq, Eq)]
pub enum SagaPhase {
    /// Waiting for the answer to quote attempt number `attempt`.
    Quoting { attempt: u32 },
    CheckingStorage { quote: Quote },
    Depositing { quote: Quote },
    Publishing { quote: Quote },
    /// Waiting for the answer to a status query; `polls` queries were answered before.
    Settling { quote: Quote, intent_hash: String, polls: u32 },
    Withdrawing { quote: Quote, intent_hash: String },
    SettlingWithdrawal { quote: Quote, intent_hash: String, withdrawal_hash: String, polls: u32 },
    Done,
}

pub struct Saga {
    pub input: SwapInput,
    pub private_key: String,
    pub phase: SagaPhase,
}

pub open spec fn quote_error_text(e: QuoteError) -> Seq<char> {
    match e {
        QuoteError::Transport(d) => "HTTP request failed: "@ + d@,
        QuoteError::HttpStatus(n) => "Quote API returned status "@ + decimal_of(n as nat),
        QuoteError::Unreadable(d) => "Failed to read response body: "@ + d@,
        QuoteError::Malformed(d) => "Failed to parse response: "@ + d@,
        QuoteError::Api(m) => "Quote API error: "@ + m@,
        QuoteError::NoQuotes => "No valid quotes"@,
        QuoteError::NoResult => "No quotes returned"@,
    }
}

pub open spec fn publish_error_text(e: PublishError) -> Seq<char> {
    match e {
        PublishError::Transport(d) => "HTTP request failed: "@ + d@,
        PublishError::HttpStatus(n) => "Publish intent API returned status "@ + decimal_of(n as nat),
        PublishError::Malformed(d) => "Failed to parse publish_intent response: "@ + d@,
        PublishError::Api(m) => "Publish intent API error: "@ + m@,
        PublishError::NoResult => "No result from publish_intent"@,
    }
}

impl SagaError {
    pub open spec fn spec_message(&self) -> Seq<char> {
        match *self {
            SagaError::Quote(e) => "Quote API failed after 3 retries. Last error: "@
                + quote_error_text(e),
            SagaError::BadAmountOut => "Failed to parse amount_out"@,
            SagaError::BadMinAmountOut => "Failed to parse min_amount_out"@,
            SagaError::BadTokenOut => "Invalid token_out format, expected nep141:address"@,
            SagaError::BadTokenIn => "Invalid token_in format, expected nep141:address"@,
            SagaError::StorageUnreadable => "Failed to parse storage balance response"@,
            SagaError::Deposit(d) => d@,
            SagaError::Sign(e) => e.spec_message(),
            SagaError::Publish(e) => publish_error_text(e),
            SagaError::Rejected(s) => "Intent publish failed with status: "@ + s@,
            SagaError::NoIntentHash => "No intent_hash returned"@,
            SagaError::Status(d) => d@,
            SagaError::UnexpectedEvent => "Unexpected event for the current step"@,
        }
    }

    /// A readable account of the error.
    pub fn message(&self) -> (r: String)
        ensures
            r@ == self.spec_message(),
    {
        match self {
            SagaError::Quote(e) => String::from_str(
                "Quote API failed after 3 retries. Last error: ",
            ).concat(
                match e {
                    QuoteError::Transport(d) => String::from_str("HTTP request failed: ").concat(
                        d.as_str(),
                    ),
                    QuoteError::HttpStatus(n) => String::from_str(
                        "Quote API returned status ",
                    ).concat(decimal(*n as u128).as_str()),
                    QuoteError::Unreadable(d) => String::from_str(
                        "Failed to read response body: ",
                    ).concat(d.as_str()),
                    QuoteError::Malformed(d) => String::from_str(
                        "Failed to parse response: ",
                    ).concat(d.as_str()),
                    QuoteError::Api(m) => String::from_str("Quote API error: ").concat(m.as_str()),
                    QuoteError::NoQuotes => String::from_str("No valid quotes"),
                    QuoteError::NoResult => String::from_str("No quotes returned"),
                }.as_str(),
            ),
            SagaError::BadAmountOut => String::from_str("Failed to parse amount_out"),
            SagaError::BadMinAmountOut => String::from_str("Failed to parse min_amount_out"),
            SagaError::BadTokenOut => String::from_str(
                "Invalid token_out format, expected nep141:address",
            ),
            SagaError::BadTokenIn => String::from_str(
                "Invalid token_in format, expected nep141:address",
            ),
            SagaError::StorageUnreadable => String::from_str(
                "Failed to parse storage balance response",
            ),
            SagaError::Deposit(d) => copy_string(d),
            SagaError::Sign(e) => e.message(),
            SagaError::Publish(e) => match e {
                PublishError::Transport(d) => String::from_str("HTTP request failed: ").concat(
                    d.as_str(),
                ),
                PublishError::HttpStatus(n) => String::from_str(
                    "Publish intent API returned status ",
                ).concat(decimal(*n as u128).as_str()),
                PublishError::Malformed(d) => String::from_str(
                    "Failed to parse publish_intent response: ",
                ).concat(d.as_str()),
                PublishError::Api(m) => String::from_str("Publish intent API error: ").concat(
                    m.as_str(),
                ),
                PublishError::NoResult => String::from_str("No result from publish_intent"),
            },
            SagaError::Rejected(s) => String::from_str("Intent publish failed with status: ").concat(
                s.as_str(),
            ),
            SagaError::NoIntentHash => String::from_str("No intent_hash returned"),
            SagaError::Status(d) => copy_string(d),
            SagaError::UnexpectedEvent => String::from_str("Unexpected event for the current step"),
        }
    }
}

pub open spec fn insufficient_text(out: nat, min: nat) -> Seq<char> {
    "Insufficient liquidity: "@ + decimal_of(out) + " < "@ + decimal_of(min)
}

pub open spec fn no_storage_text(sender: Seq<char>, token: Seq<char>) -> Seq<char> {
    "User "@ + sender + " has no storage deposit for output token "@ + token
        + ". Please call storage_deposit first."@
}

/// Whether `o` is the result with these fields.
pub open spec fn output_is(
    o: SwapResponse,
    success: bool,
    amount_out: Option<Seq<char>>,
    message: Option<Seq<char>>,
    hash: Option<Seq<char>>,
) -> bool {
    &&& o.success == success
    &&& opt_view(o.amount_out) == amount_out
    &&& opt_view(o.error_message) == message
    &&& opt_view(o.intent_hash) == hash
}

/// Whether the saga ended with the result with these fields.
pub open spec fn finishes(
    new: Saga,
    a: SagaAction,
    success: bool,
    amount_out: Option<Seq<char>>,
    message: Option<Seq<char>>,
    hash: Option<Seq<char>>,
) -> bool {
    &&& new.phase is Done
    &&& a matches SagaAction::Finish(o) && output_is(o, success, amount_out, message, hash)
}

/// Whether the saga ended on an internal error.
pub open spec fn breaks_off(new: Saga, a: SagaAction, e: SagaError) -> bool {
    finishes(new, a, false, None, Some(INTERNAL_ERROR@ + e.spec_message()), None)
}

/// Whether the saga ended because the withdrawal failed: the result still
/// names the quoted amount and the swap's intent.
pub open spec fn withdrawal_fails(new: Saga, a: SagaAction, q: Quote, hash: Seq<char>) -> bool {
    finishes(new, a, false, Some(q.amount_out@), Some(WITHDRAW_FAILED@), Some(hash))
}

pub open spec fn signing_key(s: Saga) -> Seq<char> {
    without_prefix(s.private_key@, key_prefix())
}

/// Whether `new` and `a` follow from `old` once quote `q` is accepted: the
/// quoted amount must read as a number and reach the minimum, and the output
/// token must be a venue asset name; then its recipient's storage is checked.
pub open spec fn after_accept(old: Saga, q: Quote, new: Saga, a: SagaAction) -> bool {
    match parsed_u128(q.amount_out@) {
        None => breaks_off(new, a, SagaError::BadAmountOut),
        Some(out) => match parsed_u128(old.input.min_amount_out@) {
            None => breaks_off(new, a, SagaError::BadMinAmountOut),
            Some(min) => if out < min {
                finishes(new, a, false, None, Some(insufficient_text(out as nat, min as nat)), None)
            } else if !has_prefix(old.input.token_out@, ASSET_PREFIX@) {
                breaks_off(new, a, SagaError::BadTokenOut)
            } else {
                &&& new.phase == SagaPhase::CheckingStorage { quote: q }
                &&& a matches SagaAction::CheckStorage { token_contract, args }
                    && token_contract@ == without_prefix(old.input.token_out@, ASSET_PREFIX@)
                    && args@ == account_args_of(old.input.sender_id@)
            },
        },
    }
}

pub open spec fn error_of(reply: QuoteReply) -> QuoteError {
    match reply {
        QuoteReply::Failed(e) => e,
        QuoteReply::Quotes(_) => QuoteError::NoQuotes,
    }
}

pub open spec fn requests_quote(s: Saga, a: SagaAction, delay: u64) -> bool {
    a matches SagaAction::RequestQuote { token_in, token_out, amount_in, delay_ms } && token_in
        == s.input.token_in && token_out == s.input.token_out && amount_in == s.input.amount_in
        && delay_ms == delay
}

pub open spec fn after_quote(old: Saga, reply: QuoteReply, new: Saga, a: SagaAction) -> bool {
    let attempt = old.phase->Quoting_attempt;
    match reply {
        QuoteReply::Quotes(qs) if qs@.len() > 0 => exists|i: int|
            is_best_quote(qs@, i) && after_accept(old, #[trigger] qs@[i], new, a),
        _ => if attempt < MAX_QUOTE_ATTEMPTS {
            &&& new.phase == SagaPhase::Quoting { attempt: (attempt + 1) as u32 }
            &&& requests_quote(old, a, QUOTE_RETRY_DELAY_MS)
        } else {
            breaks_off(new, a, SagaError::Quote(error_of(reply)))
        },
    }
}

pub open spec fn after_storage(old: Saga, reply: StorageReply, new: Saga, a: SagaAction) -> bool {
    let q = old.phase->CheckingStorage_quote;
    match reply {
        StorageReply::NotRegistered => finishes(
            new,
            a,
            false,
            None,
            Some(
                no_storage_text(
                    old.input.sender_id@,
                    without_prefix(old.input.token_out@, ASSET_PREFIX@),
                ),
            ),
            None,
        ),
        StorageReply::Unreadable => breaks_off(new, a, SagaError::StorageUnreadable),
        _ => if !has_prefix(old.input.token_in@, ASSET_PREFIX@) {
            breaks_off(new, a, SagaError::BadTokenIn)
        } else {
            &&& new.phase == SagaPhase::Depositing { quote: q }
            &&& a matches SagaAction::Deposit { token_contract, receiver_id, args, gas, deposit }
                && token_contract@ == without_prefix(old.input.token_in@, ASSET_PREFIX@)
                && receiver_id@ == intents_contract() && args@ == ft_transfer_call_args_of(
                intents_contract(),
                old.input.amount_in@,
                Seq::empty(),
            ) && gas == FT_TRANSFER_CALL_GAS && deposit == FT_TRANSFER_CALL_DEPOSIT
        },
    }
}

/// The swap intent message of a quote.
pub open spec fn swap_message(s: Saga, q: Quote) -> Seq<char> {
    swap_message_of(
        s.input.swap_contract_id@,
        q.expiration_time@,
        s.input.token_in@,
        q.amount_in@,
        s.input.token_out@,
        q.amount_out@,
    )
}

pub open spec fn after_deposit(
    old: Saga,
    reply: Result<String, String>,
    now: Now,
    new: Saga,
    a: SagaAction,
) -> bool {
    let q = old.phase->Depositing_quote;
    let message = swap_message(old, q);
    let nonce = nonce_of(now.unix_nanos as nat);
    match reply {
        Err(e) => breaks_off(new, a, SagaError::Deposit(e)),
        Ok(_) => match signed_message(message, nonce, intents_contract(), signing_key(old)) {
            Err(e) => breaks_off(new, a, SagaError::Sign(e)),
            Ok(_) => {
                &&& new.phase == SagaPhase::Publishing { quote: q }
                &&& a matches SagaAction::PublishIntent { intent, quote_hash } && is_signed_intent(
                    intent,
                    message,
                    nonce,
                    old.private_key@,
                ) && quote_hash == Some(q.quote_hash)
            },
        },
    }
}

pub open spec fn after_publish(old: Saga, reply: PublishReply, new: Saga, a: SagaAction) -> bool {
    let q = old.phase->Publishing_quote;
    match reply {
        PublishReply::Failed(e) => breaks_off(new, a, SagaError::Publish(e)),
        PublishReply::Published { status, intent_hash } => if status@ != PUBLISH_OK@ {
            breaks_off(new, a, SagaError::Rejected(status))
        } else {
            match intent_hash {
                None => breaks_off(new, a, SagaError::NoIntentHash),
                Some(h) => {
                    &&& new.phase == SagaPhase::Settling { quote: q, intent_hash: h, polls: 0 }
                    &&& a == SagaAction::PollStatus { intent_hash: h, delay_ms: 0 }
                },
            }
        },
    }
}

/// The withdrawal intent message of a quote, with a deadline.
pub open spec fn withdraw_message(s: Saga, q: Quote, deadline: Seq<char>) -> Seq<char> {
    withdraw_message_of(
        s.input.swap_contract_id@,
        deadline,
        without_prefix(s.input.token_out@, ASSET_PREFIX@),
        s.input.sender_id@,
        q.amount_out@,
    )
}

pub open spec fn after_status(old: Saga, reply: PollReply, now: Now, new: Saga, a: SagaAction) -> bool {
    let q = old.phase->Settling_quote;
    let h = old.phase->Settling_intent_hash;
    let polls = old.phase->Settling_polls;
    let nonce = nonce_of(now.unix_nanos as nat);
    match poll_decision((polls + 1) as nat, reply) {
        PollDecision::Settled => exists|deadline: Seq<char>|
            #[trigger] is_iso_time(now.unix_secs + WITHDRAW_DEADLINE_SECS, deadline) && match signed_message(
                withdraw_message(old, q, deadline),
                nonce,
                intents_contract(),
                signing_key(old),
            ) {
                Err(_) => withdrawal_fails(new, a, q, h@),
                Ok(_) => {
                    &&& new.phase == SagaPhase::Withdrawing { quote: q, intent_hash: h }
                    &&& a matches SagaAction::PublishIntent { intent, quote_hash } && is_signed_intent(
                        intent,
                        withdraw_message(old, q, deadline),
                        nonce,
                        old.private_key@,
                    ) && quote_hash is None
                },
            },
        PollDecision::Failed => finishes(new, a, false, None, Some(SETTLE_FAILED@), Some(h@)),
        PollDecision::TimedOut => finishes(new, a, false, None, Some(SETTLE_TIMEOUT@), Some(h@)),
        PollDecision::PollAgain => {
            &&& new.phase == SagaPhase::Settling {
                quote: q,
                intent_hash: h,
                polls: (polls + 1) as u32,
            }
            &&& a == SagaAction::PollStatus { intent_hash: h, delay_ms: STATUS_POLL_DELAY_MS }
        },
        PollDecision::Broken(e) => finishes(
            new,
            a,
            false,
            None,
            Some(INTERNAL_ERROR@ + SagaError::Status(e).spec_message()),
            Some(h@),
        ),
    }
}

pub open spec fn after_withdraw_publish(
    old: Saga,
    reply: PublishReply,
    new: Saga,
    a: SagaAction,
) -> bool {
    let q = old.phase->Withdrawing_quote;
    let h = old.phase->Withdrawing_intent_hash;
    match reply {
        PublishReply::Published { status, intent_hash: Some(w) } if status@ == PUBLISH_OK@ => {
            &&& new.phase == SagaPhase::SettlingWithdrawal {
                quote: q,
                intent_hash: h,
                withdrawal_hash: w,
                polls: 0,
            }
            &&& a == SagaAction::PollStatus { intent_hash: w, delay_ms: 0 }
        },
        _ => withdrawal_fails(new, a, q, h@),
    }
}

pub open spec fn after_withdraw_status(
    old: Saga,
    reply: PollReply,
    new: Saga,
    a: SagaAction,
) -> bool {
    let q = old.phase->SettlingWithdrawal_quote;
    let h = old.phase->SettlingWithdrawal_intent_hash;
    let w = old.phase->SettlingWithdrawal_withdrawal_hash;
    let polls = old.phase->SettlingWithdrawal_polls;
    match poll_decision((polls + 1) as nat, reply) {
        PollDecision::Settled => finishes(new, a, true, Some(q.amount_out@), None, Some(w@)),
        PollDecision::PollAgain => {
            &&& new.phase == SagaPhase::SettlingWithdrawal {
                quote: q,
                intent_hash: h,
                withdrawal_hash: w,
                polls: (polls + 1) as u32,
            }
            &&& a == SagaAction::PollStatus { intent_hash: w, delay_ms: STATUS_POLL_DELAY_MS }
        },
        _ => withdrawal_fails(new, a, q, h@),
    }
}

/// How the saga goes from `old` to `new`, returning `a`, on `event` at `now`.
pub open spec fn step(old: Saga, event: SagaEvent, now: Now, new: Saga, a: SagaAction) -> bool {
    &&& new.input == old.input
    &&& new.private_key == old.private_key
    &&& match (old.phase, event) {
        (SagaPhase::Quoting { .. }, SagaEvent::Quote(r)) => after_quote(old, r, new, a),
        (SagaPhase::CheckingStorage { .. }, SagaEvent::Storage(r)) => after_storage(
            old,
            r,
            new,
            a,
        ),
        (SagaPhase::Depositing { .. }, SagaEvent::Deposit(r)) => after_deposit(old, r, now, new, a),
        (SagaPhase::Publishing { .. }, SagaEvent::Published(r)) => after_publish(old, r, new, a),
        (SagaPhase::Settling { .. }, SagaEvent::Status(r)) => after_status(old, r, now, new, a),
        (SagaPhase::Withdrawing { .. }, SagaEvent::Published(r)) => after_withdraw_publish(
            old,
            r,
            new,
            a,
        ),
        (SagaPhase::SettlingWithdrawal { .. }, SagaEvent::Status(r)) => after_withdraw_status(
            old,
            r,
            new,
            a,
        ),
        _ => breaks_off(new, a, SagaError::UnexpectedEvent),
    }
}

fn output(
    success: bool,
    amount_out: Option<String>,
    message: Option<String>,
    hash: Option<String>,
) -> (r: SagaAction)
    ensures
        r == SagaAction::Finish(
            SwapResponse { success, amount_out, error_message: message, intent_hash: hash },
        ),
{
    SagaAction::Finish(
        SwapResponse { success, amount_out, error_message: message, intent_hash: hash },
    )
}

impl Saga {
    pub open spec fn wf(&self) -> bool {
        match self.phase {
            SagaPhase::Quoting { attempt } => 1 <= attempt <= MAX_QUOTE_ATTEMPTS,
            SagaPhase::Settling { polls, .. } => polls < MAX_STATUS_POLLS,
            SagaPhase::SettlingWithdrawal { polls, .. } => polls < MAX_STATUS_POLLS,
            _ => true,
        }
    }

    /// Starts a saga: its first action asks for quotes at once.
    pub fn start(input: SwapInput, private_key: String) -> (r: (Saga, SagaAction))
        ensures
            r.0.wf(),
            r.0.input == input,
            r.0.private_key == private_key,
            r.0.phase == (SagaPhase::Quoting { attempt: 1 }),
            requests_quote(r.0, r.1, 0),
    {
        let action = SagaAction::RequestQuote {
            token_in: copy_string(&input.token_in),
            token_out: copy_string(&input.token_out),
            amount_in: copy_string(&input.amount_in),
            delay_ms: 0,
        };
        (Saga { input, private_key, phase: SagaPhase::Quoting { attempt: 1 } }, action)
    }

    fn break_off(&mut self, e: SagaError) -> (a: SagaAction)
        ensures
            final(self).input == old(self).input,
            final(self).private_key == old(self).private_key,
            breaks_off(*final(self), a, e),
    {
        self.phase = SagaPhase::Done;
        let text = String::from_str(INTERNAL_ERROR).concat(e.message().as_str());
        output(false, None, Some(text), None)
    }

    fn end(
        &mut self,
        success: bool,
        amount_out: Option<String>,
        message: Option<String>,
        hash: Option<String>,
    ) -> (a: SagaAction)
        ensures
            final(self).input == old(self).input,
            final(self).private_key == old(self).private_key,
            finishes(
                *final(self),
                a,
                success,
                opt_view(amount_out),
                opt_view(message),
                opt_view(hash),
            ),
    {
        self.phase = SagaPhase::Done;
        output(success, amount_out, message, hash)
    }

    fn fail_withdrawal(&mut self, q: &Quote, hash: &String) -> (a: SagaAction)
        ensures
            final(self).input == old(self).input,
            final(self).private_key == old(self).private_key,
            withdrawal_fails(*final(self), a, *q, hash@),
    {
        self.end(
            false,
            Some(copy_string(&q.amount_out)),
            Some(String::from_str(WITHDRAW_FAILED)),
            Some(copy_string(hash)),
        )
    }

    fn accept_quote(&mut self, q: Quote) -> (a: SagaAction)
        ensures
            final(self).input == old(self).input,
            final(self).private_key == old(self).private_key,
            after_accept(*old(self), q, *final(self), a),
            final(self).wf(),
    {
        let out = match parse_u128(q.amount_out.as_str()) {
            Some(v) => v,
            None => return self.break_off(SagaError::BadAmountOut),
        };
        let min = match parse_u128(self.input.min_amount_out.as_str()) {
            Some(v) => v,
            None => return self.break_off(SagaError::BadMinAmountOut),
        };
        if out < min {
            let text = String::from_str("Insufficient liquidity: ").concat(decimal(out).as_str()).concat(
                " < ",
            ).concat(decimal(min).as_str());
            return self.end(false, None, Some(text), None);
        }
        let contract = match strip_prefix(self.input.token_out.as_str(), ASSET_PREFIX) {
            Some(c) => String::from_str(c),
            None => return self.break_off(SagaError::BadTokenOut),
        };
        let args = account_args(self.input.sender_id.as_str());
        self.phase = SagaPhase::CheckingStorage { quote: q };
        SagaAction::CheckStorage { token_contract: contract, args }
    }

    fn on_quote(&mut self, reply: QuoteReply) -> (a: SagaAction)
        requires
            old(self).wf(),
            old(self).phase is Quoting,
        ensures
            final(self).wf(),
            final(self).input == old(self).input,
            final(self).private_key == old(self).private_key,
            after_quote(*old(self), reply, *final(self), a),
    {
        let attempt = match &self.phase {
            SagaPhase::Quoting { attempt } => *attempt,
            _ => 1,
        };
        match quote_step(attempt, reply) {
            QuoteStep::Accept(q) => self.accept_quote(q),
            QuoteStep::Retry { attempt: next, delay_ms, last_error } => {
                self.phase = SagaPhase::Quoting { attempt: next };
                SagaAction::RequestQuote {
                    token_in: copy_string(&self.input.token_in),
                    token_out: copy_string(&self.input.token_out),
                    amount_in: copy_string(&self.input.amount_in),
                    delay_ms,
                }
            },
            QuoteStep::GiveUp(e) => self.break_off(SagaError::Quote(e)),
        }
    }

    fn on_storage(&mut self, reply: StorageReply) -> (a: SagaAction)
        requires
            old(self).phase is CheckingStorage,
        ensures
            final(self).wf(),
            final(self).input == old(self).input,
            final(self).private_key == old(self).private_key,
            after_storage(*old(self), reply, *final(self), a),
    {
        let q = match &self.phase {
            SagaPhase::CheckingStorage { quote } => quote.copy(),
            _ => return self.break_off(SagaError::UnexpectedEvent),
        };
        match reply {
            StorageReply::NotRegistered => {
                let token = trim_prefix(self.input.token_out.as_str(), ASSET_PREFIX);
                let text = String::from_str("User ").concat(self.input.sender_id.as_str()).concat(
                    " has no storage deposit for output token ",
                ).concat(token).concat(". Please call storage_deposit first.");
                return self.end(false, None, Some(text), None);
            },
            StorageReply::Unreadable => {
                return self.break_off(SagaError::StorageUnreadable);
            },
            _ => {},
        }
        let contract = match strip_prefix(self.input.token_in.as_str(), ASSET_PREFIX) {
            Some(c) => String::from_str(c),
            None => return self.break_off(SagaError::BadTokenIn),
        };
        let args = ft_transfer_call_args(INTENTS_CONTRACT, self.input.amount_in.as_str(), "");
        proof {
            reveal_strlit("");
        }
        assert(""@ =~= Seq::<char>::empty());
        self.phase = SagaPhase::Depositing { quote: q };
        SagaAction::Deposit {
            token_contract: contract,
            receiver_id: String::from_str(INTENTS_CONTRACT),
            args,
            gas: FT_TRANSFER_CALL_GAS,
            deposit: FT_TRANSFER_CALL_DEPOSIT,
        }
    }

    fn on_deposit(&mut self, reply: Result<String, String>, now: Now) -> (a: SagaAction)
        requires
            old(self).phase is Depositing,
        ensures
            final(self).wf(),
            final(self).input == old(self).input,
            final(self).private_key == old(self).private_key,
            after_deposit(*old(self), reply, now, *final(self), a),
    {
        let q = match &self.phase {
            SagaPhase::Depositing { quote } => quote.copy(),
            _ => return self.break_off(SagaError::UnexpectedEvent),
        };
        if let Err(e) = reply {
            return self.break_off(SagaError::Deposit(e));
        }
        let message = swap_intent_message(
            self.input.swap_contract_id.as_str(),
            q.expiration_time.as_str(),
            self.input.token_in.as_str(),
            q.amount_in.as_str(),
            self.input.token_out.as_str(),
            q.amount_out.as_str(),
        );
        let nonce = generate_nonce(now.unix_nanos);
        match signed_intent(message, nonce, self.private_key.as_str()) {
            Err(e) => self.break_off(SagaError::Sign(e)),
            Ok(intent) => {
                let hash = copy_string(&q.quote_hash);
                self.phase = SagaPhase::Publishing { quote: q };
                SagaAction::PublishIntent { intent, quote_hash: Some(hash) }
            },
        }
    }

    fn on_publish(&mut self, reply: PublishReply) -> (a: SagaAction)
        requires
            old(self).phase is Publishing,
        ensures
            final(self).wf(),
            final(self).input == old(self).input,
            final(self).private_key == old(self).private_key,
            after_publish(*old(self), reply, *final(self), a),
    {
        let q = match &self.phase {
            SagaPhase::Publishing { quote } => quote.copy(),
            _ => return self.break_off(SagaError::UnexpectedEvent),
        };
        let ok = String::from_str(PUBLISH_OK);
        match reply {
            PublishReply::Failed(e) => self.break_off(SagaError::Publish(e)),
            PublishReply::Published { status, intent_hash } => {
                if status != ok {
                    return self.break_off(SagaError::Rejected(status));
                }
                match intent_hash {
                    None => self.break_off(SagaError::NoIntentHash),
                    Some(h) => {
                        let poll_hash = copy_string(&h);
                        self.phase = SagaPhase::Settling { quote: q, intent_hash: h, polls: 0 };
                        SagaAction::PollStatus { intent_hash: poll_hash, delay_ms: 0 }
                    },
                }
            },
        }
    }

    fn start_withdrawal(&mut self, q: Quote, h: String, now: Now) -> (a: SagaAction)
        requires
            now.unix_secs <= u64::MAX - WITHDRAW_DEADLINE_SECS,
        ensures
            final(self).wf(),
            final(self).input == old(self).input,
            final(self).private_key == old(self).private_key,
            exists|deadline: Seq<char>|
                #[trigger] is_iso_time(now.unix_secs + WITHDRAW_DEADLINE_SECS, deadline) && match signed_message(
                    withdraw_message(*old(self), q, deadline),
                    nonce_of(now.unix_nanos as nat),
                    intents_contract(),
                    signing_key(*old(self)),
                ) {
                    Err(_) => withdrawal_fails(*final(self), a, q, h@),
                    Ok(_) => {
                        &&& final(self).phase == SagaPhase::Withdrawing { quote: q, intent_hash: h }
                        &&& a matches SagaAction::PublishIntent { intent, quote_hash }
                            && is_signed_intent(
                            intent,
                            withdraw_message(*old(self), q, deadline),
                            nonce_of(now.unix_nanos as nat),
                            old(self).private_key@,
                        ) && quote_hash is None
                    },
                },
    {
        let deadline = get_deadline_180s(now.unix_secs);
        let token = trim_prefix(self.input.token_out.as_str(), ASSET_PREFIX);
        let message = withdraw_intent_message(
            self.input.swap_contract_id.as_str(),
            deadline.as_str(),
            token,
            self.input.sender_id.as_str(),
            q.amount_out.as_str(),
        );
        let nonce = generate_nonce(now.unix_nanos);
        let a = match signed_intent(message, nonce, self.private_key.as_str()) {
            Err(_) => self.fail_withdrawal(&q, &h),
            Ok(intent) => {
                self.phase = SagaPhase::Withdrawing { quote: q, intent_hash: h };
                SagaAction::PublishIntent { intent, quote_hash: None }
            },
        };
        assert(is_iso_time(now.unix_secs + WITHDRAW_DEADLINE_SECS, deadline@));
        a
    }

    fn on_status(&mut self, reply: PollReply, now: Now) -> (a: SagaAction)
        requires
            old(self).wf(),
            old(self).phase is Settling,
            now.unix_secs <= u64::MAX - WITHDRAW_DEADLINE_SECS,
        ensures
            final(self).wf(),
            final(self).input == old(self).input,
            final(self).private_key == old(self).private_key,
            after_status(*old(self), reply, now, *final(self), a),
    {
        let (q, h, polls) = match &self.phase {
            SagaPhase::Settling { quote, intent_hash, polls } => (
                quote.copy(),
                copy_string(intent_hash),
                *polls,
            ),
            _ => return self.break_off(SagaError::UnexpectedEvent),
        };
        match settlement_step(polls + 1, reply) {
            PollDecision::Settled => self.start_withdrawal(q, h, now),
            PollDecision::Failed => {
                self.end(false, None, Some(String::from_str(SETTLE_FAILED)), Some(h))
            },
            PollDecision::TimedOut => {
                self.end(false, None, Some(String::from_str(SETTLE_TIMEOUT)), Some(h))
            },
            PollDecision::PollAgain => {
                let poll_hash = copy_string(&h);
                self.phase = SagaPhase::Settling { quote: q, intent_hash: h, polls: polls + 1 };
                SagaAction::PollStatus { intent_hash: poll_hash, delay_ms: STATUS_POLL_DELAY_MS }
            },
            PollDecision::Broken(e) => {
                let text = String::from_str(INTERNAL_ERROR).concat(
                    SagaError::Status(e).message().as_str(),
                );
                self.end(false, None, Some(text), Some(h))
            },
        }
    }

    fn on_withdraw_publish(&mut self, reply: PublishReply) -> (a: SagaAction)
        requires
            old(self).phase is Withdrawing,
        ensures
            final(self).wf(),
            final(self).input == old(self).input,
            final(self).private_key == old(self).private_key,
            after_withdraw_publish(*old(self), reply, *final(self), a),
    {
        let (q, h) = match &self.phase {
            SagaPhase::Withdrawing { quote, intent_hash } => (quote.copy(), copy_string(intent_hash)),
            _ => return self.break_off(SagaError::UnexpectedEvent),
        };
        let ok = String::from_str(PUBLISH_OK);
        match reply {
            PublishReply::Published { status, intent_hash: Some(w) } if status == ok => {
                let poll_hash = copy_string(&w);
                self.phase = SagaPhase::SettlingWithdrawal {
                    quote: q,
                    intent_hash: h,
                    withdrawal_hash: w,
                    polls: 0,
                };
                SagaAction::PollStatus { intent_hash: poll_hash, delay_ms: 0 }
            },
            _ => self.fail_withdrawal(&q, &h),
        }
    }

    fn on_withdraw_status(&mut self, reply: PollReply) -> (a: SagaAction)
        requires
            old(self).wf(),
            old(self).phase is SettlingWithdrawal,
        ensures
            final(self).wf(),
            final(self).input == old(self).input,
            final(self).private_key == old(self).private_key,
            after_withdraw_status(*old(self), reply, *final(self), a),
    {
        let (q, h, w, polls) = match &self.phase {
            SagaPhase::SettlingWithdrawal { quote, intent_hash, withdrawal_hash, polls } => (
                quote.copy(),
                copy_string(intent_hash),
                copy_string(withdrawal_hash),
                *polls,
            ),
            _ => return self.break_off(SagaError::UnexpectedEvent),
        };
        match settlement_step(polls + 1, reply) {
            PollDecision::Settled => self.end(
                true,
                Some(copy_string(&q.amount_out)),
                None,
                Some(w),
            ),
            PollDecision::PollAgain => {
                let poll_hash = copy_string(&w);
                self.phase = SagaPhase::SettlingWithdrawal {
                    quote: q,
                    intent_hash: h,
                    withdrawal_hash: w,
                    polls: polls + 1,
                };
                SagaAction::PollStatus { intent_hash: poll_hash, delay_ms: STATUS_POLL_DELAY_MS }
            },
            _ => self.fail_withdrawal(&q, &h),
        }
    }

    /// Takes what the last action brought back and returns the next action.
    /// An event that does not answer the current step ends the saga.
    pub fn advance(&mut self, event: SagaEvent, now: Now) -> (a: SagaAction)
        requires
            old(self).wf(),
            now.unix_secs <= u64::MAX - WITHDRAW_DEADLINE_SECS,
        ensures
            final(self).wf(),
            step(*old(self), event, now, *final(self), a),
    {
        match event {
            SagaEvent::Quote(r) if matches!(self.phase, SagaPhase::Quoting { .. }) => self.on_quote(r),
            SagaEvent::Storage(r) if matches!(self.phase, SagaPhase::CheckingStorage { .. }) => self.on_storage(r),
            SagaEvent::Deposit(r) if matches!(self.phase, SagaPhase::Depositing { .. }) => self.on_deposit(r, now),
            SagaEvent::Published(r) if matches!(self.phase, SagaPhase::Publishing { .. }) => self.on_publish(r),
            SagaEvent::Status(r) if matches!(self.phase, SagaPhase::Settling { .. }) => self.on_status(r, now),
            SagaEvent::Published(r) if matches!(self.phase, SagaPhase::Withdrawing { .. }) => self.on_withdraw_publish(r),
            SagaEvent::Status(r) if matches!(self.phase, SagaPhase::SettlingWithdrawal { .. }) => self.on_withdraw_status(r),
            _ => self.break_off(SagaError::UnexpectedEvent),
        }
    }

    /// Whether the saga has produced its result.
    pub fn is_done(&self) -> (r: bool)
        ensures
            r == self.phase is Done,
    {
        matches!(self.phase, SagaPhase::Done)
    }
}

} // verus!
