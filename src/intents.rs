//! Messages to the settlement venue: quotes and their selection, intent
//! messages and their signed form, and settlement statuses.
use vstd::prelude::*;
use crate::calendar::{iso_time, is_iso_time};
use crate::crypto::{
    derive_public_key, intents_contract, key_prefix, seed_from_marked_key, sign_intent,
    signed_message, SignError, INTENTS_CONTRACT, KEY_PREFIX,
};
use crate::primitives::{base58_of, ed25519_public_of, json_quote, json_quoted};
use crate::text::{amount_or_zero, parse_amount_or_zero, without_prefix};
use crate::types::copy_string;

verus! {

/// Attempts at getting a quote before the saga gives up.
pub const MAX_QUOTE_ATTEMPTS: u32 = 3;

/// Pause between two quote attempts, in milliseconds.
pub const QUOTE_RETRY_DELAY_MS: u64 = 1000;

/// Status queries before settlement is given up as timed out.
pub const MAX_STATUS_POLLS: u32 = 30;

/// Pause between two status queries, in milliseconds.
pub const STATUS_POLL_DELAY_MS: u64 = 1000;

/// How long a withdrawal intent stays valid, in seconds.
pub const WITHDRAW_DEADLINE_SECS: u64 = 180;

/// Name of the signing scheme of published intents.
pub const INTENT_STANDARD: &'static str = "nep413";

pub const STATUS_SETTLED: &'static str = "SETTLED";

pub const STATUS_FAILED: &'static str = "FAILED";

pub const STATUS_NOT_FOUND: &'static str = "NOT_FOUND_OR_NOT_VALID";

pub const STATUS_NOT_FOUND_ANYMORE: &'static str = "NOT_FOUND_OR_NOT_VALID_ANYMORE";

/// Status of an accepted publication.
pub const PUBLISH_OK: &'static str = "OK";

/// A price the venue offers for one request.
#[derive(Debug, Clone, PartialEq, Eq)]
pub struct Quote {
    pub amount_in: String,
    pub amount_out: String,
    pub expiration_time: String,
    pub quote_hash: String,
}

impl Quote {
    /// The quote's output amount as a number; zero when it does not read as one.
    pub open spec fn value(&self) -> u128 {
        amount_or_zero(self.amount_out@)
    }

    pub fn copy(&self) -> (r: Quote)
        ensures
            r == *self,
    {
        Quote {
            amount_in: copy_string(&self.amount_in),
            amount_out: copy_string(&self.amount_out),
            expiration_time: copy_string(&self.expiration_time),
            quote_hash: copy_string(&self.quote_hash),
        }
    }
}

/// Whether `i` is the last of the quotes with the largest output amount.
pub open spec fn is_best_quote(quotes: Seq<Quote>, i: int) -> bool {
    &&& 0 <= i < quotes.len()
    &&& forall|j: int| 0 <= j < quotes.len() ==> #[trigger] quotes[j].value() <= quotes[i].value()
    &&& forall|j: int| i < j < quotes.len() ==> #[trigger] quotes[j].value() < quotes[i].value()
}

/// Picks the quote with the largest output amount, reading an amount that
/// is not a number as zero; among equal amounts the last one wins. Returns
/// its index, or nothing when there are no quotes.
pub fn select_best_quote(quotes: &Vec<Quote>) -> (r: Option<usize>)
    ensures
        r is None <==> quotes@.len() == 0,
        r matches Some(i) ==> is_best_quote(quotes@, i as int),
{
    if quotes.len() == 0 {
        return None;
    }
    let mut best: usize = 0;
    let mut best_value: u128 = parse_amount_or_zero(quotes[0].amount_out.as_str());
    let mut i: usize = 1;
    while i < quotes.len()
        invariant
            1 <= i <= quotes@.len(),
            best < i,
            best_value == quotes@[best as int].value(),
            forall|j: int| 0 <= j < i ==> #[trigger] quotes@[j].value() <= best_value,
            forall|j: int| best < j < i ==> #[trigger] quotes@[j].value() < best_value,
        decreases quotes@.len() - i,
    {
        let v = parse_amount_or_zero(quotes[i].amount_out.as_str());
        if v >= best_value {
            best = i;
            best_value = v;
        }
        i = i + 1;
    }
    Some(best)
}

/// Why one quote attempt failed.
#[derive(Debug, Clone, PartialEq, Eq)]
pub enum QuoteError {
    /// The request could not be sent or answered.
    Transport(String),
    /// The venue answered with this HTTP status instead of 200.
    HttpStatus(u16),
    /// The answer's body could not be read.
    Unreadable(String),
    /// The answer is not a quote response.
    Malformed(String),
    /// The venue reported this error.
    Api(String),
    /// The venue returned an empty list of quotes.
    NoQuotes,
    /// The venue returned neither quotes nor an error.
    NoResult,
}

/// What one quote attempt brought back.
#[derive(Debug, Clone, PartialEq, Eq)]
pub enum QuoteReply {
    Failed(QuoteError),
    Quotes(Vec<Quote>),
}

/// What to do after a quote attempt.
#[derive(Debug, Clone, PartialEq, Eq)]
pub enum QuoteStep {
    /// Take this quote.
    Accept(Quote),
    /// Wait, then make attempt number `attempt`.
    Retry { attempt: u32, delay_ms: u64, last_error: QuoteError },
    /// Every attempt failed; this is the last error.
    GiveUp(QuoteError),
}

/// Decides what follows attempt number `attempt` (counting from one): the
/// best quote when the venue returned any; else another attempt after the
/// fixed delay while attempts remain; else giving up with the last error.
pub fn quote_step(attempt: u32, reply: QuoteReply) -> (r: QuoteStep)
    requires
        1 <= attempt <= MAX_QUOTE_ATTEMPTS,
    ensures
        ({
            let error = match reply {
                QuoteReply::Failed(e) => e,
                QuoteReply::Quotes(_) => QuoteError::NoQuotes,
            };
            match reply {
                QuoteReply::Quotes(qs) if qs@.len() > 0 => exists|i: int|
                    is_best_quote(qs@, i) && r == QuoteStep::Accept(#[trigger] qs@[i]),
                _ => if attempt < MAX_QUOTE_ATTEMPTS {
                    r == (QuoteStep::Retry {
                        attempt: (attempt + 1) as u32,
                        delay_ms: QUOTE_RETRY_DELAY_MS,
                        last_error: error,
                    })
                } else {
                    r == QuoteStep::GiveUp(error)
                },
            }
        }),
{
    let error = match reply {
        QuoteReply::Failed(e) => e,
        QuoteReply::Quotes(quotes) => {
            match select_best_quote(&quotes) {
                Some(i) => {
                    let q = quotes[i].copy();
                    assert(is_best_quote(quotes@, i as int));
                    return QuoteStep::Accept(q);
                },
                None => QuoteError::NoQuotes,
            }
        },
    };
    if attempt < MAX_QUOTE_ATTEMPTS {
        QuoteStep::Retry { attempt: attempt + 1, delay_ms: QUOTE_RETRY_DELAY_MS, last_error: error }
    } else {
        QuoteStep::GiveUp(error)
    }
}

/// What one status query brought back.
#[derive(Debug, Clone, PartialEq, Eq)]
pub enum PollReply {
    /// The venue reported this status.
    Status(String),
    /// The venue answered without a status (a status other than 200, or no result).
    NoStatus,
    /// The query failed outright.
    Broken(String),
}

/// What to do after a status query.
#[derive(Debug, Clone, PartialEq, Eq)]
pub enum PollDecision {
    Settled,
    /// The venue reported a final failure.
    Failed,
    /// Query again after the fixed delay.
    PollAgain,
    /// Every query was used without a final status.
    TimedOut,
    /// A query failed outright.
    Broken(String),
}

pub open spec fn is_failure_status(s: Seq<char>) -> bool {
    s == STATUS_FAILED@ || s == STATUS_NOT_FOUND@ || s == STATUS_NOT_FOUND_ANYMORE@
}

/// The decision after the `polls`-th status query (counting from one).
pub open spec fn poll_decision(polls: nat, reply: PollReply) -> PollDecision {
    match reply {
        PollReply::Broken(e) => PollDecision::Broken(e),
        PollReply::Status(s) if s@ == STATUS_SETTLED@ => PollDecision::Settled,
        PollReply::Status(s) if is_failure_status(s@) => PollDecision::Failed,
        _ => if polls >= MAX_STATUS_POLLS {
            PollDecision::TimedOut
        } else {
            PollDecision::PollAgain
        },
    }
}

/// Decides what follows the `polls`-th status query (counting from one):
/// `SETTLED` settles, a final failure status fails at once, an outright
/// failure breaks off, and anything else polls again until the queries are
/// used up.
pub fn settlement_step(polls: u32, reply: PollReply) -> (r: PollDecision)
    requires
        1 <= polls <= MAX_STATUS_POLLS,
    ensures
        r == poll_decision(polls as nat, reply),
{
    let settled = String::from_str(STATUS_SETTLED);
    let failed = String::from_str(STATUS_FAILED);
    let not_found = String::from_str(STATUS_NOT_FOUND);
    let not_found_anymore = String::from_str(STATUS_NOT_FOUND_ANYMORE);
    match reply {
        PollReply::Broken(e) => PollDecision::Broken(e),
        PollReply::Status(s) if s == settled => PollDecision::Settled,
        PollReply::Status(s) if s == failed || s == not_found || s == not_found_anymore => {
            PollDecision::Failed
        },
        _ => if polls >= MAX_STATUS_POLLS {
            PollDecision::TimedOut
        } else {
            PollDecision::PollAgain
        },
    }
}

/// The decision a run of status replies comes to, and how many queries it
/// took; `PollAgain` when the replies run out first.
pub open spec fn poll_run(replies: Seq<PollReply>) -> (PollDecision, nat)
    decreases replies.len(),
{
    poll_run_from(replies, 0)
}

pub open spec fn poll_run_from(replies: Seq<PollReply>, done: nat) -> (PollDecision, nat)
    decreases replies.len() - done,
{
    if done >= replies.len() {
        (PollDecision::PollAgain, done)
    } else {
        let d = poll_decision(done + 1, replies[done as int]);
        if d == PollDecision::PollAgain {
            poll_run_from(replies, done + 1)
        } else {
            (d, done + 1)
        }
    }
}

/// Whether a reply is a status that neither settles nor fails.
pub open spec fn is_pending(reply: PollReply) -> bool {
    reply matches PollReply::Status(s) && s@ != STATUS_SETTLED@ && !is_failure_status(s@)
}

pub open spec fn is_settled_reply(reply: PollReply) -> bool {
    reply matches PollReply::Status(s) && s@ == STATUS_SETTLED@
}

pub open spec fn is_failure_reply(reply: PollReply) -> bool {
    reply matches PollReply::Status(s) && s@ != STATUS_SETTLED@ && is_failure_status(s@)
}

proof fn lemma_pending_run(replies: Seq<PollReply>, done: nat, k: nat)
    requires
        done <= k <= replies.len(),
        k < MAX_STATUS_POLLS,
        forall|i: int| 0 <= i < k ==> is_pending(#[trigger] replies[i]),
        k < replies.len() ==> poll_decision(k + 1, replies[k as int]) != PollDecision::PollAgain,
    ensures
        k < replies.len() ==> poll_run_from(replies, done) == (poll_decision(
            k + 1,
            replies[k as int],
        ), k + 1),
    decreases k - done,
{
    if done < k {
        assert(is_pending(replies[done as int]));
        assert(poll_decision(done + 1, replies[done as int]) == PollDecision::PollAgain);
        lemma_pending_run(replies, done + 1, k);
    }
}

/// Law: settlement polling. Pending statuses followed by `SETTLED` settle at
/// that query; pending statuses followed by a final failure fail at that
/// query, without using the remaining ones; thirty pending statuses time out
/// at the thirtieth query.
pub proof fn law_settlement_polling(replies: Seq<PollReply>, k: nat)
    requires
        k < replies.len(),
        forall|i: int| 0 <= i < k ==> is_pending(#[trigger] replies[i]),
    ensures
        k < MAX_STATUS_POLLS && is_settled_reply(replies[k as int]) ==> poll_run(replies) == (
            PollDecision::Settled,
            k + 1,
        ),
        k < MAX_STATUS_POLLS && is_failure_reply(replies[k as int]) ==> poll_run(replies) == (
            PollDecision::Failed,
            k + 1,
        ),
        k + 1 == MAX_STATUS_POLLS && is_pending(replies[k as int]) ==> poll_run(replies) == (
            PollDecision::TimedOut,
            MAX_STATUS_POLLS as nat,
        ),
{
    if k < MAX_STATUS_POLLS {
        if poll_decision(k + 1, replies[k as int]) != PollDecision::PollAgain {
            lemma_pending_run(replies, 0, k);
        }
    }
}

/// The swap intent message: the signer gives up `amount_in` of `token_in`
/// and receives `amount_out` of `token_out` until the quote's deadline.
pub open spec fn swap_message_of(
    signer_id: Seq<char>,
    deadline: Seq<char>,
    token_in: Seq<char>,
    amount_in: Seq<char>,
    token_out: Seq<char>,
    amount_out: Seq<char>,
) -> Seq<char> {
    "{\"signer_id\": "@ + json_quoted(signer_id) + ",\"deadline\": "@ + json_quoted(deadline)
        + ",\"intents\": [{\"intent\": \"token_diff\",\"diff\": {"@ + json_quoted(token_in)
        + ": "@ + json_quoted("-"@ + amount_in) + ","@ + json_quoted(token_out) + ": "@
        + json_quoted(amount_out) + "}}]}"@
}

/// The withdrawal intent message: `amount` of `token` leaves the venue for
/// `receiver_id` before the deadline.
pub open spec fn withdraw_message_of(
    signer_id: Seq<char>,
    deadline: Seq<char>,
    token: Seq<char>,
    receiver_id: Seq<char>,
    amount: Seq<char>,
) -> Seq<char> {
    "{\"signer_id\":"@ + json_quoted(signer_id) + ",\"deadline\":"@ + json_quoted(deadline)
        + ",\"intents\":[{\"intent\":\"ft_withdraw\",\"token\":"@ + json_quoted(token)
        + ",\"receiver_id\":"@ + json_quoted(receiver_id) + ",\"amount\":"@ + json_quoted(amount)
        + "}]}"@
}

pub fn swap_intent_message(
    signer_id: &str,
    deadline: &str,
    token_in: &str,
    amount_in: &str,
    token_out: &str,
    amount_out: &str,
) -> (r: String)
    ensures
        r@ == swap_message_of(signer_id@, deadline@, token_in@, amount_in@, token_out@, amount_out@),
{
    let negative = String::from_str("-").concat(amount_in);
    String::from_str("{\"signer_id\": ").concat(json_quote(signer_id).as_str()).concat(
        ",\"deadline\": ",
    ).concat(json_quote(deadline).as_str()).concat(
        ",\"intents\": [{\"intent\": \"token_diff\",\"diff\": {",
    ).concat(json_quote(token_in).as_str()).concat(": ").concat(
        json_quote(negative.as_str()).as_str(),
    ).concat(",").concat(json_quote(token_out).as_str()).concat(": ").concat(
        json_quote(amount_out).as_str(),
    ).concat("}}]}")
}

pub fn withdraw_intent_message(
    signer_id: &str,
    deadline: &str,
    token: &str,
    receiver_id: &str,
    amount: &str,
) -> (r: String)
    ensures
        r@ == withdraw_message_of(signer_id@, deadline@, token@, receiver_id@, amount@),
{
    String::from_str("{\"signer_id\":").concat(json_quote(signer_id).as_str()).concat(
        ",\"deadline\":",
    ).concat(json_quote(deadline).as_str()).concat(
        ",\"intents\":[{\"intent\":\"ft_withdraw\",\"token\":",
    ).concat(json_quote(token).as_str()).concat(",\"receiver_id\":").concat(
        json_quote(receiver_id).as_str(),
    ).concat(",\"amount\":").concat(json_quote(amount).as_str()).concat("}]}")
}

/// The deadline of a withdrawal intent: 180 seconds after `now_secs`, as
/// ISO-8601 text in UTC.
pub fn get_deadline_180s(now_secs: u64) -> (r: String)
    requires
        now_secs <= u64::MAX - WITHDRAW_DEADLINE_SECS,
    ensures
        is_iso_time(now_secs + WITHDRAW_DEADLINE_SECS, r@),
{
    iso_time(now_secs + WITHDRAW_DEADLINE_SECS)
}

/// An intent message signed for publication.
#[derive(Debug, Clone, PartialEq, Eq)]
pub struct SignedIntent {
    pub message: String,
    pub nonce: String,
    pub recipient: String,
    pub standard: String,
    /// `ed25519:` and the base58 signature.
    pub signature: String,
    /// `ed25519:` and the base58 public key.
    pub public_key: String,
}

/// Whether `s` is `message` signed with `nonce` and `private_key` for the
/// intents contract.
pub open spec fn is_signed_intent(
    s: SignedIntent,
    message: Seq<char>,
    nonce: Seq<char>,
    private_key: Seq<char>,
) -> bool {
    let key = without_prefix(private_key, key_prefix());
    &&& s.message@ == message
    &&& s.nonce@ == nonce
    &&& s.recipient@ == intents_contract()
    &&& s.standard@ == INTENT_STANDARD@
    &&& signed_message(message, nonce, intents_contract(), key) matches Ok(pair)
    &&& s.signature@ == key_prefix() + pair.0
    &&& seed_from_marked_key(private_key) matches Ok(seed)
    &&& s.public_key@ == key_prefix() + base58_of(ed25519_public_of(seed))
}

/// Signs an intent message for publication to the intents contract.
pub fn signed_intent(message: String, nonce: String, private_key: &str) -> (r: Result<
    SignedIntent,
    SignError,
>)
    ensures
        match r {
            Ok(s) => is_signed_intent(s, message@, nonce@, private_key@),
            Err(e) => signed_message(
                message@,
                nonce@,
                intents_contract(),
                without_prefix(private_key@, key_prefix()),
            ) == Err::<(Seq<char>, Seq<char>), SignError>(e),
        },
{
    let signature = sign_intent(message.as_str(), nonce.as_str(), private_key)?;
    let public_key = match derive_public_key(private_key) {
        Ok(pk) => pk,
        Err(e) => {
            // signing succeeded, so the key decodes and this cannot happen
            assert(false);
            return Err(e);
        },
    };
    Ok(
        SignedIntent {
            message,
            nonce,
            recipient: String::from_str(INTENTS_CONTRACT),
            standard: String::from_str(INTENT_STANDARD),
            signature: String::from_str(KEY_PREFIX).concat(signature.as_str()),
            public_key,
        },
    )
}

} // verus!
