//! The escrow ledger: it takes deposits, hands each swap to the compute
//! dispatcher, and settles it, by payout or refund, when the single
//! continuation for it arrives.
//!
//! The host ledger runs one call at a time. What the host provides (the
//! calling account, the block time, this contract's account) comes in as
//! arguments, and what the host must do (dispatch a job, transfer tokens)
//! comes back as values.
//!
//! The continuation settles a swap from its pending record, which it
//! removes first, so that each request id is settled at most once. When the
//! dispatcher itself failed, the swap is aborted with no transfer; when the
//! swap failed (a failed report, an unreadable amount, too little output),
//! the whole deposit goes back to its sender.
use vstd::prelude::*;
use vstd::hash_map::{HashMapWithView, StringHashMap};
use crate::fees::{fee_of, split_fee, MAX_FEE_BPS};
use crate::text::{amount_or_zero, decimal, decimal_of, parse_amount_or_zero, parse_u128, parsed_u128};
use crate::types::{
    copy_string, Balance, ExecutionResponse, SwapRequest, SwapResponse,
    TokenConfig, TokenId, TokenReceiverMessage,
};

verus! {

broadcast use vstd::std_specs::hash::group_hash_axioms;

/// Fee rate of a new ledger when none is given: 0.1%.
pub const DEFAULT_FEE_BPS: u16 = 10;

/// Name of the secrets profile of a new ledger when none is given.
pub const DEFAULT_SECRETS_PROFILE: &'static str = "production";

/// Prefix that turns a token's account into its venue asset identifier.
pub const ASSET_PREFIX: &'static str = "nep141:";

/// Memo of the payout transfer, before the intent hash.
pub const PAYOUT_MEMO: &'static str = "NEAR Intents swap completed. Intent: ";

/// Why a call to the ledger was refused; a refused call changes nothing.
#[derive(Debug, Clone, PartialEq, Eq)]
pub enum LedgerError {
    /// Only the owner may make this call.
    NotOwner,
    /// A fee rate above 1000 basis points.
    FeeTooHigh,
    /// The token is not on the allow-list.
    TokenNotWhitelisted,
    /// No fees have been collected in this token.
    NoFees,
    /// More fees were asked for than have been collected.
    InsufficientFees { requested: Balance, available: Balance },
    /// The whole ledger is paused.
    Paused,
    /// New swaps are paused.
    SwapsPaused,
    /// The deposited token is not on the allow-list.
    TokenInNotWhitelisted,
    /// The requested token is not on the allow-list.
    TokenOutNotWhitelisted,
    /// A token cannot be swapped for itself.
    SameToken,
    /// A deposit of nothing.
    ZeroAmount,
    /// The deposit is below the deposited token's minimum.
    BelowMinimum { amount: Balance, minimum: Balance },
    /// Every request id has been handed out.
    RequestIdsExhausted,
}

/// The escrow ledger's state.
pub struct Contract {
    pub owner_id: String,
    /// Account whose secrets the dispatched job may read.
    pub operator_id: String,
    /// Stops every deposit.
    pub paused: bool,
    /// Stops new swaps; continuations still run.
    pub swap_paused: bool,
    pub whitelist: StringHashMap<TokenConfig>,
    pub pending_swaps: HashMapWithView<u64, SwapRequest>,
    pub next_request_id: u64,
    pub secrets_profile: String,
    pub fee_basis_points: u16,
    pub collected_fees: StringHashMap<Balance>,
}

/// The job that the worker runs for one swap: the venue's names of both
/// assets, and the amount after the fee, as decimal text.
#[derive(Debug, Clone, PartialEq, Eq)]
pub struct SwapJob {
    pub sender_id: String,
    pub token_in: String,
    pub token_out: String,
    pub amount_in: String,
    pub min_amount_out: String,
    pub swap_contract_id: String,
}

/// What the host must do after a deposit is accepted: run `job` on the
/// compute dispatcher, then call the continuation with the other fields.
#[derive(Debug, Clone, PartialEq, Eq)]
pub struct SwapDispatch {
    pub request_id: u64,
    pub sender_id: String,
    pub token_in: TokenId,
    pub token_out: TokenId,
    pub amount_in: Balance,
    pub min_amount_out: Balance,
    pub fee_amount: Balance,
    pub job: SwapJob,
    pub secrets_profile: String,
    pub operator_id: String,
}

/// What the continuation learns of a dispatched job.
#[derive(Debug, Clone, PartialEq, Eq)]
pub enum ExecutionResult {
    /// The dispatcher reported on the job.
    Completed(ExecutionResponse),
    /// The dispatcher returned nothing.
    NoResponse,
    /// The dispatch itself failed.
    PromiseFailed,
}

/// Why a swap was aborted or refunded.
#[derive(Debug, Clone, PartialEq, Eq)]
pub enum SwapFailure {
    /// The dispatch itself failed.
    PromiseFailed,
    /// The dispatcher returned nothing.
    NoResponse,
    /// The worker itself failed, with the dispatcher's error text.
    ExecutionFailed(Option<String>),
    /// The worker succeeded but produced no output.
    NoOutput,
    /// The worker's output is not a swap report.
    Undecodable,
    /// The worker reported a failed swap, with its error text.
    SwapFailed(Option<String>),
    /// The worker reported a success whose amount is not a decimal number.
    UnreadableAmount(String),
    /// The venue settled for less than the requested minimum.
    BelowMinimum { amount_out: Balance, min_amount_out: Balance },
    /// The fee would overflow the collected balance.
    FeeOverflow,
}

/// The transfer the host must make to settle a swap.
#[derive(Debug, Clone, PartialEq, Eq)]
pub enum Settlement {
    /// Pay the swapped amount of the requested token to the sender.
    Payout { token_id: TokenId, receiver_id: String, amount: Balance, memo: String },
    /// Return the whole deposit to the sender, after a failed swap.
    Refund { token_id: TokenId, receiver_id: String, amount: Balance, reason: SwapFailure },
    /// The dispatcher itself failed: no transfer, no fee.
    Aborted { reason: SwapFailure },
    /// No swap is pending under the request id: nothing to do.
    NotPending,
}

/// The transfer of collected fees to the owner.
#[derive(Debug, Clone, PartialEq, Eq)]
pub struct FeeWithdrawal {
    pub token_id: TokenId,
    pub receiver_id: String,
    pub amount: Balance,
    pub remaining: Balance,
}

/// The ledger's settings.
#[derive(Debug, Clone, PartialEq, Eq)]
pub struct ConfigView {
    pub owner_id: String,
    pub operator_id: String,
    pub paused: bool,
    pub swap_paused: bool,
    pub secrets_profile: String,
    pub next_request_id: u64,
    pub fee_basis_points: u16,
}

/// The fees collected in a token; zero when there are none.
pub open spec fn fees_in(fees: Map<Seq<char>, Balance>, token: Seq<char>) -> Balance {
    if fees.contains_key(token) {
        fees[token]
    } else {
        0
    }
}

/// Which check, if any, refuses a deposit of `amount` of `token_in` for
/// `token_out`, in the order the ledger makes them.
pub open spec fn admission(
    c: Contract,
    token_in: Seq<char>,
    amount: Balance,
    token_out: Seq<char>,
) -> Result<(), LedgerError> {
    if c.paused {
        Err(LedgerError::Paused)
    } else if c.swap_paused {
        Err(LedgerError::SwapsPaused)
    } else if !c.whitelist@.contains_key(token_in) {
        Err(LedgerError::TokenInNotWhitelisted)
    } else if !c.whitelist@.contains_key(token_out) {
        Err(LedgerError::TokenOutNotWhitelisted)
    } else if token_in == token_out {
        Err(LedgerError::SameToken)
    } else if amount == 0 {
        Err(LedgerError::ZeroAmount)
    } else if amount < c.whitelist@[token_in].min_swap_amount {
        Err(
            LedgerError::BelowMinimum {
                amount,
                minimum: c.whitelist@[token_in].min_swap_amount,
            },
        )
    } else if c.next_request_id == u64::MAX {
        Err(LedgerError::RequestIdsExhausted)
    } else {
        Ok(())
    }
}

/// Whether a failure lies with the dispatcher rather than the swap: the
/// continuation then aborts instead of refunding.
pub open spec fn is_dispatch_failure(f: SwapFailure) -> bool {
    f is PromiseFailed || f is NoResponse || f is ExecutionFailed
}

/// The minimum output a deposit message asks for: its number, or zero when
/// it is absent or does not read as a number.
pub open spec fn min_out_of(m: Option<String>) -> u128 {
    match m {
        Some(t) => amount_or_zero(t@),
        None => 0,
    }
}

/// The amount a continuation pays out, or why it does not.
pub open spec fn verdict(
    result: ExecutionResult,
    decoded: Option<SwapResponse>,
    min_amount_out: Balance,
) -> Result<Balance, SwapFailure> {
    match result {
        ExecutionResult::PromiseFailed => Err(SwapFailure::PromiseFailed),
        ExecutionResult::NoResponse => Err(SwapFailure::NoResponse),
        ExecutionResult::Completed(resp) => if !resp.success {
            Err(SwapFailure::ExecutionFailed(resp.error))
        } else if resp.output is None {
            Err(SwapFailure::NoOutput)
        } else {
            match decoded {
                None => Err(SwapFailure::Undecodable),
                Some(report) => if !report.success || report.amount_out is None {
                    Err(SwapFailure::SwapFailed(report.error_message))
                } else {
                    match parsed_u128(report.amount_out->Some_0@) {
                        None => Err(SwapFailure::UnreadableAmount(report.amount_out->Some_0)),
                        Some(out) => if out < min_amount_out {
                            Err(SwapFailure::BelowMinimum { amount_out: out, min_amount_out })
                        } else {
                            Ok(out)
                        },
                    }
                },
            }
        },
    }
}

/// The intent hash that a report names, or the empty text.
pub open spec fn reported_hash(decoded: Option<SwapResponse>) -> Seq<char> {
    match decoded {
        Some(report) => match report.intent_hash {
            Some(h) => h@,
            None => Seq::empty(),
        },
        None => Seq::empty(),
    }
}

impl Contract {
    /// The ledger's invariant: the fee rate is at most 1000 basis points, and
    /// every pending swap's id was handed out before the next one.
    pub open spec fn wf(&self) -> bool {
        &&& self.fee_basis_points <= MAX_FEE_BPS
        &&& forall|id: u64| #[trigger]
            self.pending_swaps@.contains_key(id) ==> id < self.next_request_id
    }

    /// Whether `new` is `old` after accepting a deposit that `d` describes:
    /// the next id is taken, and the swap is recorded under it with the whole
    /// deposit (at whatever time the host gave).
    pub open spec fn initiated(old: Contract, new: Contract, d: SwapDispatch) -> bool {
        &&& d.request_id == old.next_request_id
        &&& new.next_request_id == old.next_request_id + 1
        &&& new.pending_swaps@ == old.pending_swaps@.insert(
            d.request_id,
            SwapRequest {
                request_id: d.request_id,
                sender_id: d.sender_id,
                token_in: d.token_in,
                token_out: d.token_out,
                amount_in: d.amount_in,
                min_amount_out: d.min_amount_out,
                fee_amount: d.fee_amount,
                timestamp: new.pending_swaps@[d.request_id].timestamp,
            },
        )
        &&& new.whitelist@ == old.whitelist@
        &&& new.collected_fees@ == old.collected_fees@
        &&& new.fee_basis_points == old.fee_basis_points
        &&& new.paused == old.paused
        &&& new.swap_paused == old.swap_paused
    }

    /// A new ledger; with no operator the owner operates it, with no profile
    /// it reads the `production` secrets, with no rate it charges 0.1%.
    pub fn new(
        owner_id: String,
        operator_id: Option<String>,
        secrets_profile: Option<String>,
        fee_basis_points: Option<u16>,
    ) -> (r: Result<Contract, LedgerError>)
        ensures
            match fee_basis_points {
                Some(f) => f > MAX_FEE_BPS <==> r is Err,
                None => r is Ok,
            },
            r matches Err(e) ==> e == LedgerError::FeeTooHigh,
            r matches Ok(c) ==> {
                &&& c.wf()
                &&& c.owner_id == owner_id
                &&& c.operator_id == match operator_id {
                    Some(o) => o,
                    None => owner_id,
                }
                &&& c.secrets_profile@ == match secrets_profile {
                    Some(p) => p@,
                    None => DEFAULT_SECRETS_PROFILE@,
                }
                &&& c.fee_basis_points == match fee_basis_points {
                    Some(f) => f,
                    None => DEFAULT_FEE_BPS,
                }
                &&& !c.paused && !c.swap_paused
                &&& c.next_request_id == 0
                &&& c.whitelist@ == Map::<Seq<char>, TokenConfig>::empty()
                &&& c.pending_swaps@ == Map::<u64, SwapRequest>::empty()
                &&& c.collected_fees@ == Map::<Seq<char>, Balance>::empty()
            },
    {
        let fee = match fee_basis_points {
            Some(f) => f,
            None => DEFAULT_FEE_BPS,
        };
        if fee > MAX_FEE_BPS {
            return Err(LedgerError::FeeTooHigh);
        }
        let operator = match operator_id {
            Some(o) => o,
            None => copy_string(&owner_id),
        };
        let profile = match secrets_profile {
            Some(p) => p,
            None => String::from_str(DEFAULT_SECRETS_PROFILE),
        };
        Ok(
            Contract {
                owner_id,
                operator_id: operator,
                paused: false,
                swap_paused: false,
                whitelist: StringHashMap::new(),
                pending_swaps: HashMapWithView::new(),
                next_request_id: 0,
                secrets_profile: profile,
                fee_basis_points: fee,
                collected_fees: StringHashMap::new(),
            },
        )
    }

    /// Refuses a caller other than the owner.
    pub fn assert_owner(&self, caller: &String) -> (r: Result<(), LedgerError>)
        ensures
            r is Ok <==> caller@ == self.owner_id@,
            r matches Err(e) ==> e == LedgerError::NotOwner,
    {
        if *caller == self.owner_id {
            Ok(())
        } else {
            Err(LedgerError::NotOwner)
        }
    }

    /// Refuses every deposit while the ledger is paused.
    pub fn assert_not_paused(&self) -> (r: Result<(), LedgerError>)
        ensures
            r is Ok <==> !self.paused,
            r matches Err(e) ==> e == LedgerError::Paused,
    {
        if self.paused {
            Err(LedgerError::Paused)
        } else {
            Ok(())
        }
    }

    /// Refuses new swaps while swaps are paused.
    pub fn assert_swaps_not_paused(&self) -> (r: Result<(), LedgerError>)
        ensures
            r is Ok <==> !self.swap_paused,
            r matches Err(e) ==> e == LedgerError::SwapsPaused,
    {
        if self.swap_paused {
            Err(LedgerError::SwapsPaused)
        } else {
            Ok(())
        }
    }

    pub fn set_owner(&mut self, caller: &String, new_owner_id: String) -> (r: Result<(), LedgerError>)
        ensures
            r is Ok <==> caller@ == old(self).owner_id@,
            r matches Err(e) ==> e == LedgerError::NotOwner && *final(self) == *old(self),
            r is Ok ==> *final(self) == (Contract { owner_id: new_owner_id, ..*old(self) }),
    {
        self.assert_owner(caller)?;
        self.owner_id = new_owner_id;
        Ok(())
    }

    pub fn set_operator(&mut self, caller: &String, new_operator_id: String) -> (r: Result<
        (),
        LedgerError,
    >)
        ensures
            r is Ok <==> caller@ == old(self).owner_id@,
            r matches Err(e) ==> e == LedgerError::NotOwner && *final(self) == *old(self),
            r is Ok ==> *final(self) == (Contract { operator_id: new_operator_id, ..*old(self) }),
    {
        self.assert_owner(caller)?;
        self.operator_id = new_operator_id;
        Ok(())
    }

    pub fn set_paused(&mut self, caller: &String, paused: bool) -> (r: Result<(), LedgerError>)
        ensures
            r is Ok <==> caller@ == old(self).owner_id@,
            r matches Err(e) ==> e == LedgerError::NotOwner && *final(self) == *old(self),
            r is Ok ==> *final(self) == (Contract { paused, ..*old(self) }),
    {
        self.assert_owner(caller)?;
        self.paused = paused;
        Ok(())
    }

    pub fn set_swap_paused(&mut self, caller: &String, swap_paused: bool) -> (r: Result<
        (),
        LedgerError,
    >)
        ensures
            r is Ok <==> caller@ == old(self).owner_id@,
            r matches Err(e) ==> e == LedgerError::NotOwner && *final(self) == *old(self),
            r is Ok ==> *final(self) == (Contract { swap_paused, ..*old(self) }),
    {
        self.assert_owner(caller)?;
        self.swap_paused = swap_paused;
        Ok(())
    }

    pub fn set_secrets_profile(&mut self, caller: &String, profile: String) -> (r: Result<
        (),
        LedgerError,
    >)
        ensures
            r is Ok <==> caller@ == old(self).owner_id@,
            r matches Err(e) ==> e == LedgerError::NotOwner && *final(self) == *old(self),
            r is Ok ==> *final(self) == (Contract { secrets_profile: profile, ..*old(self) }),
    {
        self.assert_owner(caller)?;
        self.secrets_profile = profile;
        Ok(())
    }

    /// Puts a token on the allow-list; without an asset identifier its venue
    /// name is `nep141:` followed by the token's account.
    pub fn whitelist_token(
        &mut self,
        caller: &String,
        token_id: TokenId,
        defuse_asset_id: Option<String>,
        min_swap_amount: Balance,
    ) -> (r: Result<(), LedgerError>)
        ensures
            r is Ok <==> caller@ == old(self).owner_id@,
            r matches Err(e) ==> e == LedgerError::NotOwner && *final(self) == *old(self),
            r is Ok ==> {
                &&& final(self).whitelist@.contains_key(token_id@)
                &&& final(self).whitelist@[token_id@].min_swap_amount == min_swap_amount
                &&& final(self).whitelist@[token_id@].defuse_asset_id@ == match defuse_asset_id {
                    Some(a) => a@,
                    None => ASSET_PREFIX@ + token_id@,
                }
                &&& final(self).whitelist@ == old(self).whitelist@.insert(
                    token_id@,
                    final(self).whitelist@[token_id@],
                )
                &&& *final(self) == (Contract { whitelist: final(self).whitelist, ..*old(self) })
            },
    {
        self.assert_owner(caller)?;
        let asset_id = match defuse_asset_id {
            Some(a) => a,
            None => String::from_str(ASSET_PREFIX).concat(token_id.as_str()),
        };
        let config = TokenConfig { defuse_asset_id: asset_id, min_swap_amount };
        self.whitelist.insert(token_id, config);
        Ok(())
    }

    /// Changes the given parts of an allow-listed token's configuration.
    pub fn update_token_config(
        &mut self,
        caller: &String,
        token_id: TokenId,
        defuse_asset_id: Option<String>,
        min_swap_amount: Option<Balance>,
    ) -> (r: Result<(), LedgerError>)
        ensures
            caller@ != old(self).owner_id@ ==> r == Err::<(), LedgerError>(LedgerError::NotOwner),
            caller@ == old(self).owner_id@ && !old(self).whitelist@.contains_key(token_id@) ==> r
                == Err::<(), LedgerError>(LedgerError::TokenNotWhitelisted),
            r is Err ==> *final(self) == *old(self),
            r is Ok ==> {
                let before = old(self).whitelist@[token_id@];
                &&& caller@ == old(self).owner_id@
                &&& final(self).whitelist@ == old(self).whitelist@.insert(
                    token_id@,
                    TokenConfig {
                        defuse_asset_id: match defuse_asset_id {
                            Some(a) => a,
                            None => before.defuse_asset_id,
                        },
                        min_swap_amount: match min_swap_amount {
                            Some(m) => m,
                            None => before.min_swap_amount,
                        },
                    },
                )
                &&& *final(self) == (Contract { whitelist: final(self).whitelist, ..*old(self) })
            },
    {
        self.assert_owner(caller)?;
        let mut config = match self.whitelist.get(token_id.as_str()) {
            Some(c) => c.copy(),
            None => return Err(LedgerError::TokenNotWhitelisted),
        };
        if let Some(asset_id) = defuse_asset_id {
            config.defuse_asset_id = asset_id;
        }
        if let Some(min_amount) = min_swap_amount {
            config.min_swap_amount = min_amount;
        }
        self.whitelist.insert(token_id, config);
        Ok(())
    }

    /// Sets the fee rate, at most 1000 basis points.
    pub fn set_fee_percentage(&mut self, caller: &String, fee_basis_points: u16) -> (r: Result<
        (),
        LedgerError,
    >)
        requires
            old(self).wf(),
        ensures
            caller@ != old(self).owner_id@ ==> r == Err::<(), LedgerError>(LedgerError::NotOwner),
            caller@ == old(self).owner_id@ && fee_basis_points > MAX_FEE_BPS ==> r == Err::<
                (),
                LedgerError,
            >(LedgerError::FeeTooHigh),
            r is Ok <==> caller@ == old(self).owner_id@ && fee_basis_points <= MAX_FEE_BPS,
            r is Err ==> *final(self) == *old(self),
            r is Ok ==> *final(self) == (Contract { fee_basis_points, ..*old(self) }),
            final(self).wf(),
    {
        self.assert_owner(caller)?;
        if fee_basis_points > MAX_FEE_BPS {
            return Err(LedgerError::FeeTooHigh);
        }
        self.fee_basis_points = fee_basis_points;
        Ok(())
    }

    /// Takes collected fees of a token out of the ledger for the owner: the
    /// given amount, or all of them.
    pub fn withdraw_fees(
        &mut self,
        caller: &String,
        token_id: TokenId,
        amount: Option<Balance>,
    ) -> (r: Result<FeeWithdrawal, LedgerError>)
        ensures
            ({
                let available = fees_in(old(self).collected_fees@, token_id@);
                let wanted = match amount {
                    Some(a) => a,
                    None => available,
                };
                &&& caller@ != old(self).owner_id@ ==> r == Err::<FeeWithdrawal, LedgerError>(
                    LedgerError::NotOwner,
                )
                &&& caller@ == old(self).owner_id@ && available == 0 ==> r == Err::<
                    FeeWithdrawal,
                    LedgerError,
                >(LedgerError::NoFees)
                &&& caller@ == old(self).owner_id@ && available > 0 && wanted > available ==> r
                    == Err::<FeeWithdrawal, LedgerError>(
                    LedgerError::InsufficientFees { requested: wanted, available },
                )
                &&& r is Ok <==> caller@ == old(self).owner_id@ && available > 0 && wanted
                    <= available
                &&& r is Err ==> *final(self) == *old(self)
                &&& r matches Ok(w) ==> {
                    &&& w.token_id == token_id
                    &&& w.receiver_id == old(self).owner_id
                    &&& w.amount == wanted
                    &&& w.remaining == available - wanted
                    &&& final(self).collected_fees@ == if available - wanted > 0 {
                        old(self).collected_fees@.insert(token_id@, (available - wanted) as Balance)
                    } else {
                        old(self).collected_fees@.remove(token_id@)
                    }
                    &&& *final(self) == (Contract {
                        collected_fees: final(self).collected_fees,
                        ..*old(self)
                    })
                }
            }),
    {
        self.assert_owner(caller)?;
        let available: Balance = match self.collected_fees.get(token_id.as_str()) {
            Some(v) => *v,
            None => 0,
        };
        if available == 0 {
            return Err(LedgerError::NoFees);
        }
        let wanted = match amount {
            Some(a) => a,
            None => available,
        };
        if wanted > available {
            return Err(LedgerError::InsufficientFees { requested: wanted, available });
        }
        let remaining = available - wanted;
        if remaining > 0 {
            self.collected_fees.insert(copy_string(&token_id), remaining);
        } else {
            self.collected_fees.remove(token_id.as_str());
        }
        Ok(
            FeeWithdrawal {
                token_id,
                receiver_id: copy_string(&self.owner_id),
                amount: wanted,
                remaining,
            },
        )
    }

    pub fn remove_token_from_whitelist(&mut self, caller: &String, token_id: TokenId) -> (r: Result<
        (),
        LedgerError,
    >)
        ensures
            r is Ok <==> caller@ == old(self).owner_id@,
            r matches Err(e) ==> e == LedgerError::NotOwner && *final(self) == *old(self),
            r is Ok ==> final(self).whitelist@ == old(self).whitelist@.remove(token_id@),
            r is Ok ==> *final(self) == (Contract { whitelist: final(self).whitelist, ..*old(self) }),
    {
        self.assert_owner(caller)?;
        self.whitelist.remove(token_id.as_str());
        Ok(())
    }

    pub fn get_config(&self) -> (r: ConfigView)
        ensures
            r.owner_id == self.owner_id,
            r.operator_id == self.operator_id,
            r.paused == self.paused,
            r.swap_paused == self.swap_paused,
            r.secrets_profile == self.secrets_profile,
            r.next_request_id == self.next_request_id,
            r.fee_basis_points == self.fee_basis_points,
    {
        ConfigView {
            owner_id: copy_string(&self.owner_id),
            operator_id: copy_string(&self.operator_id),
            paused: self.paused,
            swap_paused: self.swap_paused,
            secrets_profile: copy_string(&self.secrets_profile),
            next_request_id: self.next_request_id,
            fee_basis_points: self.fee_basis_points,
        }
    }

    pub fn get_token_config(&self, token_id: &TokenId) -> (r: Option<TokenConfig>)
        ensures
            match r {
                Some(c) => self.whitelist@.contains_key(token_id@) && c == self.whitelist@[token_id@],
                None => !self.whitelist@.contains_key(token_id@),
            },
    {
        match self.whitelist.get(token_id.as_str()) {
            Some(c) => Some(c.copy()),
            None => None,
        }
    }

    pub fn get_collected_fees(&self, token_id: &TokenId) -> (r: Balance)
        ensures
            r == fees_in(self.collected_fees@, token_id@),
    {
        match self.collected_fees.get(token_id.as_str()) {
            Some(v) => *v,
            None => 0,
        }
    }

    pub fn is_swap_paused(&self) -> (r: bool)
        ensures
            r == self.swap_paused,
    {
        self.swap_paused
    }

    pub fn is_token_whitelisted(&self, token_id: &TokenId) -> (r: bool)
        ensures
            r == self.whitelist@.contains_key(token_id@),
    {
        self.whitelist.contains_key(token_id.as_str())
    }

    pub fn get_pending_swap(&self, request_id: u64) -> (r: Option<SwapRequest>)
        ensures
            match r {
                Some(s) => self.pending_swaps@.contains_key(request_id) && s
                    == self.pending_swaps@[request_id],
                None => !self.pending_swaps@.contains_key(request_id),
            },
    {
        match self.pending_swaps.get(&request_id) {
            Some(s) => Some(s.copy()),
            None => None,
        }
    }
}

impl Contract {
    /// Accepts a deposit of `amount` of `token_in` (the calling token
    /// contract) from `sender_id` and starts the swap its message asks for.
    ///
    /// A refused deposit changes nothing. An accepted one takes the next
    /// request id, records the pending swap with the whole deposit, and
    /// returns the job to dispatch, which carries the amount after the fee.
    /// A minimum output that does not read as a number counts as zero.
    pub fn ft_on_transfer(
        &mut self,
        token_in: TokenId,
        sender_id: String,
        amount: Balance,
        msg: TokenReceiverMessage,
        timestamp: u64,
        current_account_id: &String,
    ) -> (r: Result<SwapDispatch, LedgerError>)
        requires
            old(self).wf(),
        ensures
            final(self).wf(),
            ({
                let token_out = msg->Swap_token_out;
                let min_out = min_out_of(msg->Swap_min_amount_out);
                let (fee, after_fee) = (
                    fee_of(amount as nat, old(self).fee_basis_points as nat),
                    amount - fee_of(amount as nat, old(self).fee_basis_points as nat),
                );
                &&& r is Ok <==> admission(*old(self), token_in@, amount, token_out@) is Ok
                &&& r matches Err(e) ==> admission(*old(self), token_in@, amount, token_out@)
                    == Err::<(), LedgerError>(e) && *final(self) == *old(self)
                &&& r matches Ok(d) ==> {
                    &&& Contract::initiated(*old(self), *final(self), d)
                    &&& final(self).pending_swaps@[d.request_id].timestamp == timestamp
                    &&& final(self).owner_id == old(self).owner_id
                    &&& final(self).operator_id == old(self).operator_id
                    &&& final(self).secrets_profile == old(self).secrets_profile
                    &&& d.sender_id == sender_id
                    &&& d.token_in == token_in
                    &&& d.token_out == token_out
                    &&& d.amount_in == amount
                    &&& d.min_amount_out == min_out
                    &&& d.fee_amount == fee
                    &&& d.job.sender_id == sender_id
                    &&& d.job.token_in == old(self).whitelist@[token_in@].defuse_asset_id
                    &&& d.job.token_out == old(self).whitelist@[token_out@].defuse_asset_id
                    &&& d.job.amount_in@ == decimal_of(after_fee as nat)
                    &&& d.job.min_amount_out@ == decimal_of(min_out as nat)
                    &&& d.job.swap_contract_id == *current_account_id
                    &&& d.secrets_profile == old(self).secrets_profile
                    &&& d.operator_id == old(self).operator_id
                }
            }),
    {
        self.assert_not_paused()?;
        self.assert_swaps_not_paused()?;
        let token_in_config = match self.whitelist.get(token_in.as_str()) {
            Some(c) => c.copy(),
            None => return Err(LedgerError::TokenInNotWhitelisted),
        };
        match msg {
            TokenReceiverMessage::Swap { token_out, min_amount_out } => {
                let token_out_config = match self.whitelist.get(token_out.as_str()) {
                    Some(c) => c.copy(),
                    None => return Err(LedgerError::TokenOutNotWhitelisted),
                };
                let min_amount_out_value: Balance = match &min_amount_out {
                    Some(m) => parse_amount_or_zero(m.as_str()),
                    None => 0,
                };
                self.internal_initiate_swap(
                    sender_id,
                    token_in,
                    token_out,
                    token_in_config,
                    token_out_config,
                    amount,
                    min_amount_out_value,
                    timestamp,
                    current_account_id,
                )
            },
        }
    }

    /// Starts a swap whose tokens are both allow-listed and whose
    /// configurations are given: the checks that remain, then the pending
    /// record and the job.
    pub fn internal_initiate_swap(
        &mut self,
        sender_id: String,
        token_in: TokenId,
        token_out: TokenId,
        token_in_config: TokenConfig,
        token_out_config: TokenConfig,
        amount_in: Balance,
        min_amount_out: Balance,
        timestamp: u64,
        current_account_id: &String,
    ) -> (r: Result<SwapDispatch, LedgerError>)
        requires
            old(self).wf(),
            !old(self).paused,
            !old(self).swap_paused,
            old(self).whitelist@.contains_key(token_in@),
            old(self).whitelist@.contains_key(token_out@),
            token_in_config == old(self).whitelist@[token_in@],
            token_out_config == old(self).whitelist@[token_out@],
        ensures
            final(self).wf(),
            r is Ok <==> admission(*old(self), token_in@, amount_in, token_out@) is Ok,
            r matches Err(e) ==> admission(*old(self), token_in@, amount_in, token_out@) == Err::<
                (),
                LedgerError,
            >(e) && *final(self) == *old(self),
            r matches Ok(d) ==> {
                &&& Contract::initiated(*old(self), *final(self), d)
                &&& final(self).pending_swaps@[d.request_id].timestamp == timestamp
                &&& final(self).owner_id == old(self).owner_id
                &&& final(self).operator_id == old(self).operator_id
                &&& final(self).secrets_profile == old(self).secrets_profile
                &&& d.sender_id == sender_id
                &&& d.token_in == token_in
                &&& d.token_out == token_out
                &&& d.amount_in == amount_in
                &&& d.min_amount_out == min_amount_out
                &&& d.fee_amount == fee_of(amount_in as nat, old(self).fee_basis_points as nat)
                &&& d.job.sender_id == sender_id
                &&& d.job.token_in == token_in_config.defuse_asset_id
                &&& d.job.token_out == token_out_config.defuse_asset_id
                &&& d.job.amount_in@ == decimal_of(
                    (amount_in - fee_of(amount_in as nat, old(self).fee_basis_points as nat)) as nat,
                )
                &&& d.job.min_amount_out@ == decimal_of(min_amount_out as nat)
                &&& d.job.swap_contract_id == *current_account_id
                &&& d.secrets_profile == old(self).secrets_profile
                &&& d.operator_id == old(self).operator_id
            },
    {
        if token_in == token_out {
            return Err(LedgerError::SameToken);
        }
        if amount_in == 0 {
            return Err(LedgerError::ZeroAmount);
        }
        if amount_in < token_in_config.min_swap_amount {
            return Err(
                LedgerError::BelowMinimum {
                    amount: amount_in,
                    minimum: token_in_config.min_swap_amount,
                },
            );
        }
        if self.next_request_id == u64::MAX {
            return Err(LedgerError::RequestIdsExhausted);
        }
        let (fee_amount, amount_after_fee) = split_fee(amount_in, self.fee_basis_points);
        let request_id = self.next_request_id;
        self.next_request_id = self.next_request_id + 1;
        let swap_request = SwapRequest {
            request_id,
            sender_id: copy_string(&sender_id),
            token_in: copy_string(&token_in),
            token_out: copy_string(&token_out),
            amount_in,
            min_amount_out,
            fee_amount,
            timestamp,
        };
        self.pending_swaps.insert(request_id, swap_request);
        let job = SwapJob {
            sender_id: copy_string(&sender_id),
            token_in: token_in_config.defuse_asset_id,
            token_out: token_out_config.defuse_asset_id,
            amount_in: decimal(amount_after_fee),
            min_amount_out: decimal(min_amount_out),
            swap_contract_id: copy_string(current_account_id),
        };
        Ok(
            SwapDispatch {
                request_id,
                sender_id,
                token_in,
                token_out,
                amount_in,
                min_amount_out,
                fee_amount,
                job,
                secrets_profile: copy_string(&self.secrets_profile),
                operator_id: copy_string(&self.operator_id),
            },
        )
    }

    /// The continuation of a dispatched swap: removes its pending record and
    /// settles the swap from it.
    ///
    /// `decoded` is the swap report that the job's output data decodes to,
    /// when it decodes to one. With no swap pending under `request_id`
    /// nothing happens. When the dispatcher itself failed (the dispatch
    /// failed, returned nothing, or the worker failed) the swap is aborted:
    /// no transfer, no fee. The swap pays out when the job's report is a
    /// success whose amount reads as a number and reaches the recorded
    /// minimum: the recorded fee is credited to the input token's collected
    /// fees and that amount of the output token goes to the sender. In every
    /// other case the whole deposit goes back to the sender.
    pub fn on_execution_response(
        &mut self,
        request_id: u64,
        result: ExecutionResult,
        decoded: Option<SwapResponse>,
    ) -> (r: Settlement)
        requires
            old(self).wf(),
        ensures
            final(self).wf(),
            final(self).pending_swaps@ == old(self).pending_swaps@.remove(request_id),
            *final(self) == (Contract {
                pending_swaps: final(self).pending_swaps,
                collected_fees: final(self).collected_fees,
                ..*old(self)
            }),
            !old(self).pending_swaps@.contains_key(request_id) ==> r == Settlement::NotPending
                && final(self).collected_fees@ == old(self).collected_fees@,
            old(self).pending_swaps@.contains_key(request_id) ==> ({
                let req = old(self).pending_swaps@[request_id];
                let fees_before = fees_in(old(self).collected_fees@, req.token_in@);
                match verdict(result, decoded, req.min_amount_out) {
                    Ok(out) => if fees_before + req.fee_amount <= u128::MAX {
                        &&& r == (Settlement::Payout {
                            token_id: req.token_out,
                            receiver_id: req.sender_id,
                            amount: out,
                            memo: r->Payout_memo,
                        })
                        &&& r->Payout_memo@ == PAYOUT_MEMO@ + reported_hash(decoded)
                        &&& final(self).collected_fees@ == old(self).collected_fees@.insert(
                            req.token_in@,
                            (fees_before + req.fee_amount) as Balance,
                        )
                    } else {
                        &&& r == (Settlement::Refund {
                            token_id: req.token_in,
                            receiver_id: req.sender_id,
                            amount: req.amount_in,
                            reason: SwapFailure::FeeOverflow,
                        })
                        &&& final(self).collected_fees@ == old(self).collected_fees@
                    },
                    Err(reason) => {
                        &&& final(self).collected_fees@ == old(self).collected_fees@
                        &&& if is_dispatch_failure(reason) {
                            r == (Settlement::Aborted { reason })
                        } else {
                            r == (Settlement::Refund {
                                token_id: req.token_in,
                                receiver_id: req.sender_id,
                                amount: req.amount_in,
                                reason,
                            })
                        }
                    },
                }
            }),
    {
        let req = match self.pending_swaps.remove(&request_id) {
            Some(req) => req,
            None => return Settlement::NotPending,
        };
        let refund = |reason: SwapFailure| -> (s: Settlement)
            ensures
                s == (Settlement::Refund {
                    token_id: req.token_in,
                    receiver_id: req.sender_id,
                    amount: req.amount_in,
                    reason,
                }),
            {
                Settlement::Refund {
                    token_id: copy_string(&req.token_in),
                    receiver_id: copy_string(&req.sender_id),
                    amount: req.amount_in,
                    reason,
                }
            };
        let response = match result {
            ExecutionResult::PromiseFailed => {
                return Settlement::Aborted { reason: SwapFailure::PromiseFailed };
            },
            ExecutionResult::NoResponse => {
                return Settlement::Aborted { reason: SwapFailure::NoResponse };
            },
            ExecutionResult::Completed(resp) => resp,
        };
        if !response.success {
            return Settlement::Aborted { reason: SwapFailure::ExecutionFailed(response.error) };
        }
        if response.output.is_none() {
            return refund(SwapFailure::NoOutput);
        }
        let report = match decoded {
            None => return refund(SwapFailure::Undecodable),
            Some(rep) => rep,
        };
        let ghost report_hash = reported_hash(decoded);
        let amount_out_text = match (report.success, &report.amount_out) {
            (true, Some(text)) => copy_string(text),
            _ => return refund(SwapFailure::SwapFailed(report.error_message)),
        };
        let amount_out = match parse_u128(amount_out_text.as_str()) {
            Some(v) => v,
            None => return refund(SwapFailure::UnreadableAmount(amount_out_text)),
        };
        if amount_out < req.min_amount_out {
            return refund(
                SwapFailure::BelowMinimum { amount_out, min_amount_out: req.min_amount_out },
            );
        }
        let current_fees: Balance = match self.collected_fees.get(req.token_in.as_str()) {
            Some(v) => *v,
            None => 0,
        };
        let total = match current_fees.checked_add(req.fee_amount) {
            Some(t) => t,
            None => return refund(SwapFailure::FeeOverflow),
        };
        self.collected_fees.insert(copy_string(&req.token_in), total);
        let hash = match &report.intent_hash {
            Some(h) => copy_string(h),
            None => String::new(),
        };
        let memo = String::from_str(PAYOUT_MEMO).concat(hash.as_str());
        assert(memo@ == PAYOUT_MEMO@ + report_hash);
        Settlement::Payout {
            token_id: req.token_out,
            receiver_id: req.sender_id,
            amount: amount_out,
            memo,
        }
    }
}

/// Law: request ids strictly increase. A swap accepted from a later state
/// (one whose next id has not gone back) gets a larger id than one accepted
/// before it.
pub proof fn law_request_ids_increase(
    c0: Contract,
    c1: Contract,
    first: SwapDispatch,
    c2: Contract,
    c3: Contract,
    second: SwapDispatch,
)
    requires
        Contract::initiated(c0, c1, first),
        c1.next_request_id <= c2.next_request_id,
        Contract::initiated(c2, c3, second),
    ensures
        first.request_id < second.request_id,
{
}

/// Law: a continuation removes its swap's pending record, and no later
/// deposit can bring that id back: a deposit accepted from any state whose
/// next id has not gone back records a different id.
pub proof fn law_pending_swap_removed_once(
    c0: Contract,
    c1: Contract,
    request_id: u64,
    c2: Contract,
    c3: Contract,
    later: SwapDispatch,
)
    requires
        c0.wf(),
        c0.pending_swaps@.contains_key(request_id),
        c1.pending_swaps@ == c0.pending_swaps@.remove(request_id),
        c1.next_request_id == c0.next_request_id,
        c1.next_request_id <= c2.next_request_id,
        Contract::initiated(c2, c3, later),
    ensures
        !c1.pending_swaps@.contains_key(request_id),
        later.request_id != request_id,
{
}

} // verus!
