//! Interpreting the execution report that the ledger's RPC returns for a
//! submitted transaction.
//!
//! A report has three levels: the overall status, the submitting
//! transaction's own outcome, and the outcomes of the receipts it spawned.
//! The call succeeded only when all three levels report success.
use vstd::prelude::*;
use crate::text::{decimal, decimal_of};

verus! {

#[derive(Debug, Clone, PartialEq, Eq)]
pub enum FunctionCallErrorKind {
    /// The contract panicked with this text.
    ExecutionError(String),
    /// Another kind of failure, as the RPC's JSON text.
    Other(String),
}

#[derive(Debug, Clone, PartialEq, Eq)]
pub enum ActionErrorKind {
    FunctionCallError(FunctionCallErrorKind),
    /// Another kind of failure, as the RPC's JSON text.
    Other(String),
}

#[derive(Debug, Clone, PartialEq, Eq)]
pub struct ActionError {
    /// Which action of the transaction failed, when known.
    pub index: Option<u64>,
    pub kind: ActionErrorKind,
}

#[derive(Debug, Clone, PartialEq, Eq)]
pub enum TxExecutionError {
    ActionError(ActionError),
    /// The transaction was refused, as the RPC's JSON text.
    InvalidTxError(String),
}

/// The status of one transaction or receipt.
#[derive(Debug, Clone, PartialEq, Eq)]
pub enum ExecutionStatus {
    Failure(TxExecutionError),
    SuccessValue(String),
    SuccessReceiptId(String),
}

/// The overall status of a submitted transaction.
#[derive(Debug, Clone, PartialEq, Eq)]
pub enum FinalExecutionStatus {
    Failure(TxExecutionError),
    SuccessValue(String),
    NotStarted,
    Started,
}

#[derive(Debug, Clone, PartialEq, Eq)]
pub struct ExecutionOutcome {
    pub id: String,
    pub logs: Vec<String>,
    pub status: ExecutionStatus,
}

#[derive(Debug, Clone, PartialEq, Eq)]
pub struct FinalExecutionOutcome {
    pub transaction_hash: String,
    pub status: FinalExecutionStatus,
    pub transaction_outcome: ExecutionOutcome,
    pub receipts_outcome: Vec<ExecutionOutcome>,
}

/// Why a submitted transaction did not succeed.
#[derive(Debug, Clone, PartialEq, Eq)]
pub enum OutcomeError {
    /// The overall status is a failure.
    Failed(TxExecutionError),
    NotStarted,
    Started,
    /// The submitting transaction's own outcome failed.
    TransactionFailed(TxExecutionError),
    /// The receipt at this index, the first that failed; its logs stand in
    /// the report's outcome for it.
    ReceiptFailed { index: usize, error: TxExecutionError },
}

pub open spec fn is_failure(s: ExecutionStatus) -> bool {
    s is Failure
}

/// The index of the first failed receipt, if any failed.
pub open spec fn first_failure(rs: Seq<ExecutionOutcome>) -> Option<int>
    decreases rs.len(),
{
    if rs.len() == 0 {
        None
    } else {
        match first_failure(rs.drop_last()) {
            Some(i) => Some(i),
            None => if is_failure(rs.last().status) {
                Some(rs.len() - 1)
            } else {
                None
            },
        }
    }
}

/// What a report says of its transaction: its hash on success, else the
/// failure found first, level by level.
pub open spec fn classified(o: FinalExecutionOutcome) -> Result<Seq<char>, OutcomeError> {
    match o.status {
        FinalExecutionStatus::Failure(e) => Err(OutcomeError::Failed(e)),
        FinalExecutionStatus::NotStarted => Err(OutcomeError::NotStarted),
        FinalExecutionStatus::Started => Err(OutcomeError::Started),
        FinalExecutionStatus::SuccessValue(_) => match o.transaction_outcome.status {
            ExecutionStatus::Failure(e) => Err(OutcomeError::TransactionFailed(e)),
            _ => match first_failure(o.receipts_outcome@) {
                Some(i) => Err(
                    OutcomeError::ReceiptFailed {
                        index: i as usize,
                        error: o.receipts_outcome@[i].status->Failure_0,
                    },
                ),
                None => Ok(o.transaction_hash@),
            },
        },
    }
}

proof fn lemma_first_failure_prefix(rs: Seq<ExecutionOutcome>, k: int)
    requires
        0 <= k < rs.len(),
        first_failure(rs.subrange(0, k)) is None,
    ensures
        is_failure(rs[k].status) ==> first_failure(rs.subrange(0, k + 1)) == Some(k),
        !is_failure(rs[k].status) ==> first_failure(rs.subrange(0, k + 1)) is None,
{
    let pre = rs.subrange(0, k + 1);
    assert(pre.drop_last() =~= rs.subrange(0, k));
}

proof fn lemma_first_failure_extends(rs: Seq<ExecutionOutcome>, k: int, i: int)
    requires
        0 <= k <= rs.len(),
        first_failure(rs.subrange(0, k)) == Some(i),
    ensures
        first_failure(rs) == Some(i),
        0 <= i < rs.len(),
        is_failure(rs[i].status),
    decreases rs.len() - k,
{
    if k < rs.len() {
        let pre = rs.subrange(0, k + 1);
        assert(pre.drop_last() =~= rs.subrange(0, k));
        lemma_first_failure_extends(rs, k + 1, i);
    } else {
        assert(rs.subrange(0, k) =~= rs);
        lemma_first_failure_bounds(rs);
    }
}

proof fn lemma_first_failure_bounds(rs: Seq<ExecutionOutcome>)
    ensures
        first_failure(rs) matches Some(i) ==> 0 <= i < rs.len() && is_failure(rs[i].status),
    decreases rs.len(),
{
    if rs.len() > 0 {
        lemma_first_failure_bounds(rs.drop_last());
    }
}

fn copy_text(s: &String) -> (r: String)
    ensures
        r == *s,
{
    s.clone()
}

fn copy_error(e: &TxExecutionError) -> (r: TxExecutionError)
    ensures
        r == *e,
{
    match e {
        TxExecutionError::ActionError(a) => {
            let kind = match &a.kind {
                ActionErrorKind::FunctionCallError(FunctionCallErrorKind::ExecutionError(m)) => {
                    ActionErrorKind::FunctionCallError(
                        FunctionCallErrorKind::ExecutionError(copy_text(m)),
                    )
                },
                ActionErrorKind::FunctionCallError(FunctionCallErrorKind::Other(d)) => {
                    ActionErrorKind::FunctionCallError(FunctionCallErrorKind::Other(copy_text(d)))
                },
                ActionErrorKind::Other(d) => ActionErrorKind::Other(copy_text(d)),
            };
            TxExecutionError::ActionError(ActionError { index: a.index, kind })
        },
        TxExecutionError::InvalidTxError(d) => TxExecutionError::InvalidTxError(copy_text(d)),
    }
}

/// Decides whether a submitted transaction succeeded: it fails on an overall
/// failure, on an unfinished status, on a failed transaction outcome, or on
/// the first failed receipt, in that order; else it returns the
/// transaction's hash.
pub fn classify_outcome(outcome: &FinalExecutionOutcome) -> (r: Result<String, OutcomeError>)
    ensures
        match r {
            Ok(hash) => classified(*outcome) == Ok::<Seq<char>, OutcomeError>(hash@),
            Err(e) => classified(*outcome) == Err::<Seq<char>, OutcomeError>(e),
        },
{
    match &outcome.status {
        FinalExecutionStatus::Failure(e) => {
            return Err(OutcomeError::Failed(copy_error(e)));
        },
        FinalExecutionStatus::NotStarted => {
            return Err(OutcomeError::NotStarted);
        },
        FinalExecutionStatus::Started => {
            return Err(OutcomeError::Started);
        },
        FinalExecutionStatus::SuccessValue(_) => {},
    }
    if let ExecutionStatus::Failure(e) = &outcome.transaction_outcome.status {
        return Err(OutcomeError::TransactionFailed(copy_error(e)));
    }
    let rs = &outcome.receipts_outcome;
    let mut i: usize = 0;
    while i < rs.len()
        invariant
            i <= rs@.len(),
            rs@ == outcome.receipts_outcome@,
            outcome.status is SuccessValue,
            outcome.transaction_outcome.status !is Failure,
            first_failure(rs@.subrange(0, i as int)) is None,
        decreases rs@.len() - i,
    {
        proof {
            lemma_first_failure_prefix(rs@, i as int);
        }
        if let ExecutionStatus::Failure(e) = &rs[i].status {
            proof {
                lemma_first_failure_extends(rs@, i + 1, i as int);
            }
            return Err(OutcomeError::ReceiptFailed { index: i, error: copy_error(e) });
        }
        i = i + 1;
    }
    assert(rs@.subrange(0, rs@.len() as int) =~= rs@);
    Ok(copy_text(&outcome.transaction_hash))
}

/// The text naming which action failed: `action <i>: `, or nothing.
pub open spec fn index_text(index: Option<u64>) -> Seq<char> {
    match index {
        Some(i) => "action "@ + decimal_of(i as nat) + ": "@,
        None => Seq::empty(),
    }
}

/// A readable account of an execution failure.
pub open spec fn tx_error_text(err: TxExecutionError) -> Seq<char> {
    match err {
        TxExecutionError::ActionError(a) => match a.kind {
            ActionErrorKind::FunctionCallError(FunctionCallErrorKind::ExecutionError(msg)) =>
                index_text(a.index) + "Smart contract panicked: "@ + msg@,
            ActionErrorKind::FunctionCallError(FunctionCallErrorKind::Other(detail)) => index_text(
                a.index,
            ) + "Function call error: "@ + detail@,
            ActionErrorKind::Other(detail) => index_text(a.index) + "Action error: "@ + detail@,
        },
        TxExecutionError::InvalidTxError(detail) => "Invalid transaction: "@ + detail@,
    }
}

fn index_prefix(index: Option<u64>) -> (r: String)
    ensures
        r@ == index_text(index),
{
    match index {
        Some(i) => {
            let s = String::from_str("action ").concat(decimal(i as u128).as_str()).concat(": ");
            s
        },
        None => String::new(),
    }
}

/// A readable account of an execution failure: which action failed, when
/// known, and the contract's panic text when there is one.
pub fn format_tx_error(err: &TxExecutionError) -> (r: String)
    ensures
        r@ == tx_error_text(*err),
{
    match err {
        TxExecutionError::ActionError(a) => {
            let head = index_prefix(a.index);
            match &a.kind {
                ActionErrorKind::FunctionCallError(FunctionCallErrorKind::ExecutionError(msg)) => {
                    head.concat("Smart contract panicked: ").concat(msg.as_str())
                },
                ActionErrorKind::FunctionCallError(FunctionCallErrorKind::Other(detail)) => {
                    head.concat("Function call error: ").concat(detail.as_str())
                },
                ActionErrorKind::Other(detail) => {
                    head.concat("Action error: ").concat(detail.as_str())
                },
            }
        },
        TxExecutionError::InvalidTxError(detail) => {
            String::from_str("Invalid transaction: ").concat(detail.as_str())
        },
    }
}

impl OutcomeError {
    pub open spec fn spec_message(&self) -> Seq<char> {
        match *self {
            OutcomeError::Failed(e) => "Transaction failed: "@ + tx_error_text(e),
            OutcomeError::NotStarted => "Transaction not started"@,
            OutcomeError::Started => "Transaction still in progress"@,
            OutcomeError::TransactionFailed(e) => "Transaction outcome failed: "@ + tx_error_text(e),
            OutcomeError::ReceiptFailed { index, error } => "Receipt "@ + decimal_of(
                index as nat,
            ) + " failed: "@ + tx_error_text(error),
        }
    }

    /// A readable account of the failure.
    pub fn message(&self) -> (r: String)
        ensures
            r@ == self.spec_message(),
    {
        match self {
            OutcomeError::Failed(e) => String::from_str("Transaction failed: ").concat(
                format_tx_error(e).as_str(),
            ),
            OutcomeError::NotStarted => String::from_str("Transaction not started"),
            OutcomeError::Started => String::from_str("Transaction still in progress"),
            OutcomeError::TransactionFailed(e) => String::from_str(
                "Transaction outcome failed: ",
            ).concat(format_tx_error(e).as_str()),
            OutcomeError::ReceiptFailed { index, error } => {
                String::from_str("Receipt ").concat(decimal(*index as u128).as_str()).concat(
                    " failed: ",
                ).concat(format_tx_error(error).as_str())
            },
        }
    }
}

} // verus!
