use vstd::prelude::*;
use crate::aggregator::Module;
use crate::fetcher::FetchError;
use crate::selector::TransactionType;

verus! {

/// Why one block's submission attempt ended without submitting.
#[derive(Clone, Copy, Debug, PartialEq, Eq, Structural)]
pub enum SendError {
    /// No local signing key is available.
    NoLocalAccounts,
    /// The chain does not accept an unsigned price at this block yet.
    TooEarly,
    /// Fetching the price failed.
    FetchFailed,
    /// The transaction pool rejected a submission.
    SubmitFailed,
}

/// What the worker has learnt so far in one block's attempt.
pub enum Stage {
    /// Nothing fetched yet; whether a local signing key is available.
    Start(bool),
    /// The outcome of fetching the price.
    Fetched(Result<u32, FetchError>),
    /// Whether each submission was accepted by the pool, one per signing key
    /// (one in all for a bare unsigned call, none when no key signed).
    Submitted(Vec<bool>),
}

/// The transactions to submit, carrying the fetched price.
#[derive(Clone, Copy, Debug, PartialEq, Eq, Structural)]
pub enum Submission {
    /// `submit_price(price)`, signed by every local key.
    Signed(u32),
    /// One bare `submit_price_unsigned(block_number, price)`.
    RawUnsigned(u64, u32),
    /// One signed-payload call, signed by any one local key.
    PayloadForAny(u64, u32),
    /// One signed-payload call per local key.
    PayloadForAll(u64, u32),
}

/// What the worker does next.
#[derive(Clone, Copy, Debug, PartialEq, Eq, Structural)]
pub enum Action {
    /// Fetch the price once.
    Fetch,
    /// Submit, then report the outcome per key.
    Submit(Submission),
    /// The attempt for this block is over and went through.
    Done,
    /// The attempt for this block is over and failed.
    Failed(SendError),
}

pub open spec fn all_accepted(results: Seq<bool>) -> bool {
    forall|i: int| 0 <= i < results.len() ==> results[i]
}

/// The submission a strategy makes with a fetched price.
pub open spec fn submission_for(tx: TransactionType, block: u64, price: u32) -> Submission {
    match tx {
        TransactionType::Signed => Submission::Signed(price),
        TransactionType::UnsignedForAny => Submission::PayloadForAny(block, price),
        TransactionType::UnsignedForAll => Submission::PayloadForAll(block, price),
        _ => Submission::RawUnsigned(block, price),
    }
}

/// One step of a block's attempt under strategy `tx`. Every strategy stops
/// before fetching while `block < next_unsigned_at`; the signed one also
/// stops before fetching without a key. A failed fetch ends the attempt.
/// Signed submissions are best effort; a bare call must be accepted; for any
/// account a key must have signed and been accepted; for all accounts every
/// submission must be accepted.
pub open spec fn worker_step(tx: TransactionType, next_unsigned_at: u64, block: u64, stage: Stage) -> Action {
    if tx == TransactionType::Skip {
        Action::Done
    } else {
        match stage {
            Stage::Start(can_sign) => if next_unsigned_at > block {
                Action::Failed(SendError::TooEarly)
            } else if tx == TransactionType::Signed && !can_sign {
                Action::Failed(SendError::NoLocalAccounts)
            } else {
                Action::Fetch
            },
            Stage::Fetched(fetched) => match fetched {
                Ok(price) => Action::Submit(submission_for(tx, block, price)),
                Err(_) => Action::Failed(SendError::FetchFailed),
            },
            Stage::Submitted(results) => if tx == TransactionType::Signed {
                Action::Done
            } else if tx == TransactionType::UnsignedForAny && results@.len() == 0 {
                Action::Failed(SendError::NoLocalAccounts)
            } else if tx == TransactionType::Raw && results@.len() == 0 {
                Action::Failed(SendError::SubmitFailed)
            } else if all_accepted(results@) {
                Action::Done
            } else {
                Action::Failed(SendError::SubmitFailed)
            },
        }
    }
}

/// Whether every result is `true`.
fn all_true(results: &Vec<bool>) -> (r: bool)
    ensures
        r == all_accepted(results@),
{
    let mut i: usize = 0;
    while i < results.len()
        invariant
            i <= results@.len(),
            forall|j: int| 0 <= j < i ==> results@[j],
        decreases results@.len() - i,
    {
        if !results[i] {
            return false;
        }
        i = i + 1;
    }
    true
}

/// Whether a submission goes on to the next local key, given the outcomes
/// so far in key order: signed submissions go to every key, best effort;
/// unsigned-for-all stops at the first rejection; the single-call kinds stop
/// after one submission.
pub fn keeps_submitting(submission: &Submission, results: &Vec<bool>) -> (r: bool)
    ensures
        r == match *submission {
            Submission::Signed(_) => true,
            Submission::PayloadForAll(_, _) => all_accepted(results@),
            _ => results@.len() == 0,
        },
{
    match submission {
        Submission::Signed(_) => true,
        Submission::PayloadForAll(_, _) => all_true(results),
        _ => results.len() == 0,
    }
}

impl Module {
    /// Whether the chain would still refuse an unsigned price for `block_number`.
    fn unsigned_too_early(&self, block_number: u64) -> (r: bool)
        ensures
            r == (self.next_unsigned_at > block_number),
    {
        self.next_unsigned_at > block_number
    }

    /// Signed strategy: not before `next_unsigned_at`, and needs a local key
    /// before fetching; then every key submits the price, and failures of
    /// single keys end nothing.
    pub fn fetch_price_and_send_signed(&self, block_number: u64, stage: &Stage) -> (r: Action)
        ensures
            r == worker_step(TransactionType::Signed, self.next_unsigned_at, block_number, *stage),
    {
        match stage {
            Stage::Start(can_sign) => if self.unsigned_too_early(block_number) {
                Action::Failed(SendError::TooEarly)
            } else if *can_sign {
                Action::Fetch
            } else {
                Action::Failed(SendError::NoLocalAccounts)
            },
            Stage::Fetched(fetched) => match fetched {
                Ok(price) => Action::Submit(Submission::Signed(*price)),
                Err(_) => Action::Failed(SendError::FetchFailed),
            },
            Stage::Submitted(_) => Action::Done,
        }
    }

    /// Bare unsigned strategy: not before `next_unsigned_at`; one call with
    /// the block number and price, which the pool must accept.
    pub fn fetch_price_and_send_raw_unsigned(&self, block_number: u64, stage: &Stage) -> (r: Action)
        ensures
            r == worker_step(TransactionType::Raw, self.next_unsigned_at, block_number, *stage),
    {
        match stage {
            Stage::Start(_) => if self.unsigned_too_early(block_number) { Action::Failed(SendError::TooEarly) } else { Action::Fetch },
            Stage::Fetched(fetched) => match fetched {
                Ok(price) => Action::Submit(Submission::RawUnsigned(block_number, *price)),
                Err(_) => Action::Failed(SendError::FetchFailed),
            },
            Stage::Submitted(results) => if results.len() > 0 && all_true(results) {
                Action::Done
            } else {
                Action::Failed(SendError::SubmitFailed)
            },
        }
    }

    /// Unsigned-for-any strategy: not before `next_unsigned_at`; one payload
    /// signed by any one local key, which must exist and be accepted.
    pub fn fetch_price_and_send_unsigned_for_any_account(&self, block_number: u64, stage: &Stage) -> (r: Action)
        ensures
            r == worker_step(TransactionType::UnsignedForAny, self.next_unsigned_at, block_number, *stage),
    {
        match stage {
            Stage::Start(_) => if self.unsigned_too_early(block_number) { Action::Failed(SendError::TooEarly) } else { Action::Fetch },
            Stage::Fetched(fetched) => match fetched {
                Ok(price) => Action::Submit(Submission::PayloadForAny(block_number, *price)),
                Err(_) => Action::Failed(SendError::FetchFailed),
            },
            Stage::Submitted(results) => if results.len() == 0 {
                Action::Failed(SendError::NoLocalAccounts)
            } else if all_true(results) {
                Action::Done
            } else {
                Action::Failed(SendError::SubmitFailed)
            },
        }
    }

    /// Unsigned-for-all strategy: not before `next_unsigned_at`; one payload
    /// per local key; the first rejected submission fails the attempt.
    pub fn fetch_price_and_send_unsigned_for_all_accounts(&self, block_number: u64, stage: &Stage) -> (r: Action)
        ensures
            r == worker_step(TransactionType::UnsignedForAll, self.next_unsigned_at, block_number, *stage),
    {
        match stage {
            Stage::Start(_) => if self.unsigned_too_early(block_number) { Action::Failed(SendError::TooEarly) } else { Action::Fetch },
            Stage::Fetched(fetched) => match fetched {
                Ok(price) => Action::Submit(Submission::PayloadForAll(block_number, *price)),
                Err(_) => Action::Failed(SendError::FetchFailed),
            },
            Stage::Submitted(results) => if all_true(results) {
                Action::Done
            } else {
                Action::Failed(SendError::SubmitFailed)
            },
        }
    }

    /// One step of the attempt at `block_number` under the chosen strategy.
    pub fn offchain_step(&self, tx: TransactionType, block_number: u64, stage: &Stage) -> (r: Action)
        ensures
            r == worker_step(tx, self.next_unsigned_at, block_number, *stage),
    {
        match tx {
            TransactionType::Signed => self.fetch_price_and_send_signed(block_number, stage),
            TransactionType::UnsignedForAny => self.fetch_price_and_send_unsigned_for_any_account(block_number, stage),
            TransactionType::UnsignedForAll => self.fetch_price_and_send_unsigned_for_all_accounts(block_number, stage),
            TransactionType::Raw => self.fetch_price_and_send_raw_unsigned(block_number, stage),
            TransactionType::Skip => Action::Done,
        }
    }
}

} // verus!
