use vstd::prelude::*;
use crate::aggregator::Module;

verus! {

/// How a node submits its price in a given block.
#[derive(Clone, Copy, Debug, PartialEq, Eq, Structural)]
pub enum TransactionType {
    Signed,
    UnsignedForAny,
    UnsignedForAll,
    Raw,
    Skip,
}

/// The node attempted a submission at a block less than `grace` blocks before `block`.
pub open spec fn recently_sent(last_send: Option<u64>, block: u64, grace: u64) -> bool {
    match last_send {
        Some(prior) => (block as int) < prior as int + grace as int,
        None => false,
    }
}

/// The strategy of a block once the grace period has elapsed: round robin on
/// the height modulo three.
pub open spec fn strategy_for(block: u64) -> TransactionType {
    if block % 3 == 0 {
        TransactionType::Signed
    } else if block % 3 == 1 {
        TransactionType::UnsignedForAny
    } else if block % 3 == 2 {
        TransactionType::UnsignedForAll
    } else {
        TransactionType::Raw
    }
}

/// The selector as a function: the chosen strategy and the marker afterwards.
pub open spec fn selection(last_send: Option<u64>, block: u64, grace: u64) -> (TransactionType, Option<u64>) {
    if recently_sent(last_send, block, grace) {
        (TransactionType::Skip, last_send)
    } else {
        (strategy_for(block), Some(block))
    }
}

impl Module {
    /// Decides whether and how this node submits at `block_number`. The
    /// node-local marker `last_send` is read and written in one step: within
    /// the grace period it stays as it is and the answer is `Skip`; otherwise
    /// it becomes `block_number`.
    pub fn choose_transaction_type(&self, last_send: &mut Option<u64>, block_number: u64) -> (r: TransactionType)
        ensures
            (r, *final(last_send)) == selection(*old(last_send), block_number, self.params.grace_period),
    {
        let grace = self.params.grace_period;
        let within_grace = match *last_send {
            Some(prior) => match prior.checked_add(grace) {
                Some(end) => block_number < end,
                None => true,
            },
            None => false,
        };
        if within_grace {
            return TransactionType::Skip;
        }
        *last_send = Some(block_number);
        let residue = block_number % 3;
        if residue == 0 {
            TransactionType::Signed
        } else if residue == 1 {
            TransactionType::UnsignedForAny
        } else if residue == 2 {
            TransactionType::UnsignedForAll
        } else {
            TransactionType::Raw
        }
    }
}

/// With a positive grace period, selecting twice at the same height yields
/// `Skip` the second time, whatever the marker held before.
pub proof fn lemma_selection_idempotent(last_send: Option<u64>, block: u64, grace: u64)
    requires
        grace > 0,
    ensures
        selection(selection(last_send, block, grace).1, block, grace).0 == TransactionType::Skip,
{
}

} // verus!
