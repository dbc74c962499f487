use vstd::prelude::*;
use crate::aggregator::{Module, average_of};
use crate::signature::{payload_signature_valid, verify_payload};
use crate::types::{Call, InvalidTransaction, ValidTransaction};

verus! {

/// Blocks for which an admitted unsigned call stays valid in the pool.
pub const LONGEVITY: u64 = 5;

/// Distance between the current average and a submitted price; zero without
/// an average.
pub open spec fn deviation(average: Option<u32>, price: u32) -> nat {
    match average {
        Some(a) => if a >= price { (a - price) as nat } else { (price - a) as nat },
        None => 0,
    }
}

/// Base priority plus the deviation, saturating at `u64::MAX`.
pub open spec fn priority_for(base: u64, average: Option<u32>, price: u32) -> u64 {
    if base as nat + deviation(average, price) > u64::MAX {
        u64::MAX
    } else {
        (base as nat + deviation(average, price)) as u64
    }
}

/// What validating `(block_number, price)` against the module's state yields.
pub open spec fn admits(m: Module, block_number: u64, price: u32, r: Result<ValidTransaction, InvalidTransaction>) -> bool {
    if block_number < m.next_unsigned_at {
        r == Err::<ValidTransaction, InvalidTransaction>(InvalidTransaction::Stale)
    } else if block_number > m.block_number {
        r == Err::<ValidTransaction, InvalidTransaction>(InvalidTransaction::Future)
    } else {
        match r {
            Ok(v) => {
                &&& v.priority == priority_for(m.params.unsigned_priority, average_of(m.prices@), price)
                &&& v.requires@ == Seq::<u64>::empty()
                &&& v.provides@ == seq![m.next_unsigned_at]
                &&& v.longevity == LONGEVITY
                &&& v.propagate
            },
            Err(_) => false,
        }
    }
}

impl Module {
    /// Admits an unsigned price for `block_number` unless a submission already
    /// claimed the window (`Stale`) or the height is not reached (`Future`).
    /// An admitted call gets a priority that grows with its distance from the
    /// average and provides the tag `next_unsigned_at`.
    pub fn validate_transaction_parameters(&self, block_number: u64, new_price: u32) -> (r: Result<ValidTransaction, InvalidTransaction>)
        requires
            self.wf(),
        ensures
            admits(*self, block_number, new_price, r),
    {
        let next_unsigned_at = self.next_unsigned_at;
        if next_unsigned_at > block_number {
            return Err(InvalidTransaction::Stale);
        }
        if self.block_number < block_number {
            return Err(InvalidTransaction::Future);
        }
        let distance: u32 = match self.average_price() {
            Some(price) => if price > new_price { price - new_price } else { new_price - price },
            None => 0,
        };
        let priority = self.params.unsigned_priority.saturating_add(distance as u64);
        let mut provides: Vec<u64> = Vec::new();
        provides.push(next_unsigned_at);
        assert(provides@ =~= seq![next_unsigned_at]);
        Ok(ValidTransaction { priority, requires: Vec::new(), provides, longevity: LONGEVITY, propagate: true })
    }

    /// Validates an unsigned call, given whether the signature of a
    /// signed-payload call verifies (`signature_valid` is not read for other
    /// calls). A bad signature gives `BadProof`, a signed call `Call`;
    /// otherwise the call's height and price are validated.
    pub fn validate_call(&self, call: &Call, signature_valid: bool) -> (r: Result<ValidTransaction, InvalidTransaction>)
        requires
            self.wf(),
        ensures
            match *call {
                Call::SubmitPriceUnsignedWithSignedPayload(payload, _) =>
                    if !signature_valid {
                        r == Err::<ValidTransaction, InvalidTransaction>(InvalidTransaction::BadProof)
                    } else {
                        admits(*self, payload.block_number, payload.price, r)
                    },
                Call::SubmitPriceUnsigned(block_number, price) => admits(*self, block_number, price, r),
                Call::SubmitPrice(_) => r == Err::<ValidTransaction, InvalidTransaction>(InvalidTransaction::Call),
            },
    {
        match call {
            Call::SubmitPriceUnsignedWithSignedPayload(payload, _) => {
                if !signature_valid {
                    return Err(InvalidTransaction::BadProof);
                }
                self.validate_transaction_parameters(payload.block_number, payload.price)
            },
            Call::SubmitPriceUnsigned(block_number, price) => {
                self.validate_transaction_parameters(*block_number, *price)
            },
            _ => Err(InvalidTransaction::Call),
        }
    }

    /// Validates an unsigned call as every node does: the signature of a
    /// signed-payload call is checked against the payload and its key, then
    /// the call is validated as `validate_call` says.
    pub fn validate_unsigned(&self, call: &Call) -> (r: Result<ValidTransaction, InvalidTransaction>)
        requires
            self.wf(),
        ensures
            match *call {
                Call::SubmitPriceUnsignedWithSignedPayload(payload, signature) =>
                    if !payload_signature_valid(payload, signature@) {
                        r == Err::<ValidTransaction, InvalidTransaction>(InvalidTransaction::BadProof)
                    } else {
                        admits(*self, payload.block_number, payload.price, r)
                    },
                Call::SubmitPriceUnsigned(block_number, price) => admits(*self, block_number, price, r),
                Call::SubmitPrice(_) => r == Err::<ValidTransaction, InvalidTransaction>(InvalidTransaction::Call),
            },
    {
        let signature_valid = match call {
            Call::SubmitPriceUnsignedWithSignedPayload(payload, signature) => verify_payload(payload, signature),
            _ => true,
        };
        self.validate_call(call, signature_valid)
    }
}

/// All else equal, a price further from the average never gets a lower
/// priority, and gets a strictly higher one unless the priority saturates.
pub proof fn lemma_priority_monotonic(base: u64, average: Option<u32>, p1: u32, p2: u32)
    requires
        deviation(average, p1) <= deviation(average, p2),
    ensures
        priority_for(base, average, p1) <= priority_for(base, average, p2),
        deviation(average, p1) < deviation(average, p2) && base as nat + deviation(average, p2) <= u64::MAX
            ==> priority_for(base, average, p1) < priority_for(base, average, p2),
{
}

} // verus!
