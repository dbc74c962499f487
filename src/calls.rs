use vstd::prelude::*;
use crate::aggregator::{Module, with_price};
use crate::types::{DispatchError, Event, Origin, PricePayload};

verus! {

/// Submitter recorded for prices that arrive unsigned.
pub const UNSIGNED_SUBMITTER: u64 = 0;

impl Module {
    /// The state after an accepted unsigned submission of `price`: the price is
    /// recorded under the default submitter and the next eligible block moves
    /// to the current height plus the unsigned interval.
    pub open spec fn accepts_unsigned(&self, after: Module, price: u32) -> bool {
        &&& after.wf()
        &&& after.prices@ == with_price(self.prices@, price)
        &&& after.events@ == self.events@.push(Event::NewPrice(price, UNSIGNED_SUBMITTER))
        &&& after.next_unsigned_at == self.block_number + self.params.unsigned_interval
        &&& after.block_number == self.block_number
        &&& after.params == self.params
    }

    /// `submit_price(price)`: a signed account records a price.
    pub fn submit_price(&mut self, origin: Origin, price: u32) -> (r: Result<(), DispatchError>)
        requires
            old(self).wf(),
        ensures
            match origin {
                Origin::Signed(who) => {
                    &&& r is Ok
                    &&& final(self).wf()
                    &&& final(self).prices@ == with_price(old(self).prices@, price)
                    &&& final(self).events@ == old(self).events@.push(Event::NewPrice(price, who))
                    &&& final(self).next_unsigned_at == old(self).next_unsigned_at
                    &&& final(self).block_number == old(self).block_number
                    &&& final(self).params == old(self).params
                },
                _ => r == Err::<(), DispatchError>(DispatchError::BadOrigin) && *final(self) == *old(self),
            },
    {
        match origin {
            Origin::Signed(who) => {
                self.add_price(who, price);
                Ok(())
            },
            _ => Err(DispatchError::BadOrigin),
        }
    }

    /// Records an accepted unsigned price and moves the eligibility window.
    fn accept_unsigned(&mut self, price: u32)
        requires
            old(self).wf(),
            old(self).block_number + old(self).params.unsigned_interval <= u64::MAX,
        ensures
            old(self).accepts_unsigned(*final(self), price),
    {
        self.add_price(UNSIGNED_SUBMITTER, price);
        self.next_unsigned_at = self.block_number + self.params.unsigned_interval;
    }

    /// `submit_price_unsigned(block_number, price)`: an unsigned call records
    /// a price; the block number it carries only served its validation.
    pub fn submit_price_unsigned(&mut self, origin: Origin, block_number: u64, price: u32) -> (r: Result<(), DispatchError>)
        requires
            old(self).wf(),
            old(self).block_number + old(self).params.unsigned_interval <= u64::MAX,
        ensures
            origin == Origin::Unsigned ==> r is Ok && old(self).accepts_unsigned(*final(self), price),
            origin != Origin::Unsigned ==> r == Err::<(), DispatchError>(DispatchError::BadOrigin) && *final(self) == *old(self),
    {
        if origin != Origin::Unsigned {
            return Err(DispatchError::BadOrigin);
        }
        self.accept_unsigned(price);
        Ok(())
    }

    /// `submit_price_unsigned_with_signed_payload(payload, signature)`: an
    /// unsigned call records the payload's price; its signature was checked
    /// when the call was validated.
    pub fn submit_price_unsigned_with_signed_payload(&mut self, origin: Origin, price_payload: &PricePayload, signature: &Vec<u8>) -> (r: Result<(), DispatchError>)
        requires
            old(self).wf(),
            old(self).block_number + old(self).params.unsigned_interval <= u64::MAX,
        ensures
            origin == Origin::Unsigned ==> r is Ok && old(self).accepts_unsigned(*final(self), price_payload.price),
            origin != Origin::Unsigned ==> r == Err::<(), DispatchError>(DispatchError::BadOrigin) && *final(self) == *old(self),
    {
        if origin != Origin::Unsigned {
            return Err(DispatchError::BadOrigin);
        }
        self.accept_unsigned(price_payload.price);
        Ok(())
    }
}

} // verus!
