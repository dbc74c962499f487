use vstd::prelude::*;
use crate::types::{Event, Params};

verus! {

/// Capacity of the observation buffer.
pub const MAX_LEN: usize = 64;

/// Plain sum of the observed prices.
pub open spec fn sum(s: Seq<u32>) -> nat
    decreases s.len(),
{
    if s.len() == 0 {
        0
    } else {
        sum(s.drop_last()) + s.last() as nat
    }
}

/// The sum as a saturating `u32` accumulation yields it: capped at `u32::MAX`.
pub open spec fn saturated_sum(s: Seq<u32>) -> nat {
    if sum(s) > u32::MAX {
        u32::MAX as nat
    } else {
        sum(s)
    }
}

/// Truncating mean of the buffer over the saturated sum; absent when empty.
pub open spec fn average_of(s: Seq<u32>) -> Option<u32> {
    if s.len() == 0 {
        None
    } else {
        Some((saturated_sum(s) / s.len()) as u32)
    }
}

/// The buffer after one observation: appended while there is room, otherwise
/// written into slot `price mod MAX_LEN`.
pub open spec fn with_price(s: Seq<u32>, price: u32) -> Seq<u32> {
    if s.len() < MAX_LEN {
        s.push(price)
    } else {
        s.update(price as int % MAX_LEN as int, price)
    }
}

/// The buffer after a whole sequence of observations, in order.
pub open spec fn with_prices(s: Seq<u32>, prices: Seq<u32>) -> Seq<u32>
    decreases prices.len(),
{
    if prices.len() == 0 {
        s
    } else {
        with_price(with_prices(s, prices.drop_last()), prices.last())
    }
}

/// The chain state the module owns.
pub struct Module {
    /// Recently observed prices, at most `MAX_LEN` of them.
    pub prices: Vec<u32>,
    /// Earliest block at which another unsigned submission is accepted.
    pub next_unsigned_at: u64,
    /// Current chain height.
    pub block_number: u64,
    /// Events emitted so far, oldest first.
    pub events: Vec<Event>,
    pub params: Params,
}

impl Module {
    pub open spec fn wf(&self) -> bool {
        self.prices@.len() <= MAX_LEN
    }

    /// A fresh module: empty buffer, nothing emitted, every block eligible.
    pub fn new(params: Params, block_number: u64) -> (r: Module)
        ensures
            r.wf(),
            r.prices@ == Seq::<u32>::empty(),
            r.events@ == Seq::<Event>::empty(),
            r.next_unsigned_at == 0,
            r.block_number == block_number,
            r.params == params,
    {
        Module { prices: Vec::new(), next_unsigned_at: 0, block_number, events: Vec::new(), params }
    }

    /// Truncating mean of the stored prices, summed with saturation; `None`
    /// when the buffer is empty.
    pub fn average_price(&self) -> (r: Option<u32>)
        requires
            self.wf(),
        ensures
            r == average_of(self.prices@),
    {
        let n = self.prices.len();
        if n == 0 {
            return None;
        }
        let mut acc: u32 = 0;
        let mut i: usize = 0;
        while i < n
            invariant
                n == self.prices@.len(),
                i <= n,
                acc as nat == saturated_sum(self.prices@.subrange(0, i as int)),
            decreases n - i,
        {
            proof {
                let s = self.prices@.subrange(0, i as int + 1);
                assert(s.drop_last() =~= self.prices@.subrange(0, i as int));
            }
            acc = acc.saturating_add(self.prices[i]);
            i = i + 1;
        }
        assert(self.prices@.subrange(0, n as int) =~= self.prices@);
        Some(acc / (n as u32))
    }

    /// Records an observation in the buffer and emits `NewPrice(price, who)`.
    pub fn add_price(&mut self, who: u64, price: u32)
        requires
            old(self).wf(),
        ensures
            final(self).wf(),
            final(self).prices@ == with_price(old(self).prices@, price),
            final(self).events@ == old(self).events@.push(Event::NewPrice(price, who)),
            final(self).next_unsigned_at == old(self).next_unsigned_at,
            final(self).block_number == old(self).block_number,
            final(self).params == old(self).params,
    {
        if self.prices.len() < MAX_LEN {
            self.prices.push(price);
        } else {
            let slot = (price as usize) % MAX_LEN;
            self.prices.set(slot, price);
        }
        self.events.push(Event::NewPrice(price, who));
    }
}

/// Whatever prices are added, in whatever order, the buffer never holds more
/// than `MAX_LEN` of them.
pub proof fn lemma_buffer_bounded(start: Seq<u32>, prices: Seq<u32>)
    requires
        start.len() <= MAX_LEN,
    ensures
        with_prices(start, prices).len() <= MAX_LEN,
    decreases prices.len(),
{
    if prices.len() > 0 {
        lemma_buffer_bounded(start, prices.drop_last());
    }
}

/// The average of an empty buffer is absent, and after a single observation
/// it is that observation.
pub proof fn lemma_average_of_single(price: u32)
    ensures
        average_of(Seq::<u32>::empty()) is None,
        average_of(with_price(Seq::<u32>::empty(), price)) == Some(price),
{
    let s = with_price(Seq::<u32>::empty(), price);
    assert(s.drop_last() =~= Seq::<u32>::empty());
    assert(sum(Seq::<u32>::empty()) == 0);
    assert(s.last() == price);
    assert(sum(s) == price as nat);
}

} // verus!
