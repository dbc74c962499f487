use vstd::prelude::*;

verus! {

/// Marker for the signing key type ("btc!") that the worker signs payloads with.
pub struct TestAuthId;

/// Configuration of the module.
pub struct Params {
    /// Minimum distance in blocks between two submission attempts of one node.
    pub grace_period: u64,
    /// Minimum distance in blocks between two accepted unsigned submissions.
    pub unsigned_interval: u64,
    /// Base priority of an accepted unsigned transaction.
    pub unsigned_priority: u64,
}

/// Record emitted when a price is accepted: the price and who submitted it.
#[derive(Clone, Copy, Debug, PartialEq, Eq, Structural)]
pub enum Event {
    NewPrice(u32, u64),
}

/// A price signed by one of the node's keys, carried by an unsigned call.
#[derive(Clone, Debug, PartialEq, Eq)]
pub struct PricePayload {
    pub block_number: u64,
    pub price: u32,
    /// Public key of the signer.
    pub public: Vec<u8>,
}

impl PricePayload {
    /// The key the payload claims to be signed with.
    pub fn public(&self) -> (r: Vec<u8>)
        ensures
            r@ == self.public@,
    {
        let r = self.public.clone();
        assert(r@ =~= self.public@);
        r
    }
}

/// The module's calls, one variant per entry point.
#[derive(Clone, Debug, PartialEq, Eq)]
pub enum Call {
    /// `submit_price(price)`, sent by a signed account.
    SubmitPrice(u32),
    /// `submit_price_unsigned(block_number, price)`, bare and unsigned.
    SubmitPriceUnsigned(u64, u32),
    /// `submit_price_unsigned_with_signed_payload(payload, signature)`.
    SubmitPriceUnsignedWithSignedPayload(PricePayload, Vec<u8>),
}

/// Who dispatched a call.
#[derive(Clone, Copy, Debug, PartialEq, Eq, Structural)]
pub enum Origin {
    Root,
    Signed(u64),
    Unsigned,
}

/// Why a call could not be dispatched.
#[derive(Clone, Copy, Debug, PartialEq, Eq, Structural)]
pub enum DispatchError {
    BadOrigin,
}

/// Why an unsigned call is not admitted to the pool.
#[derive(Clone, Copy, Debug, PartialEq, Eq, Structural)]
pub enum InvalidTransaction {
    /// A submission already claimed this eligibility window.
    Stale,
    /// The call claims a height the chain has not reached.
    Future,
    /// The payload's signature does not verify.
    BadProof,
    /// The call is not one of the accepted unsigned shapes.
    Call,
}

/// How the pool is to hold an admitted unsigned call.
#[derive(Clone, Debug, PartialEq, Eq)]
pub struct ValidTransaction {
    pub priority: u64,
    /// Tags that must be provided before this transaction.
    pub requires: Vec<u64>,
    /// Tags this transaction provides; two with a common tag compete.
    pub provides: Vec<u64>,
    /// Number of blocks the validity lasts.
    pub longevity: u64,
    /// Whether the transaction may be gossiped to peers.
    pub propagate: bool,
}

} // verus!
