use vstd::prelude::*;
use crate::types::PricePayload;

verus! {

/// Little-endian bytes of `x`, `n` of them.
pub open spec fn le_bytes(x: nat, n: nat) -> Seq<u8>
    decreases n,
{
    if n == 0 {
        Seq::empty()
    } else {
        seq![(x % 256) as u8] + le_bytes(x / 256, (n - 1) as nat)
    }
}

/// The signed message of a payload: its SCALE encoding, the block number and
/// the price as fixed-width little-endian integers followed by the raw key.
pub open spec fn payload_message(p: PricePayload) -> Seq<u8> {
    le_bytes(p.block_number as nat, 8) + le_bytes(p.price as nat, 4) + p.public@
}

/// Whether `signature` is a valid sr25519 signature of `message` by `public`.
pub uninterp spec fn sr25519_valid(signature: Seq<u8>, message: Seq<u8>, public: Seq<u8>) -> bool;

/// Whether the payload's signature verifies against the key it carries.
pub open spec fn payload_signature_valid(p: PricePayload, signature: Seq<u8>) -> bool {
    sr25519_valid(signature, payload_message(p), p.public@)
}

/// Relies on `parity_scale_codec::Encode` for a pair of integers: each is
/// written as its fixed-width little-endian bytes, in order.
#[verifier::external_body]
fn encode_height_and_price(block_number: u64, price: u32) -> (r: Vec<u8>)
    ensures
        r@ == le_bytes(block_number as nat, 8) + le_bytes(price as nat, 4),
{
    parity_scale_codec::Encode::encode(&(block_number, price))
}

/// Relies on `sp_core::sr25519::Pair::verify`; a key or a signature of the
/// wrong length is refused before the call and does not verify.
#[verifier::external_body]
fn sr25519_verify(signature: &Vec<u8>, message: &Vec<u8>, public: &Vec<u8>) -> (r: bool)
    ensures
        r == sr25519_valid(signature@, message@, public@),
{
    match (
        sp_core::sr25519::Signature::try_from(signature.as_slice()),
        sp_core::sr25519::Public::try_from(public.as_slice()),
    ) {
        (Ok(s), Ok(p)) => <sp_core::sr25519::Pair as sp_core::Pair>::verify(&s, message.as_slice(), &p),
        _ => false,
    }
}

/// The signed message of a payload.
pub fn payload_encoding(payload: &PricePayload) -> (r: Vec<u8>)
    ensures
        r@ == payload_message(*payload),
{
    let mut r = encode_height_and_price(payload.block_number, payload.price);
    let ghost head = r@;
    let mut i: usize = 0;
    while i < payload.public.len()
        invariant
            i <= payload.public@.len(),
            r@ == head + payload.public@.subrange(0, i as int),
        decreases payload.public@.len() - i,
    {
        r.push(payload.public[i]);
        i = i + 1;
        assert(r@ =~= head + payload.public@.subrange(0, i as int));
    }
    assert(payload.public@.subrange(0, i as int) =~= payload.public@);
    r
}

/// Whether the signature of a payload verifies against the key it carries.
pub fn verify_payload(payload: &PricePayload, signature: &Vec<u8>) -> (r: bool)
    ensures
        r == payload_signature_valid(*payload, signature@),
{
    let message = payload_encoding(payload);
    sr25519_verify(signature, &message, &payload.public)
}

} // verus!
