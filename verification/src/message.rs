//! The canonical transfer message: the exact byte layout that is
//! hashed and signed for a transfer. Signer and verifier must agree on
//! it bit for bit, or every valid signature is rejected.

use vstd::prelude::*;
use vstd::bytes::{spec_u64_to_le_bytes, u64_to_le_bytes};

use crate::crypto::{sha256, sha256_of};

verus! {

/// The canonical message for a transfer: source identity bytes, then
/// destination identity bytes, then the amount and the nonce as eight
/// little-endian bytes each.
pub open spec fn spec_transfer_message(
    from: Seq<u8>,
    to: Seq<u8>,
    amount: u64,
    nonce: u64,
) -> Seq<u8> {
    from + to + spec_u64_to_le_bytes(amount) + spec_u64_to_le_bytes(nonce)
}

/// Appends `src` to `dst`.
pub fn append_bytes(dst: &mut Vec<u8>, src: &Vec<u8>)
    ensures
        final(dst)@ == old(dst)@ + src@,
{
    let n = src.len();
    let mut i: usize = 0;
    while i < n
        invariant
            n == src@.len(),
            i <= n,
            dst@ == old(dst)@ + src@.take(i as int),
        decreases n - i,
    {
        dst.push(src[i]);
        proof {
            assert(dst@ =~= old(dst)@ + src@.take(i + 1));
        }
        i += 1;
    }
    proof {
        assert(old(dst)@ + src@.take(n as int) =~= old(dst)@ + src@);
    }
}

/// Builds the canonical transfer message.
pub fn transfer_message(from: &Vec<u8>, to: &Vec<u8>, amount: u64, nonce: u64) -> (r: Vec<u8>)
    ensures
        r@ == spec_transfer_message(from@, to@, amount, nonce),
{
    let mut m: Vec<u8> = Vec::new();
    append_bytes(&mut m, from);
    append_bytes(&mut m, to);
    let amount_bytes = u64_to_le_bytes(amount);
    append_bytes(&mut m, &amount_bytes);
    let nonce_bytes = u64_to_le_bytes(nonce);
    append_bytes(&mut m, &nonce_bytes);
    proof {
        assert(m@ =~= spec_transfer_message(from@, to@, amount, nonce));
    }
    m
}

/// The SHA-256 digest of the canonical transfer message; this digest
/// is what the source account signs and the engine verifies.
pub fn transfer_message_hash(from: &Vec<u8>, to: &Vec<u8>, amount: u64, nonce: u64) -> (r: Vec<
    u8,
>)
    ensures
        r@ == sha256_of(spec_transfer_message(from@, to@, amount, nonce)),
        r@.len() == 32,
{
    let m = transfer_message(from, to, amount, nonce);
    sha256(&m)
}

} // verus!
