//! Provenance seals: a Kyber encapsulation under the ledger's sealing key,
//! bound to the order that it seals. Only the holder of the matching secret
//! key can open a seal; to everything else it is opaque.

use crate::bytes::constant_time_eq;
use crate::pqc::{kyber_encapsulate, CIPHERTEXT_BYTES, SEAL_KEY_BYTES};
use crate::types::{Error, OrderId};
use vstd::bytes::{spec_u64_to_le_bytes, u64_to_le_bytes};
use vstd::prelude::*;
use vstd::slice::slice_subrange;

verus! {

/// Length in bytes of a provenance seal.
pub const SEAL_BYTES: usize = 1096;

/// The seal that binds `ciphertext` to an order: the order's identifier,
/// eight bytes with the lowest first, then the ciphertext.
pub open spec fn bound_seal(order_id: OrderId, ciphertext: Seq<u8>) -> Seq<u8> {
    spec_u64_to_le_bytes(order_id.0) + ciphertext
}

/// Whether `seal` has the form of a seal of the order `order_id`: the
/// length of a seal, and the order's identifier in front.
pub open spec fn seals_order(seal: Seq<u8>, order_id: OrderId) -> bool {
    seal.len() == SEAL_BYTES && seal.subrange(0, 8) == spec_u64_to_le_bytes(order_id.0)
}

/// Binds a ciphertext to an order.
pub fn bind_seal(order_id: OrderId, ciphertext: Vec<u8>) -> (seal: Vec<u8>)
    ensures
        seal@ == bound_seal(order_id, ciphertext@),
{
    let mut seal = u64_to_le_bytes(order_id.0);
    let mut rest = ciphertext;
    seal.append(&mut rest);
    seal
}

/// Tells whether a seal has the form of a seal of the order `order_id`.
pub fn check_seal(seal: &Vec<u8>, order_id: OrderId) -> (bound: bool)
    ensures
        bound == seals_order(seal@, order_id),
{
    if seal.len() != SEAL_BYTES {
        return false;
    }
    let prefix = u64_to_le_bytes(order_id.0);
    proof {
        vstd::bytes::lemma_auto_spec_u64_to_from_le_bytes();
    }
    constant_time_eq(slice_subrange(seal.as_slice(), 0, 8), prefix.as_slice())
}

/// Seals an order under `sealing_key`: encapsulates a fresh secret under
/// the key and binds the ciphertext to the order. The ciphertext is fresh
/// at every call, so two seals of one order differ. Fails with `SealFailed`
/// where the key is not a Kyber public key or no randomness can be had.
pub fn seal_order(sealing_key: &Vec<u8>, order_id: OrderId) -> (r: Result<Vec<u8>, Error>)
    ensures
        match r {
            Ok(seal) => seals_order(seal@, order_id) && sealing_key@.len() == SEAL_KEY_BYTES,
            Err(e) => e == Error::SealFailed,
        },
{
    match kyber_encapsulate(sealing_key.as_slice()) {
        Ok(ciphertext) => {
            let seal = bind_seal(order_id, ciphertext);
            proof {
                lemma_bound_seal(order_id, ciphertext@);
            }
            Ok(seal)
        },
        Err(_) => Err(Error::SealFailed),
    }
}

/// A ciphertext bound to an order is a seal of that order, and of no other.
pub proof fn lemma_bound_seal(order_id: OrderId, ciphertext: Seq<u8>)
    requires
        ciphertext.len() == CIPHERTEXT_BYTES,
    ensures
        seals_order(bound_seal(order_id, ciphertext), order_id),
        forall|other: OrderId|
            seals_order(bound_seal(order_id, ciphertext), other) ==> other == order_id,
{
    vstd::bytes::lemma_auto_spec_u64_to_from_le_bytes();
    let seal = bound_seal(order_id, ciphertext);
    assert(seal.subrange(0, 8) == spec_u64_to_le_bytes(order_id.0));
}

} // verus!
