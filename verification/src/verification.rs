//! Proof-of-delivery records: what a verifier signs, how the signature is
//! checked, and what a condition report says of the goods.

use crate::pqc::{dilithium_accepts, dilithium_verify, PUBLIC_KEY_BYTES};
use crate::types::{Balance, ShipmentId, Timestamp};
use vstd::bytes::{
    spec_u128_to_le_bytes, spec_u64_to_le_bytes, u128_to_le_bytes, u64_to_le_bytes,
};
use vstd::prelude::*;

verus! {

/// The record of a verified delivery. Written once per shipment.
#[derive(Debug)]
pub struct DeliveryVerification {
    pub proof_of_delivery: Vec<u8>,
    /// The verifier's signature over [`signed_message`].
    pub verifier_signature: Vec<u8>,
    pub completion_time: Timestamp,
    pub condition_report: Vec<u8>,
}

/// [`DeliveryVerification`] as a mathematical value.
pub struct VerificationView {
    pub proof: Seq<u8>,
    pub signature: Seq<u8>,
    pub completion_time: Timestamp,
    pub condition_report: Seq<u8>,
}

impl View for DeliveryVerification {
    type V = VerificationView;

    open spec fn view(&self) -> VerificationView {
        VerificationView {
            proof: self.proof_of_delivery@,
            signature: self.verifier_signature@,
            completion_time: self.completion_time,
            condition_report: self.condition_report@,
        }
    }
}

/// The bytes that a verifier signs for a delivery: the shipment identifier
/// and the length of the proof, eight bytes each with the lowest byte first,
/// then the proof, then the condition report.
pub open spec fn signed_message(
    shipment_id: ShipmentId,
    proof: Seq<u8>,
    condition_report: Seq<u8>,
) -> Seq<u8> {
    spec_u64_to_le_bytes(shipment_id.0) + spec_u64_to_le_bytes(proof.len() as u64) + proof
        + condition_report
}

/// The bytes that a verifier signs to endorse the release of the escrow of
/// a shipment: the shipment identifier, eight bytes with the lowest first;
/// eight bytes of all ones, where a delivery message has the length of its
/// proof; and the amount of the escrow, sixteen bytes with the lowest
/// first.
pub open spec fn release_message(shipment_id: ShipmentId, amount: Balance) -> Seq<u8> {
    spec_u64_to_le_bytes(shipment_id.0) + spec_u64_to_le_bytes(u64::MAX) + spec_u128_to_le_bytes(
        amount,
    )
}

/// The score that a condition report gives the goods: its first byte, from
/// 0 (worst) to 255 (as shipped); 0 where the report is empty.
pub open spec fn condition_score(condition_report: Seq<u8>) -> u8 {
    if condition_report.len() == 0 {
        0
    } else {
        condition_report[0]
    }
}

/// Whether `signature` is a valid signature over `message` under
/// `public_key`: the key has the length of a Dilithium public key and
/// Dilithium verification accepts.
pub open spec fn signature_valid(signature: Seq<u8>, message: Seq<u8>, public_key: Seq<u8>) -> bool {
    public_key.len() == PUBLIC_KEY_BYTES && dilithium_accepts(signature, message, public_key)
}

/// Builds the bytes that a verifier signs for a delivery.
pub fn message_to_sign(shipment_id: ShipmentId, proof: &Vec<u8>, condition_report: &Vec<u8>) -> (message:
    Vec<u8>)
    ensures
        message@ == signed_message(shipment_id, proof@, condition_report@),
{
    let mut message = u64_to_le_bytes(shipment_id.0);
    let mut length = u64_to_le_bytes(proof.len() as u64);
    message.append(&mut length);
    let mut i: usize = 0;
    while i < proof.len()
        invariant
            i <= proof.len(),
            message@ == spec_u64_to_le_bytes(shipment_id.0) + spec_u64_to_le_bytes(
                proof.len() as u64,
            ) + proof@.take(i as int),
        decreases proof.len() - i,
    {
        message.push(proof[i]);
        i += 1;
    }
    let mut j: usize = 0;
    while j < condition_report.len()
        invariant
            j <= condition_report.len(),
            message@ == spec_u64_to_le_bytes(shipment_id.0) + spec_u64_to_le_bytes(
                proof.len() as u64,
            ) + proof@ + condition_report@.take(j as int),
        decreases condition_report.len() - j,
    {
        message.push(condition_report[j]);
        j += 1;
    }
    message
}

/// Builds the bytes that a verifier signs to endorse a release.
pub fn message_to_endorse(shipment_id: ShipmentId, amount: Balance) -> (message: Vec<u8>)
    ensures
        message@ == release_message(shipment_id, amount),
{
    let mut message = u64_to_le_bytes(shipment_id.0);
    let mut marker = u64_to_le_bytes(u64::MAX);
    let mut figure = u128_to_le_bytes(amount);
    message.append(&mut marker);
    message.append(&mut figure);
    message
}

/// Reads the score of a condition report.
pub fn score_of(condition_report: &Vec<u8>) -> (score: u8)
    ensures
        score == condition_score(condition_report@),
{
    if condition_report.len() == 0 {
        0
    } else {
        condition_report[0]
    }
}

/// Checks a signature over a message under a public key.
pub fn check_signature(signature: &Vec<u8>, message: &Vec<u8>, public_key: &Vec<u8>) -> (valid: bool)
    ensures
        valid == signature_valid(signature@, message@, public_key@),
{
    if public_key.len() != PUBLIC_KEY_BYTES {
        return false;
    }
    match dilithium_verify(signature.as_slice(), message.as_slice(), public_key.as_slice()) {
        Ok(_) => true,
        Err(_) => false,
    }
}

/// The signed bytes determine what was signed: two deliveries with the same
/// message have the same shipment, the same proof and the same condition
/// report.
pub proof fn lemma_signed_message_injective(
    first_id: ShipmentId,
    first_proof: Seq<u8>,
    first_report: Seq<u8>,
    second_id: ShipmentId,
    second_proof: Seq<u8>,
    second_report: Seq<u8>,
)
    requires
        first_proof.len() <= u64::MAX,
        second_proof.len() <= u64::MAX,
        signed_message(first_id, first_proof, first_report) == signed_message(
            second_id,
            second_proof,
            second_report,
        ),
    ensures
        first_id == second_id,
        first_proof == second_proof,
        first_report == second_report,
{
    vstd::bytes::lemma_auto_spec_u64_to_from_le_bytes();
    let first = signed_message(first_id, first_proof, first_report);
    let second = signed_message(second_id, second_proof, second_report);
    let first_len = first_proof.len() as u64;
    let second_len = second_proof.len() as u64;
    assert(first.subrange(0, 8) == spec_u64_to_le_bytes(first_id.0));
    assert(second.subrange(0, 8) == spec_u64_to_le_bytes(second_id.0));
    assert(first.subrange(8, 16) == spec_u64_to_le_bytes(first_len));
    assert(second.subrange(8, 16) == spec_u64_to_le_bytes(second_len));
    let n = first_proof.len() as int;
    assert(first.subrange(16, 16 + n) == first_proof);
    assert(first.subrange(16 + n, first.len() as int) == first_report);
}

/// An endorsement of a release is no signature of a delivery: no delivery
/// has the bytes of a release message as its signed message.
pub proof fn lemma_release_message_is_no_delivery_message(
    shipment_id: ShipmentId,
    amount: Balance,
    delivered: ShipmentId,
    proof: Seq<u8>,
    condition_report: Seq<u8>,
)
    requires
        proof.len() <= u64::MAX,
    ensures
        release_message(shipment_id, amount) != signed_message(delivered, proof, condition_report),
{
    vstd::bytes::lemma_auto_spec_u64_to_from_le_bytes();
    vstd::bytes::lemma_auto_spec_u128_to_from_le_bytes();
    let release = release_message(shipment_id, amount);
    let delivery = signed_message(delivered, proof, condition_report);
    if release == delivery {
        assert(release.subrange(8, 16) == spec_u64_to_le_bytes(u64::MAX));
        assert(delivery.subrange(8, 16) == spec_u64_to_le_bytes(proof.len() as u64));
        assert(release.len() == 32);
    }
}

} // verus!
