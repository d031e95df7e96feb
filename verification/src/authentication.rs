//! Product authentication: what the manufacturer registered for a product,
//! the check of a claim against it, and the audit trail of the checks.

use crate::bytes::constant_time_eq;
use crate::types::{AccountId, Address, Timestamp};
use vstd::prelude::*;
use vstd::slice::slice_subrange;

verus! {

/// Length in bytes of a product's content hash.
pub const HASH_BYTES: usize = 32;

/// One check of a product's authenticity, with how it came out.
#[derive(Clone, Copy, Debug, PartialEq, Eq, Structural)]
pub struct AuthenticationEvent {
    pub timestamp: Timestamp,
    pub location: Address,
    pub verifier: AccountId,
    pub authentic: bool,
}

/// What is registered for a product, and every check made against it.
#[derive(Debug)]
pub struct AuthenticationData {
    pub product_hash: [u8; 32],
    pub manufacturer_proof: Vec<u8>,
    /// Every check of the product, oldest first.
    pub authentication_history: Vec<AuthenticationEvent>,
}

/// [`AuthenticationData`] as a mathematical value.
pub struct AuthenticationView {
    pub product_hash: Seq<u8>,
    pub manufacturer_proof: Seq<u8>,
    pub history: Seq<AuthenticationEvent>,
}

impl View for AuthenticationData {
    type V = AuthenticationView;

    open spec fn view(&self) -> AuthenticationView {
        AuthenticationView {
            product_hash: self.product_hash@,
            manufacturer_proof: self.manufacturer_proof@,
            history: self.authentication_history@,
        }
    }
}

impl AuthenticationView {
    /// Whether the claim `data` is authentic: its first [`HASH_BYTES`] bytes
    /// are the registered content hash and the rest is the manufacturer's
    /// proof.
    pub open spec fn confirms(self, data: Seq<u8>) -> bool {
        &&& data.len() >= HASH_BYTES
        &&& data.subrange(0, HASH_BYTES as int) == self.product_hash
        &&& data.subrange(HASH_BYTES as int, data.len() as int) == self.manufacturer_proof
    }

    /// The record after a check has been logged.
    pub open spec fn logged(self, event: AuthenticationEvent) -> AuthenticationView {
        AuthenticationView { history: self.history.push(event), ..self }
    }
}

impl AuthenticationData {
    /// Makes the record of a product that has not been checked yet.
    pub fn new(product_hash: [u8; 32], manufacturer_proof: Vec<u8>) -> (data: AuthenticationData)
        ensures
            data@.product_hash == product_hash@,
            data@.manufacturer_proof == manufacturer_proof@,
            data@.history == Seq::<AuthenticationEvent>::empty(),
    {
        AuthenticationData { product_hash, manufacturer_proof, authentication_history: Vec::new() }
    }

    /// Logs a check in the audit trail.
    pub fn log(&mut self, event: AuthenticationEvent)
        ensures
            final(self)@ == old(self)@.logged(event),
    {
        self.authentication_history.push(event);
    }
}

/// Checks a claim against what is registered for a product. Both parts of
/// the claim are always compared, each in time that depends on the lengths
/// alone.
pub fn verify_product_authenticity(auth_info: &AuthenticationData, authentication_data: &[u8]) -> (authentic:
    bool)
    ensures
        authentic == auth_info@.confirms(authentication_data@),
{
    if authentication_data.len() < HASH_BYTES {
        return false;
    }
    let claimed_hash = slice_subrange(authentication_data, 0, HASH_BYTES);
    let claimed_proof = slice_subrange(authentication_data, HASH_BYTES, authentication_data.len());
    let hash_matches = constant_time_eq(claimed_hash, auth_info.product_hash.as_slice());
    let proof_matches = constant_time_eq(claimed_proof, auth_info.manufacturer_proof.as_slice());
    hash_matches && proof_matches
}

} // verus!
