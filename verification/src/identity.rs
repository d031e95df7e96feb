//! Who an account is: its role, where it operates, and the Dilithium keys
//! registered for it.

use crate::pqc::{
    dilithium_accepts, dilithium_public, dilithium_public_key, dilithium_sign,
    dilithium_signature, PUBLIC_KEY_BYTES, SIGNATURE_BYTES,
};
use crate::types::{Address, CarrierId, WarehouseId};
use vstd::prelude::*;

verus! {

/// The capacity in which an account acts.
#[derive(Clone, Copy, Debug, PartialEq, Eq, Structural)]
pub enum Role {
    /// The registered operator of a carrier.
    Carrier(CarrierId),
    /// The registered operator of a warehouse.
    Warehouse(WarehouseId),
    /// A verifier of deliveries and products.
    Verifier,
}

/// What the registry holds for an account.
#[derive(Debug)]
pub struct Identity {
    pub role: Role,
    pub location: Address,
    /// The account's Dilithium public key; empty where none is registered.
    pub verification_key: Vec<u8>,
    signing_key: Option<pqc_dilithium::Keypair>,
}

/// [`Identity`] as a mathematical value.
pub struct IdentityView {
    pub role: Role,
    pub location: Address,
    pub verification_key: Seq<u8>,
    pub signing_key: Option<pqc_dilithium::Keypair>,
}

impl IdentityView {
    /// Whether the registered public key is the public half of the
    /// registered signing key, in full length, so that what the account
    /// signs verifies under the key registered for it.
    pub open spec fn keys_match(self) -> bool {
        &&& self.signing_key matches Some(keypair)
        &&& self.verification_key == dilithium_public(keypair)
        &&& self.verification_key.len() == PUBLIC_KEY_BYTES
    }
}

impl View for Identity {
    type V = IdentityView;

    closed spec fn view(&self) -> IdentityView {
        IdentityView {
            role: self.role,
            location: self.location,
            verification_key: self.verification_key@,
            signing_key: self.signing_key,
        }
    }
}

impl Identity {
    /// An identity without keys.
    pub fn new(role: Role, location: Address) -> (identity: Identity)
        ensures
            identity@ == (IdentityView {
                role,
                location,
                verification_key: Seq::empty(),
                signing_key: None,
            }),
    {
        Identity { role, location, verification_key: Vec::new(), signing_key: None }
    }

    /// A verifier known by its public key alone: its signatures can be
    /// checked, but it signs elsewhere.
    pub fn of_verifier(location: Address, verification_key: Vec<u8>) -> (identity: Identity)
        ensures
            identity@ == (IdentityView {
                role: Role::Verifier,
                location,
                verification_key: verification_key@,
                signing_key: None,
            }),
    {
        Identity { role: Role::Verifier, location, verification_key, signing_key: None }
    }

    /// A verifier whose signing key the registry holds. The public key is
    /// taken from the key pair.
    pub fn of_signer(location: Address, keypair: pqc_dilithium::Keypair) -> (identity: Identity)
        ensures
            identity@ == (IdentityView {
                role: Role::Verifier,
                location,
                verification_key: dilithium_public(keypair),
                signing_key: Some(keypair),
            }),
            identity@.keys_match(),
            identity@.verification_key.len() == PUBLIC_KEY_BYTES,
    {
        let verification_key = dilithium_public_key(&keypair);
        Identity { role: Role::Verifier, location, verification_key, signing_key: Some(keypair) }
    }

    /// The role, read from the record.
    pub fn role(&self) -> (role: Role)
        ensures
            role == self@.role,
    {
        self.role
    }

    /// The location, read from the record.
    pub fn location(&self) -> (location: Address)
        ensures
            location == self@.location,
    {
        self.location
    }

    /// The public key, read from the record.
    pub fn verification_key(&self) -> (key: &Vec<u8>)
        ensures
            key@ == self@.verification_key,
    {
        &self.verification_key
    }

    /// Signs `message` with the registered signing key; `None` where the
    /// registry holds no signing key for the account. The signature is the
    /// one that Dilithium makes of the message with that key; Dilithium
    /// verification accepts it under the public half of the key.
    pub fn sign(&self, message: &Vec<u8>) -> (signature: Option<Vec<u8>>)
        ensures
            match signature {
                Some(bytes) => {
                    &&& self@.signing_key matches Some(keypair)
                    &&& bytes@ == dilithium_signature(keypair, message@)
                    &&& bytes@.len() == SIGNATURE_BYTES
                    &&& dilithium_accepts(bytes@, message@, dilithium_public(keypair))
                },
                None => self@.signing_key is None,
            },
    {
        match &self.signing_key {
            Some(keypair) => Some(dilithium_sign(keypair, message.as_slice())),
            None => None,
        }
    }
}

} // verus!
