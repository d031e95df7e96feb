//! The post-quantum primitives that the ledger relies on: Dilithium
//! signatures (`pqc_dilithium`) and Kyber key encapsulation (`pqc_kyber`).
//!
//! Nothing in this file is proved. Each function states what the named
//! crate's function does; the rest of the library is verified against these
//! statements. They hold of the crates as they are built here, with none
//! of their optional features: Dilithium at security level 3 and without
//! randomised signing, Kyber-768.

use vstd::prelude::*;

verus! {

/// A Dilithium signing key pair; opaque to the verifier.
#[verifier::external_type_specification]
#[verifier::external_body]
pub struct ExKeypair(pqc_dilithium::Keypair);

/// The error of `pqc_dilithium::verify`; opaque to the verifier.
#[verifier::external_type_specification]
#[verifier::external_body]
pub struct ExSignError(pqc_dilithium::SignError);

/// The error of `pqc_kyber::encapsulate`; opaque to the verifier.
#[verifier::external_type_specification]
#[verifier::external_body]
pub struct ExKyberError(pqc_kyber::KyberError);

/// Length in bytes of a Dilithium signature (security level 3).
pub const SIGNATURE_BYTES: usize = 3293;

/// Length in bytes of a Dilithium public key (security level 3).
pub const PUBLIC_KEY_BYTES: usize = 1952;

/// Length in bytes of a Kyber public key (Kyber-768).
pub const SEAL_KEY_BYTES: usize = 1184;

/// Length in bytes of a Kyber ciphertext (Kyber-768).
pub const CIPHERTEXT_BYTES: usize = 1088;

/// Whether `pqc_dilithium::verify` accepts `signature` for `message` under
/// `public_key`. The answer is a function of the three byte strings alone.
pub uninterp spec fn dilithium_accepts(
    signature: Seq<u8>,
    message: Seq<u8>,
    public_key: Seq<u8>,
) -> bool;

/// `pqc_dilithium::verify`: checks a signature over a message under a public
/// key. The contract names the verdict ([`dilithium_accepts`]) and adds the
/// one fact that the function's first lines show: a signature of any other
/// length than [`SIGNATURE_BYTES`] is refused. The public key must have its
/// full length, because the function indexes into it unchecked.
#[verifier::external_body]
pub(crate) fn dilithium_verify(signature: &[u8], message: &[u8], public_key: &[u8]) -> (r: Result<
    (),
    pqc_dilithium::SignError,
>)
    requires
        public_key@.len() == PUBLIC_KEY_BYTES,
    ensures
        r is Ok <==> dilithium_accepts(signature@, message@, public_key@),
        r is Ok ==> signature@.len() == SIGNATURE_BYTES,
{
    pqc_dilithium::verify(signature, message, public_key)
}

/// The signature that `pqc_dilithium::Keypair::sign` makes of `message`
/// with `keypair`. The crate is built without its randomised signing, so
/// the signature is a function of the key pair and the message alone.
pub uninterp spec fn dilithium_signature(keypair: pqc_dilithium::Keypair, message: Seq<u8>) -> Seq<
    u8,
>;

/// The public half of a key pair: the bytes of its field `public`.
pub uninterp spec fn dilithium_public(keypair: pqc_dilithium::Keypair) -> Seq<u8>;

/// `pqc_dilithium::Keypair::sign`: signs a message with the pair's secret
/// key. The contract names the signature ([`dilithium_signature`]), gives
/// its length, and states what the crate's documentation shows of it:
/// `pqc_dilithium::verify` accepts it for the message under the pair's
/// public half.
#[verifier::external_body]
pub(crate) fn dilithium_sign(keypair: &pqc_dilithium::Keypair, message: &[u8]) -> (signature: Vec<
    u8,
>)
    ensures
        signature@ == dilithium_signature(*keypair, message@),
        signature@.len() == SIGNATURE_BYTES,
        dilithium_accepts(signature@, message@, dilithium_public(*keypair)),
{
    keypair.sign(message).to_vec()
}

/// The public half of a `pqc_dilithium::Keypair` (its field `public`), as
/// bytes: named [`dilithium_public`], of [`PUBLIC_KEY_BYTES`] bytes.
#[verifier::external_body]
pub(crate) fn dilithium_public_key(keypair: &pqc_dilithium::Keypair) -> (key: Vec<u8>)
    ensures
        key@ == dilithium_public(*keypair),
        key@.len() == PUBLIC_KEY_BYTES,
{
    keypair.public.to_vec()
}

/// `pqc_kyber::encapsulate` with the operating system's random generator:
/// encapsulates a fresh shared secret under `public_key` and returns the
/// ciphertext. The ciphertext differs from call to call, so the contract
/// says only what holds of every outcome: success needs a key of
/// [`SEAL_KEY_BYTES`] bytes and gives [`CIPHERTEXT_BYTES`] bytes.
#[verifier::external_body]
pub(crate) fn kyber_encapsulate(public_key: &[u8]) -> (r: Result<Vec<u8>, pqc_kyber::KyberError>)
    ensures
        r matches Ok(ciphertext) ==> ciphertext@.len() == CIPHERTEXT_BYTES && public_key@.len()
            == SEAL_KEY_BYTES,
{
    pqc_kyber::encapsulate(public_key, &mut rand::rngs::OsRng).map(
        |(ciphertext, _)| ciphertext.to_vec(),
    )
}

} // verus!
