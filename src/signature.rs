//! The asymmetric backend: Ed25519 signatures over `big_endian(counter) ‖ message`.
//! Keys and signatures are held as their byte encodings; the attestation is the
//! encoded public key.
use std::collections::HashMap;

use ed25519_dalek::{Signer, SigningKey, Verifier, VerifyingKey};
use rand::rngs::OsRng;
use vstd::prelude::*;

use crate::{
    authenticated_input, composite, Count, Counter, ReplicaId, SignHalf, Usig, UsigError,
    VerifyHalf,
};

verus! {

broadcast use vstd::std_specs::hash::group_hash_axioms;

/// The encoded public key that belongs to an encoded secret key.
pub uninterp spec fn ed25519_public_of(secret: Seq<u8>) -> Seq<u8>;

/// The encoded Ed25519 signature of `data` under an encoded secret key.
pub uninterp spec fn ed25519_signature_of(secret: Seq<u8>, data: Seq<u8>) -> Seq<u8>;

/// Whether an encoded signature is valid for `data` under an encoded public key.
pub uninterp spec fn ed25519_accepts(public: Seq<u8>, data: Seq<u8>, signature: Seq<u8>) -> bool;

/// Relies on `SigningKey::generate` with the operating system's random source:
/// a fresh secret key.
#[verifier::external_body]
fn generate_secret_key() -> (r: [u8; 32]) {
    SigningKey::generate(&mut OsRng).to_bytes()
}

/// Relies on `SigningKey::from_bytes` and `SigningKey::verifying_key`: the
/// public key of a secret key.
#[verifier::external_body]
fn public_key_of(secret: &[u8; 32]) -> (r: [u8; 32])
    ensures
        r@ == ed25519_public_of(secret@),
{
    SigningKey::from_bytes(secret).verifying_key().to_bytes()
}

/// Relies on `SigningKey::from_bytes` and `Signer::sign` of `SigningKey`:
/// Ed25519 signing (RFC 8032) derives its nonce from the key and the data, so
/// the signature depends on them alone, and it verifies under the public key
/// of the same secret key.
#[verifier::external_body]
fn ed25519_sign(secret: &[u8; 32], data: &[u8]) -> (r: [u8; 64])
    ensures
        r@ == ed25519_signature_of(secret@, data@),
        ed25519_accepts(ed25519_public_of(secret@), data@, r@),
{
    SigningKey::from_bytes(secret).sign(data).to_bytes()
}

/// Relies on `VerifyingKey::from_bytes` and `Verifier::verify` of
/// `VerifyingKey`: whether `signature` is valid for `data` under `public`.
#[verifier::external_body]
fn ed25519_verify(public: &[u8; 32], data: &[u8], signature: &[u8; 64]) -> (r: bool)
    ensures
        r == ed25519_accepts(public@, data@, signature@),
{
    match VerifyingKey::from_bytes(public) {
        Ok(key) => key.verify(data, &ed25519_dalek::Signature::from_bytes(signature)).is_ok(),
        Err(_) => false,
    }
}

/// A USIG signature of the Ed25519 backend: the counter and the signature.
#[derive(Clone, Copy, Debug)]
pub struct Signature {
    counter: u64,
    signature: [u8; 64],
}

impl Signature {
    /// The USIG signature carrying `counter` and the encoded signature `bytes`.
    pub fn new(counter: u64, bytes: [u8; 64]) -> (r: Signature)
        ensures
            r.count() == counter,
            r.bytes_view() == bytes@,
    {
        Signature { counter, signature: bytes }
    }

    /// The encoded signature this USIG signature carries.
    pub closed spec fn bytes_view(&self) -> Seq<u8> {
        self.signature@
    }

    /// The encoded signature this USIG signature carries.
    pub fn bytes(&self) -> (r: [u8; 64])
        ensures
            r@ == self.bytes_view(),
    {
        self.signature
    }
}

impl Counter for Signature {
    closed spec fn count(&self) -> u64 {
        self.counter
    }

    fn counter(&self) -> (r: Count) {
        Count(self.counter)
    }
}

/// The signing half: the counter and the key pair.
pub struct UsigSignatureSignHalf {
    counter: u64,
    private_key: [u8; 32],
    public_key: [u8; 32],
}

impl UsigSignatureSignHalf {
    /// A signing half with counter zero that signs with `private_key` and
    /// attests `public_key`.
    pub fn new(private_key: [u8; 32], public_key: [u8; 32]) -> (r: UsigSignatureSignHalf)
        ensures
            r.next_count() == 0,
            r.attestation()@ == public_key@,
            r.consistent() <==> public_key@ == ed25519_public_of(private_key@),
    {
        UsigSignatureSignHalf { counter: 0, private_key, public_key }
    }
}

impl SignHalf for UsigSignatureSignHalf {
    type Signature = Signature;

    type Attestation = [u8; 32];

    closed spec fn next_count(&self) -> u64 {
        self.counter
    }

    closed spec fn attestation(&self) -> [u8; 32] {
        self.public_key
    }

    closed spec fn issues(&self, message: Seq<u8>, sig: Signature) -> bool {
        let data = composite(sig.counter, message);
        &&& sig.signature@ == ed25519_signature_of(self.private_key@, data)
        &&& ed25519_accepts(ed25519_public_of(self.private_key@), data, sig.signature@)
    }

    closed spec fn consistent(&self) -> bool {
        self.public_key@ == ed25519_public_of(self.private_key@)
    }

    fn sign(&mut self, message: &[u8]) -> (r: Result<Signature, UsigError>) {
        if self.counter == u64::MAX {
            return Err(UsigError::SigningFailed);
        }
        let counter = self.counter;
        self.counter = counter + 1;
        let data = authenticated_input(counter, message);
        let signature = ed25519_sign(&self.private_key, data.as_slice());
        Ok(Signature { counter, signature })
    }

    fn attest(&mut self) -> (r: Result<[u8; 32], UsigError>) {
        Ok(self.public_key)
    }
}

/// The verifying half: the public key of each enrolled party.
#[derive(Debug)]
pub struct UsigSignatureVerifyHalf {
    other_keys: HashMap<u64, [u8; 32]>,
}

impl Default for UsigSignatureVerifyHalf {
    fn default() -> (r: UsigSignatureVerifyHalf)
        ensures
            r.parties() == Map::<u64, Seq<u8>>::empty(),
    {
        let r = UsigSignatureVerifyHalf { other_keys: HashMap::new() };
        assert(r.parties() =~= Map::<u64, Seq<u8>>::empty());
        r
    }
}

impl VerifyHalf for UsigSignatureVerifyHalf {
    type Signature = Signature;

    type Attestation = [u8; 32];

    closed spec fn parties(&self) -> Map<u64, Seq<u8>> {
        self.other_keys@.map_values(|k: [u8; 32]| k@)
    }

    open spec fn admits(attestation: Seq<u8>) -> bool {
        true
    }

    open spec fn accepts(attestation: Seq<u8>, message: Seq<u8>, sig: Signature) -> bool {
        ed25519_accepts(attestation, composite(sig.count(), message), sig.bytes_view())
    }

    fn verify(&self, id: ReplicaId, message: &[u8], signature: &Signature) -> (r: Result<
        (),
        UsigError,
    >) {
        match self.other_keys.get(&id.0) {
            Some(key) => {
                let data = authenticated_input(signature.counter, message);
                if ed25519_verify(key, data.as_slice(), &signature.signature) {
                    Ok(())
                } else {
                    Err(UsigError::InvalidSignature)
                }
            },
            None => Err(UsigError::UnknownId(id)),
        }
    }

    fn add_remote_party(&mut self, id: ReplicaId, attestation: [u8; 32]) -> (r: bool) {
        let ghost before = self.parties();
        self.other_keys.insert(id.0, attestation);
        assert(self.parties() =~= before.insert(id.0, attestation@));
        true
    }
}

/// An Ed25519 USIG: one signing half and one verifying half.
pub struct UsigSignature {
    sign_half: UsigSignatureSignHalf,
    verify_half: UsigSignatureVerifyHalf,
}

impl UsigSignature {
    /// A USIG with counter zero that signs with `private_key`, attests
    /// `public_key` and has nobody enrolled.
    pub fn new(private_key: [u8; 32], public_key: [u8; 32]) -> (r: UsigSignature)
        ensures
            r.sign_half().next_count() == 0,
            r.sign_half().attestation()@ == public_key@,
            r.sign_half().consistent() <==> public_key@ == ed25519_public_of(private_key@),
            r.verify_half().parties() == Map::<u64, Seq<u8>>::empty(),
    {
        UsigSignature {
            sign_half: UsigSignatureSignHalf::new(private_key, public_key),
            verify_half: UsigSignatureVerifyHalf::default(),
        }
    }
}

/// A USIG with a freshly generated Ed25519 key pair.
pub fn new_ed25519() -> (r: UsigSignature)
    ensures
        r.sign_half().next_count() == 0,
        r.sign_half().consistent(),
        r.verify_half().parties() == Map::<u64, Seq<u8>>::empty(),
{
    let private_key = generate_secret_key();
    let public_key = public_key_of(&private_key);
    UsigSignature::new(private_key, public_key)
}

impl Usig for UsigSignature {
    type Signature = Signature;

    type Attestation = [u8; 32];

    type SignHalf = UsigSignatureSignHalf;

    type VerifyHalf = UsigSignatureVerifyHalf;

    closed spec fn sign_half(&self) -> UsigSignatureSignHalf {
        self.sign_half
    }

    closed spec fn verify_half(&self) -> UsigSignatureVerifyHalf {
        self.verify_half
    }

    proof fn lemma_issued_accepted(signer: UsigSignatureSignHalf, message: Seq<u8>, sig: Signature) {
    }

    fn sign(&mut self, message: &[u8]) -> (r: Result<Signature, UsigError>) {
        self.sign_half.sign(message)
    }

    fn attest(&mut self) -> (r: Result<[u8; 32], UsigError>) {
        self.sign_half.attest()
    }

    fn verify(&self, id: ReplicaId, message: &[u8], signature: &Signature) -> (r: Result<
        (),
        UsigError,
    >) {
        self.verify_half.verify(id, message, signature)
    }

    fn add_remote_party(&mut self, id: ReplicaId, attestation: [u8; 32]) -> (r: bool) {
        self.verify_half.add_remote_party(id, attestation)
    }

    fn split(self) -> (r: (UsigSignatureSignHalf, UsigSignatureVerifyHalf)) {
        (self.sign_half, self.verify_half)
    }
}

} // verus!
