//! The symmetric backend: HMAC-SHA-256 tags over `big_endian(counter) ‖ message`.
//! The attestation is the raw shared key.
use std::collections::HashMap;

use hmac::digest::InvalidLength;
use hmac::{Hmac, Mac};
use sha2::Sha256;
use vstd::prelude::*;

use crate::laws::outcome;
use crate::{
    authenticated_input, composite, Count, Counter, ReplicaId, SignHalf, Usig, UsigError,
    VerifyHalf,
};

verus! {

broadcast use vstd::std_specs::hash::group_hash_axioms;

#[verifier::external_type_specification]
#[verifier::external_body]
pub struct ExInvalidLength(hmac::digest::InvalidLength);

/// The HMAC-SHA-256 tag of `data` under `key`.
pub uninterp spec fn hmac_sha256_of(key: Seq<u8>, data: Seq<u8>) -> Seq<u8>;

/// Relies on `Mac::new_from_slice` of `Hmac<Sha256>`, which hashes or pads a
/// key of any length to the block size and so never fails.
#[verifier::external_body]
fn check_key(key: &[u8]) -> (r: Result<(), InvalidLength>)
    ensures
        r is Ok,
{
    match <Hmac<Sha256> as Mac>::new_from_slice(key) {
        Ok(_) => Ok(()),
        Err(e) => Err(e),
    }
}

/// Relies on `Mac::update` and `Mac::finalize` of `Hmac<Sha256>`: the tag of
/// `data` under `key`.
#[verifier::external_body]
fn hmac_sha256_tag(key: &[u8], data: &[u8]) -> (r: [u8; 32])
    ensures
        r@ == hmac_sha256_of(key@, data@),
{
    let mut mac = <Hmac<Sha256> as Mac>::new_from_slice(key).expect("keys of any length");
    mac.update(data);
    mac.finalize().into_bytes().into()
}

/// Relies on `Mac::verify_slice` of `Hmac<Sha256>`: a constant-time comparison
/// of `tag` with the tag of `data` under `key`.
#[verifier::external_body]
fn hmac_sha256_verify(key: &[u8], data: &[u8], tag: &[u8; 32]) -> (r: bool)
    ensures
        r == (tag@ == hmac_sha256_of(key@, data@)),
{
    let mut mac = <Hmac<Sha256> as Mac>::new_from_slice(key).expect("keys of any length");
    mac.update(data);
    mac.verify_slice(tag).is_ok()
}

/// A USIG signature of the HMAC backend: the counter and the tag.
#[derive(Clone, Copy, Debug)]
pub struct Signature {
    counter: u64,
    signature: [u8; 32],
}

impl Signature {
    /// The signature carrying `counter` and `tag`.
    pub fn new(counter: u64, tag: [u8; 32]) -> (r: Signature)
        ensures
            r.count() == counter,
            r.tag_view() == tag@,
    {
        Signature { counter, signature: tag }
    }

    /// The tag this signature carries.
    pub closed spec fn tag_view(&self) -> Seq<u8> {
        self.signature@
    }

    /// The tag this signature carries.
    pub fn tag(&self) -> (r: [u8; 32])
        ensures
            r@ == self.tag_view(),
    {
        self.signature
    }
}

impl Counter for Signature {
    closed spec fn count(&self) -> u64 {
        self.counter
    }

    fn counter(&self) -> (r: Count) {
        Count(self.counter)
    }
}

/// The tag a holder of `key` computes for `message` under `counter`.
pub open spec fn tag_for(key: Seq<u8>, counter: u64, message: Seq<u8>) -> Seq<u8> {
    hmac_sha256_of(key, composite(counter, message))
}

/// A signature verified under a key other than the one that made it fails
/// unless the two keys give the same tag for the signed data.
pub proof fn lemma_wrong_key(
    signer: UsigHmacSignHalf,
    verifier: UsigHmacVerifyHalf,
    id: ReplicaId,
    message: Seq<u8>,
    sig: Signature,
)
    requires
        signer.issues(message, sig),
        verifier.parties().contains_key(id.0),
        tag_for(verifier.parties()[id.0], sig.count(), message) != tag_for(
            signer.attestation()@,
            sig.count(),
            message,
        ),
    ensures
        outcome(verifier, id, message, sig) == Err::<(), UsigError>(UsigError::InvalidSignature),
{
}

/// A signature verified against a message other than the signed one fails
/// unless the key gives the same tag for both.
pub proof fn lemma_wrong_message(
    signer: UsigHmacSignHalf,
    verifier: UsigHmacVerifyHalf,
    id: ReplicaId,
    message: Seq<u8>,
    other: Seq<u8>,
    sig: Signature,
)
    requires
        signer.issues(message, sig),
        verifier.parties().contains_key(id.0),
        verifier.parties()[id.0] == signer.attestation()@,
        tag_for(signer.attestation()@, sig.count(), other) != tag_for(
            signer.attestation()@,
            sig.count(),
            message,
        ),
    ensures
        outcome(verifier, id, other, sig) == Err::<(), UsigError>(UsigError::InvalidSignature),
{
}

/// The signing half: the counter and the shared key.
#[derive(Debug)]
pub struct UsigHmacSignHalf {
    counter: u64,
    key: Vec<u8>,
}

impl UsigHmacSignHalf {
    /// A signing half with counter zero that tags with `key`.
    pub fn try_new(key: Vec<u8>) -> (r: Result<UsigHmacSignHalf, InvalidLength>)
        ensures
            r is Ok,
            r matches Ok(h) && h.next_count() == 0 && h.attestation()@ == key@,
    {
        match check_key(key.as_slice()) {
            Ok(()) => Ok(UsigHmacSignHalf { counter: 0, key }),
            Err(e) => Err(e),
        }
    }
}

impl SignHalf for UsigHmacSignHalf {
    type Signature = Signature;

    type Attestation = Vec<u8>;

    closed spec fn next_count(&self) -> u64 {
        self.counter
    }

    closed spec fn attestation(&self) -> Vec<u8> {
        self.key
    }

    open spec fn issues(&self, message: Seq<u8>, sig: Signature) -> bool {
        sig.tag_view() == tag_for(self.attestation()@, sig.count(), message)
    }

    open spec fn consistent(&self) -> bool {
        true
    }

    fn sign(&mut self, message: &[u8]) -> (r: Result<Signature, UsigError>) {
        if self.counter == u64::MAX {
            return Err(UsigError::SigningFailed);
        }
        let counter = self.counter;
        self.counter = counter + 1;
        let data = authenticated_input(counter, message);
        let tag = hmac_sha256_tag(self.key.as_slice(), data.as_slice());
        Ok(Signature { counter, signature: tag })
    }

    fn attest(&mut self) -> (r: Result<Vec<u8>, UsigError>) {
        let key = self.key.clone();
        assert(key@ =~= self.key@);
        Ok(key)
    }
}

/// The verifying half: the shared key of each enrolled party.
#[derive(Debug)]
pub struct UsigHmacVerifyHalf {
    other_keys: HashMap<u64, Vec<u8>>,
}

impl Default for UsigHmacVerifyHalf {
    fn default() -> (r: UsigHmacVerifyHalf)
        ensures
            r.parties() == Map::<u64, Seq<u8>>::empty(),
    {
        let r = UsigHmacVerifyHalf { other_keys: HashMap::new() };
        assert(r.parties() =~= Map::<u64, Seq<u8>>::empty());
        r
    }
}

impl VerifyHalf for UsigHmacVerifyHalf {
    type Signature = Signature;

    type Attestation = Vec<u8>;

    closed spec fn parties(&self) -> Map<u64, Seq<u8>> {
        self.other_keys@.map_values(|k: Vec<u8>| k@)
    }

    open spec fn admits(attestation: Seq<u8>) -> bool {
        true
    }

    open spec fn accepts(attestation: Seq<u8>, message: Seq<u8>, sig: Signature) -> bool {
        sig.tag_view() == tag_for(attestation, sig.count(), message)
    }

    fn verify(&self, id: ReplicaId, message: &[u8], signature: &Signature) -> (r: Result<
        (),
        UsigError,
    >) {
        match self.other_keys.get(&id.0) {
            Some(key) => {
                let data = authenticated_input(signature.counter, message);
                if hmac_sha256_verify(key.as_slice(), data.as_slice(), &signature.signature) {
                    Ok(())
                } else {
                    Err(UsigError::InvalidSignature)
                }
            },
            None => Err(UsigError::UnknownId(id)),
        }
    }

    fn add_remote_party(&mut self, id: ReplicaId, attestation: Vec<u8>) -> (r: bool) {
        match check_key(attestation.as_slice()) {
            Ok(()) => {
                let ghost before = self.parties();
                let ghost key = attestation@;
                self.other_keys.insert(id.0, attestation);
                assert(self.parties() =~= before.insert(id.0, key));
                true
            },
            Err(_) => false,
        }
    }
}

/// An HMAC-SHA-256 USIG: one signing half and one verifying half.
#[derive(Debug)]
pub struct UsigHmac {
    sign_half: UsigHmacSignHalf,
    verify_half: UsigHmacVerifyHalf,
}

impl UsigHmac {
    /// A USIG with counter zero that tags with `key` and has nobody enrolled.
    pub fn try_new(key: Vec<u8>) -> (r: Result<UsigHmac, InvalidLength>)
        ensures
            r is Ok,
            r matches Ok(u) && u.sign_half().next_count() == 0 && u.sign_half().attestation()@
                == key@ && u.verify_half().parties() == Map::<u64, Seq<u8>>::empty(),
    {
        match UsigHmacSignHalf::try_new(key) {
            Ok(sign_half) => Ok(UsigHmac { sign_half, verify_half: UsigHmacVerifyHalf::default() }),
            Err(e) => Err(e),
        }
    }
}

impl Usig for UsigHmac {
    type Signature = Signature;

    type Attestation = Vec<u8>;

    type SignHalf = UsigHmacSignHalf;

    type VerifyHalf = UsigHmacVerifyHalf;

    closed spec fn sign_half(&self) -> UsigHmacSignHalf {
        self.sign_half
    }

    closed spec fn verify_half(&self) -> UsigHmacVerifyHalf {
        self.verify_half
    }

    proof fn lemma_issued_accepted(signer: UsigHmacSignHalf, message: Seq<u8>, sig: Signature) {
    }

    fn sign(&mut self, message: &[u8]) -> (r: Result<Signature, UsigError>) {
        self.sign_half.sign(message)
    }

    fn attest(&mut self) -> (r: Result<Vec<u8>, UsigError>) {
        self.sign_half.attest()
    }

    fn verify(&self, id: ReplicaId, message: &[u8], signature: &Signature) -> (r: Result<
        (),
        UsigError,
    >) {
        self.verify_half.verify(id, message, signature)
    }

    fn add_remote_party(&mut self, id: ReplicaId, attestation: Vec<u8>) -> (r: bool) {
        self.verify_half.add_remote_party(id, attestation)
    }

    fn split(self) -> (r: (UsigHmacSignHalf, UsigHmacVerifyHalf)) {
        (self.sign_half, self.verify_half)
    }
}

} // verus!
