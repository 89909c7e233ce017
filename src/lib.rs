//! Unique Sequential Identifier Generators (USIG): signing services whose every
//! signature binds a strictly increasing counter value to the signed message.

pub mod laws;
pub mod mac;
pub mod noop;
pub mod signature;

use vstd::prelude::*;

verus! {

/// A USIG signature counter value.
#[derive(Debug, Clone, Copy, PartialEq, Eq, Structural, PartialOrd, Ord, Default, Hash)]
pub struct Count(pub u64);

impl core::ops::Add<u64> for Count {
    type Output = Count;

    fn add(self, rhs: u64) -> (r: Count) {
        Count(self.0 + rhs)
    }
}

impl vstd::std_specs::ops::AddSpecImpl<u64> for Count {
    open spec fn obeys_add_spec() -> bool {
        true
    }

    open spec fn add_req(self, rhs: u64) -> bool {
        self.0 + rhs <= u64::MAX
    }

    open spec fn add_spec(self, rhs: u64) -> Count {
        Count((self.0 + rhs) as u64)
    }
}

impl core::ops::AddAssign<u64> for Count {
    /// Advances the count by `rhs`, wrapping around at `u64::MAX`.
    fn add_assign(&mut self, rhs: u64)
        ensures
            final(self).0 == (old(self).0 + rhs) % 0x1_0000_0000_0000_0000,
    {
        self.0 = self.0.wrapping_add(rhs);
    }
}

/// The identifier under which a remote party is enrolled.
#[derive(Debug, Clone, Copy, PartialEq, Eq, Structural, PartialOrd, Ord, Hash)]
pub struct ReplicaId(pub u64);

impl ReplicaId {
    /// The first replica id, zero.
    pub fn first() -> (r: ReplicaId)
        ensures
            r.0 == 0,
    {
        ReplicaId(0)
    }

    pub fn from_u64(id: u64) -> (r: ReplicaId)
        ensures
            r.0 == id,
    {
        ReplicaId(id)
    }

    pub fn as_u64(&self) -> (r: u64)
        ensures
            r == self.0,
    {
        self.0
    }
}

/// The ways a USIG operation can fail.
#[derive(Debug, Clone, Copy, PartialEq, Eq, Structural)]
pub enum UsigError {
    /// No party is enrolled under this id.
    UnknownId(ReplicaId),
    /// The enrolled material does not validate the signature over the message.
    InvalidSignature,
    /// The signer cannot produce an attestation.
    RemoteAttestationFailed,
    /// The signer refused to sign.
    SigningFailed,
}

/// The outcome of a verification: `UnknownId` when nothing is enrolled under
/// `id`, else `Ok` exactly when the enrolled material accepts the signature.
pub open spec fn verdict(id: ReplicaId, enrolled: bool, accepted: bool) -> Result<(), UsigError> {
    if !enrolled {
        Err(UsigError::UnknownId(id))
    } else if accepted {
        Ok(())
    } else {
        Err(UsigError::InvalidSignature)
    }
}

/// The eight bytes of `c`, most significant first.
pub open spec fn be_bytes(c: u64) -> Seq<u8> {
    seq![
        #[verifier::truncate] ((c >> 56u64) as u8),
        #[verifier::truncate] ((c >> 48u64) as u8),
        #[verifier::truncate] ((c >> 40u64) as u8),
        #[verifier::truncate] ((c >> 32u64) as u8),
        #[verifier::truncate] ((c >> 24u64) as u8),
        #[verifier::truncate] ((c >> 16u64) as u8),
        #[verifier::truncate] ((c >> 8u64) as u8),
        #[verifier::truncate] (c as u8),
    ]
}

/// What a signer authenticates: the big-endian counter followed by the message.
pub open spec fn composite(counter: u64, message: Seq<u8>) -> Seq<u8> {
    be_bytes(counter) + message
}

/// Builds `big_endian(counter) ‖ message`.
pub fn authenticated_input(counter: u64, message: &[u8]) -> (r: Vec<u8>)
    ensures
        r@ == composite(counter, message@),
{
    let mut data: Vec<u8> = Vec::new();
    data.push(#[verifier::truncate] ((counter >> 56u64) as u8));
    data.push(#[verifier::truncate] ((counter >> 48u64) as u8));
    data.push(#[verifier::truncate] ((counter >> 40u64) as u8));
    data.push(#[verifier::truncate] ((counter >> 32u64) as u8));
    data.push(#[verifier::truncate] ((counter >> 24u64) as u8));
    data.push(#[verifier::truncate] ((counter >> 16u64) as u8));
    data.push(#[verifier::truncate] ((counter >> 8u64) as u8));
    data.push(#[verifier::truncate] (counter as u8));
    assert(data@ =~= be_bytes(counter));
    let mut i: usize = 0;
    while i < message.len()
        invariant
            0 <= i <= message@.len(),
            data@ =~= be_bytes(counter) + message@.subrange(0, i as int),
        decreases message@.len() - i,
    {
        data.push(message[i]);
        i = i + 1;
    }
    assert(message@.subrange(0, message@.len() as int) =~= message@);
    data
}

/// Retrieval of the counter value from a USIG signature.
pub trait Counter {
    /// The counter value this signature carries.
    spec fn count(&self) -> u64;

    /// Get the counter value of this USIG signature.
    fn counter(&self) -> (r: Count)
        ensures
            r.0 == self.count(),
    ;
}

/// The signing half of a split USIG service.
pub trait SignHalf: Sized {
    /// The type of the USIG signature.
    type Signature: Counter;

    /// The type of a remote attestation.
    type Attestation: View;

    /// The counter value that the next signature will carry.
    spec fn next_count(&self) -> u64;

    /// The attestation this signer hands out.
    spec fn attestation(&self) -> Self::Attestation;

    /// Whether `sig` is this signer's authentication of `message` under the
    /// counter value that `sig` carries.
    spec fn issues(&self, message: Seq<u8>, sig: Self::Signature) -> bool;

    /// Whether the attestation belongs to the signing material.
    spec fn consistent(&self) -> bool;

    /// Sign a message with a USIG signature. Once the counter has reached
    /// `u64::MAX` every call fails with `SigningFailed` and changes nothing.
    fn sign(&mut self, message: &[u8]) -> (r: Result<Self::Signature, UsigError>)
        ensures
            r is Ok <==> old(self).next_count() < u64::MAX,
            match r {
                Ok(s) => {
                    &&& s.count() == old(self).next_count()
                    &&& old(self).issues(message@, s)
                    &&& final(self).next_count() == old(self).next_count() + 1
                },
                Err(e) => {
                    &&& e == UsigError::SigningFailed
                    &&& final(self).next_count() == old(self).next_count()
                },
            },
            final(self).attestation() == old(self).attestation(),
            final(self).consistent() == old(self).consistent(),
            forall|m: Seq<u8>, s: Self::Signature| #[trigger]
                final(self).issues(m, s) == old(self).issues(m, s),
    ;

    /// Get the remote attestation of this USIG; the state is left unchanged.
    fn attest(&mut self) -> (r: Result<Self::Attestation, UsigError>)
        ensures
            r is Ok,
            r matches Ok(a) && a@ == old(self).attestation()@,
            *final(self) == *old(self),
    ;
}

/// The verifying half of a split USIG service.
pub trait VerifyHalf: Sized {
    /// The type of the USIG signature.
    type Signature: Counter;

    /// The type of a remote attestation.
    type Attestation: View;

    /// The enrolled parties: the attestation installed under each id.
    spec fn parties(&self) -> Map<u64, <Self::Attestation as View>::V>;

    /// Whether an attestation yields a usable verifier.
    spec fn admits(attestation: <Self::Attestation as View>::V) -> bool;

    /// Whether the material of an attestation validates `sig` over `message`.
    spec fn accepts(
        attestation: <Self::Attestation as View>::V,
        message: Seq<u8>,
        sig: Self::Signature,
    ) -> bool;

    /// Verify the USIG signature of a message, against what is enrolled under `id`.
    fn verify(&self, id: ReplicaId, message: &[u8], signature: &Self::Signature) -> (r: Result<
        (),
        UsigError,
    >)
        ensures
            r == verdict(
                id,
                self.parties().contains_key(id.0),
                self.parties().contains_key(id.0) && Self::accepts(
                    self.parties()[id.0],
                    message@,
                    *signature,
                ),
            ),
    ;

    /// Load a remote attestation of a remote USIG and enroll it under `id`,
    /// replacing what was enrolled there; a rejected attestation changes nothing.
    fn add_remote_party(&mut self, id: ReplicaId, attestation: Self::Attestation) -> (r: bool)
        ensures
            r == Self::admits(attestation@),
            final(self).parties() == if r {
                old(self).parties().insert(id.0, attestation@)
            } else {
                old(self).parties()
            },
    ;
}

/// A USIG service: one signing half and one verifying half, to which every
/// operation is handed on.
pub trait Usig: Sized {
    /// The type of the USIG signature.
    type Signature: Counter;

    /// The type of a remote attestation.
    type Attestation: View;

    /// Type of the signing half.
    type SignHalf: SignHalf<Signature = Self::Signature, Attestation = Self::Attestation>;

    /// Type of the verifying half.
    type VerifyHalf: VerifyHalf<Signature = Self::Signature, Attestation = Self::Attestation>;

    /// The signing half this service holds.
    spec fn sign_half(&self) -> Self::SignHalf;

    /// The verifying half this service holds.
    spec fn verify_half(&self) -> Self::VerifyHalf;

    /// What the signing half issues, the verifying half accepts under the
    /// signer's attestation.
    proof fn lemma_issued_accepted(signer: Self::SignHalf, message: Seq<u8>, sig: Self::Signature)
        requires
            signer.consistent(),
            signer.issues(message, sig),
        ensures
            <Self::VerifyHalf as VerifyHalf>::admits(signer.attestation()@),
            <Self::VerifyHalf as VerifyHalf>::accepts(signer.attestation()@, message, sig),
    ;

    /// Sign a message with a USIG signature.
    fn sign(&mut self, message: &[u8]) -> (r: Result<Self::Signature, UsigError>)
        ensures
            final(self).verify_half() == old(self).verify_half(),
            r is Ok <==> old(self).sign_half().next_count() < u64::MAX,
            match r {
                Ok(s) => {
                    &&& s.count() == old(self).sign_half().next_count()
                    &&& old(self).sign_half().issues(message@, s)
                    &&& final(self).sign_half().next_count() == old(self).sign_half().next_count()
                        + 1
                },
                Err(e) => {
                    &&& e == UsigError::SigningFailed
                    &&& final(self).sign_half().next_count() == old(self).sign_half().next_count()
                },
            },
            final(self).sign_half().attestation() == old(self).sign_half().attestation(),
            final(self).sign_half().consistent() == old(self).sign_half().consistent(),
            forall|m: Seq<u8>, s: Self::Signature| #[trigger]
                final(self).sign_half().issues(m, s) == old(self).sign_half().issues(m, s),
    ;

    /// Get the remote attestation of this USIG; the state is left unchanged.
    fn attest(&mut self) -> (r: Result<Self::Attestation, UsigError>)
        ensures
            r is Ok,
            r matches Ok(a) && a@ == old(self).sign_half().attestation()@,
            *final(self) == *old(self),
    ;

    /// Verify the USIG signature of a message.
    fn verify(&self, id: ReplicaId, message: &[u8], signature: &Self::Signature) -> (r: Result<
        (),
        UsigError,
    >)
        ensures
            r == verdict(
                id,
                self.verify_half().parties().contains_key(id.0),
                self.verify_half().parties().contains_key(id.0) && <Self::VerifyHalf as VerifyHalf>::accepts(
                    self.verify_half().parties()[id.0],
                    message@,
                    *signature,
                ),
            ),
    ;

    /// Load a remote attestation of a remote USIG and add the remote party.
    fn add_remote_party(&mut self, id: ReplicaId, attestation: Self::Attestation) -> (r: bool)
        ensures
            final(self).sign_half() == old(self).sign_half(),
            r == <Self::VerifyHalf as VerifyHalf>::admits(attestation@),
            final(self).verify_half().parties() == if r {
                old(self).verify_half().parties().insert(id.0, attestation@)
            } else {
                old(self).verify_half().parties()
            },
    ;

    /// Split the USIG into its signing and verifying halves.
    fn split(self) -> (r: (Self::SignHalf, Self::VerifyHalf))
        ensures
            r.0 == self.sign_half(),
            r.1 == self.verify_half(),
    ;
}

} // verus!
