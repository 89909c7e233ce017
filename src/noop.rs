//! A USIG without cryptography: every signature verifies for every enrolled
//! party. It keeps the counter and enrollment rules of the real backends.
use std::collections::HashSet;

use vstd::prelude::*;

use crate::{Count, Counter, ReplicaId, SignHalf, Usig, UsigError, VerifyHalf};

verus! {

broadcast use vstd::std_specs::hash::group_hash_axioms;

/// A signature that carries only its counter value.
#[derive(Clone, Copy, Debug)]
pub struct Signature(u64);

impl Signature {
    /// A signature carrying `counter`, made without any signer.
    pub fn fake(counter: u64) -> (r: Signature)
        ensures
            r.count() == counter,
    {
        Signature(counter)
    }
}

impl Counter for Signature {
    closed spec fn count(&self) -> u64 {
        self.0
    }

    fn counter(&self) -> (r: Count) {
        Count(self.0)
    }
}

/// The signing half: a counter and nothing else.
#[derive(Debug)]
pub struct UsigNoOpSignHalf {
    counter: u64,
}

impl Default for UsigNoOpSignHalf {
    fn default() -> (r: UsigNoOpSignHalf)
        ensures
            r.next_count() == 0,
    {
        UsigNoOpSignHalf { counter: 0 }
    }
}

impl SignHalf for UsigNoOpSignHalf {
    type Signature = Signature;

    type Attestation = ();

    closed spec fn next_count(&self) -> u64 {
        self.counter
    }

    open spec fn attestation(&self) -> () {
        ()
    }

    open spec fn issues(&self, message: Seq<u8>, sig: Signature) -> bool {
        true
    }

    open spec fn consistent(&self) -> bool {
        true
    }

    fn sign(&mut self, message: &[u8]) -> (r: Result<Signature, UsigError>) {
        if self.counter == u64::MAX {
            return Err(UsigError::SigningFailed);
        }
        let counter = self.counter;
        self.counter = counter + 1;
        Ok(Signature(counter))
    }

    fn attest(&mut self) -> (r: Result<(), UsigError>) {
        Ok(())
    }
}

/// The verifying half: the set of enrolled ids.
#[derive(Debug)]
pub struct UsigNoOpVerifyHalf {
    ids: HashSet<u64>,
}

impl Default for UsigNoOpVerifyHalf {
    fn default() -> (r: UsigNoOpVerifyHalf)
        ensures
            r.parties() == Map::<u64, ()>::empty(),
    {
        let r = UsigNoOpVerifyHalf { ids: HashSet::new() };
        assert(r.parties() =~= Map::<u64, ()>::empty());
        r
    }
}

impl VerifyHalf for UsigNoOpVerifyHalf {
    type Signature = Signature;

    type Attestation = ();

    closed spec fn parties(&self) -> Map<u64, ()> {
        self.ids@.mk_map(|k: u64| ())
    }

    open spec fn admits(attestation: ()) -> bool {
        true
    }

    open spec fn accepts(attestation: (), message: Seq<u8>, sig: Signature) -> bool {
        true
    }

    fn verify(&self, id: ReplicaId, message: &[u8], signature: &Signature) -> (r: Result<
        (),
        UsigError,
    >) {
        if self.ids.contains(&id.0) {
            Ok(())
        } else {
            Err(UsigError::UnknownId(id))
        }
    }

    fn add_remote_party(&mut self, id: ReplicaId, attestation: ()) -> (r: bool) {
        let ghost before = self.parties();
        self.ids.insert(id.0);
        assert(self.parties() =~= before.insert(id.0, ()));
        true
    }
}

/// A no-op USIG: one signing half and one verifying half.
#[derive(Debug)]
pub struct UsigNoOp {
    sign_half: UsigNoOpSignHalf,
    verify_half: UsigNoOpVerifyHalf,
}

impl Default for UsigNoOp {
    fn default() -> (r: UsigNoOp)
        ensures
            r.sign_half().next_count() == 0,
            r.verify_half().parties() == Map::<u64, ()>::empty(),
    {
        UsigNoOp { sign_half: UsigNoOpSignHalf::default(), verify_half: UsigNoOpVerifyHalf::default() }
    }
}

impl Usig for UsigNoOp {
    type Signature = Signature;

    type Attestation = ();

    type SignHalf = UsigNoOpSignHalf;

    type VerifyHalf = UsigNoOpVerifyHalf;

    closed spec fn sign_half(&self) -> UsigNoOpSignHalf {
        self.sign_half
    }

    closed spec fn verify_half(&self) -> UsigNoOpVerifyHalf {
        self.verify_half
    }

    proof fn lemma_issued_accepted(signer: UsigNoOpSignHalf, message: Seq<u8>, sig: Signature) {
    }

    fn sign(&mut self, message: &[u8]) -> (r: Result<Signature, UsigError>) {
        self.sign_half.sign(message)
    }

    fn attest(&mut self) -> (r: Result<(), UsigError>) {
        self.sign_half.attest()
    }

    fn verify(&self, id: ReplicaId, message: &[u8], signature: &Signature) -> (r: Result<
        (),
        UsigError,
    >) {
        self.verify_half.verify(id, message, signature)
    }

    fn add_remote_party(&mut self, id: ReplicaId, attestation: ()) -> (r: bool) {
        self.verify_half.add_remote_party(id, attestation)
    }

    fn split(self) -> (r: (UsigNoOpSignHalf, UsigNoOpVerifyHalf)) {
        (self.sign_half, self.verify_half)
    }
}

} // verus!
