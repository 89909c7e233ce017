//! Laws that every USIG backend obeys, stated over the spec functions of the
//! signing and verifying halves. The composed services state their operations
//! over the same halves, so each law holds for them as for split halves.
use vstd::prelude::*;

use crate::{verdict, Counter, ReplicaId, SignHalf, Usig, UsigError, VerifyHalf};

verus! {

/// What `verify` returns on `verifier` for `id`, `message` and `sig`.
pub open spec fn outcome<V: VerifyHalf>(
    verifier: V,
    id: ReplicaId,
    message: Seq<u8>,
    sig: V::Signature,
) -> Result<(), UsigError> {
    verdict(
        id,
        verifier.parties().contains_key(id.0),
        verifier.parties().contains_key(id.0) && V::accepts(
            verifier.parties()[id.0],
            message,
            sig,
        ),
    )
}

/// Two signatures issued one after the other carry consecutive counter values,
/// whatever the messages were.
pub proof fn lemma_consecutive_counts<S: SignHalf>(
    first: S::Signature,
    second: S::Signature,
    before: S,
    between: S,
)
    requires
        first.count() == before.next_count(),
        between.next_count() == before.next_count() + 1,
        second.count() == between.next_count(),
    ensures
        second.count() == first.count() + 1,
{
}

/// A signature that a signer issued for a message verifies at every id under
/// which a verifier has enrolled that signer's attestation.
pub proof fn lemma_round_trip<U: Usig>(
    signer: U::SignHalf,
    verifier: U::VerifyHalf,
    id: ReplicaId,
    message: Seq<u8>,
    sig: U::Signature,
)
    requires
        signer.consistent(),
        signer.issues(message, sig),
        verifier.parties().contains_key(id.0),
        verifier.parties()[id.0] == signer.attestation()@,
    ensures
        outcome(verifier, id, message, sig) == Ok::<(), UsigError>(()),
{
    U::lemma_issued_accepted(signer, message, sig);
}

/// The round trip holds for the empty message too.
pub proof fn lemma_round_trip_empty<U: Usig>(
    signer: U::SignHalf,
    verifier: U::VerifyHalf,
    id: ReplicaId,
    sig: U::Signature,
)
    requires
        signer.consistent(),
        signer.issues(Seq::<u8>::empty(), sig),
        verifier.parties().contains_key(id.0),
        verifier.parties()[id.0] == signer.attestation()@,
    ensures
        outcome(verifier, id, Seq::<u8>::empty(), sig) == Ok::<(), UsigError>(()),
{
    lemma_round_trip::<U>(signer, verifier, id, Seq::<u8>::empty(), sig);
}

/// Verifying under an id that nobody is enrolled under yields `UnknownId` of
/// that id, whatever the message and signature.
pub proof fn lemma_unknown_id<V: VerifyHalf>(
    verifier: V,
    id: ReplicaId,
    message: Seq<u8>,
    sig: V::Signature,
)
    requires
        !verifier.parties().contains_key(id.0),
    ensures
        outcome(verifier, id, message, sig) == Err::<(), UsigError>(UsigError::UnknownId(id)),
{
}

/// A signature of the party enrolled under `i`, verified under another id `j`,
/// yields `UnknownId(j)` when nobody is enrolled under `j`, and
/// `InvalidSignature` when the party enrolled under `j` does not accept it.
pub proof fn lemma_wrong_id<U: Usig>(
    signer: U::SignHalf,
    verifier: U::VerifyHalf,
    i: ReplicaId,
    j: ReplicaId,
    message: Seq<u8>,
    sig: U::Signature,
)
    requires
        i.0 != j.0,
        signer.consistent(),
        signer.issues(message, sig),
        verifier.parties().contains_key(i.0),
        verifier.parties()[i.0] == signer.attestation()@,
    ensures
        outcome(verifier, i, message, sig) == Ok::<(), UsigError>(()),
        !verifier.parties().contains_key(j.0) ==> outcome(verifier, j, message, sig) == Err::<
            (),
            UsigError,
        >(UsigError::UnknownId(j)),
        verifier.parties().contains_key(j.0) && !<U::VerifyHalf as VerifyHalf>::accepts(
            verifier.parties()[j.0],
            message,
            sig,
        ) ==> outcome(verifier, j, message, sig) == Err::<(), UsigError>(
            UsigError::InvalidSignature,
        ),
{
    lemma_round_trip::<U>(signer, verifier, i, message, sig);
}

/// A signature that the material enrolled under `id` does not accept (another
/// signer's, or one over another message) yields `InvalidSignature`.
pub proof fn lemma_rejected<V: VerifyHalf>(
    verifier: V,
    id: ReplicaId,
    message: Seq<u8>,
    sig: V::Signature,
)
    requires
        verifier.parties().contains_key(id.0),
        !V::accepts(verifier.parties()[id.0], message, sig),
    ensures
        outcome(verifier, id, message, sig) == Err::<(), UsigError>(UsigError::InvalidSignature),
{
}

/// Enrolling `y` under an id where `x` was enrolled replaces `x`: signatures of
/// `x` that `y` does not accept now fail, those of `y` verify; enrolling `x`
/// again restores the first verdicts.
pub proof fn lemma_overwrite<U: Usig>(
    x: U::SignHalf,
    y: U::SignHalf,
    v1: U::VerifyHalf,
    v2: U::VerifyHalf,
    v3: U::VerifyHalf,
    id: ReplicaId,
    message_x: Seq<u8>,
    sig_x: U::Signature,
    message_y: Seq<u8>,
    sig_y: U::Signature,
)
    requires
        x.consistent(),
        y.consistent(),
        x.issues(message_x, sig_x),
        y.issues(message_y, sig_y),
        !<U::VerifyHalf as VerifyHalf>::accepts(y.attestation()@, message_x, sig_x),
        !<U::VerifyHalf as VerifyHalf>::accepts(x.attestation()@, message_y, sig_y),
        v1.parties().contains_key(id.0),
        v1.parties()[id.0] == x.attestation()@,
        v2.parties() == v1.parties().insert(id.0, y.attestation()@),
        v3.parties() == v2.parties().insert(id.0, x.attestation()@),
    ensures
        outcome(v1, id, message_x, sig_x) == Ok::<(), UsigError>(()),
        outcome(v1, id, message_y, sig_y) == Err::<(), UsigError>(UsigError::InvalidSignature),
        outcome(v2, id, message_x, sig_x) == Err::<(), UsigError>(UsigError::InvalidSignature),
        outcome(v2, id, message_y, sig_y) == Ok::<(), UsigError>(()),
        outcome(v3, id, message_x, sig_x) == Ok::<(), UsigError>(()),
        outcome(v3, id, message_y, sig_y) == Err::<(), UsigError>(UsigError::InvalidSignature),
{
    U::lemma_issued_accepted(x, message_x, sig_x);
    U::lemma_issued_accepted(y, message_y, sig_y);
}

/// A signature made before the signer attested or anybody enrolled it verifies
/// once its attestation, taken after signing, is enrolled.
pub proof fn lemma_attest_after_sign<U: Usig>(
    before: U::SignHalf,
    after: U::SignHalf,
    verifier: U::VerifyHalf,
    id: ReplicaId,
    message: Seq<u8>,
    sig: U::Signature,
)
    requires
        before.consistent(),
        before.issues(message, sig),
        after.attestation() == before.attestation(),
        verifier.parties().contains_key(id.0),
        verifier.parties()[id.0] == after.attestation()@,
    ensures
        outcome(verifier, id, message, sig) == Ok::<(), UsigError>(()),
{
    lemma_round_trip::<U>(before, verifier, id, message, sig);
}

} // verus!
