//! A proof that two points have one discrete logarithm to two bases.
//!
//! The prover knows `k` with `R̂ = k·G` and `R = k·Y`. It commits to
//! `T₁ = t·G` and `T₂ = t·Y`, takes the challenge `c` from a hash of the five
//! points, and answers `z = t + c·k`. The proof is `(c, z)`: the verifier
//! rebuilds `T₁ = z·G - c·R̂` and `T₂ = z·Y - c·R` and hashes again.

use vstd::prelude::*;
use crate::arith::{
    add_mod, lemma_add_mod_assoc, lemma_add_mod_zero, lemma_mod_range, lemma_mul_mod_assoc,
    lemma_mul_mod_comm, lemma_mul_mod_distributes, lemma_mul_mod_neg, lemma_mul_mod_range,
    lemma_neg_mod, mul_mod, neg_mod, order,
};
use crate::bytes::be_value;
use crate::hash::{sha256, sha256_digest};
use crate::secp256k1::{generator_multiple, PublicKey, Scalar, SecretKey};

verus! {

/// A proof as a pair of residues.
pub struct ProofView {
    pub challenge: nat,
    pub response: nat,
}

/// A proof that two points have one discrete logarithm to two bases.
#[derive(Clone, Copy, Debug)]
pub struct Proof {
    challenge: Scalar,
    response: Scalar,
}

impl View for Proof {
    type V = ProofView;

    closed spec fn view(&self) -> ProofView {
        ProofView { challenge: self.challenge@, response: self.response@ }
    }
}

/// The proof `(c, z)`.
pub open spec fn proof_of(challenge: nat, response: nat) -> ProofView {
    ProofView { challenge, response }
}

/// What is hashed for the challenge: the encodings of the base, of the two
/// points of the statement and of the two commitments, each given by its
/// discrete logarithm.
pub open spec fn transcript(y: nat, r_hat: nat, r: nat, t1: nat, t2: nat) -> Seq<u8> {
    generator_multiple(y) + generator_multiple(r_hat) + generator_multiple(r) + generator_multiple(
        t1,
    ) + generator_multiple(t2)
}

/// The challenge: the digest of the transcript, reduced modulo the order.
pub open spec fn challenge(y: nat, r_hat: nat, r: nat, t1: nat, t2: nat) -> nat {
    be_value(sha256_digest(transcript(y, r_hat, r, t1, t2))) % order()
}

/// The proof that the holder of `k` makes with the nonce `t`, for the base
/// `y·G`.
pub open spec fn proof_with(k: nat, y: nat, t: nat) -> ProofView {
    let c = challenge(y, k, mul_mod(y, k), t, mul_mod(y, t));
    proof_of(c, add_mod(t, mul_mod(c, k)))
}

/// The first commitment as the verifier rebuilds it.
pub open spec fn rebuilt_first(r_hat: nat, proof: ProofView) -> nat {
    add_mod(proof.response, mul_mod(neg_mod(proof.challenge), r_hat))
}

/// The second commitment as the verifier rebuilds it.
pub open spec fn rebuilt_second(y: nat, r: nat, proof: ProofView) -> nat {
    add_mod(mul_mod(proof.response, y), mul_mod(neg_mod(proof.challenge), r))
}

/// What the verifier checks: neither rebuilt commitment is the point at
/// infinity, and they hash to the challenge.
pub open spec fn accepts(y: nat, r_hat: nat, r: nat, proof: ProofView) -> bool {
    let t1 = rebuilt_first(r_hat, proof);
    let t2 = rebuilt_second(y, r, proof);
    &&& t1 != 0
    &&& t2 != 0
    &&& challenge(y, r_hat, r, t1, t2) == proof.challenge
}

/// The verifier rebuilds the commitments of an honest proof.
pub proof fn lemma_rebuilds(k: nat, y: nat, t: nat)
    requires
        t < order(),
    ensures
        rebuilt_first(k, proof_with(k, y, t)) == t,
        rebuilt_second(y, mul_mod(y, k), proof_with(k, y, t)) == mul_mod(y, t),
{
    let proof = proof_with(k, y, t);
    let c = proof.challenge;
    let ck = mul_mod(c, k);
    // z - c k = (t + c k) - c k = t
    lemma_mul_mod_neg(c, k);
    lemma_neg_mod(ck);
    lemma_add_mod_assoc(t, ck, neg_mod(ck));
    lemma_add_mod_zero(t);
    lemma_mod_range(t);
    // z y - c (y k) = t y + c k y - c y k = t y
    let cyk = mul_mod(c, mul_mod(y, k));
    lemma_mul_mod_distributes(y, t, ck);
    lemma_mul_mod_comm(t, y);
    lemma_mul_mod_comm(ck, y);
    lemma_mul_mod_assoc(c, k, y);
    lemma_mul_mod_comm(k, y);
    lemma_mul_mod_neg(c, mul_mod(y, k));
    lemma_neg_mod(cyk);
    lemma_add_mod_assoc(mul_mod(y, t), cyk, neg_mod(cyk));
    lemma_add_mod_zero(mul_mod(y, t));
    lemma_mul_mod_range(y, t);
    lemma_mod_range(mul_mod(y, t));
}

/// Every honest proof is accepted.
pub proof fn lemma_complete(k: nat, y: nat, t: nat)
    requires
        0 < t < order(),
        mul_mod(y, t) != 0,
    ensures
        accepts(y, k, mul_mod(y, k), proof_with(k, y, t)),
{
    lemma_rebuilds(k, y, t);
}

/// The challenge for five points.
fn challenge_for(
    base: &PublicKey,
    r_hat: &PublicKey,
    r: &PublicKey,
    t1: &PublicKey,
    t2: &PublicKey,
) -> (c: Scalar)
    ensures
        c@ == challenge(base@, r_hat@, r@, t1@, t2@),
{
    proof {
        use_type_invariant(base);
        use_type_invariant(r_hat);
        use_type_invariant(r);
        use_type_invariant(t1);
        use_type_invariant(t2);
        base.lemma_valid();
        r_hat.lemma_valid();
        r.lemma_valid();
        t1.lemma_valid();
        t2.lemma_valid();
    }
    let mut data: Vec<u8> = Vec::new();
    data.extend_from_slice(base.to_bytes().as_slice());
    data.extend_from_slice(r_hat.to_bytes().as_slice());
    data.extend_from_slice(r.to_bytes().as_slice());
    data.extend_from_slice(t1.to_bytes().as_slice());
    data.extend_from_slice(t2.to_bytes().as_slice());
    assert(data@ =~= transcript(base@, r_hat@, r@, t1@, t2@));
    Scalar::from_bytes_reduced(sha256(data.as_slice()))
}

impl Proof {
    /// The proof with this challenge and this response.
    pub fn new(challenge: Scalar, response: Scalar) -> (proof: Proof)
        ensures
            proof@ == proof_of(challenge@, response@),
    {
        Proof { challenge, response }
    }

    pub fn challenge(&self) -> (c: Scalar)
        ensures
            c@ == self@.challenge,
    {
        self.challenge
    }

    pub fn response(&self) -> (z: Scalar)
        ensures
            z@ == self@.response,
    {
        self.response
    }
}

/// Proves that `k·G` and `k·base` have one discrete logarithm, with the
/// nonce `t`.
pub fn prove(k: &SecretKey, base: &PublicKey, t: &SecretKey) -> (proof: Proof)
    ensures
        proof@ == proof_with(k@, base@, t@),
        accepts(base@, k@, mul_mod(base@, k@), proof@),
{
    let r_hat = PublicKey::from_secret_key(k);
    let r = base.times(k);
    let t1 = PublicKey::from_secret_key(t);
    let t2 = base.times(t);
    let c = challenge_for(base, &r_hat, &r, &t1, &t2);
    let z = t.to_scalar().plus(&c.times(&k.to_scalar()));
    proof {
        use_type_invariant(t);
        use_type_invariant(t2);
        t.lemma_nonzero();
        t2.lemma_valid();
        lemma_complete(k@, base@, t@);
    }
    Proof { challenge: c, response: z }
}

/// Checks a proof that `r_hat` to the generator and `r` to `base` have one
/// discrete logarithm.
pub fn verify(base: &PublicKey, r_hat: &PublicKey, r: &PublicKey, proof: &Proof) -> (ok: bool)
    ensures
        ok == accepts(base@, r_hat@, r@, proof@),
{
    let minus_c = proof.challenge.negate();
    let first = PublicKey::sum(
        PublicKey::generator_scaled(&proof.response),
        r_hat.scaled(&minus_c),
    );
    let second = PublicKey::sum(base.scaled(&proof.response), r.scaled(&minus_c));
    match (first, second) {
        (Some(t1), Some(t2)) => {
            let c = challenge_for(base, r_hat, r, &t1, &t2);
            c.eq(&proof.challenge)
        },
        _ => false,
    }
}

} // verus!
