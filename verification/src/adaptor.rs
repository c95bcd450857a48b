//! ECDSA adaptor signatures: signatures encrypted under a point.
//!
//! An adaptor signature over a digest, by the key `x` and under the point
//! `Y = y·G`, holds the nonce points `R̂ = k·G` and `R = k·Y`, a proof that the
//! two have one discrete logarithm, and `ŝ = k⁻¹·(m + r·x)`, where `r` is the
//! abscissa of `R`. Whoever knows `y` turns it into the ECDSA signature
//! `(r, ŝ·y⁻¹)`; whoever sees both learns `y`.

use vstd::prelude::*;
use crate::arith::{
    add_mod, fold, half_order, inv_mod, invertible, lemma_fold, lemma_mod_range,
    lemma_mul_mod_assoc, lemma_mul_mod_comm, lemma_mul_mod_distributes, lemma_mul_mod_neg,
    lemma_mul_mod_one, lemma_neg_invertible, lemma_neg_mod, lemma_unit, mul_mod, neg_mod, order,
    unit,
};
use crate::dleq;
use crate::ecdsa::{
    ecdsa_accepts, ecdsa_point, lemma_low_form_accepts, message_scalar, pair, Signature,
    SignatureView,
};
use crate::error::Error;
use crate::bytes::{be_value, take32, take33};
use crate::encode::put_bytes;
use crate::secp256k1::{
    abscissa, discrete_log, generator_multiple, is_point, KeyPair, PublicKey, Scalar, SecretKey,
};

verus! {

/// An adaptor signature as residues: the points by their discrete logarithms.
pub struct EncryptedSignatureView {
    pub r: nat,
    pub r_hat: nat,
    pub s_hat: nat,
    pub proof: dleq::ProofView,
}

/// An ECDSA signature encrypted under a point.
#[derive(Clone, Copy, Debug)]
pub struct EncryptedSignature {
    r: PublicKey,
    r_hat: PublicKey,
    s_hat: Scalar,
    proof: dleq::Proof,
}

impl View for EncryptedSignature {
    type V = EncryptedSignatureView;

    closed spec fn view(&self) -> EncryptedSignatureView {
        EncryptedSignatureView {
            r: self.r@,
            r_hat: self.r_hat@,
            s_hat: self.s_hat@,
            proof: self.proof@,
        }
    }
}

/// The adaptor signature with these parts.
pub open spec fn parts(r: nat, r_hat: nat, s_hat: nat, proof: dleq::ProofView)
    -> EncryptedSignatureView {
    EncryptedSignatureView { r, r_hat, s_hat, proof }
}

/// The `r` of the signature that an adaptor signature decrypts to.
pub open spec fn nonce_abscissa(esig: EncryptedSignatureView) -> nat {
    abscissa(fold(esig.r))
}

/// The adaptor signature over `m` by the key `x` under the point `y·G`, made
/// with the nonce `k` and, for the proof, the nonce `t`.
pub open spec fn encsign_with_nonces(m: nat, x: nat, y: nat, k: nat, t: nat)
    -> EncryptedSignatureView {
    let r = mul_mod(y, k);
    let s_hat = mul_mod(inv_mod(k), add_mod(m, mul_mod(abscissa(fold(r)), x)));
    parts(r, k, s_hat, dleq::proof_with(k, y, t))
}

/// What `encverify` checks: the proof holds, `r` and `ŝ` are not zero, and
/// `R̂ = ŝ⁻¹·(m·G + r·X)`.
pub open spec fn encrypted_accepts(m: nat, x: nat, y: nat, esig: EncryptedSignatureView) -> bool {
    &&& dleq::accepts(y, esig.r_hat, esig.r, esig.proof)
    &&& 0 < nonce_abscissa(esig)
    &&& 0 < esig.s_hat < order()
    &&& invertible(esig.s_hat)
    &&& ecdsa_point(m, pair(nonce_abscissa(esig), esig.s_hat), x) == esig.r_hat
}

/// The signature that the holder of `y` decrypts an adaptor signature to.
pub open spec fn decrypted(y: nat, esig: EncryptedSignatureView) -> SignatureView {
    pair(nonce_abscissa(esig), fold(mul_mod(esig.s_hat, inv_mod(y))))
}

/// What `recover` returns for the point `y·G`: `y`, where the signature is
/// the decryption of the adaptor signature under `y`.
pub open spec fn recovered(y: nat, esig: EncryptedSignatureView, sig: SignatureView) -> Option<
    nat,
> {
    let candidate = mul_mod(esig.s_hat, inv_mod(sig.s));
    if sig.s == 0 || sig.r != nonce_abscissa(esig) {
        None
    } else if candidate == y || neg_mod(candidate) == y {
        Some(y)
    } else {
        None
    }
}

/// The point that verification arrives at is `s⁻¹·(m + r·x)·G`.
pub proof fn lemma_ecdsa_point_factored(m: nat, sig: SignatureView, x: nat)
    ensures
        ecdsa_point(m, sig, x) == mul_mod(inv_mod(sig.s), add_mod(m, mul_mod(sig.r, x))),
{
    let w = inv_mod(sig.s);
    lemma_mul_mod_distributes(w, m, mul_mod(sig.r, x));
    lemma_mul_mod_comm(w, m);
    lemma_mul_mod_assoc(w, sig.r, x);
    lemma_mul_mod_comm(w, sig.r);
}

/// Decrypting scales the point that verification arrives at by `y`.
proof fn lemma_decrypted_point(m: nat, x: nat, y: nat, esig: EncryptedSignatureView)
    requires
        unit(y),
        unit(esig.s_hat),
    ensures
        unit(mul_mod(esig.s_hat, inv_mod(y))),
        inv_mod(mul_mod(esig.s_hat, inv_mod(y))) == mul_mod(inv_mod(esig.s_hat), y),
        ecdsa_point(m, pair(nonce_abscissa(esig), mul_mod(esig.s_hat, inv_mod(y))), x) == mul_mod(
            y,
            ecdsa_point(m, pair(nonce_abscissa(esig), esig.s_hat), x),
        ),
{
    let r = nonce_abscissa(esig);
    let w = inv_mod(esig.s_hat);
    let yi = inv_mod(y);
    let n = add_mod(m, mul_mod(r, x));
    lemma_unit(y, y);
    lemma_unit(esig.s_hat, yi);
    lemma_ecdsa_point_factored(m, pair(r, mul_mod(esig.s_hat, yi)), x);
    lemma_ecdsa_point_factored(m, pair(r, esig.s_hat), x);
    // (w y) n = y (w n)
    lemma_mul_mod_comm(w, y);
    lemma_mul_mod_assoc(y, w, n);
}

/// An adaptor signature whose nonce points go together decrypts to a valid
/// signature: if `R = y·R̂`, `r` and `ŝ` are not zero and
/// `R̂ = ŝ⁻¹·(m·G + r·X)`, then `(r, ŝ·y⁻¹)` in low form verifies over `m`
/// under `X`.
pub proof fn law_decrypted_verifies(m: nat, x: nat, y: nat, esig: EncryptedSignatureView)
    requires
        unit(y),
        unit(esig.s_hat),
        0 < esig.r < order(),
        esig.r == mul_mod(y, esig.r_hat),
        0 < nonce_abscissa(esig),
        ecdsa_point(m, pair(nonce_abscissa(esig), esig.s_hat), x) == esig.r_hat,
    ensures
        ecdsa_accepts(m, decrypted(y, esig), x),
{
    let r = nonce_abscissa(esig);
    let plain = pair(r, mul_mod(esig.s_hat, inv_mod(y)));
    lemma_decrypted_point(m, x, y, esig);
    lemma_unit(mul_mod(esig.s_hat, inv_mod(y)), y);
    lemma_mod_range(be_value_of_abscissa(esig));
    assert(ecdsa_accepts(m, plain, x));
    lemma_low_form_accepts(m, plain, x);
}

/// The number whose residue is the abscissa: only its range matters.
spec fn be_value_of_abscissa(esig: EncryptedSignatureView) -> nat {
    be_value(generator_multiple(fold(esig.r)).subrange(1, 33))
}

/// An honest adaptor signature satisfies the adaptor equation: with
/// `ŝ = k⁻¹·(m + r·x)`, verification arrives at `k·G`.
pub proof fn law_encsign_equation(m: nat, x: nat, y: nat, k: nat, t: nat)
    requires
        unit(k),
        unit(encsign_with_nonces(m, x, y, k, t).s_hat),
    ensures
        ecdsa_point(
            m,
            pair(
                nonce_abscissa(encsign_with_nonces(m, x, y, k, t)),
                encsign_with_nonces(m, x, y, k, t).s_hat,
            ),
            x,
        ) == k,
{
    let esig = encsign_with_nonces(m, x, y, k, t);
    let r = nonce_abscissa(esig);
    let n = add_mod(m, mul_mod(r, x));
    let ki = inv_mod(k);
    lemma_unit(k, esig.s_hat);
    // n = k ŝ, so n is a unit, and ŝ⁻¹ n = k
    lemma_mul_mod_assoc(k, ki, n);
    lemma_mul_mod_one(n);
    lemma_mod_range(m + mul_mod(r, x));
    assert(mul_mod(k, esig.s_hat) == n);
    lemma_unit(esig.s_hat, esig.s_hat);
    lemma_mul_mod_comm(k, esig.s_hat);
    lemma_mul_mod_assoc(inv_mod(esig.s_hat), esig.s_hat, k);
    lemma_mul_mod_one(k);
    lemma_ecdsa_point_factored(m, pair(r, esig.s_hat), x);
}

/// An honest adaptor signature is accepted, unless `r` or `ŝ` came out as
/// zero.
pub proof fn law_encsign_accepted(m: nat, x: nat, y: nat, k: nat, t: nat)
    requires
        unit(y),
        unit(k),
        unit(t),
        0 < nonce_abscissa(encsign_with_nonces(m, x, y, k, t)),
        unit(encsign_with_nonces(m, x, y, k, t).s_hat),
    ensures
        encrypted_accepts(m, x, y, encsign_with_nonces(m, x, y, k, t)),
{
    let esig = encsign_with_nonces(m, x, y, k, t);
    lemma_unit(y, t);
    lemma_unit(t, t);
    lemma_unit(esig.s_hat, esig.s_hat);
    dleq::lemma_complete(k, y, t);
    law_encsign_equation(m, x, y, k, t);
}

/// The holder of `y` decrypts an honest adaptor signature to a signature that
/// verifies, unless `r` or `ŝ` came out as zero.
pub proof fn law_decsig_of_encsign_verifies(m: nat, x: nat, y: nat, k: nat, t: nat)
    requires
        unit(y),
        unit(k),
        0 < nonce_abscissa(encsign_with_nonces(m, x, y, k, t)),
        unit(encsign_with_nonces(m, x, y, k, t).s_hat),
    ensures
        ecdsa_accepts(m, decrypted(y, encsign_with_nonces(m, x, y, k, t)), x),
{
    let esig = encsign_with_nonces(m, x, y, k, t);
    lemma_unit(y, k);
    law_encsign_equation(m, x, y, k, t);
    law_decrypted_verifies(m, x, y, esig);
}

/// From an adaptor signature and its decryption under `y`, `recover` gives
/// `y` back.
pub proof fn law_recover_of_decsig(y: nat, esig: EncryptedSignatureView)
    requires
        unit(y),
        unit(esig.s_hat),
    ensures
        recovered(y, esig, decrypted(y, esig)) == Some(y),
{
    let s0 = mul_mod(esig.s_hat, inv_mod(y));
    let w = inv_mod(esig.s_hat);
    lemma_decrypted_point(0, 0, y, esig);
    lemma_unit(esig.s_hat, y);
    lemma_unit(s0, s0);
    lemma_fold(s0);
    lemma_mod_range(s0);
    // ŝ (ŝ⁻¹ y) = y
    lemma_mul_mod_assoc(esig.s_hat, w, y);
    lemma_mul_mod_one(y);
    lemma_mod_range(y);
    assert(mul_mod(esig.s_hat, inv_mod(s0)) == y);
    if fold(s0) != s0 {
        lemma_neg_invertible(s0);
        lemma_mul_mod_neg(esig.s_hat, inv_mod(s0));
        lemma_neg_mod(y);
        lemma_neg_mod(s0);
    }
}

impl EncryptedSignature {
    /// The adaptor signature with these parts.
    pub fn new(r: PublicKey, r_hat: PublicKey, s_hat: Scalar, proof: dleq::Proof) -> (esig:
        EncryptedSignature)
        ensures
            esig@ == parts(r@, r_hat@, s_hat@, proof@),
    {
        EncryptedSignature { r, r_hat, s_hat, proof }
    }

    pub fn r(&self) -> (r: PublicKey)
        ensures
            r@ == self@.r,
    {
        self.r
    }

    pub fn r_hat(&self) -> (r: PublicKey)
        ensures
            r@ == self@.r_hat,
    {
        self.r_hat
    }

    pub fn s_hat(&self) -> (s: Scalar)
        ensures
            s@ == self@.s_hat,
    {
        self.s_hat
    }

    pub fn dleq_proof(&self) -> (p: dleq::Proof)
        ensures
            p@ == self@.proof,
    {
        self.proof
    }

    /// The adaptor signature on the wire: the two points in 33 bytes each,
    /// then `ŝ`, the challenge and the response in 32 bytes each.
    pub fn to_bytes(&self) -> (bytes: Vec<u8>)
        ensures
            bytes@.len() == 162,
            bytes@.subrange(0, 33) == generator_multiple(self@.r),
            bytes@.subrange(33, 66) == generator_multiple(self@.r_hat),
            be_value(bytes@.subrange(66, 98)) == self@.s_hat,
            be_value(bytes@.subrange(98, 130)) == self@.proof.challenge,
            be_value(bytes@.subrange(130, 162)) == self@.proof.response,
    {
        proof {
            use_type_invariant(self.r);
            use_type_invariant(self.r_hat);
            self.r.lemma_valid();
            self.r_hat.lemma_valid();
        }
        let r = self.r.to_bytes();
        let r_hat = self.r_hat.to_bytes();
        let s_hat = self.s_hat.to_bytes();
        let c = self.proof.challenge().to_bytes();
        let z = self.proof.response().to_bytes();
        let mut bytes: Vec<u8> = Vec::new();
        put_bytes(&mut bytes, r.as_slice());
        put_bytes(&mut bytes, r_hat.as_slice());
        put_bytes(&mut bytes, s_hat.as_slice());
        put_bytes(&mut bytes, c.as_slice());
        put_bytes(&mut bytes, z.as_slice());
        assert(bytes@.subrange(0, 33) =~= r@);
        assert(bytes@.subrange(33, 66) =~= r_hat@);
        assert(bytes@.subrange(66, 98) =~= s_hat@);
        assert(bytes@.subrange(98, 130) =~= c@);
        assert(bytes@.subrange(130, 162) =~= z@);
        bytes
    }

    /// Reads an adaptor signature from the wire; `None` unless there are 162
    /// bytes, the first two parts encode points and the other three spell
    /// numbers below the group order.
    pub fn from_bytes(bytes: &[u8]) -> (r: Option<EncryptedSignature>)
        ensures
            r is Some <==> well_formed_wire(bytes@),
            r matches Some(esig) ==> esig@ == parts(
                discrete_log(bytes@.subrange(0, 33)),
                discrete_log(bytes@.subrange(33, 66)),
                be_value(bytes@.subrange(66, 98)),
                dleq::proof_of(
                    be_value(bytes@.subrange(98, 130)),
                    be_value(bytes@.subrange(130, 162)),
                ),
            ),
    {
        if bytes.len() != 162 {
            return None;
        }
        let r = PublicKey::from_bytes(take33(bytes, 0));
        let r_hat = PublicKey::from_bytes(take33(bytes, 33));
        let s_hat = Scalar::from_bytes(take32(bytes, 66));
        let c = Scalar::from_bytes(take32(bytes, 98));
        let z = Scalar::from_bytes(take32(bytes, 130));
        match (r, r_hat, s_hat, c, z) {
            (Some(r), Some(r_hat), Some(s_hat), Some(c), Some(z)) => Some(
                EncryptedSignature { r, r_hat, s_hat, proof: dleq::Proof::new(c, z) },
            ),
            _ => None,
        }
    }
}

/// Bytes that an adaptor signature can be read from.
pub open spec fn well_formed_wire(bytes: Seq<u8>) -> bool {
    &&& bytes.len() == 162
    &&& is_point(bytes.subrange(0, 33))
    &&& is_point(bytes.subrange(33, 66))
    &&& be_value(bytes.subrange(66, 98)) < order()
    &&& be_value(bytes.subrange(98, 130)) < order()
    &&& be_value(bytes.subrange(130, 162)) < order()
}

/// Signs a digest under the point `encryption_key`, with the nonce `k` for the
/// signature and the nonce `t` for the proof.
pub fn encsign_with(
    digest: &[u8; 32],
    keypair: &KeyPair,
    encryption_key: &PublicKey,
    k: &SecretKey,
    t: &SecretKey,
) -> (esig: EncryptedSignature)
    ensures
        esig@ == encsign_with_nonces(
            message_scalar(digest@),
            keypair@,
            encryption_key@,
            k@,
            t@,
        ),
{
    let r_hat = PublicKey::from_secret_key(k);
    let r = encryption_key.times(k);
    let proof = dleq::prove(k, encryption_key, t);
    let m = Scalar::from_bytes_reduced(*digest);
    let x = keypair.to_sk().to_scalar();
    let n = m.plus(&r.abscissa().times(&x));
    let s_hat = k.to_scalar().invert().times(&n);
    EncryptedSignature { r, r_hat, s_hat, proof }
}

/// Signs a digest under the point `encryption_key`, with nonces drawn from the
/// caller's generator.
pub fn encsign(
    digest: &[u8; 32],
    keypair: &KeyPair,
    encryption_key: &PublicKey,
    rng: &mut rand::rngs::ThreadRng,
) -> (esig: EncryptedSignature)
    ensures
        exists|k: nat, t: nat|
            0 < k < order() && 0 < t < order() && esig@ == #[trigger] encsign_with_nonces(
                message_scalar(digest@),
                keypair@,
                encryption_key@,
                k,
                t,
            ),
{
    let k = random_nonce(encryption_key, rng);
    let t = SecretKey::random(rng);
    encsign_with(digest, keypair, encryption_key, &k, &t)
}

/// Draws the nonce of an adaptor signature under the point `encryption_key`.
/// The nonce is drawn again, up to `NONCE_TRIES` times, while the `r` it
/// gives has its first bit set: the signature that comes out of decryption is
/// then a byte shorter on the ledger, but for a chance of one in two to the
/// power `NONCE_TRIES`.
pub fn random_nonce(encryption_key: &PublicKey, rng: &mut rand::rngs::ThreadRng) -> (k: SecretKey)
    ensures
        0 < k@ < order(),
{
    let mut k = SecretKey::random(rng);
    let mut long = first_bit_set(&encryption_key.times(&k).abscissa());
    let mut tries: usize = 0;
    while long && tries < NONCE_TRIES
        invariant
            tries <= NONCE_TRIES,
            0 < k@ < order(),
        decreases NONCE_TRIES - tries,
    {
        k = SecretKey::random(rng);
        long = first_bit_set(&encryption_key.times(&k).abscissa());
        tries = tries + 1;
    }
    k
}

/// How often the nonce of an adaptor signature is drawn again for a shorter
/// signature.
pub const NONCE_TRIES: usize = 64;

/// Whether the first bit of the scalar's 32 bytes is set: whether its DER
/// integer takes a byte more.
fn first_bit_set(r: &Scalar) -> (long: bool)
    ensures
        long == (r.encoding()[0] >= 0x80),
{
    let bytes = r.to_bytes();
    bytes[0] >= 0x80
}

/// Verifies an adaptor signature over a digest, by the key `verification_key`
/// and under the point `encryption_key`.
pub fn encverify(
    verification_key: &PublicKey,
    encryption_key: &PublicKey,
    digest: &[u8; 32],
    esig: &EncryptedSignature,
) -> (r: Result<(), Error>)
    ensures
        r is Ok <==> encrypted_accepts(
            message_scalar(digest@),
            verification_key@,
            encryption_key@,
            esig@,
        ),
        r is Err ==> r == Err::<(), Error>(Error::BadAdaptorSignature),
{
    proof {
        use_type_invariant(esig.s_hat);
        esig.s_hat.lemma_reduced();
    }
    if !dleq::verify(encryption_key, &esig.r_hat, &esig.r, &esig.proof) {
        return Err(Error::BadAdaptorSignature);
    }
    let r = esig.r.abscissa();
    if r.is_zero() || esig.s_hat.is_zero() {
        return Err(Error::BadAdaptorSignature);
    }
    let m = Scalar::from_bytes_reduced(*digest);
    let w = esig.s_hat.invert();
    let u1 = m.times(&w);
    let u2 = r.times(&w);
    let point = PublicKey::sum(PublicKey::generator_scaled(&u1), verification_key.scaled(&u2));
    match point {
        Some(p) => {
            if p.eq(&esig.r_hat) {
                Ok(())
            } else {
                Err(Error::BadAdaptorSignature)
            }
        },
        None => {
            proof {
                use_type_invariant(esig.r_hat);
                esig.r_hat.lemma_valid();
            }
            Err(Error::BadAdaptorSignature)
        },
    }
}

/// Decrypts an adaptor signature with the discrete logarithm of the point it
/// was made under. The signature comes out in low form.
pub fn decsig(decryption_key: &KeyPair, esig: &EncryptedSignature) -> (sig: Signature)
    ensures
        sig@ == decrypted(decryption_key@, esig@),
        sig@.s <= half_order(),
{
    let y = decryption_key.to_sk().to_scalar();
    let s = esig.s_hat.times(&y.invert()).folded();
    Signature::new(esig.r.abscissa(), s)
}

/// Recovers the discrete logarithm of `encryption_key` from an adaptor
/// signature made under it and the signature it was decrypted to.
pub fn recover(encryption_key: &PublicKey, esig: &EncryptedSignature, sig: &Signature) -> (r:
    Result<KeyPair, Error>)
    ensures
        r is Ok <==> recovered(encryption_key@, esig@, sig@) is Some,
        r matches Ok(keypair) ==> keypair@ == encryption_key@,
        r is Err ==> r == Err::<KeyPair, Error>(Error::RecoveryFailed),
{
    proof {
        use_type_invariant(encryption_key);
        encryption_key.lemma_valid();
    }
    let s = sig.s();
    if s.is_zero() || !sig.r().eq(&esig.r.abscissa()) {
        return Err(Error::RecoveryFailed);
    }
    let candidate = esig.s_hat.times(&s.invert());
    let other = candidate.negate();
    match SecretKey::from_scalar(candidate) {
        Some(key) => {
            let keypair = KeyPair::from_secret_key(key);
            if keypair.to_pk().eq(encryption_key) {
                return Ok(keypair);
            }
        },
        None => {},
    }
    match SecretKey::from_scalar(other) {
        Some(key) => {
            let keypair = KeyPair::from_secret_key(key);
            if keypair.to_pk().eq(encryption_key) {
                return Ok(keypair);
            }
        },
        None => {},
    }
    Err(Error::RecoveryFailed)
}

} // verus!
