//! ECDSA over secp256k1.
//!
//! Signing is `libsecp256k1`'s; verification is written here against the
//! verification equation, stated over discrete logarithms.

use vstd::prelude::*;
use crate::arith::{
    add_mod, fold, half_order, inv_mod, invertible, lemma_add_mod_neg, lemma_fold, lemma_mod_range,
    lemma_mul_mod_neg, lemma_neg_invertible, lemma_neg_mod, mul_mod, neg_mod, order,
};
use crate::bytes::{be_value, take32};
use crate::error::Error;
use crate::secp256k1::{abscissa, KeyPair, PublicKey, Scalar};

verus! {

/// An ECDSA signature as a pair of residues.
pub struct SignatureView {
    pub r: nat,
    pub s: nat,
}

/// An ECDSA signature.
#[derive(Clone, Copy, Debug)]
pub struct Signature {
    r: Scalar,
    s: Scalar,
}

impl View for Signature {
    type V = SignatureView;

    closed spec fn view(&self) -> SignatureView {
        SignatureView { r: self.r@, s: self.s@ }
    }
}

/// The signature `(r, s)`.
pub open spec fn pair(r: nat, s: nat) -> SignatureView {
    SignatureView { r, s }
}

/// The residue that a 32-byte digest stands for.
pub open spec fn message_scalar(digest: Seq<u8>) -> nat {
    be_value(digest) % order()
}

/// The discrete logarithm of the point that verification arrives at:
/// `s⁻¹·m·G + s⁻¹·r·X`, where `X = x·G` is the signer's key.
pub open spec fn ecdsa_point(m: nat, sig: SignatureView, x: nat) -> nat {
    let w = inv_mod(sig.s);
    add_mod(mul_mod(m, w), mul_mod(mul_mod(sig.r, w), x))
}

/// ECDSA's verification equation: the point that verification arrives at is
/// not the point at infinity, and its abscissa is `r`.
pub open spec fn ecdsa_accepts(m: nat, sig: SignatureView, x: nat) -> bool {
    &&& 0 < sig.r < order()
    &&& 0 < sig.s < order()
    &&& invertible(sig.s)
    &&& ecdsa_point(m, sig, x) != 0
    &&& abscissa(fold(ecdsa_point(m, sig, x))) == sig.r
}

/// The same signature with `s` replaced by the lesser of `s` and `-s`.
pub open spec fn low_form(sig: SignatureView) -> SignatureView {
    SignatureView { r: sig.r, s: fold(sig.s) }
}

/// What `libsecp256k1` signs: the nonce comes from the key and the digest by
/// RFC 6979, so the signature is a function of the two.
pub uninterp spec fn rfc6979_signature(digest: Seq<u8>, key: nat) -> SignatureView;

/// The signature that `sign` returns.
pub open spec fn signature_of(digest: Seq<u8>, key: nat) -> SignatureView {
    low_form(rfc6979_signature(digest, key))
}

/// Negating `s` negates the point that verification arrives at.
pub proof fn lemma_ecdsa_point_neg(m: nat, sig: SignatureView, x: nat)
    requires
        invertible(sig.s),
    ensures
        ecdsa_point(m, pair(sig.r, neg_mod(sig.s)), x) == neg_mod(ecdsa_point(m, sig, x)),
{
    let w = inv_mod(sig.s);
    lemma_neg_invertible(sig.s);
    lemma_mul_mod_neg(m, w);
    lemma_mul_mod_neg(sig.r, w);
    lemma_mul_mod_neg(mul_mod(sig.r, w), x);
    lemma_add_mod_neg(mul_mod(m, w), mul_mod(mul_mod(sig.r, w), x));
}

/// A signature verifies exactly if its low form does.
pub proof fn lemma_low_form_accepts(m: nat, sig: SignatureView, x: nat)
    requires
        sig.s < order(),
    ensures
        ecdsa_accepts(m, low_form(sig), x) == ecdsa_accepts(m, sig, x),
        low_form(sig).s <= half_order(),
{
    lemma_fold(sig.s);
    lemma_mod_range(sig.s);
    lemma_neg_mod(sig.s);
    if fold(sig.s) != sig.s {
        let neg = pair(sig.r, neg_mod(sig.s));
        assert(low_form(sig) == neg);
        if invertible(sig.s) {
            lemma_neg_invertible(sig.s);
            lemma_ecdsa_point_neg(m, sig, x);
            lemma_fold(ecdsa_point(m, sig, x));
            lemma_neg_mod(ecdsa_point(m, sig, x));
        } else if invertible(neg.s) {
            lemma_neg_invertible(neg.s);
        }
    }
}

/// Signs a digest.
///
/// Calls `libsecp256k1::sign`. It derives its nonce from the key and the
/// digest, so that the signature is a function of the two, and it goes on to
/// the next nonce while `s` comes out as zero. The signature satisfies the
/// verification equation under the key's point unless `r` came out as zero,
/// which the function does not rule out.
#[verifier::external_body]
fn raw_sign(digest: &[u8; 32], key: &[u8; 32]) -> (sig: ([u8; 32], [u8; 32]))
    requires
        0 < be_value(key@) < order(),
    ensures
        pair(be_value(sig.0@), be_value(sig.1@)) == rfc6979_signature(digest@, be_value(key@)),
        be_value(sig.0@) < order(),
        0 < be_value(sig.1@) < order(),
        be_value(sig.0@) != 0 ==> ecdsa_accepts(
            message_scalar(digest@),
            pair(be_value(sig.0@), be_value(sig.1@)),
            be_value(key@),
        ),
{
    let message = libsecp256k1::Message::parse(digest);
    let key = libsecp256k1::SecretKey::parse(key).unwrap();
    let (sig, _) = libsecp256k1::sign(&message, &key);
    (sig.r.b32(), sig.s.b32())
}

impl Signature {
    /// The type's invariant: `r` and `s` are below the group order.
    #[verifier::type_invariant]
    pub closed spec fn reduced(self) -> bool {
        self.r@ < order() && self.s@ < order()
    }

    /// What the type's invariant says, for use outside this module.
    pub proof fn lemma_reduced(self)
        requires
            self.reduced(),
        ensures
            self@.r < order(),
            self@.s < order(),
    {
    }

    /// The signature `(r, s)`.
    pub fn new(r: Scalar, s: Scalar) -> (sig: Signature)
        ensures
            sig@ == pair(r@, s@),
    {
        proof {
            use_type_invariant(r);
            use_type_invariant(s);
            r.lemma_reduced();
            s.lemma_reduced();
        }
        Signature { r, s }
    }

    pub fn r(&self) -> (r: Scalar)
        ensures
            r@ == self@.r,
    {
        self.r
    }

    pub fn s(&self) -> (s: Scalar)
        ensures
            s@ == self@.s,
    {
        self.s
    }

    /// The signature with `s` replaced by the lesser of `s` and `-s`.
    pub fn normalized(&self) -> (sig: Signature)
        ensures
            sig@ == low_form(self@),
            sig@.s <= half_order(),
    {
        proof {
            use_type_invariant(self);
            crate::arith::lemma_half_order();
        }
        Signature { r: self.r, s: self.s.folded() }
    }

    /// Whether `s` is at most half the order.
    pub fn is_low(&self) -> (r: bool)
        ensures
            r == (self@.s <= half_order()),
    {
        self.s.is_low()
    }

    /// Reads `r` and `s` from 64 bytes, 32 big-endian bytes each; `None`
    /// unless both are below the group order and `s` is at most half of it.
    pub fn from_bytes(bytes: [u8; 64]) -> (r: Option<Signature>)
        ensures
            r is Some <==> be_value(bytes@.subrange(0, 32)) < order() && be_value(
                bytes@.subrange(32, 64),
            ) <= half_order(),
            r matches Some(sig) ==> sig@ == pair(
                be_value(bytes@.subrange(0, 32)),
                be_value(bytes@.subrange(32, 64)),
            ),
    {
        let r = Scalar::from_bytes(take32(bytes.as_slice(), 0));
        let s = Scalar::from_bytes(take32(bytes.as_slice(), 32));
        proof {
            crate::arith::lemma_half_order();
        }
        match (r, s) {
            (Some(r), Some(s)) => {
                if s.is_low() {
                    Some(Signature::new(r, s))
                } else {
                    None
                }
            },
            _ => None,
        }
    }

    /// `r` and `s`, 32 big-endian bytes each.
    pub fn to_bytes(&self) -> (bytes: [u8; 64])
        ensures
            be_value(bytes@.subrange(0, 32)) == self@.r,
            be_value(bytes@.subrange(32, 64)) == self@.s,
    {
        let r = self.r.to_bytes();
        let s = self.s.to_bytes();
        let mut bytes = [0u8; 64];
        let mut i: usize = 0;
        while i < 32
            invariant
                i <= 32,
                forall|j: int| 0 <= j < i ==> bytes@[j] == r@[j],
                forall|j: int| 0 <= j < i ==> bytes@[32 + j] == s@[j],
            decreases 32 - i,
        {
            bytes[i] = r[i];
            bytes[32 + i] = s[i];
            i = i + 1;
        }
        assert(bytes@.subrange(0, 32) =~= r@);
        assert(bytes@.subrange(32, 64) =~= s@);
        bytes
    }
}

/// Signs a digest with the pair's secret key. The nonce is derived from the
/// key and the digest, so the signature is a function of the two, and `s` is
/// in low form.
pub fn sign(digest: &[u8; 32], keypair: &KeyPair) -> (sig: Signature)
    ensures
        sig@ == signature_of(digest@, keypair@),
        sig@.s <= half_order(),
        sig@.s != 0,
        sig@.r != 0 ==> ecdsa_accepts(message_scalar(digest@), sig@, keypair@),
{
    let key = keypair.to_sk().to_scalar();
    let raw = raw_sign(digest, &key.to_bytes());
    let r = Scalar::from_bytes(raw.0);
    let s = Scalar::from_bytes(raw.1);
    proof {
        let view = pair(be_value(raw.0@), be_value(raw.1@));
        lemma_low_form_accepts(message_scalar(digest@), view, keypair@);
        lemma_fold(view.s);
        lemma_mod_range(view.s);
    }
    Signature::new(r.unwrap(), s.unwrap()).normalized()
}

/// Verifies a signature over a digest under a public key.
pub fn verify(digest: &[u8; 32], sig: &Signature, pk: &PublicKey) -> (r: Result<(), Error>)
    ensures
        r is Ok <==> ecdsa_accepts(message_scalar(digest@), sig@, pk@),
        r is Err ==> r == Err::<(), Error>(Error::BadSignature),
{
    proof {
        use_type_invariant(sig.r);
        use_type_invariant(sig.s);
        sig.r.lemma_reduced();
        sig.s.lemma_reduced();
    }
    if sig.r.is_zero() || sig.s.is_zero() {
        return Err(Error::BadSignature);
    }
    let m = Scalar::from_bytes_reduced(*digest);
    let w = sig.s.invert();
    let u1 = m.times(&w);
    let u2 = sig.r.times(&w);
    let first = PublicKey::generator_scaled(&u1);
    let second = pk.scaled(&u2);
    match PublicKey::sum(first, second) {
        None => Err(Error::BadSignature),
        Some(point) => {
            if point.abscissa().eq(&sig.r) {
                Ok(())
            } else {
                Err(Error::BadSignature)
            }
        },
    }
}

} // verus!
