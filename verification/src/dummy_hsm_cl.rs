//! A stand-in for the HSM-CL encryption scheme.
//!
//! The scheme proper encrypts a scalar in a class group, lets anyone raise a
//! ciphertext to a power, and proves that a ciphertext holds the discrete
//! logarithm of a point. The stand-in has the same operations and the same
//! algebra, and hides nothing: a ciphertext carries its plaintext in the clear,
//! next to a tag that names the key it was made under. With nothing hidden
//! there is nothing to prove, so a proof is empty and verification recomputes
//! the point from the plaintext.

use vstd::prelude::*;
use crate::arith::{lemma_mul_mod_comm, mul_mod, order};
use crate::bytes::{be_value, rank, take32, Rank};
use crate::error::Error;
use crate::hash::{sha256, sha256_digest};
use crate::secp256k1;
use crate::secp256k1::Scalar;

verus! {

/// A ciphertext as the tag of its key and its plaintext.
pub struct CiphertextView {
    pub tag: Seq<u8>,
    pub plaintext: nat,
}

/// A ciphertext: a scalar under a key.
#[derive(Clone, Copy, Debug)]
pub struct Ciphertext {
    tag: [u8; 32],
    plaintext: Scalar,
}

impl View for Ciphertext {
    type V = CiphertextView;

    closed spec fn view(&self) -> CiphertextView {
        CiphertextView { tag: self.tag@, plaintext: self.plaintext@ }
    }
}

/// The key that decrypts.
#[derive(Clone, Copy, Debug)]
pub struct SecretKey {
    tag: [u8; 32],
}

/// The key that encrypts and raises to powers.
#[derive(Clone, Copy, Debug)]
pub struct PublicKey {
    tag: [u8; 32],
}

impl View for SecretKey {
    type V = Seq<u8>;

    /// The tag that names the key pair.
    closed spec fn view(&self) -> Seq<u8> {
        self.tag@
    }
}

impl View for PublicKey {
    type V = Seq<u8>;

    /// The tag that names the key pair.
    closed spec fn view(&self) -> Seq<u8> {
        self.tag@
    }
}

/// The proof that a ciphertext holds the discrete logarithm of a point. The
/// stand-in's is empty.
#[derive(Clone, Copy, Debug)]
pub struct Proof {}

/// The tag of the key pair that a seed generates.
pub open spec fn tag_of(seed: Seq<u8>) -> Seq<u8> {
    sha256_digest(seed)
}

/// The ciphertext of `plaintext` under the key with this tag.
pub open spec fn encryption(tag: Seq<u8>, plaintext: nat) -> CiphertextView {
    CiphertextView { tag, plaintext }
}

/// The ciphertext raised to the power `exponent`: under the same key, with
/// the plaintext multiplied.
pub open spec fn power(c: CiphertextView, exponent: nat) -> CiphertextView {
    CiphertextView { tag: c.tag, plaintext: mul_mod(exponent, c.plaintext) }
}

/// What the key with this tag decrypts a ciphertext to: its plaintext, or
/// zero for a ciphertext of another key.
pub open spec fn decryption(tag: Seq<u8>, c: CiphertextView) -> nat {
    if c.tag == tag {
        c.plaintext
    } else {
        0
    }
}

/// `(A, C)` is a puzzle under the key with this tag: `C` is the encryption
/// under that key of a scalar other than zero, and `A` is the point of
/// that scalar. `a` is the discrete logarithm of `A`.
pub open spec fn is_puzzle(tag: Seq<u8>, a: nat, c: CiphertextView) -> bool {
    exists|alpha: nat| 0 < alpha < order() && c == #[trigger] encryption(tag, alpha) && a == alpha
}

/// Generates a key pair from a seed: equal seeds give equal keys.
pub fn keygen(seed: &[u8]) -> (keys: (SecretKey, PublicKey))
    ensures
        keys.0@ == tag_of(seed@),
        keys.1@ == tag_of(seed@),
{
    let tag = sha256(seed);
    (SecretKey { tag }, PublicKey { tag })
}

/// Encryption of a scalar together with the proof that goes with it.
pub trait Encrypt {
    /// The tag of the key that encrypts.
    spec fn encryption_tag(&self) -> Seq<u8>;

    /// Encrypts the secret of `witness`; the proof ties the ciphertext to the
    /// point of `witness`.
    fn encrypt(&self, witness: &secp256k1::KeyPair) -> (r: (Ciphertext, Proof))
        ensures
            r.0@ == encryption(self.encryption_tag(), witness@),
            is_puzzle(self.encryption_tag(), witness@, r.0@),
    ;
}

/// Raising to a power, of a ciphertext and of a point, by one exponent.
pub trait Pow {
    /// The ciphertext of the plaintext multiplied by `exponent`.
    fn pow_ct(&self, c: &Ciphertext, exponent: &secp256k1::KeyPair) -> (r: Ciphertext)
        ensures
            r@ == power(c@, exponent@),
    ;

    /// The point multiplied by `exponent`.
    fn pow_pt(&self, p: &secp256k1::PublicKey, exponent: &secp256k1::KeyPair) -> (r:
        secp256k1::PublicKey)
        ensures
            r@ == mul_mod(exponent@, p@),
    ;
}

/// Decryption of a ciphertext.
pub trait Decrypt {
    /// The tag of the key that decrypts.
    spec fn decryption_tag(&self) -> Seq<u8>;

    /// The plaintext of a ciphertext of this key.
    fn decrypt(&self, c: &Ciphertext) -> (r: Scalar)
        ensures
            r@ == decryption(self.decryption_tag(), c@),
    ;
}

impl SecretKey {
    /// The public key of the same pair.
    pub fn to_pk(&self) -> (pk: PublicKey)
        ensures
            pk@ == self@,
    {
        PublicKey { tag: self.tag }
    }

    /// The tag of the key.
    pub fn to_bytes(&self) -> (r: [u8; 32])
        ensures
            r@ == self@,
    {
        self.tag
    }

    /// The key with this tag.
    pub fn from_bytes(tag: [u8; 32]) -> (r: SecretKey)
        ensures
            r@ == tag@,
    {
        SecretKey { tag }
    }
}

impl PublicKey {
    /// The tag of the key.
    pub fn to_bytes(&self) -> (r: [u8; 32])
        ensures
            r@ == self@,
    {
        self.tag
    }

    /// The key with this tag.
    pub fn from_bytes(tag: [u8; 32]) -> (r: PublicKey)
        ensures
            r@ == tag@,
    {
        PublicKey { tag }
    }
}

impl Ciphertext {
    /// The tag, then the plaintext in 32 big-endian bytes.
    pub fn to_bytes(&self) -> (bytes: [u8; 64])
        ensures
            bytes@.subrange(0, 32) == self@.tag,
            be_value(bytes@.subrange(32, 64)) == self@.plaintext,
    {
        let plaintext = self.plaintext.to_bytes();
        let mut bytes = [0u8; 64];
        let mut i: usize = 0;
        while i < 32
            invariant
                i <= 32,
                forall|j: int| 0 <= j < i ==> bytes@[j] == self.tag@[j],
                forall|j: int| 0 <= j < i ==> bytes@[32 + j] == plaintext@[j],
            decreases 32 - i,
        {
            bytes[i] = self.tag[i];
            bytes[32 + i] = plaintext[i];
            i = i + 1;
        }
        assert(bytes@.subrange(0, 32) =~= self.tag@);
        assert(bytes@.subrange(32, 64) =~= plaintext@);
        bytes
    }

    /// Reads a ciphertext from 64 bytes; `None` unless the last 32 spell a
    /// number below the group order.
    pub fn from_bytes(bytes: [u8; 64]) -> (r: Option<Ciphertext>)
        ensures
            r is Some <==> be_value(bytes@.subrange(32, 64)) < order(),
            r matches Some(c) ==> c@ == encryption(
                bytes@.subrange(0, 32),
                be_value(bytes@.subrange(32, 64)),
            ),
    {
        let tag = take32(bytes.as_slice(), 0);
        match Scalar::from_bytes(take32(bytes.as_slice(), 32)) {
            Some(plaintext) => Some(Ciphertext { tag, plaintext }),
            None => None,
        }
    }
}

impl Encrypt for PublicKey {
    open spec fn encryption_tag(&self) -> Seq<u8> {
        self@
    }

    fn encrypt(&self, witness: &secp256k1::KeyPair) -> (r: (Ciphertext, Proof)) {
        let plaintext = witness.to_sk().to_scalar();
        let c = Ciphertext { tag: self.tag, plaintext };
        assert(c@ == encryption(self@, witness@));
        (c, Proof {  })
    }
}

impl Encrypt for SecretKey {
    open spec fn encryption_tag(&self) -> Seq<u8> {
        self@
    }

    fn encrypt(&self, witness: &secp256k1::KeyPair) -> (r: (Ciphertext, Proof)) {
        self.to_pk().encrypt(witness)
    }
}

impl Pow for PublicKey {
    fn pow_ct(&self, c: &Ciphertext, exponent: &secp256k1::KeyPair) -> (r: Ciphertext) {
        let e = exponent.to_sk().to_scalar();
        Ciphertext { tag: c.tag, plaintext: e.times(&c.plaintext) }
    }

    fn pow_pt(&self, p: &secp256k1::PublicKey, exponent: &secp256k1::KeyPair) -> (r:
        secp256k1::PublicKey) {
        proof {
            lemma_mul_mod_comm(exponent@, p@);
        }
        p.times(&exponent.to_sk())
    }
}

impl Decrypt for SecretKey {
    open spec fn decryption_tag(&self) -> Seq<u8> {
        self@
    }

    fn decrypt(&self, c: &Ciphertext) -> (r: Scalar) {
        match rank(c.tag.as_slice(), self.tag.as_slice()) {
            Rank::Same => c.plaintext,
            _ => Scalar::zero(),
        }
    }
}

/// Checks that `(a, c)` is a puzzle under `pk`: that `c` encrypts, under
/// `pk`, the discrete logarithm of the point `a`.
pub fn verify_puzzle(pk: &PublicKey, proof: &Proof, a: &secp256k1::PublicKey, c: &Ciphertext) -> (r:
    Result<(), Error>)
    ensures
        r is Ok <==> is_puzzle(pk@, a@, c@),
        r is Err ==> r == Err::<(), Error>(Error::BadProof),
{
    proof {
        use_type_invariant(c.plaintext);
        c.plaintext.lemma_reduced();
        use_type_invariant(a);
        a.lemma_valid();
    }
    let same_key = match rank(c.tag.as_slice(), pk.tag.as_slice()) {
        Rank::Same => true,
        _ => false,
    };
    if !same_key {
        return Err(Error::BadProof);
    }
    match secp256k1::PublicKey::generator_scaled(&c.plaintext) {
        Some(point) => {
            if point.eq(a) {
                assert(c@ == encryption(pk@, c@.plaintext));
                Ok(())
            } else {
                Err(Error::BadProof)
            }
        },
        None => Err(Error::BadProof),
    }
}

} // verus!
