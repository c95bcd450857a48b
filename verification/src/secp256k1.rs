//! Scalars and points of secp256k1.
//!
//! A scalar is held as 32 big-endian bytes below the group order, a point as
//! its 33-byte compressed encoding. The arithmetic itself is done by
//! `libsecp256k1`; this module states what each operation computes, in terms
//! of residues modulo the order and of multiples of the generator.

use vstd::prelude::*;
use crate::arith::{
    add_mod, fold, half_order, inv_mod, invertible, is_inverse, lemma_add_mod_zero, lemma_fold,
    lemma_half_order, lemma_inv_mod, lemma_invertible, lemma_mod_range, lemma_mul_mod_comm,
    lemma_mul_mod_range, lemma_mul_mod_zero, lemma_neg_mod, mul_mod, neg_mod, order,
};
use crate::bytes::{be_value, lemma_zeros, rank, spells_zero, Rank};

verus! {

/// A residue modulo the group order.
#[derive(Clone, Copy, Debug)]
pub struct Scalar {
    bytes: [u8; 32],
}

impl View for Scalar {
    type V = nat;

    closed spec fn view(&self) -> nat {
        be_value(self.bytes@)
    }
}

/// Reduces 32 big-endian bytes modulo the group order.
///
/// Calls `Scalar::set_b32`, which loads the bytes and subtracts the order once
/// if the number is not below it, and `Scalar::b32`, which writes the residue
/// back as 32 big-endian bytes.
#[verifier::external_body]
fn raw_reduce(a: &[u8; 32]) -> (r: [u8; 32])
    ensures
        be_value(r@) == be_value(a@) % order(),
{
    let mut x = libsecp256k1::curve::Scalar::default();
    let _ = x.set_b32(a);
    x.b32()
}

/// Whether 32 big-endian bytes spell a number that is not below the group
/// order.
///
/// Calls `Scalar::set_b32` and hands back the overflow flag that it returns.
#[verifier::external_body]
fn raw_overflows(a: &[u8; 32]) -> (r: bool)
    ensures
        r == (be_value(a@) >= order()),
{
    let mut x = libsecp256k1::curve::Scalar::default();
    bool::from(x.set_b32(a))
}

/// Multiplies two residues.
///
/// Calls `Scalar`'s `Mul`, the product modulo the group order.
#[verifier::external_body]
fn raw_times(a: &[u8; 32], b: &[u8; 32]) -> (r: [u8; 32])
    ensures
        be_value(r@) == mul_mod(be_value(a@), be_value(b@)),
{
    let mut x = libsecp256k1::curve::Scalar::default();
    let mut y = libsecp256k1::curve::Scalar::default();
    let _ = x.set_b32(a);
    let _ = y.set_b32(b);
    (x * y).b32()
}

/// Adds two residues.
///
/// Calls `Scalar`'s `Add`, the sum modulo the group order.
#[verifier::external_body]
fn raw_plus(a: &[u8; 32], b: &[u8; 32]) -> (r: [u8; 32])
    ensures
        be_value(r@) == add_mod(be_value(a@), be_value(b@)),
{
    let mut x = libsecp256k1::curve::Scalar::default();
    let mut y = libsecp256k1::curve::Scalar::default();
    let _ = x.set_b32(a);
    let _ = y.set_b32(b);
    (x + y).b32()
}

/// Negates a residue.
///
/// Calls `Scalar`'s `Neg`, which gives the order minus the residue, and zero
/// for zero.
#[verifier::external_body]
fn raw_negate(a: &[u8; 32]) -> (r: [u8; 32])
    ensures
        be_value(r@) == neg_mod(be_value(a@)),
{
    let mut x = libsecp256k1::curve::Scalar::default();
    let _ = x.set_b32(a);
    (-x).b32()
}

/// Inverts a residue.
///
/// Calls `Scalar::inv`, the multiplicative inverse modulo the group order: a
/// chain of squarings and multiplications that raises the residue to the
/// power of the order less two. The result is reduced; for a residue other
/// than zero its product with the argument is one, and for zero it is zero.
#[verifier::external_body]
fn raw_invert(a: &[u8; 32]) -> (r: [u8; 32])
    ensures
        be_value(r@) < order(),
        be_value(a@) % order() != 0 ==> mul_mod(be_value(a@), be_value(r@)) == 1,
        be_value(a@) % order() == 0 ==> be_value(r@) == 0,
{
    let mut x = libsecp256k1::curve::Scalar::default();
    let _ = x.set_b32(a);
    x.inv().b32()
}

impl Scalar {
    /// The type's invariant: the bytes spell a number below the group order.
    #[verifier::type_invariant]
    pub closed spec fn reduced(self) -> bool {
        be_value(self.bytes@) < order()
    }

    /// The 32 big-endian bytes of the residue.
    pub closed spec fn encoding(self) -> Seq<u8> {
        self.bytes@
    }

    /// What the type's invariant says, for use outside this module.
    pub proof fn lemma_reduced(self)
        requires
            self.reduced(),
        ensures
            self@ < order(),
            self@ == be_value(self.encoding()),
            self.encoding().len() == 32,
    {
    }

    /// Reads a scalar from 32 big-endian bytes; `None` unless they spell a
    /// number below the group order.
    pub fn from_bytes(bytes: [u8; 32]) -> (r: Option<Scalar>)
        ensures
            r is Some <==> be_value(bytes@) < order(),
            r matches Some(s) ==> s@ == be_value(bytes@) && s.encoding() == bytes@,
    {
        if raw_overflows(&bytes) {
            None
        } else {
            Some(Scalar { bytes })
        }
    }

    /// Reads 32 big-endian bytes as a number and reduces it modulo the order.
    pub fn from_bytes_reduced(bytes: [u8; 32]) -> (r: Scalar)
        ensures
            r@ == be_value(bytes@) % order(),
    {
        let reduced = raw_reduce(&bytes);
        proof {
            lemma_mod_range(be_value(bytes@));
        }
        Scalar { bytes: reduced }
    }

    /// The 32 big-endian bytes of the residue.
    pub fn to_bytes(&self) -> (r: [u8; 32])
        ensures
            r@ == self.encoding(),
            be_value(r@) == self@,
    {
        self.bytes
    }

    /// The scalar zero.
    pub fn zero() -> (r: Scalar)
        ensures
            r@ == 0,
    {
        let bytes = [0u8; 32];
        proof {
            lemma_zeros(bytes@);
        }
        Scalar { bytes }
    }

    /// Whether the scalar is zero.
    pub fn is_zero(&self) -> (r: bool)
        ensures
            r == (self@ == 0),
    {
        spells_zero(&self.bytes)
    }

    /// Whether the two are the same.
    pub fn eq(&self, other: &Scalar) -> (r: bool)
        ensures
            r == (self@ == other@),
            r == (self.encoding() == other.encoding()),
    {
        match rank(&self.bytes, &other.bytes) {
            Rank::Same => true,
            _ => false,
        }
    }

    /// The product modulo the order.
    pub fn times(&self, other: &Scalar) -> (r: Scalar)
        ensures
            r@ == mul_mod(self@, other@),
    {
        let bytes = raw_times(&self.bytes, &other.bytes);
        proof {
            lemma_mul_mod_range(self@, other@);
        }
        Scalar { bytes }
    }

    /// The sum modulo the order.
    pub fn plus(&self, other: &Scalar) -> (r: Scalar)
        ensures
            r@ == add_mod(self@, other@),
    {
        let bytes = raw_plus(&self.bytes, &other.bytes);
        proof {
            lemma_mod_range(self@ + other@);
        }
        Scalar { bytes }
    }

    /// The additive inverse modulo the order.
    pub fn negate(&self) -> (r: Scalar)
        ensures
            r@ == neg_mod(self@),
    {
        let bytes = raw_negate(&self.bytes);
        proof {
            lemma_neg_mod(self@);
        }
        Scalar { bytes }
    }

    /// The multiplicative inverse modulo the order; zero for zero, which has
    /// none.
    pub fn invert(&self) -> (r: Scalar)
        ensures
            self@ != 0 ==> is_inverse(self@, r@) && r@ == inv_mod(self@) && invertible(self@),
            (self@ == 0) == (r@ == 0),
    {
        proof {
            use_type_invariant(self);
            lemma_mod_range(self@);
        }
        let bytes = raw_invert(&self.bytes);
        let r = Scalar { bytes };
        proof {
            if self@ != 0 {
                lemma_inv_mod(self@, r@);
                lemma_invertible(self@);
            }
        }
        r
    }

    /// Whether the scalar is at most half the order: whether it is the lesser
    /// of itself and its negative.
    pub fn is_low(&self) -> (r: bool)
        ensures
            r == (self@ <= half_order()),
    {
        let neg = self.negate();
        proof {
            use_type_invariant(self);
            lemma_neg_mod(self@);
            lemma_mod_range(self@);
            lemma_half_order();
        }
        match rank(&self.bytes, &neg.bytes) {
            Rank::Above => false,
            _ => true,
        }
    }

    /// The lesser of the scalar and its negative.
    pub fn folded(&self) -> (r: Scalar)
        ensures
            r@ == fold(self@),
            r@ <= half_order(),
    {
        proof {
            use_type_invariant(self);
            lemma_fold(self@);
            lemma_mod_range(self@);
        }
        if self.is_low() {
            *self
        } else {
            self.negate()
        }
    }
}

/// The compressed encoding of the point `k·G`, where `G` is the generator and
/// `0 < k < order()`: a byte `0x02` or `0x03` for the parity of the ordinate,
/// then the abscissa in 32 big-endian bytes.
pub uninterp spec fn generator_multiple(k: nat) -> Seq<u8>;

/// `encoding` is the compressed encoding of `k·G`.
pub open spec fn is_multiple(encoding: Seq<u8>, k: nat) -> bool {
    0 < k < order() && generator_multiple(k) == encoding
}

/// The `k` for which `encoding` encodes `k·G`. The library never computes it:
/// it is what contracts speak of.
pub open spec fn discrete_log(encoding: Seq<u8>) -> nat {
    choose|k: nat| is_multiple(encoding, k)
}

/// `encoding` is the compressed encoding of a point of the group other than
/// the point at infinity.
pub open spec fn is_point(encoding: Seq<u8>) -> bool {
    is_multiple(encoding, discrete_log(encoding))
}

/// The abscissa of `k·G`, reduced modulo the group order.
pub open spec fn abscissa(k: nat) -> nat {
    be_value(generator_multiple(k).subrange(1, 33)) % order()
}

/// Whether 33 bytes are the compressed encoding of a point.
///
/// Calls `PublicKey::parse_compressed`, which accepts exactly the encodings of
/// the points of the curve other than the point at infinity. Each of them is a
/// multiple `k·G` with `0 < k < order()`, the group being cyclic.
#[verifier::external_body]
fn raw_is_point(p: &[u8; 33]) -> (r: bool)
    ensures
        r == is_point(p@),
{
    libsecp256k1::PublicKey::parse_compressed(p).is_ok()
}

/// The multiple `k·G` of the generator.
///
/// Calls `PublicKey::from_secret_key` and `PublicKey::serialize_compressed`.
/// The contract also claims that no other `k` below the order gives the same
/// point.
#[verifier::external_body]
fn raw_generator_times(k: &[u8; 32]) -> (r: [u8; 33])
    requires
        0 < be_value(k@) < order(),
    ensures
        r@ == generator_multiple(be_value(k@)),
        discrete_log(r@) == be_value(k@),
{
    let sk = libsecp256k1::SecretKey::parse(k).unwrap();
    libsecp256k1::PublicKey::from_secret_key(&sk).serialize_compressed()
}

/// The multiple `k·P` of a point.
///
/// Calls `PublicKey::tweak_mul_assign`, which fails only for `k = 0`. The
/// result is again a point, and its discrete logarithm is the product of that
/// of `P` with `k`.
#[verifier::external_body]
fn raw_point_times(p: &[u8; 33], k: &[u8; 32]) -> (r: [u8; 33])
    requires
        is_point(p@),
        0 < be_value(k@) < order(),
    ensures
        is_point(r@),
        discrete_log(r@) == mul_mod(discrete_log(p@), be_value(k@)),
{
    let mut q = libsecp256k1::PublicKey::parse_compressed(p).unwrap();
    let sk = libsecp256k1::SecretKey::parse(k).unwrap();
    q.tweak_mul_assign(&sk).unwrap();
    q.serialize_compressed()
}

/// The sum `P + Q` of two points, `None` where it is the point at infinity.
///
/// Calls `PublicKey::combine`, which adds the points and fails only where the
/// sum is the point at infinity, that is where the discrete logarithms add up
/// to zero.
#[verifier::external_body]
fn raw_point_plus(p: &[u8; 33], q: &[u8; 33]) -> (r: Option<[u8; 33]>)
    requires
        is_point(p@),
        is_point(q@),
    ensures
        r is None <==> add_mod(discrete_log(p@), discrete_log(q@)) == 0,
        r matches Some(s) ==> is_point(s@) && discrete_log(s@) == add_mod(
            discrete_log(p@),
            discrete_log(q@),
        ),
{
    let a = libsecp256k1::PublicKey::parse_compressed(p).unwrap();
    let b = libsecp256k1::PublicKey::parse_compressed(q).unwrap();
    match libsecp256k1::PublicKey::combine(&[a, b]) {
        Ok(sum) => Some(sum.serialize_compressed()),
        Err(_) => None,
    }
}

/// The abscissa of a point, reduced modulo the group order.
///
/// Calls `PublicKey::parse_compressed`, takes the abscissa of the point with
/// `Field::normalize` and `Field::b32`, and reduces it with `Scalar::set_b32`
/// and `Scalar::b32`. A point and its negative have the same abscissa, so
/// the result depends on the discrete logarithm only up to its sign: that is
/// what the contract claims beyond the reduction.
#[verifier::external_body]
fn raw_abscissa(p: &[u8; 33]) -> (r: [u8; 32])
    requires
        is_point(p@),
    ensures
        be_value(r@) == abscissa(fold(discrete_log(p@))),
{
    let point: libsecp256k1::curve::Affine =
        libsecp256k1::PublicKey::parse_compressed(p).unwrap().into();
    let mut x = point.x;
    x.normalize();
    let mut s = libsecp256k1::curve::Scalar::default();
    let _ = s.set_b32(&x.b32());
    s.b32()
}

/// The generator of random numbers that callers hand in: `rand`'s generator
/// of the current thread. Nothing is claimed of what it holds.
#[verifier::external_type_specification]
#[verifier::external_body]
pub struct ExThreadRng(rand::rngs::ThreadRng);

/// Draws a secret key.
///
/// Calls `SecretKey::random`, which draws 32 bytes from the generator until
/// they spell a number above zero and below the group order.
#[verifier::external_body]
fn raw_random_key(rng: &mut rand::rngs::ThreadRng) -> (r: [u8; 32])
    ensures
        0 < be_value(r@) < order(),
{
    libsecp256k1::SecretKey::random(rng).serialize()
}

/// A secret key: a scalar other than zero.
#[derive(Clone, Copy, Debug)]
pub struct SecretKey {
    scalar: Scalar,
}

impl View for SecretKey {
    type V = nat;

    closed spec fn view(&self) -> nat {
        self.scalar@
    }
}

impl SecretKey {
    /// The type's invariant: the scalar is not zero.
    #[verifier::type_invariant]
    pub closed spec fn nonzero(self) -> bool {
        0 < self.scalar@ < order()
    }

    /// What the type's invariant says, for use outside this module.
    pub proof fn lemma_nonzero(self)
        requires
            self.nonzero(),
        ensures
            0 < self@ < order(),
    {
    }

    /// A scalar as a secret key; `None` for zero.
    pub fn from_scalar(scalar: Scalar) -> (r: Option<SecretKey>)
        ensures
            r is Some <==> scalar@ != 0,
            r matches Some(k) ==> k@ == scalar@,
    {
        proof {
            use_type_invariant(scalar);
        }
        if scalar.is_zero() {
            None
        } else {
            Some(SecretKey { scalar })
        }
    }

    /// Reads a secret key from 32 big-endian bytes; `None` unless they spell a
    /// number above zero and below the group order.
    pub fn from_bytes(bytes: [u8; 32]) -> (r: Option<SecretKey>)
        ensures
            r is Some <==> 0 < be_value(bytes@) < order(),
            r matches Some(k) ==> k@ == be_value(bytes@),
    {
        match Scalar::from_bytes(bytes) {
            Some(scalar) => SecretKey::from_scalar(scalar),
            None => None,
        }
    }

    /// A fresh secret key from the caller's generator.
    pub fn random(rng: &mut rand::rngs::ThreadRng) -> (r: SecretKey)
        ensures
            0 < r@ < order(),
    {
        let bytes = raw_random_key(rng);
        let scalar = Scalar { bytes };
        SecretKey { scalar }
    }

    /// The key as a scalar.
    pub fn to_scalar(&self) -> (r: Scalar)
        ensures
            r@ == self@,
            0 < r@ < order(),
    {
        proof {
            use_type_invariant(self);
        }
        self.scalar
    }

    /// The 32 big-endian bytes of the key.
    pub fn to_bytes(&self) -> (r: [u8; 32])
        ensures
            be_value(r@) == self@,
    {
        self.scalar.to_bytes()
    }
}

/// A point of the group other than the point at infinity.
#[derive(Clone, Copy, Debug)]
pub struct PublicKey {
    bytes: [u8; 33],
}

impl View for PublicKey {
    type V = nat;

    /// The discrete logarithm of the point.
    closed spec fn view(&self) -> nat {
        discrete_log(self.bytes@)
    }
}

impl PublicKey {
    /// The type's invariant: the bytes encode a point.
    #[verifier::type_invariant]
    pub closed spec fn valid(self) -> bool {
        is_point(self.bytes@)
    }

    /// The 33 bytes of the compressed encoding.
    pub closed spec fn encoding(self) -> Seq<u8> {
        self.bytes@
    }

    /// What the type's invariant says, for use outside this module.
    pub proof fn lemma_valid(self)
        requires
            self.valid(),
        ensures
            0 < self@ < order(),
            self@ == discrete_log(self.encoding()),
            self.encoding() == generator_multiple(self@),
            self.encoding().len() == 33,
            is_point(self.encoding()),
    {
    }

    /// Two valid points with one discrete logarithm are one point.
    pub proof fn lemma_same_log(self, other: PublicKey)
        requires
            self.valid(),
            other.valid(),
            self@ == other@,
        ensures
            self.encoding() == other.encoding(),
    {
    }

    /// Reads a point from its compressed encoding; `None` unless the bytes
    /// encode a point of the curve.
    pub fn from_bytes(bytes: [u8; 33]) -> (r: Option<PublicKey>)
        ensures
            r is Some <==> is_point(bytes@),
            r matches Some(p) ==> p.encoding() == bytes@ && p@ == discrete_log(bytes@),
    {
        if raw_is_point(&bytes) {
            Some(PublicKey { bytes })
        } else {
            None
        }
    }

    /// The compressed encoding of the point.
    pub fn to_bytes(&self) -> (r: [u8; 33])
        ensures
            r@ == self.encoding(),
            r@ == generator_multiple(self@),
    {
        proof {
            use_type_invariant(self);
        }
        self.bytes
    }

    /// The point `k·G`.
    pub fn from_secret_key(k: &SecretKey) -> (r: PublicKey)
        ensures
            r@ == k@,
    {
        proof {
            use_type_invariant(k);
        }
        let scalar = k.to_scalar();
        let bytes = raw_generator_times(&scalar.to_bytes());
        PublicKey { bytes }
    }

    /// The point `k·P`.
    pub fn times(&self, k: &SecretKey) -> (r: PublicKey)
        ensures
            r@ == mul_mod(self@, k@),
    {
        proof {
            use_type_invariant(self);
            use_type_invariant(k);
        }
        let scalar = k.to_scalar();
        let bytes = raw_point_times(&self.bytes, &scalar.to_bytes());
        PublicKey { bytes }
    }

    /// The point `P + Q`; `None` where that is the point at infinity.
    pub fn plus(&self, other: &PublicKey) -> (r: Option<PublicKey>)
        ensures
            r is None <==> add_mod(self@, other@) == 0,
            r matches Some(p) ==> p@ == add_mod(self@, other@),
    {
        proof {
            use_type_invariant(self);
            use_type_invariant(other);
        }
        match raw_point_plus(&self.bytes, &other.bytes) {
            Some(bytes) => Some(PublicKey { bytes }),
            None => None,
        }
    }

    /// The point `k·G`; `None` for `k = 0`, where that is the point at
    /// infinity.
    pub fn generator_scaled(k: &Scalar) -> (r: Option<PublicKey>)
        ensures
            r is None <==> k@ == 0,
            log_or_zero(r) == k@,
    {
        match SecretKey::from_scalar(*k) {
            Some(key) => Some(PublicKey::from_secret_key(&key)),
            None => None,
        }
    }

    /// The point `k·P`; `None` for `k = 0`, where that is the point at
    /// infinity.
    pub fn scaled(&self, k: &Scalar) -> (r: Option<PublicKey>)
        ensures
            r is None <==> k@ == 0,
            r is None <==> mul_mod(k@, self@) == 0,
            log_or_zero(r) == mul_mod(k@, self@),
    {
        proof {
            lemma_mul_mod_comm(k@, self@);
            lemma_mul_mod_zero(self@);
        }
        match SecretKey::from_scalar(*k) {
            Some(key) => {
                let p = self.times(&key);
                proof {
                    use_type_invariant(p);
                }
                Some(p)
            },
            None => None,
        }
    }

    /// The sum of two points either of which may be the point at infinity,
    /// written `None`.
    pub fn sum(a: Option<PublicKey>, b: Option<PublicKey>) -> (r: Option<PublicKey>)
        ensures
            r is None <==> add_mod(log_or_zero(a), log_or_zero(b)) == 0,
            log_or_zero(r) == add_mod(log_or_zero(a), log_or_zero(b)),
    {
        match (a, b) {
            (None, None) => {
                proof {
                    lemma_add_mod_zero(0);
                    lemma_mod_range(0);
                }
                None
            },
            (Some(p), None) => {
                proof {
                    use_type_invariant(p);
                    lemma_add_mod_zero(p@);
                    lemma_mod_range(p@);
                }
                Some(p)
            },
            (None, Some(q)) => {
                proof {
                    use_type_invariant(q);
                    lemma_add_mod_zero(q@);
                    lemma_mod_range(q@);
                }
                Some(q)
            },
            (Some(p), Some(q)) => {
                let r = p.plus(&q);
                proof {
                    if let Some(s) = r {
                        use_type_invariant(s);
                    }
                }
                r
            },
        }
    }

    /// The abscissa of the point, reduced modulo the group order.
    pub fn abscissa(&self) -> (r: Scalar)
        ensures
            r@ == abscissa(fold(self@)),
    {
        proof {
            use_type_invariant(self);
        }
        let bytes = raw_abscissa(&self.bytes);
        proof {
            lemma_mod_range(be_value(generator_multiple(fold(self@)).subrange(1, 33)));
        }
        Scalar { bytes }
    }

    /// Whether the two are the same.
    pub fn eq(&self, other: &PublicKey) -> (r: bool)
        ensures
            r == (self@ == other@),
            r == (self.encoding() == other.encoding()),
    {
        proof {
            use_type_invariant(self);
            use_type_invariant(other);
        }
        match rank(&self.bytes, &other.bytes) {
            Rank::Same => true,
            _ => false,
        }
    }

    /// Whether this point's encoding comes before the other's, byte by byte.
    pub fn sorts_before(&self, other: &PublicKey) -> (r: bool)
        ensures
            r == (be_value(self.encoding()) < be_value(other.encoding())),
    {
        match rank(&self.bytes, &other.bytes) {
            Rank::Below => true,
            _ => false,
        }
    }
}

/// The discrete logarithm of a point, with zero standing for the point at
/// infinity.
pub open spec fn log_or_zero(p: Option<PublicKey>) -> nat {
    match p {
        Some(q) => q@,
        None => 0,
    }
}

/// A secret key together with its point.
#[derive(Clone, Copy, Debug)]
pub struct KeyPair {
    sk: SecretKey,
    pk: PublicKey,
}

impl View for KeyPair {
    type V = nat;

    /// The secret scalar, which is also the discrete logarithm of the point.
    closed spec fn view(&self) -> nat {
        self.sk@
    }
}

impl KeyPair {
    /// The type's invariant: the point is the secret key's.
    #[verifier::type_invariant]
    pub closed spec fn matched(self) -> bool {
        self.pk@ == self.sk@ && 0 < self.sk@ < order()
    }

    /// The pair of a secret key and the point it generates.
    pub fn from_secret_key(sk: SecretKey) -> (r: KeyPair)
        ensures
            r@ == sk@,
    {
        let pk = PublicKey::from_secret_key(&sk);
        proof {
            use_type_invariant(sk);
        }
        KeyPair { sk, pk }
    }

    /// A fresh key pair from the caller's generator.
    pub fn random(rng: &mut rand::rngs::ThreadRng) -> (r: KeyPair)
        ensures
            0 < r@ < order(),
    {
        KeyPair::from_secret_key(SecretKey::random(rng))
    }

    /// The point of the pair.
    pub fn to_pk(&self) -> (r: PublicKey)
        ensures
            r@ == self@,
    {
        proof {
            use_type_invariant(self);
        }
        self.pk
    }

    /// The secret key of the pair.
    pub fn to_sk(&self) -> (r: SecretKey)
        ensures
            r@ == self@,
    {
        self.sk
    }

    /// The secret key of the pair.
    pub fn into_sk(self) -> (r: SecretKey)
        ensures
            r@ == self@,
    {
        self.sk
    }
}

} // verus!
