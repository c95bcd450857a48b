//! Arithmetic modulo the order of the secp256k1 group.
//!
//! Scalars, exponents and discrete logarithms all live in the integers modulo
//! `order()`. Everything here is specification and proof: the functions name
//! the operations, the lemmas are the algebra the rest of the crate rests on.

use vstd::prelude::*;
use vstd::arithmetic::div_mod::*;
use vstd::arithmetic::mul::*;

verus! {

/// The number of points of the secp256k1 group.
pub open spec fn order() -> nat {
    0xFFFFFFFFFFFFFFFFFFFFFFFFFFFFFFFEBAAEDCE6AF48A03BBFD25E8CD0364141nat
}

/// The largest value that counts as "low": half the order, rounded down.
pub open spec fn half_order() -> nat {
    0x7FFFFFFFFFFFFFFFFFFFFFFFFFFFFFFF5D576E7357A4501DDFE92F46681B20A0nat
}

/// Product modulo the order.
pub open spec fn mul_mod(a: nat, b: nat) -> nat {
    (a * b) % order()
}

/// Sum modulo the order.
pub open spec fn add_mod(a: nat, b: nat) -> nat {
    (a + b) % order()
}

/// Additive inverse modulo the order.
pub open spec fn neg_mod(a: nat) -> nat {
    ((order() - a % order()) % (order() as int)) as nat
}

/// `b` is the reduced multiplicative inverse of `a`.
pub open spec fn is_inverse(a: nat, b: nat) -> bool {
    b < order() && mul_mod(a, b) == 1
}

/// `a` has a multiplicative inverse modulo the order.
pub open spec fn invertible(a: nat) -> bool {
    exists|b: nat| is_inverse(a, b)
}

/// The multiplicative inverse of `a`, where it has one.
pub open spec fn inv_mod(a: nat) -> nat {
    choose|b: nat| is_inverse(a, b)
}

/// `a` is a reduced residue with a multiplicative inverse. The order being
/// prime, these are the residues other than zero.
pub open spec fn unit(a: nat) -> bool {
    a < order() && invertible(a)
}

/// Of a residue and its negative, the one that is at most `half_order()`.
pub open spec fn fold(k: nat) -> nat {
    if k % order() <= half_order() {
        k % order()
    } else {
        neg_mod(k)
    }
}

/// The order is odd: twice its half and one more.
pub proof fn lemma_half_order()
    ensures
        2 * half_order() + 1 == order(),
{
}

/// A residue is below the order, and a number below the order is its own
/// residue.
pub proof fn lemma_mod_range(a: nat)
    ensures
        a % order() < order(),
        a < order() ==> a % order() == a,
{
    lemma_mod_bound(a as int, order() as int);
    if a < order() {
        lemma_small_mod(a, order());
    }
}

/// A product modulo the order is below the order.
pub proof fn lemma_mul_mod_range(a: nat, b: nat)
    ensures
        mul_mod(a, b) < order(),
{
    lemma_mod_range(a * b);
}

/// The product does not depend on the order of its factors.
pub proof fn lemma_mul_mod_comm(a: nat, b: nat)
    ensures
        mul_mod(a, b) == mul_mod(b, a),
{
    lemma_mul_is_commutative(a as int, b as int);
}

/// Reducing a factor first does not change the product.
pub proof fn lemma_mul_mod_reduce(a: nat, b: nat)
    ensures
        mul_mod(a % order(), b) == mul_mod(a, b),
        mul_mod(a, b % order()) == mul_mod(a, b),
{
    lemma_mul_mod_noop_left(a as int, b as int, order() as int);
    lemma_mul_mod_noop_right(a as int, b as int, order() as int);
}

/// The product does not depend on how its factors are grouped.
pub proof fn lemma_mul_mod_assoc(a: nat, b: nat, c: nat)
    ensures
        mul_mod(mul_mod(a, b), c) == mul_mod(a, mul_mod(b, c)),
{
    lemma_mul_mod_reduce(a * b, c);
    lemma_mul_mod_reduce(a, b * c);
    lemma_mul_is_associative(a as int, b as int, c as int);
}

/// The sum does not depend on the order of its terms.
pub proof fn lemma_add_mod_comm(a: nat, b: nat)
    ensures
        add_mod(a, b) == add_mod(b, a),
{
}

/// Reducing a term first does not change the sum.
pub proof fn lemma_add_mod_reduce(a: nat, b: nat)
    ensures
        add_mod(a % order(), b) == add_mod(a, b),
        add_mod(a, b % order()) == add_mod(a, b),
{
    lemma_add_mod_noop(a as int, b as int, order() as int);
    lemma_mod_twice(a as int, order() as int);
    lemma_mod_twice(b as int, order() as int);
    lemma_add_mod_noop((a % order()) as int, b as int, order() as int);
    lemma_add_mod_noop(a as int, (b % order()) as int, order() as int);
}

/// The product distributes over the sum.
pub proof fn lemma_mul_mod_distributes(a: nat, b: nat, c: nat)
    ensures
        mul_mod(a, add_mod(b, c)) == add_mod(mul_mod(a, b), mul_mod(a, c)),
        mul_mod(add_mod(b, c), a) == add_mod(mul_mod(b, a), mul_mod(c, a)),
{
    lemma_mul_mod_reduce(a, b + c);
    lemma_mul_is_distributive_add(a as int, b as int, c as int);
    lemma_add_mod_noop((a * b) as int, (a * c) as int, order() as int);
    lemma_mul_mod_comm(a, add_mod(b, c));
    lemma_mul_mod_comm(a, b);
    lemma_mul_mod_comm(a, c);
}

/// One is neutral for the product.
pub proof fn lemma_mul_mod_one(a: nat)
    ensures
        mul_mod(a, 1) == a % order(),
        mul_mod(1, a) == a % order(),
{
    assert(a * 1 == a);
    assert(1 * a == a);
}

/// A product with zero is zero.
pub proof fn lemma_mul_mod_zero(a: nat)
    ensures
        mul_mod(a, 0) == 0,
        mul_mod(0, a) == 0,
{
    assert(a * 0 == 0);
    assert(0 * a == 0);
}

/// An inverse undoes a multiplication.
pub proof fn lemma_mul_mod_cancel(a: nat, b: nat, b_inv: nat)
    requires
        is_inverse(b, b_inv),
    ensures
        mul_mod(mul_mod(a, b), b_inv) == a % order(),
        mul_mod(mul_mod(a, b_inv), b) == a % order(),
{
    lemma_mul_mod_assoc(a, b, b_inv);
    lemma_mul_mod_assoc(a, b_inv, b);
    lemma_mul_mod_comm(b, b_inv);
    lemma_mul_mod_one(a);
}

/// A residue has at most one inverse.
pub proof fn lemma_inverse_unique(a: nat, b: nat, c: nat)
    requires
        is_inverse(a, b),
        is_inverse(a, c),
    ensures
        b == c,
{
    // b = b * (a * c) = (b * a) * c = c
    lemma_mul_mod_cancel(b, a, c);
    lemma_mul_mod_assoc(b, a, c);
    lemma_mul_mod_comm(b, a);
    lemma_mul_mod_one(c);
    lemma_mod_range(b);
    lemma_mod_range(c);
}

/// An inverse at hand is the inverse, and is itself inverted by the residue.
pub proof fn lemma_inv_mod(a: nat, b: nat)
    requires
        is_inverse(a, b),
    ensures
        invertible(a),
        inv_mod(a) == b,
        is_inverse(b, a % order()),
        invertible(b),
        inv_mod(b) == a % order(),
{
    lemma_inverse_unique(a, b, inv_mod(a));
    lemma_mul_mod_comm(a, b);
    lemma_mul_mod_reduce(a, b);
    lemma_mod_range(a);
    lemma_mul_mod_comm(a % order(), b);
    assert(is_inverse(b, a % order()));
    lemma_inverse_unique(b, a % order(), inv_mod(b));
}

/// What an invertible residue and its inverse are: neither is zero, and each
/// inverts the other.
pub proof fn lemma_invertible(a: nat)
    requires
        invertible(a),
    ensures
        is_inverse(a, inv_mod(a)),
        inv_mod(a) < order(),
        invertible(inv_mod(a)),
        a % order() != 0,
        inv_mod(a) != 0,
{
    let b = inv_mod(a);
    lemma_inv_mod(a, b);
    if a % order() == 0 {
        lemma_mul_mod_reduce(a, b);
        lemma_mul_mod_zero(b);
    }
    if b == 0 {
        lemma_mul_mod_zero(a);
    }
}

/// A product of invertible residues is invertible, and nothing else is.
pub proof fn lemma_mul_mod_invertible(a: nat, b: nat)
    requires
        invertible(a),
        invertible(b),
    ensures
        invertible(mul_mod(a, b)),
        inv_mod(mul_mod(a, b)) == mul_mod(inv_mod(a), inv_mod(b)),
        mul_mod(a, b) != 0,
{
    let ai = inv_mod(a);
    let bi = inv_mod(b);
    let ab = mul_mod(a, b);
    let abi = mul_mod(ai, bi);
    lemma_invertible(a);
    lemma_invertible(b);
    lemma_mul_mod_range(ai, bi);
    // (a b)(ai bi) = a (b (ai bi)) = a (ai (b bi)) = a ai = 1
    lemma_mul_mod_assoc(a, b, abi);
    lemma_mul_mod_comm(ai, bi);
    lemma_mul_mod_assoc(b, bi, ai);
    lemma_mul_mod_one(ai);
    lemma_mod_range(ai);
    assert(mul_mod(b, mul_mod(bi, ai)) == ai);
    assert(mul_mod(ab, abi) == 1);
    assert(is_inverse(ab, abi));
    lemma_inv_mod(ab, abi);
    lemma_mul_mod_range(a, b);
    lemma_invertible(ab);
    lemma_mod_range(ab);
}

/// The units are closed under products and inverses.
pub proof fn lemma_unit(a: nat, b: nat)
    requires
        unit(a),
        unit(b),
    ensures
        unit(mul_mod(a, b)),
        unit(inv_mod(a)),
        inv_mod(inv_mod(a)) == a,
        inv_mod(mul_mod(a, b)) == mul_mod(inv_mod(a), inv_mod(b)),
        mul_mod(a, inv_mod(a)) == 1,
        mul_mod(inv_mod(a), a) == 1,
        0 < a,
        0 < mul_mod(a, b),
{
    lemma_invertible(a);
    lemma_inv_mod(a, inv_mod(a));
    lemma_mod_range(a);
    lemma_mul_mod_invertible(a, b);
    lemma_mul_mod_range(a, b);
    lemma_mul_mod_comm(a, inv_mod(a));
}

/// The negative is reduced, sums to zero with the residue, and negates back.
pub proof fn lemma_neg_mod(a: nat)
    ensures
        neg_mod(a) < order(),
        add_mod(a, neg_mod(a)) == 0,
        neg_mod(neg_mod(a)) == a % order(),
        neg_mod(a % order()) == neg_mod(a),
        neg_mod(a) == 0 <==> a % order() == 0,
        a % order() != 0 ==> neg_mod(a) == order() - a % order(),
{
    let n = order();
    let r = a % n;
    lemma_mod_range(a);
    lemma_mod_twice(a as int, n as int);
    if r == 0 {
        lemma_mod_self_0(n as int);
        assert(neg_mod(a) == 0);
        lemma_small_mod(0, n);
    } else {
        lemma_small_mod((n - r) as nat, n);
        assert(neg_mod(a) == n - r);
        lemma_small_mod(r, n);
        lemma_small_mod((n - (n - r)) as nat, n);
    }
    lemma_add_mod_reduce(a, neg_mod(a));
    lemma_mod_self_0(n as int);
}

/// The negative of a product is the product with one factor negated.
pub proof fn lemma_mul_mod_neg(a: nat, b: nat)
    ensures
        mul_mod(neg_mod(a), b) == neg_mod(mul_mod(a, b)),
        mul_mod(a, neg_mod(b)) == neg_mod(mul_mod(a, b)),
{
    // (-a) b + a b = (-a + a) b = 0, and the negative is unique.
    let n = order();
    lemma_neg_mod(a);
    lemma_mul_mod_distributes(b, neg_mod(a), a);
    lemma_add_mod_comm(a, neg_mod(a));
    lemma_mul_mod_zero(b);
    let x = mul_mod(neg_mod(a), b);
    let y = mul_mod(a, b);
    lemma_mul_mod_comm(neg_mod(a), b);
    lemma_mul_mod_comm(a, b);
    assert(add_mod(x, y) == 0);
    lemma_mul_mod_range(neg_mod(a), b);
    lemma_mul_mod_range(a, b);
    lemma_add_zero_is_neg(x, y);
    lemma_neg_mod(b);
    lemma_mul_mod_distributes(a, neg_mod(b), b);
    lemma_add_mod_comm(b, neg_mod(b));
    lemma_mul_mod_zero(a);
    let z = mul_mod(a, neg_mod(b));
    lemma_mul_mod_range(a, neg_mod(b));
    lemma_add_zero_is_neg(z, y);
}

/// Two reduced residues that sum to zero are each other's negative.
pub proof fn lemma_add_zero_is_neg(x: nat, y: nat)
    requires
        x < order(),
        y < order(),
        add_mod(x, y) == 0,
    ensures
        x == neg_mod(y),
{
    let n = order();
    lemma_neg_mod(y);
    lemma_small_mod(y, n);
    if y == 0 {
        lemma_small_mod(x, n);
    } else {
        if x + y < n {
            lemma_small_mod(x + y, n);
        } else {
            lemma_fundamental_div_mod_converse((x + y) as int, n as int, 1, (x + y - n) as int);
        }
    }
}

/// The negative of a sum is the sum of the negatives.
pub proof fn lemma_add_mod_neg(a: nat, b: nat)
    ensures
        add_mod(neg_mod(a), neg_mod(b)) == neg_mod(add_mod(a, b)),
{
    let n = order() as int;
    let na = neg_mod(a);
    let nb = neg_mod(b);
    lemma_neg_mod(a);
    lemma_neg_mod(b);
    lemma_add_mod_noop((na + a) as int, (nb + b) as int, n);
    lemma_add_mod_comm(a, na);
    lemma_add_mod_comm(b, nb);
    assert((((na + a) + (nb + b)) as int) % n == 0);
    lemma_add_mod_noop((na + nb) as int, (a + b) as int, n);
    assert((na + nb) + (a + b) == (na + a) + (nb + b));
    assert(add_mod(add_mod(na, nb), add_mod(a, b)) == 0);
    lemma_mod_range(na + nb);
    lemma_mod_range(a + b);
    lemma_add_zero_is_neg(add_mod(na, nb), add_mod(a, b));
}

/// Zero is neutral for the sum.
pub proof fn lemma_add_mod_zero(a: nat)
    ensures
        add_mod(a, 0) == a % order(),
        add_mod(0, a) == a % order(),
{
}

/// The sum does not depend on how its terms are grouped.
pub proof fn lemma_add_mod_assoc(a: nat, b: nat, c: nat)
    ensures
        add_mod(add_mod(a, b), c) == add_mod(a, add_mod(b, c)),
{
    lemma_add_mod_reduce(a + b, c);
    lemma_add_mod_reduce(a, b + c);
}

/// The negative of an invertible residue is invertible, by the negative of
/// the inverse.
pub proof fn lemma_neg_invertible(a: nat)
    requires
        invertible(a),
    ensures
        invertible(neg_mod(a)),
        inv_mod(neg_mod(a)) == neg_mod(inv_mod(a)),
{
    let ai = inv_mod(a);
    lemma_invertible(a);
    lemma_neg_mod(ai);
    lemma_neg_mod(a);
    // (-a)(-ai) = -(a (-ai)) = -(-(a ai)) = 1
    lemma_mul_mod_neg(a, neg_mod(ai));
    lemma_mul_mod_neg(a, ai);
    lemma_neg_mod(mul_mod(a, ai));
    lemma_small_mod(1, order());
    assert(is_inverse(neg_mod(a), neg_mod(ai)));
    lemma_inv_mod(neg_mod(a), neg_mod(ai));
}

/// Folding gives a residue of at most half the order, the same for a residue
/// and its negative.
pub proof fn lemma_fold(k: nat)
    ensures
        fold(k) <= half_order(),
        fold(neg_mod(k)) == fold(k),
        fold(k % order()) == fold(k),
        fold(k) == k % order() || fold(k) == neg_mod(k),
        fold(k) == 0 <==> k % order() == 0,
{
    lemma_neg_mod(k);
    lemma_mod_range(k);
    lemma_mod_twice(k as int, order() as int);
    lemma_small_mod(neg_mod(k), order());
}

} // verus!
