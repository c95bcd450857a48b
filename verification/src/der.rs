//! The DER encoding of ECDSA signatures, as the ledger's witnesses carry them.

use vstd::prelude::*;
use crate::arith::order;
use crate::bytes::{be_value, lemma_be_value_single, rank, Rank};
use crate::ecdsa::{Signature, SignatureView};
use crate::secp256k1::Scalar;

verus! {

/// The shortest big-endian spelling of `v`: no leading zero byte, and one
/// byte for zero.
pub open spec fn min_be(v: nat) -> Seq<u8>
    decreases v,
{
    if v < 256 {
        seq![v as u8]
    } else {
        min_be(v / 256).push((v % 256) as u8)
    }
}

/// The content of a DER integer: the shortest spelling of `v`, behind a zero
/// byte where its first bit is set.
pub open spec fn der_body(v: nat) -> Seq<u8> {
    let body = min_be(v);
    if body[0] >= 0x80 {
        seq![0u8] + body
    } else {
        body
    }
}

/// A DER integer: the tag `0x02`, the length, and the content.
pub open spec fn der_integer(v: nat) -> Seq<u8> {
    seq![0x02u8, der_body(v).len() as u8] + der_body(v)
}

/// A DER signature: the tag `0x30`, the length, and the integers `r` and `s`.
pub open spec fn der_signature(sig: SignatureView) -> Seq<u8> {
    let content = der_integer(sig.r) + der_integer(sig.s);
    seq![0x30u8, content.len() as u8] + content
}

/// The hash type that says a signature covers all inputs and outputs.
pub const SIGHASH_ALL: u8 = 0x01;

/// A signature as a witness carries it: DER, then the hash type.
pub open spec fn witness_signature(sig: SignatureView) -> Seq<u8> {
    der_signature(sig).push(SIGHASH_ALL)
}

/// 256 to the power `n`.
pub open spec fn pow256(n: nat) -> nat
    decreases n,
{
    if n == 0 {
        1
    } else {
        256 * pow256((n - 1) as nat)
    }
}

/// A leading zero byte does not change the number.
pub proof fn lemma_leading_zero(bytes: Seq<u8>)
    requires
        bytes.len() >= 1,
        bytes[0] == 0,
    ensures
        be_value(bytes.drop_first()) == be_value(bytes),
    decreases bytes.len(),
{
    if bytes.len() == 1 {
        assert(bytes.drop_first() =~= bytes.drop_last());
    } else {
        lemma_leading_zero(bytes.drop_last());
        assert(bytes.drop_last().drop_first() =~= bytes.drop_first().drop_last());
    }
}

/// Bytes that start with a byte other than zero spell a number that needs all
/// of them.
pub proof fn lemma_leading_nonzero(bytes: Seq<u8>)
    requires
        bytes.len() >= 1,
        bytes[0] != 0,
    ensures
        be_value(bytes) >= pow256((bytes.len() - 1) as nat),
    decreases bytes.len(),
{
    if bytes.len() > 1 {
        lemma_leading_nonzero(bytes.drop_last());
    } else {
        assert(bytes.drop_last().len() == 0);
    }
}

/// Bytes without a needless leading zero are the shortest spelling of their
/// number.
pub proof fn lemma_min_be_of_bytes(bytes: Seq<u8>)
    requires
        bytes.len() >= 1,
        bytes.len() == 1 || bytes[0] != 0,
    ensures
        min_be(be_value(bytes)) == bytes,
    decreases bytes.len(),
{
    if bytes.len() == 1 {
        lemma_be_value_single(bytes);
        assert(min_be(be_value(bytes)) =~= bytes);
    } else {
        let init = bytes.drop_last();
        lemma_min_be_of_bytes(init);
        lemma_leading_nonzero(init);
        let v = be_value(bytes);
        assert(v == be_value(init) * 256 + bytes.last() as nat);
        assert(be_value(init) >= 1);
        assert(v / 256 == be_value(init));
        assert(v % 256 == bytes.last() as nat);
        assert(min_be(v) =~= bytes);
    }
}

/// The shortest spelling spells the number, starts with a byte other than
/// zero unless the number is below 256, and is as short as the number is
/// small.
pub proof fn lemma_min_be(v: nat, width: nat)
    requires
        v < pow256(width),
        width >= 1,
    ensures
        be_value(min_be(v)) == v,
        1 <= min_be(v).len() <= width,
        min_be(v).len() == 1 || min_be(v)[0] != 0,
    decreases v,
{
    if v < 256 {
        lemma_be_value_single(min_be(v));
    } else {
        assert(width >= 2) by {
            if width == 1 {
                assert(pow256(1) == 256 * pow256(0));
            }
        }
        lemma_min_be(v / 256, (width - 1) as nat);
        let head = min_be(v / 256);
        assert(min_be(v).drop_last() =~= head);
        assert(min_be(v)[0] == head[0]);
        if head.len() == 1 {
            lemma_be_value_single(head);
        }
    }
}

/// Leading zero bytes do not change the number.
pub proof fn lemma_leading_zeros(bytes: Seq<u8>, zeros: nat)
    requires
        zeros <= bytes.len(),
        forall|i: int| 0 <= i < zeros ==> bytes[i] == 0,
    ensures
        be_value(bytes.skip(zeros as int)) == be_value(bytes),
    decreases zeros,
{
    if zeros == 0 {
        assert(bytes.skip(0) =~= bytes);
    } else {
        lemma_leading_zeros(bytes.drop_first(), (zeros - 1) as nat);
        lemma_leading_zero(bytes);
        assert(bytes.drop_first().skip(zeros - 1) =~= bytes.skip(zeros as int));
    }
}

/// 33 bytes that start with a byte other than zero spell a number that is not
/// below the group order.
proof fn lemma_too_wide(bytes: Seq<u8>)
    requires
        bytes.len() == 33,
        bytes[0] != 0,
    ensures
        be_value(bytes) >= order(),
{
    lemma_leading_nonzero(bytes);
    lemma_pow256_32();
}

proof fn lemma_pow256_32()
    ensures
        pow256(32) == 0x1_0000000000000000_0000000000000000_0000000000000000_0000000000000000nat,
{
    reveal_with_fuel(pow256, 5);
    assert(pow256(4) == 0x1_0000_0000nat);
    assert(pow256(8) == 0x1_0000_0000_0000_0000nat);
    assert(pow256(12) == 0x1_0000_0000_0000_0000_0000_0000nat);
    assert(pow256(16) == 0x1_0000_0000_0000_0000_0000_0000_0000_0000nat);
    assert(pow256(20) == 0x1_0000_0000_0000_0000_0000_0000_0000_0000_0000_0000nat);
    assert(pow256(24) == 0x1_0000_0000_0000_0000_0000_0000_0000_0000_0000_0000_0000_0000nat);
    assert(pow256(28)
        == 0x1_0000_0000_0000_0000_0000_0000_0000_0000_0000_0000_0000_0000_0000_0000nat);
}

/// The scalar that at most 33 big-endian bytes spell; `None` unless the
/// number is below the group order.
fn scalar_from_be(bytes: &[u8]) -> (r: Option<Scalar>)
    requires
        bytes@.len() <= 33,
    ensures
        r is Some <==> be_value(bytes@) < order(),
        r matches Some(x) ==> x@ == be_value(bytes@),
{
    let n: usize = bytes.len();
    let mut wide = [0u8; 33];
    let mut i: usize = 0;
    while i < n
        invariant
            i <= n,
            n == bytes@.len(),
            n <= 33,
            forall|j: int| 0 <= j < 33 - n ==> wide@[j] == 0,
            forall|j: int| 0 <= j < i ==> wide@[33 - n + j] == bytes@[j],
        decreases n - i,
    {
        wide[33 - n + i] = bytes[i];
        i = i + 1;
    }
    proof {
        lemma_leading_zeros(wide@, (33 - n) as nat);
        assert(wide@.skip(33 - n) =~= bytes@);
    }
    if wide[0] != 0 {
        proof {
            lemma_too_wide(wide@);
        }
        return None;
    }
    let narrow = crate::bytes::take32(wide.as_slice(), 1);
    proof {
        lemma_leading_zero(wide@);
        assert(wide@.drop_first() =~= wide@.subrange(1, 33));
    }
    Scalar::from_bytes(narrow)
}

/// Appends the DER integer of the number that 32 big-endian bytes spell.
fn put_der_integer(out: &mut Vec<u8>, bytes: &[u8; 32])
    ensures
        final(out)@ == old(out)@ + der_integer(be_value(bytes@)),
        3 <= der_integer(be_value(bytes@)).len() <= 35,
{
    let ghost before = out@;
    let mut start: usize = 0;
    assert(bytes@.skip(0) =~= bytes@);
    while start < 31 && bytes[start] == 0
        invariant
            start <= 31,
            be_value(bytes@.skip(start as int)) == be_value(bytes@),
        decreases 31 - start,
    {
        proof {
            lemma_leading_zero(bytes@.skip(start as int));
            assert(bytes@.skip(start as int).drop_first() =~= bytes@.skip(start + 1));
        }
        start = start + 1;
    }
    let ghost body = bytes@.skip(start as int);
    proof {
        lemma_min_be_of_bytes(body);
    }
    let pad = bytes[start] >= 0x80;
    let len: usize = if pad {
        33 - start
    } else {
        32 - start
    };
    out.push(0x02);
    out.push(len as u8);
    if pad {
        out.push(0);
    }
    crate::encode::put_bytes(out, vstd::slice::slice_subrange(bytes.as_slice(), start, 32));
    proof {
        assert(bytes@.subrange(start as int, 32) =~= body);
        assert(out@ =~= before + der_integer(be_value(bytes@)));
    }
}

/// The DER encoding of a signature: at most 72 bytes.
pub fn encode(sig: &Signature) -> (out: Vec<u8>)
    ensures
        out@ == der_signature(sig@),
        8 <= out@.len() <= 72,
{
    let mut content: Vec<u8> = Vec::new();
    put_der_integer(&mut content, &sig.r().to_bytes());
    put_der_integer(&mut content, &sig.s().to_bytes());
    let mut out: Vec<u8> = Vec::new();
    out.push(0x30);
    out.push(content.len() as u8);
    crate::encode::put_bytes(&mut out, content.as_slice());
    assert(out@ =~= der_signature(sig@));
    out
}

/// A signature as a witness carries it: DER, then the hash type.
pub fn encode_for_witness(sig: &Signature) -> (out: Vec<u8>)
    ensures
        out@ == witness_signature(sig@),
        9 <= out@.len() <= 73,
{
    let mut out = encode(sig);
    out.push(SIGHASH_ALL);
    out
}

/// The content of the DER integer of a residue spells it in at most 33
/// bytes.
pub proof fn lemma_der_body(v: nat)
    requires
        v < order(),
    ensures
        1 <= der_body(v).len() <= 33,
        be_value(der_body(v)) == v,
{
    lemma_pow256_32();
    lemma_min_be(v, 32);
    let body = min_be(v);
    if body[0] >= 0x80 {
        let padded = seq![0u8] + body;
        lemma_leading_zero(padded);
        assert(padded.drop_first() =~= body);
    }
}

/// Where the parts of a DER signature stand.
pub proof fn lemma_der_shape(sig: SignatureView)
    requires
        sig.r < order(),
        sig.s < order(),
    ensures
        ({
            let d = der_signature(sig);
            let lr = der_body(sig.r).len() as int;
            let ls = der_body(sig.s).len() as int;
            &&& 1 <= lr <= 33
            &&& 1 <= ls <= 33
            &&& d.len() == 6 + lr + ls
            &&& d[0] == 0x30
            &&& d[2] == 0x02
            &&& d[3] == lr
            &&& d.subrange(4, 4 + lr) == der_body(sig.r)
            &&& d[4 + lr] == 0x02
            &&& d[5 + lr] == ls
            &&& d.subrange(6 + lr, 6 + lr + ls) == der_body(sig.s)
        }),
{
    lemma_der_body(sig.r);
    lemma_der_body(sig.s);
    let d = der_signature(sig);
    let lr = der_body(sig.r).len() as int;
    let ls = der_body(sig.s).len() as int;
    assert(d.subrange(4, 4 + lr) =~= der_body(sig.r));
    assert(d.subrange(6 + lr, 6 + lr + ls) =~= der_body(sig.s));
}

/// Two signatures with one DER encoding are one signature.
pub proof fn lemma_der_injective(a: SignatureView, b: SignatureView)
    requires
        a.r < order(),
        a.s < order(),
        b.r < order(),
        b.s < order(),
        der_signature(a) == der_signature(b),
    ensures
        a == b,
{
    lemma_der_shape(a);
    lemma_der_shape(b);
    lemma_der_body(a.r);
    lemma_der_body(a.s);
    lemma_der_body(b.r);
    lemma_der_body(b.s);
}

/// Bytes are the DER encoding of no signature.
pub open spec fn not_der(bytes: Seq<u8>) -> bool {
    forall|sig: SignatureView|
        sig.r < order() && sig.s < order() ==> bytes != #[trigger] der_signature(sig)
}

/// Reads a signature from its DER encoding; `None` for bytes that are not
/// the encoding of a signature with `r` and `s` below the group order.
pub fn parse(bytes: &[u8]) -> (r: Option<Signature>)
    ensures
        r matches Some(sig) ==> bytes@ == der_signature(sig@),
        r is None ==> not_der(bytes@),
{
    let n: usize = bytes.len();
    proof {
        assert forall|sig: SignatureView| sig.r < order() && sig.s < order() implies 8
            <= (#[trigger] der_signature(sig)).len() <= 72 by {
            lemma_der_shape(sig);
        }
        assert forall|sig: SignatureView|
            sig.r < order() && sig.s < order() && bytes@ == #[trigger] der_signature(sig) implies {
            let lr = der_body(sig.r).len() as int;
            let ls = der_body(sig.s).len() as int;
            &&& 1 <= lr <= 33
            &&& 1 <= ls <= 33
            &&& n == 6 + lr + ls
            &&& bytes@[0] == 0x30
            &&& bytes@[2] == 0x02
            &&& bytes@[3] == lr
            &&& bytes@.subrange(4, 4 + lr) == der_body(sig.r)
            &&& bytes@[4 + lr] == 0x02
            &&& bytes@[5 + lr] == ls
            &&& bytes@.subrange(6 + lr, 6 + lr + ls) == der_body(sig.s)
            &&& be_value(der_body(sig.r)) == sig.r
            &&& be_value(der_body(sig.s)) == sig.s
        } by {
            lemma_der_shape(sig);
            lemma_der_body(sig.r);
            lemma_der_body(sig.s);
        }
    }
    if n < 8 || n > 72 {
        return None;
    }
    if bytes[0] != 0x30 || bytes[2] != 0x02 {
        return None;
    }
    let lr: usize = bytes[3] as usize;
    if lr == 0 || lr > 33 || 6 + lr >= n {
        return None;
    }
    if bytes[4 + lr] != 0x02 {
        return None;
    }
    let ls: usize = bytes[5 + lr] as usize;
    if ls == 0 || ls > 33 || 6 + lr + ls != n {
        return None;
    }
    let r = scalar_from_be(vstd::slice::slice_subrange(bytes, 4, 4 + lr));
    let s = scalar_from_be(vstd::slice::slice_subrange(bytes, 6 + lr, n));
    match (r, s) {
        (Some(r), Some(s)) => {
            let sig = Signature::new(r, s);
            let again = encode(&sig);
            if again.len() != n {
                return None;
            }
            match rank(again.as_slice(), bytes) {
                Rank::Same => Some(sig),
                _ => None,
            }
        },
        _ => None,
    }
}

/// Reads a signature from a witness item: its DER encoding, then the hash
/// type for all inputs and outputs.
pub fn parse_from_witness(bytes: &[u8]) -> (r: Option<Signature>)
    ensures
        r matches Some(sig) ==> bytes@ == witness_signature(sig@),
        r is None ==> forall|sig: SignatureView|
            sig.r < order() && sig.s < order() ==> bytes@ != #[trigger] witness_signature(sig),
{
    let n: usize = bytes.len();
    if n == 0 || bytes[n - 1] != SIGHASH_ALL {
        return None;
    }
    let r = parse(vstd::slice::slice_subrange(bytes, 0, n - 1));
    proof {
        let init = bytes@.subrange(0, n - 1);
        assert(bytes@ =~= init.push(SIGHASH_ALL));
        if r is None {
            assert forall|sig: SignatureView|
                sig.r < order() && sig.s < order() implies bytes@ != #[trigger] witness_signature(
                sig,
            ) by {
                if bytes@ == witness_signature(sig) {
                    assert(witness_signature(sig).drop_last() =~= der_signature(sig));
                    assert(bytes@.drop_last() =~= init);
                    assert(init == der_signature(sig));
                }
            }
        }
    }
    r
}

} // verus!
