//! Byte strings read as big-endian numbers.

use vstd::prelude::*;

verus! {

/// The number that `bytes` spell out, most significant byte first.
pub open spec fn be_value(bytes: Seq<u8>) -> nat
    decreases bytes.len(),
{
    if bytes.len() == 0 {
        0
    } else {
        be_value(bytes.drop_last()) * 256 + bytes.last() as nat
    }
}

/// How one number stands to another.
#[derive(Clone, Copy, Debug)]
pub(crate) enum Rank {
    Below,
    Same,
    Above,
}

/// One byte spells itself.
pub proof fn lemma_be_value_single(bytes: Seq<u8>)
    requires
        bytes.len() == 1,
    ensures
        be_value(bytes) == bytes[0] as nat,
{
    reveal_with_fuel(be_value, 2);
    assert(bytes.drop_last().len() == 0);
}

/// One more byte multiplies the number by 256 and adds the byte.
pub proof fn lemma_be_value_step(bytes: Seq<u8>, i: int)
    requires
        0 <= i < bytes.len(),
    ensures
        be_value(bytes.take(i + 1)) == be_value(bytes.take(i)) * 256 + bytes[i] as nat,
{
    assert(bytes.take(i + 1).drop_last() =~= bytes.take(i));
}

/// Ranks two byte strings of one length by the numbers they spell.
pub(crate) fn rank(a: &[u8], b: &[u8]) -> (r: Rank)
    requires
        a@.len() == b@.len(),
    ensures
        r is Below <==> be_value(a@) < be_value(b@),
        r is Same <==> be_value(a@) == be_value(b@),
        r is Above <==> be_value(a@) > be_value(b@),
        r is Same <==> a@ == b@,
{
    let n: usize = a.len();
    let mut i: usize = 0;
    let mut r = Rank::Same;
    assert(a@.take(0) =~= b@.take(0));
    while i < n
        invariant
            i <= n,
            n == a@.len(),
            n == b@.len(),
            r is Below <==> be_value(a@.take(i as int)) < be_value(b@.take(i as int)),
            r is Same <==> be_value(a@.take(i as int)) == be_value(b@.take(i as int)),
            r is Above <==> be_value(a@.take(i as int)) > be_value(b@.take(i as int)),
            r is Same <==> a@.take(i as int) == b@.take(i as int),
        decreases n - i,
    {
        proof {
            lemma_be_value_step(a@, i as int);
            lemma_be_value_step(b@, i as int);
            assert(a@.take(i as int + 1)[i as int] == a@[i as int]);
            assert(b@.take(i as int + 1)[i as int] == b@[i as int]);
            if a@.take(i as int) == b@.take(i as int) && a@[i as int] == b@[i as int] {
                assert(a@.take(i as int + 1) =~= a@.take(i as int).push(a@[i as int]));
                assert(b@.take(i as int + 1) =~= b@.take(i as int).push(b@[i as int]));
            }
        }
        match r {
            Rank::Same => {
                if a[i] < b[i] {
                    r = Rank::Below;
                } else if a[i] > b[i] {
                    r = Rank::Above;
                }
            },
            _ => {},
        }
        i = i + 1;
    }
    proof {
        assert(a@.take(n as int) =~= a@);
        assert(b@.take(n as int) =~= b@);
    }
    r
}

/// Bytes that are all zero spell zero.
pub proof fn lemma_zeros(bytes: Seq<u8>)
    requires
        forall|i: int| 0 <= i < bytes.len() ==> bytes[i] == 0,
    ensures
        be_value(bytes) == 0,
    decreases bytes.len(),
{
    if bytes.len() > 0 {
        lemma_zeros(bytes.drop_last());
    }
}

/// Whether the bytes spell zero.
pub(crate) fn spells_zero(a: &[u8]) -> (r: bool)
    ensures
        r == (be_value(a@) == 0),
{
    let n: usize = a.len();
    let mut i: usize = 0;
    let mut r = true;
    while i < n
        invariant
            i <= n,
            n == a@.len(),
            r == (be_value(a@.take(i as int)) == 0),
        decreases n - i,
    {
        proof {
            lemma_be_value_step(a@, i as int);
        }
        if a[i] != 0 {
            r = false;
        }
        i = i + 1;
    }
    proof {
        assert(a@.take(n as int) =~= a@);
    }
    r
}

/// The 32 bytes of `src` that start at `offset`.
pub(crate) fn take32(src: &[u8], offset: usize) -> (r: [u8; 32])
    requires
        offset + 32 <= src@.len(),
    ensures
        r@ == src@.subrange(offset as int, offset + 32),
{
    let mut r = [0u8; 32];
    let mut i: usize = 0;
    let len: usize = src.len();
    while i < 32
        invariant
            i <= 32,
            len == src@.len(),
            offset + 32 <= src@.len(),
            forall|j: int| 0 <= j < i ==> r@[j] == src@[offset + j],
        decreases 32 - i,
    {
        r[i] = src[offset + i];
        i = i + 1;
    }
    assert(r@ =~= src@.subrange(offset as int, offset + 32));
    r
}

/// The 33 bytes of `src` that start at `offset`.
pub(crate) fn take33(src: &[u8], offset: usize) -> (r: [u8; 33])
    requires
        offset + 33 <= src@.len(),
    ensures
        r@ == src@.subrange(offset as int, offset + 33),
{
    let mut r = [0u8; 33];
    let mut i: usize = 0;
    let len: usize = src.len();
    while i < 33
        invariant
            i <= 33,
            len == src@.len(),
            offset + 33 <= src@.len(),
            forall|j: int| 0 <= j < i ==> r@[j] == src@[offset + j],
        decreases 33 - i,
    {
        r[i] = src[offset + i];
        i = i + 1;
    }
    assert(r@ =~= src@.subrange(offset as int, offset + 33));
    r
}

} // verus!
