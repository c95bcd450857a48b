//! The ledger's wire encodings of numbers and byte strings.

use vstd::prelude::*;

verus! {

/// `v` in `width` bytes, least significant first.
pub open spec fn le_bytes(v: nat, width: nat) -> Seq<u8>
    decreases width,
{
    if width == 0 {
        Seq::<u8>::empty()
    } else {
        seq![(v % 256) as u8] + le_bytes(v / 256, (width - 1) as nat)
    }
}

/// The ledger's variable-length encoding of a count: one byte below `0xfd`,
/// else a marker byte and the count in two, four or eight bytes.
pub open spec fn compact_size(n: nat) -> Seq<u8> {
    if n < 0xfd {
        seq![n as u8]
    } else if n <= 0xffff {
        seq![0xfdu8] + le_bytes(n, 2)
    } else if n <= 0xffff_ffff {
        seq![0xfeu8] + le_bytes(n, 4)
    } else {
        seq![0xffu8] + le_bytes(n, 8)
    }
}

/// A byte string behind its length.
pub open spec fn var_bytes(bytes: Seq<u8>) -> Seq<u8> {
    compact_size(bytes.len()) + bytes
}

/// A number in `width` bytes takes `width` bytes.
pub proof fn lemma_le_bytes_len(v: nat, width: nat)
    ensures
        le_bytes(v, width).len() == width,
    decreases width,
{
    if width > 0 {
        lemma_le_bytes_len(v / 256, (width - 1) as nat);
    }
}

/// A count takes between one and nine bytes, and one below `0xfd`.
pub proof fn lemma_compact_size_len(n: nat)
    ensures
        1 <= compact_size(n).len() <= 9,
        n < 0xfd ==> compact_size(n).len() == 1,
{
    lemma_le_bytes_len(n, 2);
    lemma_le_bytes_len(n, 4);
    lemma_le_bytes_len(n, 8);
}

/// Appends `v` in `width` bytes, least significant first.
pub(crate) fn put_le(out: &mut Vec<u8>, v: u64, width: usize)
    requires
        width <= 8,
    ensures
        final(out)@ == old(out)@ + le_bytes(v as nat, width as nat),
{
    let mut rest: u64 = v;
    let mut i: usize = 0;
    assert(le_bytes(rest as nat, (width - i) as nat) =~= le_bytes(v as nat, width as nat));
    assert(out@ =~= old(out)@);
    while i < width
        invariant
            i <= width,
            out@ + le_bytes(rest as nat, (width - i) as nat) == old(out)@ + le_bytes(
                v as nat,
                width as nat,
            ),
        decreases width - i,
    {
        let ghost before = out@;
        out.push((rest % 256) as u8);
        proof {
            let tail = le_bytes((rest / 256) as nat, (width - i - 1) as nat);
            assert(le_bytes(rest as nat, (width - i) as nat) =~= seq![(rest % 256) as u8] + tail);
            assert(out@ + tail =~= before + le_bytes(rest as nat, (width - i) as nat));
        }
        rest = rest / 256;
        i = i + 1;
    }
    assert(le_bytes(rest as nat, 0) =~= Seq::<u8>::empty());
    assert(out@ + Seq::<u8>::empty() =~= out@);
}

/// Appends the variable-length encoding of a count.
pub(crate) fn put_compact_size(out: &mut Vec<u8>, n: u64)
    ensures
        final(out)@ == old(out)@ + compact_size(n as nat),
{
    let ghost before = out@;
    if n < 0xfd {
        out.push(n as u8);
        assert(out@ =~= before + compact_size(n as nat));
    } else if n <= 0xffff {
        out.push(0xfd);
        put_le(out, n, 2);
        assert(out@ =~= before + compact_size(n as nat));
    } else if n <= 0xffff_ffff {
        out.push(0xfe);
        put_le(out, n, 4);
        assert(out@ =~= before + compact_size(n as nat));
    } else {
        out.push(0xff);
        put_le(out, n, 8);
        assert(out@ =~= before + compact_size(n as nat));
    }
}

/// Appends a byte string behind its length.
pub(crate) fn put_var_bytes(out: &mut Vec<u8>, bytes: &[u8])
    ensures
        final(out)@ == old(out)@ + var_bytes(bytes@),
{
    let ghost before = out@;
    put_compact_size(out, bytes.len() as u64);
    let ghost middle = out@;
    out.extend_from_slice(bytes);
    assert(out@ =~= middle + bytes@);
    assert(out@ =~= before + var_bytes(bytes@));
}

/// Appends a byte string.
pub(crate) fn put_bytes(out: &mut Vec<u8>, bytes: &[u8])
    ensures
        final(out)@ == old(out)@ + bytes@,
{
    let ghost before = out@;
    out.extend_from_slice(bytes);
    assert(out@ =~= before + bytes@);
}

} // verus!
