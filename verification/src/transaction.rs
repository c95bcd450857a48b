//! Ledger transactions and their encodings.
//!
//! A transaction is held as plain values. Its serialization, its
//! identifier, its weight and the digest that a signature covers are
//! functions of those values, stated here over byte sequences.

use vstd::prelude::*;
use crate::encode::{
    compact_size, le_bytes, put_bytes, put_compact_size, put_le, put_var_bytes, var_bytes,
};
use crate::hash::{sha256d, sha256d_digest};

verus! {

/// An `OutPoint` as contracts speak of it.
pub struct OutPointView {
    pub txid: Seq<u8>,
    pub vout: nat,
}

/// A `TxIn` as contracts speak of it.
pub struct TxInView {
    pub previous_output: OutPointView,
    pub script_sig: Seq<u8>,
    pub sequence: nat,
    pub witness: Seq<Seq<u8>>,
}

/// A `TxOut` as contracts speak of it.
pub struct TxOutView {
    pub value: nat,
    pub script_pubkey: Seq<u8>,
}

/// A `Transaction` as contracts speak of it.
pub struct TransactionView {
    pub version: nat,
    pub lock_time: nat,
    pub input: Seq<TxInView>,
    pub output: Seq<TxOutView>,
}

/// The output of an earlier transaction that an input spends.
#[derive(Clone, Copy, Debug)]
pub struct OutPoint {
    pub txid: [u8; 32],
    pub vout: u32,
}

/// An input of a transaction.
#[derive(Debug)]
pub struct TxIn {
    pub previous_output: OutPoint,
    pub script_sig: Vec<u8>,
    pub sequence: u32,
    pub witness: Vec<Vec<u8>>,
}

/// An output of a transaction.
#[derive(Debug)]
pub struct TxOut {
    pub value: u64,
    pub script_pubkey: Vec<u8>,
}

/// A transaction.
#[derive(Debug)]
pub struct Transaction {
    pub version: u32,
    pub lock_time: u32,
    pub input: Vec<TxIn>,
    pub output: Vec<TxOut>,
}

/// The digest that a signature over a transaction covers.
#[derive(Clone, Copy, Debug)]
pub struct SigHash {
    pub bytes: [u8; 32],
}

impl View for OutPoint {
    type V = OutPointView;

    open spec fn view(&self) -> OutPointView {
        OutPointView { txid: self.txid@, vout: self.vout as nat }
    }
}

impl View for TxIn {
    type V = TxInView;

    open spec fn view(&self) -> TxInView {
        TxInView {
            previous_output: self.previous_output@,
            script_sig: self.script_sig@,
            sequence: self.sequence as nat,
            witness: Seq::new(self.witness@.len(), |i: int| self.witness@[i]@),
        }
    }
}

impl View for TxOut {
    type V = TxOutView;

    open spec fn view(&self) -> TxOutView {
        TxOutView { value: self.value as nat, script_pubkey: self.script_pubkey@ }
    }
}

impl View for Transaction {
    type V = TransactionView;

    open spec fn view(&self) -> TransactionView {
        TransactionView {
            version: self.version as nat,
            lock_time: self.lock_time as nat,
            input: Seq::new(self.input@.len(), |i: int| self.input@[i]@),
            output: Seq::new(self.output@.len(), |i: int| self.output@[i]@),
        }
    }
}

impl View for SigHash {
    type V = Seq<u8>;

    open spec fn view(&self) -> Seq<u8> {
        self.bytes@
    }
}

/// An outpoint: the identifier, then the index in four bytes.
pub open spec fn outpoint_bytes(o: OutPointView) -> Seq<u8> {
    o.txid + le_bytes(o.vout, 4)
}

/// An input without its witness: the outpoint, the signature script behind
/// its length, the sequence number.
pub open spec fn input_bytes(i: TxInView) -> Seq<u8> {
    outpoint_bytes(i.previous_output) + var_bytes(i.script_sig) + le_bytes(i.sequence, 4)
}

/// An output: the value in eight bytes, then the script behind its length.
pub open spec fn output_bytes(o: TxOutView) -> Seq<u8> {
    le_bytes(o.value, 8) + var_bytes(o.script_pubkey)
}

/// The inputs one after another.
pub open spec fn inputs_bytes(inputs: Seq<TxInView>) -> Seq<u8>
    decreases inputs.len(),
{
    if inputs.len() == 0 {
        Seq::<u8>::empty()
    } else {
        inputs_bytes(inputs.drop_last()) + input_bytes(inputs.last())
    }
}

/// The outputs one after another.
pub open spec fn outputs_bytes(outputs: Seq<TxOutView>) -> Seq<u8>
    decreases outputs.len(),
{
    if outputs.len() == 0 {
        Seq::<u8>::empty()
    } else {
        outputs_bytes(outputs.drop_last()) + output_bytes(outputs.last())
    }
}

/// The outpoints of the inputs one after another.
pub open spec fn prevouts_bytes(inputs: Seq<TxInView>) -> Seq<u8>
    decreases inputs.len(),
{
    if inputs.len() == 0 {
        Seq::<u8>::empty()
    } else {
        prevouts_bytes(inputs.drop_last()) + outpoint_bytes(inputs.last().previous_output)
    }
}

/// The sequence numbers of the inputs one after another.
pub open spec fn sequences_bytes(inputs: Seq<TxInView>) -> Seq<u8>
    decreases inputs.len(),
{
    if inputs.len() == 0 {
        Seq::<u8>::empty()
    } else {
        sequences_bytes(inputs.drop_last()) + le_bytes(inputs.last().sequence, 4)
    }
}

/// The items of a witness, each behind its length.
pub open spec fn items_bytes(items: Seq<Seq<u8>>) -> Seq<u8>
    decreases items.len(),
{
    if items.len() == 0 {
        Seq::<u8>::empty()
    } else {
        items_bytes(items.drop_last()) + var_bytes(items.last())
    }
}

/// A witness: the number of its items, then the items.
pub open spec fn witness_bytes(items: Seq<Seq<u8>>) -> Seq<u8> {
    compact_size(items.len()) + items_bytes(items)
}

/// The witnesses of the inputs one after another.
pub open spec fn witnesses_bytes(inputs: Seq<TxInView>) -> Seq<u8>
    decreases inputs.len(),
{
    if inputs.len() == 0 {
        Seq::<u8>::empty()
    } else {
        witnesses_bytes(inputs.drop_last()) + witness_bytes(inputs.last().witness)
    }
}

/// Some input carries a witness.
pub open spec fn has_witness(inputs: Seq<TxInView>) -> bool {
    exists|i: int| 0 <= i < inputs.len() && #[trigger] inputs[i].witness.len() > 0
}

/// The serialization without witnesses, which the identifier is the hash of.
pub open spec fn stripped_bytes(tx: TransactionView) -> Seq<u8> {
    le_bytes(tx.version, 4) + compact_size(tx.input.len()) + inputs_bytes(tx.input) + compact_size(
        tx.output.len(),
    ) + outputs_bytes(tx.output) + le_bytes(tx.lock_time, 4)
}

/// The serialization: with a marker, a flag and the witnesses where some
/// input carries one, else the same as without.
pub open spec fn full_bytes(tx: TransactionView) -> Seq<u8> {
    if has_witness(tx.input) {
        le_bytes(tx.version, 4) + seq![0u8, 1u8] + compact_size(tx.input.len()) + inputs_bytes(
            tx.input,
        ) + compact_size(tx.output.len()) + outputs_bytes(tx.output) + witnesses_bytes(tx.input)
            + le_bytes(tx.lock_time, 4)
    } else {
        stripped_bytes(tx)
    }
}

/// The identifier of a transaction.
pub open spec fn txid_of(tx: TransactionView) -> Seq<u8> {
    sha256d_digest(stripped_bytes(tx))
}

/// The weight of a transaction: a byte of a witness counts once, any other
/// byte four times.
pub open spec fn weight_of(tx: TransactionView) -> nat {
    3 * stripped_bytes(tx).len() + full_bytes(tx).len()
}

/// What is hashed for the digest that a signature over input `index` covers,
/// for a signature over all inputs and outputs of a transaction that spends a
/// witness program: `script_code` is the script being satisfied, `value`
/// the amount of the output being spent.
pub open spec fn sighash_preimage(
    tx: TransactionView,
    index: int,
    script_code: Seq<u8>,
    value: nat,
) -> Seq<u8> {
    le_bytes(tx.version, 4) + sha256d_digest(prevouts_bytes(tx.input)) + sha256d_digest(
        sequences_bytes(tx.input),
    ) + outpoint_bytes(tx.input[index].previous_output) + var_bytes(script_code) + le_bytes(
        value,
        8,
    ) + le_bytes(tx.input[index].sequence, 4) + sha256d_digest(outputs_bytes(tx.output))
        + le_bytes(tx.lock_time, 4) + le_bytes(1, 4)
}

/// The digest that a signature over input `index` covers.
pub open spec fn sighash_of(tx: TransactionView, index: int, script_code: Seq<u8>, value: nat)
    -> Seq<u8> {
    sha256d_digest(sighash_preimage(tx, index, script_code, value))
}

fn put_outpoint(out: &mut Vec<u8>, o: &OutPoint)
    ensures
        final(out)@ == old(out)@ + outpoint_bytes(o@),
{
    let ghost before = out@;
    put_bytes(out, o.txid.as_slice());
    put_le(out, o.vout as u64, 4);
    assert(out@ =~= before + outpoint_bytes(o@));
}

fn put_input(out: &mut Vec<u8>, i: &TxIn)
    ensures
        final(out)@ == old(out)@ + input_bytes(i@),
{
    let ghost before = out@;
    put_outpoint(out, &i.previous_output);
    put_var_bytes(out, i.script_sig.as_slice());
    put_le(out, i.sequence as u64, 4);
    assert(out@ =~= before + input_bytes(i@));
}

fn put_output(out: &mut Vec<u8>, o: &TxOut)
    ensures
        final(out)@ == old(out)@ + output_bytes(o@),
{
    let ghost before = out@;
    put_le(out, o.value, 8);
    put_var_bytes(out, o.script_pubkey.as_slice());
    assert(out@ =~= before + output_bytes(o@));
}

fn put_witness(out: &mut Vec<u8>, i: &TxIn)
    ensures
        final(out)@ == old(out)@ + witness_bytes(i@.witness),
{
    let ghost before = out@;
    let ghost items = i@.witness;
    let n: usize = i.witness.len();
    put_compact_size(out, n as u64);
    let ghost start = out@;
    let mut k: usize = 0;
    assert(items.take(0) =~= Seq::<Seq<u8>>::empty());
    assert(out@ =~= start + items_bytes(items.take(0)));
    while k < n
        invariant
            k <= n,
            n == i.witness@.len(),
            items == i@.witness,
            out@ == start + items_bytes(items.take(k as int)),
        decreases n - k,
    {
        let ghost prior = out@;
        put_var_bytes(out, i.witness[k].as_slice());
        proof {
            assert(items.take(k + 1).drop_last() =~= items.take(k as int));
            assert(items.take(k + 1).last() == i.witness@[k as int]@);
            assert(out@ =~= start + items_bytes(items.take(k + 1)));
        }
        k = k + 1;
    }
    proof {
        assert(items.take(n as int) =~= items);
        assert(out@ =~= before + witness_bytes(items));
    }
}

impl Transaction {
    fn put_inputs(&self, out: &mut Vec<u8>)
        ensures
            final(out)@ == old(out)@ + inputs_bytes(self@.input),
    {
        let ghost before = out@;
        let ghost inputs = self@.input;
        let n: usize = self.input.len();
        let mut k: usize = 0;
        assert(inputs.take(0) =~= Seq::<TxInView>::empty());
        assert(out@ =~= before + inputs_bytes(inputs.take(0)));
        while k < n
            invariant
                k <= n,
                n == self.input@.len(),
                inputs == self@.input,
                out@ == before + inputs_bytes(inputs.take(k as int)),
            decreases n - k,
        {
            put_input(out, &self.input[k]);
            proof {
                assert(inputs.take(k + 1).drop_last() =~= inputs.take(k as int));
                assert(inputs.take(k + 1).last() == self.input@[k as int]@);
                assert(out@ =~= before + inputs_bytes(inputs.take(k + 1)));
            }
            k = k + 1;
        }
        proof {
            assert(inputs.take(n as int) =~= inputs);
        }
    }

    fn put_outputs(&self, out: &mut Vec<u8>)
        ensures
            final(out)@ == old(out)@ + outputs_bytes(self@.output),
    {
        let ghost before = out@;
        let ghost outputs = self@.output;
        let n: usize = self.output.len();
        let mut k: usize = 0;
        assert(outputs.take(0) =~= Seq::<TxOutView>::empty());
        assert(out@ =~= before + outputs_bytes(outputs.take(0)));
        while k < n
            invariant
                k <= n,
                n == self.output@.len(),
                outputs == self@.output,
                out@ == before + outputs_bytes(outputs.take(k as int)),
            decreases n - k,
        {
            put_output(out, &self.output[k]);
            proof {
                assert(outputs.take(k + 1).drop_last() =~= outputs.take(k as int));
                assert(outputs.take(k + 1).last() == self.output@[k as int]@);
                assert(out@ =~= before + outputs_bytes(outputs.take(k + 1)));
            }
            k = k + 1;
        }
        proof {
            assert(outputs.take(n as int) =~= outputs);
        }
    }

    fn put_prevouts(&self, out: &mut Vec<u8>)
        ensures
            final(out)@ == old(out)@ + prevouts_bytes(self@.input),
    {
        let ghost before = out@;
        let ghost inputs = self@.input;
        let n: usize = self.input.len();
        let mut k: usize = 0;
        assert(inputs.take(0) =~= Seq::<TxInView>::empty());
        assert(out@ =~= before + prevouts_bytes(inputs.take(0)));
        while k < n
            invariant
                k <= n,
                n == self.input@.len(),
                inputs == self@.input,
                out@ == before + prevouts_bytes(inputs.take(k as int)),
            decreases n - k,
        {
            put_outpoint(out, &self.input[k].previous_output);
            proof {
                assert(inputs.take(k + 1).drop_last() =~= inputs.take(k as int));
                assert(inputs.take(k + 1).last() == self.input@[k as int]@);
                assert(out@ =~= before + prevouts_bytes(inputs.take(k + 1)));
            }
            k = k + 1;
        }
        proof {
            assert(inputs.take(n as int) =~= inputs);
        }
    }

    fn put_sequences(&self, out: &mut Vec<u8>)
        ensures
            final(out)@ == old(out)@ + sequences_bytes(self@.input),
    {
        let ghost before = out@;
        let ghost inputs = self@.input;
        let n: usize = self.input.len();
        let mut k: usize = 0;
        assert(inputs.take(0) =~= Seq::<TxInView>::empty());
        assert(out@ =~= before + sequences_bytes(inputs.take(0)));
        while k < n
            invariant
                k <= n,
                n == self.input@.len(),
                inputs == self@.input,
                out@ == before + sequences_bytes(inputs.take(k as int)),
            decreases n - k,
        {
            put_le(out, self.input[k].sequence as u64, 4);
            proof {
                assert(inputs.take(k + 1).drop_last() =~= inputs.take(k as int));
                assert(inputs.take(k + 1).last() == self.input@[k as int]@);
                assert(out@ =~= before + sequences_bytes(inputs.take(k + 1)));
            }
            k = k + 1;
        }
        proof {
            assert(inputs.take(n as int) =~= inputs);
        }
    }

    fn put_witnesses(&self, out: &mut Vec<u8>)
        ensures
            final(out)@ == old(out)@ + witnesses_bytes(self@.input),
    {
        let ghost before = out@;
        let ghost inputs = self@.input;
        let n: usize = self.input.len();
        let mut k: usize = 0;
        assert(inputs.take(0) =~= Seq::<TxInView>::empty());
        assert(out@ =~= before + witnesses_bytes(inputs.take(0)));
        while k < n
            invariant
                k <= n,
                n == self.input@.len(),
                inputs == self@.input,
                out@ == before + witnesses_bytes(inputs.take(k as int)),
            decreases n - k,
        {
            put_witness(out, &self.input[k]);
            proof {
                assert(inputs.take(k + 1).drop_last() =~= inputs.take(k as int));
                assert(inputs.take(k + 1).last() == self.input@[k as int]@);
                assert(out@ =~= before + witnesses_bytes(inputs.take(k + 1)));
            }
            k = k + 1;
        }
        proof {
            assert(inputs.take(n as int) =~= inputs);
        }
    }

    /// Whether some input carries a witness.
    pub fn carries_witness(&self) -> (r: bool)
        ensures
            r == has_witness(self@.input),
    {
        let n: usize = self.input.len();
        let mut k: usize = 0;
        while k < n
            invariant
                k <= n,
                n == self.input@.len(),
                forall|i: int| 0 <= i < k ==> (#[trigger] self@.input[i]).witness.len() == 0,
            decreases n - k,
        {
            if self.input[k].witness.len() > 0 {
                assert(self@.input[k as int].witness.len() > 0);
                return true;
            }
            k = k + 1;
        }
        false
    }

    /// The serialization without witnesses.
    pub fn serialize_stripped(&self) -> (out: Vec<u8>)
        ensures
            out@ == stripped_bytes(self@),
    {
        let mut out: Vec<u8> = Vec::new();
        put_le(&mut out, self.version as u64, 4);
        put_compact_size(&mut out, self.input.len() as u64);
        self.put_inputs(&mut out);
        put_compact_size(&mut out, self.output.len() as u64);
        self.put_outputs(&mut out);
        put_le(&mut out, self.lock_time as u64, 4);
        assert(out@ =~= stripped_bytes(self@));
        out
    }

    /// The serialization, with the witnesses where there are any.
    pub fn serialize(&self) -> (out: Vec<u8>)
        ensures
            out@ == full_bytes(self@),
    {
        if !self.carries_witness() {
            return self.serialize_stripped();
        }
        let mut out: Vec<u8> = Vec::new();
        put_le(&mut out, self.version as u64, 4);
        out.push(0);
        out.push(1);
        put_compact_size(&mut out, self.input.len() as u64);
        self.put_inputs(&mut out);
        put_compact_size(&mut out, self.output.len() as u64);
        self.put_outputs(&mut out);
        self.put_witnesses(&mut out);
        put_le(&mut out, self.lock_time as u64, 4);
        assert(out@ =~= full_bytes(self@));
        out
    }

    /// The identifier of the transaction.
    pub fn txid(&self) -> (id: [u8; 32])
        ensures
            id@ == txid_of(self@),
    {
        let bytes = self.serialize_stripped();
        sha256d(bytes.as_slice())
    }

    /// The digest that a signature over input `index` covers, for a signature
    /// over all inputs and outputs; `None` where there is no such input.
    pub fn sighash_all(&self, index: usize, script_code: &[u8], value: u64) -> (r: Option<SigHash>)
        ensures
            r is Some <==> index < self@.input.len(),
            r matches Some(digest) ==> digest@ == sighash_of(
                self@,
                index as int,
                script_code@,
                value as nat,
            ),
    {
        if index >= self.input.len() {
            return None;
        }
        let mut prevouts: Vec<u8> = Vec::new();
        self.put_prevouts(&mut prevouts);
        let mut sequences: Vec<u8> = Vec::new();
        self.put_sequences(&mut sequences);
        let mut outputs: Vec<u8> = Vec::new();
        self.put_outputs(&mut outputs);
        assert(prevouts@ =~= prevouts_bytes(self@.input));
        assert(sequences@ =~= sequences_bytes(self@.input));
        assert(outputs@ =~= outputs_bytes(self@.output));
        let mut out: Vec<u8> = Vec::new();
        put_le(&mut out, self.version as u64, 4);
        put_bytes(&mut out, sha256d(prevouts.as_slice()).as_slice());
        put_bytes(&mut out, sha256d(sequences.as_slice()).as_slice());
        put_outpoint(&mut out, &self.input[index].previous_output);
        put_var_bytes(&mut out, script_code);
        put_le(&mut out, value, 8);
        put_le(&mut out, self.input[index].sequence as u64, 4);
        put_bytes(&mut out, sha256d(outputs.as_slice()).as_slice());
        put_le(&mut out, self.lock_time as u64, 4);
        put_le(&mut out, 1, 4);
        assert(out@ =~= sighash_preimage(self@, index as int, script_code@, value as nat));
        Some(SigHash { bytes: sha256d(out.as_slice()) })
    }
}

/// A copy of a byte string.
pub(crate) fn copy_of(bytes: &Vec<u8>) -> (r: Vec<u8>)
    ensures
        r@ == bytes@,
{
    let mut r: Vec<u8> = Vec::new();
    put_bytes(&mut r, bytes.as_slice());
    assert(r@ =~= bytes@);
    r
}

impl Clone for TxIn {
    fn clone(&self) -> (r: TxIn)
        ensures
            r@ == self@,
    {
        let mut witness: Vec<Vec<u8>> = Vec::new();
        let n: usize = self.witness.len();
        let mut k: usize = 0;
        while k < n
            invariant
                k <= n,
                n == self.witness@.len(),
                witness@.len() == k,
                forall|i: int| 0 <= i < k ==> witness@[i]@ == self.witness@[i]@,
            decreases n - k,
        {
            witness.push(copy_of(&self.witness[k]));
            k = k + 1;
        }
        let r = TxIn {
            previous_output: self.previous_output,
            script_sig: copy_of(&self.script_sig),
            sequence: self.sequence,
            witness,
        };
        assert(r@.witness =~= self@.witness);
        r
    }
}

impl Clone for TxOut {
    fn clone(&self) -> (r: TxOut)
        ensures
            r@ == self@,
    {
        TxOut { value: self.value, script_pubkey: copy_of(&self.script_pubkey) }
    }
}

impl Clone for Transaction {
    fn clone(&self) -> (r: Transaction)
        ensures
            r@ == self@,
    {
        let mut input: Vec<TxIn> = Vec::new();
        let n: usize = self.input.len();
        let mut k: usize = 0;
        while k < n
            invariant
                k <= n,
                n == self.input@.len(),
                input@.len() == k,
                forall|i: int| 0 <= i < k ==> input@[i]@ == self.input@[i]@,
            decreases n - k,
        {
            input.push(self.input[k].clone());
            k = k + 1;
        }
        let mut output: Vec<TxOut> = Vec::new();
        let m: usize = self.output.len();
        let mut j: usize = 0;
        while j < m
            invariant
                j <= m,
                m == self.output@.len(),
                output@.len() == j,
                forall|i: int| 0 <= i < j ==> output@[i]@ == self.output@[i]@,
            decreases m - j,
        {
            output.push(self.output[j].clone());
            j = j + 1;
        }
        let r = Transaction { version: self.version, lock_time: self.lock_time, input, output };
        assert(r@.input =~= self@.input);
        assert(r@.output =~= self@.output);
        r
    }
}

impl Transaction {
    /// The weight of the transaction, or the largest number there is where
    /// the weight is larger still.
    pub fn weight(&self) -> (w: u64)
        ensures
            weight_of(self@) <= u64::MAX ==> w == weight_of(self@),
            weight_of(self@) > u64::MAX ==> w == u64::MAX,
    {
        let stripped: u64 = self.serialize_stripped().len() as u64;
        let full: u64 = self.serialize().len() as u64;
        if stripped > (u64::MAX - full) / 3 {
            u64::MAX
        } else {
            3 * stripped + full
        }
    }
}

impl SigHash {
    /// The 32 bytes of the digest.
    pub fn into_inner(self) -> (r: [u8; 32])
        ensures
            r@ == self@,
    {
        self.bytes
    }
}

} // verus!
