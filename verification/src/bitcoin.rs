//! The transactions of a joint output: the one that funds it, the two that
//! spend it, and the witness that both holders sign together.

use vstd::prelude::*;
use crate::adaptor::{recover, recovered, EncryptedSignature};
use crate::arith::order;
use crate::bytes::be_value;
use crate::der::{
    encode_for_witness, lemma_der_injective, parse_from_witness, witness_signature,
};
use crate::ecdsa::{ecdsa_accepts, message_scalar, verify, Signature, SignatureView};
use crate::encode::put_bytes;
use crate::error::Error;
use crate::hash::{sha256, sha256_digest};
use crate::secp256k1::{generator_multiple, PublicKey};
use crate::transaction::{
    copy_of, sighash_of, txid_of, OutPoint, OutPointView, SigHash, Transaction,
    TransactionView, TxIn, TxInView, TxOut, TxOutView,
};

verus! {

/// The most that satisfying a joint output adds to the weight of the
/// transaction that spends it: the marker and the flag of a transaction with
/// witnesses, the count of the witness items, two signatures of at most 73
/// bytes with their hash type and the script of 70 bytes, each behind its
/// length byte.
pub const MAX_SATISFACTION_WEIGHT: u64 = 222;

/// The version of the transactions made here.
pub const VERSION: u32 = 2;

/// The sequence number of the inputs made here: the highest that lets a lock
/// time take effect.
pub const SEQUENCE: u32 = 0xFFFF_FFFE;

/// Where a payment goes: the script of the output that pays there.
#[derive(Debug)]
pub struct Address {
    script_pubkey: Vec<u8>,
}

impl View for Address {
    type V = Seq<u8>;

    /// The script of an output that pays to the address.
    closed spec fn view(&self) -> Seq<u8> {
        self.script_pubkey@
    }
}

impl Address {
    /// The address that the script of an output pays to.
    pub fn from_script_pubkey(script_pubkey: Vec<u8>) -> (r: Address)
        ensures
            r@ == script_pubkey@,
    {
        Address { script_pubkey }
    }

    /// The script of an output that pays to the address.
    pub fn script_pubkey(&self) -> (r: Vec<u8>)
        ensures
            r@ == self@,
    {
        copy_of(&self.script_pubkey)
    }
}

impl Clone for Address {
    fn clone(&self) -> (r: Address)
        ensures
            r@ == self@,
    {
        Address { script_pubkey: copy_of(&self.script_pubkey) }
    }
}

/// The script that asks for a signature of each of two keys, given by their
/// encodings: push the first, check its signature and go on, push the second,
/// check its signature.
pub open spec fn two_key_script(first: Seq<u8>, second: Seq<u8>) -> Seq<u8> {
    seq![0x21u8] + first + seq![0xadu8, 0x21u8] + second + seq![0xacu8]
}

/// Whether the key `a·G` comes first in a joint script with `b·G`: whether its
/// encoding is the lesser.
pub open spec fn comes_first(a: nat, b: nat) -> bool {
    be_value(generator_multiple(a)) <= be_value(generator_multiple(b))
}

/// The script of the joint output of the keys `a·G` and `b·G`: the two-key
/// script with the keys in the order of their encodings.
pub open spec fn joint_script(a: nat, b: nat) -> Seq<u8> {
    if comes_first(a, b) {
        two_key_script(generator_multiple(a), generator_multiple(b))
    } else {
        two_key_script(generator_multiple(b), generator_multiple(a))
    }
}

/// The script of an output that pays to the hash of a witness script.
pub open spec fn pay_to_script_hash(script: Seq<u8>) -> Seq<u8> {
    seq![0x00u8, 0x20u8] + sha256_digest(script)
}

/// The joint output of the keys `a·G` and `b·G`.
pub open spec fn joint_output(value: nat, a: nat, b: nat) -> TxOutView {
    TxOutView { value, script_pubkey: pay_to_script_hash(joint_script(a, b)) }
}

/// The transaction that funds a joint output: the partial transaction with
/// the joint output added behind its outputs.
pub open spec fn fund_of(partial: TransactionView, value: nat, a: nat, b: nat) -> TransactionView {
    TransactionView {
        version: partial.version,
        lock_time: partial.lock_time,
        input: partial.input,
        output: partial.output.push(joint_output(value, a, b)),
    }
}

/// The transaction that spends the last output of `fund` to one address.
pub open spec fn spend_of(fund: TransactionView, value: nat, address: Seq<u8>, lock_time: nat)
    -> TransactionView {
    TransactionView {
        version: VERSION as nat,
        lock_time,
        input: seq![
            TxInView {
                previous_output: OutPointView {
                    txid: txid_of(fund),
                    vout: (fund.output.len() - 1) as nat,
                },
                script_sig: Seq::<u8>::empty(),
                sequence: SEQUENCE as nat,
                witness: Seq::<Seq<u8>>::empty(),
            },
        ],
        output: seq![TxOutView { value, script_pubkey: address }],
    }
}

/// The witness that satisfies the joint output of the keys `a·G` and `b·G`:
/// the signature of the key that comes second, that of the key that comes
/// first, and the script.
pub open spec fn joint_witness(a: nat, sig_a: SignatureView, b: nat, sig_b: SignatureView) -> Seq<
    Seq<u8>,
> {
    if comes_first(a, b) {
        seq![witness_signature(sig_b), witness_signature(sig_a), joint_script(a, b)]
    } else {
        seq![witness_signature(sig_a), witness_signature(sig_b), joint_script(a, b)]
    }
}

/// A transaction with the witness of its one input replaced.
pub open spec fn with_witness(tx: TransactionView, witness: Seq<Seq<u8>>) -> TransactionView {
    TransactionView {
        version: tx.version,
        lock_time: tx.lock_time,
        input: seq![
            TxInView {
                previous_output: tx.input[0].previous_output,
                script_sig: tx.input[0].script_sig,
                sequence: tx.input[0].sequence,
                witness,
            },
        ],
        output: tx.output,
    }
}

/// The transactions of a joint output and the digests that the signatures
/// over the two spending ones cover.
#[derive(Debug)]
pub struct Transactions {
    pub fund: Transaction,
    pub refund: Transaction,
    pub redeem: Transaction,
    pub refund_tx_digest: SigHash,
    pub redeem_tx_digest: SigHash,
}

/// The `Transactions` of a joint output as contracts speak of them.
pub struct TransactionsView {
    pub fund: TransactionView,
    pub refund: TransactionView,
    pub redeem: TransactionView,
    pub refund_tx_digest: Seq<u8>,
    pub redeem_tx_digest: Seq<u8>,
}

impl Clone for Transactions {
    fn clone(&self) -> (r: Transactions)
        ensures
            r@ == self@,
    {
        Transactions {
            fund: self.fund.clone(),
            refund: self.refund.clone(),
            redeem: self.redeem.clone(),
            refund_tx_digest: self.refund_tx_digest,
            redeem_tx_digest: self.redeem_tx_digest,
        }
    }
}

impl View for Transactions {
    type V = TransactionsView;

    open spec fn view(&self) -> TransactionsView {
        TransactionsView {
            fund: self.fund@,
            refund: self.refund@,
            redeem: self.redeem@,
            refund_tx_digest: self.refund_tx_digest@,
            redeem_tx_digest: self.redeem_tx_digest@,
        }
    }
}

/// The transactions of the joint output of the keys `a·G` and `b·G`: `fund`
/// adds the output to the partial transaction, `refund` spends it to the
/// refund address from `expiry` on, `redeem` spends it to the redeem address
/// at once.
pub open spec fn transactions_of(
    partial: TransactionView,
    joint_value: nat,
    takeout: nat,
    a: nat,
    b: nat,
    expiry: nat,
    redeem_address: Seq<u8>,
    refund_address: Seq<u8>,
) -> TransactionsView {
    let fund = fund_of(partial, joint_value, a, b);
    let refund = spend_of(fund, takeout, refund_address, expiry);
    let redeem = spend_of(fund, takeout, redeem_address, 0);
    TransactionsView {
        fund,
        refund,
        redeem,
        refund_tx_digest: sighash_of(refund, 0, joint_script(a, b), joint_value),
        redeem_tx_digest: sighash_of(redeem, 0, joint_script(a, b), joint_value),
    }
}

/// Whether the first key comes first in a joint script with the second.
fn first_of(X_1: &PublicKey, X_2: &PublicKey) -> (r: bool)
    ensures
        r == comes_first(X_1@, X_2@),
{
    proof {
        use_type_invariant(X_1);
        use_type_invariant(X_2);
        X_1.lemma_valid();
        X_2.lemma_valid();
    }
    !X_2.sorts_before(X_1)
}

/// The script of the joint output of two keys.
pub fn make_joint_script(X_1: &PublicKey, X_2: &PublicKey) -> (script: Vec<u8>)
    ensures
        script@ == joint_script(X_1@, X_2@),
        script@.len() == 70,
{
    proof {
        use_type_invariant(X_1);
        use_type_invariant(X_2);
        X_1.lemma_valid();
        X_2.lemma_valid();
    }
    let (first, second) = if first_of(X_1, X_2) {
        (X_1.to_bytes(), X_2.to_bytes())
    } else {
        (X_2.to_bytes(), X_1.to_bytes())
    };
    let mut script: Vec<u8> = Vec::new();
    script.push(0x21);
    put_bytes(&mut script, first.as_slice());
    script.push(0xad);
    script.push(0x21);
    put_bytes(&mut script, second.as_slice());
    script.push(0xac);
    assert(script@ =~= two_key_script(first@, second@));
    script
}

/// The joint output of two keys.
pub fn make_joint_output(value: u64, X_1: &PublicKey, X_2: &PublicKey) -> (output: TxOut)
    ensures
        output@ == joint_output(value as nat, X_1@, X_2@),
{
    let script = make_joint_script(X_1, X_2);
    let mut script_pubkey: Vec<u8> = Vec::new();
    script_pubkey.push(0x00);
    script_pubkey.push(0x20);
    put_bytes(&mut script_pubkey, sha256(script.as_slice()).as_slice());
    assert(script_pubkey@ =~= pay_to_script_hash(script@));
    TxOut { value, script_pubkey }
}

/// The transaction that funds the joint output of two keys: the partial
/// transaction with the joint output added behind its outputs.
pub fn make_fund_transaction(
    partial_fund_transaction: Transaction,
    amount: u64,
    X_1: &PublicKey,
    X_2: &PublicKey,
) -> (fund: Transaction)
    ensures
        fund@ == fund_of(partial_fund_transaction@, amount as nat, X_1@, X_2@),
{
    let mut fund = partial_fund_transaction;
    let ghost before = fund@;
    fund.output.push(make_joint_output(amount, X_1, X_2));
    proof {
        assert(fund@.output =~= before.output.push(joint_output(amount as nat, X_1@, X_2@)));
        assert(fund@.input =~= before.input);
    }
    fund
}

/// The transaction that spends the joint output, the last output of `fund`,
/// to one address, and the digest that its signatures cover.
pub fn make_spend_transaction(
    fund: &Transaction,
    joint_value: u64,
    takeout: u64,
    X_1: &PublicKey,
    X_2: &PublicKey,
    address: &Address,
    lock_time: u32,
) -> (r: (Transaction, SigHash))
    requires
        0 < fund@.output.len() <= 0x1_0000_0000,
    ensures
        r.0@ == spend_of(fund@, takeout as nat, address@, lock_time as nat),
        r.1@ == sighash_of(r.0@, 0, joint_script(X_1@, X_2@), joint_value as nat),
{
    let vout: u32 = (fund.output.len() - 1) as u32;
    let input = TxIn {
        previous_output: OutPoint { txid: fund.txid(), vout },
        script_sig: Vec::new(),
        sequence: SEQUENCE,
        witness: Vec::new(),
    };
    let output = TxOut { value: takeout, script_pubkey: address.script_pubkey() };
    let mut inputs: Vec<TxIn> = Vec::new();
    inputs.push(input);
    let mut outputs: Vec<TxOut> = Vec::new();
    outputs.push(output);
    let spend = Transaction { version: VERSION, lock_time, input: inputs, output: outputs };
    proof {
        let model = spend_of(fund@, takeout as nat, address@, lock_time as nat);
        assert(spend@.input[0].witness =~= Seq::<Seq<u8>>::empty());
        assert(spend@.input[0] == model.input[0]);
        assert(spend@.input =~= model.input);
        assert(spend@.output =~= model.output);
    }
    let script = make_joint_script(X_1, X_2);
    let digest = spend.sighash_all(0, script.as_slice(), joint_value);
    (spend, digest.unwrap())
}

/// The transactions of the joint output of two keys.
pub fn make_transactions(
    partial_fund_transaction: Transaction,
    joint_output_value: u64,
    joint_output_takeout: u64,
    X_1: &PublicKey,
    X_2: &PublicKey,
    expiry: u32,
    redeem_identity: &Address,
    refund_identity: &Address,
) -> (r: Transactions)
    requires
        partial_fund_transaction@.output.len() < 0x1_0000_0000,
    ensures
        r@ == transactions_of(
            partial_fund_transaction@,
            joint_output_value as nat,
            joint_output_takeout as nat,
            X_1@,
            X_2@,
            expiry as nat,
            redeem_identity@,
            refund_identity@,
        ),
{
    let fund = make_fund_transaction(partial_fund_transaction, joint_output_value, X_1, X_2);
    let (refund, refund_tx_digest) = make_spend_transaction(
        &fund,
        joint_output_value,
        joint_output_takeout,
        X_1,
        X_2,
        refund_identity,
        expiry,
    );
    let (redeem, redeem_tx_digest) = make_spend_transaction(
        &fund,
        joint_output_value,
        joint_output_takeout,
        X_1,
        X_2,
        redeem_identity,
        0,
    );
    Transactions { fund, refund, redeem, refund_tx_digest, redeem_tx_digest }
}

/// Signs off a transaction that spends a joint output: checks the signatures
/// of the two holders over the digest and puts them, with the script, into
/// the witness of the transaction's one input.
pub fn complete_spend_transaction(
    transaction: Transaction,
    digest: &SigHash,
    a: (PublicKey, Signature),
    b: (PublicKey, Signature),
) -> (r: Result<Transaction, Error>)
    ensures
        r is Ok <==> transaction@.input.len() == 1 && ecdsa_accepts(
            message_scalar(digest@),
            a.1@,
            a.0@,
        ) && ecdsa_accepts(message_scalar(digest@), b.1@, b.0@),
        r matches Ok(signed) ==> signed@ == with_witness(
            transaction@,
            joint_witness(a.0@, a.1@, b.0@, b.1@),
        ),
        r matches Err(e) ==> e == if transaction@.input.len() == 1 {
            Error::BadSignature
        } else {
            Error::NoTransaction
        },
{
    let mut transaction = transaction;
    let ghost before = transaction@;
    if transaction.input.len() != 1 {
        return Err(Error::NoTransaction);
    }
    if verify(&digest.bytes, &a.1, &a.0).is_err() {
        return Err(Error::BadSignature);
    }
    if verify(&digest.bytes, &b.1, &b.0).is_err() {
        return Err(Error::BadSignature);
    }
    let script = make_joint_script(&a.0, &b.0);
    let mut witness: Vec<Vec<u8>> = Vec::new();
    if first_of(&a.0, &b.0) {
        witness.push(encode_for_witness(&b.1));
        witness.push(encode_for_witness(&a.1));
    } else {
        witness.push(encode_for_witness(&a.1));
        witness.push(encode_for_witness(&b.1));
    }
    witness.push(script);
    let mut input = transaction.input.pop().unwrap();
    input.witness = witness;
    transaction.input.push(input);
    proof {
        let model = with_witness(before, joint_witness(a.0@, a.1@, b.0@, b.1@));
        assert(transaction@.input[0].witness =~= joint_witness(a.0@, a.1@, b.0@, b.1@));
        assert(transaction@.input[0] == model.input[0]);
        assert(transaction@.input =~= model.input);
        assert(transaction@.output =~= model.output);
    }
    Ok(transaction)
}

/// `item` is the witness form of the signature `sig`, and `sig` is the
/// decryption of the adaptor signature under the discrete logarithm `y`.
pub open spec fn decrypts(
    item: Seq<u8>,
    y: nat,
    esig: crate::adaptor::EncryptedSignatureView,
    sig: SignatureView,
) -> bool {
    &&& sig.r < order()
    &&& sig.s < order()
    &&& item == witness_signature(sig)
    &&& recovered(y, esig, sig) is Some
}

/// `item` is the witness form of a decryption of the adaptor signature.
pub open spec fn holds_decryption(
    item: Seq<u8>,
    y: nat,
    esig: crate::adaptor::EncryptedSignatureView,
) -> bool {
    exists|sig: SignatureView| decrypts(item, y, esig, sig)
}

/// The witness of the first input, or none.
pub open spec fn first_witness(tx: TransactionView) -> Seq<Seq<u8>> {
    if tx.input.len() > 0 {
        tx.input[0].witness
    } else {
        Seq::<Seq<u8>>::empty()
    }
}

/// Finds, in the witness of a transaction's first input, the signature that
/// the holder of the discrete logarithm of `key` decrypted `esig` to: the
/// first item that is a signature from which, with `esig`, that logarithm
/// can be recovered.
pub fn extract_signature_by_key(
    transaction: &Transaction,
    key: &PublicKey,
    esig: &EncryptedSignature,
) -> (r: Result<Signature, Error>)
    ensures
        r is Ok <==> exists|i: int|
            0 <= i < first_witness(transaction@).len() && holds_decryption(
                #[trigger] first_witness(transaction@)[i],
                key@,
                esig@,
            ),
        r matches Ok(sig) ==> exists|i: int|
            0 <= i < first_witness(transaction@).len() && decrypts(
                #[trigger] first_witness(transaction@)[i],
                key@,
                esig@,
                sig@,
            ) && forall|j: int|
                0 <= j < i ==> !holds_decryption(
                    #[trigger] first_witness(transaction@)[j],
                    key@,
                    esig@,
                ),
        r matches Err(e) ==> e == Error::BadSignature,
{
    if transaction.input.len() == 0 {
        return Err(Error::BadSignature);
    }
    let ghost items = first_witness(transaction@);
    let input = &transaction.input[0];
    let n: usize = input.witness.len();
    let mut k: usize = 0;
    while k < n
        invariant
            k <= n,
            n == input.witness@.len(),
            items == input@.witness,
            items == first_witness(transaction@),
            forall|j: int| 0 <= j < k ==> !holds_decryption(#[trigger] items[j], key@, esig@),
        decreases n - k,
    {
        let item = &input.witness[k];
        assert(items[k as int] == item@);
        match parse_from_witness(item.as_slice()) {
            Some(sig) => {
                proof {
                    use_type_invariant(sig);
                    sig.lemma_reduced();
                }
                if recover(key, esig, &sig).is_ok() {
                    assert(decrypts(items[k as int], key@, esig@, sig@));
                    return Ok(sig);
                }
                proof {
                    assert forall|other: SignatureView|
                        !decrypts(items[k as int], key@, esig@, other) by {
                        if decrypts(items[k as int], key@, esig@, other) {
                            assert(witness_signature(other).drop_last() =~= crate::der::der_signature(
                                other,
                            ));
                            assert(witness_signature(sig@).drop_last() =~= crate::der::der_signature(
                                sig@,
                            ));
                            lemma_der_injective(other, sig@);
                        }
                    }
                }
            },
            None => {},
        }
        k = k + 1;
    }
    Err(Error::BadSignature)
}

} // verus!
