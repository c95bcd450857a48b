use a2l::adaptor::{decsig, encsign_with};
use a2l::bitcoin::{
    complete_spend_transaction, extract_signature_by_key, make_fund_transaction,
    make_joint_output, make_joint_script, make_spend_transaction, make_transactions, Address,
    MAX_SATISFACTION_WEIGHT, SEQUENCE, VERSION,
};
use a2l::der;
use a2l::ecdsa::sign;
use a2l::hash::sha256d;
use a2l::secp256k1::{KeyPair, PublicKey, SecretKey};
use a2l::transaction::{OutPoint, SigHash, Transaction, TxIn, TxOut};
use a2l::{Error, Params};

const G: &str = "0279be667ef9dcbbac55a06295ce870b07029bfcdb2dce28d959f2815b16f81798";
const TWO_G: &str = "02c6047f9441ed7d6d3045406e95c07cd85c778e4b8cef3ca7abac09b95c709ee5";

fn unhex(s: &str) -> Vec<u8> {
    (0..s.len() / 2)
        .map(|i| u8::from_str_radix(&s[2 * i..2 * i + 2], 16).unwrap())
        .collect()
}

fn hex(bytes: &[u8]) -> String {
    bytes.iter().map(|b| format!("{:02x}", b)).collect()
}

fn secret(n: u8) -> SecretKey {
    let mut out = [0u8; 32];
    out[31] = n;
    SecretKey::from_bytes(out).unwrap()
}

fn pair(n: u8) -> KeyPair {
    KeyPair::from_secret_key(secret(n))
}

fn sha256(data: &[u8]) -> [u8; 32] {
    bitcoin::hashes::Hash::to_byte_array(
        <bitcoin::hashes::sha256::Hash as bitcoin::hashes::Hash>::hash(data),
    )
}

fn p2wpkh(key: &PublicKey) -> Address {
    let key = bitcoin::CompressedPublicKey::from_slice(&key.to_bytes()).unwrap();
    let address = bitcoin::Address::p2wpkh(&key, bitcoin::Network::Regtest);
    Address::from_script_pubkey(address.script_pubkey().to_bytes())
}

/// The same transaction as the `bitcoin` crate holds it.
fn ledger(tx: &Transaction) -> bitcoin::Transaction {
    bitcoin::Transaction {
        version: bitcoin::transaction::Version(tx.version as i32),
        lock_time: bitcoin::absolute::LockTime::from_consensus(tx.lock_time),
        input: tx
            .input
            .iter()
            .map(|input| bitcoin::TxIn {
                previous_output: bitcoin::OutPoint {
                    txid: bitcoin::hashes::Hash::from_byte_array(input.previous_output.txid),
                    vout: input.previous_output.vout,
                },
                script_sig: bitcoin::ScriptBuf::from_bytes(input.script_sig.clone()),
                sequence: bitcoin::Sequence(input.sequence),
                witness: bitcoin::Witness::from_slice(&input.witness),
            })
            .collect(),
        output: tx
            .output
            .iter()
            .map(|output| bitcoin::TxOut {
                value: bitcoin::Amount::from_sat(output.value),
                script_pubkey: bitcoin::ScriptBuf::from_bytes(output.script_pubkey.clone()),
            })
            .collect(),
    }
}

fn their_sighash(tx: &Transaction, script: &[u8], value: u64) -> [u8; 32] {
    let tx = ledger(tx);
    let mut cache = bitcoin::sighash::SighashCache::new(&tx);
    let digest = cache
        .p2wsh_signature_hash(
            0,
            bitcoin::Script::from_bytes(script),
            bitcoin::Amount::from_sat(value),
            bitcoin::EcdsaSighashType::All,
        )
        .unwrap();
    bitcoin::hashes::Hash::to_byte_array(digest)
}

fn sample(inputs: usize, outputs: usize, witness: bool, script_len: usize) -> Transaction {
    Transaction {
        version: 2,
        lock_time: 0x0102_0304,
        input: (0..inputs)
            .map(|i| TxIn {
                previous_output: OutPoint { txid: sha256(&[i as u8]), vout: 7 + i as u32 },
                script_sig: vec![0x51; i],
                sequence: 0xffff_fff0 + i as u32,
                witness: if witness && i % 2 == 0 {
                    vec![vec![], vec![i as u8; 5], vec![0xab; 300]]
                } else {
                    vec![]
                },
            })
            .collect(),
        output: (0..outputs)
            .map(|i| TxOut {
                value: 0x0102_0304_0506_0708 + i as u64,
                script_pubkey: vec![i as u8; script_len],
            })
            .collect(),
    }
}

fn partial(value: u64) -> Transaction {
    Transaction {
        version: 2,
        lock_time: 0,
        input: vec![TxIn {
            previous_output: OutPoint { txid: [9; 32], vout: 1 },
            script_sig: Vec::new(),
            sequence: 0xffff_ffff,
            witness: Vec::new(),
        }],
        output: vec![TxOut { value, script_pubkey: vec![0x51] }],
    }
}

#[test]
fn serialization_known_answer() {
    let tx = Transaction {
        version: 2,
        lock_time: 5,
        input: vec![TxIn {
            previous_output: OutPoint { txid: [0x11; 32], vout: 3 },
            script_sig: vec![],
            sequence: 0xffff_fffe,
            witness: vec![vec![0xaa, 0xbb], vec![]],
        }],
        output: vec![TxOut { value: 1000, script_pubkey: vec![0x00, 0x14] }],
    };
    let outpoint = "111111111111111111111111111111111111111111111111111111111111111103000000";
    assert_eq!(
        hex(&tx.serialize_stripped()),
        format!("02000000{}{}{}{}{}", "01", outpoint, "00feffffff", "01e803000000000000020014", "05000000")
    );
    assert_eq!(
        hex(&tx.serialize()),
        format!(
            "02000000{}{}{}{}{}{}",
            "000101", outpoint, "00feffffff", "01e803000000000000020014", "0202aabb00", "05000000"
        )
    );
    assert_eq!(tx.txid(), sha256d(&tx.serialize_stripped()));
    // 62 bytes without the witness, 69 with: 3·62 + 69
    assert_eq!(tx.serialize_stripped().len(), 62);
    assert_eq!(tx.serialize().len(), 69);
    assert_eq!(tx.weight(), 255);
}

#[test]
fn serialization_agrees_with_the_ledger_library() {
    for (inputs, outputs, witness, script_len) in [
        (1, 0, false, 0),
        (1, 1, false, 22),
        (1, 1, true, 34),
        (3, 2, true, 0xfc),
        (2, 3, true, 0xfd),
        (2, 1, false, 0x1_0000),
        (0xfd, 1, true, 1),
    ] {
        let tx = sample(inputs, outputs, witness, script_len);
        let theirs = ledger(&tx);
        assert_eq!(tx.serialize(), bitcoin::consensus::serialize(&theirs));
        assert_eq!(tx.txid(), bitcoin::hashes::Hash::to_byte_array(theirs.compute_txid()));
        assert_eq!(tx.weight(), theirs.weight().to_wu());
        assert_eq!(tx.carries_witness(), witness);
        assert_eq!(tx.clone().serialize(), tx.serialize());
    }
    // without inputs there is no witness, and the identifier is the hash of
    // the same bytes
    let empty = sample(0, 2, false, 22);
    assert!(!empty.carries_witness());
    assert_eq!(empty.serialize(), empty.serialize_stripped());
    assert_eq!(
        empty.txid(),
        bitcoin::hashes::Hash::to_byte_array(ledger(&empty).compute_txid())
    );
}

#[test]
fn sighash_agrees_with_the_ledger_library() {
    let script = make_joint_script(&pair(1).to_pk(), &pair(2).to_pk());
    for inputs in 1..4 {
        let tx = sample(inputs, 2, false, 22);
        let digest = tx.sighash_all(0, &script, 12_345).unwrap();
        assert_eq!(digest.into_inner(), their_sighash(&tx, &script, 12_345));
        assert!(tx.sighash_all(inputs, &script, 12_345).is_none());
    }
}

#[test]
fn joint_script_sorts_the_keys() {
    let g = pair(1).to_pk();
    let two_g = pair(2).to_pk();
    // the encoding of G is the lesser: 0279be.. before 02c604..
    let expected = format!("21{}ad21{}ac", G, TWO_G);
    assert_eq!(hex(&make_joint_script(&g, &two_g)), expected);
    assert_eq!(hex(&make_joint_script(&two_g, &g)), expected);
    assert_eq!(make_joint_script(&g, &two_g).len(), 70);
    let output = make_joint_output(77, &two_g, &g);
    assert_eq!(output.value, 77);
    assert_eq!(
        hex(&output.script_pubkey),
        format!("0020{}", hex(&sha256(&unhex(&expected))))
    );
    let theirs = bitcoin::ScriptBuf::new_p2wsh(&bitcoin::WScriptHash::from(
        bitcoin::ScriptBuf::from_bytes(unhex(&expected)),
    ));
    assert_eq!(output.script_pubkey, theirs.to_bytes());
}

#[test]
fn fund_adds_the_joint_output_behind_the_others() {
    let fund = make_fund_transaction(partial(5), 1000, &pair(1).to_pk(), &pair(2).to_pk());
    assert_eq!(fund.input.len(), 1);
    assert_eq!(fund.output.len(), 2);
    assert_eq!(fund.output[0].value, 5);
    assert_eq!(fund.output[0].script_pubkey, vec![0x51]);
    assert_eq!(fund.output[1].value, 1000);
    assert_eq!(
        fund.output[1].script_pubkey,
        make_joint_output(1000, &pair(1).to_pk(), &pair(2).to_pk()).script_pubkey
    );
    assert_eq!(fund.version, 2);
    assert_eq!(fund.lock_time, 0);
}

#[test]
fn spend_takes_the_joint_output_to_one_address() {
    let a = pair(1).to_pk();
    let b = pair(2).to_pk();
    let fund = make_fund_transaction(partial(5), 1000, &a, &b);
    let address = p2wpkh(&pair(3).to_pk());
    let (spend, digest) = make_spend_transaction(&fund, 1000, 900, &a, &b, &address, 650_000);
    assert_eq!(spend.version, VERSION);
    assert_eq!(spend.lock_time, 650_000);
    assert_eq!(spend.input.len(), 1);
    assert_eq!(spend.input[0].previous_output.txid, fund.txid());
    assert_eq!(spend.input[0].previous_output.vout, 1);
    assert_eq!(spend.input[0].sequence, SEQUENCE);
    assert!(spend.input[0].script_sig.is_empty());
    assert!(spend.input[0].witness.is_empty());
    assert_eq!(spend.output.len(), 1);
    assert_eq!(spend.output[0].value, 900);
    assert_eq!(spend.output[0].script_pubkey, address.script_pubkey());
    let script = make_joint_script(&a, &b);
    assert_eq!(digest.into_inner(), their_sighash(&spend, &script, 1000));
    // the lock time takes effect only below the highest sequence number
    assert!(ledger(&spend).is_lock_time_enabled());
}

#[test]
fn transactions_of_a_joint_output() {
    let a = pair(4).to_pk();
    let b = pair(5).to_pk();
    let redeem_address = p2wpkh(&pair(6).to_pk());
    let refund_address = p2wpkh(&pair(7).to_pk());
    let txs = make_transactions(
        partial(5),
        1000,
        900,
        &a,
        &b,
        700_000,
        &redeem_address,
        &refund_address,
    );
    assert_eq!(txs.fund.serialize(), make_fund_transaction(partial(5), 1000, &a, &b).serialize());
    assert_eq!(txs.refund.lock_time, 700_000);
    assert_eq!(txs.redeem.lock_time, 0);
    assert_eq!(txs.refund.output[0].script_pubkey, refund_address.script_pubkey());
    assert_eq!(txs.redeem.output[0].script_pubkey, redeem_address.script_pubkey());
    assert_eq!(txs.refund.output[0].value, 900);
    assert_eq!(txs.redeem.output[0].value, 900);
    let script = make_joint_script(&a, &b);
    assert_eq!(txs.refund_tx_digest.into_inner(), their_sighash(&txs.refund, &script, 1000));
    assert_eq!(txs.redeem_tx_digest.into_inner(), their_sighash(&txs.redeem, &script, 1000));
    // the order of the keys does not matter
    let swapped = make_transactions(
        partial(5),
        1000,
        900,
        &b,
        &a,
        700_000,
        &redeem_address,
        &refund_address,
    );
    assert_eq!(swapped.redeem_tx_digest.into_inner(), txs.redeem_tx_digest.into_inner());
    assert_eq!(swapped.fund.txid(), txs.fund.txid());
}

fn signed_spend(first: u8, second: u8) -> (Transaction, SigHash, Transaction) {
    let a = pair(first);
    let b = pair(second);
    let fund = make_fund_transaction(partial(5), 1000, &a.to_pk(), &b.to_pk());
    let address = p2wpkh(&pair(3).to_pk());
    let (spend, digest) =
        make_spend_transaction(&fund, 1000, 900, &a.to_pk(), &b.to_pk(), &address, 0);
    let signed = complete_spend_transaction(
        spend.clone(),
        &digest,
        (a.to_pk(), sign(&digest.bytes, &a)),
        (b.to_pk(), sign(&digest.bytes, &b)),
    )
    .unwrap();
    (spend, digest, signed)
}

#[test]
fn completed_spend_satisfies_the_joint_script() {
    let secp = bitcoin::secp256k1::Secp256k1::verification_only();
    for (first, second) in [(1u8, 2u8), (2, 1), (8, 9), (9, 8)] {
        let (spend, digest, signed) = signed_spend(first, second);
        assert_eq!(signed.serialize_stripped(), spend.serialize_stripped());
        let witness = &signed.input[0].witness;
        assert_eq!(witness.len(), 3);
        let script = make_joint_script(&pair(first).to_pk(), &pair(second).to_pk());
        assert_eq!(witness[2], script);
        assert_eq!(digest.into_inner(), their_sighash(&signed, &script, 1000));
        // the script checks the key it pushes first against the signature on
        // top of the stack, which is the second item of the witness
        let message = bitcoin::secp256k1::Message::from_digest(digest.into_inner());
        for (item, key) in [(&witness[1], &script[1..34]), (&witness[0], &script[36..69])] {
            assert_eq!(item[item.len() - 1], 0x01);
            let sig =
                bitcoin::secp256k1::ecdsa::Signature::from_der(&item[..item.len() - 1]).unwrap();
            let key = bitcoin::secp256k1::PublicKey::from_slice(key).unwrap();
            assert!(secp.verify_ecdsa(&message, &sig, &key).is_ok());
        }
        // satisfying the joint output weighs no more than was paid for: the
        // witness and, four times, the length byte of the empty signature
        // script
        let added = signed.weight() - spend.weight();
        assert!(added - 2 + 4 <= MAX_SATISFACTION_WEIGHT);
    }
}

#[test]
fn complete_spend_refuses_a_wrong_signature() {
    let a = pair(1);
    let b = pair(2);
    let fund = make_fund_transaction(partial(5), 1000, &a.to_pk(), &b.to_pk());
    let address = p2wpkh(&pair(3).to_pk());
    let (spend, digest) =
        make_spend_transaction(&fund, 1000, 900, &a.to_pk(), &b.to_pk(), &address, 0);
    let good_a = sign(&digest.bytes, &a);
    let good_b = sign(&digest.bytes, &b);
    let other = sign(&sha256(b"another digest"), &b);
    let refused = complete_spend_transaction(
        spend.clone(),
        &digest,
        (a.to_pk(), good_a),
        (b.to_pk(), other),
    );
    assert_eq!(refused.err(), Some(Error::BadSignature));
    // the signatures the wrong way round
    let refused = complete_spend_transaction(
        spend.clone(),
        &digest,
        (a.to_pk(), good_b),
        (b.to_pk(), good_a),
    );
    assert_eq!(refused.err(), Some(Error::BadSignature));
    // a transaction that is no spend of one output
    let refused = complete_spend_transaction(
        sample(2, 1, false, 22),
        &digest,
        (a.to_pk(), good_a),
        (b.to_pk(), good_b),
    );
    assert_eq!(refused.err(), Some(Error::NoTransaction));
    let refused = complete_spend_transaction(
        sample(0, 1, false, 22),
        &digest,
        (a.to_pk(), good_a),
        (b.to_pk(), good_b),
    );
    assert_eq!(refused.err(), Some(Error::NoTransaction));
}

#[test]
fn extract_finds_the_decrypted_signature() {
    let x = pair(11);
    let other = pair(12);
    let y = pair(13);
    let fund = make_fund_transaction(partial(5), 1000, &x.to_pk(), &other.to_pk());
    let address = p2wpkh(&pair(3).to_pk());
    let (spend, digest) =
        make_spend_transaction(&fund, 1000, 900, &x.to_pk(), &other.to_pk(), &address, 0);
    let esig = encsign_with(&digest.bytes, &x, &y.to_pk(), &secret(14), &secret(15));
    let decrypted = decsig(&y, &esig);
    let signed = complete_spend_transaction(
        spend.clone(),
        &digest,
        (x.to_pk(), decrypted),
        (other.to_pk(), sign(&digest.bytes, &other)),
    )
    .unwrap();
    let found = extract_signature_by_key(&signed, &y.to_pk(), &esig).unwrap();
    assert_eq!(found.to_bytes(), decrypted.to_bytes());
    assert!(signed.input[0].witness.contains(&der::encode_for_witness(&found)));
    // under another point nothing in the witness is a decryption
    let refused = extract_signature_by_key(&signed, &pair(16).to_pk(), &esig);
    assert_eq!(refused.err(), Some(Error::BadSignature));
    // nor is there one in a transaction without a witness, or without inputs
    let refused = extract_signature_by_key(&spend, &y.to_pk(), &esig);
    assert_eq!(refused.err(), Some(Error::BadSignature));
    let refused = extract_signature_by_key(&sample(0, 1, false, 1), &y.to_pk(), &esig);
    assert_eq!(refused.err(), Some(Error::BadSignature));
}

#[test]
fn params_derive_the_values_of_the_joint_outputs() {
    let params = Params::new(
        p2wpkh(&pair(1).to_pk()),
        p2wpkh(&pair(2).to_pk()),
        650_000,
        10_000_000,
        10_000,
        15,
        partial(5),
    );
    assert_eq!(MAX_SATISFACTION_WEIGHT, 222);
    assert_eq!(params.sender_tumbler_joint_output_value(), 10_013_330);
    assert_eq!(params.sender_tumbler_joint_output_takeout(), 10_010_000);
    assert_eq!(params.tumbler_receiver_joint_output_value(), 10_003_330);
    assert_eq!(params.tumbler_receiver_joint_output_takeout(), 10_000_000);
    assert_eq!(params.expiry(), 650_000);
    assert_eq!(params.tumble_amount(), 10_000_000);
    assert_eq!(params.tumbler_fee(), 10_000);
    assert_eq!(params.spend_transaction_fee_per_wu(), 15);
    assert_eq!(params.redeem_identity().script_pubkey(), p2wpkh(&pair(1).to_pk()).script_pubkey());
    assert_eq!(params.refund_identity().script_pubkey(), p2wpkh(&pair(2).to_pk()).script_pubkey());
    assert_eq!(params.partial_fund_transaction().serialize(), partial(5).serialize());
    let copy = params.clone();
    assert_eq!(copy.sender_tumbler_joint_output_value(), 10_013_330);
    assert_eq!(copy.partial_fund_transaction().serialize(), partial(5).serialize());
}
