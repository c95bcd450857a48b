use a2l::adaptor::{encsign_with, EncryptedSignature};
use a2l::bitcoin::{make_joint_script, Address, MAX_SATISFACTION_WEIGHT};
use a2l::dummy_hsm_cl::{keygen, verify_puzzle, Ciphertext, Decrypt, Encrypt, Pow};
use a2l::ecdsa::{sign, verify};
use a2l::puzzle_promise;
use a2l::puzzle_solver;
use a2l::puzzle_solver::receiver;
use a2l::puzzle_solver::sender;
use a2l::puzzle_solver::sender::AptNotEqualApp;
use a2l::secp256k1::{KeyPair, PublicKey, Scalar, SecretKey};
use a2l::transaction::{OutPoint, Transaction, TxIn, TxOut};
use a2l::{Error, Input, Lock, Params};

fn small(n: u8) -> [u8; 32] {
    let mut out = [0u8; 32];
    out[31] = n;
    out
}

fn secret(n: u8) -> SecretKey {
    SecretKey::from_bytes(small(n)).unwrap()
}

fn pair(n: u8) -> KeyPair {
    KeyPair::from_secret_key(secret(n))
}

fn address(n: u8) -> Address {
    let key = bitcoin::CompressedPublicKey::from_slice(&pair(n).to_pk().to_bytes()).unwrap();
    let address = bitcoin::Address::p2wpkh(&key, bitcoin::Network::Regtest);
    Address::from_script_pubkey(address.script_pubkey().to_bytes())
}

fn partial() -> Transaction {
    Transaction {
        version: 2,
        lock_time: 0,
        input: vec![TxIn {
            previous_output: OutPoint { txid: [7; 32], vout: 0 },
            script_sig: Vec::new(),
            sequence: 0xffff_ffff,
            witness: Vec::new(),
        }],
        output: vec![TxOut { value: 42, script_pubkey: vec![0x51] }],
    }
}

fn params(amount: u64, fee: u64) -> Params {
    Params::new(address(101), address(102), 650_000, amount, fee, 15, partial())
}

fn their_sighash(tx: &Transaction, script: &[u8], value: u64) -> [u8; 32] {
    let tx = bitcoin::Transaction {
        version: bitcoin::transaction::Version(tx.version as i32),
        lock_time: bitcoin::absolute::LockTime::from_consensus(tx.lock_time),
        input: tx
            .input
            .iter()
            .map(|input| bitcoin::TxIn {
                previous_output: bitcoin::OutPoint {
                    txid: bitcoin::hashes::Hash::from_byte_array(input.previous_output.txid),
                    vout: input.previous_output.vout,
                },
                script_sig: bitcoin::ScriptBuf::from_bytes(input.script_sig.clone()),
                sequence: bitcoin::Sequence(input.sequence),
                witness: bitcoin::Witness::from_slice(&input.witness),
            })
            .collect(),
        output: tx
            .output
            .iter()
            .map(|output| bitcoin::TxOut {
                value: bitcoin::Amount::from_sat(output.value),
                script_pubkey: bitcoin::ScriptBuf::from_bytes(output.script_pubkey.clone()),
            })
            .collect(),
    };
    let mut cache = bitcoin::sighash::SighashCache::new(&tx);
    let digest = cache
        .p2wsh_signature_hash(
            0,
            bitcoin::Script::from_bytes(script),
            bitcoin::Amount::from_sat(value),
            bitcoin::EcdsaSighashType::All,
        )
        .unwrap();
    bitcoin::hashes::Hash::to_byte_array(digest)
}

/// The witness of a signed spend holds the signatures of both keys over the
/// digest that the ledger computes.
fn assert_spendable(signed: &Transaction, joint_value: u64, a: &PublicKey, b: &PublicKey) {
    let secp = bitcoin::secp256k1::Secp256k1::verification_only();
    let script = make_joint_script(a, b);
    let witness = &signed.input[0].witness;
    assert_eq!(witness.len(), 3);
    assert_eq!(witness[2], script);
    let digest = their_sighash(signed, &script, joint_value);
    let message = bitcoin::secp256k1::Message::from_digest(digest);
    for (item, key) in [(&witness[1], &script[1..34]), (&witness[0], &script[36..69])] {
        let sig = bitcoin::secp256k1::ecdsa::Signature::from_der(&item[..item.len() - 1]).unwrap();
        let key = bitcoin::secp256k1::PublicKey::from_slice(key).unwrap();
        assert!(secp.verify_ecdsa(&message, &sig, &key).is_ok());
    }
}

struct Promise {
    tumbler: puzzle_promise::Tumbler1,
    receiver: puzzle_promise::Receiver2,
    lock: Lock,
}

/// The puzzle-promise protocol with every scalar chosen.
fn promise(amount: u64) -> Promise {
    let (he_secret_key, he_public_key) = keygen(b"seed");
    let tumbler =
        puzzle_promise::Tumbler0::with_keys(params(amount, 0), pair(1), pair(2), he_secret_key);
    let receiver = puzzle_promise::Receiver0::with_key(params(amount, 0), pair(3), he_public_key);
    let receiver = receiver.receive(tumbler.next_message()).unwrap();
    let tumbler = tumbler.receive(receiver.next_message()).unwrap();
    let message = tumbler.next_message_with(&secret(4), &secret(5));
    let receiver = receiver.receive_with(message, pair(6)).unwrap();
    let sender = puzzle_promise::Sender0::new().receive(receiver.next_message());
    let lock = *sender.lock();
    Promise { tumbler, receiver, lock }
}

#[test]
fn keygen_is_a_function_of_the_seed() {
    let (sk, pk) = keygen(b"A2L-PoC");
    let (sk_again, pk_again) = keygen(b"A2L-PoC");
    let (other, _) = keygen(b"A2L-PoD");
    assert_eq!(sk.to_bytes(), sk_again.to_bytes());
    assert_eq!(pk.to_bytes(), pk_again.to_bytes());
    assert_eq!(sk.to_bytes(), pk.to_bytes());
    assert_eq!(sk.to_pk().to_bytes(), pk.to_bytes());
    assert_ne!(sk.to_bytes(), other.to_bytes());
    assert_eq!(
        sk.to_bytes().to_vec(),
        bitcoin::hashes::Hash::to_byte_array(
            <bitcoin::hashes::sha256::Hash as bitcoin::hashes::Hash>::hash(b"A2L-PoC")
        )
        .to_vec()
    );
}

#[test]
fn decrypt_gives_back_what_was_encrypted() {
    let (sk, pk) = keygen(b"seed");
    let (other, _) = keygen(b"another seed");
    let (c, _) = pk.encrypt(&pair(9));
    assert_eq!(sk.decrypt(&c).to_bytes(), small(9));
    let (same, _) = sk.encrypt(&pair(9));
    assert_eq!(same.to_bytes(), c.to_bytes());
    // a ciphertext of another key decrypts to zero
    assert!(other.decrypt(&c).is_zero());
    assert_eq!(Ciphertext::from_bytes(c.to_bytes()).unwrap().to_bytes(), c.to_bytes());
    let mut wide = c.to_bytes();
    wide[32..].copy_from_slice(&[0xff; 32]);
    assert!(Ciphertext::from_bytes(wide).is_none());
}

#[test]
fn raising_to_a_power_multiplies_the_plaintext() {
    let (sk, pk) = keygen(b"seed");
    let alpha = pair(9);
    let beta = pair(11);
    let (c, _) = pk.encrypt(&alpha);
    let powered = pk.pow_ct(&c, &beta);
    assert_eq!(sk.decrypt(&powered).to_bytes(), small(99));
    // the point of the product is the point raised to the power
    let point = pk.pow_pt(&alpha.to_pk(), &beta);
    assert_eq!(point.to_bytes(), pair(99).to_pk().to_bytes());
    let product = beta.to_sk().to_scalar().times(&alpha.to_sk().to_scalar());
    let product = KeyPair::from_secret_key(SecretKey::from_scalar(product).unwrap());
    assert_eq!(point.to_bytes(), product.to_pk().to_bytes());
}

#[test]
fn puzzle_is_refused_when_tampered_with() {
    let (_, pk) = keygen(b"seed");
    let (_, other) = keygen(b"another seed");
    let alpha = pair(9);
    let (c, proof) = pk.encrypt(&alpha);
    assert_eq!(verify_puzzle(&pk, &proof, &alpha.to_pk(), &c), Ok(()));
    let bad = Err(Error::BadProof);
    // another point, another key
    assert_eq!(verify_puzzle(&pk, &proof, &pair(10).to_pk(), &c), bad);
    assert_eq!(verify_puzzle(&other, &proof, &alpha.to_pk(), &c), bad);
    // one byte of the ciphertext changed, wherever it stands
    for at in 0..64 {
        let mut bytes = c.to_bytes();
        bytes[at] ^= 0x01;
        match Ciphertext::from_bytes(bytes) {
            Some(changed) => assert_eq!(verify_puzzle(&pk, &proof, &alpha.to_pk(), &changed), bad),
            None => {}
        }
    }
    // one byte of the point changed
    for at in 0..33 {
        let mut bytes = alpha.to_pk().to_bytes();
        bytes[at] ^= 0x01;
        match PublicKey::from_bytes(bytes) {
            Some(changed) => assert_eq!(verify_puzzle(&pk, &proof, &changed, &c), bad),
            None => {}
        }
    }
    // the ciphertext of zero is no puzzle
    let mut zero = c.to_bytes();
    zero[32..].copy_from_slice(&[0; 32]);
    let zero = Ciphertext::from_bytes(zero).unwrap();
    assert_eq!(verify_puzzle(&pk, &proof, &alpha.to_pk(), &zero), bad);
}

#[test]
fn promise_with_chosen_scalars() {
    let Promise { tumbler, receiver, lock } = promise(10_000_000);
    let value = 10_000_000 + MAX_SATISFACTION_WEIGHT * 15;
    // the tumbler's fund: the partial transaction and the joint output
    let fund = tumbler.unsigned_fund_transaction();
    assert_eq!(fund.output.len(), 2);
    assert_eq!(fund.output[0].value, 42);
    assert_eq!(fund.output[1].value, value);
    assert_eq!(fund.input[0].previous_output.txid, [7; 32]);
    // the refund goes to the refund address from the expiry on, signed by both
    let refund = tumbler.signed_refund_transaction();
    assert_eq!(refund.lock_time, 650_000);
    assert_eq!(refund.output[0].value, 10_000_000);
    assert_eq!(refund.output[0].script_pubkey, address(102).script_pubkey());
    assert_eq!(refund.input[0].previous_output.txid, fund.txid());
    assert_eq!(refund.input[0].previous_output.vout, 1);
    assert_spendable(refund, value, &pair(1).to_pk(), &pair(3).to_pk());
    assert_eq!(tumbler.x_t().to_sk().to_bytes(), small(1));
    // the redeem goes to the redeem address at once
    let redeem = receiver.unsigned_redeem_transaction();
    assert_eq!(redeem.lock_time, 0);
    assert_eq!(redeem.output[0].value, 10_000_000);
    assert_eq!(redeem.output[0].script_pubkey, address(101).script_pubkey());
    assert!(redeem.input[0].witness.is_empty());
    let script = make_joint_script(&pair(1).to_pk(), &pair(3).to_pk());
    let digest = receiver.redeem_tx_digest().into_inner();
    assert_eq!(digest, their_sighash(redeem, &script, value));
    // what the receiver holds
    assert_eq!(receiver.x_r().to_sk().to_bytes(), small(3));
    assert_eq!(receiver.X_t().to_bytes(), pair(1).to_pk().to_bytes());
    assert_eq!(receiver.beta().to_sk().to_bytes(), small(6));
    assert_eq!(receiver.sig_redeem_r().to_bytes(), sign(&digest, &pair(3)).to_bytes());
    assert_eq!(verify(&digest, receiver.sig_redeem_r(), &pair(3).to_pk()), Ok(()));
    let promised = encsign_with(&digest, &pair(1), &pair(2).to_pk(), &secret(4), &secret(5));
    assert_eq!(receiver.sig_redeem_t().to_bytes(), promised.to_bytes());
    // the lock: the puzzle of 2, blinded by 6
    let (sk, _) = keygen(b"seed");
    assert_eq!(sk.decrypt(&lock.c_alpha_prime).to_bytes(), small(12));
    assert_eq!(lock.A_prime.to_bytes(), pair(12).to_pk().to_bytes());
}

#[test]
fn promise_is_refused_on_a_bad_puzzle() {
    let (he_secret_key, he_public_key) = keygen(b"seed");
    let tumbler =
        puzzle_promise::Tumbler0::with_keys(params(1000, 0), pair(1), pair(2), he_secret_key);
    let mut message = tumbler.next_message();
    message.A = pair(3).to_pk();
    let receiver = puzzle_promise::Receiver0::with_key(params(1000, 0), pair(3), he_public_key);
    assert_eq!(receiver.receive(message).err(), Some(Error::BadProof));
    // a receiver that holds another key of the encryption scheme
    let (_, other) = keygen(b"another seed");
    let receiver = puzzle_promise::Receiver0::with_key(params(1000, 0), pair(3), other);
    assert_eq!(receiver.receive(tumbler.next_message()).err(), Some(Error::BadProof));
}

#[test]
fn promise_is_refused_when_the_parameters_differ() {
    let (he_secret_key, he_public_key) = keygen(b"seed");
    let amount = 10_000;
    let tumbler =
        puzzle_promise::Tumbler0::with_keys(params(amount, 0), pair(1), pair(2), he_secret_key);
    let receiver =
        puzzle_promise::Receiver0::with_key(params(amount / 2, 0), pair(3), he_public_key);
    let receiver = receiver.receive(tumbler.next_message()).unwrap();
    // the receiver signed the refund of another joint output
    let refused = tumbler.receive(receiver.next_message());
    assert_eq!(refused.err(), Some(Error::BadSignature));
}

#[test]
fn promise_is_refused_on_a_bad_encrypted_signature() {
    let (he_secret_key, he_public_key) = keygen(b"seed");
    let tumbler =
        puzzle_promise::Tumbler0::with_keys(params(1000, 0), pair(1), pair(2), he_secret_key);
    let receiver = puzzle_promise::Receiver0::with_key(params(1000, 0), pair(3), he_public_key);
    let receiver = receiver.receive(tumbler.next_message()).unwrap();
    let tumbler = tumbler.receive(receiver.next_message()).unwrap();
    let good = tumbler.next_message_with(&secret(4), &secret(5)).sig_redeem_t;
    let changed = EncryptedSignature::new(
        good.r(),
        good.r_hat(),
        good.s_hat().plus(&Scalar::from_bytes(small(1)).unwrap()),
        good.dleq_proof(),
    );
    let message = puzzle_promise::Message2 { sig_redeem_t: changed };
    let refused = receiver.receive_with(message, pair(6));
    assert_eq!(refused.err(), Some(Error::BadAdaptorSignature));
}

#[test]
fn promise_is_refused_on_a_bad_refund_signature() {
    let (he_secret_key, he_public_key) = keygen(b"seed");
    let tumbler =
        puzzle_promise::Tumbler0::with_keys(params(1000, 0), pair(1), pair(2), he_secret_key);
    let receiver = puzzle_promise::Receiver0::with_key(params(1000, 0), pair(3), he_public_key);
    let receiver = receiver.receive(tumbler.next_message()).unwrap();
    let mut message = receiver.next_message();
    message.X_r = pair(4).to_pk();
    assert_eq!(tumbler.receive(message).err(), Some(Error::BadSignature));
}

struct Solver {
    tumbler: puzzle_solver::Tumbler1,
    sender: sender::Sender1,
    message: puzzle_solver::Message2,
}

/// The puzzle-solver protocol up to the tumbler's point, with every scalar
/// chosen.
fn solver(lock: Lock) -> Solver {
    let (he_secret_key, he_public_key) = keygen(b"seed");
    let tumbler = puzzle_solver::Tumbler0::with_key(params(10_000_000, 10_000), he_secret_key, pair(21));
    let sender = sender::Sender0::with_key(params(10_000_000, 10_000), lock, he_public_key, pair(22));
    let sender = sender.receive_with(tumbler.next_message(), pair(23));
    let tumbler = tumbler.receive(sender.next_message()).unwrap();
    let message = tumbler.next_message();
    Solver { tumbler, sender, message }
}

#[test]
fn session_with_chosen_scalars() {
    let Promise { tumbler: promiser, receiver, lock } = promise(10_000_000);
    let Solver { tumbler, sender, message } = solver(lock);
    // the tumbler decrypted 23·6·2
    assert_eq!(
        message.A_prime_prime.to_bytes(),
        KeyPair::from_secret_key(SecretKey::from_bytes({
            let mut b = [0u8; 32];
            b[30] = 1;
            b[31] = 20;
            b
        })
        .unwrap())
        .to_pk()
        .to_bytes()
    );
    let sender = sender.receive_with(message, &secret(24), &secret(25)).unwrap();
    let value = 10_010_000 + MAX_SATISFACTION_WEIGHT * 15;
    let fund = sender.unsigned_fund_transaction();
    assert_eq!(fund.output[1].value, value);
    let refund = sender.signed_refund_transaction();
    assert_eq!(refund.lock_time, 650_000);
    assert_eq!(refund.output[0].value, 10_010_000);
    assert_eq!(refund.input[0].previous_output.txid, fund.txid());
    assert_spendable(&refund, value, &pair(22).to_pk(), &pair(21).to_pk());

    let tumbler = tumbler.receive(sender.next_message()).unwrap();
    let redeem = tumbler.signed_redeem_transaction().clone();
    assert_eq!(redeem.lock_time, 0);
    assert_eq!(redeem.output[0].value, 10_010_000);
    assert_eq!(redeem.output[0].script_pubkey, address(101).script_pubkey());
    assert_eq!(redeem.input[0].previous_output.txid, fund.txid());
    assert_spendable(&redeem, value, &pair(22).to_pk(), &pair(21).to_pk());

    // the sender learns the solution of the lock, 6·2
    let sender = sender.receive(redeem).unwrap();
    assert_eq!(sender.alpha_macron().to_sk().to_bytes(), small(12));
    assert_eq!(sender.next_message().alpha_macron.to_bytes(), small(12));

    // the receiver learns the solution of the puzzle, and redeems
    let receiver = receiver::Receiver0::new(
        receiver.x_r().to_pk(),
        *receiver.X_t(),
        receiver.unsigned_redeem_transaction().clone(),
        *receiver.sig_redeem_t(),
        *receiver.sig_redeem_r(),
        *receiver.beta(),
        *receiver.redeem_tx_digest(),
    );
    let receiver = receiver.receive(sender.next_message()).unwrap();
    let redeem = receiver.signed_redeem_transaction();
    assert_eq!(redeem.output[0].value, 10_000_000);
    assert_eq!(
        redeem.input[0].previous_output.txid,
        promiser.unsigned_fund_transaction().txid()
    );
    let value = 10_000_000 + MAX_SATISFACTION_WEIGHT * 15;
    assert_spendable(redeem, value, &pair(1).to_pk(), &pair(3).to_pk());
}

#[test]
fn sender_refuses_another_point_before_it_signs() {
    let Promise { lock, .. } = promise(10_000_000);
    let Solver { sender, mut message, .. } = solver(lock);
    message.A_prime_prime = pair(77).to_pk();
    let refused = sender.receive_with(message, &secret(24), &secret(25));
    assert_eq!(refused.err(), Some(Error::BlindingCheckFailed));
    assert_eq!(AptNotEqualApp {}.into_error(), Error::BlindingCheckFailed);
}

#[test]
fn sender_refuses_a_bad_refund_signature() {
    let Promise { lock, .. } = promise(10_000_000);
    let Solver { sender, mut message, .. } = solver(lock);
    message.sig_refund_t = sign(&[1; 32], &pair(21));
    let refused = sender.receive_with(message, &secret(24), &secret(25));
    assert_eq!(refused.err(), Some(Error::BadSignature));
}

#[test]
fn sender_refuses_when_both_checks_fail_for_the_blinding() {
    let Promise { lock, .. } = promise(10_000_000);
    let Solver { sender, mut message, .. } = solver(lock);
    message.A_prime_prime = pair(77).to_pk();
    message.sig_refund_t = sign(&[1; 32], &pair(21));
    let mut rng = rand::thread_rng();
    let refused = sender.receive(message, &mut rng);
    assert_eq!(refused.err(), Some(Error::BlindingCheckFailed));
}

#[test]
fn solver_is_refused_when_the_parameters_differ() {
    let Promise { lock, .. } = promise(10_000_000);
    let (he_secret_key, he_public_key) = keygen(b"seed");
    let tumbler = puzzle_solver::Tumbler0::with_key(params(10_000_000, 10_000), he_secret_key, pair(21));
    let sender = sender::Sender0::with_key(params(5_000_000, 10_000), lock, he_public_key, pair(22));
    let sender = sender.receive_with(tumbler.next_message(), pair(23));
    let tumbler = tumbler.receive(sender.next_message()).unwrap();
    let refused = sender.receive_with(tumbler.next_message(), &secret(24), &secret(25));
    assert_eq!(refused.err(), Some(Error::BadSignature));
}

#[test]
fn tumbler_refuses_a_ciphertext_that_is_no_puzzle() {
    let (he_secret_key, _) = keygen(b"seed");
    let (_, other) = keygen(b"another seed");
    let (foreign, _) = other.encrypt(&pair(5));
    let tumbler = puzzle_solver::Tumbler0::with_key(params(1000, 10), he_secret_key, pair(21));
    let message = puzzle_solver::Message1 { X_s: pair(22).to_pk(), c_alpha_prime_prime: foreign };
    assert_eq!(tumbler.receive(message).err(), Some(Error::BadProof));
}

#[test]
fn tumbler_refuses_a_bad_encrypted_signature() {
    let Promise { lock, .. } = promise(10_000_000);
    let Solver { tumbler, sender, message } = solver(lock);
    let sender = sender.receive_with(message, &secret(24), &secret(25)).unwrap();
    let good = sender.next_message().sig_redeem_s;
    let changed = EncryptedSignature::new(
        good.r(),
        good.r_hat(),
        good.s_hat().plus(&Scalar::from_bytes(small(1)).unwrap()),
        good.dleq_proof(),
    );
    let refused = tumbler.receive(puzzle_solver::Message3 { sig_redeem_s: changed });
    assert_eq!(refused.err(), Some(Error::BadSignature));
}

#[test]
fn sender_refuses_a_redeem_without_the_decryption() {
    let Promise { lock, .. } = promise(10_000_000);
    let Solver { tumbler, sender, message } = solver(lock);
    let sender = sender.receive_with(message, &secret(24), &secret(25)).unwrap();
    let tumbler = tumbler.receive(sender.next_message()).unwrap();
    let mut redeem = tumbler.signed_redeem_transaction().clone();
    // the sender's refund holds signatures, none of them the decryption
    let refund = sender.signed_refund_transaction();
    redeem.input[0].witness = refund.input[0].witness.clone();
    assert_eq!(sender.receive(redeem).err(), Some(Error::BadSignature));
}

#[test]
fn receiver_refuses_another_solution() {
    let Promise { receiver, .. } = promise(10_000_000);
    let receiver = receiver::Receiver0::new(
        receiver.x_r().to_pk(),
        *receiver.X_t(),
        receiver.unsigned_redeem_transaction().clone(),
        *receiver.sig_redeem_t(),
        *receiver.sig_redeem_r(),
        *receiver.beta(),
        *receiver.redeem_tx_digest(),
    );
    let message = puzzle_solver::Message4 { alpha_macron: secret(13) };
    assert_eq!(receiver.receive(message).err(), Some(Error::BadSignature));
}

#[test]
fn receiver_refuses_what_is_no_redeem() {
    let Promise { receiver, .. } = promise(10_000_000);
    let mut redeem = receiver.unsigned_redeem_transaction().clone();
    redeem.input.clear();
    let receiver = receiver::Receiver0::new(
        receiver.x_r().to_pk(),
        *receiver.X_t(),
        redeem,
        *receiver.sig_redeem_t(),
        *receiver.sig_redeem_r(),
        *receiver.beta(),
        *receiver.redeem_tx_digest(),
    );
    let message = puzzle_solver::Message4 { alpha_macron: secret(12) };
    assert_eq!(receiver.receive(message).err(), Some(Error::NoTransaction));
}

#[test]
fn tumbler_takes_its_messages_in_order() {
    let Promise { lock, .. } = promise(10_000_000);
    let (he_secret_key, he_public_key) = keygen(b"seed");
    let mut rng = rand::thread_rng();
    let tumbler = puzzle_solver::Tumbler::new(params(10_000_000, 10_000), he_secret_key, &mut rng);
    assert_eq!(tumbler.redeem_transaction().err(), Some(Error::NoTransaction));
    let first = match tumbler.next_message() {
        Ok(puzzle_solver::Message::Message0(message)) => message,
        other => panic!("{:?}", other),
    };
    let sender = sender::Sender0::new(params(10_000_000, 10_000), lock, he_public_key, &mut rng);
    let sender = sender.receive(first, &mut rng);
    let tumbler = tumbler
        .transition(puzzle_solver::Message::Message1(sender.next_message()))
        .unwrap();
    assert!(matches!(tumbler, puzzle_solver::Tumbler::Tumbler1(_)));
    assert_eq!(tumbler.redeem_transaction().err(), Some(Error::NoTransaction));
    let second = match tumbler.next_message() {
        Ok(puzzle_solver::Message::Message2(message)) => message,
        other => panic!("{:?}", other),
    };
    let sender = sender.receive(second, &mut rng).unwrap();
    let third = sender.next_message();

    let tumbler = tumbler
        .transition(puzzle_solver::Message::Message3(third))
        .unwrap();
    assert!(matches!(tumbler, puzzle_solver::Tumbler::Tumbler2(_)));
    assert_eq!(tumbler.next_message().err(), Some(Error::NoMessage));
    let redeem = tumbler.redeem_transaction().unwrap();
    assert_eq!(redeem.output[0].value, 10_010_000);

    // nothing moves the tumbler on from its last state
    let refused = tumbler.transition(puzzle_solver::Message::Message3(third));
    assert_eq!(refused.err(), Some(Error::UnexpectedMessage));

    let sender = sender.receive(redeem).unwrap();
    let fourth = sender.next_message();
    assert_eq!(fourth.alpha_macron.to_bytes(), sender.alpha_macron().to_sk().to_bytes());
}

#[test]
fn tumbler_refuses_a_message_out_of_order() {
    let (he_secret_key, _) = keygen(b"seed");
    let mut rng = rand::thread_rng();
    let esig = encsign_with(&[3; 32], &pair(1), &pair(2).to_pk(), &secret(3), &secret(4));
    for message in [
        puzzle_solver::Message::Message0(puzzle_solver::Message0 { X_t: pair(1).to_pk() }),
        puzzle_solver::Message::Message2(puzzle_solver::Message2 {
            A_prime_prime: pair(1).to_pk(),
            sig_refund_t: sign(&[1; 32], &pair(1)),
        }),
        puzzle_solver::Message::Message3(puzzle_solver::Message3 { sig_redeem_s: esig }),
        puzzle_solver::Message::Message4(puzzle_solver::Message4 { alpha_macron: secret(1) }),
    ] {
        let tumbler = puzzle_solver::Tumbler::new(params(1000, 10), he_secret_key, &mut rng);
        assert_eq!(tumbler.transition(message).err(), Some(Error::UnexpectedMessage));
    }
}

#[test]
fn input_is_empty() {
    let input = Input::default();
    let _copy: Input = input;
    let _ = format!("{:?}", input);
}
