//! The puzzle-promise protocol, between the tumbler and the receiver.
//!
//! The tumbler promises the receiver a payment that the solution of a puzzle
//! unlocks: it funds a joint output and hands over its signature on the
//! transaction that redeems it, encrypted under the puzzle's point. The
//! receiver blinds the puzzle and passes it on to the sender as a lock.

use vstd::prelude::*;
use crate::adaptor::{
    encrypted_accepts, encsign, encsign_with, encsign_with_nonces, encverify, EncryptedSignature,
    EncryptedSignatureView,
};
use crate::arith::{mul_mod, order};
use crate::bitcoin::{
    complete_spend_transaction, joint_witness, make_transactions, transactions_of, with_witness,
    Transactions, TransactionsView,
};
use crate::dummy_hsm_cl;
use crate::dummy_hsm_cl::{
    encryption, is_puzzle, power, verify_puzzle, Ciphertext, CiphertextView, Encrypt, Pow, Proof,
};
use crate::ecdsa::{
    ecdsa_accepts, message_scalar, sign, signature_of, verify, Signature, SignatureView,
};
use crate::error::Error;
use crate::params::{
    tumbler_receiver_takeout, tumbler_receiver_value, Lock, LockView, Params, ParamsView,
};
use crate::secp256k1::{KeyPair, PublicKey, SecretKey};
use crate::transaction::{SigHash, Transaction, TransactionView};

verus! {

/// From the tumbler: its key and the puzzle.
#[derive(Clone, Copy, Debug)]
pub struct Message0 {
    pub X_t: PublicKey,
    pub A: PublicKey,
    pub c_alpha: Ciphertext,
    pub pi_alpha: Proof,
}

/// From the receiver: its key and its signature on the refund.
#[derive(Clone, Copy, Debug)]
pub struct Message1 {
    pub X_r: PublicKey,
    pub sig_refund_r: Signature,
}

/// From the tumbler: its signature on the redeem, encrypted under the puzzle's
/// point.
#[derive(Clone, Copy, Debug)]
pub struct Message2 {
    pub sig_redeem_t: EncryptedSignature,
}

/// From the receiver to the sender: the lock.
#[derive(Clone, Copy, Debug)]
pub struct Message3 {
    pub l: Lock,
}

/// A `Tumbler0` as contracts speak of it.
pub struct Tumbler0View {
    pub x_t: nat,
    pub a: nat,
    pub params: ParamsView,
    pub HE: Seq<u8>,
}

/// A `Tumbler1` as contracts speak of it.
pub struct Tumbler1View {
    pub x_t: nat,
    pub a: nat,
    pub signed_refund_transaction: TransactionView,
    pub transactions: TransactionsView,
}

/// A `Receiver0` as contracts speak of it.
pub struct Receiver0View {
    pub x_r: nat,
    pub params: ParamsView,
    pub HE: Seq<u8>,
}

/// A `Receiver1` as contracts speak of it.
pub struct Receiver1View {
    pub x_r: nat,
    pub X_t: nat,
    pub c_alpha: CiphertextView,
    pub A: nat,
    pub transactions: TransactionsView,
}

/// A `Receiver2` as contracts speak of it.
pub struct Receiver2View {
    pub x_r: nat,
    pub X_t: nat,
    pub beta: nat,
    pub c_alpha_prime: CiphertextView,
    pub A_prime: nat,
    pub sig_redeem_r: SignatureView,
    pub sig_redeem_t: EncryptedSignatureView,
    pub transactions: TransactionsView,
}

/// The tumbler before it has heard from the receiver.
pub struct Tumbler0 {
    x_t: KeyPair,
    a: KeyPair,
    params: Params,
    HE: dummy_hsm_cl::SecretKey,
}

/// The tumbler once it holds the signed refund.
#[derive(Debug)]
pub struct Tumbler1 {
    x_t: KeyPair,
    a: KeyPair,
    signed_refund_transaction: Transaction,
    transactions: Transactions,
}

/// The receiver before it has heard from the tumbler.
pub struct Receiver0 {
    x_r: KeyPair,
    params: Params,
    HE: dummy_hsm_cl::PublicKey,
}

/// The receiver once it holds the puzzle.
pub struct Receiver1 {
    x_r: KeyPair,
    X_t: PublicKey,
    c_alpha: Ciphertext,
    A: PublicKey,
    transactions: Transactions,
    HE: dummy_hsm_cl::PublicKey,
}

/// The receiver once it holds the tumbler's promise.
#[derive(Debug)]
pub struct Receiver2 {
    x_r: KeyPair,
    X_t: PublicKey,
    beta: KeyPair,
    c_alpha_prime: Ciphertext,
    A_prime: PublicKey,
    sig_redeem_r: Signature,
    sig_redeem_t: EncryptedSignature,
    transactions: Transactions,
}

/// The sender before it holds the lock.
pub struct Sender0 {}

/// The sender once it holds the lock.
#[derive(Debug)]
pub struct Sender1 {
    l: Lock,
}

impl View for Tumbler0 {
    type V = Tumbler0View;

    closed spec fn view(&self) -> Tumbler0View {
        Tumbler0View { x_t: self.x_t@, a: self.a@, params: self.params@, HE: self.HE@ }
    }
}

impl View for Tumbler1 {
    type V = Tumbler1View;

    closed spec fn view(&self) -> Tumbler1View {
        Tumbler1View {
            x_t: self.x_t@,
            a: self.a@,
            signed_refund_transaction: self.signed_refund_transaction@,
            transactions: self.transactions@,
        }
    }
}

impl View for Receiver0 {
    type V = Receiver0View;

    closed spec fn view(&self) -> Receiver0View {
        Receiver0View { x_r: self.x_r@, params: self.params@, HE: self.HE@ }
    }
}

impl View for Receiver1 {
    type V = Receiver1View;

    closed spec fn view(&self) -> Receiver1View {
        Receiver1View {
            x_r: self.x_r@,
            X_t: self.X_t@,
            c_alpha: self.c_alpha@,
            A: self.A@,
            transactions: self.transactions@,
        }
    }
}

impl View for Receiver2 {
    type V = Receiver2View;

    closed spec fn view(&self) -> Receiver2View {
        Receiver2View {
            x_r: self.x_r@,
            X_t: self.X_t@,
            beta: self.beta@,
            c_alpha_prime: self.c_alpha_prime@,
            A_prime: self.A_prime@,
            sig_redeem_r: self.sig_redeem_r@,
            sig_redeem_t: self.sig_redeem_t@,
            transactions: self.transactions@,
        }
    }
}

impl View for Sender1 {
    type V = LockView;

    closed spec fn view(&self) -> LockView {
        self.l@
    }
}

/// The transactions of the joint output that the tumbler funds for the
/// receiver, whose keys are `x_t·G` and `x_r·G`.
pub open spec fn promise_transactions(params: ParamsView, x_t: nat, x_r: nat) -> TransactionsView {
    transactions_of(
        params.partial_fund_transaction,
        tumbler_receiver_value(params),
        tumbler_receiver_takeout(params),
        x_t,
        x_r,
        params.expiry,
        params.redeem_identity,
        params.refund_identity,
    )
}

/// The digest of a joint output's refund, as a residue.
pub open spec fn refund_message(transactions: TransactionsView) -> nat {
    message_scalar(transactions.refund_tx_digest)
}

/// The digest of a joint output's redeem, as a residue.
pub open spec fn redeem_message(transactions: TransactionsView) -> nat {
    message_scalar(transactions.redeem_tx_digest)
}

/// The tumbler's first state with these parts.
pub open spec fn tumbler0(x_t: nat, a: nat, params: ParamsView, HE: Seq<u8>) -> Tumbler0View {
    Tumbler0View { x_t, a, params, HE }
}

/// The receiver's first state with these parts.
pub open spec fn receiver0(x_r: nat, params: ParamsView, HE: Seq<u8>) -> Receiver0View {
    Receiver0View { x_r, params, HE }
}

/// The receiver's state after the tumbler's first message.
pub open spec fn receiver1_after(state: Receiver0View, message: Message0) -> Receiver1View {
    Receiver1View {
        x_r: state.x_r,
        X_t: message.X_t@,
        c_alpha: message.c_alpha@,
        A: message.A@,
        transactions: promise_transactions(state.params, message.X_t@, state.x_r),
    }
}

/// The refund of the tumbler's joint output, signed by both.
pub open spec fn signed_refund(state: Tumbler0View, message: Message1) -> TransactionView {
    let transactions = promise_transactions(state.params, state.x_t, message.X_r@);
    with_witness(
        transactions.refund,
        joint_witness(
            state.x_t,
            signature_of(transactions.refund_tx_digest, state.x_t),
            message.X_r@,
            message.sig_refund_r@,
        ),
    )
}

/// The tumbler's state after the receiver's message.
pub open spec fn tumbler1_after(state: Tumbler0View, message: Message1) -> Tumbler1View {
    Tumbler1View {
        x_t: state.x_t,
        a: state.a,
        signed_refund_transaction: signed_refund(state, message),
        transactions: promise_transactions(state.params, state.x_t, message.X_r@),
    }
}

/// The message is the tumbler's promise: its signature on the redeem,
/// encrypted under the puzzle's point with some nonces.
pub open spec fn is_promise(state: Tumbler1View, message: Message2) -> bool {
    exists|k: nat, t: nat|
        0 < k < order() && 0 < t < order() && message.sig_redeem_t@
            == #[trigger] encsign_with_nonces(
            redeem_message(state.transactions),
            state.x_t,
            state.a,
            k,
            t,
        )
}

/// The receiver's state after the tumbler's promise, with the blinding
/// scalar `beta`.
pub open spec fn receiver2_after(state: Receiver1View, message: Message2, beta: nat)
    -> Receiver2View {
    Receiver2View {
        x_r: state.x_r,
        X_t: state.X_t,
        beta,
        c_alpha_prime: power(state.c_alpha, beta),
        A_prime: mul_mod(beta, state.A),
        sig_redeem_r: signature_of(state.transactions.redeem_tx_digest, state.x_r),
        sig_redeem_t: message.sig_redeem_t@,
        transactions: state.transactions,
    }
}

impl Receiver0 {
    /// The receiver with a fresh key.
    pub fn new(params: Params, rng: &mut rand::rngs::ThreadRng, HE: dummy_hsm_cl::PublicKey) -> (r:
        Receiver0)
        ensures
            exists|x_r: nat| 0 < x_r < order() && r@ == #[trigger] receiver0(x_r, params@, HE@),
    {
        let x_r = KeyPair::random(rng);
        let r = Receiver0::with_key(params, x_r, HE);
        assert(r@ == receiver0(x_r@, params@, HE@));
        r
    }

    /// The receiver with the key `x_r`.
    pub fn with_key(params: Params, x_r: KeyPair, HE: dummy_hsm_cl::PublicKey) -> (r: Receiver0)
        ensures
            r@ == receiver0(x_r@, params@, HE@),
    {
        Receiver0 { x_r, params, HE }
    }

    /// Takes the tumbler's key and puzzle: checks the puzzle's proof and makes
    /// the transactions of the joint output.
    pub fn receive(self, message: Message0) -> (r: Result<Receiver1, Error>)
        ensures
            r is Ok <==> is_puzzle(self@.HE, message.A@, message.c_alpha@),
            r matches Ok(next) ==> next@ == receiver1_after(self@, message),
            r matches Err(e) ==> e == Error::BadProof,
    {
        let Message0 { X_t, A, c_alpha, pi_alpha } = message;
        let Receiver0 { x_r, params, HE } = self;
        match verify_puzzle(&HE, &pi_alpha, &A, &c_alpha) {
            Ok(()) => {},
            Err(e) => {
                return Err(e);
            },
        }
        let joint_value = params.tumbler_receiver_joint_output_value();
        let takeout = params.tumbler_receiver_joint_output_takeout();
        let expiry = params.expiry();
        let redeem_identity = params.redeem_identity().clone();
        let refund_identity = params.refund_identity().clone();
        let transactions = make_transactions(
            params.into_partial_fund_transaction(),
            joint_value,
            takeout,
            &X_t,
            &x_r.to_pk(),
            expiry,
            &redeem_identity,
            &refund_identity,
        );
        Ok(Receiver1 { x_r, X_t, c_alpha, A, transactions, HE })
    }
}

impl Receiver1 {
    /// The receiver's key and its signature on the refund.
    pub fn next_message(&self) -> (message: Message1)
        ensures
            message.X_r@ == self@.x_r,
            message.sig_refund_r@ == signature_of(self@.transactions.refund_tx_digest, self@.x_r),
    {
        let sig_refund_r = sign(&self.transactions.refund_tx_digest.bytes, &self.x_r);
        Message1 { X_r: self.x_r.to_pk(), sig_refund_r }
    }

    /// Takes the tumbler's promise: checks the encrypted signature, signs the
    /// redeem itself, and blinds the puzzle with a fresh scalar.
    pub fn receive(self, message: Message2, rng: &mut rand::rngs::ThreadRng) -> (r: Result<
        Receiver2,
        Error,
    >)
        ensures
            r is Ok <==> encrypted_accepts(
                redeem_message(self@.transactions),
                self@.X_t,
                self@.A,
                message.sig_redeem_t@,
            ),
            r matches Ok(next) ==> exists|beta: nat|
                0 < beta < order() && next@ == #[trigger] receiver2_after(self@, message, beta),
            r matches Err(e) ==> e == Error::BadAdaptorSignature,
    {
        let beta = KeyPair::random(rng);
        let ghost before = self@;
        let r = self.receive_with(message, beta);
        proof {
            if r is Ok {
                assert(r->Ok_0@ == receiver2_after(before, message, beta@));
            }
        }
        r
    }

    /// Takes the tumbler's promise, and blinds the puzzle with `beta`.
    pub fn receive_with(self, message: Message2, beta: KeyPair) -> (r: Result<Receiver2, Error>)
        ensures
            r is Ok <==> encrypted_accepts(
                redeem_message(self@.transactions),
                self@.X_t,
                self@.A,
                message.sig_redeem_t@,
            ),
            r matches Ok(next) ==> next@ == receiver2_after(self@, message, beta@),
            r matches Err(e) ==> e == Error::BadAdaptorSignature,
    {
        let Message2 { sig_redeem_t } = message;
        let Receiver1 { x_r, X_t, c_alpha, A, transactions, HE } = self;
        match encverify(&X_t, &A, &transactions.redeem_tx_digest.bytes, &sig_redeem_t) {
            Ok(()) => {},
            Err(e) => {
                return Err(e);
            },
        }
        let sig_redeem_r = sign(&transactions.redeem_tx_digest.bytes, &x_r);
        let c_alpha_prime = HE.pow_ct(&c_alpha, &beta);
        let A_prime = HE.pow_pt(&A, &beta);
        Ok(
            Receiver2 {
                x_r,
                X_t,
                beta,
                c_alpha_prime,
                A_prime,
                sig_redeem_r,
                sig_redeem_t,
                transactions,
            },
        )
    }
}

impl Tumbler0 {
    /// The tumbler with a fresh key and a fresh puzzle.
    pub fn new(params: Params, rng: &mut rand::rngs::ThreadRng, HE: dummy_hsm_cl::SecretKey) -> (r:
        Tumbler0)
        ensures
            exists|x_t: nat, a: nat|
                0 < x_t < order() && 0 < a < order() && r@ == #[trigger] tumbler0(
                    x_t,
                    a,
                    params@,
                    HE@,
                ),
    {
        let x_t = KeyPair::random(rng);
        let a = KeyPair::random(rng);
        let r = Tumbler0::with_keys(params, x_t, a, HE);
        assert(r@ == tumbler0(x_t@, a@, params@, HE@));
        r
    }

    /// The tumbler with the key `x_t` and the puzzle's solution `a`.
    pub fn with_keys(params: Params, x_t: KeyPair, a: KeyPair, HE: dummy_hsm_cl::SecretKey) -> (r:
        Tumbler0)
        ensures
            r@ == tumbler0(x_t@, a@, params@, HE@),
    {
        Tumbler0 { x_t, a, params, HE }
    }

    /// The tumbler's key and the puzzle: the point of the solution, the
    /// solution encrypted, and the proof that the two go together.
    pub fn next_message(&self) -> (message: Message0)
        ensures
            message.X_t@ == self@.x_t,
            message.A@ == self@.a,
            message.c_alpha@ == encryption(self@.HE, self@.a),
            is_puzzle(self@.HE, message.A@, message.c_alpha@),
    {
        let X_t = self.x_t.to_pk();
        let A = self.a.to_pk();
        let (c_alpha, pi_alpha) = self.HE.encrypt(&self.a);
        Message0 { X_t, A, c_alpha, pi_alpha }
    }

    /// Takes the receiver's key and signature on the refund: makes the
    /// transactions of the joint output, checks the signature, signs the
    /// refund itself and puts the two signatures into it.
    pub fn receive(self, message: Message1) -> (r: Result<Tumbler1, Error>)
        ensures
            r is Ok <==> refundable(self@, message),
            r matches Ok(next) ==> next@ == tumbler1_after(self@, message),
            r matches Err(e) ==> e == Error::BadSignature,
    {
        let Message1 { X_r, sig_refund_r } = message;
        let Tumbler0 { x_t, a, params, HE } = self;
        let joint_value = params.tumbler_receiver_joint_output_value();
        let takeout = params.tumbler_receiver_joint_output_takeout();
        let expiry = params.expiry();
        let redeem_identity = params.redeem_identity().clone();
        let refund_identity = params.refund_identity().clone();
        let transactions = make_transactions(
            params.into_partial_fund_transaction(),
            joint_value,
            takeout,
            &x_t.to_pk(),
            &X_r,
            expiry,
            &redeem_identity,
            &refund_identity,
        );
        match verify(&transactions.refund_tx_digest.bytes, &sig_refund_r, &X_r) {
            Ok(()) => {},
            Err(e) => {
                return Err(e);
            },
        }
        let sig_refund_t = sign(&transactions.refund_tx_digest.bytes, &x_t);
        let completed = complete_spend_transaction(
            transactions.refund.clone(),
            &transactions.refund_tx_digest,
            (x_t.to_pk(), sig_refund_t),
            (X_r, sig_refund_r),
        );
        match completed {
            Ok(signed_refund_transaction) => Ok(
                Tumbler1 { x_t, a, signed_refund_transaction, transactions },
            ),
            Err(e) => Err(e),
        }
    }
}

impl Tumbler1 {
    /// The tumbler's signature on the redeem, encrypted under the puzzle's
    /// point, with fresh nonces.
    pub fn next_message(&self, rng: &mut rand::rngs::ThreadRng) -> (message: Message2)
        ensures
            is_promise(self@, message),
    {
        let sig_redeem_t = encsign(
            &self.transactions.redeem_tx_digest.bytes,
            &self.x_t,
            &self.a.to_pk(),
            rng,
        );
        proof {
            let m = redeem_message(self@.transactions);
            let (k, t) = choose|k: nat, t: nat|
                0 < k < order() && 0 < t < order() && sig_redeem_t@ == #[trigger] encsign_with_nonces(
                    m,
                    self@.x_t,
                    self@.a,
                    k,
                    t,
                );
            assert(sig_redeem_t@ == encsign_with_nonces(m, self@.x_t, self@.a, k, t));
        }
        Message2 { sig_redeem_t }
    }

    /// The tumbler's signature on the redeem, encrypted under the puzzle's
    /// point, with the nonces `k` and `t`.
    pub fn next_message_with(&self, k: &SecretKey, t: &SecretKey) -> (message: Message2)
        ensures
            message.sig_redeem_t@ == encsign_with_nonces(
                redeem_message(self@.transactions),
                self@.x_t,
                self@.a,
                k@,
                t@,
            ),
    {
        let sig_redeem_t = encsign_with(
            &self.transactions.redeem_tx_digest.bytes,
            &self.x_t,
            &self.a.to_pk(),
            k,
            t,
        );
        Message2 { sig_redeem_t }
    }

    pub fn unsigned_fund_transaction(&self) -> (r: &Transaction)
        ensures
            r@ == self@.transactions.fund,
    {
        &self.transactions.fund
    }

    pub fn signed_refund_transaction(&self) -> (r: &Transaction)
        ensures
            r@ == self@.signed_refund_transaction,
    {
        &self.signed_refund_transaction
    }

    pub fn x_t(&self) -> (r: &KeyPair)
        ensures
            r@ == self@.x_t,
    {
        &self.x_t
    }
}

impl Receiver2 {
    /// The lock for the sender: the blinded puzzle.
    pub fn next_message(&self) -> (message: Message3)
        ensures
            message.l@.c_alpha_prime == self@.c_alpha_prime,
            message.l@.A_prime == self@.A_prime,
    {
        let l = Lock { c_alpha_prime: self.c_alpha_prime, A_prime: self.A_prime };
        Message3 { l }
    }

    pub fn x_r(&self) -> (r: &KeyPair)
        ensures
            r@ == self@.x_r,
    {
        &self.x_r
    }

    pub fn X_t(&self) -> (r: &PublicKey)
        ensures
            r@ == self@.X_t,
    {
        &self.X_t
    }

    pub fn unsigned_redeem_transaction(&self) -> (r: &Transaction)
        ensures
            r@ == self@.transactions.redeem,
    {
        &self.transactions.redeem
    }

    pub fn sig_redeem_t(&self) -> (r: &EncryptedSignature)
        ensures
            r@ == self@.sig_redeem_t,
    {
        &self.sig_redeem_t
    }

    pub fn sig_redeem_r(&self) -> (r: &Signature)
        ensures
            r@ == self@.sig_redeem_r,
    {
        &self.sig_redeem_r
    }

    pub fn beta(&self) -> (r: &KeyPair)
        ensures
            r@ == self@.beta,
    {
        &self.beta
    }

    pub fn redeem_tx_digest(&self) -> (r: &SigHash)
        ensures
            r@ == self@.transactions.redeem_tx_digest,
    {
        &self.transactions.redeem_tx_digest
    }
}

impl Sender0 {
    /// The sender, which holds nothing before it holds the lock.
    pub fn new() -> (r: Sender0)
        ensures
            r == (Sender0 {  }),
    {
        Sender0 {  }
    }

    /// Takes the lock from the receiver.
    pub fn receive(self, message: Message3) -> (r: Sender1)
        ensures
            r@ == message.l@,
    {
        Sender1 { l: message.l }
    }
}

impl Sender1 {
    pub fn lock(&self) -> (r: &Lock)
        ensures
            r@ == self@,
    {
        &self.l
    }
}

/// Any message of the protocol.
#[derive(Clone, Copy, Debug)]
pub enum Message {
    Message0(Message0),
    Message1(Message1),
    Message2(Message2),
    Message3(Message3),
}

/// A `Tumbler` as contracts speak of it.
pub enum TumblerView {
    Tumbler0(Tumbler0View),
    Tumbler1(Tumbler1View),
}

/// The tumbler in any of its states.
pub enum Tumbler {
    Tumbler0(Tumbler0),
    Tumbler1(Tumbler1),
}

impl View for Tumbler {
    type V = TumblerView;

    open spec fn view(&self) -> TumblerView {
        match self {
            Tumbler::Tumbler0(inner) => TumblerView::Tumbler0(inner@),
            Tumbler::Tumbler1(inner) => TumblerView::Tumbler1(inner@),
        }
    }
}

/// Whether the tumbler can get its refund: the receiver's signature and its
/// own both verify over the refund.
pub open spec fn refundable(state: Tumbler0View, message: Message1) -> bool {
    let transactions = promise_transactions(state.params, state.x_t, message.X_r@);
    &&& ecdsa_accepts(refund_message(transactions), message.sig_refund_r@, message.X_r@)
    &&& ecdsa_accepts(
        refund_message(transactions),
        signature_of(transactions.refund_tx_digest, state.x_t),
        state.x_t,
    )
}

/// Where a message takes the tumbler: on from its first state with the
/// receiver's message, and nowhere with any other.
pub open spec fn tumbler_step(state: TumblerView, message: Message) -> Result<TumblerView, Error> {
    match (state, message) {
        (TumblerView::Tumbler0(inner), Message::Message1(m)) => {
            if refundable(inner, m) {
                Ok(TumblerView::Tumbler1(tumbler1_after(inner, m)))
            } else {
                Err(Error::BadSignature)
            }
        },
        _ => Err(Error::UnexpectedMessage),
    }
}

/// The outcome of a step, with the state by its view.
pub open spec fn tumbler_outcome(r: Result<Tumbler, Error>) -> Result<TumblerView, Error> {
    match r {
        Ok(next) => Ok(next@),
        Err(e) => Err(e),
    }
}

impl Tumbler {
    /// The tumbler in its first state, with a fresh key and a fresh puzzle.
    pub fn new(params: Params, rng: &mut rand::rngs::ThreadRng, HE: dummy_hsm_cl::SecretKey) -> (r:
        Tumbler)
        ensures
            exists|x_t: nat, a: nat|
                0 < x_t < order() && 0 < a < order() && r@ == TumblerView::Tumbler0(
                    #[trigger] tumbler0(x_t, a, params@, HE@),
                ),
    {
        let inner = Tumbler0::new(params, rng, HE);
        let r = Tumbler::Tumbler0(inner);
        proof {
            let (x_t, a) = choose|x_t: nat, a: nat|
                0 < x_t < order() && 0 < a < order() && inner@ == #[trigger] tumbler0(
                    x_t,
                    a,
                    params@,
                    HE@,
                );
            assert(r@ == TumblerView::Tumbler0(tumbler0(x_t, a, params@, HE@)));
        }
        r
    }

    /// Takes a message to the next state, or refuses it.
    pub fn transition(self, message: Message) -> (r: Result<Tumbler, Error>)
        ensures
            tumbler_outcome(r) == tumbler_step(self@, message),
    {
        match (self, message) {
            (Tumbler::Tumbler0(inner), Message::Message1(m)) => {
                match inner.receive(m) {
                    Ok(next) => Ok(Tumbler::Tumbler1(next)),
                    Err(e) => Err(e),
                }
            },
            _ => Err(Error::UnexpectedMessage),
        }
    }

    /// The message that the tumbler sends in this state: the puzzle in the
    /// first, the encrypted signature, with fresh nonces, in the second.
    pub fn next_message(&self, rng: &mut rand::rngs::ThreadRng) -> (message: Message)
        ensures
            match self@ {
                TumblerView::Tumbler0(inner) => message matches Message::Message0(m) && m.X_t@
                    == inner.x_t && m.A@ == inner.a && m.c_alpha@ == encryption(inner.HE, inner.a),
                TumblerView::Tumbler1(inner) => message matches Message::Message2(m)
                    && is_promise(inner, m),
            },
    {
        match self {
            Tumbler::Tumbler0(inner) => Message::Message0(inner.next_message()),
            Tumbler::Tumbler1(inner) => Message::Message2(inner.next_message(rng)),
        }
    }

    /// The transaction that funds the joint output, once the tumbler holds
    /// the signed refund.
    pub fn fund_transaction(&self) -> (r: Result<Transaction, Error>)
        ensures
            match self@ {
                TumblerView::Tumbler1(inner) => r matches Ok(tx) && tx@ == inner.transactions.fund,
                _ => r matches Err(e) && e == Error::NoTransaction,
            },
    {
        match self {
            Tumbler::Tumbler1(inner) => Ok(inner.unsigned_fund_transaction().clone()),
            _ => Err(Error::NoTransaction),
        }
    }

    /// The signed refund, once the tumbler holds it.
    pub fn refund_transaction(&self) -> (r: Result<Transaction, Error>)
        ensures
            match self@ {
                TumblerView::Tumbler1(inner) => r matches Ok(tx) && tx@
                    == inner.signed_refund_transaction,
                _ => r matches Err(e) && e == Error::NoTransaction,
            },
    {
        match self {
            Tumbler::Tumbler1(inner) => Ok(inner.signed_refund_transaction().clone()),
            _ => Err(Error::NoTransaction),
        }
    }
}

} // verus!
