//! The puzzle-solver protocol, between the sender and the tumbler.
//!
//! The sender pays the tumbler for the solution of the lock: it funds a joint
//! output and hands over its signature on the transaction that redeems it,
//! encrypted under the point of the blinded solution. When the tumbler
//! redeems, its transaction shows the decrypted signature, and with it the
//! solution.

use vstd::prelude::*;
use crate::adaptor::{decrypted, decsig, EncryptedSignature};
use crate::arith::order;
use crate::bitcoin::{
    complete_spend_transaction, joint_witness, make_transactions, transactions_of, with_witness,
    Transactions, TransactionsView,
};
use crate::dummy_hsm_cl;
use crate::dummy_hsm_cl::{decryption, Ciphertext, Decrypt};
use crate::ecdsa::{
    ecdsa_accepts, message_scalar, sign, signature_of, verify, Signature, SignatureView,
};
use crate::error::Error;
use crate::params::{sender_tumbler_takeout, sender_tumbler_value, Params, ParamsView};
use crate::puzzle_promise::redeem_message;
use crate::secp256k1::{KeyPair, PublicKey, SecretKey};
use crate::transaction::{Transaction, TransactionView};

pub mod receiver;
pub mod sender;

pub use crate::puzzle_solver::receiver::{Receiver0, Receiver1};
pub use crate::puzzle_solver::sender::{AptNotEqualApp, Sender0, Sender1, Sender2, Sender3};

verus! {

/// From the tumbler: its key.
#[derive(Clone, Copy, Debug)]
pub struct Message0 {
    pub X_t: PublicKey,
}

/// From the sender: its key and the lock's ciphertext, blinded once more.
#[derive(Clone, Copy, Debug)]
pub struct Message1 {
    pub X_s: PublicKey,
    pub c_alpha_prime_prime: Ciphertext,
}

/// From the tumbler: the point of what it decrypted, and its signature on the
/// refund.
#[derive(Clone, Copy, Debug)]
pub struct Message2 {
    pub A_prime_prime: PublicKey,
    pub sig_refund_t: Signature,
}

/// From the sender: its signature on the redeem, encrypted under the point of
/// what the tumbler decrypted.
#[derive(Clone, Copy, Debug)]
pub struct Message3 {
    pub sig_redeem_s: EncryptedSignature,
}

/// From the sender to the receiver: the solution of the lock.
#[derive(Clone, Copy, Debug)]
pub struct Message4 {
    pub alpha_macron: SecretKey,
}

/// Any message of the protocol.
#[derive(Clone, Copy, Debug)]
pub enum Message {
    Message0(Message0),
    Message1(Message1),
    Message2(Message2),
    Message3(Message3),
    Message4(Message4),
}

/// A `Tumbler0` as contracts speak of it.
pub struct Tumbler0View {
    pub x_t: nat,
    pub params: ParamsView,
    pub HE: Seq<u8>,
}

/// A `Tumbler1` as contracts speak of it.
pub struct Tumbler1View {
    pub transactions: TransactionsView,
    pub x_t: nat,
    pub X_s: nat,
    pub gamma: nat,
    pub sig_refund_t: SignatureView,
}

/// A `Tumbler2` as contracts speak of it.
pub struct Tumbler2View {
    pub signed_redeem_transaction: TransactionView,
}

/// A `Tumbler` as contracts speak of it.
pub enum TumblerView {
    Tumbler0(Tumbler0View),
    Tumbler1(Tumbler1View),
    Tumbler2(Tumbler2View),
}

/// The tumbler before it has heard from the sender.
#[derive(Debug)]
pub struct Tumbler0 {
    x_t: KeyPair,
    params: Params,
    HE: dummy_hsm_cl::SecretKey,
}

/// The tumbler once it has decrypted the sender's ciphertext.
#[derive(Debug)]
pub struct Tumbler1 {
    transactions: Transactions,
    x_t: KeyPair,
    X_s: PublicKey,
    gamma: KeyPair,
    sig_refund_t: Signature,
}

/// The tumbler once it holds the signed redeem.
#[derive(Debug)]
pub struct Tumbler2 {
    signed_redeem_transaction: Transaction,
}

/// The tumbler in any of its states.
#[derive(Debug)]
pub enum Tumbler {
    Tumbler0(Tumbler0),
    Tumbler1(Tumbler1),
    Tumbler2(Tumbler2),
}

impl View for Tumbler0 {
    type V = Tumbler0View;

    closed spec fn view(&self) -> Tumbler0View {
        Tumbler0View { x_t: self.x_t@, params: self.params@, HE: self.HE@ }
    }
}

impl View for Tumbler1 {
    type V = Tumbler1View;

    closed spec fn view(&self) -> Tumbler1View {
        Tumbler1View {
            transactions: self.transactions@,
            x_t: self.x_t@,
            X_s: self.X_s@,
            gamma: self.gamma@,
            sig_refund_t: self.sig_refund_t@,
        }
    }
}

impl View for Tumbler2 {
    type V = Tumbler2View;

    closed spec fn view(&self) -> Tumbler2View {
        Tumbler2View { signed_redeem_transaction: self.signed_redeem_transaction@ }
    }
}

impl View for Tumbler {
    type V = TumblerView;

    open spec fn view(&self) -> TumblerView {
        match self {
            Tumbler::Tumbler0(inner) => TumblerView::Tumbler0(inner@),
            Tumbler::Tumbler1(inner) => TumblerView::Tumbler1(inner@),
            Tumbler::Tumbler2(inner) => TumblerView::Tumbler2(inner@),
        }
    }
}

/// The transactions of the joint output that the sender funds for the
/// tumbler, whose keys are `x_s·G` and `x_t·G`.
pub open spec fn solver_transactions(params: ParamsView, x_s: nat, x_t: nat) -> TransactionsView {
    transactions_of(
        params.partial_fund_transaction,
        sender_tumbler_value(params),
        sender_tumbler_takeout(params),
        x_s,
        x_t,
        params.expiry,
        params.redeem_identity,
        params.refund_identity,
    )
}

/// The tumbler's first state with these parts.
pub open spec fn tumbler0(x_t: nat, params: ParamsView, HE: Seq<u8>) -> Tumbler0View {
    Tumbler0View { x_t, params, HE }
}

/// The tumbler's state after the sender's first message.
pub open spec fn tumbler1_after(state: Tumbler0View, message: Message1) -> Tumbler1View {
    let transactions = solver_transactions(state.params, message.X_s@, state.x_t);
    Tumbler1View {
        transactions,
        x_t: state.x_t,
        X_s: message.X_s@,
        gamma: decryption(state.HE, message.c_alpha_prime_prime@),
        sig_refund_t: signature_of(transactions.refund_tx_digest, state.x_t),
    }
}

/// The sender's signature on the redeem, as the tumbler decrypts it.
pub open spec fn decrypted_redeem(state: Tumbler1View, message: Message3) -> SignatureView {
    decrypted(state.gamma, message.sig_redeem_s@)
}

/// Whether the tumbler can redeem: the sender's decrypted signature and its
/// own both verify over the redeem.
pub open spec fn redeemable(state: Tumbler1View, message: Message3) -> bool {
    &&& ecdsa_accepts(
        redeem_message(state.transactions),
        decrypted_redeem(state, message),
        state.X_s,
    )
    &&& ecdsa_accepts(
        redeem_message(state.transactions),
        signature_of(state.transactions.redeem_tx_digest, state.x_t),
        state.x_t,
    )
}

/// The tumbler's state after the sender's encrypted signature.
pub open spec fn tumbler2_after(state: Tumbler1View, message: Message3) -> Tumbler2View {
    Tumbler2View {
        signed_redeem_transaction: with_witness(
            state.transactions.redeem,
            joint_witness(
                state.X_s,
                decrypted_redeem(state, message),
                state.x_t,
                signature_of(state.transactions.redeem_tx_digest, state.x_t),
            ),
        ),
    }
}

/// Where a message takes the tumbler: on from its first state with the
/// sender's first message, on from its second with the sender's encrypted
/// signature, and nowhere with any other.
pub open spec fn tumbler_step(state: TumblerView, message: Message) -> Result<TumblerView, Error> {
    match (state, message) {
        (TumblerView::Tumbler0(inner), Message::Message1(m)) => {
            if decryption(inner.HE, m.c_alpha_prime_prime@) != 0 {
                Ok(TumblerView::Tumbler1(tumbler1_after(inner, m)))
            } else {
                Err(Error::BadProof)
            }
        },
        (TumblerView::Tumbler1(inner), Message::Message3(m)) => {
            if redeemable(inner, m) {
                Ok(TumblerView::Tumbler2(tumbler2_after(inner, m)))
            } else {
                Err(Error::BadSignature)
            }
        },
        _ => Err(Error::UnexpectedMessage),
    }
}

/// The outcome of a step, with the state by its view.
pub open spec fn tumbler_outcome(r: Result<Tumbler, Error>) -> Result<TumblerView, Error> {
    match r {
        Ok(next) => Ok(next@),
        Err(e) => Err(e),
    }
}

impl Tumbler0 {
    /// The tumbler with a fresh key.
    pub fn new(params: Params, HE: dummy_hsm_cl::SecretKey, rng: &mut rand::rngs::ThreadRng) -> (r:
        Tumbler0)
        ensures
            exists|x_t: nat| 0 < x_t < order() && r@ == #[trigger] tumbler0(x_t, params@, HE@),
    {
        let x_t = KeyPair::random(rng);
        let r = Tumbler0::with_key(params, HE, x_t);
        assert(r@ == tumbler0(x_t@, params@, HE@));
        r
    }

    /// The tumbler with the key `x_t`.
    pub fn with_key(params: Params, HE: dummy_hsm_cl::SecretKey, x_t: KeyPair) -> (r: Tumbler0)
        ensures
            r@ == tumbler0(x_t@, params@, HE@),
    {
        Tumbler0 { x_t, params, HE }
    }

    /// The tumbler's key.
    pub fn next_message(&self) -> (message: Message0)
        ensures
            message.X_t@ == self@.x_t,
    {
        Message0 { X_t: self.x_t.to_pk() }
    }

    /// Takes the sender's key and ciphertext: decrypts the ciphertext, makes
    /// the transactions of the joint output and signs the refund. A
    /// ciphertext that decrypts to zero is no puzzle.
    pub fn receive(self, message: Message1) -> (r: Result<Tumbler1, Error>)
        ensures
            r is Ok <==> decryption(self@.HE, message.c_alpha_prime_prime@) != 0,
            r matches Ok(next) ==> next@ == tumbler1_after(self@, message),
            r matches Err(e) ==> e == Error::BadProof,
    {
        let Message1 { X_s, c_alpha_prime_prime } = message;
        let Tumbler0 { x_t, params, HE } = self;
        let gamma = match SecretKey::from_scalar(HE.decrypt(&c_alpha_prime_prime)) {
            Some(key) => KeyPair::from_secret_key(key),
            None => {
                return Err(Error::BadProof);
            },
        };
        let joint_value = params.sender_tumbler_joint_output_value();
        let takeout = params.sender_tumbler_joint_output_takeout();
        let expiry = params.expiry();
        let redeem_identity = params.redeem_identity().clone();
        let refund_identity = params.refund_identity().clone();
        let transactions = make_transactions(
            params.into_partial_fund_transaction(),
            joint_value,
            takeout,
            &X_s,
            &x_t.to_pk(),
            expiry,
            &redeem_identity,
            &refund_identity,
        );
        let sig_refund_t = sign(&transactions.refund_tx_digest.bytes, &x_t);
        Ok(Tumbler1 { transactions, x_t, X_s, gamma, sig_refund_t })
    }
}

impl Tumbler1 {
    /// The redeem spends the joint output and nothing else.
    #[verifier::type_invariant]
    pub closed spec fn spends_joint_output(self) -> bool {
        self.transactions.redeem@.input.len() == 1
    }

    /// The point of what the tumbler decrypted, and its signature on the
    /// refund.
    pub fn next_message(&self) -> (message: Message2)
        ensures
            message.A_prime_prime@ == self@.gamma,
            message.sig_refund_t@ == self@.sig_refund_t,
    {
        Message2 { A_prime_prime: self.gamma.to_pk(), sig_refund_t: self.sig_refund_t }
    }

    /// Takes the sender's encrypted signature on the redeem: decrypts it,
    /// checks it, signs the redeem itself and puts the two signatures into
    /// it.
    pub fn receive(self, message: Message3) -> (r: Result<Tumbler2, Error>)
        ensures
            r is Ok <==> redeemable(self@, message),
            r matches Ok(next) ==> next@ == tumbler2_after(self@, message),
            r matches Err(e) ==> e == Error::BadSignature,
    {
        let ghost state = self@;
        proof {
            use_type_invariant(&self);
        }
        let Message3 { sig_redeem_s } = message;
        let Tumbler1 { transactions, x_t, X_s, gamma, sig_refund_t } = self;
        let sig_redeem_s = decsig(&gamma, &sig_redeem_s);
        assert(sig_redeem_s@ == decrypted_redeem(state, message));
        let digest = transactions.redeem_tx_digest;
        assert(message_scalar(digest@) == redeem_message(state.transactions));
        match verify(&digest.bytes, &sig_redeem_s, &X_s) {
            Ok(()) => {},
            Err(e) => {
                return Err(e);
            },
        }
        let sig_redeem_t = sign(&digest.bytes, &x_t);
        assert(sig_redeem_t@ == signature_of(state.transactions.redeem_tx_digest, state.x_t));
        let completed = complete_spend_transaction(
            transactions.redeem,
            &digest,
            (X_s, sig_redeem_s),
            (x_t.to_pk(), sig_redeem_t),
        );
        match completed {
            Ok(signed_redeem_transaction) => Ok(Tumbler2 { signed_redeem_transaction }),
            Err(e) => Err(e),
        }
    }
}

impl Tumbler2 {
    pub fn signed_redeem_transaction(&self) -> (r: &Transaction)
        ensures
            r@ == self@.signed_redeem_transaction,
    {
        &self.signed_redeem_transaction
    }
}

impl Tumbler {
    /// The tumbler in its first state, with a fresh key.
    pub fn new(params: Params, HE: dummy_hsm_cl::SecretKey, rng: &mut rand::rngs::ThreadRng) -> (r:
        Tumbler)
        ensures
            exists|x_t: nat|
                0 < x_t < order() && r@ == TumblerView::Tumbler0(
                    #[trigger] tumbler0(x_t, params@, HE@),
                ),
    {
        let inner = Tumbler0::new(params, HE, rng);
        let r = Tumbler::Tumbler0(inner);
        proof {
            let x_t = choose|x_t: nat|
                0 < x_t < order() && inner@ == #[trigger] tumbler0(x_t, params@, HE@);
            assert(r@ == TumblerView::Tumbler0(tumbler0(x_t, params@, HE@)));
        }
        r
    }

    /// Takes a message to the next state, or refuses it.
    pub fn transition(self, message: Message) -> (r: Result<Tumbler, Error>)
        ensures
            tumbler_outcome(r) == tumbler_step(self@, message),
    {
        match (self, message) {
            (Tumbler::Tumbler0(inner), Message::Message1(m)) => {
                match inner.receive(m) {
                    Ok(next) => Ok(Tumbler::Tumbler1(next)),
                    Err(e) => Err(e),
                }
            },
            (Tumbler::Tumbler1(inner), Message::Message3(m)) => {
                match inner.receive(m) {
                    Ok(next) => Ok(Tumbler::Tumbler2(next)),
                    Err(e) => Err(e),
                }
            },
            _ => Err(Error::UnexpectedMessage),
        }
    }

    /// The message that the tumbler sends in this state, if any.
    pub fn next_message(&self) -> (r: Result<Message, Error>)
        ensures
            match self@ {
                TumblerView::Tumbler0(inner) => r matches Ok(Message::Message0(m)) && m.X_t@
                    == inner.x_t,
                TumblerView::Tumbler1(inner) => r matches Ok(Message::Message2(m))
                    && m.A_prime_prime@ == inner.gamma && m.sig_refund_t@ == inner.sig_refund_t,
                TumblerView::Tumbler2(_) => r == Err::<Message, Error>(Error::NoMessage),
            },
    {
        match self {
            Tumbler::Tumbler0(inner) => Ok(Message::Message0(inner.next_message())),
            Tumbler::Tumbler1(inner) => Ok(Message::Message2(inner.next_message())),
            Tumbler::Tumbler2(_) => Err(Error::NoMessage),
        }
    }

    /// The signed redeem, once the tumbler holds it.
    pub fn redeem_transaction(&self) -> (r: Result<Transaction, Error>)
        ensures
            match self@ {
                TumblerView::Tumbler2(inner) => r matches Ok(tx) && tx@
                    == inner.signed_redeem_transaction,
                _ => r matches Err(e) && e == Error::NoTransaction,
            },
    {
        match self {
            Tumbler::Tumbler2(inner) => Ok(inner.signed_redeem_transaction.clone()),
            _ => Err(Error::NoTransaction),
        }
    }
}

} // verus!
