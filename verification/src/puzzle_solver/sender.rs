//! The sender's side of the puzzle-solver protocol.

use vstd::prelude::*;
use crate::adaptor::{
    encsign_with, encsign_with_nonces, random_nonce, recover, EncryptedSignature,
    EncryptedSignatureView,
};
use crate::arith::{inv_mod, mul_mod, order};
use crate::bitcoin::{
    complete_spend_transaction, extract_signature_by_key, first_witness, holds_decryption,
    joint_witness, make_transactions, with_witness,
};
use crate::dummy_hsm_cl;
use crate::dummy_hsm_cl::{power, Ciphertext, CiphertextView, Pow};
use crate::ecdsa::{ecdsa_accepts, sign, signature_of, verify};
use crate::error::Error;
use crate::params::{Lock, Params, ParamsView};
use crate::puzzle_promise::{redeem_message, refund_message};
use crate::puzzle_solver::{solver_transactions, Message0, Message1, Message2, Message3, Message4};
use crate::secp256k1::{KeyPair, PublicKey, SecretKey};
use crate::transaction::{Transaction, TransactionView};

verus! {

/// A `Sender0` as contracts speak of it.
pub struct Sender0View {
    pub params: ParamsView,
    pub x_s: nat,
    pub c_alpha_prime: CiphertextView,
    pub A_prime: nat,
    pub HE: Seq<u8>,
}

/// A `Sender1` as contracts speak of it.
pub struct Sender1View {
    pub params: ParamsView,
    pub x_s: nat,
    pub X_t: nat,
    pub c_alpha_prime: CiphertextView,
    pub A_prime: nat,
    pub tau: nat,
    pub HE: Seq<u8>,
}

/// A `Sender2` as contracts speak of it.
pub struct Sender2View {
    pub unsigned_fund_transaction: TransactionView,
    pub signed_refund_transaction: TransactionView,
    pub sig_redeem_s: EncryptedSignatureView,
    pub A_prime_prime: nat,
    pub tau: nat,
}

/// The sender once it holds the lock.
pub struct Sender0 {
    params: Params,
    x_s: KeyPair,
    c_alpha_prime: Ciphertext,
    A_prime: PublicKey,
    HE: dummy_hsm_cl::PublicKey,
}

/// The sender once it has the tumbler's key and has drawn its blinding
/// scalar.
pub struct Sender1 {
    params: Params,
    x_s: KeyPair,
    X_t: PublicKey,
    c_alpha_prime: Ciphertext,
    A_prime: PublicKey,
    tau: KeyPair,
    HE: dummy_hsm_cl::PublicKey,
}

/// The sender once it holds the signed refund and may fund the joint output.
pub struct Sender2 {
    unsigned_fund_transaction: Transaction,
    signed_refund_transaction: Transaction,
    sig_redeem_s: EncryptedSignature,
    A_prime_prime: PublicKey,
    tau: KeyPair,
}

/// The sender once it has the solution of the lock.
pub struct Sender3 {
    alpha_macron: KeyPair,
}

/// The blinded puzzle that came back from the tumbler is not the one that
/// the sender sent: `(A')^tau != A''`.
#[derive(Clone, Copy, Debug)]
pub struct AptNotEqualApp {}

impl AptNotEqualApp {
    /// The refusal as a session error.
    pub fn into_error(self) -> (e: Error)
        ensures
            e == Error::BlindingCheckFailed,
    {
        Error::BlindingCheckFailed
    }
}

impl View for Sender0 {
    type V = Sender0View;

    closed spec fn view(&self) -> Sender0View {
        Sender0View {
            params: self.params@,
            x_s: self.x_s@,
            c_alpha_prime: self.c_alpha_prime@,
            A_prime: self.A_prime@,
            HE: self.HE@,
        }
    }
}

impl View for Sender1 {
    type V = Sender1View;

    closed spec fn view(&self) -> Sender1View {
        Sender1View {
            params: self.params@,
            x_s: self.x_s@,
            X_t: self.X_t@,
            c_alpha_prime: self.c_alpha_prime@,
            A_prime: self.A_prime@,
            tau: self.tau@,
            HE: self.HE@,
        }
    }
}

impl View for Sender2 {
    type V = Sender2View;

    closed spec fn view(&self) -> Sender2View {
        Sender2View {
            unsigned_fund_transaction: self.unsigned_fund_transaction@,
            signed_refund_transaction: self.signed_refund_transaction@,
            sig_redeem_s: self.sig_redeem_s@,
            A_prime_prime: self.A_prime_prime@,
            tau: self.tau@,
        }
    }
}

impl View for Sender3 {
    type V = nat;

    /// The solution of the lock.
    closed spec fn view(&self) -> nat {
        self.alpha_macron@
    }
}

/// The sender's first state with these parts.
pub open spec fn sender0(params: ParamsView, x_s: nat, lock: Lock, HE: Seq<u8>) -> Sender0View {
    Sender0View {
        params,
        x_s,
        c_alpha_prime: lock.c_alpha_prime@,
        A_prime: lock.A_prime@,
        HE,
    }
}

/// The sender's state after the tumbler's key, with the blinding scalar
/// `tau`.
pub open spec fn sender1_after(state: Sender0View, message: Message0, tau: nat) -> Sender1View {
    Sender1View {
        params: state.params,
        x_s: state.x_s,
        X_t: message.X_t@,
        c_alpha_prime: state.c_alpha_prime,
        A_prime: state.A_prime,
        tau,
        HE: state.HE,
    }
}

/// The blinding check: what came back is the lock's point raised to the
/// sender's blinding scalar.
pub open spec fn blinding_holds(state: Sender1View, message: Message2) -> bool {
    mul_mod(state.tau, state.A_prime) == message.A_prime_prime@
}

/// Whether the sender can get its refund: the tumbler's signature and its
/// own both verify over the refund.
pub open spec fn refundable(state: Sender1View, message: Message2) -> bool {
    let transactions = solver_transactions(state.params, state.x_s, state.X_t);
    &&& ecdsa_accepts(refund_message(transactions), message.sig_refund_t@, state.X_t)
    &&& ecdsa_accepts(
        refund_message(transactions),
        signature_of(transactions.refund_tx_digest, state.x_s),
        state.x_s,
    )
}

/// The sender's state after the tumbler's point and signature, with the
/// nonces `k` and `t` of its encrypted signature.
pub open spec fn sender2_after(state: Sender1View, message: Message2, k: nat, t: nat)
    -> Sender2View {
    let transactions = solver_transactions(state.params, state.x_s, state.X_t);
    Sender2View {
        unsigned_fund_transaction: transactions.fund,
        signed_refund_transaction: with_witness(
            transactions.refund,
            joint_witness(
                state.x_s,
                signature_of(transactions.refund_tx_digest, state.x_s),
                state.X_t,
                message.sig_refund_t@,
            ),
        ),
        sig_redeem_s: encsign_with_nonces(
            redeem_message(transactions),
            state.x_s,
            message.A_prime_prime@,
            k,
            t,
        ),
        A_prime_prime: message.A_prime_prime@,
        tau: state.tau,
    }
}

/// Whether the tumbler's redeem shows the decryption of the sender's
/// encrypted signature.
pub open spec fn shows_decryption(state: Sender2View, redeem: TransactionView) -> bool {
    exists|i: int|
        0 <= i < first_witness(redeem).len() && holds_decryption(
            #[trigger] first_witness(redeem)[i],
            state.A_prime_prime,
            state.sig_redeem_s,
        )
}

/// The solution of the lock: what the tumbler decrypted, with the sender's
/// blinding taken off.
pub open spec fn unblinded(state: Sender2View) -> nat {
    mul_mod(state.A_prime_prime, inv_mod(state.tau))
}

impl Sender0 {
    /// The sender with a fresh key.
    pub fn new(
        params: Params,
        lock: Lock,
        HE: dummy_hsm_cl::PublicKey,
        rng: &mut rand::rngs::ThreadRng,
    ) -> (r: Sender0)
        ensures
            exists|x_s: nat| 0 < x_s < order() && r@ == #[trigger] sender0(params@, x_s, lock, HE@),
    {
        let x_s = KeyPair::random(rng);
        let r = Sender0::with_key(params, lock, HE, x_s);
        assert(r@ == sender0(params@, x_s@, lock, HE@));
        r
    }

    /// The sender with the key `x_s`.
    pub fn with_key(params: Params, lock: Lock, HE: dummy_hsm_cl::PublicKey, x_s: KeyPair) -> (r:
        Sender0)
        ensures
            r@ == sender0(params@, x_s@, lock, HE@),
    {
        let Lock { c_alpha_prime, A_prime } = lock;
        Sender0 { params, x_s, c_alpha_prime, A_prime, HE }
    }

    /// Takes the tumbler's key, and draws the blinding scalar.
    pub fn receive(self, message: Message0, rng: &mut rand::rngs::ThreadRng) -> (r: Sender1)
        ensures
            exists|tau: nat|
                0 < tau < order() && r@ == #[trigger] sender1_after(self@, message, tau),
    {
        let tau = KeyPair::random(rng);
        let ghost before = self@;
        let r = self.receive_with(message, tau);
        assert(r@ == sender1_after(before, message, tau@));
        r
    }

    /// Takes the tumbler's key, with the blinding scalar `tau`.
    pub fn receive_with(self, message: Message0, tau: KeyPair) -> (r: Sender1)
        ensures
            r@ == sender1_after(self@, message, tau@),
    {
        Sender1 {
            params: self.params,
            x_s: self.x_s,
            X_t: message.X_t,
            c_alpha_prime: self.c_alpha_prime,
            A_prime: self.A_prime,
            tau,
            HE: self.HE,
        }
    }
}

impl Sender1 {
    /// The sender's key and the lock's ciphertext, blinded once more.
    pub fn next_message(&self) -> (message: Message1)
        ensures
            message.X_s@ == self@.x_s,
            message.c_alpha_prime_prime@ == power(self@.c_alpha_prime, self@.tau),
    {
        let c_alpha_prime_prime = self.HE.pow_ct(&self.c_alpha_prime, &self.tau);
        Message1 { c_alpha_prime_prime, X_s: self.x_s.to_pk() }
    }

    /// Checks that what came back is the lock's point with the sender's
    /// blinding on it.
    fn check_blinding(&self, A_prime_prime: &PublicKey) -> (r: Result<(), AptNotEqualApp>)
        ensures
            r is Ok <==> mul_mod(self@.tau, self@.A_prime) == A_prime_prime@,
    {
        let A_prime_tau = self.HE.pow_pt(&self.A_prime, &self.tau);
        if A_prime_tau.eq(A_prime_prime) {
            Ok(())
        } else {
            Err(AptNotEqualApp {  })
        }
    }

    /// Takes the tumbler's point and signature on the refund, with fresh
    /// nonces for the encrypted signature on the redeem.
    pub fn receive(self, message: Message2, rng: &mut rand::rngs::ThreadRng) -> (r: Result<
        Sender2,
        Error,
    >)
        ensures
            r is Ok <==> blinding_holds(self@, message) && refundable(self@, message),
            r matches Ok(next) ==> exists|k: nat, t: nat|
                0 < k < order() && 0 < t < order() && next@ == #[trigger] sender2_after(
                    self@,
                    message,
                    k,
                    t,
                ),
            r matches Err(e) ==> e == if blinding_holds(self@, message) {
                Error::BadSignature
            } else {
                Error::BlindingCheckFailed
            },
    {
        let k = random_nonce(&message.A_prime_prime, rng);
        let t = SecretKey::random(rng);
        let ghost before = self@;
        let r = self.receive_with(message, &k, &t);
        proof {
            if r is Ok {
                assert(r->Ok_0@ == sender2_after(before, message, k@, t@));
            }
        }
        r
    }

    /// Takes the tumbler's point and signature on the refund: checks the
    /// blinding before anything is signed, makes the transactions of the
    /// joint output, checks the tumbler's signature, completes the refund, and
    /// only then signs the redeem, encrypted under the tumbler's point, with
    /// the nonces `k` and `t`.
    pub fn receive_with(self, message: Message2, k: &SecretKey, t: &SecretKey) -> (r: Result<
        Sender2,
        Error,
    >)
        ensures
            r is Ok <==> blinding_holds(self@, message) && refundable(self@, message),
            r matches Ok(next) ==> next@ == sender2_after(self@, message, k@, t@),
            r matches Err(e) ==> e == if blinding_holds(self@, message) {
                Error::BadSignature
            } else {
                Error::BlindingCheckFailed
            },
    {
        let Message2 { A_prime_prime, sig_refund_t } = message;
        match self.check_blinding(&A_prime_prime) {
            Ok(()) => {},
            Err(e) => {
                return Err(e.into_error());
            },
        }
        let Sender1 { params, x_s, X_t, c_alpha_prime, A_prime, tau, HE } = self;
        let joint_value = params.sender_tumbler_joint_output_value();
        let takeout = params.sender_tumbler_joint_output_takeout();
        let expiry = params.expiry();
        let redeem_identity = params.redeem_identity().clone();
        let refund_identity = params.refund_identity().clone();
        let transactions = make_transactions(
            params.into_partial_fund_transaction(),
            joint_value,
            takeout,
            &x_s.to_pk(),
            &X_t,
            expiry,
            &redeem_identity,
            &refund_identity,
        );
        match verify(&transactions.refund_tx_digest.bytes, &sig_refund_t, &X_t) {
            Ok(()) => {},
            Err(e) => {
                return Err(e);
            },
        }
        let sig_refund_s = sign(&transactions.refund_tx_digest.bytes, &x_s);
        let completed = complete_spend_transaction(
            transactions.refund,
            &transactions.refund_tx_digest,
            (x_s.to_pk(), sig_refund_s),
            (X_t, sig_refund_t),
        );
        let signed_refund_transaction = match completed {
            Ok(signed) => signed,
            Err(e) => {
                return Err(e);
            },
        };
        let sig_redeem_s = encsign_with(
            &transactions.redeem_tx_digest.bytes,
            &x_s,
            &A_prime_prime,
            k,
            t,
        );
        Ok(
            Sender2 {
                unsigned_fund_transaction: transactions.fund,
                signed_refund_transaction,
                sig_redeem_s,
                A_prime_prime,
                tau,
            },
        )
    }
}

impl Sender2 {
    /// The sender's signature on the redeem, encrypted under the tumbler's
    /// point.
    pub fn next_message(&self) -> (message: Message3)
        ensures
            message.sig_redeem_s@ == self@.sig_redeem_s,
    {
        Message3 { sig_redeem_s: self.sig_redeem_s }
    }

    /// Takes the tumbler's redeem as the ledger shows it: finds the
    /// decryption of the sender's signature in its witness, recovers what the
    /// tumbler decrypted, and takes the sender's blinding off.
    pub fn receive(self, redeem_transaction: Transaction) -> (r: Result<Sender3, Error>)
        ensures
            r is Ok <==> shows_decryption(self@, redeem_transaction@) && unblinded(self@) != 0,
            r matches Ok(next) ==> next@ == unblinded(self@),
            r matches Err(e) ==> e == if shows_decryption(self@, redeem_transaction@) {
                Error::RecoveryFailed
            } else {
                Error::BadSignature
            },
    {
        let sig = match extract_signature_by_key(
            &redeem_transaction,
            &self.A_prime_prime,
            &self.sig_redeem_s,
        ) {
            Ok(sig) => sig,
            Err(e) => {
                return Err(e);
            },
        };
        let gamma = match recover(&self.A_prime_prime, &self.sig_redeem_s, &sig) {
            Ok(gamma) => gamma,
            Err(e) => {
                return Err(e);
            },
        };
        let tau = self.tau.to_sk().to_scalar();
        let alpha_macron = gamma.to_sk().to_scalar().times(&tau.invert());
        match SecretKey::from_scalar(alpha_macron) {
            Some(key) => Ok(Sender3 { alpha_macron: KeyPair::from_secret_key(key) }),
            None => Err(Error::RecoveryFailed),
        }
    }

    pub fn unsigned_fund_transaction(&self) -> (r: Transaction)
        ensures
            r@ == self@.unsigned_fund_transaction,
    {
        self.unsigned_fund_transaction.clone()
    }

    pub fn signed_refund_transaction(&self) -> (r: Transaction)
        ensures
            r@ == self@.signed_refund_transaction,
    {
        self.signed_refund_transaction.clone()
    }
}

impl Sender3 {
    /// The solution of the lock, for the receiver.
    pub fn next_message(&self) -> (message: Message4)
        ensures
            message.alpha_macron@ == self@,
    {
        Message4 { alpha_macron: self.alpha_macron.to_sk() }
    }

    pub fn alpha_macron(&self) -> (r: &KeyPair)
        ensures
            r@ == self@,
    {
        &self.alpha_macron
    }
}

} // verus!
