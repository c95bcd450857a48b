//! The receiver's side of the puzzle-solver protocol: with the solution of
//! the lock it redeems what the tumbler promised.

use vstd::prelude::*;
use crate::adaptor::{decrypted, decsig, EncryptedSignature, EncryptedSignatureView};
use crate::arith::{inv_mod, mul_mod};
use crate::bitcoin::{complete_spend_transaction, joint_witness, with_witness};
use crate::ecdsa::{ecdsa_accepts, message_scalar, Signature, SignatureView};
use crate::error::Error;
use crate::puzzle_promise;
use crate::puzzle_solver::Message4;
use crate::secp256k1::{KeyPair, PublicKey, SecretKey};
use crate::transaction::{SigHash, Transaction, TransactionView};

verus! {

/// A `Receiver0` as contracts speak of it.
pub struct Receiver0View {
    pub X_r: nat,
    pub X_t: nat,
    pub unsigned_redeem_transaction: TransactionView,
    pub sig_redeem_t: EncryptedSignatureView,
    pub sig_redeem_r: SignatureView,
    pub beta: nat,
    pub redeem_tx_digest: Seq<u8>,
}

/// The receiver with what it holds from the puzzle-promise protocol.
pub struct Receiver0 {
    X_r: PublicKey,
    X_t: PublicKey,
    unsigned_redeem_transaction: Transaction,
    sig_redeem_t: EncryptedSignature,
    sig_redeem_r: Signature,
    beta: KeyPair,
    redeem_tx_digest: SigHash,
}

/// The receiver once it holds the signed redeem.
pub struct Receiver1 {
    signed_redeem_transaction: Transaction,
}

impl View for Receiver0 {
    type V = Receiver0View;

    closed spec fn view(&self) -> Receiver0View {
        Receiver0View {
            X_r: self.X_r@,
            X_t: self.X_t@,
            unsigned_redeem_transaction: self.unsigned_redeem_transaction@,
            sig_redeem_t: self.sig_redeem_t@,
            sig_redeem_r: self.sig_redeem_r@,
            beta: self.beta@,
            redeem_tx_digest: self.redeem_tx_digest@,
        }
    }
}

impl View for Receiver1 {
    type V = TransactionView;

    /// The signed redeem.
    closed spec fn view(&self) -> TransactionView {
        self.signed_redeem_transaction@
    }
}

/// The receiver's state with these parts.
pub open spec fn receiver0(
    X_r: nat,
    X_t: nat,
    unsigned_redeem_transaction: TransactionView,
    sig_redeem_t: EncryptedSignatureView,
    sig_redeem_r: SignatureView,
    beta: nat,
    redeem_tx_digest: Seq<u8>,
) -> Receiver0View {
    Receiver0View {
        X_r,
        X_t,
        unsigned_redeem_transaction,
        sig_redeem_t,
        sig_redeem_r,
        beta,
        redeem_tx_digest,
    }
}

/// What the receiver takes over from the end of the puzzle-promise protocol.
pub open spec fn after_promise(state: puzzle_promise::Receiver2View) -> Receiver0View {
    receiver0(
        state.x_r,
        state.X_t,
        state.transactions.redeem,
        state.sig_redeem_t,
        state.sig_redeem_r,
        state.beta,
        state.transactions.redeem_tx_digest,
    )
}

/// The solution of the puzzle: the solution of the lock with the receiver's
/// blinding taken off.
pub open spec fn solution(state: Receiver0View, message: Message4) -> nat {
    mul_mod(message.alpha_macron@, inv_mod(state.beta))
}

/// The tumbler's signature on the redeem, as the solution decrypts it.
pub open spec fn decrypted_redeem(state: Receiver0View, message: Message4) -> SignatureView {
    decrypted(solution(state, message), state.sig_redeem_t)
}

/// Whether the receiver can redeem: the solution is not zero, and the
/// tumbler's decrypted signature and its own both verify over the redeem.
pub open spec fn redeemable(state: Receiver0View, message: Message4) -> bool {
    &&& solution(state, message) != 0
    &&& state.unsigned_redeem_transaction.input.len() == 1
    &&& ecdsa_accepts(
        message_scalar(state.redeem_tx_digest),
        decrypted_redeem(state, message),
        state.X_t,
    )
    &&& ecdsa_accepts(message_scalar(state.redeem_tx_digest), state.sig_redeem_r, state.X_r)
}

/// The redeem of the tumbler's joint output, signed by both.
pub open spec fn signed_redeem(state: Receiver0View, message: Message4) -> TransactionView {
    with_witness(
        state.unsigned_redeem_transaction,
        joint_witness(
            state.X_t,
            decrypted_redeem(state, message),
            state.X_r,
            state.sig_redeem_r,
        ),
    )
}

/// Why the receiver cannot redeem.
pub open spec fn refusal(state: Receiver0View, message: Message4) -> Error {
    if solution(state, message) == 0 {
        Error::RecoveryFailed
    } else if state.unsigned_redeem_transaction.input.len() != 1 {
        Error::NoTransaction
    } else {
        Error::BadSignature
    }
}

impl Receiver0 {
    /// The receiver with what it holds from the puzzle-promise protocol.
    pub fn new(
        X_r: PublicKey,
        X_t: PublicKey,
        unsigned_redeem_transaction: Transaction,
        sig_redeem_t: EncryptedSignature,
        sig_redeem_r: Signature,
        beta: KeyPair,
        redeem_tx_digest: SigHash,
    ) -> (r: Receiver0)
        ensures
            r@ == receiver0(
                X_r@,
                X_t@,
                unsigned_redeem_transaction@,
                sig_redeem_t@,
                sig_redeem_r@,
                beta@,
                redeem_tx_digest@,
            ),
    {
        Receiver0 {
            X_r,
            X_t,
            unsigned_redeem_transaction,
            sig_redeem_t,
            sig_redeem_r,
            beta,
            redeem_tx_digest,
        }
    }

    /// The receiver with what it holds at the end of the puzzle-promise
    /// protocol.
    pub fn from_promise(state: &puzzle_promise::Receiver2) -> (r: Receiver0)
        ensures
            r@ == after_promise(state@),
    {
        Receiver0::new(
            state.x_r().to_pk(),
            *state.X_t(),
            state.unsigned_redeem_transaction().clone(),
            *state.sig_redeem_t(),
            *state.sig_redeem_r(),
            *state.beta(),
            *state.redeem_tx_digest(),
        )
    }

    /// Takes the solution of the lock: takes the blinding off, decrypts the
    /// tumbler's signature on the redeem with it, and puts that signature and
    /// its own into the redeem.
    pub fn receive(self, message: Message4) -> (r: Result<Receiver1, Error>)
        ensures
            r is Ok <==> redeemable(self@, message),
            r matches Ok(next) ==> next@ == signed_redeem(self@, message),
            r matches Err(e) ==> e == refusal(self@, message),
    {
        let beta = self.beta.to_sk().to_scalar();
        let alpha = message.alpha_macron.to_scalar().times(&beta.invert());
        let alpha = match SecretKey::from_scalar(alpha) {
            Some(key) => KeyPair::from_secret_key(key),
            None => {
                return Err(Error::RecoveryFailed);
            },
        };
        let sig_redeem_t = decsig(&alpha, &self.sig_redeem_t);
        let completed = complete_spend_transaction(
            self.unsigned_redeem_transaction,
            &self.redeem_tx_digest,
            (self.X_t, sig_redeem_t),
            (self.X_r, self.sig_redeem_r),
        );
        match completed {
            Ok(signed_redeem_transaction) => Ok(Receiver1 { signed_redeem_transaction }),
            Err(e) => Err(e),
        }
    }
}

impl Receiver1 {
    pub fn signed_redeem_transaction(&self) -> (r: &Transaction)
        ensures
            r@ == self@,
    {
        &self.signed_redeem_transaction
    }
}

} // verus!
