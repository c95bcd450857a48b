//! The receiver, through both protocols: it takes the tumbler's promise,
//! hands the lock to the sender, and redeems once the sender hands back the
//! solution.

use vstd::prelude::*;
use crate::adaptor::encrypted_accepts;
use crate::arith::order;
use crate::dummy_hsm_cl;
use crate::dummy_hsm_cl::is_puzzle;
use crate::error::Error;
use crate::params::Params;
use crate::puzzle_promise;
use crate::puzzle_promise::{receiver0, receiver1_after, receiver2_after, redeem_message};
use crate::puzzle_solver;
use crate::puzzle_solver::receiver::{after_promise, redeemable, refusal, signed_redeem};
use crate::secp256k1::KeyPair;
use crate::transaction::{Transaction, TransactionView};

verus! {

/// The receiver in any of its states.
pub enum Receiver {
    /// Before it has heard from the tumbler.
    Receiver0(puzzle_promise::Receiver0),
    /// Once it holds the puzzle.
    Receiver1(puzzle_promise::Receiver1),
    /// Once it holds the tumbler's promise.
    Receiver2(puzzle_promise::Receiver2),
    /// Once it holds the signed redeem.
    Receiver3(puzzle_solver::receiver::Receiver1),
}

/// A `Receiver` as contracts speak of it.
pub enum ReceiverView {
    Receiver0(puzzle_promise::Receiver0View),
    Receiver1(puzzle_promise::Receiver1View),
    Receiver2(puzzle_promise::Receiver2View),
    Receiver3(TransactionView),
}

impl View for Receiver {
    type V = ReceiverView;

    open spec fn view(&self) -> ReceiverView {
        match self {
            Receiver::Receiver0(inner) => ReceiverView::Receiver0(inner@),
            Receiver::Receiver1(inner) => ReceiverView::Receiver1(inner@),
            Receiver::Receiver2(inner) => ReceiverView::Receiver2(inner@),
            Receiver::Receiver3(inner) => ReceiverView::Receiver3(inner@),
        }
    }
}

/// Where a message of the puzzle-promise protocol takes the receiver, with
/// the blinding scalar `beta`: on from its first state with the puzzle, on
/// from its second with the promise, and nowhere with any other.
pub open spec fn promise_step(state: ReceiverView, message: puzzle_promise::Message, beta: nat)
    -> Result<ReceiverView, Error> {
    match (state, message) {
        (ReceiverView::Receiver0(inner), puzzle_promise::Message::Message0(m)) => {
            if is_puzzle(inner.HE, m.A@, m.c_alpha@) {
                Ok(ReceiverView::Receiver1(receiver1_after(inner, m)))
            } else {
                Err(Error::BadProof)
            }
        },
        (ReceiverView::Receiver1(inner), puzzle_promise::Message::Message2(m)) => {
            if encrypted_accepts(
                redeem_message(inner.transactions),
                inner.X_t,
                inner.A,
                m.sig_redeem_t@,
            ) {
                Ok(ReceiverView::Receiver2(receiver2_after(inner, m, beta)))
            } else {
                Err(Error::BadAdaptorSignature)
            }
        },
        _ => Err(Error::UnexpectedMessage),
    }
}

/// Where a message of the puzzle-solver protocol takes the receiver: on
/// from its third state with the solution of the lock, and nowhere with any
/// other.
pub open spec fn solver_step(state: ReceiverView, message: puzzle_solver::Message) -> Result<
    ReceiverView,
    Error,
> {
    match (state, message) {
        (ReceiverView::Receiver2(inner), puzzle_solver::Message::Message4(m)) => {
            if redeemable(after_promise(inner), m) {
                Ok(ReceiverView::Receiver3(signed_redeem(after_promise(inner), m)))
            } else {
                Err(refusal(after_promise(inner), m))
            }
        },
        _ => Err(Error::UnexpectedMessage),
    }
}

/// The outcome of a step, with the state by its view.
pub open spec fn outcome(r: Result<Receiver, Error>) -> Result<ReceiverView, Error> {
    match r {
        Ok(next) => Ok(next@),
        Err(e) => Err(e),
    }
}

/// The outcome is that of the step with some blinding scalar.
pub open spec fn steps_with_some_blinding(
    state: ReceiverView,
    message: puzzle_promise::Message,
    r: Result<ReceiverView, Error>,
) -> bool {
    exists|beta: nat| 0 < beta < order() && r == #[trigger] promise_step(state, message, beta)
}

impl Receiver {
    /// The receiver in its first state, with a fresh key.
    pub fn new(params: Params, rng: &mut rand::rngs::ThreadRng, HE: dummy_hsm_cl::PublicKey) -> (r:
        Receiver)
        ensures
            exists|x_r: nat|
                0 < x_r < order() && r@ == ReceiverView::Receiver0(
                    #[trigger] receiver0(x_r, params@, HE@),
                ),
    {
        let x_r = KeyPair::random(rng);
        let r = Receiver::Receiver0(puzzle_promise::Receiver0::with_key(params, x_r, HE));
        assert(r@ == ReceiverView::Receiver0(receiver0(x_r@, params@, HE@)));
        r
    }

    /// Takes a message of the puzzle-promise protocol to the next state, or
    /// refuses it. The blinding scalar is drawn from the caller's generator.
    pub fn transition_on_puzzle_promise_message(
        self,
        message: puzzle_promise::Message,
        rng: &mut rand::rngs::ThreadRng,
    ) -> (r: Result<Receiver, Error>)
        ensures
            steps_with_some_blinding(self@, message, outcome(r)),
    {
        let ghost before = self@;
        match (self, message) {
            (Receiver::Receiver0(inner), puzzle_promise::Message::Message0(m)) => {
                let r = match inner.receive(m) {
                    Ok(next) => Ok(Receiver::Receiver1(next)),
                    Err(e) => Err(e),
                };
                assert(outcome(r) == promise_step(before, message, 1));
                r
            },
            (Receiver::Receiver1(inner), puzzle_promise::Message::Message2(m)) => {
                let beta = KeyPair::random(rng);
                let r = match inner.receive_with(m, beta) {
                    Ok(next) => Ok(Receiver::Receiver2(next)),
                    Err(e) => Err(e),
                };
                assert(outcome(r) == promise_step(before, message, beta@));
                r
            },
            _ => {
                let r = Err(Error::UnexpectedMessage);
                assert(outcome(r) == promise_step(before, message, 1));
                r
            },
        }
    }

    /// Takes a message of the puzzle-solver protocol to the next state, or
    /// refuses it.
    pub fn transition_on_puzzle_solver_message(self, message: puzzle_solver::Message) -> (r: Result<
        Receiver,
        Error,
    >)
        ensures
            outcome(r) == solver_step(self@, message),
    {
        match (self, message) {
            (Receiver::Receiver2(inner), puzzle_solver::Message::Message4(m)) => {
                let state = puzzle_solver::receiver::Receiver0::from_promise(&inner);
                match state.receive(m) {
                    Ok(next) => Ok(Receiver::Receiver3(next)),
                    Err(e) => Err(e),
                }
            },
            _ => Err(Error::UnexpectedMessage),
        }
    }

    /// The message of the puzzle-promise protocol that the receiver sends in
    /// this state, if any: its signature on the refund in the second, the
    /// lock in the third.
    pub fn next_puzzle_promise_message(&self) -> (r: Result<puzzle_promise::Message, Error>)
        ensures
            match self@ {
                ReceiverView::Receiver1(inner) => r matches Ok(
                    puzzle_promise::Message::Message1(m),
                ) && m.X_r@ == inner.x_r && m.sig_refund_r@ == crate::ecdsa::signature_of(
                    inner.transactions.refund_tx_digest,
                    inner.x_r,
                ),
                ReceiverView::Receiver2(inner) => r matches Ok(
                    puzzle_promise::Message::Message3(m),
                ) && m.l@.c_alpha_prime == inner.c_alpha_prime && m.l@.A_prime == inner.A_prime,
                _ => r matches Err(e) && e == Error::NoMessage,
            },
    {
        match self {
            Receiver::Receiver1(inner) => Ok(
                puzzle_promise::Message::Message1(inner.next_message()),
            ),
            Receiver::Receiver2(inner) => Ok(
                puzzle_promise::Message::Message3(inner.next_message()),
            ),
            _ => Err(Error::NoMessage),
        }
    }

    /// The signed redeem, once the receiver holds it.
    pub fn redeem_transaction(&self) -> (r: Result<Transaction, Error>)
        ensures
            match self@ {
                ReceiverView::Receiver3(signed) => r matches Ok(tx) && tx@ == signed,
                _ => r matches Err(e) && e == Error::NoTransaction,
            },
    {
        match self {
            Receiver::Receiver3(inner) => Ok(inner.signed_redeem_transaction().clone()),
            _ => Err(Error::NoTransaction),
        }
    }
}

} // verus!
