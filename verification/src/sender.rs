//! The sender, through both protocols: it takes the lock from the receiver,
//! pays the tumbler for its solution, and reads the solution off the
//! tumbler's redeem.

use vstd::prelude::*;
use crate::adaptor::random_nonce;
use crate::arith::order;
use crate::dummy_hsm_cl;
use crate::error::Error;
use crate::params::{Params, ParamsView};
use crate::puzzle_promise;
use crate::puzzle_solver;
use crate::puzzle_solver::sender::{
    blinding_holds, refundable, sender0, sender1_after, sender2_after, shows_decryption,
    unblinded, Sender0, Sender0View, Sender1, Sender1View, Sender2, Sender2View, Sender3,
};
use crate::secp256k1::{KeyPair, SecretKey};
use crate::transaction::{Transaction, TransactionView};

verus! {

/// The sender in any of its states.
pub enum Sender {
    /// Before it holds the lock.
    Sender0 { params: Params, HE: dummy_hsm_cl::PublicKey },
    /// Once it holds the lock.
    Sender1(Sender0),
    /// Once it has the tumbler's key.
    Sender2(Sender1),
    /// Once it holds the signed refund.
    Sender3(Sender2),
    /// Once it has the solution of the lock.
    Sender4(Sender3),
}

/// A `Sender` as contracts speak of it.
pub enum SenderView {
    Sender0 { params: ParamsView, HE: Seq<u8> },
    Sender1(Sender0View),
    Sender2(Sender1View),
    Sender3(Sender2View),
    Sender4(nat),
}

impl View for Sender {
    type V = SenderView;

    open spec fn view(&self) -> SenderView {
        match self {
            Sender::Sender0 { params, HE } => SenderView::Sender0 { params: params@, HE: HE@ },
            Sender::Sender1(inner) => SenderView::Sender1(inner@),
            Sender::Sender2(inner) => SenderView::Sender2(inner@),
            Sender::Sender3(inner) => SenderView::Sender3(inner@),
            Sender::Sender4(inner) => SenderView::Sender4(inner@),
        }
    }
}

/// The sender's first state.
pub open spec fn waiting(params: ParamsView, HE: Seq<u8>) -> SenderView {
    SenderView::Sender0 { params, HE }
}

/// Where a message of the puzzle-promise protocol takes the sender, with the
/// key `x_s`: on from its first state with the lock, and nowhere with any
/// other.
pub open spec fn promise_step(state: SenderView, message: puzzle_promise::Message, x_s: nat)
    -> Result<SenderView, Error> {
    match (state, message) {
        (SenderView::Sender0 { params, HE }, puzzle_promise::Message::Message3(m)) => Ok(
            SenderView::Sender1(sender0(params, x_s, m.l, HE)),
        ),
        _ => Err(Error::UnexpectedMessage),
    }
}

/// Where a message of the puzzle-solver protocol takes the sender, with the
/// blinding scalar `tau` and the nonces `k` and `t`: on from its second state
/// with the tumbler's key, on from its third with the tumbler's point and
/// signature, and nowhere with any other.
pub open spec fn solver_step(
    state: SenderView,
    message: puzzle_solver::Message,
    tau: nat,
    k: nat,
    t: nat,
) -> Result<SenderView, Error> {
    match (state, message) {
        (SenderView::Sender1(inner), puzzle_solver::Message::Message0(m)) => Ok(
            SenderView::Sender2(sender1_after(inner, m, tau)),
        ),
        (SenderView::Sender2(inner), puzzle_solver::Message::Message2(m)) => {
            if !blinding_holds(inner, m) {
                Err(Error::BlindingCheckFailed)
            } else if !refundable(inner, m) {
                Err(Error::BadSignature)
            } else {
                Ok(SenderView::Sender3(sender2_after(inner, m, k, t)))
            }
        },
        _ => Err(Error::UnexpectedMessage),
    }
}

/// Where the tumbler's redeem takes the sender: on from its fourth state,
/// where the redeem shows the decryption of the sender's signature, and
/// nowhere from any other.
pub open spec fn transaction_step(state: SenderView, redeem: TransactionView) -> Result<
    SenderView,
    Error,
> {
    match state {
        SenderView::Sender3(inner) => {
            if !shows_decryption(inner, redeem) {
                Err(Error::BadSignature)
            } else if unblinded(inner) == 0 {
                Err(Error::RecoveryFailed)
            } else {
                Ok(SenderView::Sender4(unblinded(inner)))
            }
        },
        _ => Err(Error::UnexpectedMessage),
    }
}

/// The outcome of a step, with the state by its view.
pub open spec fn outcome(r: Result<Sender, Error>) -> Result<SenderView, Error> {
    match r {
        Ok(next) => Ok(next@),
        Err(e) => Err(e),
    }
}

/// The outcome is that of the step with some key.
pub open spec fn steps_with_some_key(
    state: SenderView,
    message: puzzle_promise::Message,
    r: Result<SenderView, Error>,
) -> bool {
    exists|x_s: nat| 0 < x_s < order() && r == #[trigger] promise_step(state, message, x_s)
}

/// The outcome is that of the step with some blinding scalar and nonces.
pub open spec fn steps_with_some_scalars(
    state: SenderView,
    message: puzzle_solver::Message,
    r: Result<SenderView, Error>,
) -> bool {
    exists|tau: nat, k: nat, t: nat|
        0 < tau < order() && 0 < k < order() && 0 < t < order() && r == #[trigger] solver_step(
            state,
            message,
            tau,
            k,
            t,
        )
}

impl Sender {
    /// The sender in its first state.
    pub fn new(params: Params, HE: dummy_hsm_cl::PublicKey) -> (r: Sender)
        ensures
            r@ == waiting(params@, HE@),
    {
        Sender::Sender0 { params, HE }
    }

    /// Takes a message of the puzzle-promise protocol to the next state, or
    /// refuses it. The sender's key is drawn from the caller's generator.
    pub fn transition_on_puzzle_promise_message(
        self,
        message: puzzle_promise::Message,
        rng: &mut rand::rngs::ThreadRng,
    ) -> (r: Result<Sender, Error>)
        ensures
            steps_with_some_key(self@, message, outcome(r)),
    {
        let ghost before = self@;
        match (self, message) {
            (Sender::Sender0 { params, HE }, puzzle_promise::Message::Message3(m)) => {
                let x_s = KeyPair::random(rng);
                let r = Ok(Sender::Sender1(Sender0::with_key(params, m.l, HE, x_s)));
                assert(outcome(r) == promise_step(before, message, x_s@));
                r
            },
            _ => {
                let r = Err(Error::UnexpectedMessage);
                assert(outcome(r) == promise_step(before, message, 1));
                r
            },
        }
    }

    /// Takes a message of the puzzle-solver protocol to the next state, or
    /// refuses it. The blinding scalar and the nonces are drawn from the
    /// caller's generator.
    pub fn transition_on_puzzle_solver_message(
        self,
        message: puzzle_solver::Message,
        rng: &mut rand::rngs::ThreadRng,
    ) -> (r: Result<Sender, Error>)
        ensures
            steps_with_some_scalars(self@, message, outcome(r)),
    {
        let ghost before = self@;
        match (self, message) {
            (Sender::Sender1(inner), puzzle_solver::Message::Message0(m)) => {
                let tau = KeyPair::random(rng);
                let r = Ok(Sender::Sender2(inner.receive_with(m, tau)));
                assert(outcome(r) == solver_step(before, message, tau@, 1, 1));
                r
            },
            (Sender::Sender2(inner), puzzle_solver::Message::Message2(m)) => {
                let k = random_nonce(&m.A_prime_prime, rng);
                let t = SecretKey::random(rng);
                let r = match inner.receive_with(m, &k, &t) {
                    Ok(next) => Ok(Sender::Sender3(next)),
                    Err(e) => Err(e),
                };
                assert(outcome(r) == solver_step(before, message, 1, k@, t@));
                r
            },
            _ => {
                let r = Err(Error::UnexpectedMessage);
                assert(outcome(r) == solver_step(before, message, 1, 1, 1));
                r
            },
        }
    }

    /// Takes the tumbler's redeem, as the ledger shows it, to the last state,
    /// or refuses it.
    pub fn transition_on_transaction(self, transaction: Transaction) -> (r: Result<Sender, Error>)
        ensures
            outcome(r) == transaction_step(self@, transaction@),
    {
        match self {
            Sender::Sender3(inner) => {
                match inner.receive(transaction) {
                    Ok(next) => Ok(Sender::Sender4(next)),
                    Err(e) => Err(e),
                }
            },
            _ => Err(Error::UnexpectedMessage),
        }
    }

    /// The message of the puzzle-solver protocol that the sender sends in
    /// this state, if any.
    pub fn next_puzzle_solver_message(&self) -> (r: Result<puzzle_solver::Message, Error>)
        ensures
            match self@ {
                SenderView::Sender2(inner) => r matches Ok(puzzle_solver::Message::Message1(m))
                    && m.X_s@ == inner.x_s && m.c_alpha_prime_prime@ == dummy_hsm_cl::power(
                    inner.c_alpha_prime,
                    inner.tau,
                ),
                SenderView::Sender3(inner) => r matches Ok(puzzle_solver::Message::Message3(m))
                    && m.sig_redeem_s@ == inner.sig_redeem_s,
                SenderView::Sender4(solution) => r matches Ok(puzzle_solver::Message::Message4(m))
                    && m.alpha_macron@ == solution,
                _ => r matches Err(e) && e == Error::NoMessage,
            },
    {
        match self {
            Sender::Sender2(inner) => Ok(puzzle_solver::Message::Message1(inner.next_message())),
            Sender::Sender3(inner) => Ok(puzzle_solver::Message::Message3(inner.next_message())),
            Sender::Sender4(inner) => Ok(puzzle_solver::Message::Message4(inner.next_message())),
            _ => Err(Error::NoMessage),
        }
    }

    /// The transaction that funds the joint output, once the sender holds
    /// the signed refund.
    pub fn fund_transaction(&self) -> (r: Result<Transaction, Error>)
        ensures
            match self@ {
                SenderView::Sender3(inner) => r matches Ok(tx) && tx@
                    == inner.unsigned_fund_transaction,
                _ => r matches Err(e) && e == Error::NoTransaction,
            },
    {
        match self {
            Sender::Sender3(inner) => Ok(inner.unsigned_fund_transaction()),
            _ => Err(Error::NoTransaction),
        }
    }

    /// The signed refund, once the sender holds it.
    pub fn refund_transaction(&self) -> (r: Result<Transaction, Error>)
        ensures
            match self@ {
                SenderView::Sender3(inner) => r matches Ok(tx) && tx@
                    == inner.signed_refund_transaction,
                _ => r matches Err(e) && e == Error::NoTransaction,
            },
    {
        match self {
            Sender::Sender3(inner) => Ok(inner.signed_refund_transaction()),
            _ => Err(Error::NoTransaction),
        }
    }
}

} // verus!
