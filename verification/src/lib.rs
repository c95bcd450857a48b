//! Anonymous atomic locks: a payment from a sender to a receiver through a
//! tumbler that cannot tell which sender pays which receiver.
//!
//! A session runs two protocols. In the puzzle-promise protocol the tumbler
//! funds a joint output with the receiver and promises its signature on the
//! redeem: the signature is encrypted under the point of a puzzle, and the
//! puzzle's solution decrypts it. The receiver blinds the puzzle and hands it
//! to the sender as a lock. In the puzzle-solver protocol the sender blinds
//! the lock once more, funds a joint output with the tumbler, and hands over
//! its own signature on that redeem, encrypted under the point of what the
//! tumbler decrypts from the lock. When the tumbler redeems, the ledger shows
//! the decrypted signature, the sender recovers from it what the tumbler
//! decrypted, takes its blinding off and passes the rest to the receiver, who
//! takes its own blinding off, holds the solution of the puzzle, and redeems.
//!
//! The modules, leaves first: `arith` is the arithmetic modulo the group
//! order; `secp256k1`, `ecdsa`, `dleq` and `adaptor` are the curve and its
//! signatures; `dummy_hsm_cl` stands in for the encryption scheme of the
//! puzzles; `encode`, `der`, `transaction` and `bitcoin` are the ledger's
//! formats and the transactions of a joint output; `puzzle_promise` and
//! `puzzle_solver` are the two protocols, state by state; `receiver` and
//! `sender` are the two roles that pass through both; `laws` states what
//! holds across them.

#![allow(non_snake_case)]

pub mod adaptor;
pub mod arith;
pub mod bitcoin;
pub mod bytes;
pub mod der;
pub mod dleq;
pub mod dummy_hsm_cl;
pub mod ecdsa;
pub mod encode;
pub mod error;
pub mod hash;
pub mod laws;
pub mod params;
pub mod puzzle_promise;
pub mod puzzle_solver;
pub mod receiver;
pub mod secp256k1;
pub mod sender;
pub mod transaction;

pub use crate::error::Error;
pub use crate::params::{Input, Lock, Params};
