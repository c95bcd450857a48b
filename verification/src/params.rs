//! What the two parties of a session agree on before it starts.

use vstd::prelude::*;
use crate::bitcoin::{Address, MAX_SATISFACTION_WEIGHT};
use crate::dummy_hsm_cl::{Ciphertext, CiphertextView};
use crate::secp256k1::PublicKey;
use crate::transaction::{Transaction, TransactionView};

verus! {

/// Nothing: a session takes no input beyond its parameters.
#[derive(Clone, Copy, Debug)]
pub struct Input {}

impl Default for Input {
    fn default() -> (r: Input)
        ensures
            r == (Input {  }),
    {
        Input {  }
    }
}

/// The `Params` of a session as contracts speak of them.
pub struct ParamsView {
    pub redeem_identity: Seq<u8>,
    pub refund_identity: Seq<u8>,
    pub expiry: nat,
    pub tumble_amount: nat,
    pub tumbler_fee: nat,
    pub spend_transaction_fee_per_wu: nat,
    pub partial_fund_transaction: TransactionView,
}

/// The parameters of a session. The two parties of a protocol must hold the
/// same: the transactions, and so the digests that they sign, are made from
/// nothing else and the keys.
#[derive(Debug)]
pub struct Params {
    redeem_identity: Address,
    refund_identity: Address,
    expiry: u32,
    tumble_amount: u64,
    tumbler_fee: u64,
    spend_transaction_fee_per_wu: u64,
    /// A transaction that is funded but for the joint output: its inputs pay
    /// for the joint output, and its outputs take the change.
    partial_fund_transaction: Transaction,
}

impl View for Params {
    type V = ParamsView;

    closed spec fn view(&self) -> ParamsView {
        ParamsView {
            redeem_identity: self.redeem_identity@,
            refund_identity: self.refund_identity@,
            expiry: self.expiry as nat,
            tumble_amount: self.tumble_amount as nat,
            tumbler_fee: self.tumbler_fee as nat,
            spend_transaction_fee_per_wu: self.spend_transaction_fee_per_wu as nat,
            partial_fund_transaction: self.partial_fund_transaction@,
        }
    }
}

/// What spending a joint output costs: the most that satisfying it weighs,
/// at the agreed fee for a unit of weight.
pub open spec fn spend_fee(p: ParamsView) -> nat {
    MAX_SATISFACTION_WEIGHT as nat * p.spend_transaction_fee_per_wu
}

/// What the sender locks up for the tumbler: the amount, the tumbler's fee
/// and the fee of the spending transaction.
pub open spec fn sender_tumbler_value(p: ParamsView) -> nat {
    p.tumble_amount + p.tumbler_fee + spend_fee(p)
}

/// What the tumbler takes out of the sender's joint output.
pub open spec fn sender_tumbler_takeout(p: ParamsView) -> nat {
    p.tumble_amount + p.tumbler_fee
}

/// What the tumbler locks up for the receiver: the amount and the fee of the
/// spending transaction.
pub open spec fn tumbler_receiver_value(p: ParamsView) -> nat {
    p.tumble_amount + spend_fee(p)
}

/// What the receiver takes out of the tumbler's joint output.
pub open spec fn tumbler_receiver_takeout(p: ParamsView) -> nat {
    p.tumble_amount
}

/// The amounts fit the ledger's 64 bits, and the funding transaction has room
/// for one more output.
pub open spec fn in_range(p: ParamsView) -> bool {
    &&& sender_tumbler_value(p) <= u64::MAX
    &&& p.partial_fund_transaction.output.len() < 0x1_0000_0000
}

impl Params {
    /// The type's invariant: the parameters are in range.
    #[verifier::type_invariant]
    pub closed spec fn valid(self) -> bool {
        in_range(self@)
    }

    /// What the type's invariant says, for use outside this module.
    pub proof fn lemma_valid(self)
        requires
            self.valid(),
        ensures
            in_range(self@),
    {
    }

    /// The parameters of a session, for amounts that fit the ledger's 64 bits
    /// and a funding transaction with room for one more output.
    pub fn new(
        redeem_identity: Address,
        refund_identity: Address,
        expiry: u32,
        tumble_amount: u64,
        tumbler_fee: u64,
        spend_transaction_fee_per_wu: u64,
        partial_fund_transaction: Transaction,
    ) -> (r: Params)
        requires
            tumble_amount + tumbler_fee + MAX_SATISFACTION_WEIGHT * spend_transaction_fee_per_wu
                <= u64::MAX,
            partial_fund_transaction@.output.len() < 0x1_0000_0000,
        ensures
            r@.redeem_identity == redeem_identity@,
            r@.refund_identity == refund_identity@,
            r@.expiry == expiry,
            r@.tumble_amount == tumble_amount,
            r@.tumbler_fee == tumbler_fee,
            r@.spend_transaction_fee_per_wu == spend_transaction_fee_per_wu,
            r@.partial_fund_transaction == partial_fund_transaction@,
    {
        Params {
            redeem_identity,
            refund_identity,
            expiry,
            tumble_amount,
            tumbler_fee,
            spend_transaction_fee_per_wu,
            partial_fund_transaction,
        }
    }

    pub fn redeem_identity(&self) -> (r: &Address)
        ensures
            r@ == self@.redeem_identity,
    {
        &self.redeem_identity
    }

    pub fn refund_identity(&self) -> (r: &Address)
        ensures
            r@ == self@.refund_identity,
    {
        &self.refund_identity
    }

    pub fn expiry(&self) -> (r: u32)
        ensures
            r == self@.expiry,
    {
        self.expiry
    }

    pub fn tumble_amount(&self) -> (r: u64)
        ensures
            r == self@.tumble_amount,
    {
        self.tumble_amount
    }

    pub fn tumbler_fee(&self) -> (r: u64)
        ensures
            r == self@.tumbler_fee,
    {
        self.tumbler_fee
    }

    pub fn spend_transaction_fee_per_wu(&self) -> (r: u64)
        ensures
            r == self@.spend_transaction_fee_per_wu,
    {
        self.spend_transaction_fee_per_wu
    }

    pub fn partial_fund_transaction(&self) -> (r: &Transaction)
        ensures
            r@ == self@.partial_fund_transaction,
            r@.output.len() < 0x1_0000_0000,
    {
        proof {
            use_type_invariant(self);
        }
        &self.partial_fund_transaction
    }

    /// The partial transaction, handed over for making the funding
    /// transaction from it.
    pub fn into_partial_fund_transaction(self) -> (r: Transaction)
        ensures
            r@ == self@.partial_fund_transaction,
            r@.output.len() < 0x1_0000_0000,
    {
        proof {
            use_type_invariant(&self);
        }
        self.partial_fund_transaction
    }

    /// What the sender locks up for the tumbler.
    pub fn sender_tumbler_joint_output_value(&self) -> (r: u64)
        ensures
            r == sender_tumbler_value(self@),
    {
        proof {
            use_type_invariant(self);
            assert(MAX_SATISFACTION_WEIGHT as nat * self@.spend_transaction_fee_per_wu
                == MAX_SATISFACTION_WEIGHT * self.spend_transaction_fee_per_wu);
        }
        self.tumble_amount + self.tumbler_fee + MAX_SATISFACTION_WEIGHT
            * self.spend_transaction_fee_per_wu
    }

    /// What the tumbler takes out of the sender's joint output.
    pub fn sender_tumbler_joint_output_takeout(&self) -> (r: u64)
        ensures
            r == sender_tumbler_takeout(self@),
    {
        proof {
            use_type_invariant(self);
        }
        self.tumble_amount + self.tumbler_fee
    }

    /// What the tumbler locks up for the receiver.
    pub fn tumbler_receiver_joint_output_value(&self) -> (r: u64)
        ensures
            r == tumbler_receiver_value(self@),
    {
        proof {
            use_type_invariant(self);
            assert(MAX_SATISFACTION_WEIGHT as nat * self@.spend_transaction_fee_per_wu
                == MAX_SATISFACTION_WEIGHT * self.spend_transaction_fee_per_wu);
        }
        self.tumble_amount + MAX_SATISFACTION_WEIGHT * self.spend_transaction_fee_per_wu
    }

    /// What the receiver takes out of the tumbler's joint output.
    pub fn tumbler_receiver_joint_output_takeout(&self) -> (r: u64)
        ensures
            r == tumbler_receiver_takeout(self@),
    {
        self.tumble_amount
    }
}

impl Clone for Params {
    fn clone(&self) -> (r: Params)
        ensures
            r@ == self@,
    {
        proof {
            use_type_invariant(self);
        }
        Params {
            redeem_identity: self.redeem_identity.clone(),
            refund_identity: self.refund_identity.clone(),
            expiry: self.expiry,
            tumble_amount: self.tumble_amount,
            tumbler_fee: self.tumbler_fee,
            spend_transaction_fee_per_wu: self.spend_transaction_fee_per_wu,
            partial_fund_transaction: self.partial_fund_transaction.clone(),
        }
    }
}

/// A `Lock` as contracts speak of it.
pub struct LockView {
    pub c_alpha_prime: CiphertextView,
    pub A_prime: nat,
}

/// What the receiver hands to the sender: the puzzle, blinded.
#[derive(Clone, Copy, Debug)]
pub struct Lock {
    pub c_alpha_prime: Ciphertext,
    pub A_prime: PublicKey,
}

impl View for Lock {
    type V = LockView;

    open spec fn view(&self) -> LockView {
        LockView { c_alpha_prime: self.c_alpha_prime@, A_prime: self.A_prime@ }
    }
}

} // verus!
