//! What holds across the operations of a session: the algebra that lets a
//! puzzle be blinded twice on its way to the tumbler and unblinded twice on
//! its way back.

use vstd::prelude::*;
use crate::arith::{
    inv_mod, lemma_mod_range, lemma_mul_mod_assoc, lemma_mul_mod_cancel, lemma_mul_mod_comm,
    lemma_mul_mod_range, lemma_unit, mul_mod, order, unit,
};
use crate::adaptor::{
    decrypted, encsign_with_nonces, law_decsig_of_encsign_verifies, law_recover_of_decsig,
    nonce_abscissa, EncryptedSignatureView,
};
use crate::arith::{fold, lemma_fold, lemma_half_order};
use crate::bitcoin::{
    comes_first, decrypts, first_witness, holds_decryption, joint_output, joint_script,
    joint_witness, transactions_of, with_witness, MAX_SATISFACTION_WEIGHT,
};
use crate::der::lemma_der_shape;
use crate::encode::lemma_compact_size_len;
use crate::transaction::{
    full_bytes, has_witness, input_bytes, inputs_bytes, items_bytes, sighash_of, stripped_bytes,
    txid_of, weight_of, witnesses_bytes, OutPointView, TxOutView,
};
use crate::bytes::be_value;
use crate::der::witness_signature;
use crate::dummy_hsm_cl::{decryption, encryption, is_puzzle, power, CiphertextView};
use crate::ecdsa::{ecdsa_accepts, SignatureView};
use crate::secp256k1::{generator_multiple, PublicKey};
use crate::transaction::TransactionView;

verus! {

/// Raising a ciphertext to a power multiplies what it decrypts to: the
/// encryption of `alpha`, raised to `beta`, decrypts to `beta·alpha`.
pub proof fn law_power_of_ciphertext(tag: Seq<u8>, alpha: nat, beta: nat)
    ensures
        decryption(tag, power(encryption(tag, alpha), beta)) == mul_mod(beta, alpha),
{
}

/// Raising a point to a power multiplies its discrete logarithm: the point
/// that `pow_pt` makes of `alpha·G` and `beta`, whose logarithm is the
/// product, is the point `(beta·alpha)·G`.
pub proof fn law_power_of_point(alpha: nat, beta: nat, powered: PublicKey, product: PublicKey)
    requires
        powered.valid(),
        product.valid(),
        powered@ == mul_mod(beta, alpha),
        product@ == mul_mod(beta, alpha),
    ensures
        powered.encoding() == product.encoding(),
{
    powered.lemma_same_log(product);
}

/// Blinding comes off one layer at a time: of `tau·beta·alpha`, taking off
/// `beta` leaves `tau·alpha`, and taking off `tau` leaves `beta·alpha`.
pub proof fn law_unblinding(alpha: nat, beta: nat, tau: nat)
    requires
        unit(beta),
        unit(tau),
    ensures
        mul_mod(mul_mod(tau, mul_mod(beta, alpha)), inv_mod(beta)) == mul_mod(tau, alpha),
        mul_mod(mul_mod(tau, mul_mod(beta, alpha)), inv_mod(tau)) == mul_mod(beta, alpha),
{
    let ba = mul_mod(beta, alpha);
    lemma_unit(beta, tau);
    lemma_unit(tau, beta);
    // (tau (beta alpha)) / beta = ((tau alpha) beta) / beta = tau alpha
    lemma_mul_mod_comm(beta, alpha);
    lemma_mul_mod_assoc(tau, alpha, beta);
    lemma_mul_mod_cancel(mul_mod(tau, alpha), beta, inv_mod(beta));
    lemma_mul_mod_range(tau, alpha);
    lemma_mod_range(mul_mod(tau, alpha));
    // (tau (beta alpha)) / tau = ((beta alpha) tau) / tau = beta alpha
    lemma_mul_mod_comm(tau, ba);
    lemma_mul_mod_cancel(ba, tau, inv_mod(tau));
    lemma_mul_mod_range(beta, alpha);
    lemma_mod_range(ba);
}

/// A session gives the receiver the solution of the tumbler's puzzle: what
/// the tumbler decrypts from the puzzle blinded by the receiver's `beta` and
/// the sender's `tau`, with `tau` and then `beta` taken off, is the
/// puzzle's solution `alpha`.
pub proof fn law_session_solves_puzzle(tag: Seq<u8>, alpha: nat, beta: nat, tau: nat)
    requires
        alpha < order(),
        unit(beta),
        unit(tau),
    ensures
        mul_mod(
            mul_mod(
                decryption(tag, power(power(encryption(tag, alpha), beta), tau)),
                inv_mod(tau),
            ),
            inv_mod(beta),
        ) == alpha,
{
    law_unblinding(alpha, beta, tau);
    lemma_unit(beta, beta);
    lemma_mul_mod_cancel(alpha, beta, inv_mod(beta));
    lemma_mul_mod_comm(alpha, beta);
    lemma_mod_range(alpha);
}

/// A blinded puzzle is a puzzle: where `(A, C)` is a puzzle with the solution
/// `alpha`, the point `beta·A` and the ciphertext `C` raised to `beta` are a
/// puzzle with the solution `beta·alpha`.
pub proof fn law_blinded_puzzle(tag: Seq<u8>, alpha: nat, c: CiphertextView, beta: nat)
    requires
        is_puzzle(tag, alpha, c),
        unit(alpha),
        unit(beta),
    ensures
        is_puzzle(tag, mul_mod(beta, alpha), power(c, beta)),
        decryption(tag, power(c, beta)) == mul_mod(beta, alpha),
{
    lemma_unit(beta, alpha);
    assert(power(c, beta) == encryption(tag, mul_mod(beta, alpha)));
}

/// The tumbler cannot redeem without showing the solution: the redeem that
/// it signs with the decryption of the sender's encrypted signature holds,
/// in its witness, a signature from which the sender recovers what the
/// tumbler decrypted with.
pub proof fn law_redeem_shows_decryption(
    redeem: TransactionView,
    x_s: nat,
    x_t: nat,
    gamma: nat,
    esig: EncryptedSignatureView,
    sig_t: SignatureView,
)
    requires
        unit(gamma),
        unit(esig.s_hat),
    ensures
        exists|i: int|
            0 <= i < 3 && holds_decryption(
                #[trigger] first_witness(
                    with_witness(redeem, joint_witness(x_s, decrypted(gamma, esig), x_t, sig_t)),
                )[i],
                gamma,
                esig,
            ),
{
    let sig = decrypted(gamma, esig);
    let witness = joint_witness(x_s, sig, x_t, sig_t);
    let signed = with_witness(redeem, witness);
    law_recover_of_decsig(gamma, esig);
    lemma_fold(mul_mod(esig.s_hat, inv_mod(gamma)));
    lemma_half_order();
    lemma_mod_range(be_value(generator_multiple(fold(esig.r)).subrange(1, 33)));
    assert(first_witness(signed) == witness);
    let i: int = if comes_first(x_s, x_t) {
        1
    } else {
        0
    };
    assert(witness[i] == witness_signature(sig));
    assert(decrypts(witness[i], gamma, esig, sig));
    assert(holds_decryption(first_witness(signed)[i], gamma, esig));
}

/// Satisfying a joint output adds no more to the weight of the transaction
/// that spends it than `MAX_SATISFACTION_WEIGHT`, which is what the joint
/// output holds a fee for.
pub proof fn law_satisfaction_weight(
    spend: TransactionView,
    a: PublicKey,
    sig_a: SignatureView,
    b: PublicKey,
    sig_b: SignatureView,
)
    requires
        a.valid(),
        b.valid(),
        sig_a.r < order(),
        sig_a.s < order(),
        sig_b.r < order(),
        sig_b.s < order(),
        spend.input.len() == 1,
        spend.input[0].witness.len() == 0,
    ensures
        weight_of(with_witness(spend, joint_witness(a@, sig_a, b@, sig_b))) <= weight_of(spend)
            + MAX_SATISFACTION_WEIGHT,
{
    let witness = joint_witness(a@, sig_a, b@, sig_b);
    let signed = with_witness(spend, witness);
    a.lemma_valid();
    b.lemma_valid();
    lemma_der_shape(sig_a);
    lemma_der_shape(sig_b);
    // without the witness the two are the same bytes
    assert(signed.input.drop_last() =~= spend.input.drop_last());
    assert(input_bytes(signed.input.last()) == input_bytes(spend.input.last()));
    assert(inputs_bytes(signed.input) == inputs_bytes(spend.input));
    assert(stripped_bytes(signed) == stripped_bytes(spend));
    assert(!has_witness(spend.input));
    assert(signed.input[0].witness.len() > 0);
    assert(has_witness(signed.input));
    // the witness: the count, then three items behind their lengths
    assert(witness.len() == 3);
    assert(joint_script(a@, b@).len() == 70);
    assert(witness[2].len() == 70);
    assert(witness[0].len() <= 73 && witness[1].len() <= 73);
    lemma_compact_size_len(3);
    lemma_compact_size_len(witness[0].len());
    lemma_compact_size_len(witness[1].len());
    lemma_compact_size_len(70);
    reveal_with_fuel(items_bytes, 4);
    assert(witness.drop_last().drop_last().drop_last().len() == 0);
    assert(items_bytes(witness).len() == 3 + witness[0].len() + witness[1].len() + 70);
    reveal_with_fuel(witnesses_bytes, 2);
    assert(signed.input.drop_last().len() == 0);
    assert(witnesses_bytes(signed.input).len() == 1 + items_bytes(witness).len());
    assert(full_bytes(signed).len() == stripped_bytes(spend).len() + 2 + witnesses_bytes(
        signed.input,
    ).len());
}

/// The receiver redeems with what the sender hands back: the tumbler's
/// promise, an adaptor signature over `m` by the key `x_t` under the point of
/// the puzzle's solution `alpha`, decrypts under the lock's solution
/// `beta·alpha` with `beta` taken off to a signature that verifies, unless
/// `r` or `ŝ` of the promise came out as zero.
pub proof fn law_receiver_redeems(m: nat, x_t: nat, alpha: nat, beta: nat, k: nat, t: nat)
    requires
        unit(alpha),
        unit(beta),
        unit(k),
        0 < nonce_abscissa(encsign_with_nonces(m, x_t, alpha, k, t)),
        unit(encsign_with_nonces(m, x_t, alpha, k, t).s_hat),
    ensures
        ecdsa_accepts(
            m,
            decrypted(
                mul_mod(mul_mod(beta, alpha), inv_mod(beta)),
                encsign_with_nonces(m, x_t, alpha, k, t),
            ),
            x_t,
        ),
{
    lemma_unit(beta, beta);
    lemma_mul_mod_comm(beta, alpha);
    lemma_mul_mod_cancel(alpha, beta, inv_mod(beta));
    lemma_mod_range(alpha);
    law_decsig_of_encsign_verifies(m, x_t, alpha, k, t);
}

/// What the transactions of a joint output are to each other: the funding
/// transaction ends in the joint output; the refund and the redeem each
/// spend that output and nothing else, to one output of the amount taken
/// out; the refund pays to the refund address and is locked until the
/// expiry; the redeem pays to the redeem address and is not locked.
pub proof fn law_transactions_of_joint_output(
    partial: TransactionView,
    joint_value: nat,
    takeout: nat,
    a: nat,
    b: nat,
    expiry: nat,
    redeem_address: Seq<u8>,
    refund_address: Seq<u8>,
)
    ensures
        ({
            let txs = transactions_of(
                partial,
                joint_value,
                takeout,
                a,
                b,
                expiry,
                redeem_address,
                refund_address,
            );
            let joint = OutPointView { txid: txid_of(txs.fund), vout: partial.output.len() };
            &&& txs.fund.input == partial.input
            &&& txs.fund.output == partial.output.push(joint_output(joint_value, a, b))
            &&& txs.refund.input.len() == 1
            &&& txs.redeem.input.len() == 1
            &&& txs.refund.input[0].previous_output == joint
            &&& txs.redeem.input[0].previous_output == joint
            &&& txs.refund.input[0].sequence < 0xFFFF_FFFF
            &&& txs.refund.lock_time == expiry
            &&& txs.redeem.lock_time == 0
            &&& txs.refund.output == seq![
                TxOutView { value: takeout, script_pubkey: refund_address },
            ]
            &&& txs.redeem.output == seq![
                TxOutView { value: takeout, script_pubkey: redeem_address },
            ]
            &&& txs.refund_tx_digest == sighash_of(txs.refund, 0, joint_script(a, b), joint_value)
            &&& txs.redeem_tx_digest == sighash_of(txs.redeem, 0, joint_script(a, b), joint_value)
        }),
{
}

} // verus!
