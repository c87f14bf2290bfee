//! The BTC claim: the transaction by which the Ark payer takes the lock with both signatures.

use bitcoin::absolute::LockTime;
use bitcoin::hashes::Hash as _;
use bitcoin::sighash::{Prevouts, SighashCache, TapSighashType};
use bitcoin::transaction::Version;
use bitcoin::{OutPoint as BtcOutPoint, Transaction as BtcTransaction, TxIn as BtcTxIn, TxOut as BtcTxOut};
use bitcoin::{Amount, Sequence, Txid};
use vstd::prelude::*;

use crate::error::SwapError;
use crate::fee::{checked_fee, fee_at};
use crate::lock::{lock_output, BtcLockContract, LockView};
use crate::script::{anchor_script, fee_anchor_with_amount, is_standard, standard, P2TR_DUST};
use crate::refund::with_first_witness;
use crate::tx::{
    count_size, input_lengths, output_lengths, strings_size, stripped, unsigned, weight, weight_of,
    weight_of_lengths, witnesses_size, OutPoint, Transaction, TransactionView, TxIn, TxInView, TxOut, TxOutView,
};

verus! {

/// The hash that a taproot key spend of the first input signs, where the transaction, without the
/// scripts and witnesses of its inputs, has exactly one input.
pub uninterp spec fn key_spend_hash(unsigned_tx: TransactionView, prevout: TxOutView) -> Option<Seq<u8>>;

/// The hash that a taproot key spend of the first input signs, where the transaction has exactly
/// one input.
pub open spec fn key_spend_sighash(tx: TransactionView, prevout: TxOutView) -> Option<Seq<u8>> {
    key_spend_hash(unsigned(tx), prevout)
}

/// `SighashCache::taproot_key_spend_signature_hash` of the first input with the default hash
/// type, for a transaction whose only prevout is given. It depends on no `scriptSig` and no witness,
/// which are left out.
#[verifier::external_body]
fn key_sighash(tx: &Transaction, prevout: &TxOut) -> (hash: Option<[u8; 32]>)
    ensures
        match hash {
            Some(found) => key_spend_hash(unsigned(tx@), prevout@) == Some(found@),
            None => key_spend_hash(unsigned(tx@), prevout@) is None,
        },
        hash is Some <==> tx@.input.len() == 1,
{
    let out = |from: &TxOut| BtcTxOut {
        value: Amount::from_sat(from.value), script_pubkey: from.script_pubkey.clone().into() };
    let tx = BtcTransaction {
        version: Version(tx.version), lock_time: LockTime::from_consensus(tx.lock_time),
        input: tx.input.iter().map(|from| BtcTxIn {
            previous_output: BtcOutPoint::new(
                Txid::from_byte_array(from.previous_output.txid), from.previous_output.vout),
            sequence: Sequence(from.sequence), ..Default::default()
        }).collect(),
        output: tx.output.iter().map(out).collect(),
    };
    Some(SighashCache::new(&tx).taproot_key_spend_signature_hash(
        0, &Prevouts::All(&[out(prevout)]), TapSighashType::Default).ok()?.to_byte_array())
}

/// The input of a claim.
pub open spec fn claim_input(funding_outpoint: OutPoint, witness: Seq<Seq<u8>>) -> TxInView {
    TxInView { previous_output: funding_outpoint, script_sig: Seq::empty(), sequence: 0xffff_ffff, witness }
}

/// A claim that pays `value` to `payout` and leaves a fee anchor.
pub open spec fn claim_with(funding_outpoint: OutPoint, payout: Seq<u8>, value: u64, witness: Seq<Seq<u8>>) -> TransactionView {
    TransactionView {
        version: 3,
        lock_time: 0,
        input: seq![claim_input(funding_outpoint, witness)],
        output: seq![
            TxOutView { value, script_pubkey: payout },
            TxOutView { value: P2TR_DUST, script_pubkey: anchor_script() },
        ],
    }
}

/// Sixty-four zero bytes, which weigh what a signature does.
pub open spec fn blank_signature() -> Seq<u8> {
    Seq::new(64, |i: int| 0u8)
}

/// The weight of a signed claim.
pub open spec fn claim_weight(funding_outpoint: OutPoint, amount: u64, payout: Seq<u8>) -> nat {
    weight_of(claim_with(funding_outpoint, payout, amount, seq![blank_signature()]))
}

/// The fee of a claim.
pub open spec fn claim_fee(funding_outpoint: OutPoint, amount: u64, payout: Seq<u8>, fee_rate: u64) -> int {
    fee_at(fee_rate as int, claim_weight(funding_outpoint, amount, payout) as int)
}

/// What a claim pays: the locked amount less the anchor and the fee.
pub open spec fn claim_value(funding_outpoint: OutPoint, amount: u64, payout: Seq<u8>, fee_rate: u64) -> int {
    amount - P2TR_DUST - claim_fee(funding_outpoint, amount, payout, fee_rate)
}

/// Why a claim cannot be made, if it cannot.
pub open spec fn claim_refusal(funding_outpoint: OutPoint, amount: u64, payout: Seq<u8>, fee_rate: u64) -> Option<SwapError> {
    let value = claim_value(funding_outpoint, amount, payout, fee_rate);
    if fee_rate * claim_weight(funding_outpoint, amount, payout) + 999 > u64::MAX {
        Some(SwapError::ClaimFeeOverflow)
    } else if value < 0 {
        Some(SwapError::ClaimFeeExceedsAmount)
    } else if !standard(TxOutView { value: value as u64, script_pubkey: payout }) {
        Some(SwapError::ClaimOutputNonStandard)
    } else {
        None
    }
}

/// The unsigned claim.
pub open spec fn claim_of(funding_outpoint: OutPoint, amount: u64, payout: Seq<u8>, fee_rate: u64) -> TransactionView {
    claim_with(
        funding_outpoint,
        payout,
        claim_value(funding_outpoint, amount, payout, fee_rate) as u64,
        Seq::empty(),
    )
}

/// Sixty-four zero bytes.
pub fn blank_signature_bytes() -> (bytes: Vec<u8>)
    ensures
        bytes@ == blank_signature(),
{
    let mut bytes: Vec<u8> = Vec::new();
    let mut i: usize = 0;
    while i < 64
        invariant
            i <= 64,
            bytes@ == Seq::new(i as nat, |k: int| 0u8),
        decreases 64 - i,
    {
        bytes.push(0);
        assert(bytes@ =~= Seq::new((i + 1) as nat, |k: int| 0u8));
        i += 1;
    }
    bytes
}

/// A claim that pays `value` to `payout` and leaves a fee anchor.
fn claim_paying(funding_outpoint: OutPoint, payout: &Vec<u8>, value: u64, witness: Vec<Vec<u8>>) -> (tx: Transaction)
    ensures
        tx@ == claim_with(funding_outpoint, payout@, value, crate::bytes::byte_views(witness@)),
{
    let mut input: Vec<TxIn> = Vec::new();
    input.push(TxIn { previous_output: funding_outpoint, script_sig: Vec::new(), sequence: 0xffff_ffff, witness });
    let mut output: Vec<TxOut> = Vec::new();
    output.push(TxOut { value, script_pubkey: payout.clone() });
    output.push(fee_anchor_with_amount(P2TR_DUST));
    let tx = Transaction { version: 3, lock_time: 0, input, output };
    let ghost expected = claim_with(funding_outpoint, payout@, value, crate::bytes::byte_views(witness@));
    assert(tx@.input =~= expected.input);
    assert(tx@.output =~= expected.output);
    tx
}

/// The unsigned claim of a lock: the locked amount less the anchor and the fee goes to the payout
/// script.
pub fn build_cooperative_claim_tx(
    funding_outpoint: OutPoint,
    btc_lock: &BtcLockContract,
    btc_payout_script: Vec<u8>,
    fee_rate: u64,
) -> (claim: Result<Transaction, SwapError>)
    ensures
        match claim {
            Ok(found) => claim_refusal(funding_outpoint, btc_lock@.amount, btc_payout_script@, fee_rate) is None && found@
                == claim_of(funding_outpoint, btc_lock@.amount, btc_payout_script@, fee_rate),
            Err(error) => claim_refusal(funding_outpoint, btc_lock@.amount, btc_payout_script@, fee_rate) == Some(error),
        },
{
    let mut witness: Vec<Vec<u8>> = Vec::new();
    witness.push(blank_signature_bytes());
    assert(crate::bytes::byte_views(witness@) =~= seq![blank_signature()]);
    let fee_probe = claim_paying(funding_outpoint, &btc_payout_script, btc_lock.amount, witness);
    let fee: u64 = match checked_fee(fee_rate, weight(&fee_probe)) {
        Some(fee) => fee,
        None => return Err(SwapError::ClaimFeeOverflow),
    };
    if btc_lock.amount < P2TR_DUST || btc_lock.amount - P2TR_DUST < fee {
        return Err(SwapError::ClaimFeeExceedsAmount);
    }
    let no_witness: Vec<Vec<u8>> = Vec::new();
    assert(crate::bytes::byte_views(no_witness@) =~= Seq::<Seq<u8>>::empty());
    let tx = claim_paying(funding_outpoint, &btc_payout_script, btc_lock.amount - P2TR_DUST - fee, no_witness);
    assert(tx@.output.len() == tx.output@.len());
    assert(tx@.output[0] == tx.output[0]@);
    if !is_standard(&tx.output[0]) {
        return Err(SwapError::ClaimOutputNonStandard);
    }
    Ok(tx)
}

/// The hash that both parties sign of a claim.
pub fn cooperative_claim_sighash(claim_tx: &Transaction, btc_lock: &BtcLockContract) -> (hash: Result<[u8; 32], SwapError>)
    ensures
        match hash {
            Ok(found) => key_spend_sighash(claim_tx@, lock_output(btc_lock@)) == Some(found@),
            Err(error) => key_spend_sighash(claim_tx@, lock_output(btc_lock@)) is None && error
                == SwapError::SighashFailed,
        },
        hash is Ok <==> claim_tx@.input.len() == 1,
{
    match key_sighash(claim_tx, &btc_lock.txout()) {
        Some(hash) => Ok(hash),
        None => Err(SwapError::SighashFailed),
    }
}

/// What a claim pays, its anchor and its fee add up to the locked amount, and the payout is
/// standard.
pub proof fn law_claim_accounts_for_everything(funding_outpoint: OutPoint, amount: u64, payout: Seq<u8>, fee_rate: u64)
    requires
        claim_refusal(funding_outpoint, amount, payout, fee_rate) is None,
    ensures
        ({
            let claim = claim_of(funding_outpoint, amount, payout, fee_rate);
            &&& claim.output.len() == 2
            &&& claim.output[0].value + claim.output[1].value + claim_fee(funding_outpoint, amount, payout, fee_rate)
                == amount
            &&& claim.output[0].script_pubkey == payout
            &&& standard(claim.output[0])
            &&& claim.output[1].value == 330
            &&& claim.input.len() == 1 && claim.input[0].previous_output == funding_outpoint
            &&& stripped(claim) == claim
        }),
{
    let claim = claim_of(funding_outpoint, amount, payout, fee_rate);
    assert(fee_at(fee_rate as int, claim_weight(funding_outpoint, amount, payout) as int) >= 0) by {
        let w = claim_weight(funding_outpoint, amount, payout) as int;
        assert(fee_rate * w >= 0) by (nonlinear_arith)
            requires
                fee_rate >= 0,
                w >= 0,
        ;
    }
    assert(stripped(claim).input =~= claim.input);
}

/// The fee of a claim is the one of the claim that is built, as it weighs with any signature of 64
/// bytes.
pub proof fn law_claim_fee_is_of_the_signed_claim(
    funding_outpoint: OutPoint,
    amount: u64,
    payout: Seq<u8>,
    fee_rate: u64,
    signature: Seq<u8>,
)
    requires
        signature.len() == 64,
    ensures
        ({
            let claim = claim_of(funding_outpoint, amount, payout, fee_rate);
            claim_fee(funding_outpoint, amount, payout, fee_rate) == fee_at(
                fee_rate as int,
                weight_of(with_first_witness(claim, seq![signature])) as int,
            )
        }),
{
    let signed = with_first_witness(claim_of(funding_outpoint, amount, payout, fee_rate), seq![signature]);
    let probe = claim_with(funding_outpoint, payout, amount, seq![blank_signature()]);
    assert(input_lengths(signed)[0].1 =~= input_lengths(probe)[0].1);
    assert(input_lengths(signed) =~= input_lengths(probe));
    assert(output_lengths(signed) =~= output_lengths(probe));
}

/// A claim weighs 360 units and four for each byte of its payout script, where that has at most 252:
/// 496 units where it pays to a taproot script. So its fee and what it pays do not depend on what it
/// spends.
pub proof fn law_claim_weight(funding_outpoint: OutPoint, amount: u64, payout: Seq<u8>, fee_rate: u64)
    requires
        payout.len() < 0xfd,
    ensures
        claim_weight(funding_outpoint, amount, payout) == 360 + 4 * payout.len(),
        payout.len() == 34 ==> claim_value(funding_outpoint, amount, payout, fee_rate) == amount - 330 - fee_at(
            fee_rate as int,
            496,
        ),
{
    reveal(weight_of_lengths);
    reveal_with_fuel(strings_size, 3);
    reveal_with_fuel(witnesses_size, 2);
    let claim = claim_with(funding_outpoint, payout, amount, seq![blank_signature()]);
    let inputs = input_lengths(claim);
    assert(inputs[0].1 =~= seq![64nat]);
    assert(inputs =~= seq![(0nat, seq![64nat])]);
    assert(output_lengths(claim) =~= seq![payout.len(), 4nat]);
    assert(inputs.map_values(|input: (nat, Seq<nat>)| input.0) =~= seq![0nat]);
    assert(seq![(0nat, seq![64nat])].drop_last() =~= Seq::empty());
    assert(seq![64nat].drop_last() =~= Seq::<nat>::empty());
    assert(seq![0nat].drop_last() =~= Seq::<nat>::empty());
    assert(seq![payout.len(), 4nat].drop_last() =~= seq![payout.len()]);
    assert(seq![payout.len()].drop_last() =~= Seq::<nat>::empty());
    assert(strings_size(seq![64nat]) == 65);
    assert(strings_size(seq![payout.len(), 4nat]) == payout.len() + 6);
    assert(count_size(1) == 1 && count_size(2) == 1);
}

/// Whether two different claims of locks have one hash.
pub open spec fn hashes_collide(a: TransactionView, a_lock: LockView, b: TransactionView, b_lock: LockView) -> bool {
    &&& (unsigned(a), lock_output(a_lock)) != (unsigned(b), lock_output(b_lock))
    &&& key_spend_sighash(a, lock_output(a_lock)) == key_spend_sighash(b, lock_output(b_lock))
}

/// The hash of a claim binds what it spends, what it pays and leaves, and the locked amount: a claim
/// that differs in one of them has another hash, short of a collision.
pub proof fn law_claim_hash_binds(a: TransactionView, a_lock: LockView, b: TransactionView, b_lock: LockView)
    requires
        a.input.len() == 1 && b.input.len() == 1,
        a.output.len() == 2 && b.output.len() == 2,
        a.input[0].previous_output != b.input[0].previous_output || a.output[0] != b.output[0] || a.output[1]
            != b.output[1] || a_lock.amount != b_lock.amount,
        !hashes_collide(a, a_lock, b, b_lock),
    ensures
        key_spend_sighash(a, lock_output(a_lock)) != key_spend_sighash(b, lock_output(b_lock)),
{
    if unsigned(a) == unsigned(b) {
        assert(unsigned(a).input[0].previous_output == a.input[0].previous_output);
        assert(unsigned(b).input[0].previous_output == b.input[0].previous_output);
        assert(unsigned(a).output == a.output && unsigned(b).output == b.output);
    }
}

/// The hash of a claim does not depend on its witness: it is the same once the claim is signed.
pub proof fn law_claim_hash_ignores_the_witness(claim: TransactionView, lock: LockView, witness: Seq<Seq<u8>>)
    requires
        claim.input.len() == 1,
    ensures
        key_spend_sighash(with_first_witness(claim, witness), lock_output(lock)) == key_spend_sighash(
            claim,
            lock_output(lock),
        ),
{
    assert(unsigned(with_first_witness(claim, witness)).input =~= unsigned(claim).input);
}

/// A claim is refused only where its fee does not fit into 64 bits, or exceeds with the anchor what is
/// locked, or its payout would be no standard output.
pub proof fn law_claim_is_refused_for_a_reason(funding_outpoint: OutPoint, amount: u64, payout: Seq<u8>, fee_rate: u64)
    requires
        payout.len() < 0xfd,
    ensures
        ({
            let units = fee_rate * (360 + 4 * payout.len()) + 999;
            let value = amount - 330 - units / 1000;
            claim_refusal(funding_outpoint, amount, payout, fee_rate) is None <==> units <= u64::MAX && value >= 0
                && standard(TxOutView { value: value as u64, script_pubkey: payout })
        }),
{
    law_claim_weight(funding_outpoint, amount, payout, fee_rate);
}

} // verus!
