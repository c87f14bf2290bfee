//! The refund: the transaction by which the BTC payer alone takes the lock back.

use bitcoin::absolute::LockTime;
use bitcoin::hashes::Hash as _;
use bitcoin::sighash::{Prevouts, ScriptPath, SighashCache, TapSighashType};
use bitcoin::transaction::Version;
use bitcoin::{OutPoint as BtcOutPoint, Transaction as BtcTransaction, TxIn as BtcTxIn, TxOut as BtcTxOut};
use bitcoin::{Amount, Script, Sequence, Txid};
use vstd::prelude::*;

use crate::bytes::byte_views;
use crate::claim::{blank_signature, blank_signature_bytes};
use crate::error::SwapError;
use crate::fee::{checked_fee, fee_at, law_fee_grows_strictly, law_fee_grows_with_rate};
use crate::keys::{point_of, schnorr_valid, SecretKey};
use crate::lock::{
    lock_control_block, lock_output, taproot_control_block, BtcLockContract, LockView, ENABLE_RBF_NO_LOCKTIME,
};
use crate::script::{is_standard, standard, LOCK_TIME_THRESHOLD};
use crate::tx::{
    input_lengths, lemma_least_weight, output_lengths, stripped, unsigned, weight, weight_of, OutPoint, Transaction, TransactionView, TxIn,
    TxInView, TxOut, TxOutView,
};

verus! {

/// The hash that a taproot script spend of the first input signs, where the transaction, without the
/// scripts and witnesses of its inputs, has exactly one input.
pub uninterp spec fn script_spend_hash(unsigned_tx: TransactionView, prevout: TxOutView, script: Seq<u8>) -> Option<Seq<u8>>;

/// The hash that a taproot script spend of the first input signs, where the transaction has
/// exactly one input.
pub open spec fn script_spend_sighash(tx: TransactionView, prevout: TxOutView, script: Seq<u8>) -> Option<Seq<u8>> {
    script_spend_hash(unsigned(tx), prevout, script)
}

/// `SighashCache::taproot_script_spend_signature_hash` of the first input with the default hash
/// type, for a transaction whose only prevout is given and a script of the tapscript version. It
/// depends on no `scriptSig` and no witness, which are left out.
#[verifier::external_body]
fn script_sighash(tx: &Transaction, prevout: &TxOut, script: &[u8]) -> (hash: Option<[u8; 32]>)
    ensures
        match hash {
            Some(found) => script_spend_hash(unsigned(tx@), prevout@, script@) == Some(found@),
            None => script_spend_hash(unsigned(tx@), prevout@, script@) is None,
        },
        hash is Some <==> tx@.input.len() == 1,
{
    let out = |from: &TxOut| BtcTxOut {
        value: Amount::from_sat(from.value), script_pubkey: from.script_pubkey.clone().into() };
    let tx = BtcTransaction {
        version: Version(tx.version), lock_time: LockTime::from_consensus(tx.lock_time),
        input: tx.input.iter().map(|from| BtcTxIn {
            previous_output: BtcOutPoint::new(
                Txid::from_byte_array(from.previous_output.txid), from.previous_output.vout),
            sequence: Sequence(from.sequence), ..Default::default()
        }).collect(),
        output: tx.output.iter().map(out).collect() };
    Some(SighashCache::new(&tx).taproot_script_spend_signature_hash(
        0, &Prevouts::All(&[out(prevout)]), ScriptPath::with_defaults(Script::from_bytes(script)),
        TapSighashType::Default).ok()?.to_byte_array())
}

/// A refund that pays `value` to `destination`.
pub open spec fn refund_with(
    funding_outpoint: OutPoint,
    refund_height: u32,
    destination: Seq<u8>,
    value: u64,
    witness: Seq<Seq<u8>>,
) -> TransactionView {
    TransactionView {
        version: 2,
        lock_time: refund_height,
        input: seq![
            TxInView {
                previous_output: funding_outpoint,
                script_sig: Seq::empty(),
                sequence: ENABLE_RBF_NO_LOCKTIME,
                witness,
            },
        ],
        output: seq![TxOutView { value, script_pubkey: destination }],
    }
}

/// The witness of a refund.
pub open spec fn refund_witness(signature: Seq<u8>, lock: LockView) -> Seq<Seq<u8>> {
    seq![signature, lock.refund_script, lock_control_block(lock.taproot, lock.refund_script)->0]
}

/// The weight of a signed refund.
pub open spec fn refund_weight(funding_outpoint: OutPoint, lock: LockView, destination: Seq<u8>) -> nat {
    weight_of(
        refund_with(
            funding_outpoint,
            lock.refund_height,
            destination,
            lock.amount,
            refund_witness(blank_signature(), lock),
        ),
    )
}

/// What a refund pays: the locked amount less the fee.
pub open spec fn refund_value(funding_outpoint: OutPoint, lock: LockView, destination: Seq<u8>, fee_rate: u64) -> int {
    lock.amount - fee_at(fee_rate as int, refund_weight(funding_outpoint, lock, destination) as int)
}

/// Why a refund cannot be made, if it cannot.
pub open spec fn refund_refusal(funding_outpoint: OutPoint, lock: LockView, destination: Seq<u8>, fee_rate: u64) -> Option<
    SwapError,
> {
    let value = refund_value(funding_outpoint, lock, destination, fee_rate);
    if lock.refund_height >= LOCK_TIME_THRESHOLD {
        Some(SwapError::InvalidRefundHeight)
    } else if lock_control_block(lock.taproot, lock.refund_script) is None {
        Some(SwapError::RefundScriptMissing)
    } else if fee_rate * refund_weight(funding_outpoint, lock, destination) + 999 > u64::MAX {
        Some(SwapError::RefundFeeOverflow)
    } else if value < 0 {
        Some(SwapError::RefundFeeExceedsAmount)
    } else if !standard(TxOutView { value: value as u64, script_pubkey: destination }) {
        Some(SwapError::RefundOutputNonStandard)
    } else {
        None
    }
}

/// The unsigned refund.
pub open spec fn refund_of(funding_outpoint: OutPoint, lock: LockView, destination: Seq<u8>, fee_rate: u64) -> TransactionView {
    refund_with(
        funding_outpoint,
        lock.refund_height,
        destination,
        refund_value(funding_outpoint, lock, destination, fee_rate) as u64,
        Seq::empty(),
    )
}

/// A refund that pays `value` to `destination`.
fn refund_paying(
    funding_outpoint: OutPoint,
    refund_height: u32,
    destination: &Vec<u8>,
    value: u64,
    witness: Vec<Vec<u8>>,
) -> (tx: Transaction)
    ensures
        tx@ == refund_with(funding_outpoint, refund_height, destination@, value, byte_views(witness@)),
{
    let mut input: Vec<TxIn> = Vec::new();
    input.push(
        TxIn {
            previous_output: funding_outpoint,
            script_sig: Vec::new(),
            sequence: ENABLE_RBF_NO_LOCKTIME,
            witness,
        },
    );
    let mut output: Vec<TxOut> = Vec::new();
    output.push(TxOut { value, script_pubkey: destination.clone() });
    let tx = Transaction { version: 2, lock_time: refund_height, input, output };
    let ghost expected = refund_with(funding_outpoint, refund_height, destination@, value, byte_views(witness@));
    assert(tx@.input =~= expected.input);
    assert(tx@.output =~= expected.output);
    tx
}

/// The unsigned refund of a lock: the locked amount less the fee goes to the destination.
pub fn build_refund_tx(
    funding_outpoint: OutPoint,
    btc_lock: &BtcLockContract,
    refund_script_pubkey: Vec<u8>,
    fee_rate: u64,
) -> (refund: Result<Transaction, SwapError>)
    ensures
        match refund {
            Ok(found) => refund_refusal(funding_outpoint, btc_lock@, refund_script_pubkey@, fee_rate) is None && found@
                == refund_of(funding_outpoint, btc_lock@, refund_script_pubkey@, fee_rate),
            Err(error) => refund_refusal(funding_outpoint, btc_lock@, refund_script_pubkey@, fee_rate) == Some(error),
        },
{
    if btc_lock.refund_height >= LOCK_TIME_THRESHOLD {
        return Err(SwapError::InvalidRefundHeight);
    }
    let control_block = match btc_lock.taproot.control_block(&btc_lock.refund_script) {
        Some(block) => block,
        None => return Err(SwapError::RefundScriptMissing),
    };
    let mut witness: Vec<Vec<u8>> = Vec::new();
    witness.push(blank_signature_bytes());
    witness.push(btc_lock.refund_script.clone());
    witness.push(control_block);
    assert(byte_views(witness@) =~= refund_witness(blank_signature(), btc_lock@));
    let fee_probe = refund_paying(
        funding_outpoint,
        btc_lock.refund_height,
        &refund_script_pubkey,
        btc_lock.amount,
        witness,
    );
    let fee: u64 = match checked_fee(fee_rate, weight(&fee_probe)) {
        Some(fee) => fee,
        None => return Err(SwapError::RefundFeeOverflow),
    };
    if btc_lock.amount < fee {
        return Err(SwapError::RefundFeeExceedsAmount);
    }
    let no_witness: Vec<Vec<u8>> = Vec::new();
    assert(byte_views(no_witness@) =~= Seq::<Seq<u8>>::empty());
    let tx = refund_paying(
        funding_outpoint,
        btc_lock.refund_height,
        &refund_script_pubkey,
        btc_lock.amount - fee,
        no_witness,
    );
    assert(tx@.output.len() == tx.output@.len());
    assert(tx@.output[0] == tx.output[0]@);
    if !is_standard(&tx.output[0]) {
        return Err(SwapError::RefundOutputNonStandard);
    }
    Ok(tx)
}

/// A transaction with another witness of its first input.
pub open spec fn with_first_witness(tx: TransactionView, witness: Seq<Seq<u8>>) -> TransactionView {
    TransactionView { input: tx.input.update(0, TxInView { witness, ..tx.input[0] }), ..tx }
}

/// Puts `witness` on the first input.
pub fn set_first_witness(tx: Transaction, witness: Vec<Vec<u8>>) -> (signed: Transaction)
    requires
        tx@.input.len() > 0,
    ensures
        signed@ == with_first_witness(tx@, byte_views(witness@)),
{
    let ghost before = tx@;
    let mut signed = tx;
    let first = TxIn {
        previous_output: signed.input[0].previous_output,
        script_sig: signed.input[0].script_sig.clone(),
        sequence: signed.input[0].sequence,
        witness,
    };
    assert(first@ =~= (TxInView { witness: byte_views(witness@), ..before.input[0] })) by {
        assert(before.input[0] == tx.input[0]@);
    }
    signed.input.set(0, first);
    assert(signed@.input =~= with_first_witness(before, byte_views(witness@)).input);
    signed
}

/// Whether a signature of 64 bytes signs a refund for the key of a secret.
pub open spec fn signs_refund(signature: Seq<u8>, refund: TransactionView, lock: LockView, secret: Seq<u8>) -> bool {
    &&& signature.len() == 64
    &&& schnorr_valid(
        signature,
        script_spend_sighash(refund, lock_output(lock), lock.refund_script)->0,
        point_of(secret).subrange(1, 33),
    )
}

/// Signs a refund with the refund key alone.
pub fn sign_refund_tx(refund_tx: Transaction, btc_lock: &BtcLockContract, refund_key: &SecretKey) -> (refund: Result<
    Transaction,
    SwapError,
>)
    ensures
        match refund {
            Ok(found) => {
                &&& lock_control_block(btc_lock@.taproot, btc_lock@.refund_script) is Some
                &&& unsigned(found@) == unsigned(refund_tx@)
                &&& script_spend_sighash(refund_tx@, lock_output(btc_lock@), btc_lock@.refund_script) is Some
                &&& exists|signature: Seq<u8>|
                    #![trigger signs_refund(signature, refund_tx@, btc_lock@, refund_key@)]
                    signs_refund(signature, refund_tx@, btc_lock@, refund_key@) && found@ == with_first_witness(
                        refund_tx@,
                        refund_witness(signature, btc_lock@),
                    )
            },
            Err(error) => {
                ||| lock_control_block(btc_lock@.taproot, btc_lock@.refund_script) is None && error
                    == SwapError::RefundScriptMissing
                ||| lock_control_block(btc_lock@.taproot, btc_lock@.refund_script) is Some && script_spend_sighash(
                    refund_tx@,
                    lock_output(btc_lock@),
                    btc_lock@.refund_script,
                ) is None && error == SwapError::SighashFailed
            },
        },
        refund is Ok <==> refund_tx@.input.len() == 1 && lock_control_block(
            btc_lock@.taproot,
            btc_lock@.refund_script,
        ) is Some,
{
    let control_block = match btc_lock.taproot.control_block(&btc_lock.refund_script) {
        Some(block) => block,
        None => return Err(SwapError::RefundScriptMissing),
    };
    let sighash = match script_sighash(&refund_tx, &btc_lock.txout(), btc_lock.refund_script.as_slice()) {
        Some(hash) => hash,
        None => return Err(SwapError::SighashFailed),
    };
    let signature = refund_key.sign(&sighash);
    let mut first: Vec<u8> = Vec::new();
    first.extend_from_slice(signature.as_slice());
    assert(first@ =~= signature@);
    let mut witness: Vec<Vec<u8>> = Vec::new();
    witness.push(first);
    witness.push(btc_lock.refund_script.clone());
    witness.push(control_block);
    assert(byte_views(witness@) =~= refund_witness(signature@, btc_lock@));
    assert(signs_refund(signature@, refund_tx@, btc_lock@, refund_key@));
    let signed = set_first_witness(refund_tx, witness);
    assert(unsigned(signed@).input =~= unsigned(refund_tx@).input);
    Ok(signed)
}

/// A refund at a higher rate pays the BTC payer no more, and spends the same lock at the same
/// height to the same destination.
pub proof fn law_repriced_refund_pays_no_more(
    funding_outpoint: OutPoint,
    lock: LockView,
    destination: Seq<u8>,
    low: u64,
    high: u64,
)
    requires
        low <= high,
        refund_refusal(funding_outpoint, lock, destination, low) is None,
        refund_refusal(funding_outpoint, lock, destination, high) is None,
    ensures
        ({
            let original = refund_of(funding_outpoint, lock, destination, low);
            let replacement = refund_of(funding_outpoint, lock, destination, high);
            &&& replacement.output[0].value <= original.output[0].value <= lock.amount
            &&& replacement.input == original.input
            &&& replacement.output[0].script_pubkey == destination
            &&& original.output[0].script_pubkey == destination
            &&& replacement.lock_time == original.lock_time == lock.refund_height
        }),
{
    let w = refund_weight(funding_outpoint, lock, destination) as int;
    law_fee_grows_with_rate(low as int, high as int, w);
    law_fee_grows_with_rate(0, low as int, w);
    assert(0 * w == 0);
}

/// A refund at a rate that is higher by at least one satoshi per virtual byte pays the BTC payer less,
/// and is another transaction: what its identifier hashes differs.
pub proof fn law_repriced_refund_pays_less(
    funding_outpoint: OutPoint,
    lock: LockView,
    destination: Seq<u8>,
    low: u64,
    high: u64,
)
    requires
        low + 250 <= high,
        refund_refusal(funding_outpoint, lock, destination, low) is None,
        refund_refusal(funding_outpoint, lock, destination, high) is None,
    ensures
        ({
            let original = refund_of(funding_outpoint, lock, destination, low);
            let replacement = refund_of(funding_outpoint, lock, destination, high);
            &&& replacement.output[0].value < original.output[0].value
            &&& stripped(replacement) != stripped(original)
            &&& TransactionView { output: original.output, ..replacement } == original
        }),
{
    let w = refund_weight(funding_outpoint, lock, destination) as int;
    lemma_least_weight(
        refund_with(
            funding_outpoint,
            lock.refund_height,
            destination,
            lock.amount,
            refund_witness(blank_signature(), lock),
        ),
    );
    assert((high - low) * w >= 1000) by (nonlinear_arith)
        requires
            high - low >= 250,
            w >= 40,
    ;
    law_fee_grows_strictly(low as int, high as int, w);
    law_fee_grows_with_rate(0, low as int, w);
    assert(0 * w == 0);
    let original = refund_of(funding_outpoint, lock, destination, low);
    let replacement = refund_of(funding_outpoint, lock, destination, high);
    assert(stripped(replacement).output == replacement.output && stripped(original).output == original.output);
    assert(replacement.output[0].value < original.output[0].value);
}

/// The fee of a refund is the one of the refund that is built, as it weighs with any signature of 64
/// bytes.
pub proof fn law_refund_fee_is_of_the_signed_refund(
    funding_outpoint: OutPoint,
    lock: LockView,
    destination: Seq<u8>,
    fee_rate: u64,
    signature: Seq<u8>,
)
    requires
        signature.len() == 64,
    ensures
        ({
            let refund = refund_of(funding_outpoint, lock, destination, fee_rate);
            lock.amount - refund_value(funding_outpoint, lock, destination, fee_rate) == fee_at(
                fee_rate as int,
                weight_of(with_first_witness(refund, refund_witness(signature, lock))) as int,
            )
        }),
{
    let signed = with_first_witness(
        refund_of(funding_outpoint, lock, destination, fee_rate),
        refund_witness(signature, lock),
    );
    let probe = refund_with(
        funding_outpoint,
        lock.refund_height,
        destination,
        lock.amount,
        refund_witness(blank_signature(), lock),
    );
    assert(input_lengths(signed)[0].1 =~= input_lengths(probe)[0].1);
    assert(input_lengths(signed) =~= input_lengths(probe));
    assert(output_lengths(signed) =~= output_lengths(probe));
}

/// The hash that a refund signs does not depend on its witness: it is the same once the refund is
/// signed.
pub proof fn law_refund_hash_ignores_the_witness(refund: TransactionView, lock: LockView, witness: Seq<Seq<u8>>)
    requires
        refund.input.len() == 1,
    ensures
        script_spend_sighash(with_first_witness(refund, witness), lock_output(lock), lock.refund_script)
            == script_spend_sighash(refund, lock_output(lock), lock.refund_script),
{
    assert(unsigned(with_first_witness(refund, witness)).input =~= unsigned(refund).input);
}

/// A refund spends the lock alone, from the refund height on, and accounts for everything: what it pays to
/// its only output and its fee are the locked amount.
pub proof fn law_refund_accounts_for_everything(
    funding_outpoint: OutPoint,
    lock: LockView,
    destination: Seq<u8>,
    fee_rate: u64,
    signature: Seq<u8>,
)
    requires
        signature.len() == 64,
        refund_refusal(funding_outpoint, lock, destination, fee_rate) is None,
    ensures
        ({
            let refund = refund_of(funding_outpoint, lock, destination, fee_rate);
            let signed = with_first_witness(refund, refund_witness(signature, lock));
            &&& refund.output.len() == 1 && refund.output[0].script_pubkey == destination && standard(refund.output[0])
            &&& refund.output[0].value + (fee_rate * weight_of(signed) + 999) / 1000 == lock.amount
            &&& refund.input.len() == 1 && refund.input[0].previous_output == funding_outpoint
            &&& refund.lock_time == lock.refund_height && refund.lock_time < 500_000_000
            &&& refund.input[0].sequence == 0xffff_fffd && refund.version == 2
            &&& stripped(refund) == refund
            &&& signed.input[0].witness.len() == 3 && signed.input[0].witness[0] == signature
            &&& signed.input[0].witness[1] == lock.refund_script
            &&& signed.input[0].witness[2] == taproot_control_block(lock.taproot.internal, lock.taproot.leaf)
        }),
{
    law_refund_fee_is_of_the_signed_refund(funding_outpoint, lock, destination, fee_rate, signature);
    let refund = refund_of(funding_outpoint, lock, destination, fee_rate);
    let w = refund_weight(funding_outpoint, lock, destination) as int;
    assert(fee_rate * w >= 0) by (nonlinear_arith)
        requires
            fee_rate >= 0,
            w >= 0,
    ;
    assert(stripped(refund).input =~= refund.input);
}

/// A refund is refused only where its height is none of blocks, its script is not that of the lock, its fee
/// does not fit into 64 bits or exceeds the lock, or its output would be no standard one.
pub proof fn law_refund_is_refused_for_a_reason(
    funding_outpoint: OutPoint,
    lock: LockView,
    destination: Seq<u8>,
    fee_rate: u64,
)
    requires
        lock.refund_height < 500_000_000,
        lock.taproot.leaf == lock.refund_script,
        ({
            let weight = refund_weight(funding_outpoint, lock, destination);
            let value = lock.amount - (fee_rate * weight + 999) / 1000;
            fee_rate * weight + 999 <= u64::MAX && value >= 0 && standard(
                TxOutView { value: value as u64, script_pubkey: destination },
            )
        }),
    ensures
        refund_refusal(funding_outpoint, lock, destination, fee_rate) is None,
{
}

} // verus!
