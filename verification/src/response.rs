//! What a request and a response have to say: the funding template, the lock, the claim and the
//! Ark package are all recomputed from the request and the terms.

use vstd::prelude::*;

use crate::address::{address_of_text, parse_address, Network};
use crate::adaptor::adaptor_valid;
use crate::ark_types::{ark_address_of_text, parse_ark_address};
use crate::artifacts::{BtcArkRequestArtifact, RequestView};
use crate::bytes::{bytes_eq, text_views};
use crate::chain::{answer_views, read_tip, tip_at, AnswerView, ChainAnswer, CheckStep};
use crate::claim::{
    build_cooperative_claim_tx, claim_of, claim_refusal, cooperative_claim_sighash, key_spend_sighash,
    law_claim_accounts_for_everything, law_claim_weight,
};
use crate::error::SwapError;
use crate::fee::fee_rate_from_sat_vb;
use crate::hex::{bytes32_from_hex, hex_value, script_from_hex};
use crate::keys::{is_xonly_key, public_key_of_text, PublicKey, XOnlyPublicKey};
use crate::lock::{
    lock_key, lock_of, lock_output, lock_possible, lock_tweak, taproot_accepts, BtcLockContract, LockView,
};
use crate::musig::{aggregate_key, is_public_nonce, public_nonce_from_hex};
use crate::offer::{
    acceptance, law_acceptance_is_exact, vouches_for, verify_ark_transfer_before_acceptance, verify_ark_transfer_offer, ArkOffer, ArkTransfer,
    ArkTransferAcceptanceOptions, OfferView, TransferVerdict, TransferView,
};
use crate::relay::{offer_of_text, package_of_text, RelayFile, RelayView};
use crate::script::{is_p2tr, p2tr, timelock_script, LOCK_TIME_THRESHOLD};
use crate::swap_id::swap_id_value;
use crate::tx::{
    output_views, stripped, sum_outputs, total_value, tx_from_hex, tx_of_hex, txid_of, txid_text, txid_to_string,
    txout_from_hex, txout_of_hex, without_witness, OutPoint, Transaction, TransactionView, TxOut, TxOutView,
};
use crate::validation::{funding_inputs, verify_funding_inputs};

verus! {

/// Whether no input of a transaction is signed.
pub open spec fn bare(tx: TransactionView) -> bool {
    tx.input.len() > 0 && forall|i: int|
        0 <= i < tx.input.len() ==> (#[trigger] tx.input[i]).script_sig.len() == 0 && tx.input[i].witness.len() == 0
}

/// Whether no input of a transaction is signed.
fn is_bare(tx: &Transaction) -> (found: bool)
    ensures
        found == bare(tx@),
{
    assert(tx@.input.len() == tx.input@.len());
    if tx.input.len() == 0 {
        return false;
    }
    let mut i: usize = 0;
    while i < tx.input.len()
        invariant
            i <= tx.input.len(),
            forall|k: int|
                0 <= k < i ==> (#[trigger] tx@.input[k]).script_sig.len() == 0 && tx@.input[k].witness.len() == 0,
        decreases tx.input.len() - i,
    {
        assert(tx@.input[i as int] == tx.input[i as int]@);
        if tx.input[i].script_sig.len() != 0 || tx.input[i].witness.len() != 0 {
            return false;
        }
        i += 1;
    }
    true
}

/// The outputs that some texts write, if each writes one.
pub open spec fn txouts_of(texts: Seq<Seq<char>>) -> Option<Seq<TxOutView>> {
    if forall|i: int| 0 <= i < texts.len() ==> txout_of_hex(#[trigger] texts[i]) is Some {
        Some(texts.map_values(|text: Seq<char>| txout_of_hex(text)->0))
    } else {
        None
    }
}

/// The outputs that some texts write.
fn parse_txouts(texts: &Vec<String>) -> (outputs: Result<Vec<TxOut>, SwapError>)
    ensures
        match outputs {
            Ok(found) => txouts_of(text_views(texts@)) == Some(output_views(found@)),
            Err(error) => txouts_of(text_views(texts@)) is None && error == SwapError::InvalidOutput,
        },
{
    let ghost views = text_views(texts@);
    let mut outputs: Vec<TxOut> = Vec::new();
    let mut i: usize = 0;
    while i < texts.len()
        invariant
            i <= texts.len(),
            views == text_views(texts@),
            outputs.len() == i,
            forall|k: int| 0 <= k < i ==> txout_of_hex(#[trigger] views[k]) == Some(outputs[k]@),
        decreases texts.len() - i,
    {
        assert(views[i as int] == texts[i as int]@);
        match txout_from_hex(texts[i].as_str()) {
            Ok(output) => outputs.push(output),
            Err(error) => return Err(error),
        }
        i += 1;
    }
    proof {
        let found = output_views(outputs@);
        assert forall|k: int| 0 <= k < views.len() implies txout_of_hex(#[trigger] views[k])->0 == found[k] by {
            assert(found[k] == outputs[k]@);
        }
        assert(views.map_values(|text: Seq<char>| txout_of_hex(text)->0) =~= found);
    }
    Ok(outputs)
}

/// The funding template of a request with its prevouts, or why it is not taken.
pub open spec fn template_of(request: RequestView) -> Result<(TransactionView, Seq<TxOutView>), SwapError> {
    match tx_of_hex(request.funding_template_hex) {
        None => Err(SwapError::InvalidTransaction),
        Some(tx) => if tx.lock_time >= LOCK_TIME_THRESHOLD || tx.lock_time > request.created_height {
            Err(SwapError::TemplateTimelocked)
        } else if !bare(tx) {
            Err(SwapError::TemplateSigned)
        } else if request.funding_output_index >= tx.output.len() {
            Err(SwapError::TemplateSlot)
        } else if tx.output[request.funding_output_index as int].value != request.amount_sat || !p2tr(
            tx.output[request.funding_output_index as int].script_pubkey,
        ) {
            Err(SwapError::TemplatePlaceholder)
        } else {
            match txouts_of(request.funding_prevouts_hex) {
                None => Err(SwapError::InvalidOutput),
                Some(prevouts) => if prevouts.len() != tx.input.len() {
                    Err(SwapError::FundingPrevoutCount)
                } else if total_value(prevouts) > u64::MAX || total_value(tx.output) > u64::MAX {
                    Err(SwapError::AmountOverflow)
                } else if total_value(prevouts) <= total_value(tx.output) {
                    Err(SwapError::TemplateFeeMissing)
                } else {
                    Ok((tx, prevouts))
                },
            }
        },
    }
}

/// The funding template of a request with its prevouts.
pub fn funding_template(request: &BtcArkRequestArtifact) -> (template: Result<(Transaction, Vec<TxOut>), SwapError>)
    ensures
        match template {
            Ok(found) => template_of(request@) == Ok::<(TransactionView, Seq<TxOutView>), SwapError>(
                (found.0@, output_views(found.1@)),
            ),
            Err(error) => template_of(request@) == Err::<(TransactionView, Seq<TxOutView>), SwapError>(error),
        },
{
    let tx = match tx_from_hex(request.funding_template_hex.as_str()) {
        Ok(tx) => tx,
        Err(error) => return Err(error),
    };
    if tx.lock_time >= LOCK_TIME_THRESHOLD || tx.lock_time > request.created_height {
        return Err(SwapError::TemplateTimelocked);
    }
    if !is_bare(&tx) {
        return Err(SwapError::TemplateSigned);
    }
    let slot: usize = request.funding_output_index as usize;
    assert(tx@.output.len() == tx.output@.len());
    if slot >= tx.output.len() {
        return Err(SwapError::TemplateSlot);
    }
    assert(tx@.output[slot as int] == tx.output[slot as int]@);
    if tx.output[slot].value != request.amount_sat || !is_p2tr(tx.output[slot].script_pubkey.as_slice()) {
        return Err(SwapError::TemplatePlaceholder);
    }
    let prevouts = match parse_txouts(&request.funding_prevouts_hex) {
        Ok(prevouts) => prevouts,
        Err(error) => return Err(error),
    };
    assert(output_views(prevouts@).len() == prevouts@.len());
    assert(tx@.input.len() == tx.input@.len());
    if prevouts.len() != tx.input.len() {
        return Err(SwapError::FundingPrevoutCount);
    }
    let incoming: u64 = match sum_outputs(&prevouts) {
        Ok(sum) => sum,
        Err(error) => return Err(error),
    };
    let outgoing: u64 = match sum_outputs(&tx.output) {
        Ok(sum) => sum,
        Err(error) => return Err(error),
    };
    if incoming <= outgoing {
        return Err(SwapError::TemplateFeeMissing);
    }
    Ok((tx, prevouts))
}

/// Why the numbers of a request are not taken at any height, if they are not.
pub open spec fn request_refusal(request: RequestView) -> Option<SwapError> {
    if request.amount_sat == 0 || request.minimum_funding_confirmations == 0 || request.safety_margin_blocks == 0 {
        Some(SwapError::InvalidSafetyParameters)
    } else if request.safety_margin_blocks < request.minimum_funding_confirmations {
        Some(SwapError::MarginBelowConfirmations)
    } else {
        None
    }
}

/// Why the heights of a request are not taken at a tip, if they are not.
pub open spec fn height_refusal(request: RequestView, tip: u32) -> Option<SwapError> {
    if request.created_height > tip || request.refund_height >= LOCK_TIME_THRESHOLD {
        Some(SwapError::InvalidRequestHeight)
    } else if tip + request.minimum_funding_confirmations + request.safety_margin_blocks > u32::MAX {
        Some(SwapError::HeightOverflow)
    } else if tip + request.minimum_funding_confirmations + request.safety_margin_blocks >= request.refund_height {
        Some(SwapError::WindowTooShort)
    } else {
        None
    }
}

/// Why the rate, the keys or the nonce of a request are not taken, if they are not.
pub open spec fn key_refusal(request: RequestView) -> Option<SwapError> {
    if request.fee_rate_sat_vb == 0 {
        Some(SwapError::FeeRateZero)
    } else if request.fee_rate_sat_vb > u32::MAX {
        Some(SwapError::FeeRateTooLarge)
    } else if public_key_of_text(request.btc_payer_claim_pubkey) is None || xonly_of_text(request.btc_refund_pubkey)
        is None {
        Some(SwapError::InvalidPublicKey)
    } else {
        match hex_value(request.btc_payer_public_nonce_hex) {
            None => Some(SwapError::InvalidHex),
            Some(bytes) => if is_public_nonce(bytes) {
                None
            } else {
                Some(SwapError::InvalidPublicNonce)
            },
        }
    }
}

/// The x-only key that a text writes, if it writes one.
pub open spec fn xonly_of_text(text: Seq<char>) -> Option<Seq<u8>> {
    match hex_value(text) {
        Some(bytes) if bytes.len() == 32 && is_xonly_key(bytes) => Some(bytes),
        _ => None,
    }
}

/// How far the check of a request has come.
pub open spec fn request_check(log: Seq<AnswerView>, request: RequestView) -> CheckStep {
    if request_refusal(request) is Some {
        CheckStep::Fail(request_refusal(request)->0)
    } else {
        match tip_at(log, 0) {
            Err(step) => step,
            Ok(tip) => if height_refusal(request, tip.height) is Some {
                CheckStep::Fail(height_refusal(request, tip.height)->0)
            } else {
                match template_of(request) {
                    Err(error) => CheckStep::Fail(error),
                    Ok((tx, prevouts)) => match funding_inputs(log, 1, tx.input, prevouts) {
                        CheckStep::Pass => match key_refusal(request) {
                            Some(error) => CheckStep::Fail(error),
                            None => CheckStep::Pass,
                        },
                        step => step,
                    },
                }
            },
        }
    }
}

/// Checks the rate, the keys and the nonce of a request.
fn check_keys(request: &BtcArkRequestArtifact) -> (result: Result<(), SwapError>)
    ensures
        match result {
            Ok(()) => key_refusal(request@) is None,
            Err(error) => key_refusal(request@) == Some(error),
        },
{
    match fee_rate_from_sat_vb(request.fee_rate_sat_vb) {
        Ok(_) => {},
        Err(error) => return Err(error),
    }
    match PublicKey::from_str(request.btc_payer_claim_pubkey.as_str()) {
        Ok(_) => {},
        Err(error) => return Err(error),
    }
    match XOnlyPublicKey::from_str(request.btc_refund_pubkey.as_str()) {
        Ok(_) => {},
        Err(error) => return Err(error),
    }
    match public_nonce_from_hex(request.btc_payer_public_nonce_hex.as_str()) {
        Ok(_) => Ok(()),
        Err(error) => Err(error),
    }
}

/// Checks a request against the live chain: its safety parameters, the time that is left, its
/// funding template and inputs, its rate, keys and nonce.
pub fn validate_request(log: &Vec<ChainAnswer>, request: &BtcArkRequestArtifact) -> (step: CheckStep)
    ensures
        step == request_check(answer_views(log@), request@),
{
    if request.amount_sat == 0 || request.minimum_funding_confirmations == 0 || request.safety_margin_blocks == 0 {
        return CheckStep::Fail(SwapError::InvalidSafetyParameters);
    }
    if request.safety_margin_blocks < request.minimum_funding_confirmations {
        return CheckStep::Fail(SwapError::MarginBelowConfirmations);
    }
    let tip = match read_tip(log, 0) {
        Ok(tip) => tip,
        Err(step) => return step,
    };
    if request.created_height > tip.height || request.refund_height >= LOCK_TIME_THRESHOLD {
        return CheckStep::Fail(SwapError::InvalidRequestHeight);
    }
    let ready_by: u32 = match tip.height.checked_add(request.minimum_funding_confirmations) {
        Some(height) => match height.checked_add(request.safety_margin_blocks) {
            Some(height) => height,
            None => return CheckStep::Fail(SwapError::HeightOverflow),
        },
        None => return CheckStep::Fail(SwapError::HeightOverflow),
    };
    if ready_by >= request.refund_height {
        return CheckStep::Fail(SwapError::WindowTooShort);
    }
    let (tx, prevouts) = match funding_template(request) {
        Ok(template) => template,
        Err(error) => return CheckStep::Fail(error),
    };
    match verify_funding_inputs(log, 1, &tx, &prevouts) {
        CheckStep::Pass => match check_keys(request) {
            Ok(()) => CheckStep::Pass,
            Err(error) => CheckStep::Fail(error),
        },
        step => step,
    }
}

/// A request that passes the check leaves, behind the tip of the log, the confirmations and the
/// margin before its refund height; its template pays a fee and is worth its amount.
pub proof fn law_checked_request_leaves_time(log: Seq<AnswerView>, request: RequestView)
    requires
        request_check(log, request) is Pass,
    ensures
        tip_at(log, 0) matches Ok(tip) && request.created_height <= tip.height && tip.height
            + request.minimum_funding_confirmations + request.safety_margin_blocks < request.refund_height
            < LOCK_TIME_THRESHOLD,
        request.safety_margin_blocks >= request.minimum_funding_confirmations >= 1,
        template_of(request) matches Ok((tx, prevouts)) && total_value(tx.output) < total_value(prevouts)
            && tx.output[request.funding_output_index as int].value == request.amount_sat && bare(tx)
            && funding_inputs(log, 1, tx.input, prevouts) is Pass,
        key_refusal(request) is None,
{
}

/// The fee rate of a request, or why it has none.
pub open spec fn fee_of_request(request: RequestView) -> Result<u64, SwapError> {
    if request.fee_rate_sat_vb == 0 {
        Err(SwapError::FeeRateZero)
    } else if request.fee_rate_sat_vb > u32::MAX {
        Err(SwapError::FeeRateTooLarge)
    } else {
        Ok((250 * request.fee_rate_sat_vb) as u64)
    }
}

/// The fee rate of a request.
pub fn request_fee(relay: &RelayFile) -> (rate: Result<u64, SwapError>)
    ensures
        rate == fee_of_request(relay@.request),
{
    fee_rate_from_sat_vb(relay.request.fee_rate_sat_vb)
}

/// The funding transaction of a relay file, or why there is none.
pub open spec fn funding_of(relay: RelayView) -> Result<TransactionView, SwapError> {
    match relay.btc_funding {
        None => Err(SwapError::FundingMissing),
        Some(funding) => match tx_of_hex(funding.funding_tx_hex) {
            None => Err(SwapError::InvalidTransaction),
            Some(tx) => Ok(tx),
        },
    }
}

/// The funding transaction of a relay file.
pub fn funding_tx(relay: &RelayFile) -> (tx: Result<Transaction, SwapError>)
    ensures
        match tx {
            Ok(found) => funding_of(relay@) == Ok::<TransactionView, SwapError>(found@),
            Err(error) => funding_of(relay@) == Err::<TransactionView, SwapError>(error),
        },
{
    match &relay.btc_funding {
        Some(funding) => tx_from_hex(funding.funding_tx_hex.as_str()),
        None => Err(SwapError::FundingMissing),
    }
}

/// The lock that a request and its terms agree on, or why there is none.
pub open spec fn lock_of_relay(network: Network, relay: RelayView) -> Result<LockView, SwapError> {
    match relay.terms {
        None => Err(SwapError::TermsMissing),
        Some(terms) => if terms.amount_sat != relay.request.amount_sat {
            Err(SwapError::AmountDiffers)
        } else {
            match (
                public_key_of_text(relay.request.btc_payer_claim_pubkey),
                public_key_of_text(terms.ark_payer_claim_pubkey),
                xonly_of_text(relay.request.btc_refund_pubkey),
            ) {
                (Some(btc_payer), Some(ark_payer), Some(refund_key)) => if lock_possible(
                    btc_payer,
                    ark_payer,
                    refund_key,
                    relay.request.refund_height,
                ) {
                    Ok(
                        lock_of(
                            terms.amount_sat,
                            network,
                            btc_payer,
                            ark_payer,
                            refund_key,
                            relay.request.refund_height,
                        ),
                    )
                } else if relay.request.refund_height >= LOCK_TIME_THRESHOLD {
                    Err(SwapError::InvalidRefundHeight)
                } else {
                    Err(SwapError::InvalidTweak)
                },
                _ => Err(SwapError::InvalidPublicKey),
            }
        },
    }
}

/// The lock that a request and its terms agree on.
pub fn expected_lock(network: Network, relay: &RelayFile) -> (lock: Result<BtcLockContract, SwapError>)
    ensures
        match lock {
            Ok(found) => lock_of_relay(network, relay@) == Ok::<LockView, SwapError>(found@),
            Err(error) => lock_of_relay(network, relay@) == Err::<LockView, SwapError>(error),
        },
{
    let terms = match relay.terms() {
        Ok(terms) => terms,
        Err(error) => return Err(error),
    };
    if terms.amount_sat != relay.request.amount_sat {
        return Err(SwapError::AmountDiffers);
    }
    let btc_payer = match PublicKey::from_str(relay.request.btc_payer_claim_pubkey.as_str()) {
        Ok(key) => key,
        Err(error) => return Err(error),
    };
    let ark_payer = match PublicKey::from_str(terms.ark_payer_claim_pubkey.as_str()) {
        Ok(key) => key,
        Err(error) => return Err(error),
    };
    let refund_key = match XOnlyPublicKey::from_str(relay.request.btc_refund_pubkey.as_str()) {
        Ok(key) => key,
        Err(error) => return Err(error),
    };
    BtcLockContract::new(terms.amount_sat, network, &btc_payer, &ark_payer, &refund_key, relay.request.refund_height)
}

/// A transaction with another output at a slot.
pub open spec fn with_output_at(tx: TransactionView, slot: int, output: TxOutView) -> TransactionView {
    TransactionView { output: tx.output.update(slot, output), ..tx }
}

/// Puts `output` at a slot of a transaction.
pub fn set_output(tx: Transaction, slot: usize, output: TxOut) -> (changed: Transaction)
    requires
        slot < tx@.output.len(),
    ensures
        changed@ == with_output_at(tx@, slot as int, output@),
{
    let ghost before = tx@;
    let mut changed = tx;
    changed.output.set(slot, output);
    assert(changed@.output =~= with_output_at(before, slot as int, output@).output);
    changed
}

/// The funding, unsigned, that a request and its terms agree on, with its lock, or why there is
/// none.
pub open spec fn agreed_funding(network: Network, relay: RelayView) -> Result<(LockView, TransactionView), SwapError> {
    match lock_of_relay(network, relay) {
        Err(error) => Err(error),
        Ok(lock) => match template_of(relay.request) {
            Err(error) => Err(error),
            Ok((template, _)) => Ok(
                (lock, with_output_at(template, relay.request.funding_output_index as int, lock_output(lock))),
            ),
        },
    }
}

/// The funding, unsigned, that a request and its terms agree on, with its lock.
pub fn expected_funding(network: Network, relay: &RelayFile) -> (funding: Result<
    (BtcLockContract, Transaction),
    SwapError,
>)
    ensures
        match funding {
            Ok(found) => agreed_funding(network, relay@) == Ok::<(LockView, TransactionView), SwapError>(
                (found.0@, found.1@),
            ),
            Err(error) => agreed_funding(network, relay@) == Err::<(LockView, TransactionView), SwapError>(error),
        },
{
    let lock = match expected_lock(network, relay) {
        Ok(lock) => lock,
        Err(error) => return Err(error),
    };
    match funding_template(&relay.request) {
        Ok((template, _)) => {
            let output = lock.txout();
            let funding = set_output(template, relay.request.funding_output_index as usize, output);
            Ok((lock, funding))
        },
        Err(error) => Err(error),
    }
}

/// What a response agrees on: the lock, the funding as it stands, and the unsigned claim.
#[verifier::ext_equal]
pub struct ResponseView {
    pub lock: LockView,
    pub funding: TransactionView,
    pub claim: TransactionView,
}

/// The outpoint of the lock.
pub open spec fn lock_point(request: RequestView, funding: TransactionView) -> OutPoint {
    OutPoint { txid: txid_of(funding), vout: request.funding_output_index }
}

/// The claim that a relay file agrees on over an agreed funding, or why there is none.
pub open spec fn agreed_claim(network: Network, relay: RelayView, lock: LockView, funding: TransactionView) -> Result<
    TransactionView,
    SwapError,
> {
    let terms = relay.terms->0;
    let point = lock_point(relay.request, funding);
    match address_of_text(terms.btc_payout_address, network) {
        None => Err(SwapError::InvalidAddress),
        Some((_, payout)) => match hex_value(terms.btc_payout_script_hex) {
            None => Err(SwapError::InvalidHex),
            Some(script) => if script != payout {
                Err(SwapError::PayoutMismatch)
            } else {
                match fee_of_request(relay.request) {
                    Err(error) => Err(error),
                    Ok(rate) => match claim_refusal(point, lock.amount, payout, rate) {
                        Some(error) => Err(error),
                        None => Ok(claim_of(point, lock.amount, payout, rate)),
                    },
                }
            },
        },
    }
}

/// Why a claim request does not fit the agreed claim, if it does not.
pub open spec fn claim_request_refusal(
    relay: RelayView,
    lock: LockView,
    claim: TransactionView,
) -> Option<SwapError> {
    match relay.claim_request {
        None => Some(SwapError::ClaimRequestMissing),
        Some(request) => if tx_of_hex(request.claim_tx_hex) is None {
            Some(SwapError::InvalidTransaction)
        } else if tx_of_hex(request.claim_tx_hex) != Some(claim) {
            Some(SwapError::ClaimChanged)
        } else if request.btc_payer_public_nonce_hex != relay.request.btc_payer_public_nonce_hex {
            Some(SwapError::ClaimContextChanged)
        } else if digest_refusal(request.claim_sighash_hex) is Some {
            digest_refusal(request.claim_sighash_hex)
        } else if hex_value(request.claim_sighash_hex) != key_spend_sighash(claim, lock_output(lock)) {
            Some(SwapError::ClaimContextChanged)
        } else if digest_refusal(request.tap_tweak_hex) is Some {
            digest_refusal(request.tap_tweak_hex)
        } else if hex_value(request.tap_tweak_hex) != Some(lock_tweak(lock.taproot)) || request.claim_amount_sat
            != claim.output[0].value {
            Some(SwapError::ClaimContextChanged)
        } else {
            None
        },
    }
}

/// Why a text does not write 32 bytes, if it does not.
pub open spec fn digest_refusal(text: Seq<char>) -> Option<SwapError> {
    match hex_value(text) {
        None => Some(SwapError::InvalidHex),
        Some(bytes) => if bytes.len() == 32 {
            None
        } else {
            Some(SwapError::ExpectedThirtyTwoBytes)
        },
    }
}

/// Why the pre-signature of a relay file does not fit the agreed claim, if it does not.
pub open spec fn adaptor_refusal(relay: RelayView, lock: LockView, claim: TransactionView) -> Option<SwapError> {
    match relay.btc_claim_adaptor {
        None => None,
        Some(text) => match package_of_text(text) {
            Err(error) => Some(error),
            Ok(package) => if !adaptor_valid(package) {
                Some(SwapError::AdaptorMismatch)
            } else if Some(package.sighash) != key_spend_sighash(claim, lock_output(lock)) {
                Some(SwapError::AdaptorContextMismatch)
            } else {
                match public_key_of_text(relay.terms->0.adaptor_point) {
                    None => Some(SwapError::InvalidPublicKey),
                    Some(point) => if package.adaptor_point != point || package.aggregate_key != lock_key(lock.taproot) {
                        Some(SwapError::AdaptorContextMismatch)
                    } else {
                        None
                    },
                }
            },
        },
    }
}

/// What a response agrees on, or why it is not taken.
pub open spec fn response_of(network: Network, relay: RelayView) -> Result<ResponseView, SwapError> {
    match agreed_funding(network, relay) {
        Err(error) => Err(error),
        Ok((lock, expected)) => match funding_of(relay) {
            Err(error) => Err(error),
            Ok(funding) => if stripped(funding) != expected {
                Err(SwapError::FundingChanged)
            } else if relay.btc_funding->0.funding_txid != txid_text(txid_of(expected))
                || relay.btc_funding->0.funding_vout != relay.request.funding_output_index
                || relay.btc_funding->0.lock_address != lock.address || relay.btc_funding->0.lock_amount_sat
                != lock.amount {
                Err(SwapError::FundingContractMismatch)
            } else {
                match agreed_claim(network, relay, lock, expected) {
                    Err(error) => Err(error),
                    Ok(claim) => if claim_request_refusal(relay, lock, claim) is Some {
                        Err(claim_request_refusal(relay, lock, claim)->0)
                    } else if adaptor_refusal(relay, lock, claim) is Some {
                        Err(adaptor_refusal(relay, lock, claim)->0)
                    } else {
                        Ok(ResponseView { lock, funding, claim })
                    },
                }
            },
        },
    }
}

/// The claim that a relay file agrees on over an agreed funding.
pub fn expected_claim(network: Network, relay: &RelayFile, lock: &BtcLockContract, funding: &Transaction) -> (claim: Result<
    Transaction,
    SwapError,
>)
    requires
        relay@.terms is Some,
    ensures
        match claim {
            Ok(found) => agreed_claim(network, relay@, lock@, funding@) == Ok::<TransactionView, SwapError>(found@),
            Err(error) => agreed_claim(network, relay@, lock@, funding@) == Err::<TransactionView, SwapError>(error),
        },
{
    let terms = match relay.terms() {
        Ok(terms) => terms,
        Err(error) => return Err(error),
    };
    let (_, payout) = match parse_address(terms.btc_payout_address.as_str(), network) {
        Ok(found) => found,
        Err(error) => return Err(error),
    };
    let script = match script_from_hex(terms.btc_payout_script_hex.as_str()) {
        Ok(script) => script,
        Err(error) => return Err(error),
    };
    if !bytes_eq(payout.as_slice(), script.as_slice()) {
        return Err(SwapError::PayoutMismatch);
    }
    let rate: u64 = match request_fee(relay) {
        Ok(rate) => rate,
        Err(error) => return Err(error),
    };
    let point = OutPoint { txid: funding.txid(), vout: relay.request.funding_output_index };
    build_cooperative_claim_tx(point, lock, payout, rate)
}

/// Checks that a claim request fits the agreed claim.
fn check_claim_request(relay: &RelayFile, lock: &BtcLockContract, claim: &Transaction) -> (result: Result<(), SwapError>)
    requires
        claim@.input.len() == 1,
        claim@.output.len() > 0,
    ensures
        match result {
            Ok(()) => claim_request_refusal(relay@, lock@, claim@) is None,
            Err(error) => claim_request_refusal(relay@, lock@, claim@) == Some(error),
        },
{
    let request = match &relay.claim_request {
        Some(request) => request,
        None => return Err(SwapError::ClaimRequestMissing),
    };
    match tx_from_hex(request.claim_tx_hex.as_str()) {
        Ok(tx) => if !tx.same(claim) {
            return Err(SwapError::ClaimChanged);
        },
        Err(error) => return Err(error),
    }
    if request.btc_payer_public_nonce_hex != relay.request.btc_payer_public_nonce_hex {
        return Err(SwapError::ClaimContextChanged);
    }
    let sighash = match cooperative_claim_sighash(claim, lock) {
        Ok(hash) => hash,
        Err(error) => return Err(error),
    };
    match bytes32_from_hex(request.claim_sighash_hex.as_str()) {
        Ok(bytes) => if !bytes_eq(bytes.as_slice(), sighash.as_slice()) {
            return Err(SwapError::ClaimContextChanged);
        },
        Err(error) => return Err(error),
    }
    assert(claim@.output.len() == claim.output@.len());
    assert(claim@.output[0] == claim.output[0]@);
    match bytes32_from_hex(request.tap_tweak_hex.as_str()) {
        Ok(bytes) => if !bytes_eq(bytes.as_slice(), lock.taproot.tap_tweak().as_slice()) || request.claim_amount_sat
            != claim.output[0].value {
            return Err(SwapError::ClaimContextChanged);
        },
        Err(error) => return Err(error),
    }
    Ok(())
}

/// Checks that the pre-signature of a relay file, where there is one, fits the agreed claim.
fn check_adaptor(relay: &RelayFile, lock: &BtcLockContract, claim: &Transaction) -> (result: Result<(), SwapError>)
    requires
        claim@.input.len() == 1,
        relay@.terms is Some,
    ensures
        match result {
            Ok(()) => adaptor_refusal(relay@, lock@, claim@) is None,
            Err(error) => adaptor_refusal(relay@, lock@, claim@) == Some(error),
        },
{
    let package = match &relay.btc_claim_adaptor {
        Some(adaptor) => match adaptor.to_package() {
            Ok(package) => package,
            Err(error) => return Err(error),
        },
        None => return Ok(()),
    };
    match package.verify() {
        Ok(()) => {},
        Err(error) => return Err(error),
    }
    let sighash = match cooperative_claim_sighash(claim, lock) {
        Ok(hash) => hash,
        Err(error) => return Err(error),
    };
    if !bytes_eq(package.sighash.as_slice(), sighash.as_slice()) {
        return Err(SwapError::AdaptorContextMismatch);
    }
    let terms = match relay.terms() {
        Ok(terms) => terms,
        Err(error) => return Err(error),
    };
    let point = match PublicKey::from_str(terms.adaptor_point.as_str()) {
        Ok(point) => point,
        Err(error) => return Err(error),
    };
    if package.adaptor_point.same(&point) && package.aggregate_key.same(&lock.taproot.output_key()) {
        Ok(())
    } else {
        Err(SwapError::AdaptorContextMismatch)
    }
}

/// Checks a response: the lock, the funding, the claim and, where it is there, the pre-signature
/// are the ones that the request and the terms agree on.
pub fn verify_response(network: Network, relay: &RelayFile) -> (response: Result<
    (BtcLockContract, Transaction, Transaction),
    SwapError,
>)
    ensures
        match response {
            Ok(found) => response_of(network, relay@) == Ok::<ResponseView, SwapError>(
                ResponseView { lock: found.0@, funding: found.1@, claim: found.2@ },
            ) && found.2@.input.len() == 1 && found.2@.input[0].previous_output.vout
                == relay@.request.funding_output_index && found.2@.output.len() == 2,
            Err(error) => response_of(network, relay@) == Err::<ResponseView, SwapError>(error),
        },
{
    let (lock, expected) = match expected_funding(network, relay) {
        Ok(found) => found,
        Err(error) => return Err(error),
    };
    let funding = match funding_tx(relay) {
        Ok(tx) => tx,
        Err(error) => return Err(error),
    };
    if !without_witness(&funding).same(&expected) {
        return Err(SwapError::FundingChanged);
    }
    let artifact = match &relay.btc_funding {
        Some(artifact) => artifact,
        None => return Err(SwapError::FundingMissing),
    };
    if artifact.funding_txid != txid_to_string(&expected.txid()) || artifact.funding_vout
        != relay.request.funding_output_index || artifact.lock_address != lock.address || artifact.lock_amount_sat
        != lock.amount {
        return Err(SwapError::FundingContractMismatch);
    }
    let claim = match expected_claim(network, relay, &lock, &expected) {
        Ok(claim) => claim,
        Err(error) => return Err(error),
    };
    match check_claim_request(relay, &lock, &claim) {
        Ok(()) => {},
        Err(error) => return Err(error),
    }
    match check_adaptor(relay, &lock, &claim) {
        Ok(()) => {},
        Err(error) => return Err(error),
    }
    Ok((lock, funding, claim))
}

/// A response that is taken spends exactly the lock of its funding: the claim's only input is the
/// agreed slot, whose output is the lock, worth the requested amount.
pub proof fn law_response_claims_the_lock(network: Network, relay: RelayView)
    requires
        response_of(network, relay) is Ok,
    ensures
        ({
            let response = response_of(network, relay)->Ok_0;
            let slot = relay.request.funding_output_index;
            &&& response.claim.input.len() == 1
            &&& response.claim.input[0].previous_output == (OutPoint { txid: txid_of(stripped(response.funding)), vout: slot })
            &&& slot < response.funding.output.len()
            &&& response.funding.output[slot as int] == lock_output(response.lock)
            &&& response.lock.amount == relay.request.amount_sat
            &&& response.lock.refund_height == relay.request.refund_height
            &&& relay.terms matches Some(terms) && hex_value(terms.btc_payout_script_hex) == Some(
                response.claim.output[0].script_pubkey,
            ) && response.claim.output.len() == 2
            &&& forall|i: int|
                0 <= i < response.funding.output.len() && i != slot ==> response.funding.output[i]
                    == template_of(relay.request)->Ok_0.0.output[i]
        }),
{
}

/// The offer of a relay file, where its Ark transfer is accepted, or why it is not.
pub open spec fn package_of(relay: RelayView, transfer: TransferView, server: Seq<u8>, verdict: TransferVerdict) -> Result<
    OfferView,
    SwapError,
> {
    match relay.ark_transfer {
        None => Err(SwapError::ArkTransferMissing),
        Some(artifact) => match offer_of_text(artifact.offer) {
            Err(error) => Err(error),
            Ok(offer) => if ark_address_of_text(relay.request.ark_receive) is None {
                Err(SwapError::InvalidArkAddress)
            } else if swap_id_value(relay.swap_id) is None {
                Err(SwapError::InvalidSwapId)
            } else if relay.terms is None {
                Err(SwapError::TermsMissing)
            } else if hex_value(relay.terms->0.btc_payout_script_hex) is None {
                Err(SwapError::InvalidHex)
            } else if public_key_of_text(relay.terms->0.adaptor_point) is None {
                Err(SwapError::InvalidPublicKey)
            } else if offer != (OfferView {
                id: swap_id_value(relay.swap_id)->0,
                amount: relay.request.amount_sat,
                btc_payout_script: hex_value(relay.terms->0.btc_payout_script_hex)->0,
                ark_input_ids: offer.ark_input_ids,
                ark_receive_policy: (ark_address_of_text(relay.request.ark_receive)->0).1,
                ark_server_pubkey: server,
                adaptor_point: public_key_of_text(relay.terms->0.adaptor_point)->0,
            }) {
                Err(SwapError::OfferMismatch)
            } else if relay.request.refund_height + relay.request.safety_margin_blocks > u32::MAX {
                Err(SwapError::HeightOverflow)
            } else if acceptance(
                vouches_for(verdict, offer),
                transfer.outputs,
                (relay.request.refund_height + relay.request.safety_margin_blocks) as u32,
                ArkTransferAcceptanceOptions { allow_short_output_expiry: false },
            ) is Err {
                Err(SwapError::TransferNotAccepted)
            } else {
                Ok(offer)
            },
        },
    }
}

/// Checks the Ark package of a relay file, given the transfer that it encodes and the verdict of
/// the transfer's public verification: the offer is the agreed one, and every output outlives the
/// refund height by more than the margin.
pub fn verify_public_ark_package(
    relay: &RelayFile,
    transfer: &ArkTransfer,
    server_pubkey: PublicKey,
    verdict: &TransferVerdict,
) -> (offer: Result<ArkOffer, SwapError>)
    ensures
        match offer {
            Ok(found) => package_of(relay@, transfer@, server_pubkey@, *verdict) == Ok::<OfferView, SwapError>(found@),
            Err(error) => package_of(relay@, transfer@, server_pubkey@, *verdict) == Err::<OfferView, SwapError>(error),
        },
{
    let artifact = match &relay.ark_transfer {
        Some(artifact) => artifact,
        None => return Err(SwapError::ArkTransferMissing),
    };
    let offer = match artifact.offer.to_offer() {
        Ok(offer) => offer,
        Err(error) => return Err(error),
    };
    let (_, policy) = match parse_ark_address(relay.request.ark_receive.as_str()) {
        Ok(address) => address,
        Err(error) => return Err(error),
    };
    let swap_id = match relay.swap_id() {
        Ok(id) => id,
        Err(error) => return Err(error),
    };
    let terms = match relay.terms() {
        Ok(terms) => terms,
        Err(error) => return Err(error),
    };
    let script = match script_from_hex(terms.btc_payout_script_hex.as_str()) {
        Ok(script) => script,
        Err(error) => return Err(error),
    };
    let point = match PublicKey::from_str(terms.adaptor_point.as_str()) {
        Ok(point) => point,
        Err(error) => return Err(error),
    };
    match verify_ark_transfer_offer(
        &offer,
        swap_id,
        relay.request.amount_sat,
        &script,
        &policy,
        server_pubkey,
        point,
    ) {
        Ok(()) => {},
        Err(_) => return Err(SwapError::OfferMismatch),
    }
    let expiry: u32 = match relay.request.refund_height.checked_add(relay.request.safety_margin_blocks) {
        Some(height) => height,
        None => return Err(SwapError::HeightOverflow),
    };
    match verify_ark_transfer_before_acceptance(&offer, transfer, verdict, expiry) {
        Ok(()) => Ok(offer),
        Err(_) => Err(SwapError::TransferNotAccepted),
    }
}

/// A request passes its check exactly where its numbers are sound, the tip lies between its creation and
/// its refund height with room for the confirmations and the margin, its template is sound, the inputs of
/// that are live, and its rate, keys and nonce can be read.
pub proof fn law_request_passes_exactly(log: Seq<AnswerView>, request: RequestView)
    ensures
        request_check(log, request) is Pass <==> ({
            &&& 0 < request.amount_sat && 0 < request.minimum_funding_confirmations <= request.safety_margin_blocks
            &&& tip_at(log, 0) matches Ok(tip) && request.created_height <= tip.height && tip.height
                + request.minimum_funding_confirmations + request.safety_margin_blocks < request.refund_height
            &&& request.refund_height < 500_000_000
            &&& template_of(request) matches Ok((template, prevouts)) && funding_inputs(log, 1, template.input, prevouts)
                is Pass
            &&& 0 < request.fee_rate_sat_vb <= 0xffff_ffff
            &&& public_key_of_text(request.btc_payer_claim_pubkey) is Some
            &&& hex_value(request.btc_refund_pubkey) matches Some(key) && key.len() == 32 && is_xonly_key(key)
            &&& hex_value(request.btc_payer_public_nonce_hex) matches Some(nonce) && is_public_nonce(nonce)
        }),
{
    if request_check(log, request) is Pass {
        law_checked_request_leaves_time(log, request);
    }
}

/// A funding template is taken exactly where it can be mined by the height of the request, has inputs
/// without scripts and witnesses, pays the amount to a taproot script in its slot, and spends more than
/// it pays, out of prevouts that are all told.
pub proof fn law_template_is_taken_exactly(request: RequestView)
    ensures
        template_of(request) is Ok <==> ({
            &&& tx_of_hex(request.funding_template_hex) matches Some(tx) && {
                &&& tx.lock_time < 500_000_000 && tx.lock_time <= request.created_height
                &&& tx.input.len() > 0 && forall|i: int|
                    0 <= i < tx.input.len() ==> (#[trigger] tx.input[i]).script_sig.len() == 0
                        && tx.input[i].witness.len() == 0
                &&& request.funding_output_index < tx.output.len()
                &&& ({
                    let output = tx.output[request.funding_output_index as int];
                    &&& output.value == request.amount_sat
                    &&& output.script_pubkey.len() == 34 && output.script_pubkey[0] == 0x51 && output.script_pubkey[1]
                        == 0x20
                })
                &&& request.funding_prevouts_hex.len() == tx.input.len()
                &&& forall|i: int|
                    0 <= i < request.funding_prevouts_hex.len() ==> txout_of_hex(
                        #[trigger] request.funding_prevouts_hex[i],
                    ) is Some
                &&& ({
                    let prevouts = request.funding_prevouts_hex.map_values(|text: Seq<char>| txout_of_hex(text)->0);
                    total_value(tx.output) < total_value(prevouts) <= u64::MAX
                })
            }
        }),
        template_of(request) matches Ok((tx, prevouts)) ==> tx_of_hex(request.funding_template_hex) == Some(tx) && prevouts
            == request.funding_prevouts_hex.map_values(|text: Seq<char>| txout_of_hex(text)->0),
{
}

/// The lock of a response holds the amount of the request, for the keys of both parties together, or for
/// the refund key of the request alone from its refund height on.
pub proof fn law_lock_is_of_both_keys(network: Network, relay: RelayView)
    requires
        lock_of_relay(network, relay) is Ok,
    ensures
        ({
            let lock = lock_of_relay(network, relay)->Ok_0;
            &&& lock.amount == relay.request.amount_sat
            &&& lock.refund_height == relay.request.refund_height && lock.refund_height < 500_000_000
            &&& relay.terms matches Some(terms) && terms.amount_sat == relay.request.amount_sat && (public_key_of_text(
                relay.request.btc_payer_claim_pubkey,
            ) matches Some(btc_payer) && public_key_of_text(terms.ark_payer_claim_pubkey) matches Some(ark_payer)
                && lock.taproot.internal == aggregate_key(btc_payer, ark_payer).subrange(1, 33))
            &&& hex_value(relay.request.btc_refund_pubkey) matches Some(key) && key.len() == 32 && lock.refund_script
                == timelock_script(relay.request.refund_height as nat, key) && lock.taproot.leaf == lock.refund_script
        }),
{
}

/// The claim of a response spends the lock and pays to the payout of the terms: the amount of the request,
/// less 330 for the anchor, less the fee that the rate of the request asks for the weight of the signed
/// claim.
pub proof fn law_claim_of_a_response_pays_the_payout(network: Network, relay: RelayView)
    requires
        response_of(network, relay) is Ok,
    ensures
        ({
            let claim = response_of(network, relay)->Ok_0.claim;
            let payout = claim.output[0].script_pubkey;
            let rate = 250 * relay.request.fee_rate_sat_vb;
            &&& relay.terms matches Some(terms) && hex_value(terms.btc_payout_script_hex) == Some(payout)
                && (address_of_text(terms.btc_payout_address, network) matches Some((_, script)) && script == payout)
            &&& claim.output.len() == 2 && claim.output[1].value == 330
            &&& claim.output[1].script_pubkey == seq![0x51u8, 0x02, 0x4e, 0x73]
            &&& payout.len() < 0xfd ==> claim.output[0].value == relay.request.amount_sat - 330 - (rate * (360 + 4
                * payout.len()) + 999) / 1000
            &&& claim.lock_time == 0 && claim.version == 3
        }),
{
    let response = response_of(network, relay)->Ok_0;
    let payout = response.claim.output[0].script_pubkey;
    let rate = fee_of_request(relay.request)->Ok_0;
    let funding = agreed_funding(network, relay)->Ok_0.1;
    let point = lock_point(relay.request, funding);
    if payout.len() < 0xfd {
        law_claim_weight(point, response.lock.amount, payout, rate);
        law_claim_accounts_for_everything(point, response.lock.amount, payout, rate);
    }
}

/// A response is accepted exactly where its funding is the agreed one but for the signatures, and is told
/// as such; its claim is the agreed one, with its hash, tweak and amount; and a pre-signature, where there
/// is one, is valid for that hash, the point of the terms and the key of the lock.
pub proof fn law_response_is_accepted_exactly(network: Network, relay: RelayView)
    requires
        agreed_funding(network, relay) is Ok,
    ensures
        ({
            let (lock, expected) = agreed_funding(network, relay)->Ok_0;
            response_of(network, relay) is Ok <==> {
                &&& relay.btc_funding matches Some(told) && tx_of_hex(told.funding_tx_hex) matches Some(funding)
                    && stripped(funding) == expected && told.funding_txid == txid_text(txid_of(expected))
                    && told.funding_vout == relay.request.funding_output_index && told.lock_address == lock.address
                    && told.lock_amount_sat == lock.amount
                &&& agreed_claim(network, relay, lock, expected) matches Ok(claim) && {
                    let hash = key_spend_sighash(claim, lock_output(lock));
                    &&& relay.claim_request matches Some(told) && tx_of_hex(told.claim_tx_hex) == Some(claim)
                        && told.btc_payer_public_nonce_hex == relay.request.btc_payer_public_nonce_hex
                        && told.claim_amount_sat == claim.output[0].value && hex_value(told.claim_sighash_hex) == hash
                        && hash is Some && hash->0.len() == 32 && hex_value(told.tap_tweak_hex) == Some(
                        lock_tweak(lock.taproot),
                    ) && lock_tweak(lock.taproot).len() == 32
                    &&& relay.btc_claim_adaptor matches Some(text) ==> (package_of_text(text) matches Ok(package)
                        && adaptor_valid(package) && Some(package.sighash) == hash && package.aggregate_key == lock_key(
                        lock.taproot,
                    ) && public_key_of_text(relay.terms->0.adaptor_point) == Some(package.adaptor_point))
                }
            }
        }),
        response_of(network, relay) matches Ok(response) ==> ({
            let (lock, expected) = agreed_funding(network, relay)->Ok_0;
            response.lock == lock && tx_of_hex(relay.btc_funding->0.funding_tx_hex) == Some(response.funding)
                && agreed_claim(network, relay, lock, expected) == Ok::<TransactionView, SwapError>(response.claim)
        }),
{
}

/// An Ark transfer is accepted exactly where its offer is for this swap and its amount, payout, address and
/// point, and of this server; it is vouched for; and every output outlives the refund height and the
/// margin.
pub proof fn law_package_is_accepted_exactly(
    relay: RelayView,
    transfer: TransferView,
    server: Seq<u8>,
    verdict: TransferVerdict,
)
    ensures
        package_of(relay, transfer, server, verdict) is Ok <==> ({
            let end = relay.request.refund_height + relay.request.safety_margin_blocks;
            &&& end <= u32::MAX
            &&& relay.ark_transfer matches Some(artifact) && offer_of_text(artifact.offer) matches Ok(offer) && {
                &&& swap_id_value(relay.swap_id) == Some(offer.id) && offer.amount == relay.request.amount_sat
                &&& relay.terms matches Some(terms) && hex_value(terms.btc_payout_script_hex) == Some(
                    offer.btc_payout_script,
                ) && public_key_of_text(terms.adaptor_point) == Some(offer.adaptor_point)
                &&& ark_address_of_text(relay.request.ark_receive) matches Some((_, policy)) && policy
                    == offer.ark_receive_policy
                &&& offer.ark_server_pubkey == server
                &&& verdict.verified && verdict.terms@.input_ids == offer.ark_input_ids && verdict.terms@.receive_policy
                    == offer.ark_receive_policy && verdict.terms@.amount == offer.amount && verdict.terms@.server_pubkey
                    == offer.ark_server_pubkey && verdict.terms@.adaptor_point == offer.adaptor_point
                &&& forall|i: int| 0 <= i < transfer.outputs.len() ==> (#[trigger] transfer.outputs[i]).expiry_height > end
            }
        }),
        package_of(relay, transfer, server, verdict) matches Ok(offer) ==> offer_of_text(relay.ark_transfer->0.offer)
            == Ok::<OfferView, SwapError>(offer),
{
    let end = relay.request.refund_height + relay.request.safety_margin_blocks;
    if relay.ark_transfer is Some && offer_of_text(relay.ark_transfer->0.offer) is Ok && end <= u32::MAX {
        let offer = offer_of_text(relay.ark_transfer->0.offer)->Ok_0;
        law_acceptance_is_exact(
            vouches_for(verdict, offer),
            transfer.outputs,
            end as u32,
            ArkTransferAcceptanceOptions { allow_short_output_expiry: false },
        );
    }
}

/// The agreed funding is the template of the request with the lock in its slot, and nothing else changed; it
/// is agreed wherever the lock can be made and the template is sound.
pub proof fn law_agreed_funding_replaces_the_slot(network: Network, relay: RelayView)
    ensures
        agreed_funding(network, relay) is Ok <==> lock_of_relay(network, relay) is Ok && template_of(relay.request) is Ok,
        agreed_funding(network, relay) matches Ok((lock, funding)) ==> {
            let template = (template_of(relay.request)->Ok_0).0;
            let slot = relay.request.funding_output_index;
            &&& lock_of_relay(network, relay) == Ok::<LockView, SwapError>(lock)
            &&& funding.version == template.version && funding.lock_time == template.lock_time
            &&& funding.input == template.input && funding.output.len() == template.output.len()
            &&& slot < funding.output.len() && funding.output[slot as int] == lock_output(lock)
            &&& funding.output[slot as int].value == relay.request.amount_sat
            &&& forall|i: int|
                0 <= i < funding.output.len() && i != slot ==> funding.output[i] == template.output[i]
            &&& total_value(funding.output) == total_value(template.output)
        },
{
    if agreed_funding(network, relay) is Ok {
        let (lock, funding) = agreed_funding(network, relay)->Ok_0;
        let template = (template_of(relay.request)->Ok_0).0;
        lemma_same_values_same_total(funding.output, template.output);
    }
}

/// Outputs of the same values are worth the same.
proof fn lemma_same_values_same_total(a: Seq<TxOutView>, b: Seq<TxOutView>)
    requires
        a.len() == b.len(),
        forall|i: int| 0 <= i < a.len() ==> (#[trigger] a[i]).value == b[i].value,
    ensures
        total_value(a) == total_value(b),
    decreases a.len(),
{
    if a.len() > 0 {
        assert(a[a.len() - 1].value == b[b.len() - 1].value);
        assert forall|i: int| 0 <= i < a.drop_last().len() implies (#[trigger] a.drop_last()[i]).value
            == b.drop_last()[i].value by {
            assert(a[i].value == b[i].value);
        }
        lemma_same_values_same_total(a.drop_last(), b.drop_last());
    }
}

/// A lock is made exactly where the terms repeat the amount of the request, all three keys can be read, the
/// refund height is one of blocks, and the aggregate key takes the script.
pub proof fn law_lock_is_made_exactly(network: Network, relay: RelayView)
    ensures
        lock_of_relay(network, relay) is Ok <==> (relay.terms matches Some(terms) && terms.amount_sat
            == relay.request.amount_sat && relay.request.refund_height < 500_000_000 && (public_key_of_text(
            relay.request.btc_payer_claim_pubkey,
        ) matches Some(btc_payer) && public_key_of_text(terms.ark_payer_claim_pubkey) matches Some(ark_payer) && hex_value(
            relay.request.btc_refund_pubkey,
        ) matches Some(key) && key.len() == 32 && is_xonly_key(key) && taproot_accepts(
            aggregate_key(btc_payer, ark_payer).subrange(1, 33),
            timelock_script(relay.request.refund_height as nat, key),
        ))),
{
}

/// The claim of a response is agreed exactly where its payout is an address of the network whose script the terms
/// tell too, the rate of the request is one, and a claim at that rate is not refused; it is then that claim.
pub proof fn law_claim_is_agreed_exactly(network: Network, relay: RelayView, lock: LockView, funding: TransactionView)
    requires
        relay.terms is Some,
    ensures
        ({
            let terms = relay.terms->0;
            let rate = (250 * relay.request.fee_rate_sat_vb) as u64;
            let point = OutPoint { txid: txid_of(funding), vout: relay.request.funding_output_index };
            &&& agreed_claim(network, relay, lock, funding) is Ok <==> (address_of_text(
                terms.btc_payout_address,
                network,
            ) matches Some((_, payout)) && hex_value(terms.btc_payout_script_hex) == Some(payout) && 0
                < relay.request.fee_rate_sat_vb <= 0xffff_ffff && claim_refusal(point, lock.amount, payout, rate) is None)
            &&& agreed_claim(network, relay, lock, funding) matches Ok(claim) ==> claim == claim_of(
                point,
                lock.amount,
                (address_of_text(terms.btc_payout_address, network)->0).1,
                rate,
            )
        }),
{
}

} // verus!
