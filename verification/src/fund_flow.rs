//! Funding the lock: the BTC payer accepts the response of the Ark payer, uses its one nonce to
//! make the pre-signature, stores the result, and only then broadcasts and publishes it.

use vstd::prelude::*;

use crate::address::Network;
use crate::adaptor::{
    adaptor_share, adaptor_valid, build_cooperative_claim_adaptor_package_from_parts, joined_package, AdaptorView,
    BtcClaimAdaptorPackage,
};
use crate::ark_types::{ark_address_of_text, id_texts, vtxo_id_text, vtxo_id_texts, VtxoId, VtxoView};
use crate::artifacts::{BtcClaimAdaptorArtifact, BtcFundingArtifact, FundingView};
use crate::chain::{answer_views, AnswerView, ChainAnswer, TxStatus};
use crate::claim::{cooperative_claim_sighash, key_spend_sighash};
use crate::error::SwapError;
use crate::flow::{check_error, passed, Action, FlowContext, Reply};
use crate::hex::{hex_text, hex_value, law_hex_round_trip};
use crate::keys::{is_public_key, point_of, public_key_of_text, schnorr_valid, PublicKey, SecretKey};
use crate::live::{live_inputs, live_transfer, verify_live_ark_transfer};
use crate::lock::{lock_key, lock_output, lock_tweak};
use crate::musig::{
    aggregate_nonce, degenerate, honest_session, is_partial_signature, is_public_nonce, joined_shares,
    joins_honest_shares, lemma_stored_signs, nonce_scalars, partial_sig_from_hex, public_nonce_from_hex,
    scalars_of_nonce, signing_key, stored_for, tweak_fits, SecretNonce,
};
use crate::offer::{
    law_accepted_outputs_outlive_the_minimum, vouches_for, ArkTransfer, OfferView, TransferVerdict, TransferView,
};
use crate::offer_flow::is_adaptor_share;
use crate::psbt::{psbt_of_funding, put_funding};
use crate::refund::{
    build_refund_tx, law_refund_fee_is_of_the_signed_refund, law_refund_hash_ignores_the_witness, refund_of,
    refund_refusal, refund_witness, script_spend_sighash, sign_refund_tx, signs_refund, with_first_witness,
};
use crate::observe_flow::received_funding;
use crate::relay::{
    committed, package_of_text, package_text, response_commitment, swap_refusal, RelayFile, RelayView,
};
use crate::response::{
    agreed_funding, fee_of_request, funding_of, funding_tx, law_response_claims_the_lock, package_of, request_check,
    request_fee, response_of,
    validate_request, verify_public_ark_package, verify_response, ResponseView,
};
use crate::role::{terminal, SwapRole, SwapStatus};
use crate::scalar::is_secret;
use crate::state::{is_terminal, StateView, StoredBtcArkSwap};
use crate::swap_id::{swap_id_value, SwapId};
use crate::tx::{
    fully_signed, hex_of_tx, is_fully_signed, same_id, stripped, tx_of_hex, txid_of, weight_of, Transaction,
    TransactionView,
};

verus! {

/// Where the funding flow is.
pub enum FundPhase {
    Begin,
    Loaded,
    Request { peer: RelayFile },
    Transfer { peer: RelayFile },
    Pinned,
    Signing,
    Funding { package: BtcClaimAdaptorPackage, secret: SecretKey },
    Refund { package: BtcClaimAdaptorPackage, secret: SecretKey, funding: Transaction },
    Ready,
    Status,
    Recheck,
    RecheckTransfer,
    Broadcasted,
    Published,
}

/// Why a peer's response is not taken by the BTC payer, if it is not: it has to be of the same
/// swap and request, and of the transcript that was accepted, where one was.
pub open spec fn peer_refusal(state: StateView, peer: RelayView) -> Option<SwapError> {
    match swap_id_value(state.swap_id) {
        None => Some(SwapError::InvalidSwapId),
        Some(id) => if swap_refusal(peer, id) is Some {
            swap_refusal(peer, id)
        } else if peer.request != state.relay.request {
            Some(SwapError::RequestChanged)
        } else {
            match response_commitment(peer) {
                Err(error) => Some(error),
                Ok(digest) => if state.peer_transcript_hash_hex matches Some(expected) && expected != digest {
                    Some(SwapError::TranscriptChanged)
                } else {
                    None
                },
            }
        },
    }
}

/// Checks a peer's response.
fn check_peer(state: &StoredBtcArkSwap, peer: &RelayFile) -> (result: Result<(), SwapError>)
    ensures
        match result {
            Ok(()) => peer_refusal(state@, peer@) is None,
            Err(error) => peer_refusal(state@, peer@) == Some(error),
        },
{
    let id = match SwapId::from_str(state.swap_id.as_str()) {
        Ok(id) => id,
        Err(_) => return Err(SwapError::InvalidSwapId),
    };
    match peer.require_swap(id) {
        Ok(()) => {},
        Err(error) => return Err(error),
    }
    if !peer.request.same(&state.relay.request) {
        return Err(SwapError::RequestChanged);
    }
    let digest = match peer.response_commitment_hash_hex() {
        Ok(digest) => digest,
        Err(error) => return Err(error),
    };
    match &state.peer_transcript_hash_hex {
        Some(expected) => if *expected != digest {
            return Err(SwapError::TranscriptChanged);
        },
        None => {},
    }
    Ok(())
}

/// The offer of a relay file whose Ark transfer is accepted and live, or why it is not.
pub open spec fn live_package(
    relay: RelayView,
    transfer: TransferView,
    server: Seq<u8>,
    verdict: TransferVerdict,
    log: Seq<AnswerView>,
) -> Result<OfferView, SwapError> {
    match package_of(relay, transfer, server, verdict) {
        Err(error) => Err(error),
        Ok(offer) => {
            let step = live_transfer(
                log,
                offer,
                transfer,
                relay.request.refund_height,
                relay.request.safety_margin_blocks,
            );
            if step is Pass {
                Ok(offer)
            } else {
                Err(check_error(step))
            }
        },
    }
}

/// Checks that the Ark transfer of a relay file is accepted and live, and tells the texts of its
/// inputs.
pub fn check_package(
    relay: &RelayFile,
    transfer: &ArkTransfer,
    server: PublicKey,
    verdict: &TransferVerdict,
    log: &Vec<ChainAnswer>,
) -> (inputs: Result<Vec<String>, SwapError>)
    ensures
        match inputs {
            Ok(texts) => live_package(relay@, transfer@, server@, *verdict, answer_views(log@)) matches Ok(offer)
                && crate::bytes::text_views(texts@) == vtxo_id_texts(offer.ark_input_ids),
            Err(error) => live_package(relay@, transfer@, server@, *verdict, answer_views(log@)) == Err::<
                OfferView,
                SwapError,
            >(error),
        },
{
    let offer = match verify_public_ark_package(relay, transfer, server, verdict) {
        Ok(offer) => offer,
        Err(error) => return Err(error),
    };
    match passed(
        verify_live_ark_transfer(
            log,
            &offer,
            transfer,
            relay.request.refund_height,
            relay.request.safety_margin_blocks,
        ),
    ) {
        Ok(()) => Ok(id_texts(&offer.ark_input_ids)),
        Err(error) => Err(error),
    }
}

/// A state that accepts a response: the response, its transcript and its Ark inputs are pinned.
pub open spec fn pinned(state: StateView, peer: RelayView, inputs: Seq<Seq<char>>) -> StateView {
    StateView {
        ark_input_ids: inputs,
        peer_transcript_hash_hex: Some(response_commitment(peer)->Ok_0),
        relay: peer,
        ..state
    }
}

/// What follows when the Ark transfer of a response is checked: the response is pinned, and stored
/// before anything is signed.
pub open spec fn fund_pins(
    before: StateView,
    peer: RelayView,
    transfer: TransferView,
    server: Seq<u8>,
    verdict: TransferVerdict,
    log: Seq<AnswerView>,
    after: StateView,
    next: Result<(FundPhase, Action), SwapError>,
) -> bool {
    match live_package(peer, transfer, server, verdict, log) {
        Err(error) => after == before && next == Err::<(FundPhase, Action), SwapError>(error),
        Ok(offer) => match response_commitment(peer) {
            Err(error) => after == before && next == Err::<(FundPhase, Action), SwapError>(error),
            Ok(_) => after == pinned(before, peer, vtxo_id_texts(offer.ark_input_ids)) && next matches Ok(
                (FundPhase::Pinned, Action::StoreState),
            ),
        },
    }
}

/// Goes on when the Ark transfer of a response is checked.
fn pin_response(
    state: &mut StoredBtcArkSwap,
    peer: RelayFile,
    transfer: &ArkTransfer,
    server: PublicKey,
    verdict: &TransferVerdict,
    log: &Vec<ChainAnswer>,
) -> (next: Result<(FundPhase, Action), SwapError>)
    ensures
        fund_pins(old(state)@, peer@, transfer@, server@, *verdict, answer_views(log@), final(state)@, next),
{
    let inputs = match check_package(&peer, transfer, server, verdict, log) {
        Ok(inputs) => inputs,
        Err(error) => return Err(error),
    };
    let digest = match peer.response_commitment_hash_hex() {
        Ok(digest) => digest,
        Err(error) => return Err(error),
    };
    state.ark_input_ids = inputs;
    state.peer_transcript_hash_hex = Some(digest);
    state.relay = peer;
    assert(state@ =~= pinned(old(state)@, peer@, crate::bytes::text_views(inputs@)));
    Ok((FundPhase::Pinned, Action::StoreState))
}

/// What the BTC payer joins to a pre-signature.
#[verifier::ext_equal]
pub struct PartsView {
    pub scalars: Seq<u8>,
    pub btc_nonce: Seq<u8>,
    pub ark_key: Seq<u8>,
    pub ark_nonce: Seq<u8>,
    pub ark_share: Seq<u8>,
    pub point: Seq<u8>,
}

/// The public nonce that a text writes, or why it writes none.
pub open spec fn nonce_of_hex(text: Seq<char>) -> Result<Seq<u8>, SwapError> {
    match hex_value(text) {
        None => Err(SwapError::InvalidHex),
        Some(bytes) => if is_public_nonce(bytes) {
            Ok(bytes)
        } else {
            Err(SwapError::InvalidPublicNonce)
        },
    }
}

/// The partial signature that a text writes, or why it writes none.
pub open spec fn share_of_hex(text: Seq<char>) -> Result<Seq<u8>, SwapError> {
    match hex_value(text) {
        None => Err(SwapError::InvalidHex),
        Some(bytes) => if is_partial_signature(bytes) {
            Ok(bytes)
        } else {
            Err(SwapError::InvalidPartialSignature)
        },
    }
}

/// The parts of the pre-signature that a state holds, or why one is missing.
pub open spec fn parts_of(state: StateView) -> Result<PartsView, SwapError> {
    match state.relay.ark_claim_partial {
        None => Err(SwapError::ClaimPartialMissing),
        Some(partial) => match state.btc_secret_nonce {
            None => Err(SwapError::NonceConsumed),
            Some(stored) => match nonce_scalars(stored) {
                None => Err(SwapError::InvalidSecretNonce),
                Some(scalars) => match nonce_of_hex(state.relay.request.btc_payer_public_nonce_hex) {
                    Err(error) => Err(error),
                    Ok(btc_nonce) => match state.relay.terms {
                        None => Err(SwapError::TermsMissing),
                        Some(terms) => match public_key_of_text(terms.ark_payer_claim_pubkey) {
                            None => Err(SwapError::InvalidPublicKey),
                            Some(ark_key) => match nonce_of_hex(partial.ark_public_nonce_hex) {
                                Err(error) => Err(error),
                                Ok(ark_nonce) => match share_of_hex(partial.ark_partial_sig_hex) {
                                    Err(error) => Err(error),
                                    Ok(ark_share) => match public_key_of_text(terms.adaptor_point) {
                                        None => Err(SwapError::InvalidPublicKey),
                                        Some(point) => Ok(
                                            PartsView { scalars, btc_nonce, ark_key, ark_nonce, ark_share, point },
                                        ),
                                    },
                                },
                            },
                        },
                    },
                },
            },
        },
    }
}

/// The pre-signature that a state makes with its nonce, or why it makes none.
pub open spec fn fund_package_of(network: Network, state: StateView, secret: Seq<u8>) -> Result<AdaptorView, SwapError> {
    match response_of(network, state.relay) {
        Err(error) => Err(error),
        Ok(response) => if hex_text(point_of(secret)) != state.relay.request.btc_payer_claim_pubkey {
            Err(SwapError::ClaimKeyMismatch)
        } else {
            match parts_of(state) {
                Err(error) => Err(error),
                Ok(parts) => {
                    let tweak = Some(lock_tweak(response.lock.taproot));
                    let joined = joined_package(
                        secret,
                        parts.scalars,
                        parts.btc_nonce,
                        parts.ark_key,
                        parts.ark_nonce,
                        parts.ark_share,
                        key_spend_sighash(response.claim, lock_output(response.lock))->0,
                        tweak,
                        parts.point,
                    );
                    if !tweak_fits(point_of(secret), parts.ark_key, tweak) {
                        Err(SwapError::InvalidTweak)
                    } else if !adaptor_valid(joined) {
                        Err(SwapError::AdaptorMismatch)
                    } else {
                        Ok(joined)
                    }
                },
            }
        },
    }
}

/// Whether the shares of a state are joined so that honest ones lack just their point, unless the
/// pre-signature is degenerate.
pub open spec fn parts_join(network: Network, state: StateView, secret: Seq<u8>) -> bool {
    response_of(network, state.relay) matches Ok(response) && parts_of(state) matches Ok(parts) && {
        let tweak = Some(lock_tweak(response.lock.taproot));
        let sighash = key_spend_sighash(response.claim, lock_output(response.lock))->0;
        let aggregate = aggregate_nonce(parts.btc_nonce, parts.ark_nonce);
        joins_honest_shares(
            secret,
            parts.ark_key,
            aggregate,
            parts.scalars,
            sighash,
            tweak,
            parts.ark_share,
            joined_shares(secret, parts.ark_key, aggregate, parts.scalars, sighash, tweak, parts.ark_share),
        )
    }
}

/// Makes the pre-signature with the state's one nonce.
///
/// The share of an honest offer is refused only where the pre-signature is degenerate.
pub fn make_package(network: Network, state: &StoredBtcArkSwap, secret: &SecretKey) -> (package: Result<
    BtcClaimAdaptorPackage,
    SwapError,
>)
    ensures
        match package {
            Ok(found) => fund_package_of(network, state@, secret@) == Ok::<AdaptorView, SwapError>(found@),
            Err(error) => fund_package_of(network, state@, secret@) == Err::<AdaptorView, SwapError>(error),
        },
        package matches Err(SwapError::AdaptorMismatch) ==> parts_join(network, state@, secret@) || response_of(
            network,
            state@.relay,
        ) is Err,
{
    let (lock, _, claim) = match verify_response(network, &state.relay) {
        Ok(response) => response,
        Err(error) => return Err(error),
    };
    if secret.public_key().to_string() != state.relay.request.btc_payer_claim_pubkey {
        return Err(SwapError::ClaimKeyMismatch);
    }
    let partial = match &state.relay.ark_claim_partial {
        Some(partial) => partial,
        None => return Err(SwapError::ClaimPartialMissing),
    };
    let nonce = match &state.btc_secret_nonce {
        Some(stored) => match SecretNonce::from_stored(stored.as_slice()) {
            Ok(nonce) => nonce,
            Err(error) => return Err(error),
        },
        None => return Err(SwapError::NonceConsumed),
    };
    let btc_nonce = match public_nonce_from_hex(state.relay.request.btc_payer_public_nonce_hex.as_str()) {
        Ok(nonce) => nonce,
        Err(error) => return Err(error),
    };
    let terms = match state.relay.terms() {
        Ok(terms) => terms,
        Err(error) => return Err(error),
    };
    let ark_key = match PublicKey::from_str(terms.ark_payer_claim_pubkey.as_str()) {
        Ok(key) => key,
        Err(error) => return Err(error),
    };
    let ark_nonce = match public_nonce_from_hex(partial.ark_public_nonce_hex.as_str()) {
        Ok(nonce) => nonce,
        Err(error) => return Err(error),
    };
    let ark_share = match partial_sig_from_hex(partial.ark_partial_sig_hex.as_str()) {
        Ok(share) => share,
        Err(error) => return Err(error),
    };
    let sighash = match cooperative_claim_sighash(&claim, &lock) {
        Ok(hash) => hash,
        Err(error) => return Err(error),
    };
    let point = match PublicKey::from_str(terms.adaptor_point.as_str()) {
        Ok(point) => point,
        Err(error) => return Err(error),
    };
    build_cooperative_claim_adaptor_package_from_parts(
        secret,
        nonce,
        &btc_nonce,
        &ark_key,
        &ark_nonce,
        &ark_share,
        sighash,
        Some(lock.taproot.tap_tweak()),
        &point,
    )
}

/// What follows when the claim key is there: the pre-signature is made, and the funding signed.
pub open spec fn fund_signs(
    network: Network,
    state: StateView,
    secret: Seq<u8>,
    next: Result<(FundPhase, Action), SwapError>,
) -> bool {
    match fund_package_of(network, state, secret) {
        Err(error) => next == Err::<(FundPhase, Action), SwapError>(error) && (error == SwapError::AdaptorMismatch
            ==> parts_join(network, state, secret) || response_of(network, state.relay) is Err),
        Ok(made) => match state.funding_psbt_hex {
            None => next == Err::<(FundPhase, Action), SwapError>(SwapError::PsbtMissing),
            Some(text) => match psbt_of_funding(
                text,
                state.relay.request.funding_template_hex,
                state.relay.btc_funding->0.funding_tx_hex,
                state.relay.request.funding_output_index as nat,
            ) {
                Err(error) => next == Err::<(FundPhase, Action), SwapError>(error),
                Ok(unsigned) => next matches Ok(
                    (FundPhase::Funding { package, secret: kept }, Action::SignFunding { psbt_hex }),
                ) && package@ == made && kept@ == secret && psbt_hex@ == unsigned,
            },
        },
    }
}

/// Goes on when the claim key is there.
fn sign_package(network: Network, state: &StoredBtcArkSwap, secret: SecretKey) -> (next: Result<
    (FundPhase, Action),
    SwapError,
>)
    ensures
        fund_signs(network, state@, secret@, next),
{
    let package = match make_package(network, state, &secret) {
        Ok(package) => package,
        Err(error) => return Err(error),
    };
    let funding = match &state.relay.btc_funding {
        Some(funding) => funding,
        None => return Err(SwapError::FundingMissing),
    };
    match &state.funding_psbt_hex {
        Some(text) => match put_funding(
            text.as_str(),
            &state.relay.request.funding_template_hex,
            funding.funding_tx_hex.as_str(),
            state.relay.request.funding_output_index,
        ) {
            Ok(psbt_hex) => Ok((FundPhase::Funding { package, secret }, Action::SignFunding { psbt_hex })),
            Err(error) => Err(error),
        },
        None => Err(SwapError::PsbtMissing),
    }
}

/// Why a signed funding is not taken, if it is not.
pub open spec fn signed_funding_refusal(network: Network, state: StateView, funding: TransactionView) -> Option<SwapError> {
    match response_of(network, state.relay) {
        Err(error) => Some(error),
        Ok(response) => if txid_of(funding) != response.claim.input[0].previous_output.txid {
            Some(SwapError::FundingTxidChanged)
        } else if !fully_signed(funding) {
            Some(SwapError::FundingUnsigned)
        } else {
            None
        },
    }
}

/// Checks a signed funding.
fn check_signed_funding(network: Network, state: &StoredBtcArkSwap, funding: &Transaction) -> (result: Result<
    (),
    SwapError,
>)
    ensures
        match result {
            Ok(()) => signed_funding_refusal(network, state@, funding@) is None,
            Err(error) => signed_funding_refusal(network, state@, funding@) == Some(error),
        },
{
    match verify_response(network, &state.relay) {
        Ok((_, _, claim)) => {
            assert(claim@.input.len() == claim.input@.len());
            assert(claim@.input[0] == claim.input[0]@);
            if !same_id(&funding.txid(), &claim.input[0].previous_output.txid) {
                return Err(SwapError::FundingTxidChanged);
            }
            if is_fully_signed(funding) {
                Ok(())
            } else {
                Err(SwapError::FundingUnsigned)
            }
        },
        Err(error) => Err(error),
    }
}

/// A relay file with the signed funding and the pre-signature.
pub open spec fn funded_relay(relay: RelayView, funding: TransactionView, package: AdaptorView) -> RelayView {
    RelayView {
        btc_funding: Some(FundingView { funding_tx_hex: hex_of_tx(funding), ..relay.btc_funding->0 }),
        btc_claim_adaptor: Some(package_text(package)),
        status: SwapStatus::BtcClaimReady,
        ..relay
    }
}

/// A state that is ready to be claimed: the result is there, and the nonce is gone.
pub open spec fn funded_state(
    state: StateView,
    funding: TransactionView,
    package: AdaptorView,
    refund: TransactionView,
) -> StateView {
    StateView {
        relay: funded_relay(state.relay, funding, package),
        status: SwapStatus::BtcClaimReady,
        signed_refund_tx_hex: Some(hex_of_tx(refund)),
        btc_secret_nonce: None,
        funding_psbt_hex: None,
        ..state
    }
}

/// What follows when a destination is there: the refund is signed, and everything stored in one
/// write, with the nonce removed.
pub open spec fn fund_stores(
    network: Network,
    before: StateView,
    package: AdaptorView,
    secret: Seq<u8>,
    funding: TransactionView,
    script: Seq<u8>,
    after: StateView,
    next: Result<(FundPhase, Action), SwapError>,
) -> bool {
    match response_of(network, before.relay) {
        Err(error) => after == before && next == Err::<(FundPhase, Action), SwapError>(error),
        Ok(response) => match fee_of_request(before.relay.request) {
            Err(error) => after == before && next == Err::<(FundPhase, Action), SwapError>(error),
            Ok(rate) => {
                let point = response.claim.input[0].previous_output;
                match refund_refusal(point, response.lock, script, rate) {
                    Some(error) => after == before && next == Err::<(FundPhase, Action), SwapError>(error),
                    None => {
                        let unsigned = refund_of(point, response.lock, script, rate);
                        &&& next matches Ok((FundPhase::Ready, Action::StoreState))
                        &&& exists|signature: Seq<u8>|
                            #![trigger signs_refund(signature, unsigned, response.lock, secret)]
                            signs_refund(signature, unsigned, response.lock, secret) && after == funded_state(
                                before,
                                funding,
                                package,
                                with_first_witness(unsigned, refund_witness(signature, response.lock)),
                            )
                    },
                }
            },
        },
    }
}

/// Goes on when a destination is there.
fn store_funded(
    network: Network,
    state: &mut StoredBtcArkSwap,
    package: BtcClaimAdaptorPackage,
    secret: &SecretKey,
    funding: Transaction,
    script: Vec<u8>,
) -> (next: Result<(FundPhase, Action), SwapError>)
    ensures
        fund_stores(network, old(state)@, package@, secret@, funding@, script@, final(state)@, next),
{
    let (lock, _, claim) = match verify_response(network, &state.relay) {
        Ok(response) => response,
        Err(error) => return Err(error),
    };
    let rate: u64 = match request_fee(&state.relay) {
        Ok(rate) => rate,
        Err(error) => return Err(error),
    };
    assert(claim@.input.len() == claim.input@.len());
    assert(claim@.input[0] == claim.input[0]@);
    let unsigned = match build_refund_tx(claim.input[0].previous_output, &lock, script, rate) {
        Ok(tx) => tx,
        Err(error) => return Err(error),
    };
    let refund = match sign_refund_tx(unsigned, &lock, secret) {
        Ok(refund) => refund,
        Err(error) => return Err(error),
    };
    let artifact = match &state.relay.btc_funding {
        Some(artifact) => BtcFundingArtifact {
            funding_txid: artifact.funding_txid.clone(),
            funding_vout: artifact.funding_vout,
            funding_tx_hex: funding.to_hex(),
            lock_address: artifact.lock_address.clone(),
            lock_amount_sat: artifact.lock_amount_sat,
        },
        None => return Err(SwapError::FundingMissing),
    };
    state.relay.btc_funding = Some(artifact);
    state.relay.btc_claim_adaptor = Some(BtcClaimAdaptorArtifact::from_package(&package));
    state.relay.status = SwapStatus::BtcClaimReady;
    state.status = SwapStatus::BtcClaimReady;
    state.signed_refund_tx_hex = Some(refund.to_hex());
    state.btc_secret_nonce = None;
    state.funding_psbt_hex = None;
    proof {
        let signature = choose|signature: Seq<u8>|
            #![trigger signs_refund(signature, unsigned@, lock@, secret@)]
            signs_refund(signature, unsigned@, lock@, secret@) && refund@ == with_first_witness(
                unsigned@,
                refund_witness(signature, lock@),
            );
        assert(signs_refund(signature, unsigned@, lock@, secret@));
        assert(state@.relay =~= funded_relay(old(state)@.relay, funding@, package@));
        assert(state@ =~= funded_state(old(state)@, funding@, package@, refund@));
    }
    Ok((FundPhase::Ready, Action::StoreState))
}

/// What follows when the funding is known: it is told where it is.
pub open spec fn fund_asks_status(state: StateView, next: Result<(FundPhase, Action), SwapError>) -> bool {
    match funding_of(state.relay) {
        Err(error) => next == Err::<(FundPhase, Action), SwapError>(error),
        Ok(funding) => next matches Ok((FundPhase::Status, Action::Status(txid))) && txid == txid_of(funding),
    }
}

/// What follows when a request is checked: the response is verified, and its Ark transfer checked.
pub open spec fn fund_verifies(
    network: Network,
    state: StateView,
    peer: RelayView,
    log: Seq<AnswerView>,
    next: Result<(FundPhase, Action), SwapError>,
) -> bool {
    if !(request_check(log, peer.request) is Pass) {
        next == Err::<(FundPhase, Action), SwapError>(check_error(request_check(log, peer.request)))
    } else {
        match response_of(network, peer) {
            Err(error) => next == Err::<(FundPhase, Action), SwapError>(error),
            Ok(_) => next matches Ok((FundPhase::Transfer { peer: kept }, Action::CheckTransfer(relay))) && kept@ == peer
                && relay@ == peer,
        }
    }
}

/// What the funding flow does next.
pub open spec fn fund_next(
    context: FlowContext,
    phase: FundPhase,
    reply: Reply,
    before: StateView,
    after: StateView,
    next: Result<(FundPhase, Action), SwapError>,
) -> bool {
    match (phase, reply) {
        (FundPhase::Begin, Reply::Done) => after == before && (if terminal(before.role, before.status) {
            next == Err::<(FundPhase, Action), SwapError>(SwapError::AlreadySettled)
        } else if before.relay.btc_claim_adaptor is Some {
            fund_asks_status(before, next)
        } else {
            next matches Ok((FundPhase::Loaded, Action::LoadRelay))
        }),
        (FundPhase::Loaded, Reply::Relay(peer)) => after == before && match peer_refusal(before, peer@) {
            Some(error) => next == Err::<(FundPhase, Action), SwapError>(error),
            None => next matches Ok((FundPhase::Request { peer: kept }, Action::CheckRequest(request))) && kept@ == peer@
                && request@ == peer@.request,
        },
        (FundPhase::Request { peer }, Reply::Log(log)) => after == before && fund_verifies(
            context.network,
            before,
            peer@,
            answer_views(log@),
            next,
        ),
        (FundPhase::Transfer { peer }, Reply::Transfer { transfer, server, verdict, log }) => fund_pins(
            before,
            peer@,
            transfer@,
            server@,
            verdict,
            answer_views(log@),
            after,
            next,
        ),
        (FundPhase::Pinned, Reply::Done) => after == before && (next matches Ok(
            (FundPhase::Signing, Action::Key(index)),
        ) && index == before.claim_key_index),
        (FundPhase::Signing, Reply::Key(secret)) => after == before && fund_signs(
            context.network,
            before,
            secret@,
            next,
        ),
        (FundPhase::Funding { package, secret }, Reply::Transaction(funding)) => after == before
            && match signed_funding_refusal(context.network, before, funding@) {
            Some(error) => next == Err::<(FundPhase, Action), SwapError>(error),
            None => next matches Ok(
                (FundPhase::Refund { package: kept, secret: kept_secret, funding: kept_funding }, Action::NewScript),
            ) && kept@ == package@ && kept_secret@ == secret@ && kept_funding@ == funding@,
        },
        (FundPhase::Refund { package, secret, funding }, Reply::Script(script)) => fund_stores(
            context.network,
            before,
            package@,
            secret@,
            funding@,
            script@,
            after,
            next,
        ),
        (FundPhase::Ready, Reply::Done) => after == before && fund_asks_status(before, next),
        (FundPhase::Status, Reply::Status(TxStatus::NotFound)) => after == before && (next matches Ok(
            (FundPhase::Recheck, Action::CheckRequest(request)),
        ) && request@ == before.relay.request),
        (FundPhase::Status, Reply::Status(_)) => after == before && next matches Ok(
            (FundPhase::Published, Action::StoreRelay),
        ),
        (FundPhase::Recheck, Reply::Log(log)) => after == before && (if !(request_check(
            answer_views(log@),
            before.relay.request,
        ) is Pass) {
            next == Err::<(FundPhase, Action), SwapError>(
                check_error(request_check(answer_views(log@), before.relay.request)),
            )
        } else {
            next matches Ok((FundPhase::RecheckTransfer, Action::CheckTransfer(relay))) && relay@ == before.relay
        }),
        (FundPhase::RecheckTransfer, Reply::Transfer { transfer, server, verdict, log }) => after == before
            && match live_package(before.relay, transfer@, server@, verdict, answer_views(log@)) {
            Err(error) => next == Err::<(FundPhase, Action), SwapError>(error),
            Ok(_) => match funding_of(before.relay) {
                Err(error) => next == Err::<(FundPhase, Action), SwapError>(error),
                Ok(funding) => next matches Ok((FundPhase::Broadcasted, Action::Broadcast(tx))) && tx@ == funding,
            },
        },
        (FundPhase::Broadcasted, Reply::Done) => after == before && next matches Ok(
            (FundPhase::Published, Action::StoreRelay),
        ),
        (FundPhase::Published, Reply::Done) => after == before && next matches Ok((FundPhase::Published, Action::End)),
        _ => after == before && next == Err::<(FundPhase, Action), SwapError>(SwapError::UnexpectedReply),
    }
}

/// Asks where the funding is.
fn ask_status(state: &StoredBtcArkSwap) -> (next: Result<(FundPhase, Action), SwapError>)
    ensures
        fund_asks_status(state@, next),
{
    match funding_tx(&state.relay) {
        Ok(funding) => Ok((FundPhase::Status, Action::Status(funding.txid()))),
        Err(error) => Err(error),
    }
}

/// One step of the flow in which the BTC payer funds the lock.
///
/// The response is pinned before the nonce is used, and the result is stored, with the nonce
/// removed, before anything of it is disclosed: a crash in between can only repeat the very same
/// transcript.
#[verifier::rlimit(40)]
pub fn btc_fund(context: FlowContext, phase: FundPhase, reply: Reply, state: &mut StoredBtcArkSwap) -> (next: Result<
    (FundPhase, Action),
    SwapError,
>)
    ensures
        fund_next(context, phase, reply, old(state)@, final(state)@, next),
{
    match (phase, reply) {
        (FundPhase::Begin, Reply::Done) => {
            if is_terminal(state) {
                Err(SwapError::AlreadySettled)
            } else if state.relay.btc_claim_adaptor.is_some() {
                ask_status(state)
            } else {
                Ok((FundPhase::Loaded, Action::LoadRelay))
            }
        },
        (FundPhase::Loaded, Reply::Relay(peer)) => match check_peer(state, &peer) {
            Ok(()) => {
                let request = peer.request.clone();
                Ok((FundPhase::Request { peer }, Action::CheckRequest(request)))
            },
            Err(error) => Err(error),
        },
        (FundPhase::Request { peer }, Reply::Log(log)) => {
            match passed(validate_request(&log, &peer.request)) {
                Ok(()) => {},
                Err(error) => return Err(error),
            }
            match verify_response(context.network, &peer) {
                Ok(_) => {
                    let relay = peer.clone();
                    Ok((FundPhase::Transfer { peer }, Action::CheckTransfer(relay)))
                },
                Err(error) => Err(error),
            }
        },
        (FundPhase::Transfer { peer }, Reply::Transfer { transfer, server, verdict, log }) => pin_response(
            state,
            peer,
            &transfer,
            server,
            &verdict,
            &log,
        ),
        (FundPhase::Pinned, Reply::Done) => Ok((FundPhase::Signing, Action::Key(state.claim_key_index))),
        (FundPhase::Signing, Reply::Key(secret)) => sign_package(context.network, state, secret),
        (FundPhase::Funding { package, secret }, Reply::Transaction(funding)) => match check_signed_funding(
            context.network,
            state,
            &funding,
        ) {
            Ok(()) => Ok((FundPhase::Refund { package, secret, funding }, Action::NewScript)),
            Err(error) => Err(error),
        },
        (FundPhase::Refund { package, secret, funding }, Reply::Script(script)) => store_funded(
            context.network,
            state,
            package,
            &secret,
            funding,
            script,
        ),
        (FundPhase::Ready, Reply::Done) => ask_status(state),
        (FundPhase::Status, Reply::Status(TxStatus::NotFound)) => Ok(
            (FundPhase::Recheck, Action::CheckRequest(state.relay.request.clone())),
        ),
        (FundPhase::Status, Reply::Status(_)) => Ok((FundPhase::Published, Action::StoreRelay)),
        (FundPhase::Recheck, Reply::Log(log)) => match passed(validate_request(&log, &state.relay.request)) {
            Ok(()) => Ok((FundPhase::RecheckTransfer, Action::CheckTransfer(state.relay.clone()))),
            Err(error) => Err(error),
        },
        (FundPhase::RecheckTransfer, Reply::Transfer { transfer, server, verdict, log }) => match check_package(
            &state.relay,
            &transfer,
            server,
            &verdict,
            &log,
        ) {
            Ok(_) => match funding_tx(&state.relay) {
                Ok(funding) => Ok((FundPhase::Broadcasted, Action::Broadcast(funding))),
                Err(error) => Err(error),
            },
            Err(error) => Err(error),
        },
        (FundPhase::Broadcasted, Reply::Done) => Ok((FundPhase::Published, Action::StoreRelay)),
        (FundPhase::Published, Reply::Done) => Ok((FundPhase::Published, Action::End)),
        _ => Err(SwapError::UnexpectedReply),
    }
}

/// Whether a phase comes after the result is stored.
pub open spec fn past_funding(phase: FundPhase) -> bool {
    phase is Ready || phase is Status || phase is Recheck || phase is RecheckTransfer || phase is Broadcasted
        || phase is Published
}

/// The nonce is used once: a state that has its pre-signature never comes to sign again, and the
/// step that stores a pre-signature removes the nonce in the same write.
pub proof fn law_nonce_is_used_once(
    context: FlowContext,
    phase: FundPhase,
    reply: Reply,
    before: StateView,
    after: StateView,
    next: Result<(FundPhase, Action), SwapError>,
)
    requires
        fund_next(context, phase, reply, before, after, next),
    ensures
        past_funding(phase) || (phase is Begin && before.relay.btc_claim_adaptor is Some) ==> (next matches Ok((to, _))
            ==> past_funding(to)) && after == before,
        phase is Refund && after != before ==> after.btc_secret_nonce is None && after.funding_psbt_hex is None
            && after.relay.btc_claim_adaptor is Some && after.signed_refund_tx_hex is Some && (next matches Ok(
            (_, Action::StoreState),
        )),
        next matches Ok((FundPhase::Funding { .. }, _)) ==> before.btc_secret_nonce is Some,
{
}

/// A response is pinned before it is signed: the step that accepts it stores it with its
/// transcript and its Ark inputs, and a transcript that was pinned before is the same.
pub proof fn law_response_is_pinned(
    context: FlowContext,
    phase: FundPhase,
    reply: Reply,
    before: StateView,
    after: StateView,
    next: Result<(FundPhase, Action), SwapError>,
)
    requires
        fund_next(context, phase, reply, before, after, next),
    ensures
        after != before ==> next matches Ok((_, Action::StoreState)),
        phase is Transfer && after != before ==> (response_commitment(after.relay) matches Ok(digest)
            && after.peer_transcript_hash_hex == Some(digest)),
        next matches Ok((FundPhase::Request { peer }, _)) ==> peer@.request == before.relay.request && (
        before.peer_transcript_hash_hex is Some ==> response_commitment(peer@) == Ok::<Seq<char>, SwapError>(
            before.peer_transcript_hash_hex->0,
        )),
{
}

/// The funding is broadcast only where the request still leaves its time and the Ark transfer is
/// still accepted and live, and it is the stored one. The relay file with the pre-signature is
/// published only when that was done, or when the chain knows the funding.
pub proof fn law_funding_is_broadcast_last(
    context: FlowContext,
    phase: FundPhase,
    reply: Reply,
    before: StateView,
    after: StateView,
    next: Result<(FundPhase, Action), SwapError>,
)
    requires
        fund_next(context, phase, reply, before, after, next),
    ensures
        next matches Ok((_, Action::Broadcast(tx))) ==> phase is RecheckTransfer && funding_of(before.relay) == Ok::<
            TransactionView,
            SwapError,
        >(tx@) && (reply matches Reply::Transfer { transfer, server, verdict, log } && live_package(
            before.relay,
            transfer@,
            server@,
            verdict,
            answer_views(log@),
        ) is Ok),
        next matches Ok((FundPhase::RecheckTransfer, _)) ==> (reply matches Reply::Log(log) && request_check(
            answer_views(log@),
            before.relay.request,
        ) is Pass),
        next matches Ok((_, Action::StoreRelay)) ==> phase is Broadcasted || (phase is Status && (reply matches Reply::Status(
            status,
        ) && status != TxStatus::NotFound)),
        next matches Ok((FundPhase::Broadcasted, action)) ==> action is Broadcast,
{
}

/// An honest offer is taken: where the Ark payer signed its share with a fresh nonce for the agreed
/// point, and the BTC payer's secret nonce is the one of the request, the shares join to a
/// pre-signature that verifies, unless that is degenerate.
pub proof fn law_honest_offer_is_taken(
    network: Network,
    state: StateView,
    secret: Seq<u8>,
    ark_secret: Seq<u8>,
    next: Result<(FundPhase, Action), SwapError>,
)
    requires
        fund_signs(network, state, secret, next),
        response_of(network, state.relay) is Ok,
        parts_of(state) is Ok,
        ({
            let response = response_of(network, state.relay)->Ok_0;
            let parts = parts_of(state)->Ok_0;
            &&& scalars_of_nonce(parts.scalars, parts.btc_nonce)
            &&& is_secret(ark_secret) && parts.ark_key == point_of(ark_secret) && is_public_key(parts.point)
            &&& is_adaptor_share(
                ark_secret,
                point_of(secret),
                parts.btc_nonce,
                key_spend_sighash(response.claim, lock_output(response.lock))->0,
                lock_tweak(response.lock.taproot),
                parts.point,
                parts.ark_nonce,
                parts.ark_share,
            )
        }),
    ensures
        next == Err::<(FundPhase, Action), SwapError>(SwapError::AdaptorMismatch) ==> ({
            let response = response_of(network, state.relay)->Ok_0;
            let parts = parts_of(state)->Ok_0;
            let tweak = Some(lock_tweak(response.lock.taproot));
            let sighash = key_spend_sighash(response.claim, lock_output(response.lock))->0;
            degenerate(
                joined_shares(
                    secret,
                    parts.ark_key,
                    aggregate_nonce(parts.btc_nonce, parts.ark_nonce),
                    parts.scalars,
                    sighash,
                    tweak,
                    parts.ark_share,
                ),
                signing_key(point_of(secret), parts.ark_key, tweak).subrange(1, 33),
                sighash,
            )
        }),
{
    let response = response_of(network, state.relay)->Ok_0;
    let parts = parts_of(state)->Ok_0;
    let tweak = Some(lock_tweak(response.lock.taproot));
    let sighash = key_spend_sighash(response.claim, lock_output(response.lock))->0;
    let (stored, plain) = choose|stored: Seq<u8>, plain: Seq<u8>|
        #![trigger stored_for(stored, plain)]
        stored_for(stored, plain) && adaptor_share(
            ark_secret,
            point_of(secret),
            parts.btc_nonce,
            sighash,
            tweak,
            parts.point,
            stored,
            plain,
            parts.ark_nonce,
            parts.ark_share,
        );
    lemma_stored_signs(stored, plain);
    assert(honest_session(
        secret,
        parts.ark_key,
        aggregate_nonce(parts.btc_nonce, parts.ark_nonce),
        parts.scalars,
        sighash,
        tweak,
        parts.ark_share,
        ark_secret,
        stored.subrange(4, 68),
        parts.btc_nonce,
        plain,
        parts.ark_nonce,
        parts.point,
    ));
}

/// What the BTC payer publishes is taken by the Ark payer: a response with the signed funding and a
/// pre-signature for its claim is the funding message of the accepted transcript, where the texts
/// of the funding and of the pre-signature are read back.
pub proof fn law_funding_message_is_accepted(
    network: Network,
    relay: RelayView,
    response: ResponseView,
    signed: TransactionView,
    package: AdaptorView,
    ark_payer: StateView,
    id: Seq<u8>,
    digest: Seq<char>,
)
    requires
        response_of(network, relay) == Ok::<ResponseView, SwapError>(response),
        stripped(signed) == stripped(response.funding),
        fully_signed(signed),
        adaptor_valid(package),
        Some(package.sighash) == key_spend_sighash(response.claim, lock_output(response.lock)),
        package.aggregate_key == lock_key(response.lock.taproot),
        relay.terms matches Some(terms) && public_key_of_text(terms.adaptor_point) == Some(package.adaptor_point),
        tx_of_hex(hex_of_tx(signed)) == Some(signed),
        package_of_text(package_text(package)) == Ok::<AdaptorView, SwapError>(package),
        swap_id_value(ark_payer.swap_id) == Some(id),
        swap_refusal(relay, id) is None,
        response_commitment(relay) == Ok::<Seq<char>, SwapError>(digest),
        ark_payer.peer_transcript_hash_hex == Some(digest),
    ensures
        received_funding(network, ark_payer, funded_relay(relay, signed, package)) == Ok::<bool, SwapError>(true),
{
    let funded = funded_relay(relay, signed, package);
    assert(agreed_funding(network, funded) == agreed_funding(network, relay));
    assert(committed(funded) =~= committed(relay));
    assert(response_of(network, funded) == Ok::<ResponseView, SwapError>(ResponseView { funding: signed, ..response }));
}

/// The refund that is stored with a funding takes the whole lock back to the script of the wallet, at the
/// refund height and not before, less the fee of the rate of the request; it is signed with the refund
/// key. What is stored with it: the signed funding, the pre-signature, and that the swap can be claimed.
pub proof fn law_funding_is_stored_with_its_refund(
    context: FlowContext,
    package: BtcClaimAdaptorPackage,
    secret: SecretKey,
    funding: Transaction,
    script: Vec<u8>,
    before: StateView,
    after: StateView,
    next: Result<(FundPhase, Action), SwapError>,
)
    requires
        fund_next(context, FundPhase::Refund { package, secret, funding }, Reply::Script(script), before, after, next),
        next is Ok,
    ensures
        next matches Ok((FundPhase::Ready, Action::StoreState)),
        after.status == SwapStatus::BtcClaimReady && after.relay.status == SwapStatus::BtcClaimReady,
        after.btc_secret_nonce is None && after.funding_psbt_hex is None,
        after.relay == (RelayView {
            btc_funding: after.relay.btc_funding,
            btc_claim_adaptor: after.relay.btc_claim_adaptor,
            status: after.relay.status,
            ..before.relay
        }),
        after == (StateView {
            relay: after.relay,
            status: after.status,
            signed_refund_tx_hex: after.signed_refund_tx_hex,
            btc_secret_nonce: None,
            funding_psbt_hex: None,
            ..before
        }),
        after.relay.btc_funding matches Some(told) && told.funding_tx_hex == hex_of_tx(funding@),
        after.relay.btc_claim_adaptor matches Some(told) && hex_value(told.pre_signature_hex) == Some(
            package@.pre_signature,
        ) && hex_value(told.sighash_hex) == Some(package@.sighash),
        response_of(context.network, before.relay) matches Ok(response) && exists|refund: TransactionView|
            #![trigger hex_of_tx(refund)]
            {
                let weight = weight_of(refund);
                &&& after.signed_refund_tx_hex == Some(hex_of_tx(refund))
                &&& refund.lock_time == before.relay.request.refund_height
                &&& refund.input.len() == 1 && refund.input[0].previous_output
                    == response.claim.input[0].previous_output
                &&& refund.input[0].sequence < 0xffff_ffff
                &&& refund.output.len() == 1 && refund.output[0].script_pubkey == script@
                &&& refund.output[0].value == before.relay.request.amount_sat - (250
                    * before.relay.request.fee_rate_sat_vb * weight + 999) / 1000
                &&& refund.input[0].witness.len() == 3 && refund.input[0].witness[1] == response.lock.refund_script
                &&& schnorr_valid(
                    refund.input[0].witness[0],
                    script_spend_sighash(refund, lock_output(response.lock), response.lock.refund_script)->0,
                    point_of(secret@).subrange(1, 33),
                )
            },
{
    law_hex_round_trip(package@.pre_signature);
    law_hex_round_trip(package@.sighash);
    law_response_claims_the_lock(context.network, before.relay);
    let response = response_of(context.network, before.relay)->Ok_0;
    let point = response.claim.input[0].previous_output;
    let rate = fee_of_request(before.relay.request)->Ok_0;
    let unsigned = refund_of(point, response.lock, script@, rate);
    let signature = choose|signature: Seq<u8>|
        #![trigger signs_refund(signature, unsigned, response.lock, secret@)]
        signs_refund(signature, unsigned, response.lock, secret@) && after == funded_state(
            before,
            funding@,
            package@,
            with_first_witness(unsigned, refund_witness(signature, response.lock)),
        );
    let refund = with_first_witness(unsigned, refund_witness(signature, response.lock));
    assert(after.signed_refund_tx_hex == Some(hex_of_tx(refund)));
    law_refund_fee_is_of_the_signed_refund(point, response.lock, script@, rate, signature);
    law_refund_hash_ignores_the_witness(unsigned, response.lock, refund_witness(signature, response.lock));
}

/// A response is taken wherever it is for this swap and its request, fits a transcript that was pinned,
/// and passes its checks; the relay file, its transcript and all inputs of its offer are then stored
/// together.
pub proof fn law_response_is_taken(
    context: FlowContext,
    phase: FundPhase,
    reply: Reply,
    before: StateView,
    after: StateView,
    next: Result<(FundPhase, Action), SwapError>,
)
    requires
        fund_next(context, phase, reply, before, after, next),
    ensures
        phase is Begin && reply is Done ==> after == before && {
            let settled = before.status == SwapStatus::BtcClaimed || before.status == SwapStatus::ArkCompleted
                || before.status == SwapStatus::Refunded || before.status == SwapStatus::ArkReclaimed || (before.status
                == SwapStatus::Cancelled && before.role == SwapRole::BtcPayer);
            if settled {
                next is Err
            } else if before.relay.btc_claim_adaptor is None {
                next matches Ok((FundPhase::Loaded, Action::LoadRelay))
            } else {
                funding_of(before.relay) matches Ok(funding) ==> (next matches Ok((FundPhase::Status, Action::Status(txid)))
                    && txid == txid_of(funding))
            }
        },
        phase is Loaded ==> (reply matches Reply::Relay(peer) ==> {
            let fits = swap_id_value(before.swap_id) is Some && swap_refusal(peer@, swap_id_value(before.swap_id)->0)
                is None && peer@.request == before.relay.request && response_commitment(peer@) is Ok && (
            before.peer_transcript_hash_hex is None || before.peer_transcript_hash_hex == Some(
                response_commitment(peer@)->Ok_0,
            ));
            if fits {
                next matches Ok((FundPhase::Request { peer: kept }, Action::CheckRequest(request))) && kept@ == peer@
                    && request@ == peer@.request
            } else {
                next is Err
            }
        }),
        phase matches FundPhase::Request { peer } ==> (reply matches Reply::Log(log) ==> if request_check(
            answer_views(log@),
            peer@.request,
        ) is Pass && response_of(context.network, peer@) is Ok {
            next matches Ok((FundPhase::Transfer { peer: kept }, Action::CheckTransfer(relay))) && kept@ == peer@ && relay@
                == peer@
        } else {
            next is Err
        }),
        phase matches FundPhase::Transfer { peer } ==> (reply matches Reply::Transfer { transfer, server, verdict, log }
            ==> if live_package(peer@, transfer@, server@, verdict, answer_views(log@)) is Ok && response_commitment(peer@)
            is Ok {
            let offer = live_package(peer@, transfer@, server@, verdict, answer_views(log@))->Ok_0;
            &&& after == (StateView {
                ark_input_ids: after.ark_input_ids,
                peer_transcript_hash_hex: Some(response_commitment(peer@)->Ok_0),
                relay: peer@,
                ..before
            })
            &&& after.ark_input_ids.len() == offer.ark_input_ids.len()
            &&& forall|i: int|
                0 <= i < offer.ark_input_ids.len() ==> #[trigger] after.ark_input_ids[i] == vtxo_id_text(
                    offer.ark_input_ids[i],
                )
            &&& next matches Ok((FundPhase::Pinned, Action::StoreState))
        } else {
            after == before && next is Err
        }),
        phase is Pinned && reply is Done ==> (next matches Ok((FundPhase::Signing, Action::Key(index))) && index
            == before.claim_key_index),
{
}

/// A live Ark transfer is one that is offered for this swap and its amount, payout, address and point, is
/// vouched for, whose outputs all outlive the refund height and the margin, and whose inputs are those
/// of the offer, of its server and live.
pub proof fn law_live_package_is_the_offered_one(
    relay: RelayView,
    transfer: TransferView,
    server: Seq<u8>,
    verdict: TransferVerdict,
    log: Seq<AnswerView>,
)
    requires
        live_package(relay, transfer, server, verdict, log) is Ok,
    ensures
        ({
            let offer = live_package(relay, transfer, server, verdict, log)->Ok_0;
            let end = relay.request.refund_height + relay.request.safety_margin_blocks;
            &&& swap_id_value(relay.swap_id) == Some(offer.id)
            &&& offer.amount == relay.request.amount_sat
            &&& relay.terms matches Some(terms) && hex_value(terms.btc_payout_script_hex) == Some(offer.btc_payout_script)
                && public_key_of_text(terms.adaptor_point) == Some(offer.adaptor_point)
            &&& ark_address_of_text(relay.request.ark_receive) matches Some((_, policy)) && policy
                == offer.ark_receive_policy
            &&& offer.ark_server_pubkey == server
            &&& verdict.verified && verdict.terms@.input_ids == offer.ark_input_ids && verdict.terms@.receive_policy
                == offer.ark_receive_policy && verdict.terms@.amount == offer.amount && verdict.terms@.server_pubkey
                == server && verdict.terms@.adaptor_point == offer.adaptor_point
            &&& forall|i: int| 0 <= i < transfer.outputs.len() ==> (#[trigger] transfer.outputs[i]).expiry_height > end
            &&& transfer.inputs.len() == offer.ark_input_ids.len() && transfer.inputs.len() > 0
            &&& forall|i: int|
                0 <= i < transfer.inputs.len() ==> (#[trigger] transfer.inputs[i]).point == offer.ark_input_ids[i].point
                    && transfer.inputs[i].server_pubkey == server
            &&& live_inputs(log, transfer.inputs, relay.request.refund_height, relay.request.safety_margin_blocks) is Pass
        }),
{
    let offer = live_package(relay, transfer, server, verdict, log)->Ok_0;
    let end = relay.request.refund_height + relay.request.safety_margin_blocks;
    law_accepted_outputs_outlive_the_minimum(vouches_for(verdict, offer), transfer.outputs, end as u32);
    let points = transfer.inputs.map_values(|input: VtxoView| VtxoId { point: input.point });
    assert(points == offer.ark_input_ids);
    assert forall|i: int| 0 <= i < transfer.inputs.len() implies (#[trigger] transfer.inputs[i]).point
        == offer.ark_input_ids[i].point by {
        assert(points[i] == VtxoId { point: transfer.inputs[i].point });
    }
}

/// A funding goes on to be signed with the pre-signature that was joined, and is kept exactly where
/// signing left its identifier and every input is signed. It is broadcast wherever the chain does not
/// know it and the checks pass again, and then published.
pub proof fn law_funding_goes_out(
    context: FlowContext,
    phase: FundPhase,
    reply: Reply,
    before: StateView,
    after: StateView,
    next: Result<(FundPhase, Action), SwapError>,
)
    requires
        fund_next(context, phase, reply, before, after, next),
    ensures
        phase is Signing ==> (reply matches Reply::Key(secret) ==> (next matches Ok((to, action)) ==> {
            &&& to matches FundPhase::Funding { package, secret: kept } && kept@ == secret@ && adaptor_valid(package@)
            &&& hex_text(point_of(secret@)) == before.relay.request.btc_payer_claim_pubkey
            &&& action matches Action::SignFunding { psbt_hex } && before.funding_psbt_hex is Some
        })),
        phase matches FundPhase::Funding { package, secret } ==> (reply matches Reply::Transaction(funding) ==> (response_of(
            context.network,
            before.relay,
        ) matches Ok(response) ==> {
            let kept = txid_of(funding@) == response.claim.input[0].previous_output.txid && forall|i: int|
                0 <= i < funding@.input.len() ==> (#[trigger] funding@.input[i]).witness.len() > 0;
            if kept {
                next matches Ok(
                    (FundPhase::Refund { package: same, secret: same_secret, funding: same_funding }, Action::NewScript),
                ) && same@ == package@ && same_secret@ == secret@ && same_funding@ == funding@
            } else {
                next is Err
            }
        })),
        phase is Ready && reply is Done ==> (funding_of(before.relay) matches Ok(funding) ==> (next matches Ok(
            (FundPhase::Status, Action::Status(txid)),
        ) && txid == txid_of(funding))),
        phase is Status ==> match reply {
            Reply::Status(TxStatus::NotFound) => next matches Ok((FundPhase::Recheck, Action::CheckRequest(request)))
                && request@ == before.relay.request,
            Reply::Status(_) => next matches Ok((FundPhase::Published, Action::StoreRelay)),
            _ => next is Err,
        },
        phase is Recheck ==> (reply matches Reply::Log(log) ==> if request_check(answer_views(log@), before.relay.request)
            is Pass {
            next matches Ok((FundPhase::RecheckTransfer, Action::CheckTransfer(relay))) && relay@ == before.relay
        } else {
            next is Err
        }),
        phase is RecheckTransfer ==> (reply matches Reply::Transfer { transfer, server, verdict, log } ==> if live_package(
            before.relay,
            transfer@,
            server@,
            verdict,
            answer_views(log@),
        ) is Ok {
            funding_of(before.relay) matches Ok(funding) ==> (next matches Ok(
                (FundPhase::Broadcasted, Action::Broadcast(tx)),
            ) && tx@ == funding)
        } else {
            next is Err
        }),
        phase is Broadcasted && reply is Done ==> (next matches Ok((FundPhase::Published, Action::StoreRelay))),
{
}

/// The pre-signature that is made is for the hash of the agreed claim and the point of the terms, out of
/// the BTC payer's own nonce and the share of the Ark payer; it is made wherever the key is the one of
/// the request, all parts can be read, and it verifies. The funding that is signed with it is the one of
/// the response, in place of the template in the stored PSBT.
pub proof fn law_package_is_for_the_claim(
    context: FlowContext,
    secret: SecretKey,
    before: StateView,
    after: StateView,
    next: Result<(FundPhase, Action), SwapError>,
)
    requires
        fund_next(context, FundPhase::Signing, Reply::Key(secret), before, after, next),
    ensures
        after == before,
        next matches Ok((to, action)) ==> (to matches FundPhase::Funding { package, .. } && response_of(
            context.network,
            before.relay,
        ) matches Ok(response) && {
            &&& Some(package@.sighash) == key_spend_sighash(response.claim, lock_output(response.lock)) || key_spend_sighash(
                response.claim,
                lock_output(response.lock),
            ) is None
            &&& before.relay.terms matches Some(terms) && public_key_of_text(terms.adaptor_point) == Some(
                package@.adaptor_point,
            )
            &&& adaptor_valid(package@)
            &&& before.btc_secret_nonce is Some && before.relay.ark_claim_partial is Some
            &&& action matches Action::SignFunding { psbt_hex } && psbt_of_funding(
                before.funding_psbt_hex->0,
                before.relay.request.funding_template_hex,
                before.relay.btc_funding->0.funding_tx_hex,
                before.relay.request.funding_output_index as nat,
            ) == Ok::<Seq<char>, SwapError>(psbt_hex@)
        }),
        response_of(context.network, before.relay) matches Ok(response) ==> (parts_of(before) matches Ok(parts) ==> ({
            let tweak = Some(lock_tweak(response.lock.taproot));
            let made = joined_package(
                secret@,
                parts.scalars,
                parts.btc_nonce,
                parts.ark_key,
                parts.ark_nonce,
                parts.ark_share,
                key_spend_sighash(response.claim, lock_output(response.lock))->0,
                tweak,
                parts.point,
            );
            hex_text(point_of(secret@)) == before.relay.request.btc_payer_claim_pubkey && tweak_fits(
                point_of(secret@),
                parts.ark_key,
                tweak,
            ) && adaptor_valid(made) && before.funding_psbt_hex is Some && psbt_of_funding(
                before.funding_psbt_hex->0,
                before.relay.request.funding_template_hex,
                before.relay.btc_funding->0.funding_tx_hex,
                before.relay.request.funding_output_index as nat,
            ) is Ok ==> (next matches Ok((FundPhase::Funding { package, .. }, _)) && package@ == made)
        })),
{
}

/// The parts of a pre-signature are what the state, the request, the terms and the share say: they are there
/// wherever each of them can be read.
pub proof fn law_parts_are_read_from_the_swap(state: StateView)
    ensures
        parts_of(state) matches Ok(parts) ==> {
            &&& state.btc_secret_nonce matches Some(stored) && stored.len() == 132 && parts.scalars == stored.subrange(
                4,
                68,
            )
            &&& hex_value(state.relay.request.btc_payer_public_nonce_hex) == Some(parts.btc_nonce)
            &&& state.relay.terms matches Some(terms) && public_key_of_text(terms.ark_payer_claim_pubkey) == Some(
                parts.ark_key,
            ) && public_key_of_text(terms.adaptor_point) == Some(parts.point)
            &&& state.relay.ark_claim_partial matches Some(partial) && hex_value(partial.ark_public_nonce_hex) == Some(
                parts.ark_nonce,
            ) && hex_value(partial.ark_partial_sig_hex) == Some(parts.ark_share)
            &&& is_public_nonce(parts.btc_nonce) && is_public_nonce(parts.ark_nonce) && is_partial_signature(
                parts.ark_share,
            )
        },
        parts_of(state) is Err ==> state.btc_secret_nonce is None || nonce_scalars(state.btc_secret_nonce->0) is None
            || state.relay.terms is None || state.relay.ark_claim_partial is None || public_key_of_text(
            state.relay.terms->0.ark_payer_claim_pubkey,
        ) is None || public_key_of_text(state.relay.terms->0.adaptor_point) is None || !(hex_value(
            state.relay.request.btc_payer_public_nonce_hex,
        ) matches Some(nonce) && is_public_nonce(nonce)) || !(hex_value(
            state.relay.ark_claim_partial->0.ark_public_nonce_hex,
        ) matches Some(nonce) && is_public_nonce(nonce)) || !(hex_value(
            state.relay.ark_claim_partial->0.ark_partial_sig_hex,
        ) matches Some(share) && is_partial_signature(share)),
{
}

/// A transfer is live wherever its package is accepted, its inputs are those of the offer, in their order,
/// and of its server, and the check of them passes.
pub proof fn law_offered_package_is_live(
    relay: RelayView,
    transfer: TransferView,
    server: Seq<u8>,
    verdict: TransferVerdict,
    log: Seq<AnswerView>,
)
    requires
        package_of(relay, transfer, server, verdict) is Ok,
        transfer.inputs.len() > 0,
        transfer.inputs.len() == package_of(relay, transfer, server, verdict)->Ok_0.ark_input_ids.len(),
        forall|i: int|
            0 <= i < transfer.inputs.len() ==> (#[trigger] transfer.inputs[i]).point == package_of(
                relay,
                transfer,
                server,
                verdict,
            )->Ok_0.ark_input_ids[i].point && transfer.inputs[i].server_pubkey == package_of(
                relay,
                transfer,
                server,
                verdict,
            )->Ok_0.ark_server_pubkey,
        live_inputs(log, transfer.inputs, relay.request.refund_height, relay.request.safety_margin_blocks) is Pass,
    ensures
        live_package(relay, transfer, server, verdict, log) == package_of(relay, transfer, server, verdict),
{
    let offer = package_of(relay, transfer, server, verdict)->Ok_0;
    let points = transfer.inputs.map_values(|input: VtxoView| VtxoId { point: input.point });
    assert forall|i: int| 0 <= i < points.len() implies points[i] == offer.ark_input_ids[i] by {
        assert(transfer.inputs[i].point == offer.ark_input_ids[i].point);
    }
    assert(points =~= offer.ark_input_ids);
}

/// A signed funding is stored wherever the refund of its lock can be made at the rate of the request.
pub proof fn law_signed_funding_is_stored(
    context: FlowContext,
    package: BtcClaimAdaptorPackage,
    secret: SecretKey,
    funding: Transaction,
    script: Vec<u8>,
    before: StateView,
    after: StateView,
    next: Result<(FundPhase, Action), SwapError>,
)
    requires
        fund_next(context, FundPhase::Refund { package, secret, funding }, Reply::Script(script), before, after, next),
        response_of(context.network, before.relay) is Ok,
        0 < before.relay.request.fee_rate_sat_vb <= u32::MAX,
    ensures
        ({
            let response = response_of(context.network, before.relay)->Ok_0;
            next is Ok <==> refund_refusal(
                response.claim.input[0].previous_output,
                response.lock,
                script@,
                (250 * before.relay.request.fee_rate_sat_vb) as u64,
            ) is None
        }),
        next is Err ==> after == before,
{
}

/// The flow of the fund takes no reply but one to what it asked for, and a step that fails changes nothing.
pub proof fn law_fund_takes_its_replies_alone(
    context: FlowContext,
    phase: FundPhase,
    reply: Reply,
    before: StateView,
    after: StateView,
    next: Result<(FundPhase, Action), SwapError>,
)
    requires
        fund_next(context, phase, reply, before, after, next),
    ensures
        next is Ok ==> match phase {
            FundPhase::Begin | FundPhase::Pinned | FundPhase::Ready | FundPhase::Broadcasted
            | FundPhase::Published => reply is Done,
            FundPhase::Loaded => reply is Relay,
            FundPhase::Request { .. } | FundPhase::Recheck => reply is Log,
            FundPhase::Transfer { .. } | FundPhase::RecheckTransfer => reply is Transfer,
            FundPhase::Signing => reply is Key,
            FundPhase::Funding { .. } => reply is Transaction,
            FundPhase::Refund { .. } => reply is Script,
            FundPhase::Status => reply is Status,
        },
        next is Err ==> after == before,
{
}

/// The flow of the funding goes on only with what it can read: a swap that is not settled, an answer to the request
/// that was made, whose response can be committed to and is the one that was seen before, and a PSBT to sign.
pub proof fn law_fund_goes_on_with_what_it_reads(
    context: FlowContext,
    phase: FundPhase,
    reply: Reply,
    before: StateView,
    after: StateView,
    next: Result<(FundPhase, Action), SwapError>,
)
    requires
        fund_next(context, phase, reply, before, after, next),
        next is Ok,
    ensures
        phase is Begin ==> !terminal(before.role, before.status),
        phase is Loaded ==> (reply matches Reply::Relay(peer) && peer@.request == before.relay.request && (swap_id_value(
            before.swap_id,
        ) matches Some(id) && swap_refusal(peer@, id) is None) && (response_commitment(peer@) matches Ok(digest) && (
        before.peer_transcript_hash_hex matches Some(seen) ==> seen == digest))),
        phase matches FundPhase::Request { peer } ==> request_check(answer_views(reply->Log_0@), peer@.request) is Pass
            && response_of(context.network, peer@) is Ok,
        phase matches FundPhase::Transfer { peer } ==> response_commitment(peer@) is Ok,
        phase is Signing ==> fund_package_of(context.network, before, reply->Key_0@) is Ok && before.funding_psbt_hex is Some,
        phase is Refund ==> response_of(context.network, before.relay) is Ok && 0 < before.relay.request.fee_rate_sat_vb
            <= 0xffff_ffff,
        phase is Ready || phase is RecheckTransfer || (phase is Begin && before.relay.btc_claim_adaptor is Some)
            ==> funding_of(before.relay) is Ok,
        phase is Recheck ==> request_check(answer_views(reply->Log_0@), before.relay.request) is Pass,
{
}

} // verus!
