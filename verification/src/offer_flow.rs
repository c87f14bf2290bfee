//! Offering a swap: the Ark payer answers a request with a cosigned Ark transfer and its share of
//! the claim, before the BTC payer funds anything.

use vstd::prelude::*;

use crate::address::{address_of_text, parse_address, Network};
use crate::adaptor::{adaptor_share, sign_cooperative_claim_adaptor_partial, some_nonce_cancels};
use crate::ark_types::{
    ark_address_of_text, id_texts, parse_ark_address, same_ids, vtxo_id_text, vtxo_id_texts, vtxo_views, ArkVtxo, VtxoId,
    VtxoView,
};
use crate::artifacts::{
    ArkClaimPartialArtifact, ArkOfferArtifact, ArkTransferArtifact, BtcClaimRequestArtifact, BtcFundingArtifact,
    ClaimPartialView, ClaimRequestView, FundingView, OfferTerms, TermsTextView, TransferTextView,
};
use crate::chain::{answer_views, ChainAnswer};
use crate::claim::{
    build_cooperative_claim_tx, claim_of, claim_refusal, cooperative_claim_sighash, key_spend_sighash,
};
use crate::claim_flow::{adaptor_secret, secret_of};
use crate::error::SwapError;
use crate::flow::{check_error, passed, Action, Reply};
use crate::fund_flow::nonce_of_hex;
use crate::hex::{bytes_hex, hex_text, hex_value, law_hex_round_trip};
use crate::keys::{point_of, public_key_of_text, secret_key_hex, PublicKey, SecretKey};
use crate::live::{live_inputs, verify_live_ark_inputs};
use crate::lock::{lock_output, lock_tweak, BtcLockContract};
use crate::musig::{is_public_nonce, public_nonce_from_hex, stored_for, tweak_fits, tweak_view, PartialSignature, PublicNonce};
use crate::offer::{ArkOffer, OfferView};
use crate::relay::{offer_text, option_view, response_commitment, swap_refusal, RelayFile, RelayView};
use crate::response::{
    agreed_funding, bare, expected_funding, fee_of_request, lock_point, request_check, request_fee, response_of,
    template_of, validate_request, ResponseView,
};
use crate::role::{SwapRole, SwapStatus};
use crate::scalar::is_secret;
use crate::state::{accepted_ids, new_state, StateView, StoredBtcArkSwap};
use crate::swap_id::{swap_id_value, SwapId};
use crate::tx::{hex_of_tx, stripped, tx_of_hex, txid_of, txid_text, txid_to_string, OutPoint, Transaction};

verus! {

/// What an Ark payer offers.
pub struct OfferArgs {
    pub network: Network,
    pub swap_id: SwapId,
    pub coordinator: String,
    /// The address to which the BTC are paid.
    pub payout: String,
}

/// What an Ark payer offers.
#[verifier::ext_equal]
pub struct OfferArgsView {
    pub network: Network,
    pub swap_id: Seq<u8>,
    pub coordinator: Seq<char>,
    pub payout: Seq<char>,
}

impl View for OfferArgs {
    type V = OfferArgsView;

    open spec fn view(&self) -> OfferArgsView {
        OfferArgsView {
            network: self.network,
            swap_id: self.swap_id@,
            coordinator: self.coordinator@,
            payout: self.payout@,
        }
    }
}

/// Where the offer flow is.
pub enum OfferPhase {
    Begin,
    Replay,
    Fresh,
    FreshRequest { relay: RelayFile },
    FreshAddress { relay: RelayFile },
    FreshInputs { relay: RelayFile },
    FreshKey { relay: RelayFile, ids: Vec<VtxoId> },
    Recorded,
    Resumed,
    Live,
    Locked,
    Key,
    Prepared { nonce: PublicNonce, share: PartialSignature },
    Offered,
    Published,
}

/// Whether a relay file holds nothing but a request.
pub open spec fn only_requests(relay: RelayView) -> bool {
    relay.terms is None && relay.ark_transfer is None && relay.btc_funding is None && relay.claim_request is None
        && relay.ark_claim_partial is None && relay.btc_claim_adaptor is None
}

/// The identifiers of some VTXOs.
pub open spec fn vtxo_ids(inputs: Seq<VtxoView>) -> Seq<VtxoId> {
    inputs.map_values(|input: VtxoView| VtxoId { point: input.point })
}

/// The identifiers of some VTXOs.
fn list_ids(inputs: &Vec<ArkVtxo>) -> (ids: Vec<VtxoId>)
    ensures
        ids@ == vtxo_ids(vtxo_views(inputs@)),
{
    let mut ids: Vec<VtxoId> = Vec::new();
    let mut i: usize = 0;
    while i < inputs.len()
        invariant
            i <= inputs.len(),
            ids.len() == i,
            forall|k: int| 0 <= k < i ==> #[trigger] ids[k] == (VtxoId { point: inputs[k]@.point }),
        decreases inputs.len() - i,
    {
        ids.push(inputs[i].id());
        i += 1;
    }
    assert(ids@ =~= vtxo_ids(vtxo_views(inputs@)));
    ids
}

/// How the offer flow begins: with a stored offer, which is replayed or resumed, or afresh.
pub open spec fn offer_begins(
    args: OfferArgsView,
    state: Option<StateView>,
    next: Result<(OfferPhase, Action), SwapError>,
) -> bool {
    match address_of_text(args.payout, args.network) {
        None => next == Err::<(OfferPhase, Action), SwapError>(SwapError::InvalidAddress),
        Some((payout, _)) => match state {
            None => next matches Ok((OfferPhase::Fresh, Action::LoadRelay)),
            Some(stored) => if stored.status == SwapStatus::Cancelled {
                next == Err::<(OfferPhase, Action), SwapError>(SwapError::SwapAborted)
            } else if stored.relay.terms is None {
                next == Err::<(OfferPhase, Action), SwapError>(SwapError::TermsMissing)
            } else if stored.relay.terms->0.btc_payout_address != payout {
                next == Err::<(OfferPhase, Action), SwapError>(SwapError::PayoutChanged)
            } else if stored.relay.ark_claim_partial is Some {
                if stored.status == SwapStatus::Offered {
                    next matches Ok((OfferPhase::Replay, Action::TryLoadRelay))
                } else {
                    next == Err::<(OfferPhase, Action), SwapError>(SwapError::NotAwaitingFunding)
                }
            } else {
                next matches Ok((OfferPhase::Resumed, Action::CheckRequest(request))) && request@ == stored.relay.request
            },
        },
    }
}

/// How a stored offer is replayed: a published funding must be of the accepted transcript; else the
/// offer is published again.
pub open spec fn offer_replays(
    args: OfferArgsView,
    state: StateView,
    current: Option<RelayView>,
    next: Result<(OfferPhase, Action), SwapError>,
) -> bool {
    match current {
        Some(relay) => if relay.btc_claim_adaptor is None {
            next matches Ok((OfferPhase::Published, Action::StoreRelay))
        } else if swap_refusal(relay, args.swap_id) is Some {
            next == Err::<(OfferPhase, Action), SwapError>(swap_refusal(relay, args.swap_id)->0)
        } else if relay.request != state.relay.request {
            next == Err::<(OfferPhase, Action), SwapError>(SwapError::RequestChanged)
        } else {
            match response_commitment(relay) {
                Err(error) => next == Err::<(OfferPhase, Action), SwapError>(error),
                Ok(digest) => if state.peer_transcript_hash_hex == Some(digest) {
                    next matches Ok((OfferPhase::Published, Action::End))
                } else {
                    next == Err::<(OfferPhase, Action), SwapError>(SwapError::TranscriptChanged)
                },
            }
        },
        None => next matches Ok((OfferPhase::Published, Action::StoreRelay)),
    }
}

/// The terms that an Ark payer offers.
pub open spec fn terms_text(amount: u64, payout: Seq<char>, script: Seq<u8>, secret: Seq<u8>, key: Seq<u8>) -> TermsTextView {
    TermsTextView {
        amount_sat: amount,
        btc_payout_address: payout,
        btc_payout_script_hex: hex_text(script),
        adaptor_point: hex_text(point_of(secret)),
        ark_payer_claim_pubkey: hex_text(point_of(key)),
    }
}

/// The state that records the inputs and a secret before the server cosigns anything.
pub open spec fn recorded(
    args: OfferArgsView,
    relay: RelayView,
    ids: Seq<VtxoId>,
    index: u32,
    payout: Seq<char>,
    script: Seq<u8>,
    secret: Seq<u8>,
    key: Seq<u8>,
) -> StateView {
    StateView {
        adaptor_secret_hex: Some(hex_text(secret)),
        ark_input_ids: vtxo_id_texts(ids),
        ..new_state(
            args.swap_id,
            SwapRole::ArkPayer,
            args.coordinator,
            index,
            RelayView { terms: Some(terms_text(relay.request.amount_sat, payout, script, secret, key)), ..relay },
        )
    }
}

/// What follows when a key is there: a fresh secret is recorded with the inputs.
pub open spec fn offer_records(
    args: OfferArgsView,
    relay: RelayView,
    ids: Seq<VtxoId>,
    key: Seq<u8>,
    index: u32,
    before: Option<StateView>,
    after: Option<StateView>,
    next: Result<(OfferPhase, Action), SwapError>,
) -> bool {
    match address_of_text(args.payout, args.network) {
        None => after == before && next == Err::<(OfferPhase, Action), SwapError>(SwapError::InvalidAddress),
        Some((payout, script)) => {
            &&& next matches Ok((OfferPhase::Recorded, Action::StoreState))
            &&& after matches Some(state) && exists|secret: Seq<u8>|
                #![trigger is_secret(secret)]
                is_secret(secret) && state == recorded(args, relay, ids, index, payout, script, secret, key)
        },
    }
}

/// The lock, the unsigned funding and the unsigned claim of an offer, or why there are none.
pub open spec fn offered_claim(network: Network, relay: RelayView, payout: Seq<u8>) -> Result<ResponseView, SwapError> {
    match agreed_funding(network, relay) {
        Err(error) => Err(error),
        Ok((lock, funding)) => match fee_of_request(relay.request) {
            Err(error) => Err(error),
            Ok(rate) => {
                let point = lock_point(relay.request, funding);
                match claim_refusal(point, lock.amount, payout, rate) {
                    Some(error) => Err(error),
                    None => Ok(ResponseView { lock, funding, claim: claim_of(point, lock.amount, payout, rate) }),
                }
            },
        },
    }
}

/// The lock, the unsigned funding and the unsigned claim of an offer.
fn make_claim(network: Network, relay: &RelayFile, payout: Vec<u8>) -> (claim: Result<
    (BtcLockContract, Transaction, Transaction),
    SwapError,
>)
    ensures
        match claim {
            Ok(found) => offered_claim(network, relay@, payout@) == Ok::<ResponseView, SwapError>(
                ResponseView { lock: found.0@, funding: found.1@, claim: found.2@ },
            ) && found.2@.input.len() == 1 && found.2@.output.len() == 2,
            Err(error) => offered_claim(network, relay@, payout@) == Err::<ResponseView, SwapError>(error),
        },
{
    let (lock, funding) = match expected_funding(network, relay) {
        Ok(found) => found,
        Err(error) => return Err(error),
    };
    let rate: u64 = match request_fee(relay) {
        Ok(rate) => rate,
        Err(error) => return Err(error),
    };
    let point = OutPoint { txid: funding.txid(), vout: relay.request.funding_output_index };
    match build_cooperative_claim_tx(point, &lock, payout, rate) {
        Ok(claim) => Ok((lock, funding, claim)),
        Err(error) => Err(error),
    }
}

/// Whether a nonce and a share are what a party signs with some fresh nonce, hiding `point` in its
/// public nonce.
pub open spec fn is_adaptor_share(
    secret: Seq<u8>,
    other: Seq<u8>,
    other_nonce: Seq<u8>,
    message: Seq<u8>,
    tweak: Seq<u8>,
    point: Seq<u8>,
    nonce: Seq<u8>,
    share: Seq<u8>,
) -> bool {
    exists|stored: Seq<u8>, plain: Seq<u8>|
        #![trigger stored_for(stored, plain)]
        stored_for(stored, plain) && adaptor_share(
            secret,
            other,
            other_nonce,
            message,
            Some(tweak),
            point,
            stored,
            plain,
            nonce,
            share,
        )
}

/// What follows when the claim key is there: the claim is signed, hiding the secret's point, and
/// the Ark transfer prepared.
pub open spec fn offer_signs(
    args: OfferArgsView,
    state: StateView,
    key: Seq<u8>,
    next: Result<(OfferPhase, Action), SwapError>,
) -> bool {
    match address_of_text(args.payout, args.network) {
        None => next == Err::<(OfferPhase, Action), SwapError>(SwapError::InvalidAddress),
        Some((_, script)) => match secret_of(state) {
            Err(error) => next == Err::<(OfferPhase, Action), SwapError>(error),
            Ok(secret) => match accepted_ids(state) {
                Err(error) => next == Err::<(OfferPhase, Action), SwapError>(error),
                Ok(ids) => match offered_claim(args.network, state.relay, script) {
                    Err(error) => next == Err::<(OfferPhase, Action), SwapError>(error),
                    Ok(response) => match nonce_of_hex(state.relay.request.btc_payer_public_nonce_hex) {
                        Err(error) => next == Err::<(OfferPhase, Action), SwapError>(error),
                        Ok(btc_nonce) => match public_key_of_text(state.relay.request.btc_payer_claim_pubkey) {
                            None => next == Err::<(OfferPhase, Action), SwapError>(SwapError::InvalidPublicKey),
                            Some(btc_key) => {
                                let tweak = lock_tweak(response.lock.taproot);
                                match next {
                                    Ok((phase, action)) => {
                                        &&& phase matches OfferPhase::Prepared { nonce, share } && is_adaptor_share(
                                            key,
                                            btc_key,
                                            btc_nonce,
                                            key_spend_sighash(response.claim, lock_output(response.lock))->0,
                                            tweak,
                                            point_of(secret),
                                            nonce@,
                                            share@,
                                        )
                                        &&& action matches Action::PrepareTransfer {
                                            destination,
                                            amount,
                                            payout,
                                            point,
                                            inputs,
                                        } && destination@ == state.relay.request.ark_receive && amount
                                            == response.lock.amount && payout@ == script && point@ == point_of(secret)
                                            && inputs@ == ids
                                    },
                                    Err(error) => {
                                        ||| error == SwapError::AdaptorNonceCancels && some_nonce_cancels(
                                            point_of(secret),
                                        )
                                        ||| error == SwapError::InvalidTweak && !tweak_fits(
                                            point_of(key),
                                            btc_key,
                                            Some(tweak),
                                        )
                                    },
                                }
                            },
                        },
                    },
                },
            },
        },
    }
}

/// The relay file of an offer.
pub open spec fn offered_relay(
    relay: RelayView,
    response: ResponseView,
    offer: OfferView,
    transfer_hex: Seq<char>,
    nonce: Seq<u8>,
    share: Seq<u8>,
) -> RelayView {
    RelayView {
        ark_transfer: Some(TransferTextView { offer: offer_text(offer), transfer_package_hex: transfer_hex }),
        btc_funding: Some(
            FundingView {
                funding_txid: txid_text(txid_of(response.funding)),
                funding_vout: relay.request.funding_output_index,
                funding_tx_hex: hex_of_tx(response.funding),
                lock_address: response.lock.address,
                lock_amount_sat: response.lock.amount,
            },
        ),
        claim_request: Some(
            ClaimRequestView {
                claim_tx_hex: hex_of_tx(response.claim),
                claim_sighash_hex: hex_text(key_spend_sighash(response.claim, lock_output(response.lock))->0),
                tap_tweak_hex: hex_text(lock_tweak(response.lock.taproot)),
                btc_payer_public_nonce_hex: relay.request.btc_payer_public_nonce_hex,
                claim_amount_sat: response.claim.output[0].value,
            },
        ),
        ark_claim_partial: Some(
            ClaimPartialView { ark_public_nonce_hex: hex_text(nonce), ark_partial_sig_hex: hex_text(share) },
        ),
        status: SwapStatus::Offered,
        ..relay
    }
}

/// What follows when the Ark transfer is prepared: the offer is stored with its transcript before it
/// is published.
pub open spec fn offer_stores(
    args: OfferArgsView,
    before: StateView,
    nonce: Seq<u8>,
    share: Seq<u8>,
    offer: OfferView,
    transfer_hex: Seq<char>,
    after: Option<StateView>,
    next: Result<(OfferPhase, Action), SwapError>,
) -> bool {
    match address_of_text(args.payout, args.network) {
        None => after == Some(before) && next == Err::<(OfferPhase, Action), SwapError>(SwapError::InvalidAddress),
        Some((_, script)) => match offered_claim(args.network, before.relay, script) {
            Err(error) => after == Some(before) && next == Err::<(OfferPhase, Action), SwapError>(error),
            Ok(response) => {
                let relay = offered_relay(
                    before.relay,
                    response,
                    OfferView { id: args.swap_id, ..offer },
                    transfer_hex,
                    nonce,
                    share,
                );
                match response_commitment(relay) {
                    Err(error) => after == Some(before) && next == Err::<(OfferPhase, Action), SwapError>(error),
                    Ok(digest) => {
                        &&& after == Some(
                            StateView {
                                relay,
                                status: SwapStatus::Offered,
                                peer_transcript_hash_hex: Some(digest),
                                ..before
                            },
                        )
                        &&& next matches Ok((OfferPhase::Offered, Action::StoreState))
                    },
                }
            },
        },
    }
}

/// What the offer flow does next.
pub open spec fn offer_next(
    args: OfferArgsView,
    phase: OfferPhase,
    reply: Reply,
    before: Option<StateView>,
    after: Option<StateView>,
    next: Result<(OfferPhase, Action), SwapError>,
) -> bool {
    match (phase, reply, before) {
        (OfferPhase::Begin, Reply::Done, _) => after == before && offer_begins(args, before, next),
        (OfferPhase::Replay, Reply::MaybeRelay(current), Some(state)) => after == before && offer_replays(
            args,
            state,
            option_view(current),
            next,
        ),
        (OfferPhase::Fresh, Reply::Relay(relay), _) => after == before && (if swap_refusal(relay@, args.swap_id) is Some {
            next == Err::<(OfferPhase, Action), SwapError>(swap_refusal(relay@, args.swap_id)->0)
        } else if !only_requests(relay@) {
            next == Err::<(OfferPhase, Action), SwapError>(SwapError::RequestAnswered)
        } else {
            next matches Ok((OfferPhase::FreshRequest { relay: kept }, Action::CheckRequest(request))) && kept@ == relay@
                && request@ == relay@.request
        }),
        (OfferPhase::FreshRequest { relay }, Reply::Log(log), _) => after == before && (if !(request_check(
            answer_views(log@),
            relay@.request,
        ) is Pass) {
            next == Err::<(OfferPhase, Action), SwapError>(
                check_error(request_check(answer_views(log@), relay@.request)),
            )
        } else if ark_address_of_text(relay@.request.ark_receive) is None {
            next == Err::<(OfferPhase, Action), SwapError>(SwapError::InvalidArkAddress)
        } else {
            next matches Ok((OfferPhase::FreshAddress { relay: kept }, Action::ValidateArkAddress(address))) && kept@
                == relay@ && address@ == relay@.request.ark_receive
        }),
        (OfferPhase::FreshAddress { relay }, Reply::Done, _) => after == before && (next matches Ok(
            (
                OfferPhase::FreshInputs { relay: kept },
                Action::SelectInputs { amount, refund_height, safety_margin_blocks },
            ),
        ) && kept@ == relay@ && amount == relay@.request.amount_sat && refund_height == relay@.request.refund_height
            && safety_margin_blocks == relay@.request.safety_margin_blocks),
        (OfferPhase::FreshInputs { relay }, Reply::Inputs { inputs, log }, _) => after == before && ({
            let step = live_inputs(
                answer_views(log@),
                vtxo_views(inputs@),
                relay@.request.refund_height,
                relay@.request.safety_margin_blocks,
            );
            if step is Pass {
                next matches Ok((OfferPhase::FreshKey { relay: kept, ids }, Action::NewKey)) && kept@ == relay@ && ids@
                    == vtxo_ids(vtxo_views(inputs@))
            } else {
                next == Err::<(OfferPhase, Action), SwapError>(check_error(step))
            }
        }),
        (OfferPhase::FreshKey { relay, ids }, Reply::NewKey(key, index), _) => offer_records(
            args,
            relay@,
            ids@,
            key@,
            index,
            before,
            after,
            next,
        ),
        (OfferPhase::Recorded, Reply::Done, Some(state)) => after == before && (next matches Ok(
            (OfferPhase::Resumed, Action::CheckRequest(request)),
        ) && request@ == state.relay.request),
        (OfferPhase::Resumed, Reply::Log(log), Some(state)) => after == before && (if !(request_check(
            answer_views(log@),
            state.relay.request,
        ) is Pass) {
            next == Err::<(OfferPhase, Action), SwapError>(
                check_error(request_check(answer_views(log@), state.relay.request)),
            )
        } else {
            match accepted_ids(state) {
                Err(error) => next == Err::<(OfferPhase, Action), SwapError>(error),
                Ok(ids) => next matches Ok((OfferPhase::Live, Action::CheckArkInputs(asked))) && asked@ == ids,
            }
        }),
        (OfferPhase::Live, Reply::Inputs { inputs, log }, Some(state)) => after == before && match accepted_ids(state) {
            Err(error) => next == Err::<(OfferPhase, Action), SwapError>(error),
            Ok(ids) => {
                let step = live_inputs(
                    answer_views(log@),
                    vtxo_views(inputs@),
                    state.relay.request.refund_height,
                    state.relay.request.safety_margin_blocks,
                );
                if vtxo_ids(vtxo_views(inputs@)) != ids {
                    next == Err::<(OfferPhase, Action), SwapError>(SwapError::UnexpectedReply)
                } else if step is Pass {
                    next matches Ok((OfferPhase::Locked, Action::LockVtxos(locked))) && locked@ == ids
                } else {
                    next == Err::<(OfferPhase, Action), SwapError>(check_error(step))
                }
            },
        },
        (OfferPhase::Locked, Reply::Done, Some(state)) => after == before && (if ark_address_of_text(
            state.relay.request.ark_receive,
        ) is None {
            next == Err::<(OfferPhase, Action), SwapError>(SwapError::InvalidArkAddress)
        } else if secret_of(state) is Err {
            next == Err::<(OfferPhase, Action), SwapError>(secret_of(state)->Err_0)
        } else {
            next matches Ok((OfferPhase::Key, Action::Key(index))) && index == state.claim_key_index
        }),
        (OfferPhase::Key, Reply::Key(key), Some(state)) => after == before && offer_signs(args, state, key@, next),
        (OfferPhase::Prepared { nonce, share }, Reply::Prepared { offer, transfer_hex }, Some(state)) => offer_stores(
            args,
            state,
            nonce@,
            share@,
            offer@,
            transfer_hex@,
            after,
            next,
        ),
        (OfferPhase::Offered, Reply::Done, _) => after == before && next matches Ok(
            (OfferPhase::Published, Action::StoreRelay),
        ),
        (OfferPhase::Published, Reply::Done, _) => after == before && next matches Ok(
            (OfferPhase::Published, Action::End),
        ),
        _ => after == before && next == Err::<(OfferPhase, Action), SwapError>(SwapError::UnexpectedReply),
    }
}

/// Begins the offer flow.
fn begin_offer(args: &OfferArgs, state: &Option<StoredBtcArkSwap>) -> (next: Result<(OfferPhase, Action), SwapError>)
    ensures
        offer_begins(args@, option_view(*state), next),
{
    let (payout, _) = match parse_address(args.payout.as_str(), args.network) {
        Ok(address) => address,
        Err(error) => return Err(error),
    };
    let stored = match state {
        Some(stored) => stored,
        None => return Ok((OfferPhase::Fresh, Action::LoadRelay)),
    };
    if matches!(stored.status, SwapStatus::Cancelled) {
        return Err(SwapError::SwapAborted);
    }
    let terms = match stored.relay.terms() {
        Ok(terms) => terms,
        Err(error) => return Err(error),
    };
    if terms.btc_payout_address != payout {
        return Err(SwapError::PayoutChanged);
    }
    if stored.relay.ark_claim_partial.is_some() {
        if matches!(stored.status, SwapStatus::Offered) {
            Ok((OfferPhase::Replay, Action::TryLoadRelay))
        } else {
            Err(SwapError::NotAwaitingFunding)
        }
    } else {
        Ok((OfferPhase::Resumed, Action::CheckRequest(stored.relay.request.clone())))
    }
}

/// Replays a stored offer.
fn replay_offer(args: &OfferArgs, state: &StoredBtcArkSwap, current: &Option<RelayFile>) -> (next: Result<
    (OfferPhase, Action),
    SwapError,
>)
    ensures
        offer_replays(args@, state@, option_view(*current), next),
{
    let relay = match current {
        Some(relay) => relay,
        None => return Ok((OfferPhase::Published, Action::StoreRelay)),
    };
    if relay.btc_claim_adaptor.is_none() {
        return Ok((OfferPhase::Published, Action::StoreRelay));
    }
    match relay.require_swap(args.swap_id) {
        Ok(()) => {},
        Err(error) => return Err(error),
    }
    if !relay.request.same(&state.relay.request) {
        return Err(SwapError::RequestChanged);
    }
    let digest = match relay.response_commitment_hash_hex() {
        Ok(digest) => digest,
        Err(error) => return Err(error),
    };
    match &state.peer_transcript_hash_hex {
        Some(expected) if *expected == digest => Ok((OfferPhase::Published, Action::End)),
        _ => Err(SwapError::TranscriptChanged),
    }
}

/// Goes on with a fresh request.
fn take_request(args: &OfferArgs, relay: RelayFile) -> (next: Result<(OfferPhase, Action), SwapError>)
    ensures
        offer_next(args@, OfferPhase::Fresh, Reply::Relay(relay), None, None, next),
{
    match relay.require_swap(args.swap_id) {
        Ok(()) => {},
        Err(error) => return Err(error),
    }
    if relay.terms.is_some() || relay.ark_transfer.is_some() || relay.btc_funding.is_some()
        || relay.claim_request.is_some() || relay.ark_claim_partial.is_some() || relay.btc_claim_adaptor.is_some() {
        return Err(SwapError::RequestAnswered);
    }
    let request = relay.request.clone();
    Ok((OfferPhase::FreshRequest { relay }, Action::CheckRequest(request)))
}

/// Goes on when a fresh request is checked.
fn take_address(relay: RelayFile, log: &Vec<ChainAnswer>) -> (next: Result<(OfferPhase, Action), SwapError>)
    ensures
        ({
            let step = request_check(answer_views(log@), relay@.request);
            if !(step is Pass) {
                next == Err::<(OfferPhase, Action), SwapError>(check_error(step))
            } else if ark_address_of_text(relay@.request.ark_receive) is None {
                next == Err::<(OfferPhase, Action), SwapError>(SwapError::InvalidArkAddress)
            } else {
                next matches Ok((OfferPhase::FreshAddress { relay: kept }, Action::ValidateArkAddress(address))) && kept@
                    == relay@ && address@ == relay@.request.ark_receive
            }
        }),
{
    match passed(validate_request(log, &relay.request)) {
        Ok(()) => {},
        Err(error) => return Err(error),
    }
    match parse_ark_address(relay.request.ark_receive.as_str()) {
        Ok(_) => {
            let address = relay.request.ark_receive.clone();
            Ok((OfferPhase::FreshAddress { relay }, Action::ValidateArkAddress(address)))
        },
        Err(error) => Err(error),
    }
}

/// Records the inputs with a fresh secret.
fn record_inputs(
    args: &OfferArgs,
    relay: RelayFile,
    ids: &Vec<VtxoId>,
    key: &SecretKey,
    index: u32,
    state: &mut Option<StoredBtcArkSwap>,
) -> (next: Result<(OfferPhase, Action), SwapError>)
    ensures
        offer_records(
            args@,
            relay@,
            ids@,
            key@,
            index,
            option_view(*old(state)),
            option_view(*final(state)),
            next,
        ),
{
    let (payout, script) = match parse_address(args.payout.as_str(), args.network) {
        Ok(address) => address,
        Err(error) => return Err(error),
    };
    let secret = SecretKey::random();
    let ghost request = relay@;
    let mut relay = relay;
    relay.terms = Some(
        OfferTerms {
            amount_sat: relay.request.amount_sat,
            btc_payout_address: payout,
            btc_payout_script_hex: bytes_hex(script.as_slice()),
            adaptor_point: secret.public_key().to_string(),
            ark_payer_claim_pubkey: key.public_key().to_string(),
        },
    );
    assert(relay@ =~= (RelayView {
        terms: Some(terms_text(request.request.amount_sat, payout@, script@, secret@, key@)),
        ..request
    }));
    let mut fresh = StoredBtcArkSwap::new(args.swap_id, SwapRole::ArkPayer, args.coordinator.clone(), index, relay);
    let ghost begun = fresh@;
    fresh.adaptor_secret_hex = Some(secret_key_hex(&secret));
    fresh.ark_input_ids = id_texts(ids);
    assert(fresh@ =~= recorded(args@, request, ids@, index, payout@, script@, secret@, key@));
    *state = Some(fresh);
    Ok((OfferPhase::Recorded, Action::StoreState))
}

/// Goes on when the claim key is there.
fn sign_offer(args: &OfferArgs, state: &StoredBtcArkSwap, key: &SecretKey) -> (next: Result<(OfferPhase, Action), SwapError>)
    ensures
        offer_signs(args@, state@, key@, next),
{
    let (_, script) = match parse_address(args.payout.as_str(), args.network) {
        Ok(address) => address,
        Err(error) => return Err(error),
    };
    let secret = match adaptor_secret(state) {
        Ok(secret) => secret,
        Err(error) => return Err(error),
    };
    let inputs = match state.accepted_ark_input_ids() {
        Ok(ids) => ids,
        Err(error) => return Err(error),
    };
    let paid = script.clone();
    assert(paid@ == script@);
    let (lock, _, claim) = match make_claim(args.network, &state.relay, paid) {
        Ok(found) => found,
        Err(error) => return Err(error),
    };
    let sighash = match cooperative_claim_sighash(&claim, &lock) {
        Ok(hash) => hash,
        Err(error) => return Err(error),
    };
    let btc_nonce = match public_nonce_from_hex(state.relay.request.btc_payer_public_nonce_hex.as_str()) {
        Ok(nonce) => nonce,
        Err(error) => return Err(error),
    };
    let btc_key = match PublicKey::from_str(state.relay.request.btc_payer_claim_pubkey.as_str()) {
        Ok(key) => key,
        Err(error) => return Err(error),
    };
    let tweak = lock.taproot.tap_tweak();
    let point = secret.point();
    assert(tweak_view(Some(tweak)) == Some(lock_tweak(lock@.taproot)));
    match sign_cooperative_claim_adaptor_partial(key, &btc_key, &btc_nonce, sighash, Some(tweak), &point) {
        Ok((nonce, share)) => {
            assert(is_adaptor_share(
                key@,
                btc_key@,
                btc_nonce@,
                sighash@,
                lock_tweak(lock@.taproot),
                point_of(secret@),
                nonce@,
                share@,
            ));
            let destination = state.relay.request.ark_receive.clone();
            Ok(
                (
                    OfferPhase::Prepared { nonce, share },
                    Action::PrepareTransfer { destination, amount: lock.amount, payout: script, point, inputs },
                ),
            )
        },
        Err(error) => Err(error),
    }
}

/// The relay file of an offer.
fn write_offer(
    relay: &RelayFile,
    lock: &BtcLockContract,
    funding: &Transaction,
    claim: &Transaction,
    sighash: &[u8; 32],
    offer: &ArkOffer,
    transfer_hex: String,
    nonce: &PublicNonce,
    share: &PartialSignature,
) -> (offered: RelayFile)
    requires
        claim@.output.len() > 0,
        key_spend_sighash(claim@, lock_output(lock@)) == Some(sighash@),
    ensures
        offered@ == offered_relay(
            relay@,
            ResponseView { lock: lock@, funding: funding@, claim: claim@ },
            offer@,
            transfer_hex@,
            nonce@,
            share@,
        ),
{
    assert(claim@.output.len() == claim.output@.len());
    assert(claim@.output[0] == claim.output[0]@);
    let mut offered = relay.clone();
    offered.ark_transfer = Some(
        ArkTransferArtifact { offer: ArkOfferArtifact::from_offer(offer), transfer_package_hex: transfer_hex },
    );
    offered.btc_funding = Some(
        BtcFundingArtifact {
            funding_txid: txid_to_string(&funding.txid()),
            funding_vout: relay.request.funding_output_index,
            funding_tx_hex: funding.to_hex(),
            lock_address: lock.address.clone(),
            lock_amount_sat: lock.amount,
        },
    );
    offered.claim_request = Some(
        BtcClaimRequestArtifact {
            claim_tx_hex: claim.to_hex(),
            claim_sighash_hex: bytes_hex(sighash.as_slice()),
            tap_tweak_hex: bytes_hex(lock.taproot.tap_tweak().as_slice()),
            btc_payer_public_nonce_hex: relay.request.btc_payer_public_nonce_hex.clone(),
            claim_amount_sat: claim.output[0].value,
        },
    );
    offered.ark_claim_partial = Some(
        ArkClaimPartialArtifact { ark_public_nonce_hex: nonce.to_hex(), ark_partial_sig_hex: share.to_hex() },
    );
    offered.status = SwapStatus::Offered;
    assert(offered@ =~= offered_relay(
        relay@,
        ResponseView { lock: lock@, funding: funding@, claim: claim@ },
        offer@,
        transfer_hex@,
        nonce@,
        share@,
    ));
    offered
}

/// Goes on when the Ark transfer is prepared.
fn store_offer(
    args: &OfferArgs,
    stored: &mut StoredBtcArkSwap,
    nonce: &PublicNonce,
    share: &PartialSignature,
    offer: ArkOffer,
    transfer_hex: String,
) -> (next: Result<(OfferPhase, Action), SwapError>)
    ensures
        offer_stores(args@, old(stored)@, nonce@, share@, offer@, transfer_hex@, Some(final(stored)@), next),
{
    let (_, script) = match parse_address(args.payout.as_str(), args.network) {
        Ok(address) => address,
        Err(error) => return Err(error),
    };
    let (lock, funding, claim) = match make_claim(args.network, &stored.relay, script) {
        Ok(found) => found,
        Err(error) => return Err(error),
    };
    let sighash = match cooperative_claim_sighash(&claim, &lock) {
        Ok(hash) => hash,
        Err(error) => return Err(error),
    };
    let ghost given = offer@;
    let mut offer = offer;
    offer.id = args.swap_id;
    assert(offer@ =~= (OfferView { id: args.swap_id@, ..given }));
    let relay = write_offer(&stored.relay, &lock, &funding, &claim, &sighash, &offer, transfer_hex, nonce, share);
    let digest = match relay.response_commitment_hash_hex() {
        Ok(digest) => digest,
        Err(error) => return Err(error),
    };
    stored.relay = relay;
    stored.status = SwapStatus::Offered;
    stored.peer_transcript_hash_hex = Some(digest);
    assert(stored@ =~= (StateView {
        relay: relay@,
        status: SwapStatus::Offered,
        peer_transcript_hash_hex: Some(digest@),
        ..old(stored)@
    }));
    Ok((OfferPhase::Offered, Action::StoreState))
}

/// Goes on when the recorded request is checked again.
fn resume_offer(stored: &StoredBtcArkSwap, log: &Vec<ChainAnswer>) -> (next: Result<(OfferPhase, Action), SwapError>)
    ensures
        ({
            let step = request_check(answer_views(log@), stored@.relay.request);
            if !(step is Pass) {
                next == Err::<(OfferPhase, Action), SwapError>(check_error(step))
            } else {
                match accepted_ids(stored@) {
                    Err(error) => next == Err::<(OfferPhase, Action), SwapError>(error),
                    Ok(ids) => next matches Ok((OfferPhase::Live, Action::CheckArkInputs(asked))) && asked@ == ids,
                }
            }
        }),
{
    match passed(validate_request(log, &stored.relay.request)) {
        Ok(()) => {},
        Err(error) => return Err(error),
    }
    match stored.accepted_ark_input_ids() {
        Ok(ids) => Ok((OfferPhase::Live, Action::CheckArkInputs(ids))),
        Err(error) => Err(error),
    }
}

/// Goes on when the recorded inputs are loaded.
fn lock_inputs(stored: &StoredBtcArkSwap, inputs: &Vec<ArkVtxo>, log: &Vec<ChainAnswer>) -> (next: Result<
    (OfferPhase, Action),
    SwapError,
>)
    ensures
        match accepted_ids(stored@) {
            Err(error) => next == Err::<(OfferPhase, Action), SwapError>(error),
            Ok(ids) => {
                let step = live_inputs(
                    answer_views(log@),
                    vtxo_views(inputs@),
                    stored@.relay.request.refund_height,
                    stored@.relay.request.safety_margin_blocks,
                );
                if vtxo_ids(vtxo_views(inputs@)) != ids {
                    next == Err::<(OfferPhase, Action), SwapError>(SwapError::UnexpectedReply)
                } else if step is Pass {
                    next matches Ok((OfferPhase::Locked, Action::LockVtxos(locked))) && locked@ == ids
                } else {
                    next == Err::<(OfferPhase, Action), SwapError>(check_error(step))
                }
            },
        },
{
    let ids = match stored.accepted_ark_input_ids() {
        Ok(ids) => ids,
        Err(error) => return Err(error),
    };
    if !same_ids(&list_ids(inputs), &ids) {
        return Err(SwapError::UnexpectedReply);
    }
    match passed(
        verify_live_ark_inputs(
            log,
            inputs,
            stored.relay.request.refund_height,
            stored.relay.request.safety_margin_blocks,
        ),
    ) {
        Ok(()) => Ok((OfferPhase::Locked, Action::LockVtxos(ids))),
        Err(error) => Err(error),
    }
}

/// Goes on when the inputs of a fresh offer are selected.
fn take_inputs(relay: RelayFile, inputs: &Vec<ArkVtxo>, log: &Vec<ChainAnswer>) -> (next: Result<
    (OfferPhase, Action),
    SwapError,
>)
    ensures
        ({
            let step = live_inputs(
                answer_views(log@),
                vtxo_views(inputs@),
                relay@.request.refund_height,
                relay@.request.safety_margin_blocks,
            );
            if step is Pass {
                next matches Ok((OfferPhase::FreshKey { relay: kept, ids }, Action::NewKey)) && kept@ == relay@ && ids@
                    == vtxo_ids(vtxo_views(inputs@))
            } else {
                next == Err::<(OfferPhase, Action), SwapError>(check_error(step))
            }
        }),
{
    match passed(
        verify_live_ark_inputs(log, inputs, relay.request.refund_height, relay.request.safety_margin_blocks),
    ) {
        Ok(()) => {
            let ids = list_ids(inputs);
            Ok((OfferPhase::FreshKey { relay, ids }, Action::NewKey))
        },
        Err(error) => Err(error),
    }
}

/// One step of the flow in which the Ark payer answers a request.
///
/// The inputs and the secret are recorded before the server cosigns anything, and the response is
/// stored before it is published; a stored response is replayed, never signed again.
#[verifier::rlimit(40)]
pub fn ark_offer(args: &OfferArgs, phase: OfferPhase, reply: Reply, state: &mut Option<StoredBtcArkSwap>) -> (next: Result<
    (OfferPhase, Action),
    SwapError,
>)
    ensures
        offer_next(args@, phase, reply, option_view(*old(state)), option_view(*final(state)), next),
{
    match (phase, reply) {
        (OfferPhase::Begin, Reply::Done) => begin_offer(args, state),
        (OfferPhase::Replay, Reply::MaybeRelay(current)) => match state {
            Some(stored) => replay_offer(args, stored, &current),
            None => Err(SwapError::UnexpectedReply),
        },
        (OfferPhase::Fresh, Reply::Relay(relay)) => take_request(args, relay),
        (OfferPhase::FreshRequest { relay }, Reply::Log(log)) => take_address(relay, &log),
        (OfferPhase::FreshAddress { relay }, Reply::Done) => {
            let action = Action::SelectInputs {
                amount: relay.request.amount_sat,
                refund_height: relay.request.refund_height,
                safety_margin_blocks: relay.request.safety_margin_blocks,
            };
            Ok((OfferPhase::FreshInputs { relay }, action))
        },
        (OfferPhase::FreshInputs { relay }, Reply::Inputs { inputs, log }) => take_inputs(relay, &inputs, &log),
        (OfferPhase::FreshKey { relay, ids }, Reply::NewKey(key, index)) => record_inputs(
            args,
            relay,
            &ids,
            &key,
            index,
            state,
        ),
        (OfferPhase::Recorded, Reply::Done) => match state {
            Some(stored) => Ok((OfferPhase::Resumed, Action::CheckRequest(stored.relay.request.clone()))),
            None => Err(SwapError::UnexpectedReply),
        },
        (OfferPhase::Resumed, Reply::Log(log)) => match state {
            Some(stored) => resume_offer(stored, &log),
            None => Err(SwapError::UnexpectedReply),
        },
        (OfferPhase::Live, Reply::Inputs { inputs, log }) => match state {
            Some(stored) => lock_inputs(stored, &inputs, &log),
            None => Err(SwapError::UnexpectedReply),
        },
        (OfferPhase::Locked, Reply::Done) => match state {
            Some(stored) => match parse_ark_address(stored.relay.request.ark_receive.as_str()) {
                Ok(_) => match adaptor_secret(stored) {
                    Ok(_) => Ok((OfferPhase::Key, Action::Key(stored.claim_key_index))),
                    Err(error) => Err(error),
                },
                Err(error) => Err(error),
            },
            None => Err(SwapError::UnexpectedReply),
        },
        (OfferPhase::Key, Reply::Key(key)) => match state {
            Some(stored) => sign_offer(args, stored, &key),
            None => Err(SwapError::UnexpectedReply),
        },
        (OfferPhase::Prepared { nonce, share }, Reply::Prepared { offer, transfer_hex }) => match state.take() {
            Some(stored) => {
                let mut stored = stored;
                let next = store_offer(args, &mut stored, &nonce, &share, offer, transfer_hex);
                *state = Some(stored);
                next
            },
            None => Err(SwapError::UnexpectedReply),
        },
        (OfferPhase::Offered, Reply::Done) => Ok((OfferPhase::Published, Action::StoreRelay)),
        (OfferPhase::Published, Reply::Done) => Ok((OfferPhase::Published, Action::End)),
        _ => Err(SwapError::UnexpectedReply),
    }
}

/// A stored offer is never signed again: with a share of the claim, the flow only publishes what is
/// stored, and changes nothing.
pub proof fn law_offer_is_replayed(
    args: OfferArgsView,
    phase: OfferPhase,
    reply: Reply,
    before: Option<StateView>,
    after: Option<StateView>,
    next: Result<(OfferPhase, Action), SwapError>,
)
    requires
        offer_next(args, phase, reply, before, after, next),
        phase is Replay || phase is Published || phase is Offered || (phase is Begin && (before matches Some(state)
            && state.relay.ark_claim_partial is Some)),
    ensures
        after == before,
        next matches Ok((to, _)) ==> to is Replay || to is Published,
{
}

/// The inputs are recorded before the server cosigns them: the transfer is prepared only of the
/// inputs that a stored state names, and every change of the state is stored before anything else.
pub proof fn law_inputs_are_recorded_before_cosigning(
    args: OfferArgsView,
    phase: OfferPhase,
    reply: Reply,
    before: Option<StateView>,
    after: Option<StateView>,
    next: Result<(OfferPhase, Action), SwapError>,
)
    requires
        offer_next(args, phase, reply, before, after, next),
    ensures
        after != before ==> next matches Ok((_, Action::StoreState)),
        next matches Ok((_, Action::PrepareTransfer { inputs, .. })) ==> (before matches Some(state) && accepted_ids(state)
            == Ok::<Seq<VtxoId>, SwapError>(inputs@)),
        next matches Ok((_, Action::StoreRelay)) ==> phase is Offered || phase is Replay,
{
}

/// What the Ark payer offers is taken by the BTC payer: where the texts of the funding and of the
/// claim are read back, and the terms hold the payout, the published relay file is a response.
pub proof fn law_offer_is_a_response(
    network: Network,
    relay: RelayView,
    response: ResponseView,
    payout: Seq<u8>,
    offer: OfferView,
    transfer_hex: Seq<char>,
    nonce: Seq<u8>,
    share: Seq<u8>,
)
    requires
        offered_claim(network, relay, payout) == Ok::<ResponseView, SwapError>(response),
        relay.btc_claim_adaptor is None,
        relay.terms matches Some(terms) && address_of_text(terms.btc_payout_address, network) matches Some((_, script))
            && script == payout && hex_value(terms.btc_payout_script_hex) == Some(payout),
        tx_of_hex(hex_of_tx(response.funding)) == Some(response.funding),
        tx_of_hex(hex_of_tx(response.claim)) == Some(response.claim),
        key_spend_sighash(response.claim, lock_output(response.lock)) matches Some(hash) && hash.len() == 32,
        lock_tweak(response.lock.taproot).len() == 32,
    ensures
        response_of(network, offered_relay(relay, response, offer, transfer_hex, nonce, share)) == Ok::<
            ResponseView,
            SwapError,
        >(response),
{
    let offered = offered_relay(relay, response, offer, transfer_hex, nonce, share);
    law_hex_round_trip(key_spend_sighash(response.claim, lock_output(response.lock))->0);
    law_hex_round_trip(lock_tweak(response.lock.taproot));
    assert(agreed_funding(network, offered) == agreed_funding(network, relay));
    let template = template_of(relay.request)->Ok_0.0;
    assert(bare(template));
    assert(stripped(response.funding).input =~= response.funding.input) by {
        assert forall|i: int| 0 <= i < template.input.len() implies stripped(response.funding).input[i]
            == template.input[i] by {
            assert(template.input[i].witness.len() == 0);
            assert(template.input[i].witness =~= Seq::<Seq<u8>>::empty());
        }
    }
    assert(stripped(response.funding) =~= response.funding);
}

/// The offer asks for VTXOs that are worth the amount of the request, live up to its refund height and
/// margin, and has that same amount paid to the address of the request, out of the inputs that it
/// recorded, against the payout that was given and the point of its own secret.
pub proof fn law_offer_pays_the_amount_of_the_request(
    args: OfferArgsView,
    phase: OfferPhase,
    reply: Reply,
    before: Option<StateView>,
    after: Option<StateView>,
    next: Result<(OfferPhase, Action), SwapError>,
)
    requires
        offer_next(args, phase, reply, before, after, next),
    ensures
        phase matches OfferPhase::FreshAddress { relay } ==> (reply is Done ==> after == before && (next matches Ok(
            (
                OfferPhase::FreshInputs { relay: kept },
                Action::SelectInputs { amount, refund_height, safety_margin_blocks },
            ),
        ) && kept@ == relay@ && amount == relay@.request.amount_sat && refund_height == relay@.request.refund_height
            && safety_margin_blocks == relay@.request.safety_margin_blocks)),
        next matches Ok((_, Action::SelectInputs { .. })) ==> phase is FreshAddress && reply is Done,
        next matches Ok((_, Action::PrepareTransfer { destination, amount, payout, point, inputs })) ==> {
            &&& phase is Key && reply is Key
            &&& before matches Some(state) && amount == state.relay.request.amount_sat && destination@
                == state.relay.request.ark_receive && accepted_ids(state) == Ok::<Seq<VtxoId>, SwapError>(inputs@)
                && secret_of(state) is Ok && point@ == point_of(secret_of(state)->Ok_0)
            &&& address_of_text(args.payout, args.network) matches Some((_, script)) && script == payout@
        },
{
}

/// What is selected is recorded, all of it and in its order, with the key that was derived, a secret of
/// which only the point is told, and terms that repeat the amount of the request and the payout: the
/// state is stored before anything is signed.
pub proof fn law_offer_records_what_was_selected(
    args: OfferArgsView,
    phase: OfferPhase,
    reply: Reply,
    before: Option<StateView>,
    after: Option<StateView>,
    next: Result<(OfferPhase, Action), SwapError>,
)
    requires
        offer_next(args, phase, reply, before, after, next),
    ensures
        phase matches OfferPhase::FreshInputs { relay } ==> (reply matches Reply::Inputs { inputs, log } ==> if live_inputs(
            answer_views(log@),
            vtxo_views(inputs@),
            relay@.request.refund_height,
            relay@.request.safety_margin_blocks,
        ) is Pass {
            next matches Ok((OfferPhase::FreshKey { relay: kept, ids }, Action::NewKey)) && kept@ == relay@ && ids@.len()
                == inputs@.len() && forall|i: int|
                0 <= i < inputs@.len() ==> (#[trigger] ids@[i]).point == inputs@[i]@.point
        } else {
            next is Err
        }),
        phase matches OfferPhase::FreshKey { relay, ids } ==> (reply matches Reply::NewKey(key, index) ==> (address_of_text(
            args.payout,
            args.network,
        ) matches Some((payout, script)) ==> {
            &&& next matches Ok((OfferPhase::Recorded, Action::StoreState))
            &&& after matches Some(state) && {
                &&& state.role == SwapRole::ArkPayer && state.swap_id == hex_text(args.swap_id) && state.coordinator
                    == args.coordinator && state.claim_key_index == index
                &&& state.ark_input_ids.len() == ids@.len()
                &&& forall|i: int| 0 <= i < ids@.len() ==> #[trigger] state.ark_input_ids[i] == vtxo_id_text(ids@[i])
                &&& state.relay.request == relay@.request && state.relay.swap_id == relay@.swap_id
                &&& state.status == relay@.status && state.relay.status == relay@.status
                &&& state.relay.terms matches Some(terms) && {
                    &&& terms.amount_sat == relay@.request.amount_sat
                    &&& terms.btc_payout_address == payout && hex_value(terms.btc_payout_script_hex) == Some(script)
                    &&& terms.ark_payer_claim_pubkey == hex_text(point_of(key@))
                    &&& state.adaptor_secret_hex matches Some(text) && hex_value(text) matches Some(secret) && is_secret(
                        secret,
                    ) && terms.adaptor_point == hex_text(point_of(secret))
                }
                &&& state.signed_claim_tx_hex is None && state.ark_recovery_input_ids.len() == 0
            }
        })),
        after != before ==> phase is FreshKey || phase is Prepared,
{
    if phase is FreshKey && reply is NewKey && address_of_text(args.payout, args.network) is Some {
        let (payout, script) = address_of_text(args.payout, args.network)->0;
        let relay = phase->FreshKey_relay@;
        let ids = phase->FreshKey_ids@;
        let key = reply->NewKey_0@;
        let index = reply->NewKey_1;
        let secret = choose|secret: Seq<u8>|
            #![trigger is_secret(secret)]
            is_secret(secret) && after->0 == recorded(args, relay, ids, index, payout, script, secret, key);
        law_hex_round_trip(secret);
        law_hex_round_trip(script);
    }
}

/// A request is answered exactly where the relay file is for this swap and holds nothing but a request
/// that passes its check; the recorded inputs are then checked again and locked, all of them, before the
/// key is asked for.
pub proof fn law_offer_checks_and_locks(
    args: OfferArgsView,
    phase: OfferPhase,
    reply: Reply,
    before: Option<StateView>,
    after: Option<StateView>,
    next: Result<(OfferPhase, Action), SwapError>,
)
    requires
        offer_next(args, phase, reply, before, after, next),
    ensures
        phase is Fresh ==> (reply matches Reply::Relay(relay) ==> {
            let fresh = swap_refusal(relay@, args.swap_id) is None && relay@.terms is None && relay@.ark_transfer is None
                && relay@.btc_funding is None && relay@.claim_request is None && relay@.ark_claim_partial is None
                && relay@.btc_claim_adaptor is None;
            if fresh {
                next matches Ok((OfferPhase::FreshRequest { relay: kept }, Action::CheckRequest(request))) && kept@
                    == relay@ && request@ == relay@.request
            } else {
                next is Err
            }
        }),
        phase matches OfferPhase::FreshRequest { relay } ==> (reply matches Reply::Log(log) ==> if request_check(
            answer_views(log@),
            relay@.request,
        ) is Pass && ark_address_of_text(relay@.request.ark_receive) is Some {
            next matches Ok((OfferPhase::FreshAddress { relay: kept }, Action::ValidateArkAddress(address))) && kept@
                == relay@ && address@ == relay@.request.ark_receive
        } else {
            next is Err
        }),
        before matches Some(state) ==> {
            &&& phase is Recorded && reply is Done ==> (next matches Ok((OfferPhase::Resumed, Action::CheckRequest(request)))
                && request@ == state.relay.request)
            &&& phase is Resumed ==> (reply matches Reply::Log(log) ==> if request_check(
                answer_views(log@),
                state.relay.request,
            ) is Pass && accepted_ids(state) is Ok {
                next matches Ok((OfferPhase::Live, Action::CheckArkInputs(ids))) && ids@ == accepted_ids(state)->Ok_0
            } else {
                next is Err
            })
            &&& phase is Live ==> (reply matches Reply::Inputs { inputs, log } ==> (accepted_ids(state) matches Ok(ids)
                ==> {
                let asked = inputs@.len() == ids.len() && forall|i: int|
                    0 <= i < ids.len() ==> (#[trigger] ids[i]).point == inputs@[i]@.point;
                if asked && live_inputs(
                    answer_views(log@),
                    vtxo_views(inputs@),
                    state.relay.request.refund_height,
                    state.relay.request.safety_margin_blocks,
                ) is Pass {
                    next matches Ok((OfferPhase::Locked, Action::LockVtxos(locked))) && locked@ == ids
                } else {
                    next is Err
                }
            }))
            &&& phase is Locked && reply is Done && ark_address_of_text(state.relay.request.ark_receive) is Some
                && secret_of(state) is Ok ==> (next matches Ok((OfferPhase::Key, Action::Key(index))) && index
                == state.claim_key_index)
        },
{
    if phase is Live && reply is Inputs && before is Some && accepted_ids(before->0) is Ok {
        let ids = accepted_ids(before->0)->Ok_0;
        let inputs = reply->Inputs_inputs@;
        let found = vtxo_ids(vtxo_views(inputs));
        if inputs.len() == ids.len() && forall|i: int|
            0 <= i < ids.len() ==> (#[trigger] ids[i]).point == inputs[i]@.point {
            assert forall|i: int| 0 <= i < ids.len() implies found[i] == ids[i] by {
                assert(ids[i].point == inputs[i]@.point);
            }
            assert(found =~= ids);
        }
        if found == ids {
            assert forall|i: int| 0 <= i < ids.len() implies (#[trigger] ids[i]).point == inputs[i]@.point by {
                assert(found[i] == ids[i]);
            }
        }
    }
}

/// How an offer begins: a fresh one reads the relay file; a stored one goes on for the same payout alone,
/// and unless it was aborted; one that is signed is published again while it is awaited, unless the
/// funding message that answers it is there already.
pub proof fn law_offer_is_resumed_for_its_payout(
    args: OfferArgsView,
    phase: OfferPhase,
    reply: Reply,
    before: Option<StateView>,
    after: Option<StateView>,
    next: Result<(OfferPhase, Action), SwapError>,
)
    requires
        offer_next(args, phase, reply, before, after, next),
    ensures
        phase is Begin && reply is Done ==> (address_of_text(args.payout, args.network) matches Some((payout, _))
            ==> match before {
            None => next matches Ok((OfferPhase::Fresh, Action::LoadRelay)),
            Some(state) => {
                let same = state.relay.terms matches Some(terms) && terms.btc_payout_address == payout;
                if state.status == SwapStatus::Cancelled || !same {
                    next is Err
                } else if state.relay.ark_claim_partial is None {
                    next matches Ok((OfferPhase::Resumed, Action::CheckRequest(request))) && request@
                        == state.relay.request
                } else if state.status == SwapStatus::Offered {
                    next matches Ok((OfferPhase::Replay, Action::TryLoadRelay))
                } else {
                    next is Err
                }
            },
        }),
        phase is Replay ==> (before matches Some(state) ==> (reply matches Reply::MaybeRelay(current) ==> match current {
            None => next matches Ok((_, Action::StoreRelay)),
            Some(relay) => if relay@.btc_claim_adaptor is None {
                next matches Ok((_, Action::StoreRelay))
            } else if swap_refusal(relay@, args.swap_id) is None && relay@.request == state.relay.request
                && response_commitment(relay@) is Ok && state.peer_transcript_hash_hex == Some(
                response_commitment(relay@)->Ok_0,
            ) {
                next matches Ok((_, Action::End))
            } else {
                next is Err
            },
        })),
        phase is Offered && reply is Done ==> (next matches Ok((OfferPhase::Published, Action::StoreRelay))),
{
}

/// What is offered: the transfer that was prepared, for this swap; the funding of the request with the
/// lock in its slot, and the claim of it that pays to the payout at the rate of the request; and the
/// share that was signed. The transcript of all this is pinned, and the state is stored.
pub proof fn law_offer_says_what_was_prepared(
    args: OfferArgsView,
    nonce: PublicNonce,
    share: PartialSignature,
    offer: ArkOffer,
    transfer_hex: String,
    before: StateView,
    after: Option<StateView>,
    next: Result<(OfferPhase, Action), SwapError>,
)
    requires
        offer_next(
            args,
            OfferPhase::Prepared { nonce, share },
            Reply::Prepared { offer, transfer_hex },
            Some(before),
            after,
            next,
        ),
        next is Ok,
    ensures
        next matches Ok((OfferPhase::Offered, Action::StoreState)),
        after matches Some(state) && state == (StateView {
            relay: state.relay,
            status: SwapStatus::Offered,
            peer_transcript_hash_hex: state.peer_transcript_hash_hex,
            ..before
        }) && response_commitment(state.relay) is Ok && state.peer_transcript_hash_hex == Some(
            response_commitment(state.relay)->Ok_0,
        ),
        ({
            let relay = after->0.relay;
            let request = before.relay.request;
            let (lock, funding) = agreed_funding(args.network, before.relay)->Ok_0;
            let script = (address_of_text(args.payout, args.network)->0).1;
            let rate = (250 * request.fee_rate_sat_vb) as u64;
            let point = OutPoint { txid: txid_of(funding), vout: request.funding_output_index };
            let claim = claim_of(point, request.amount_sat, script, rate);
            &&& relay.request == request && relay.terms == before.relay.terms && relay.swap_id == before.relay.swap_id
            &&& relay.btc_claim_adaptor == before.relay.btc_claim_adaptor && relay.status == SwapStatus::Offered
            &&& lock.amount == request.amount_sat && lock.refund_height == request.refund_height
            &&& relay.ark_transfer matches Some(transfer) && transfer.transfer_package_hex == transfer_hex@
                && transfer.offer == offer_text(OfferView { id: args.swap_id, ..offer@ })
            &&& relay.btc_funding matches Some(told) && told.funding_tx_hex == hex_of_tx(funding) && told.funding_txid
                == txid_text(txid_of(funding)) && told.funding_vout == request.funding_output_index && told.lock_amount_sat
                == request.amount_sat && told.lock_address == lock.address
            &&& relay.claim_request matches Some(told) && told.claim_tx_hex == hex_of_tx(claim) && told.claim_amount_sat
                == claim.output[0].value && told.btc_payer_public_nonce_hex == request.btc_payer_public_nonce_hex
                && told.claim_sighash_hex == hex_text(key_spend_sighash(claim, lock_output(lock))->0)
                && told.tap_tweak_hex == hex_text(lock_tweak(lock.taproot))
            &&& relay.ark_claim_partial matches Some(partial) && partial.ark_public_nonce_hex == hex_text(nonce@)
                && partial.ark_partial_sig_hex == hex_text(share@)
        }),
{
}

/// The share that is offered is for the hash of the claim that is offered, the key of the request and the
/// tweak of the lock, adapted to the point of the own secret; the transfer is asked for wherever all this
/// can be read and built, unless the tweak is not taken or a fresh nonce cancels against the point.
pub proof fn law_share_is_for_the_offered_claim(
    args: OfferArgsView,
    key: SecretKey,
    before: StateView,
    after: Option<StateView>,
    next: Result<(OfferPhase, Action), SwapError>,
)
    requires
        offer_next(args, OfferPhase::Key, Reply::Key(key), Some(before), after, next),
        address_of_text(args.payout, args.network) is Some,
        secret_of(before) is Ok,
        accepted_ids(before) is Ok,
        agreed_funding(args.network, before.relay) is Ok,
        0 < before.relay.request.fee_rate_sat_vb <= u32::MAX,
        hex_value(before.relay.request.btc_payer_public_nonce_hex) matches Some(nonce) && is_public_nonce(nonce),
        public_key_of_text(before.relay.request.btc_payer_claim_pubkey) is Some,
        ({
            let (lock, funding) = agreed_funding(args.network, before.relay)->Ok_0;
            let point = OutPoint { txid: txid_of(funding), vout: before.relay.request.funding_output_index };
            let script = (address_of_text(args.payout, args.network)->0).1;
            claim_refusal(point, lock.amount, script, (250 * before.relay.request.fee_rate_sat_vb) as u64) is None
        }),
    ensures
        ({
            let (lock, funding) = agreed_funding(args.network, before.relay)->Ok_0;
            let point = OutPoint { txid: txid_of(funding), vout: before.relay.request.funding_output_index };
            let script = (address_of_text(args.payout, args.network)->0).1;
            let claim = claim_of(point, lock.amount, script, (250 * before.relay.request.fee_rate_sat_vb) as u64);
            let btc_key = public_key_of_text(before.relay.request.btc_payer_claim_pubkey)->0;
            let adaptor = point_of(secret_of(before)->Ok_0);
            match next {
                Ok((to, action)) => action is PrepareTransfer && (to matches OfferPhase::Prepared { nonce, share }
                    && is_adaptor_share(
                    key@,
                    btc_key,
                    hex_value(before.relay.request.btc_payer_public_nonce_hex)->0,
                    key_spend_sighash(claim, lock_output(lock))->0,
                    lock_tweak(lock.taproot),
                    adaptor,
                    nonce@,
                    share@,
                )),
                Err(error) => (error == SwapError::AdaptorNonceCancels && some_nonce_cancels(adaptor)) || (error
                    == SwapError::InvalidTweak && !tweak_fits(point_of(key@), btc_key, Some(lock_tweak(lock.taproot)))),
            }
        }),
{
}

/// What was prepared is offered wherever the lock, the funding and the claim can be made, and the response can
/// be committed to.
pub proof fn law_prepared_transfer_is_offered(
    args: OfferArgsView,
    nonce: PublicNonce,
    share: PartialSignature,
    offer: ArkOffer,
    transfer_hex: String,
    before: StateView,
    after: Option<StateView>,
    next: Result<(OfferPhase, Action), SwapError>,
)
    requires
        offer_next(
            args,
            OfferPhase::Prepared { nonce, share },
            Reply::Prepared { offer, transfer_hex },
            Some(before),
            after,
            next,
        ),
        address_of_text(args.payout, args.network) is Some,
        agreed_funding(args.network, before.relay) is Ok,
        0 < before.relay.request.fee_rate_sat_vb <= u32::MAX,
        before.relay.terms is Some,
        swap_id_value(before.relay.swap_id) matches Some(id) && swap_refusal(before.relay, id) is None,
        ({
            let (lock, funding) = agreed_funding(args.network, before.relay)->Ok_0;
            let point = OutPoint { txid: txid_of(funding), vout: before.relay.request.funding_output_index };
            let script = (address_of_text(args.payout, args.network)->0).1;
            tx_of_hex(hex_of_tx(funding)) is Some && claim_refusal(
                point,
                lock.amount,
                script,
                (250 * before.relay.request.fee_rate_sat_vb) as u64,
            ) is None
        }),
    ensures
        next matches Ok((OfferPhase::Offered, Action::StoreState)),
{
}

/// The flow of the offer takes no reply but one to what it asked for, and a step that fails changes nothing.
pub proof fn law_offer_takes_its_replies_alone(
    args: OfferArgsView,
    phase: OfferPhase,
    reply: Reply,
    before: Option<StateView>,
    after: Option<StateView>,
    next: Result<(OfferPhase, Action), SwapError>,
)
    requires
        offer_next(args, phase, reply, before, after, next),
    ensures
        next is Ok ==> match phase {
            OfferPhase::Begin | OfferPhase::FreshAddress { .. } | OfferPhase::Recorded | OfferPhase::Locked
            | OfferPhase::Offered | OfferPhase::Published => reply is Done,
            OfferPhase::Replay => reply is MaybeRelay,
            OfferPhase::Fresh => reply is Relay,
            OfferPhase::FreshRequest { .. } | OfferPhase::Resumed => reply is Log,
            OfferPhase::FreshInputs { .. } | OfferPhase::Live => reply is Inputs,
            OfferPhase::FreshKey { .. } => reply is NewKey,
            OfferPhase::Key => reply is Key,
            OfferPhase::Prepared { .. } => reply is Prepared,
        },
        next is Err ==> after == before,
{
}

/// The flow of the offer goes on only with what it can read: a payout of the network, a request that is fresh and
/// passes its check, inputs that are live, and a claim that can be made.
pub proof fn law_offer_goes_on_with_what_it_reads(
    args: OfferArgsView,
    phase: OfferPhase,
    reply: Reply,
    before: Option<StateView>,
    after: Option<StateView>,
    next: Result<(OfferPhase, Action), SwapError>,
)
    requires
        offer_next(args, phase, reply, before, after, next),
        next is Ok,
    ensures
        phase is Begin || phase is Key || phase is Prepared ==> address_of_text(args.payout, args.network) is Some,
        phase is Begin ==> (before matches Some(state) ==> state.status != SwapStatus::Cancelled && (
        state.relay.terms matches Some(terms) && terms.btc_payout_address == (address_of_text(
            args.payout,
            args.network,
        )->0).0) && (state.relay.ark_claim_partial is Some ==> state.status == SwapStatus::Offered)),
        phase is Fresh ==> (reply matches Reply::Relay(relay) && swap_refusal(relay@, args.swap_id) is None
            && relay@.terms is None && relay@.ark_transfer is None && relay@.btc_funding is None
            && relay@.claim_request is None && relay@.ark_claim_partial is None && relay@.btc_claim_adaptor is None),
        phase matches OfferPhase::FreshRequest { relay } ==> request_check(
            answer_views(reply->Log_0@),
            relay@.request,
        ) is Pass && ark_address_of_text(relay@.request.ark_receive) is Some,
        phase is Resumed ==> request_check(answer_views(reply->Log_0@), before->0.relay.request) is Pass,
        phase is Resumed || phase is Live || phase is Key ==> accepted_ids(before->0) is Ok,
        phase is Locked || phase is Key ==> (before->0.adaptor_secret_hex matches Some(text) && hex_value(
            text,
        ) matches Some(bytes) && bytes.len() == 32 && is_secret(bytes)),
        phase is Locked ==> ark_address_of_text(before->0.relay.request.ark_receive) is Some,
        phase is Key || phase is Prepared ==> offered_claim(
            args.network,
            before->0.relay,
            (address_of_text(args.payout, args.network)->0).1,
        ) is Ok,
        phase is Key ==> public_key_of_text(before->0.relay.request.btc_payer_claim_pubkey) is Some && (hex_value(
            before->0.relay.request.btc_payer_public_nonce_hex,
        ) matches Some(nonce) && is_public_nonce(nonce)),
{
}

} // verus!
