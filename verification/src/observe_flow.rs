//! What the parties learn from each other: the Ark payer receives the signed funding with the
//! pre-signature, and the BTC payer finds the secret in the claim and completes the Ark transfer.

use vstd::prelude::*;

use crate::address::Network;
use crate::adaptor::{completed, revealed, scalar_part, AdaptorSecret};
use crate::ark_types::{
    ark_address_of_text, id_texts, parse_ark_address, vtxo_id_text, vtxo_id_texts, VtxoId, VtxoPolicy,
};
use crate::claim_flow::{
    claim_next, ensure_may_reveal, law_secret_is_revealed_inside_the_window, load_claim, may_reveal, reveals_its_secret,
    secret_fits, secret_of, signed_claim_of, stored_claim, ClaimPhase,
};
use crate::error::SwapError;
use crate::flow::{Action, FlowContext, Reply, SubFlow};
use crate::keys::{array64, point_of, public_key_of_text, schnorr_valid};
use crate::offer::{ark_output_views, ArkOutput, ArkOutputView};
use crate::relay::{package_of_text, response_commitment, swap_refusal, RelayFile, RelayView};
use crate::response::{response_of, verify_response};
use crate::role::SwapStatus;
use crate::scalar::{lemma_scalar_number, number};
use crate::state::{StateView, StoredBtcArkSwap};
use crate::swap_id::{swap_id_value, SwapId};
use crate::tx::{
    fully_signed, hex_of_tx, is_fully_signed, stripped, tx_from_hex, tx_of_hex, txid_of, without_witness, Transaction,
    TransactionView,
};

verus! {

/// The signature of a claim, or why there is none.
pub open spec fn claim_signature_of(tx: TransactionView) -> Result<Seq<u8>, SwapError> {
    if tx.input.len() == 0 || tx.input[0].witness.len() == 0 {
        Err(SwapError::ClaimSignatureMissing)
    } else if tx.input[0].witness[0].len() != 64 {
        Err(SwapError::InvalidSignature)
    } else {
        Ok(tx.input[0].witness[0])
    }
}

/// The secret that a claim reveals to whoever holds the pre-signature, or why it reveals none.
pub open spec fn recovered_secret(state: StateView, tx: TransactionView) -> Result<Seq<u8>, SwapError> {
    match claim_signature_of(tx) {
        Err(error) => Err(error),
        Ok(signature) => match state.relay.btc_claim_adaptor {
            None => Err(SwapError::AdaptorMissing),
            Some(text) => match package_of_text(text) {
                Err(error) => Err(error),
                Ok(package) => if !schnorr_valid(signature, package.sighash, package.aggregate_key) {
                    Err(SwapError::ClaimSignatureInvalid)
                } else {
                    match revealed(package.pre_signature, signature, package.adaptor_point) {
                        None => Err(SwapError::SecretNotRevealed),
                        Some(secret) => Ok(secret),
                    }
                },
            },
        },
    }
}

/// The secret that a claim reveals to whoever holds the pre-signature.
pub fn recover_from_claim(state: &StoredBtcArkSwap, tx: &Transaction) -> (secret: Result<AdaptorSecret, SwapError>)
    ensures
        match secret {
            Ok(found) => recovered_secret(state@, tx@) == Ok::<Seq<u8>, SwapError>(found@),
            Err(error) => recovered_secret(state@, tx@) == Err::<Seq<u8>, SwapError>(error),
        },
{
    assert(tx@.input.len() == tx.input@.len());
    if tx.input.len() == 0 {
        return Err(SwapError::ClaimSignatureMissing);
    }
    assert(tx@.input[0] == tx.input[0]@);
    let witness = &tx.input[0].witness;
    assert(tx@.input[0].witness.len() == witness@.len());
    if witness.len() == 0 {
        return Err(SwapError::ClaimSignatureMissing);
    }
    assert(tx@.input[0].witness[0] == witness[0]@);
    if witness[0].len() != 64 {
        return Err(SwapError::InvalidSignature);
    }
    let signature = array64(witness[0].as_slice());
    match &state.relay.btc_claim_adaptor {
        Some(adaptor) => match adaptor.to_package() {
            Ok(package) => package.recover_secret(signature),
            Err(error) => Err(error),
        },
        None => Err(SwapError::AdaptorMissing),
    }
}

/// A claim that reveals the secret of the Ark payer gives it to whoever holds the pre-signature.
proof fn lemma_claim_gives_the_secret(
    network: Network,
    ark_payer: StateView,
    btc_payer: StateView,
    signed: TransactionView,
)
    requires
        signed_claim_of(network, ark_payer) == Ok::<TransactionView, SwapError>(signed),
        reveals_its_secret(ark_payer, signed),
        btc_payer.relay.btc_claim_adaptor == ark_payer.relay.btc_claim_adaptor,
    ensures
        recovered_secret(btc_payer, signed) == secret_of(ark_payer),
{
    let package = package_of_text(ark_payer.relay.btc_claim_adaptor->0)->Ok_0;
    let secret = secret_of(ark_payer)->Ok_0;
    let signature = completed(package, secret)->0;
    assert(signed.input[0].witness[0] == signature);
    let value = number(scalar_part(package.pre_signature));
    lemma_scalar_number((value + number(secret)) as int);
    lemma_scalar_number(value - number(secret));
    assert(signature.len() == 64);
}

/// The claim that the Ark payer's flow signs, with the secret of its pre-signature, gives the BTC
/// payer, who holds the same pre-signature, exactly the adaptor secret.
pub proof fn law_claim_gives_the_secret(
    context: FlowContext,
    phase: ClaimPhase,
    reply: Reply,
    before: StateView,
    after: StateView,
    next: Result<(ClaimPhase, Action), SwapError>,
    btc_payer: StateView,
)
    requires
        claim_next(context, phase, reply, before, after, next),
        after.signed_claim_tx_hex != before.signed_claim_tx_hex,
        secret_fits(before),
        btc_payer.relay.btc_claim_adaptor == before.relay.btc_claim_adaptor,
    ensures
        signed_claim_of(context.network, before) matches Ok(signed) && after.signed_claim_tx_hex == Some(hex_of_tx(signed))
            && recovered_secret(btc_payer, signed) == secret_of(before),
{
    law_secret_is_revealed_inside_the_window(context, phase, reply, before, after, next);
    let signed = signed_claim_of(context.network, before)->Ok_0;
    lemma_claim_gives_the_secret(context.network, before, btc_payer, signed);
}

/// A response with a pre-signature is for the adaptor point of its terms: where that is the point
/// of the Ark payer's secret, the secret fits the pre-signature.
pub proof fn law_accepted_adaptor_fits_the_secret(network: Network, state: StateView, secret: Seq<u8>)
    requires
        response_of(network, state.relay) is Ok,
        state.relay.btc_claim_adaptor is Some,
        secret_of(state) == Ok::<Seq<u8>, SwapError>(secret),
        state.relay.terms matches Some(terms) && public_key_of_text(terms.adaptor_point) == Some(point_of(secret)),
    ensures
        secret_fits(state),
{
}

/// Where the flow is that looks for the claim.
pub enum ObservePhase {
    Begin,
    Fetched,
    Stored,
    Last,
}

/// The agreed claim of a state, or why it cannot be told.
pub open spec fn expected_claim_tx(state: StateView) -> Option<Result<TransactionView, SwapError>> {
    match state.relay.claim_request {
        None => None,
        Some(request) => match tx_of_hex(request.claim_tx_hex) {
            None => Some(Err(SwapError::InvalidTransaction)),
            Some(tx) => Some(Ok(tx)),
        },
    }
}

/// Why an observed claim is not taken, if it is not.
pub open spec fn observed_refusal(state: StateView, expected: TransactionView, observed: TransactionView) -> Option<SwapError> {
    if stripped(observed) != expected {
        Some(SwapError::ClaimDiffers)
    } else if observed.input.len() == 0 || observed.input[0].witness.len() == 0 {
        Some(SwapError::ClaimSignatureMissing)
    } else if observed.input[0].witness[0].len() != 64 || observed.input[0].witness.len() != 1 {
        Some(SwapError::ClaimNotKeySpend)
    } else {
        match recovered_secret(state, observed) {
            Err(error) => Some(error),
            Ok(_) => None,
        }
    }
}

/// Checks an observed claim: it is the agreed one, and reveals the secret.
fn check_observed(state: &StoredBtcArkSwap, expected: &Transaction, observed: &Transaction) -> (result: Result<(), SwapError>)
    ensures
        match result {
            Ok(()) => observed_refusal(state@, expected@, observed@) is None,
            Err(error) => observed_refusal(state@, expected@, observed@) == Some(error),
        },
{
    if !without_witness(observed).same(expected) {
        return Err(SwapError::ClaimDiffers);
    }
    assert(observed@.input.len() == observed.input@.len());
    if observed.input.len() == 0 {
        return Err(SwapError::ClaimSignatureMissing);
    }
    assert(observed@.input[0] == observed.input[0]@);
    let witness = &observed.input[0].witness;
    assert(observed@.input[0].witness.len() == witness@.len());
    if witness.len() == 0 {
        return Err(SwapError::ClaimSignatureMissing);
    }
    assert(observed@.input[0].witness[0] == witness[0]@);
    if witness[0].len() != 64 || witness.len() != 1 {
        return Err(SwapError::ClaimNotKeySpend);
    }
    match recover_from_claim(state, observed) {
        Ok(_) => Ok(()),
        Err(error) => Err(error),
    }
}

/// What the flow does next that looks for the claim.
pub open spec fn observe_next(
    phase: ObservePhase,
    reply: Reply,
    before: StateView,
    after: StateView,
    next: Result<(ObservePhase, Action), SwapError>,
) -> bool {
    match (phase, reply) {
        (ObservePhase::Begin, Reply::Done) => after == before && (if before.signed_claim_tx_hex is Some {
            next matches Ok((ObservePhase::Last, Action::Answer(found))) && found
        } else {
            match expected_claim_tx(before) {
                None => next matches Ok((ObservePhase::Last, Action::Answer(found))) && !found,
                Some(Err(error)) => next == Err::<(ObservePhase, Action), SwapError>(error),
                Some(Ok(expected)) => next matches Ok((ObservePhase::Fetched, Action::FetchTx(txid))) && txid
                    == txid_of(expected),
            }
        }),
        (ObservePhase::Fetched, Reply::Tx(None)) => after == before && (next matches Ok(
            (ObservePhase::Last, Action::Answer(found)),
        ) && !found),
        (ObservePhase::Fetched, Reply::Tx(Some(observed))) => match expected_claim_tx(before) {
            Some(Ok(expected)) => match observed_refusal(before, expected, observed@) {
                Some(error) => after == before && next == Err::<(ObservePhase, Action), SwapError>(error),
                None => after == (StateView { signed_claim_tx_hex: Some(hex_of_tx(observed@)), ..before })
                    && next matches Ok((ObservePhase::Stored, Action::StoreState)),
            },
            Some(Err(error)) => after == before && next == Err::<(ObservePhase, Action), SwapError>(error),
            None => after == before && next == Err::<(ObservePhase, Action), SwapError>(SwapError::ClaimRequestMissing),
        },
        (ObservePhase::Stored, Reply::Done) => after == before && (next matches Ok(
            (ObservePhase::Last, Action::Answer(found)),
        ) && found),
        _ => after == before && next == Err::<(ObservePhase, Action), SwapError>(SwapError::UnexpectedReply),
    }
}

/// The agreed claim of a state, if it has one.
fn load_expected_claim(state: &StoredBtcArkSwap) -> (claim: Result<Option<Transaction>, SwapError>)
    ensures
        match claim {
            Ok(Some(found)) => expected_claim_tx(state@) == Some(Ok::<TransactionView, SwapError>(found@)),
            Ok(None) => expected_claim_tx(state@) is None,
            Err(error) => expected_claim_tx(state@) == Some(Err::<TransactionView, SwapError>(error)),
        },
{
    match &state.relay.claim_request {
        Some(request) => match tx_from_hex(request.claim_tx_hex.as_str()) {
            Ok(tx) => Ok(Some(tx)),
            Err(error) => Err(error),
        },
        None => Ok(None),
    }
}

/// One step of the flow that looks for the claim, and answers whether it is there. A claim that is
/// found is stored.
pub fn observe_claim(phase: ObservePhase, reply: Reply, state: &mut StoredBtcArkSwap) -> (next: Result<
    (ObservePhase, Action),
    SwapError,
>)
    ensures
        observe_next(phase, reply, old(state)@, final(state)@, next),
{
    match (phase, reply) {
        (ObservePhase::Begin, Reply::Done) => {
            if state.signed_claim_tx_hex.is_some() {
                return Ok((ObservePhase::Last, Action::Answer(true)));
            }
            match load_expected_claim(state) {
                Ok(Some(expected)) => Ok((ObservePhase::Fetched, Action::FetchTx(expected.txid()))),
                Ok(None) => Ok((ObservePhase::Last, Action::Answer(false))),
                Err(error) => Err(error),
            }
        },
        (ObservePhase::Fetched, Reply::Tx(None)) => Ok((ObservePhase::Last, Action::Answer(false))),
        (ObservePhase::Fetched, Reply::Tx(Some(observed))) => match load_expected_claim(state) {
            Ok(Some(expected)) => match check_observed(state, &expected, &observed) {
                Ok(()) => {
                    state.signed_claim_tx_hex = Some(observed.to_hex());
                    assert(state@ =~= (StateView {
                        signed_claim_tx_hex: Some(hex_of_tx(observed@)),
                        ..old(state)@
                    }));
                    Ok((ObservePhase::Stored, Action::StoreState))
                },
                Err(error) => Err(error),
            },
            Ok(None) => Err(SwapError::ClaimRequestMissing),
            Err(error) => Err(error),
        },
        (ObservePhase::Stored, Reply::Done) => Ok((ObservePhase::Last, Action::Answer(true))),
        _ => Err(SwapError::UnexpectedReply),
    }
}

/// A claim is taken to be observed only where it is the agreed transaction and reveals the secret;
/// it is stored before the flow answers.
pub proof fn law_observed_claim_reveals(
    phase: ObservePhase,
    reply: Reply,
    before: StateView,
    after: StateView,
    next: Result<(ObservePhase, Action), SwapError>,
)
    requires
        observe_next(phase, reply, before, after, next),
        after != before,
    ensures
        reply matches Reply::Tx(Some(observed)) && recovered_secret(before, observed@) is Ok && expected_claim_tx(before)
            == Some(Ok::<TransactionView, SwapError>(stripped(observed@))) && after.signed_claim_tx_hex == Some(
            hex_of_tx(observed@),
        ),
        next matches Ok((_, Action::StoreState)),
{
}

/// Where the flow is that receives the funding message.
pub enum ReceivePhase {
    Begin,
    Loaded,
    Stored,
    Last,
}

/// The signed funding message of a peer, where it is one, or why the peer's relay file is refused.
pub open spec fn received_funding(network: Network, state: StateView, peer: RelayView) -> Result<bool, SwapError> {
    match swap_id_value(state.swap_id) {
        None => Err(SwapError::InvalidSwapId),
        Some(id) => if swap_refusal(peer, id) is Some {
            Err(swap_refusal(peer, id)->0)
        } else {
            match response_commitment(peer) {
                Err(error) => Err(error),
                Ok(digest) => if state.peer_transcript_hash_hex != Some(digest) {
                    Err(SwapError::TranscriptChanged)
                } else if peer.btc_claim_adaptor is None {
                    Ok(false)
                } else {
                    match response_of(network, peer) {
                        Err(error) => Err(error),
                        Ok(response) => if fully_signed(response.funding) {
                            Ok(true)
                        } else {
                            Err(SwapError::FundingUnsigned)
                        },
                    }
                },
            }
        },
    }
}

/// Whether a peer's relay file is the signed funding message.
fn check_received(network: Network, state: &StoredBtcArkSwap, peer: &RelayFile) -> (received: Result<bool, SwapError>)
    ensures
        received == received_funding(network, state@, peer@),
{
    let id = match SwapId::from_str(state.swap_id.as_str()) {
        Ok(id) => id,
        Err(_) => return Err(SwapError::InvalidSwapId),
    };
    match peer.require_swap(id) {
        Ok(()) => {},
        Err(error) => return Err(error),
    }
    let digest = match peer.response_commitment_hash_hex() {
        Ok(digest) => digest,
        Err(error) => return Err(error),
    };
    match &state.peer_transcript_hash_hex {
        Some(expected) => if *expected != digest {
            return Err(SwapError::TranscriptChanged);
        },
        None => return Err(SwapError::TranscriptChanged),
    }
    if peer.btc_claim_adaptor.is_none() {
        return Ok(false);
    }
    match verify_response(network, peer) {
        Ok((_, funding, _)) => if is_fully_signed(&funding) {
            Ok(true)
        } else {
            Err(SwapError::FundingUnsigned)
        },
        Err(error) => Err(error),
    }
}

/// What the flow does next that receives the funding message.
pub open spec fn receive_next(
    context: FlowContext,
    phase: ReceivePhase,
    reply: Reply,
    before: StateView,
    after: StateView,
    next: Result<(ReceivePhase, Action), SwapError>,
) -> bool {
    match (phase, reply) {
        (ReceivePhase::Begin, Reply::Done) => after == before && (if !may_reveal(before) {
            next == Err::<(ReceivePhase, Action), SwapError>(SwapError::SwapAborted)
        } else if before.relay.btc_claim_adaptor is Some {
            next matches Ok((ReceivePhase::Last, Action::Answer(found))) && found
        } else {
            next matches Ok((ReceivePhase::Loaded, Action::LoadRelay))
        }),
        (ReceivePhase::Loaded, Reply::Relay(peer)) => match received_funding(context.network, before, peer@) {
            Err(error) => after == before && next == Err::<(ReceivePhase, Action), SwapError>(error),
            Ok(false) => after == before && (next matches Ok((ReceivePhase::Last, Action::Answer(found))) && !found),
            Ok(true) => after == (StateView { relay: peer@, status: SwapStatus::BtcClaimReady, ..before })
                && next matches Ok((ReceivePhase::Stored, Action::StoreState)),
        },
        (ReceivePhase::Stored, Reply::Done) => after == before && (next matches Ok(
            (ReceivePhase::Last, Action::Answer(found)),
        ) && found),
        _ => after == before && next == Err::<(ReceivePhase, Action), SwapError>(SwapError::UnexpectedReply),
    }
}

/// One step of the flow that receives the BTC payer's funding message, and answers whether it is
/// there.
pub fn receive_funding_message(
    context: FlowContext,
    phase: ReceivePhase,
    reply: Reply,
    state: &mut StoredBtcArkSwap,
) -> (next: Result<(ReceivePhase, Action), SwapError>)
    ensures
        receive_next(context, phase, reply, old(state)@, final(state)@, next),
{
    match (phase, reply) {
        (ReceivePhase::Begin, Reply::Done) => {
            match ensure_may_reveal(state) {
                Ok(()) => {},
                Err(error) => return Err(error),
            }
            if state.relay.btc_claim_adaptor.is_some() {
                Ok((ReceivePhase::Last, Action::Answer(true)))
            } else {
                Ok((ReceivePhase::Loaded, Action::LoadRelay))
            }
        },
        (ReceivePhase::Loaded, Reply::Relay(peer)) => match check_received(context.network, state, &peer) {
            Ok(true) => {
                state.relay = peer;
                state.status = SwapStatus::BtcClaimReady;
                assert(state@ =~= (StateView { relay: peer@, status: SwapStatus::BtcClaimReady, ..old(state)@ }));
                Ok((ReceivePhase::Stored, Action::StoreState))
            },
            Ok(false) => Ok((ReceivePhase::Last, Action::Answer(false))),
            Err(error) => Err(error),
        },
        (ReceivePhase::Stored, Reply::Done) => Ok((ReceivePhase::Last, Action::Answer(true))),
        _ => Err(SwapError::UnexpectedReply),
    }
}

/// A funding message is taken only with the accepted transcript: the relay file commits to the
/// same response, and carries a signed funding and a pre-signature that verifies.
pub proof fn law_funding_message_keeps_the_transcript(
    context: FlowContext,
    phase: ReceivePhase,
    reply: Reply,
    before: StateView,
    after: StateView,
    next: Result<(ReceivePhase, Action), SwapError>,
)
    requires
        receive_next(context, phase, reply, before, after, next),
        after != before,
    ensures
        response_commitment(after.relay) matches Ok(digest) && before.peer_transcript_hash_hex == Some(digest),
        after.peer_transcript_hash_hex == before.peer_transcript_hash_hex,
        response_of(context.network, after.relay) matches Ok(response) && fully_signed(response.funding),
        after.relay.btc_claim_adaptor is Some,
        next matches Ok((_, Action::StoreState)),
{
}

/// Where the flow is that completes the Ark transfer.
pub enum CompletePhase {
    Begin,
    Finalized,
    Importing { received: Vec<VtxoId>, at: usize },
    Registering { received: Vec<VtxoId> },
    Recover,
    Recovering,
    Last,
}

/// The outputs of a transfer that are paid to a policy.
pub open spec fn received_of(outputs: Seq<ArkOutputView>, policy: Seq<u8>) -> Seq<VtxoId>
    decreases outputs.len(),
{
    if outputs.len() == 0 {
        Seq::empty()
    } else if outputs.last().policy == policy {
        received_of(outputs.drop_last(), policy).push(outputs.last().id)
    } else {
        received_of(outputs.drop_last(), policy)
    }
}

/// The outputs of a transfer that are paid to a policy.
fn select_received(outputs: &Vec<ArkOutput>, policy: &VtxoPolicy) -> (received: Vec<VtxoId>)
    ensures
        received@ == received_of(ark_output_views(outputs@), policy@),
{
    let ghost views = ark_output_views(outputs@);
    let mut received: Vec<VtxoId> = Vec::new();
    let mut i: usize = 0;
    assert(views.take(0) =~= Seq::<ArkOutputView>::empty());
    while i < outputs.len()
        invariant
            i <= outputs.len(),
            views == ark_output_views(outputs@),
            received@ == received_of(views.take(i as int), policy@),
        decreases outputs.len() - i,
    {
        assert(views[i as int] == outputs[i as int]@);
        assert(views.take(i + 1).drop_last() =~= views.take(i as int));
        assert(views.take(i + 1).last() == views[i as int]);
        if outputs[i].policy.same(policy) {
            received.push(outputs[i].id);
        }
        i += 1;
    }
    assert(views.take(views.len() as int) =~= views);
    received
}

/// Whether the next output that is ours is imported, or the transfer registered where none is left.
pub open spec fn imports(received: Seq<VtxoId>, at: int, next: Result<(CompletePhase, Action), SwapError>) -> bool {
    if at < received.len() {
        next matches Ok((CompletePhase::Importing { received: kept, at: then_at }, Action::ImportVtxo(id))) && kept@
            == received && then_at == at + 1 && id == received[at]
    } else {
        next matches Ok((CompletePhase::Registering { received: kept }, Action::RegisterTransfer)) && kept@ == received
    }
}

/// How the flow begins that completes the Ark transfer.
pub open spec fn complete_begins(state: StateView, next: Result<(CompletePhase, Action), SwapError>) -> bool {
    if state.status == SwapStatus::ArkCompleted {
        next matches Ok((CompletePhase::Last, Action::End))
    } else if state.status == SwapStatus::ArkRecovering {
        next matches Ok((CompletePhase::Recovering, Action::Run(SubFlow::RecoverArkAtEstimate)))
    } else {
        match stored_claim(state) {
            Err(error) => next == Err::<(CompletePhase, Action), SwapError>(error),
            Ok(claim) => match recovered_secret(state, claim) {
                Err(error) => next == Err::<(CompletePhase, Action), SwapError>(error),
                Ok(found) => match state.relay.ark_transfer {
                    None => next == Err::<(CompletePhase, Action), SwapError>(SwapError::ArkTransferMissing),
                    Some(transfer) => next matches Ok(
                        (CompletePhase::Finalized, Action::FinalizeTransfer { transfer_hex, secret }),
                    ) && transfer_hex@ == transfer.transfer_package_hex && secret@ == found,
                },
            },
        }
    }
}

/// What the flow does next that completes the Ark transfer.
pub open spec fn complete_next(
    phase: CompletePhase,
    reply: Reply,
    before: StateView,
    after: StateView,
    next: Result<(CompletePhase, Action), SwapError>,
) -> bool {
    match (phase, reply) {
        (CompletePhase::Begin, Reply::Done) => after == before && complete_begins(before, next),
        (CompletePhase::Finalized, Reply::Outputs(outputs)) => after == before && match ark_address_of_text(
            before.relay.request.ark_receive,
        ) {
            None => next == Err::<(CompletePhase, Action), SwapError>(SwapError::InvalidArkAddress),
            Some((_, policy)) => imports(received_of(ark_output_views(outputs@), policy), 0, next),
        },
        (CompletePhase::Importing { received, at }, Reply::Done) => after == before && imports(received@, at as int, next),
        (CompletePhase::Registering { received }, Reply::Registered(registered)) => if registered {
            after == (StateView { status: SwapStatus::ArkCompleted, ..before }) && next matches Ok(
                (CompletePhase::Last, Action::StoreState),
            )
        } else {
            after == (StateView {
                status: SwapStatus::ArkRecovering,
                ark_recovery_input_ids: vtxo_id_texts(received@),
                ..before
            }) && next matches Ok((CompletePhase::Recover, Action::StoreState))
        },
        (CompletePhase::Recover, Reply::Done) => after == before && next matches Ok(
            (CompletePhase::Recovering, Action::Run(SubFlow::RecoverArkAtEstimate)),
        ),
        (CompletePhase::Recovering, Reply::Finished(_)) => after == before && next matches Ok(
            (CompletePhase::Last, Action::End),
        ),
        (CompletePhase::Last, Reply::Done) => after == before && next matches Ok((CompletePhase::Last, Action::End)),
        _ => after == before && next == Err::<(CompletePhase, Action), SwapError>(SwapError::UnexpectedReply),
    }
}

/// Begins the flow that completes the Ark transfer.
fn begin_complete(state: &StoredBtcArkSwap) -> (next: Result<(CompletePhase, Action), SwapError>)
    ensures
        complete_begins(state@, next),
{
    if matches!(state.status, SwapStatus::ArkCompleted) {
        return Ok((CompletePhase::Last, Action::End));
    }
    if matches!(state.status, SwapStatus::ArkRecovering) {
        return Ok((CompletePhase::Recovering, Action::Run(SubFlow::RecoverArkAtEstimate)));
    }
    let claim = match load_claim(state) {
        Ok(claim) => claim,
        Err(error) => return Err(error),
    };
    let secret = match recover_from_claim(state, &claim) {
        Ok(secret) => secret,
        Err(error) => return Err(error),
    };
    match &state.relay.ark_transfer {
        Some(transfer) => Ok(
            (
                CompletePhase::Finalized,
                Action::FinalizeTransfer { transfer_hex: transfer.transfer_package_hex.clone(), secret },
            ),
        ),
        None => Err(SwapError::ArkTransferMissing),
    }
}

/// Imports the next output, or registers the transfer where none is left.
fn import_next(received: Vec<VtxoId>, at: usize) -> (next: Result<(CompletePhase, Action), SwapError>)
    ensures
        imports(received@, at as int, next),
{
    if at < received.len() {
        let id = received[at];
        Ok((CompletePhase::Importing { received, at: at + 1 }, Action::ImportVtxo(id)))
    } else {
        Ok((CompletePhase::Registering { received }, Action::RegisterTransfer))
    }
}

/// One step of the flow in which the BTC payer completes the Ark transfer with the secret of the
/// observed claim. Every output that is ours is imported before the transfer is registered, so
/// that it survives an outage of the server; where the registration fails, these outputs are
/// frozen and recovered on-chain.
#[verifier::rlimit(40)]
pub fn complete_ark(phase: CompletePhase, reply: Reply, state: &mut StoredBtcArkSwap) -> (next: Result<
    (CompletePhase, Action),
    SwapError,
>)
    ensures
        complete_next(phase, reply, old(state)@, final(state)@, next),
{
    match (phase, reply) {
        (CompletePhase::Begin, Reply::Done) => begin_complete(state),
        (CompletePhase::Finalized, Reply::Outputs(outputs)) => match parse_ark_address(
            state.relay.request.ark_receive.as_str(),
        ) {
            Ok((_, policy)) => import_next(select_received(&outputs, &policy), 0),
            Err(error) => Err(error),
        },
        (CompletePhase::Importing { received, at }, Reply::Done) => import_next(received, at),
        (CompletePhase::Registering { received }, Reply::Registered(registered)) => {
            if registered {
                state.status = SwapStatus::ArkCompleted;
                assert(state@ =~= (StateView { status: SwapStatus::ArkCompleted, ..old(state)@ }));
                Ok((CompletePhase::Last, Action::StoreState))
            } else {
                state.ark_recovery_input_ids = id_texts(&received);
                state.status = SwapStatus::ArkRecovering;
                assert(state@ =~= (StateView {
                    status: SwapStatus::ArkRecovering,
                    ark_recovery_input_ids: vtxo_id_texts(received@),
                    ..old(state)@
                }));
                Ok((CompletePhase::Recover, Action::StoreState))
            }
        },
        (CompletePhase::Recover, Reply::Done) => Ok(
            (CompletePhase::Recovering, Action::Run(SubFlow::RecoverArkAtEstimate)),
        ),
        (CompletePhase::Recovering, Reply::Finished(_)) => Ok((CompletePhase::Last, Action::End)),
        (CompletePhase::Last, Reply::Done) => Ok((CompletePhase::Last, Action::End)),
        _ => Err(SwapError::UnexpectedReply),
    }
}

/// An accepted funding message is not needed again: the flow answers without reading a relay file,
/// and changes nothing.
pub proof fn law_accepted_message_is_not_read_again(
    context: FlowContext,
    reply: Reply,
    before: StateView,
    after: StateView,
    next: Result<(ReceivePhase, Action), SwapError>,
)
    requires
        receive_next(context, ReceivePhase::Begin, reply, before, after, next),
        before.relay.btc_claim_adaptor is Some,
    ensures
        after == before,
        next matches Ok((_, action)) ==> action == Action::Answer(true),
{
}

/// A transfer is completed with the secret that the stored claim reveals, is registered only when
/// every received output is imported, and the swap is completed only when it is registered; else what
/// was received is recovered on the chain.
pub proof fn law_completion_is_in_order(
    phase: CompletePhase,
    reply: Reply,
    before: StateView,
    after: StateView,
    next: Result<(CompletePhase, Action), SwapError>,
)
    requires
        complete_next(phase, reply, before, after, next),
    ensures
        next matches Ok((_, Action::FinalizeTransfer { secret, .. })) ==> (stored_claim(before) matches Ok(claim)
            && recovered_secret(before, claim) == Ok::<Seq<u8>, SwapError>(secret@)),
        next matches Ok((CompletePhase::Registering { received }, Action::RegisterTransfer)) ==> (phase matches CompletePhase::Importing {
            received: kept,
            at,
        } && kept@ == received@ && at >= received@.len()) || received@.len() == 0,
        after != before ==> phase is Registering && next matches Ok((_, Action::StoreState)),
        after.status != before.status && after.status == SwapStatus::ArkCompleted ==> (reply matches Reply::Registered(
            registered,
        ) && registered),
        reply == Reply::Registered(false) ==> (phase matches CompletePhase::Registering { received } ==> after.status
            == SwapStatus::ArkRecovering && after.ark_recovery_input_ids == vtxo_id_texts(received@) && after.relay
            == before.relay),
{
}

/// The received identifiers are those of the outputs with the policy, in the order of the outputs.
proof fn lemma_received(outputs: Seq<ArkOutputView>, policy: Seq<u8>)
    ensures
        received_of(outputs, policy) == outputs.filter_map(
            |output: ArkOutputView|
                if output.policy == policy {
                    Some(output.id)
                } else {
                    None
                },
        ),
        forall|i: int|
            0 <= i < outputs.len() && (#[trigger] outputs[i]).policy == policy ==> received_of(outputs, policy).contains(
                outputs[i].id,
            ),
        forall|id: VtxoId|
            received_of(outputs, policy).contains(id) ==> exists|i: int|
                0 <= i < outputs.len() && (#[trigger] outputs[i]).policy == policy && outputs[i].id == id,
    decreases outputs.len(),
{
    if outputs.len() > 0 {
        let front = outputs.drop_last();
        let rest = received_of(front, policy);
        lemma_received(front, policy);
        assert forall|i: int| 0 <= i < outputs.len() && (#[trigger] outputs[i]).policy == policy implies received_of(
            outputs,
            policy,
        ).contains(outputs[i].id) by {
            if i < front.len() {
                assert(front[i] == outputs[i]);
                let k = choose|k: int| 0 <= k < rest.len() && rest[k] == outputs[i].id;
                assert(received_of(outputs, policy)[k] == outputs[i].id);
            } else {
                assert(received_of(outputs, policy)[rest.len() as int] == outputs[i].id);
            }
        }
        assert forall|id: VtxoId| received_of(outputs, policy).contains(id) implies exists|i: int|
            0 <= i < outputs.len() && (#[trigger] outputs[i]).policy == policy && outputs[i].id == id by {
            let k = choose|k: int| 0 <= k < received_of(outputs, policy).len() && received_of(outputs, policy)[k] == id;
            if k < rest.len() {
                assert(rest.contains(rest[k]));
                let i = choose|i: int|
                    0 <= i < front.len() && (#[trigger] front[i]).policy == policy && front[i].id == rest[k];
                assert(outputs[i] == front[i]);
            } else {
                assert(outputs[outputs.len() - 1].id == id);
            }
        }
        if outputs.last().policy == policy {
            assert(rest.push(outputs.last().id) =~= rest + seq![outputs.last().id]);
        }
    }
}

/// The identifiers of what is received, as a phase keeps them.
pub open spec fn received_in(phase: CompletePhase) -> Seq<VtxoId> {
    match phase {
        CompletePhase::Importing { received, .. } => received@,
        CompletePhase::Registering { received } => received@,
        _ => Seq::empty(),
    }
}

/// Every output of the completed transfer that is paid to the BTC payer's own policy is received, and
/// no other one, in the order of the outputs.
pub proof fn law_every_output_of_ours_is_received(
    outputs: Vec<ArkOutput>,
    before: StateView,
    after: StateView,
    next: Result<(CompletePhase, Action), SwapError>,
)
    requires
        complete_next(CompletePhase::Finalized, Reply::Outputs(outputs), before, after, next),
    ensures
        after == before,
        next is Ok <==> ark_address_of_text(before.relay.request.ark_receive) is Some,
        next matches Ok((phase, _)) ==> {
            let policy = (ark_address_of_text(before.relay.request.ark_receive)->0).1;
            let received = received_in(phase);
            &&& phase is Importing || phase is Registering
            &&& phase is Registering ==> received.len() == 0
            &&& forall|i: int|
                0 <= i < outputs@.len() && (#[trigger] outputs@[i])@.policy == policy ==> received.contains(outputs@[i].id)
            &&& forall|k: int|
                0 <= k < received.len() ==> exists|i: int|
                    0 <= i < outputs@.len() && (#[trigger] outputs@[i])@.policy == policy && outputs@[i].id
                        == #[trigger] received[k]
            &&& received == outputs@.map_values(|output: ArkOutput| output@).filter_map(
                |output: ArkOutputView|
                    if output.policy == policy {
                        Some(output.id)
                    } else {
                        None
                    },
            )
        },
{
    let views = ark_output_views(outputs@);
    if ark_address_of_text(before.relay.request.ark_receive) is Some {
        let policy = (ark_address_of_text(before.relay.request.ark_receive)->0).1;
        let received = received_of(views, policy);
        lemma_received(views, policy);
        assert forall|i: int| 0 <= i < outputs@.len() && (#[trigger] outputs@[i])@.policy == policy implies received.contains(
            outputs@[i].id,
        ) by {
            assert(views[i] == outputs@[i]@);
        }
        assert forall|k: int| 0 <= k < received.len() implies exists|i: int|
            0 <= i < outputs@.len() && (#[trigger] outputs@[i])@.policy == policy && outputs@[i].id
                == #[trigger] received[k] by {
            assert(received.contains(received[k]));
            let i = choose|i: int|
                0 <= i < views.len() && (#[trigger] views[i]).policy == policy && views[i].id == received[k];
            assert(views[i] == outputs@[i]@);
        }
    }
}

/// What is received is imported one by one, from the first to the last, and only then is the transfer
/// registered; the swap is completed exactly where the registration succeeded, and all that was
/// received is frozen for recovery exactly where it failed.
pub proof fn law_received_outputs_are_imported_in_turn(
    phase: CompletePhase,
    reply: Reply,
    before: StateView,
    after: StateView,
    next: Result<(CompletePhase, Action), SwapError>,
)
    requires
        complete_next(phase, reply, before, after, next),
    ensures
        phase is Finalized ==> (next matches Ok((to, action)) ==> match to {
            CompletePhase::Importing { received, at } => at == 1 && received@.len() > 0 && action == Action::ImportVtxo(
                received@[0],
            ),
            CompletePhase::Registering { received } => received@.len() == 0 && action is RegisterTransfer,
            _ => false,
        }),
        phase matches CompletePhase::Importing { received, at } ==> after == before && (reply is Done ==> match next {
            Ok((CompletePhase::Importing { received: kept, at: then_at }, Action::ImportVtxo(id))) => at < received@.len()
                && kept@ == received@ && then_at == at + 1 && id == received@[at as int],
            Ok((CompletePhase::Registering { received: kept }, Action::RegisterTransfer)) => at >= received@.len() && kept@
                == received@,
            _ => false,
        }),
        phase matches CompletePhase::Registering { received } ==> match reply {
            Reply::Registered(true) => after == (StateView { status: SwapStatus::ArkCompleted, ..before }),
            Reply::Registered(false) => after.status == SwapStatus::ArkRecovering && after.ark_recovery_input_ids.len()
                == received@.len() && (forall|i: int|
                0 <= i < received@.len() ==> #[trigger] after.ark_recovery_input_ids[i] == vtxo_id_text(received@[i])),
            _ => after == before,
        },
        phase is Recover && reply is Done ==> (next matches Ok((_, Action::Run(SubFlow::RecoverArkAtEstimate)))),
        next matches Ok((_, Action::ImportVtxo(_))) ==> phase is Finalized || phase is Importing,
        next matches Ok((_, Action::RegisterTransfer)) ==> phase is Finalized || phase is Importing,
{
}

/// The completion begins with the stored transfer and the secret of the stored claim, wherever both
/// are there and the Ark is neither complete nor in recovery.
pub proof fn law_completion_uses_the_stored_transfer(
    before: StateView,
    after: StateView,
    next: Result<(CompletePhase, Action), SwapError>,
)
    requires
        complete_next(CompletePhase::Begin, Reply::Done, before, after, next),
    ensures
        after == before,
        before.status == SwapStatus::ArkCompleted ==> (next matches Ok((_, Action::End))),
        before.status == SwapStatus::ArkRecovering ==> (next matches Ok((_, Action::Run(SubFlow::RecoverArkAtEstimate)))),
        before.status != SwapStatus::ArkCompleted && before.status != SwapStatus::ArkRecovering ==> (
        before.signed_claim_tx_hex matches Some(text) ==> (tx_of_hex(text) matches Some(claim) ==> (recovered_secret(
            before,
            claim,
        ) matches Ok(found) ==> (before.relay.ark_transfer matches Some(transfer) ==> (next matches Ok(
            (CompletePhase::Finalized, Action::FinalizeTransfer { transfer_hex, secret }),
        ) && transfer_hex@ == transfer.transfer_package_hex && secret@ == found))))),
        before.status != SwapStatus::ArkCompleted && before.status != SwapStatus::ArkRecovering && (
        before.signed_claim_tx_hex is None || before.relay.ark_transfer is None) ==> next is Err,
{
}

/// A claim is looked for by the identifier of the agreed one, and taken wherever it is that
/// transaction, signed with one signature of 64 bytes that reveals the secret: it is then stored as it
/// is. Nothing else changes the state, and only a claim that is not there is answered with no.
pub proof fn law_visible_claim_is_taken(
    phase: ObservePhase,
    reply: Reply,
    before: StateView,
    after: StateView,
    next: Result<(ObservePhase, Action), SwapError>,
)
    requires
        observe_next(phase, reply, before, after, next),
    ensures
        after == (StateView { signed_claim_tx_hex: after.signed_claim_tx_hex, ..before }),
        phase is Begin && reply is Done ==> if before.signed_claim_tx_hex is Some {
            next matches Ok((_, Action::Answer(true)))
        } else {
            match before.relay.claim_request {
                None => next matches Ok((_, Action::Answer(false))),
                Some(request) => match tx_of_hex(request.claim_tx_hex) {
                    None => next is Err,
                    Some(agreed) => next matches Ok((ObservePhase::Fetched, Action::FetchTx(txid))) && txid == txid_of(
                        agreed,
                    ),
                },
            }
        },
        phase is Fetched ==> match reply {
            Reply::Tx(None) => after == before && (next matches Ok((_, Action::Answer(false)))),
            Reply::Tx(Some(observed)) => {
                let taken = before.relay.claim_request matches Some(request) && tx_of_hex(request.claim_tx_hex) == Some(
                    stripped(observed@),
                ) && observed@.input.len() > 0 && observed@.input[0].witness.len() == 1
                    && observed@.input[0].witness[0].len() == 64 && recovered_secret(before, observed@) is Ok;
                if taken {
                    &&& after.signed_claim_tx_hex == Some(hex_of_tx(observed@))
                    &&& next matches Ok((ObservePhase::Stored, Action::StoreState))
                } else {
                    after == before && next is Err
                }
            },
            _ => after == before,
        },
        phase is Stored && reply is Done ==> (next matches Ok((_, Action::Answer(true)))),
        next matches Ok((_, Action::Answer(found))) ==> (found <==> (phase is Stored || (phase is Begin
            && before.signed_claim_tx_hex is Some))),
{
}

/// A secret is recovered from a claim wherever its first witness item is a signature of 64 bytes that is
/// valid for what was pre-signed and differs from the pre-signature by a secret of the agreed point.
pub proof fn law_recovered_secret_is_of_the_point(state: StateView, tx: TransactionView)
    ensures
        recovered_secret(state, tx) matches Ok(secret) ==> {
            &&& tx.input.len() > 0 && tx.input[0].witness.len() > 0 && tx.input[0].witness[0].len() == 64
            &&& state.relay.btc_claim_adaptor matches Some(text) && package_of_text(text) matches Ok(package)
                && point_of(secret) == package.adaptor_point && schnorr_valid(
                tx.input[0].witness[0],
                package.sighash,
                package.aggregate_key,
            )
        },
{
}

/// The funding message is taken wherever it is for this swap, commits to the accepted response, has a
/// pre-signature that verifies and a funding whose inputs are all signed; it is still awaited exactly
/// where the same response has no pre-signature yet.
pub proof fn law_funding_message_is_taken(
    context: FlowContext,
    phase: ReceivePhase,
    reply: Reply,
    before: StateView,
    after: StateView,
    next: Result<(ReceivePhase, Action), SwapError>,
)
    requires
        receive_next(context, phase, reply, before, after, next),
    ensures
        phase is Begin && reply is Done ==> after == before && {
            let open = (before.status == SwapStatus::Offered || before.status == SwapStatus::BtcClaimReady || before.status
                == SwapStatus::BtcClaimed) && before.ark_recovery_input_ids.len() == 0;
            if !open {
                next is Err
            } else if before.relay.btc_claim_adaptor is Some {
                next matches Ok((_, Action::Answer(true)))
            } else {
                next matches Ok((ReceivePhase::Loaded, Action::LoadRelay))
            }
        },
        phase is Loaded ==> (reply matches Reply::Relay(peer) ==> {
            let same = swap_id_value(before.swap_id) is Some && swap_refusal(peer@, swap_id_value(before.swap_id)->0)
                is None && response_commitment(peer@) is Ok && before.peer_transcript_hash_hex == Some(
                response_commitment(peer@)->Ok_0,
            );
            let signed = response_of(context.network, peer@) matches Ok(response) && forall|i: int|
                0 <= i < response.funding.input.len() ==> (#[trigger] response.funding.input[i]).witness.len() > 0;
            if same && peer@.btc_claim_adaptor is None {
                after == before && (next matches Ok((_, Action::Answer(false))))
            } else if same && signed {
                &&& after == (StateView { relay: peer@, status: SwapStatus::BtcClaimReady, ..before })
                &&& next matches Ok((ReceivePhase::Stored, Action::StoreState))
            } else {
                after == before && next is Err
            }
        }),
        phase is Stored && reply is Done ==> (next matches Ok((_, Action::Answer(true)))),
{
}

/// A secret is recovered wherever the signature of the claim is valid for what was pre-signed and reveals one.
pub proof fn law_revealing_claim_is_read(state: StateView, tx: TransactionView)
    requires
        tx.input.len() > 0 && tx.input[0].witness.len() > 0 && tx.input[0].witness[0].len() == 64,
        state.relay.btc_claim_adaptor matches Some(text) && package_of_text(text) is Ok,
    ensures
        ({
            let package = package_of_text(state.relay.btc_claim_adaptor->0)->Ok_0;
            let signature = tx.input[0].witness[0];
            let found = revealed(package.pre_signature, signature, package.adaptor_point);
            if schnorr_valid(signature, package.sighash, package.aggregate_key) && found is Some {
                recovered_secret(state, tx) == Ok::<Seq<u8>, SwapError>(found->0)
            } else {
                recovered_secret(state, tx) is Err
            }
        }),
{
}

/// The flow of the observation of a claim takes no reply but one to what it asked for, and a step that fails changes nothing.
pub proof fn law_observation_takes_its_replies_alone(
    phase: ObservePhase,
    reply: Reply,
    before: StateView,
    after: StateView,
    next: Result<(ObservePhase, Action), SwapError>,
)
    requires
        observe_next(phase, reply, before, after, next),
    ensures
        next is Ok ==> match phase {
            ObservePhase::Begin | ObservePhase::Stored => reply is Done,
            ObservePhase::Fetched => reply is Tx,
            _ => false,
        },
        next is Err ==> after == before,
{
}

/// The flow of the receipt of a funding takes no reply but one to what it asked for, and a step that fails changes nothing.
pub proof fn law_receipt_takes_its_replies_alone(
    context: FlowContext,
    phase: ReceivePhase,
    reply: Reply,
    before: StateView,
    after: StateView,
    next: Result<(ReceivePhase, Action), SwapError>,
)
    requires
        receive_next(context, phase, reply, before, after, next),
    ensures
        next is Ok ==> match phase {
            ReceivePhase::Begin | ReceivePhase::Stored => reply is Done,
            ReceivePhase::Loaded => reply is Relay,
            _ => false,
        },
        next is Err ==> after == before,
{
}

/// The flow of the completion of a transfer takes no reply but one to what it asked for, and a step that fails changes nothing.
pub proof fn law_completion_takes_its_replies_alone(
    phase: CompletePhase,
    reply: Reply,
    before: StateView,
    after: StateView,
    next: Result<(CompletePhase, Action), SwapError>,
)
    requires
        complete_next(phase, reply, before, after, next),
    ensures
        next is Ok ==> match phase {
            CompletePhase::Begin | CompletePhase::Importing { .. } | CompletePhase::Recover
            | CompletePhase::Last => reply is Done,
            CompletePhase::Finalized => reply is Outputs,
            CompletePhase::Registering { .. } => reply is Registered,
            CompletePhase::Recovering => reply is Finished,
        },
        next is Err ==> after == before,
{
}

} // verus!
