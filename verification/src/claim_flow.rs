//! Claiming the BTC: the Ark payer reveals the adaptor secret by signing the claim, once, while
//! the claim window is open, and then pays for the claim until it is confirmed.

use vstd::prelude::*;

use crate::address::Network;
use crate::adaptor::{adaptor_valid, completed, revealed, AdaptorSecret};
use crate::bytes::byte_views;
use crate::chain::{
    answer_views, status_at, tip_at, unspent_at, AnswerView, BlockRef, ChainAnswer, ChainQuery, CheckStep, ReplyView,
    TxStatus,
};
use crate::claim::{blank_signature, blank_signature_bytes};
use crate::error::SwapError;
use crate::flow::{
    check_error, deep_enough, estimate_of, estimated_fee, has_confirmations, passed, target_fee, target_of, Action,
    CpfpFees, FlowContext, Reply, SubFlow, Target,
};
use crate::hex::{hex_text, hex_value, law_hex_round_trip};
use crate::keys::{point_of, schnorr_valid, secret_key_from_hex};
use crate::lock::lock_output;
use crate::refund::{set_first_witness, with_first_witness};
use crate::relay::package_of_text;
use crate::response::{law_response_claims_the_lock, response_of, verify_response};
use crate::role::SwapStatus;
use crate::scalar::is_secret;
use crate::state::{accepted_ids, StateView, StoredBtcArkSwap};
use crate::tx::{
    hex_of_tx, stripped, sum_outputs, total_value, tx_from_hex, tx_of_hex, txid_of, OutPoint, Transaction, TransactionView,
    TxOutView, MAX_TX_HEX,
};
use crate::txfee::{fee_told, transaction_fee};
use crate::validation::{claim_window, law_open_claim_window, verify_claim_window};

verus! {

/// Whether the secret of a state may still be revealed: the swap was not aborted.
pub open spec fn may_reveal(state: StateView) -> bool {
    &&& state.status == SwapStatus::Offered || state.status == SwapStatus::BtcClaimReady || state.status
        == SwapStatus::BtcClaimed
    &&& state.ark_recovery_input_ids.len() == 0
}

/// Checks that the secret of a state may still be revealed.
pub fn ensure_may_reveal(state: &StoredBtcArkSwap) -> (result: Result<(), SwapError>)
    ensures
        match result {
            Ok(()) => may_reveal(state@),
            Err(error) => !may_reveal(state@) && error == SwapError::SwapAborted,
        },
{
    assert(state@.ark_recovery_input_ids.len() == state.ark_recovery_input_ids@.len());
    if matches!(state.status, SwapStatus::Offered | SwapStatus::BtcClaimReady | SwapStatus::BtcClaimed)
        && state.ark_recovery_input_ids.len() == 0 {
        Ok(())
    } else {
        Err(SwapError::SwapAborted)
    }
}

/// The secret key that a text writes, or why it writes none.
pub open spec fn secret_of_hex(text: Seq<char>) -> Result<Seq<u8>, SwapError> {
    match hex_value(text) {
        None => Err(SwapError::InvalidHex),
        Some(bytes) => if bytes.len() != 32 {
            Err(SwapError::ExpectedThirtyTwoBytes)
        } else if !is_secret(bytes) {
            Err(SwapError::InvalidSecretKey)
        } else {
            Ok(bytes)
        },
    }
}

/// The adaptor secret of a state, or why there is none.
pub open spec fn secret_of(state: StateView) -> Result<Seq<u8>, SwapError> {
    match state.adaptor_secret_hex {
        None => Err(SwapError::AdaptorSecretMissing),
        Some(text) => secret_of_hex(text),
    }
}

/// The adaptor secret of a state.
pub fn adaptor_secret(state: &StoredBtcArkSwap) -> (secret: Result<AdaptorSecret, SwapError>)
    ensures
        match secret {
            Ok(found) => secret_of(state@) == Ok::<Seq<u8>, SwapError>(found@),
            Err(error) => secret_of(state@) == Err::<Seq<u8>, SwapError>(error),
        },
{
    match &state.adaptor_secret_hex {
        Some(text) => match secret_key_from_hex(text.as_str()) {
            Ok(key) => Ok(AdaptorSecret::new(key)),
            Err(error) => Err(error),
        },
        None => Err(SwapError::AdaptorSecretMissing),
    }
}

/// How far the check of the claim window of a state's own lock has come.
pub open spec fn state_window(network: Network, state: StateView, log: Seq<AnswerView>) -> CheckStep {
    match response_of(network, state.relay) {
        Err(error) => CheckStep::Fail(error),
        Ok(response) => claim_window(
            log,
            response.claim.input[0].previous_output,
            response.lock,
            state.relay.request.minimum_funding_confirmations,
            state.relay.request.safety_margin_blocks,
        ),
    }
}

/// Checks the claim window of a state's own lock.
pub fn check_claim_window(network: Network, state: &StoredBtcArkSwap, log: &Vec<ChainAnswer>) -> (step: CheckStep)
    ensures
        step == state_window(network, state@, answer_views(log@)),
{
    match verify_response(network, &state.relay) {
        Ok((lock, _, claim)) => {
            assert(claim@.input.len() == claim.input@.len());
            assert(claim@.input[0] == claim.input[0]@);
            verify_claim_window(
                log,
                claim.input[0].previous_output,
                &lock,
                state.relay.request.minimum_funding_confirmations,
                state.relay.request.safety_margin_blocks,
            )
        },
        Err(error) => CheckStep::Fail(error),
    }
}

/// The signed claim of a state, or why it cannot be signed.
pub open spec fn signed_claim_of(network: Network, state: StateView) -> Result<TransactionView, SwapError> {
    match response_of(network, state.relay) {
        Err(error) => Err(error),
        Ok(response) => match secret_of(state) {
            Err(error) => Err(error),
            Ok(secret) => match state.relay.btc_claim_adaptor {
                None => Err(SwapError::AdaptorMissing),
                Some(text) => match package_of_text(text) {
                    Err(error) => Err(error),
                    Ok(package) => if !adaptor_valid(package) {
                        Err(SwapError::AdaptorMismatch)
                    } else {
                        match completed(package, secret) {
                            None => Err(SwapError::AdaptorSecretMismatch),
                            Some(signature) => Ok(with_first_witness(response.claim, seq![signature])),
                        }
                    },
                },
            },
        },
    }
}

/// Whether the secret of a state is the one of its pre-signature's adaptor point.
pub open spec fn secret_fits(state: StateView) -> bool {
    secret_of(state) matches Ok(secret) && state.relay.btc_claim_adaptor matches Some(text) && package_of_text(text) matches Ok(
        package,
    ) && package.adaptor_point == point_of(secret)
}

/// Whether the signature of a signed claim reveals the secret of the state that signed it.
pub open spec fn reveals_its_secret(state: StateView, signed: TransactionView) -> bool {
    &&& signed.input.len() == 1 && signed.input[0].witness.len() == 1
    &&& state.relay.btc_claim_adaptor matches Some(text) && package_of_text(text) matches Ok(package) && ({
        let signature = signed.input[0].witness[0];
        &&& schnorr_valid(signature, package.sighash, package.aggregate_key)
        &&& secret_of(state) matches Ok(secret) && revealed(
            package.pre_signature,
            signature,
            package.adaptor_point,
        ) == Some(secret)
    })
}

/// Signs the claim of a state, which reveals the secret to whoever sees it.
///
/// A response with a pre-signature and the secret of its adaptor point can always be signed. The
/// signature is valid for the claim, and reveals exactly this secret.
pub fn sign_claim(network: Network, state: &StoredBtcArkSwap) -> (claim: Result<Transaction, SwapError>)
    ensures
        match claim {
            Ok(found) => signed_claim_of(network, state@) == Ok::<TransactionView, SwapError>(found@)
                && found@.input.len() == 1,
            Err(error) => signed_claim_of(network, state@) == Err::<TransactionView, SwapError>(error),
        },
        response_of(network, state@.relay) is Ok && secret_fits(state@) ==> (claim matches Ok(found) && reveals_its_secret(
            state@,
            found@,
        )),
{
    let claim = match verify_response(network, &state.relay) {
        Ok((_, _, claim)) => claim,
        Err(error) => return Err(error),
    };
    let secret = match adaptor_secret(state) {
        Ok(secret) => secret,
        Err(error) => return Err(error),
    };
    let package = match &state.relay.btc_claim_adaptor {
        Some(adaptor) => match adaptor.to_package() {
            Ok(package) => package,
            Err(error) => return Err(error),
        },
        None => return Err(SwapError::AdaptorMissing),
    };
    let signature = match package.finalize_with_secret(secret) {
        Ok(signature) => signature,
        Err(error) => return Err(error),
    };
    let mut bytes: Vec<u8> = Vec::new();
    bytes.extend_from_slice(signature.as_slice());
    assert(bytes@ =~= signature@);
    let mut witness: Vec<Vec<u8>> = Vec::new();
    witness.push(bytes);
    assert(byte_views(witness@) =~= seq![signature@]);
    Ok(set_first_witness(claim, witness))
}

/// The claim with a blank signature, by which its fee is told.
pub open spec fn fee_probe_of(claim: TransactionView) -> TransactionView {
    with_first_witness(claim, seq![blank_signature()])
}

/// Where the claim flow is.
pub enum ClaimPhase {
    Begin,
    FirstWindow,
    Fee,
    Sync { target: u64 },
    Synced { target: u64 },
    SecondWindow { child: Transaction },
    Stored { claim: Transaction, child: Transaction },
    ChildStored { claim: Transaction, child: Transaction },
    Confirming { claim: Transaction },
    Published { claim: Transaction },
    Marked { claim: Transaction },
    Completed { claim: Transaction },
    Depth,
    Deep { height: u32 },
    Last,
}

/// The state of a claim that is signed: the claim and its child are stored together.
pub open spec fn with_signed_claim(state: StateView, claim: TransactionView, child: TransactionView) -> StateView {
    StateView { signed_claim_tx_hex: Some(hex_of_tx(claim)), cpfp_tx_hex: Some(hex_of_tx(child)), ..state }
}

/// What the claim flow does next, whatever the state: it begins with the claim that is already
/// signed, or with the claim window.
pub open spec fn claim_begins(
    context: FlowContext,
    state: StateView,
    next: Result<(ClaimPhase, Action), SwapError>,
) -> bool {
    if !may_reveal(state) {
        next == Err::<(ClaimPhase, Action), SwapError>(SwapError::SwapAborted)
    } else {
        match response_of(context.network, state.relay) {
            Err(error) => next == Err::<(ClaimPhase, Action), SwapError>(error),
            Ok(_) => match state.signed_claim_tx_hex {
                None => next matches Ok((ClaimPhase::FirstWindow, Action::CheckClaimWindow)),
                Some(text) => match tx_of_hex(text) {
                    None => next == Err::<(ClaimPhase, Action), SwapError>(SwapError::InvalidTransaction),
                    Some(tx) => next matches Ok((ClaimPhase::Confirming { claim }, Action::Confirmed(txid))) && claim@
                        == tx && txid == txid_of(tx),
                },
            },
        }
    }
}

/// What follows the first claim window: the rate is told, and the on-chain wallet synchronised.
pub open spec fn claim_asks_fee(
    context: FlowContext,
    state: StateView,
    log: Seq<AnswerView>,
    next: Result<(ClaimPhase, Action), SwapError>,
) -> bool {
    if !(state_window(context.network, state, log) is Pass) {
        next == Err::<(ClaimPhase, Action), SwapError>(check_error(state_window(context.network, state, log)))
    } else {
        match target_of(context.fee_rate, state.relay.request) {
            Err(error) => next == Err::<(ClaimPhase, Action), SwapError>(error),
            Ok(Target::Known(rate)) => next matches Ok((ClaimPhase::Sync { target }, Action::SyncOnchain)) && target
                == rate,
            Ok(Target::Ask { floor }) => next matches Ok((ClaimPhase::Fee, Action::FeeEstimate { floor: asked }))
                && asked == floor,
        }
    }
}

/// What follows the second claim window: the claim is signed, and stored with its child before
/// anything else happens.
pub open spec fn claim_signs(
    context: FlowContext,
    before: StateView,
    after: StateView,
    child: TransactionView,
    log: Seq<AnswerView>,
    next: Result<(ClaimPhase, Action), SwapError>,
) -> bool {
    if !(state_window(context.network, before, log) is Pass) {
        &&& after == before
        &&& next == Err::<(ClaimPhase, Action), SwapError>(check_error(state_window(context.network, before, log)))
    } else {
        match signed_claim_of(context.network, before) {
            Err(error) => after == before && next == Err::<(ClaimPhase, Action), SwapError>(error),
            Ok(signed) => {
                &&& after == with_signed_claim(before, signed, child)
                &&& next matches Ok((ClaimPhase::Stored { claim, child: stored }, Action::StoreState)) && claim@
                    == signed && stored@ == child
                &&& secret_fits(before) ==> reveals_its_secret(before, signed)
                &&& hex_of_tx(signed).len() <= MAX_TX_HEX ==> tx_of_hex(hex_of_tx(signed)) == Some(signed)
            },
        }
    }
}

/// What follows the publication: the frozen Ark inputs are spent now.
pub open spec fn claim_marks(
    state: StateView,
    claim: TransactionView,
    next: Result<(ClaimPhase, Action), SwapError>,
) -> bool {
    match accepted_ids(state) {
        Err(error) => next == Err::<(ClaimPhase, Action), SwapError>(error),
        Ok(ids) => next matches Ok((ClaimPhase::Marked { claim: kept }, Action::MarkSpent(marked))) && kept@ == claim
            && marked@ == ids,
    }
}

/// What follows then: the Ark transfer is completed with the secret.
pub open spec fn claim_completes(
    state: StateView,
    claim: TransactionView,
    next: Result<(ClaimPhase, Action), SwapError>,
) -> bool {
    match state.relay.ark_transfer {
        None => next == Err::<(ClaimPhase, Action), SwapError>(SwapError::ArkTransferMissing),
        Some(transfer) => match secret_of(state) {
            Err(error) => next == Err::<(ClaimPhase, Action), SwapError>(error),
            Ok(secret) => next matches Ok(
                (ClaimPhase::Completed { claim: kept }, Action::CompleteTransfer { transfer_hex, secret: given }),
            ) && kept@ == claim && transfer_hex@ == transfer.transfer_package_hex && given@ == secret,
        },
    }
}

/// What the claim flow does next.
pub open spec fn claim_next(
    context: FlowContext,
    phase: ClaimPhase,
    reply: Reply,
    before: StateView,
    after: StateView,
    next: Result<(ClaimPhase, Action), SwapError>,
) -> bool {
    match (phase, reply) {
        (ClaimPhase::Begin, Reply::Done) => after == before && claim_begins(context, before, next),
        (ClaimPhase::FirstWindow, Reply::Log(log)) => after == before && claim_asks_fee(
            context,
            before,
            answer_views(log@),
            next,
        ),
        (ClaimPhase::Fee, Reply::FastRate(fast)) => after == before && match estimate_of(fast, before.relay.request) {
            Err(error) => next == Err::<(ClaimPhase, Action), SwapError>(error),
            Ok(rate) => next matches Ok((ClaimPhase::Sync { target }, Action::SyncOnchain)) && target == rate,
        },
        (ClaimPhase::Sync { target }, Reply::Done) => after == before && match response_of(
            context.network,
            before.relay,
        ) {
            Err(error) => next == Err::<(ClaimPhase, Action), SwapError>(error),
            Ok(response) => next matches Ok((ClaimPhase::Synced { target: kept }, Action::MakeChild { parent, fees }))
                && kept == target && parent@ == fee_probe_of(response.claim) && fees == CpfpFees::Effective(target),
        },
        (ClaimPhase::Synced { target }, Reply::Child(child)) => after == before && (next matches Ok(
            (ClaimPhase::SecondWindow { child: kept }, Action::CheckClaimWindow),
        ) && kept@ == child@),
        (ClaimPhase::SecondWindow { child }, Reply::Log(log)) => claim_signs(
            context,
            before,
            after,
            child@,
            answer_views(log@),
            next,
        ),
        (ClaimPhase::Stored { claim, child }, Reply::Done) => after == before && (next matches Ok(
            (ClaimPhase::ChildStored { claim: kept, child: kept_child }, Action::StoreChild(stored)),
        ) && kept@ == claim@ && kept_child@ == child@ && stored@ == child@),
        (ClaimPhase::ChildStored { claim, child }, Reply::Done) => after == before && (next matches Ok(
            (ClaimPhase::Published { claim: kept }, Action::BroadcastPackage(parent, spender)),
        ) && kept@ == claim@ && parent@ == claim@ && spender@ == child@),
        (ClaimPhase::Confirming { claim }, Reply::Confirmed(None)) => after == before && (next matches Ok(
            (ClaimPhase::Published { claim: kept }, Action::Run(SubFlow::BroadcastClaim)),
        ) && kept@ == claim@),
        (ClaimPhase::Confirming { claim }, Reply::Confirmed(Some(_))) => after == before && claim_marks(
            before,
            claim@,
            next,
        ),
        (ClaimPhase::Published { claim }, Reply::Done) => after == before && claim_marks(before, claim@, next),
        (ClaimPhase::Marked { claim }, Reply::Done) => after == before && claim_completes(before, claim@, next),
        (ClaimPhase::Completed { claim }, Reply::Done) => after == before && (next matches Ok(
            (ClaimPhase::Depth, Action::Confirmed(txid)),
        ) && txid == txid_of(claim@)),
        (ClaimPhase::Depth, Reply::Confirmed(None)) => after == before && next matches Ok(
            (ClaimPhase::Last, Action::End),
        ),
        (ClaimPhase::Depth, Reply::Confirmed(Some(height))) => after == before && (next matches Ok(
            (ClaimPhase::Deep { height: kept }, Action::Tip),
        ) && kept == height),
        (ClaimPhase::Deep { height }, Reply::Tip(tip)) => if deep_enough(
            tip,
            height,
            before.relay.request.minimum_funding_confirmations,
        ) {
            after == (StateView { status: SwapStatus::BtcClaimed, ..before }) && next matches Ok(
                (ClaimPhase::Last, Action::StoreState),
            )
        } else {
            after == before && next matches Ok((ClaimPhase::Last, Action::End))
        },
        (ClaimPhase::Last, Reply::Done) => after == before && next matches Ok((ClaimPhase::Last, Action::End)),
        _ => after == before && next == Err::<(ClaimPhase, Action), SwapError>(SwapError::UnexpectedReply),
    }
}

/// Begins the claim flow.
fn begin_claim(context: FlowContext, state: &StoredBtcArkSwap) -> (next: Result<(ClaimPhase, Action), SwapError>)
    ensures
        claim_begins(context, state@, next),
{
    match ensure_may_reveal(state) {
        Ok(()) => {},
        Err(error) => return Err(error),
    }
    match verify_response(context.network, &state.relay) {
        Ok(_) => {},
        Err(error) => return Err(error),
    }
    match &state.signed_claim_tx_hex {
        None => Ok((ClaimPhase::FirstWindow, Action::CheckClaimWindow)),
        Some(text) => match tx_from_hex(text.as_str()) {
            Ok(claim) => {
                let txid = claim.txid();
                Ok((ClaimPhase::Confirming { claim }, Action::Confirmed(txid)))
            },
            Err(error) => Err(error),
        },
    }
}

/// Goes on after the first claim window.
fn ask_claim_fee(context: FlowContext, state: &StoredBtcArkSwap, log: &Vec<ChainAnswer>) -> (next: Result<
    (ClaimPhase, Action),
    SwapError,
>)
    ensures
        claim_asks_fee(context, state@, answer_views(log@), next),
{
    match passed(check_claim_window(context.network, state, log)) {
        Ok(()) => {},
        Err(error) => return Err(error),
    }
    match target_fee(context.fee_rate, &state.relay) {
        Ok(Target::Known(target)) => Ok((ClaimPhase::Sync { target }, Action::SyncOnchain)),
        Ok(Target::Ask { floor }) => Ok((ClaimPhase::Fee, Action::FeeEstimate { floor })),
        Err(error) => Err(error),
    }
}

/// Goes on after the second claim window.
fn sign_and_store_claim(
    context: FlowContext,
    state: &mut StoredBtcArkSwap,
    child: Transaction,
    log: &Vec<ChainAnswer>,
) -> (next: Result<(ClaimPhase, Action), SwapError>)
    ensures
        claim_signs(context, old(state)@, final(state)@, child@, answer_views(log@), next),
{
    match passed(check_claim_window(context.network, state, log)) {
        Ok(()) => {},
        Err(error) => return Err(error),
    }
    let claim = match sign_claim(context.network, state) {
        Ok(claim) => claim,
        Err(error) => return Err(error),
    };
    state.signed_claim_tx_hex = Some(claim.to_hex());
    state.cpfp_tx_hex = Some(child.to_hex());
    assert(state@ =~= with_signed_claim(old(state)@, claim@, child@));
    Ok((ClaimPhase::Stored { claim, child }, Action::StoreState))
}

/// Goes on after the publication.
fn mark_inputs(state: &StoredBtcArkSwap, claim: Transaction) -> (next: Result<(ClaimPhase, Action), SwapError>)
    ensures
        claim_marks(state@, claim@, next),
{
    match state.accepted_ark_input_ids() {
        Ok(ids) => Ok((ClaimPhase::Marked { claim }, Action::MarkSpent(ids))),
        Err(error) => Err(error),
    }
}

/// Goes on after the Ark inputs were marked.
fn complete_transfer(state: &StoredBtcArkSwap, claim: Transaction) -> (next: Result<(ClaimPhase, Action), SwapError>)
    ensures
        claim_completes(state@, claim@, next),
{
    match &state.relay.ark_transfer {
        Some(transfer) => match adaptor_secret(state) {
            Ok(secret) => Ok(
                (
                    ClaimPhase::Completed { claim },
                    Action::CompleteTransfer { transfer_hex: transfer.transfer_package_hex.clone(), secret },
                ),
            ),
            Err(error) => Err(error),
        },
        None => Err(SwapError::ArkTransferMissing),
    }
}

/// One step of the flow in which the Ark payer claims the BTC.
#[verifier::rlimit(40)]
pub fn claim_btc(context: FlowContext, phase: ClaimPhase, reply: Reply, state: &mut StoredBtcArkSwap) -> (next: Result<
    (ClaimPhase, Action),
    SwapError,
>)
    ensures
        claim_next(context, phase, reply, old(state)@, final(state)@, next),
{
    match (phase, reply) {
        (ClaimPhase::Begin, Reply::Done) => begin_claim(context, state),
        (ClaimPhase::FirstWindow, Reply::Log(log)) => ask_claim_fee(context, state, &log),
        (ClaimPhase::Fee, Reply::FastRate(fast)) => match estimated_fee(fast, &state.relay) {
            Ok(target) => Ok((ClaimPhase::Sync { target }, Action::SyncOnchain)),
            Err(error) => Err(error),
        },
        (ClaimPhase::Sync { target }, Reply::Done) => match verify_response(context.network, &state.relay) {
            Ok((_, _, claim)) => {
                let mut witness: Vec<Vec<u8>> = Vec::new();
                witness.push(blank_signature_bytes());
                assert(byte_views(witness@) =~= seq![blank_signature()]);
                let parent = set_first_witness(claim, witness);
                Ok((ClaimPhase::Synced { target }, Action::MakeChild { parent, fees: CpfpFees::Effective(target) }))
            },
            Err(error) => Err(error),
        },
        (ClaimPhase::Synced { target: _ }, Reply::Child(child)) => Ok(
            (ClaimPhase::SecondWindow { child }, Action::CheckClaimWindow),
        ),
        (ClaimPhase::SecondWindow { child }, Reply::Log(log)) => sign_and_store_claim(context, state, child, &log),
        (ClaimPhase::Stored { claim, child }, Reply::Done) => {
            let stored = child.clone();
            Ok((ClaimPhase::ChildStored { claim, child }, Action::StoreChild(stored)))
        },
        (ClaimPhase::ChildStored { claim, child }, Reply::Done) => {
            let parent = claim.clone();
            Ok((ClaimPhase::Published { claim }, Action::BroadcastPackage(parent, child)))
        },
        (ClaimPhase::Confirming { claim }, Reply::Confirmed(None)) => Ok(
            (ClaimPhase::Published { claim }, Action::Run(SubFlow::BroadcastClaim)),
        ),
        (ClaimPhase::Confirming { claim }, Reply::Confirmed(Some(_))) => mark_inputs(state, claim),
        (ClaimPhase::Published { claim }, Reply::Done) => mark_inputs(state, claim),
        (ClaimPhase::Marked { claim }, Reply::Done) => complete_transfer(state, claim),
        (ClaimPhase::Completed { claim }, Reply::Done) => Ok((ClaimPhase::Depth, Action::Confirmed(claim.txid()))),
        (ClaimPhase::Depth, Reply::Confirmed(None)) => Ok((ClaimPhase::Last, Action::End)),
        (ClaimPhase::Depth, Reply::Confirmed(Some(height))) => Ok((ClaimPhase::Deep { height }, Action::Tip)),
        (ClaimPhase::Deep { height }, Reply::Tip(tip)) => {
            if has_confirmations(tip, height, state.relay.request.minimum_funding_confirmations) {
                state.status = SwapStatus::BtcClaimed;
                assert(state@ =~= (StateView { status: SwapStatus::BtcClaimed, ..old(state)@ }));
                Ok((ClaimPhase::Last, Action::StoreState))
            } else {
                Ok((ClaimPhase::Last, Action::End))
            }
        },
        (ClaimPhase::Last, Reply::Done) => Ok((ClaimPhase::Last, Action::End)),
        _ => Err(SwapError::UnexpectedReply),
    }
}

/// The claim is signed in one place only: where the log of the second claim window of the state's
/// own lock passes. Nothing but storing the state follows, and all else of the state is kept.
pub proof fn law_secret_is_revealed_inside_the_window(
    context: FlowContext,
    phase: ClaimPhase,
    reply: Reply,
    before: StateView,
    after: StateView,
    next: Result<(ClaimPhase, Action), SwapError>,
)
    requires
        claim_next(context, phase, reply, before, after, next),
        after.signed_claim_tx_hex != before.signed_claim_tx_hex,
    ensures
        phase is SecondWindow,
        reply matches Reply::Log(log) && state_window(context.network, before, answer_views(log@)) is Pass,
        next matches Ok((_, Action::StoreState)),
        signed_claim_of(context.network, before) matches Ok(claim) && after.signed_claim_tx_hex == Some(hex_of_tx(claim))
            && (secret_fits(before) ==> reveals_its_secret(before, claim)),
        after == (StateView {
            signed_claim_tx_hex: after.signed_claim_tx_hex,
            cpfp_tx_hex: after.cpfp_tx_hex,
            ..before
        }),
{
}

/// Whether the claim is signed in a phase.
pub open spec fn past_signing(phase: ClaimPhase) -> bool {
    !(phase is Begin || phase is FirstWindow || phase is Fee || phase is Sync || phase is Synced || phase is SecondWindow)
}

/// A claim that was signed is never signed again: the flow goes on with the stored one.
pub proof fn law_signed_claim_is_replayed(
    context: FlowContext,
    phase: ClaimPhase,
    reply: Reply,
    before: StateView,
    after: StateView,
    next: Result<(ClaimPhase, Action), SwapError>,
)
    requires
        claim_next(context, phase, reply, before, after, next),
        past_signing(phase) || (phase is Begin && before.signed_claim_tx_hex is Some),
    ensures
        after.signed_claim_tx_hex == before.signed_claim_tx_hex,
        next matches Ok((to, _)) ==> past_signing(to),
        phase is Begin ==> (next matches Ok((to, _)) ==> (to matches ClaimPhase::Confirming { claim } && tx_of_hex(
            before.signed_claim_tx_hex->0,
        ) == Some(claim@))),
{
}

/// Whether the transactions of a phase are the stored ones.
pub open spec fn claim_is_stored(phase: ClaimPhase, state: StateView) -> bool {
    match phase {
        ClaimPhase::Stored { claim, child } => state.signed_claim_tx_hex == Some(hex_of_tx(claim@)) && state.cpfp_tx_hex
            == Some(hex_of_tx(child@)),
        ClaimPhase::ChildStored { claim, child } => state.signed_claim_tx_hex == Some(hex_of_tx(claim@))
            && state.cpfp_tx_hex == Some(hex_of_tx(child@)),
        _ => true,
    }
}

/// What is broadcast is stored: the phases keep the transactions of the state, and a package that
/// is broadcast is the stored claim with the stored child.
pub proof fn law_claim_is_stored_before_broadcast(
    context: FlowContext,
    phase: ClaimPhase,
    reply: Reply,
    before: StateView,
    after: StateView,
    next: Result<(ClaimPhase, Action), SwapError>,
)
    requires
        claim_next(context, phase, reply, before, after, next),
        claim_is_stored(phase, before),
    ensures
        next matches Ok((to, _)) ==> claim_is_stored(to, after),
        next matches Ok((_, Action::BroadcastPackage(claim, child))) ==> after == before && before.signed_claim_tx_hex
            == Some(hex_of_tx(claim@)) && before.cpfp_tx_hex == Some(hex_of_tx(child@)),
        next matches Ok((_, action)) ==> !(action is Broadcast),
        after != before ==> next matches Ok((_, Action::StoreState)),
        after.relay == before.relay,
{
}

/// The secret of an aborted swap is never revealed: the claim flow refuses to begin.
pub proof fn law_aborted_swap_keeps_its_secret(
    context: FlowContext,
    before: StateView,
    after: StateView,
    next: Result<(ClaimPhase, Action), SwapError>,
)
    requires
        claim_next(context, ClaimPhase::Begin, Reply::Done, before, after, next),
        before.ark_recovery_input_ids.len() > 0 || before.status == SwapStatus::Cancelled || before.status
            == SwapStatus::ArkReclaimed,
    ensures
        next == Err::<(ClaimPhase, Action), SwapError>(SwapError::SwapAborted),
        after == before,
{
}

/// The BTC is claimed only where the claim is confirmed as deep as the request demands: being
/// broadcast settles nothing.
pub proof fn law_claimed_only_at_depth(
    context: FlowContext,
    phase: ClaimPhase,
    reply: Reply,
    before: StateView,
    after: StateView,
    next: Result<(ClaimPhase, Action), SwapError>,
)
    requires
        claim_next(context, phase, reply, before, after, next),
    ensures
        after.status == SwapStatus::BtcClaimed && before.status != SwapStatus::BtcClaimed ==> (phase matches ClaimPhase::Deep {
            height,
        } && (reply matches Reply::Tip(tip) && deep_enough(
            tip,
            height,
            before.relay.request.minimum_funding_confirmations,
        ))),
        next matches Ok((ClaimPhase::Deep { height }, _)) ==> phase is Depth && reply == Reply::Confirmed(Some(height)),
        next matches Ok((ClaimPhase::Depth, action)) ==> (phase matches ClaimPhase::Completed { claim } && action
            == Action::Confirmed(txid_of(claim@))),
{
}

/// The signed claim that is stored, or why there is none.
pub open spec fn stored_claim(state: StateView) -> Result<TransactionView, SwapError> {
    match state.signed_claim_tx_hex {
        None => Err(SwapError::SignedClaimMissing),
        Some(text) => match tx_of_hex(text) {
            None => Err(SwapError::InvalidTransaction),
            Some(tx) => Ok(tx),
        },
    }
}

/// The signed claim that is stored.
pub fn load_claim(state: &StoredBtcArkSwap) -> (claim: Result<Transaction, SwapError>)
    ensures
        match claim {
            Ok(found) => stored_claim(state@) == Ok::<TransactionView, SwapError>(found@),
            Err(error) => stored_claim(state@) == Err::<TransactionView, SwapError>(error),
        },
{
    match &state.signed_claim_tx_hex {
        Some(text) => tx_from_hex(text.as_str()),
        None => Err(SwapError::SignedClaimMissing),
    }
}

/// Where the flow that pays for the claim is.
pub enum BroadcastPhase {
    Begin,
    Fee,
    Sync { target: u64 },
    Child { target: u64, child: Transaction },
    Mempool { target: u64 },
    ChildFee { target: u64, child: Transaction },
    AnchorTip { target: u64, fee: u64 },
    Anchor { target: u64, fee: u64 },
    AnchorAncestors { target: u64, fee: u64 },
    Make,
    Stored { child: Transaction },
    ChildStored { child: Transaction },
    Last,
}

/// The transaction that spends an output, and where it is, as some spends tell it.
pub open spec fn spend_of(spends: Seq<(OutPoint, [u8; 32], TxStatus)>, point: OutPoint) -> Option<([u8; 32], TxStatus)>
    decreases spends.len(),
{
    if spends.len() == 0 {
        None
    } else if spends[0].0 == point {
        Some((spends[0].1, spends[0].2))
    } else {
        spend_of(spends.skip(1), point)
    }
}

/// The transaction that spends an output, and where it is.
fn find_spend(spends: &Vec<(OutPoint, [u8; 32], TxStatus)>, point: OutPoint) -> (spend: Option<([u8; 32], TxStatus)>)
    ensures
        spend == spend_of(spends@, point),
{
    let mut i: usize = 0;
    assert(spends@.skip(0) =~= spends@);
    while i < spends.len()
        invariant
            i <= spends.len(),
            spend_of(spends@.skip(i as int), point) == spend_of(spends@, point),
        decreases spends.len() - i,
    {
        assert(spends@.skip(i as int)[0] == spends@[i as int]);
        assert(spends@.skip(i as int).skip(1) =~= spends@.skip(i + 1));
        if spends[i].0.same(&point) {
            return Some((spends[i].1, spends[i].2));
        }
        i += 1;
    }
    None
}

/// The anchor of a claim.
pub open spec fn anchor_point(claim: TransactionView) -> OutPoint {
    OutPoint { txid: txid_of(claim), vout: 1 }
}

/// What the claim and a child that was not accepted pay together, or why it cannot be told.
pub open spec fn package_fee_of(state: StateView, claim: TransactionView, child: TransactionView, log: Seq<AnswerView>) -> Result<
    u64,
    SwapError,
> {
    match fee_told(log, child, Some(claim)) {
        Err(step) => Err(check_error(step)),
        Ok(child_fee) => if total_value(claim.output) > u64::MAX {
            Err(SwapError::AmountOverflow)
        } else if total_value(claim.output) > state.relay.request.amount_sat {
            Err(SwapError::InvalidClaimFee)
        } else if child_fee + state.relay.request.amount_sat - total_value(claim.output) > u64::MAX {
            Err(SwapError::FeeOverflow)
        } else {
            Ok((child_fee + state.relay.request.amount_sat - total_value(claim.output)) as u64)
        },
    }
}

/// What the claim and a child that was not accepted pay together.
fn package_fee(state: &StoredBtcArkSwap, claim: &Transaction, child: &Transaction, log: &Vec<ChainAnswer>) -> (fee: Result<
    u64,
    SwapError,
>)
    ensures
        fee == package_fee_of(state@, claim@, child@, answer_views(log@)),
{
    let child_fee: u64 = match transaction_fee(log, child, Some(claim)) {
        Ok(fee) => fee,
        Err(CheckStep::Fail(error)) => return Err(error),
        Err(_) => return Err(SwapError::UnexpectedReply),
    };
    let sum: u64 = match sum_outputs(&claim.output) {
        Ok(sum) => sum,
        Err(error) => return Err(error),
    };
    let parent_fee: u64 = match state.relay.request.amount_sat.checked_sub(sum) {
        Some(fee) => fee,
        None => return Err(SwapError::InvalidClaimFee),
    };
    match child_fee.checked_add(parent_fee) {
        Some(fee) => Ok(fee),
        None => Err(SwapError::FeeOverflow),
    }
}

/// Whether a child of the stored claim is asked for, at some fees.
pub open spec fn makes_child(state: StateView, fees: CpfpFees, next: Result<(BroadcastPhase, Action), SwapError>) -> bool {
    match stored_claim(state) {
        Err(error) => next == Err::<(BroadcastPhase, Action), SwapError>(error),
        Ok(claim) => next matches Ok((BroadcastPhase::Make, Action::MakeChild { parent, fees: asked })) && parent@
            == claim && asked == fees,
    }
}

/// A replacement at a target over a package fee.
pub open spec fn replacement(target: u64, fee: u64) -> CpfpFees {
    CpfpFees::Rbf { min_effective_fee_rate: target, current_package_fee: fee }
}

/// What the flow that pays for the claim does next.
pub open spec fn broadcast_next(
    context: FlowContext,
    phase: BroadcastPhase,
    reply: Reply,
    before: StateView,
    after: StateView,
    next: Result<(BroadcastPhase, Action), SwapError>,
) -> bool {
    match (phase, reply) {
        (BroadcastPhase::Begin, Reply::Done) => after == before && match stored_claim(before) {
            Err(error) => next == Err::<(BroadcastPhase, Action), SwapError>(error),
            Ok(_) => match target_of(context.fee_rate, before.relay.request) {
                Err(error) => next == Err::<(BroadcastPhase, Action), SwapError>(error),
                Ok(Target::Known(rate)) => next matches Ok((BroadcastPhase::Sync { target }, Action::SyncOnchain))
                    && target == rate,
                Ok(Target::Ask { floor }) => next matches Ok((BroadcastPhase::Fee, Action::FeeEstimate { floor: asked }))
                    && asked == floor,
            },
        },
        (BroadcastPhase::Fee, Reply::FastRate(fast)) => after == before && match estimate_of(
            fast,
            before.relay.request,
        ) {
            Err(error) => next == Err::<(BroadcastPhase, Action), SwapError>(error),
            Ok(rate) => next matches Ok((BroadcastPhase::Sync { target }, Action::SyncOnchain)) && target == rate,
        },
        (BroadcastPhase::Sync { target }, Reply::Done) => after == before && match before.cpfp_tx_hex {
            None => makes_child(before, CpfpFees::Effective(target), next),
            Some(text) => match tx_of_hex(text) {
                None => next == Err::<(BroadcastPhase, Action), SwapError>(SwapError::InvalidTransaction),
                Some(tx) => next matches Ok((BroadcastPhase::Child { target: kept, child }, Action::Status(txid)))
                    && kept == target && child@ == tx && txid == txid_of(tx),
            },
        },
        (BroadcastPhase::Child { target, child }, Reply::Status(TxStatus::Mempool)) => after == before && (next matches Ok(
            (BroadcastPhase::Mempool { target: kept }, Action::Ancestors(txid)),
        ) && kept == target && txid == txid_of(child@)),
        (BroadcastPhase::Child { target, child }, Reply::Status(_)) => after == before && match stored_claim(before) {
            Err(error) => next == Err::<(BroadcastPhase, Action), SwapError>(error),
            Ok(claim) => next matches Ok(
                (
                    BroadcastPhase::ChildFee { target: kept, child: kept_child },
                    Action::GatherFee { tx, parent: Some(parent) },
                ),
            ) && kept == target && kept_child@ == child@ && tx@ == child@ && parent@ == claim,
        },
        (BroadcastPhase::Mempool { target }, Reply::Ancestors { total_fee, effective_rate }) => after == before && (
        if effective_rate matches Some(rate) && rate >= target {
            next matches Ok((BroadcastPhase::Last, Action::End))
        } else {
            makes_child(before, replacement(target, total_fee), next)
        }),
        (BroadcastPhase::ChildFee { target, child }, Reply::Log(log)) => after == before && match stored_claim(before) {
            Err(error) => next == Err::<(BroadcastPhase, Action), SwapError>(error),
            Ok(claim) => match package_fee_of(before, claim, child@, answer_views(log@)) {
                Err(error) => next == Err::<(BroadcastPhase, Action), SwapError>(error),
                Ok(fee) => next matches Ok((BroadcastPhase::AnchorTip { target: kept, fee: told }, Action::Tip)) && kept
                    == target && told == fee,
            },
        },
        (BroadcastPhase::AnchorTip { target, fee }, Reply::Tip(tip)) => after == before && match stored_claim(before) {
            Err(error) => next == Err::<(BroadcastPhase, Action), SwapError>(error),
            Ok(claim) => next matches Ok(
                (BroadcastPhase::Anchor { target: kept, fee: told }, Action::Spends { points, from_height }),
            ) && kept == target && told == fee && points@ == seq![anchor_point(claim)] && from_height == tip,
        },
        (BroadcastPhase::Anchor { target, fee }, Reply::Spends(spends)) => after == before && match stored_claim(before) {
            Err(error) => next == Err::<(BroadcastPhase, Action), SwapError>(error),
            Ok(claim) => match spend_of(spends@, anchor_point(claim)) {
                Some((spender, TxStatus::Mempool)) => next matches Ok(
                    (BroadcastPhase::AnchorAncestors { target: kept, fee: told }, Action::Ancestors(txid)),
                ) && kept == target && told == fee && txid == spender,
                _ => makes_child(before, replacement(target, fee), next),
            },
        },
        (BroadcastPhase::AnchorAncestors { target, fee }, Reply::Ancestors { total_fee, effective_rate: _ }) => after
            == before && makes_child(before, replacement(target, if total_fee > fee { total_fee } else { fee }), next),
        (BroadcastPhase::Make, Reply::Child(child)) => {
            &&& after == (StateView { cpfp_tx_hex: Some(hex_of_tx(child@)), ..before })
            &&& next matches Ok((BroadcastPhase::Stored { child: kept }, Action::StoreState)) && kept@ == child@
        },
        (BroadcastPhase::Stored { child }, Reply::Done) => after == before && (next matches Ok(
            (BroadcastPhase::ChildStored { child: kept }, Action::StoreChild(stored)),
        ) && kept@ == child@ && stored@ == child@),
        (BroadcastPhase::ChildStored { child }, Reply::Done) => after == before && match stored_claim(before) {
            Err(error) => next == Err::<(BroadcastPhase, Action), SwapError>(error),
            Ok(claim) => next matches Ok((BroadcastPhase::Last, Action::BroadcastPackage(parent, spender))) && parent@
                == claim && spender@ == child@,
        },
        (BroadcastPhase::Last, Reply::Done) => after == before && next matches Ok((BroadcastPhase::Last, Action::End)),
        _ => after == before && next == Err::<(BroadcastPhase, Action), SwapError>(SwapError::UnexpectedReply),
    }
}

/// Asks for a child of the stored claim.
fn make_child(state: &StoredBtcArkSwap, fees: CpfpFees) -> (next: Result<(BroadcastPhase, Action), SwapError>)
    ensures
        makes_child(state@, fees, next),
{
    match load_claim(state) {
        Ok(parent) => Ok((BroadcastPhase::Make, Action::MakeChild { parent, fees })),
        Err(error) => Err(error),
    }
}

/// One step of the flow that pays for a signed claim, again and again until it is confirmed.
///
/// A child that was evicted, or never accepted, does not freeze its old fee: what it would have
/// paid is told from its inputs.
#[verifier::rlimit(40)]
pub fn broadcast_claim(context: FlowContext, phase: BroadcastPhase, reply: Reply, state: &mut StoredBtcArkSwap) -> (next:
    Result<(BroadcastPhase, Action), SwapError>)
    ensures
        broadcast_next(context, phase, reply, old(state)@, final(state)@, next),
{
    match (phase, reply) {
        (BroadcastPhase::Begin, Reply::Done) => match load_claim(state) {
            Ok(_) => match target_fee(context.fee_rate, &state.relay) {
                Ok(Target::Known(target)) => Ok((BroadcastPhase::Sync { target }, Action::SyncOnchain)),
                Ok(Target::Ask { floor }) => Ok((BroadcastPhase::Fee, Action::FeeEstimate { floor })),
                Err(error) => Err(error),
            },
            Err(error) => Err(error),
        },
        (BroadcastPhase::Fee, Reply::FastRate(fast)) => match estimated_fee(fast, &state.relay) {
            Ok(target) => Ok((BroadcastPhase::Sync { target }, Action::SyncOnchain)),
            Err(error) => Err(error),
        },
        (BroadcastPhase::Sync { target }, Reply::Done) => match &state.cpfp_tx_hex {
            None => make_child(state, CpfpFees::Effective(target)),
            Some(text) => match tx_from_hex(text.as_str()) {
                Ok(child) => {
                    let txid = child.txid();
                    Ok((BroadcastPhase::Child { target, child }, Action::Status(txid)))
                },
                Err(error) => Err(error),
            },
        },
        (BroadcastPhase::Child { target, child }, Reply::Status(TxStatus::Mempool)) => Ok(
            (BroadcastPhase::Mempool { target }, Action::Ancestors(child.txid())),
        ),
        (BroadcastPhase::Child { target, child }, Reply::Status(_)) => match load_claim(state) {
            Ok(claim) => {
                let tx = child.clone();
                Ok((BroadcastPhase::ChildFee { target, child }, Action::GatherFee { tx, parent: Some(claim) }))
            },
            Err(error) => Err(error),
        },
        (BroadcastPhase::Mempool { target }, Reply::Ancestors { total_fee, effective_rate }) => match effective_rate {
            Some(rate) if rate >= target => Ok((BroadcastPhase::Last, Action::End)),
            _ => make_child(
                state,
                CpfpFees::Rbf { min_effective_fee_rate: target, current_package_fee: total_fee },
            ),
        },
        (BroadcastPhase::ChildFee { target, child }, Reply::Log(log)) => match load_claim(state) {
            Ok(claim) => match package_fee(state, &claim, &child, &log) {
                Ok(fee) => Ok((BroadcastPhase::AnchorTip { target, fee }, Action::Tip)),
                Err(error) => Err(error),
            },
            Err(error) => Err(error),
        },
        (BroadcastPhase::AnchorTip { target, fee }, Reply::Tip(tip)) => match load_claim(state) {
            Ok(claim) => {
                let mut points: Vec<OutPoint> = Vec::new();
                points.push(OutPoint { txid: claim.txid(), vout: 1 });
                assert(points@ =~= seq![anchor_point(claim@)]);
                Ok((BroadcastPhase::Anchor { target, fee }, Action::Spends { points, from_height: tip }))
            },
            Err(error) => Err(error),
        },
        (BroadcastPhase::Anchor { target, fee }, Reply::Spends(spends)) => match load_claim(state) {
            Ok(claim) => match find_spend(&spends, OutPoint { txid: claim.txid(), vout: 1 }) {
                Some((spender, TxStatus::Mempool)) => Ok(
                    (BroadcastPhase::AnchorAncestors { target, fee }, Action::Ancestors(spender)),
                ),
                _ => make_child(state, CpfpFees::Rbf { min_effective_fee_rate: target, current_package_fee: fee }),
            },
            Err(error) => Err(error),
        },
        (BroadcastPhase::AnchorAncestors { target, fee }, Reply::Ancestors { total_fee, effective_rate: _ }) => {
            let current_package_fee: u64 = if total_fee > fee {
                total_fee
            } else {
                fee
            };
            make_child(state, CpfpFees::Rbf { min_effective_fee_rate: target, current_package_fee })
        },
        (BroadcastPhase::Make, Reply::Child(child)) => {
            state.cpfp_tx_hex = Some(child.to_hex());
            assert(state@ =~= (StateView { cpfp_tx_hex: Some(hex_of_tx(child@)), ..old(state)@ }));
            Ok((BroadcastPhase::Stored { child }, Action::StoreState))
        },
        (BroadcastPhase::Stored { child }, Reply::Done) => {
            let stored = child.clone();
            Ok((BroadcastPhase::ChildStored { child }, Action::StoreChild(stored)))
        },
        (BroadcastPhase::ChildStored { child }, Reply::Done) => match load_claim(state) {
            Ok(claim) => Ok((BroadcastPhase::Last, Action::BroadcastPackage(claim, child))),
            Err(error) => Err(error),
        },
        (BroadcastPhase::Last, Reply::Done) => Ok((BroadcastPhase::Last, Action::End)),
        _ => Err(SwapError::UnexpectedReply),
    }
}

/// Paying for a claim changes nothing of a state but the child.
pub proof fn law_paying_keeps_the_claim(
    context: FlowContext,
    phase: BroadcastPhase,
    reply: Reply,
    before: StateView,
    after: StateView,
    next: Result<(BroadcastPhase, Action), SwapError>,
)
    requires
        broadcast_next(context, phase, reply, before, after, next),
    ensures
        after == (StateView { cpfp_tx_hex: after.cpfp_tx_hex, ..before }),
        after != before ==> next matches Ok((_, Action::StoreState)),
        next matches Ok((_, Action::BroadcastPackage(claim, _))) ==> stored_claim(before) == Ok::<
            TransactionView,
            SwapError,
        >(claim@),
{
}

/// The swap is claimed exactly where the claim has the confirmations of the request: its own block and
/// those up to the tip are as many.
pub proof fn law_claimed_exactly_at_depth(
    context: FlowContext,
    phase: ClaimPhase,
    reply: Reply,
    before: StateView,
    after: StateView,
    next: Result<(ClaimPhase, Action), SwapError>,
)
    requires
        claim_next(context, phase, reply, before, after, next),
    ensures
        phase is Depth ==> match reply {
            Reply::Confirmed(None) => after == before && (next matches Ok((ClaimPhase::Last, Action::End))),
            Reply::Confirmed(Some(height)) => after == before && (next matches Ok(
                (ClaimPhase::Deep { height: kept }, Action::Tip),
            ) && kept == height),
            _ => next is Err,
        },
        phase matches ClaimPhase::Deep { height } ==> (reply matches Reply::Tip(tip) ==> {
            let deep = height <= tip && before.relay.request.minimum_funding_confirmations <= tip - height + 1;
            if deep {
                after == (StateView { status: SwapStatus::BtcClaimed, ..before }) && (next matches Ok(
                    (ClaimPhase::Last, Action::StoreState),
                ))
            } else {
                after == before && (next matches Ok((ClaimPhase::Last, Action::End)))
            }
        }),
        after.status != before.status ==> phase is Deep && after.status == SwapStatus::BtcClaimed,
{
}

/// An open window is used: where the check passes at first, the fee is told, the wallet synchronised, and
/// a child made that lifts the claim, weighed with a signature of 64 bytes, to the rate; where it passes
/// again, the claim is signed. The rate is 250 times the override, or else the estimate where that is
/// above 250 times the rate of the request.
pub proof fn law_claim_is_prepared_at_the_rate(
    context: FlowContext,
    phase: ClaimPhase,
    reply: Reply,
    before: StateView,
    after: StateView,
    next: Result<(ClaimPhase, Action), SwapError>,
)
    requires
        claim_next(context, phase, reply, before, after, next),
        response_of(context.network, before.relay) is Ok,
        context.fee_rate matches Some(rate) ==> 0 < rate <= u32::MAX,
    ensures
        ({
            let claim = response_of(context.network, before.relay)->Ok_0.claim;
            let floor = 250 * before.relay.request.fee_rate_sat_vb;
            let open = (before.status == SwapStatus::Offered || before.status == SwapStatus::BtcClaimReady || before.status
                == SwapStatus::BtcClaimed) && before.ark_recovery_input_ids.len() == 0;
            &&& phase is Begin && reply is Done && open && before.signed_claim_tx_hex is None ==> (next matches Ok(
                (ClaimPhase::FirstWindow, Action::CheckClaimWindow),
            ))
            &&& phase is FirstWindow ==> (reply matches Reply::Log(log) ==> if state_window(
                context.network,
                before,
                answer_views(log@),
            ) is Pass {
                match context.fee_rate {
                    Some(rate) => next matches Ok((ClaimPhase::Sync { target }, Action::SyncOnchain)) && target == 250
                        * rate,
                    None => next matches Ok((ClaimPhase::Fee, Action::FeeEstimate { floor: asked })) && asked == floor,
                }
            } else {
                next is Err
            })
            &&& phase is Fee ==> (reply matches Reply::FastRate(fast) ==> (next matches Ok(
                (ClaimPhase::Sync { target }, Action::SyncOnchain),
            ) && target >= fast && target >= floor && (target == fast || target == floor)))
            &&& phase matches ClaimPhase::Sync { target } ==> (reply is Done ==> (next matches Ok(
                (ClaimPhase::Synced { target: kept }, Action::MakeChild { parent, fees }),
            ) && kept == target && fees == CpfpFees::Effective(target) && {
                &&& parent@.output == claim.output && parent@.lock_time == claim.lock_time && parent@.version
                    == claim.version
                &&& parent@.input.len() == 1 && parent@.input[0].previous_output == claim.input[0].previous_output
                &&& parent@.input[0].witness.len() == 1 && parent@.input[0].witness[0].len() == 64
            }))
            &&& phase is Synced ==> (reply matches Reply::Child(child) ==> (next matches Ok(
                (ClaimPhase::SecondWindow { child: kept }, Action::CheckClaimWindow),
            ) && kept@ == child@))
            &&& phase matches ClaimPhase::SecondWindow { child } ==> (reply matches Reply::Log(log) ==> if state_window(
                context.network,
                before,
                answer_views(log@),
            ) is Pass {
                signed_claim_of(context.network, before) matches Ok(signed) ==> {
                    &&& after.signed_claim_tx_hex == Some(hex_of_tx(signed)) && after.cpfp_tx_hex == Some(hex_of_tx(child@))
                    &&& next matches Ok((ClaimPhase::Stored { claim: kept, child: kept_child }, Action::StoreState)) && kept@
                        == signed && kept_child@ == child@
                }
            } else {
                after == before && next is Err
            })
        }),
{
    law_response_claims_the_lock(context.network, before.relay);
}

/// A signed claim pays what was agreed: it is the agreed claim with one signature of 64 bytes, which is
/// valid for it.
pub proof fn law_signed_claim_is_the_agreed_one(network: Network, state: StateView)
    requires
        signed_claim_of(network, state) is Ok,
    ensures
        ({
            let signed = signed_claim_of(network, state)->Ok_0;
            let response = response_of(network, state.relay)->Ok_0;
            &&& response_of(network, state.relay) is Ok
            &&& signed.output == response.claim.output && signed.lock_time == response.claim.lock_time
            &&& signed.version == response.claim.version
            &&& signed.input.len() == 1 && signed.input[0].previous_output == response.claim.input[0].previous_output
            &&& signed.input[0].witness.len() == 1
            &&& state.relay.btc_claim_adaptor matches Some(text) && package_of_text(text) matches Ok(package)
                && schnorr_valid(signed.input[0].witness[0], package.sighash, package.aggregate_key)
        }),
{
    law_response_claims_the_lock(network, state.relay);
}

/// A claim that is stored goes out with its child, or by the flow that pays for it where it is not
/// confirmed; then the Ark inputs of the swap are marked as spent, all of them, the Ark transfer is
/// completed with the secret, and the depth of the claim is asked for.
pub proof fn law_claim_is_followed_through(
    context: FlowContext,
    phase: ClaimPhase,
    reply: Reply,
    before: StateView,
    after: StateView,
    next: Result<(ClaimPhase, Action), SwapError>,
)
    requires
        claim_next(context, phase, reply, before, after, next),
        accepted_ids(before) is Ok,
        secret_of(before) is Ok,
        before.relay.ark_transfer is Some,
    ensures
        ({
            let marks = next matches Ok((ClaimPhase::Marked { .. }, Action::MarkSpent(ids))) && ids@ == accepted_ids(
                before,
            )->Ok_0;
            &&& phase matches ClaimPhase::Stored { claim, child } ==> (reply is Done ==> (next matches Ok(
                (ClaimPhase::ChildStored { claim: kept, child: kept_child }, Action::StoreChild(stored)),
            ) && kept@ == claim@ && kept_child@ == child@ && stored@ == child@))
            &&& phase matches ClaimPhase::ChildStored { claim, child } ==> (reply is Done ==> (next matches Ok(
                (ClaimPhase::Published { claim: kept }, Action::BroadcastPackage(parent, spender)),
            ) && kept@ == claim@ && parent@ == claim@ && spender@ == child@))
            &&& phase matches ClaimPhase::Confirming { claim } ==> match reply {
                Reply::Confirmed(None) => next matches Ok(
                    (ClaimPhase::Published { claim: kept }, Action::Run(SubFlow::BroadcastClaim)),
                ) && kept@ == claim@,
                Reply::Confirmed(Some(_)) => marks,
                _ => next is Err,
            }
            &&& phase is Published && reply is Done ==> marks
            &&& next matches Ok((ClaimPhase::Marked { claim: kept }, _)) ==> match phase {
                ClaimPhase::Published { claim } => kept@ == claim@,
                ClaimPhase::Confirming { claim } => kept@ == claim@,
                _ => false,
            }
            &&& phase matches ClaimPhase::Marked { claim } ==> (reply is Done ==> (next matches Ok(
                (ClaimPhase::Completed { claim: kept }, Action::CompleteTransfer { transfer_hex, secret }),
            ) && kept@ == claim@ && transfer_hex@ == before.relay.ark_transfer->0.transfer_package_hex && secret@
                == secret_of(before)->Ok_0))
            &&& phase matches ClaimPhase::Completed { claim } ==> (reply is Done ==> (next matches Ok(
                (ClaimPhase::Depth, Action::Confirmed(txid)),
            ) && txid == txid_of(claim@)))
        }),
{
}

/// The secret is read as it was written: the text of any secret key gives that key.
pub proof fn law_secret_reads_back(secret: Seq<u8>)
    requires
        is_secret(secret),
    ensures
        secret_of_hex(hex_text(secret)) == Ok::<Seq<u8>, SwapError>(secret),
{
    law_hex_round_trip(secret);
}

/// The first spend of an output that is told is the one that is taken.
proof fn lemma_spend_is_found(spends: Seq<(OutPoint, [u8; 32], TxStatus)>, point: OutPoint)
    ensures
        spend_of(spends, point) is None <==> forall|i: int| 0 <= i < spends.len() ==> (#[trigger] spends[i]).0 != point,
        spend_of(spends, point) matches Some(found) ==> exists|i: int|
            0 <= i < spends.len() && (#[trigger] spends[i]) == (point, found.0, found.1) && forall|k: int|
                0 <= k < i ==> (#[trigger] spends[k]).0 != point,
    decreases spends.len(),
{
    if spends.len() > 0 && spends[0].0 != point {
        let rest = spends.skip(1);
        lemma_spend_is_found(rest, point);
        if spend_of(rest, point) is None {
            assert forall|i: int| 0 <= i < spends.len() implies (#[trigger] spends[i]).0 != point by {
                if i > 0 {
                    assert(rest[i - 1] == spends[i]);
                }
            }
        } else {
            let found = spend_of(rest, point)->0;
            let i = choose|i: int|
                0 <= i < rest.len() && (#[trigger] rest[i]) == (point, found.0, found.1) && forall|k: int|
                    0 <= k < i ==> (#[trigger] rest[k]).0 != point;
            assert(spends[i + 1] == rest[i]);
            assert forall|k: int| 0 <= k < i + 1 implies (#[trigger] spends[k]).0 != point by {
                if k > 0 {
                    assert(rest[k - 1] == spends[k]);
                }
            }
        }
    } else if spends.len() > 0 {
        assert(spends[0] == (point, spends[0].1, spends[0].2));
    }
}

/// The fee of a claim is raised where it has to be: a package in the mempool is left alone exactly where
/// it pays the rate, and else replaced by one that pays the rate and more than it; where the child is
/// not in the mempool, the new one pays more than the old package did, and than whatever spends the
/// anchor in the mempool.
pub proof fn law_claim_fee_is_raised_to_the_rate(
    context: FlowContext,
    phase: BroadcastPhase,
    reply: Reply,
    before: StateView,
    after: StateView,
    next: Result<(BroadcastPhase, Action), SwapError>,
)
    requires
        broadcast_next(context, phase, reply, before, after, next),
        stored_claim(before) is Ok,
        context.fee_rate matches Some(rate) ==> 0 < rate <= u32::MAX,
        0 < before.relay.request.fee_rate_sat_vb <= u32::MAX,
    ensures
        ({
            let claim = stored_claim(before)->Ok_0;
            let floor = 250 * before.relay.request.fee_rate_sat_vb;
            let anchor = OutPoint { txid: txid_of(claim), vout: 1 };
            &&& phase is Begin && reply is Done ==> match context.fee_rate {
                Some(rate) => next matches Ok((BroadcastPhase::Sync { target }, Action::SyncOnchain)) && target == 250
                    * rate,
                None => next matches Ok((BroadcastPhase::Fee, Action::FeeEstimate { floor: asked })) && asked == floor,
            }
            &&& phase is Fee ==> (reply matches Reply::FastRate(fast) ==> (next matches Ok(
                (BroadcastPhase::Sync { target }, Action::SyncOnchain),
            ) && target >= fast && target >= floor && (target == fast || target == floor)))
            &&& phase matches BroadcastPhase::Sync { target } ==> (reply is Done ==> match before.cpfp_tx_hex {
                None => next matches Ok((BroadcastPhase::Make, Action::MakeChild { parent, fees })) && parent@ == claim
                    && fees == CpfpFees::Effective(target),
                Some(text) => tx_of_hex(text) matches Some(tx) ==> (next matches Ok(
                    (BroadcastPhase::Child { target: kept, child }, Action::Status(txid)),
                ) && kept == target && child@ == tx && txid == txid_of(tx)),
            })
            &&& phase matches BroadcastPhase::Child { target, child } ==> match reply {
                Reply::Status(TxStatus::Mempool) => next matches Ok(
                    (BroadcastPhase::Mempool { target: kept }, Action::Ancestors(txid)),
                ) && kept == target && txid == txid_of(child@),
                Reply::Status(_) => next matches Ok(
                    (BroadcastPhase::ChildFee { target: kept, child: kept_child }, Action::GatherFee { tx, parent }),
                ) && kept == target && kept_child@ == child@ && tx@ == child@ && (parent matches Some(known) && known@
                    == claim),
                _ => next is Err,
            }
            &&& phase matches BroadcastPhase::Mempool { target } ==> (reply matches Reply::Ancestors {
                total_fee,
                effective_rate,
            } ==> if effective_rate is Some && effective_rate->0 >= target {
                next matches Ok((BroadcastPhase::Last, Action::End))
            } else {
                next matches Ok((BroadcastPhase::Make, Action::MakeChild { parent, fees })) && parent@ == claim && fees == (
                CpfpFees::Rbf { min_effective_fee_rate: target, current_package_fee: total_fee })
            })
            &&& phase matches BroadcastPhase::ChildFee { target, child } ==> (reply matches Reply::Log(log) ==> (
            fee_told(answer_views(log@), child@, Some(claim)) matches Ok(child_fee) ==> ({
                let paid = child_fee + before.relay.request.amount_sat - total_value(claim.output);
                total_value(claim.output) <= before.relay.request.amount_sat && paid <= u64::MAX ==> (next matches Ok(
                    (BroadcastPhase::AnchorTip { target: kept, fee }, Action::Tip),
                ) && kept == target && fee == paid)
            })))
            &&& phase matches BroadcastPhase::AnchorTip { target, fee } ==> (reply matches Reply::Tip(tip) ==> (
            next matches Ok(
                (BroadcastPhase::Anchor { target: kept, fee: told }, Action::Spends { points, from_height }),
            ) && kept == target && told == fee && points@.len() == 1 && points@[0] == anchor && from_height == tip))
            &&& phase matches BroadcastPhase::Anchor { target, fee } ==> (reply matches Reply::Spends(spends) ==> match next {
                Ok((BroadcastPhase::AnchorAncestors { target: kept, fee: told }, Action::Ancestors(spender))) => kept
                    == target && told == fee && exists|i: int|
                    0 <= i < spends@.len() && (#[trigger] spends@[i]) == (anchor, spender, TxStatus::Mempool),
                Ok((BroadcastPhase::Make, Action::MakeChild { parent, fees })) => parent@ == claim && fees == (
                CpfpFees::Rbf { min_effective_fee_rate: target, current_package_fee: fee }) && forall|i: int|
                    0 <= i < spends@.len() && (#[trigger] spends@[i]).0 == anchor && (forall|k: int|
                        0 <= k < i ==> (#[trigger] spends@[k]).0 != anchor) ==> spends@[i].2 != TxStatus::Mempool,
                _ => false,
            })
            &&& phase matches BroadcastPhase::AnchorAncestors { target, fee } ==> (reply matches Reply::Ancestors {
                total_fee,
                ..
            } ==> (next matches Ok((BroadcastPhase::Make, Action::MakeChild { parent, fees })) && parent@ == claim && (
            fees matches CpfpFees::Rbf { min_effective_fee_rate, current_package_fee } && min_effective_fee_rate == target
                && current_package_fee >= fee && current_package_fee >= total_fee && (current_package_fee == fee
                || current_package_fee == total_fee))))
            &&& phase is Make ==> (reply matches Reply::Child(child) ==> after == (StateView {
                cpfp_tx_hex: Some(hex_of_tx(child@)),
                ..before
            }) && (next matches Ok((BroadcastPhase::Stored { child: kept }, Action::StoreState)) && kept@ == child@))
            &&& phase matches BroadcastPhase::Stored { child } ==> (reply is Done ==> (next matches Ok(
                (BroadcastPhase::ChildStored { child: kept }, Action::StoreChild(stored)),
            ) && kept@ == child@ && stored@ == child@))
            &&& phase matches BroadcastPhase::ChildStored { child } ==> (reply is Done ==> (next matches Ok(
                (_, Action::BroadcastPackage(parent, spender)),
            ) && parent@ == claim && spender@ == child@))
        }),
{
    let claim = stored_claim(before)->Ok_0;
    let anchor = OutPoint { txid: txid_of(claim), vout: 1 };
    assert(anchor == anchor_point(claim));
    if phase is Anchor && reply is Spends {
        let spends = reply->Spends_0@;
        lemma_spend_is_found(spends, anchor);
        assert forall|i: int|
            0 <= i < spends.len() && (#[trigger] spends[i]).0 == anchor && (forall|k: int|
                0 <= k < i ==> (#[trigger] spends[k]).0 != anchor) implies spend_of(spends, anchor) == Some(
            (spends[i].1, spends[i].2),
        ) by {
            let found = spend_of(spends, anchor)->0;
            let first = choose|first: int|
                0 <= first < spends.len() && (#[trigger] spends[first]) == (anchor, found.0, found.1) && forall|k: int|
                    0 <= k < first ==> (#[trigger] spends[k]).0 != anchor;
            assert(spends[first].0 == anchor);
            assert(first == i);
        }
    }
}

/// The window of a swap is checked with the numbers of its request, for the lock that its claim spends:
/// where it passes, the tip and the margin lie below the refund height, the funding has the confirmations
/// of the request, and the lock is unspent; and wherever the chain tells all this, at one tip, it passes.
pub proof fn law_window_is_of_the_request(
    network: Network,
    state: StateView,
    log: Seq<AnswerView>,
    tip: BlockRef,
    block: BlockRef,
)
    requires
        response_of(network, state.relay) is Ok,
    ensures
        ({
            let response = response_of(network, state.relay)->Ok_0;
            let request = state.relay.request;
            let point = response.claim.input[0].previous_output;
            let told = {
                &&& log.len() >= 5
                &&& log[0].query == ChainQuery::Tip && log[0].reply == ReplyView::Tip(tip)
                &&& log[1].query == ChainQuery::TxStatus(point.txid) && log[1].reply == ReplyView::TxStatus(
                    TxStatus::Confirmed(block),
                )
                &&& log[2].query == ChainQuery::Block(block.height) && log[2].reply == ReplyView::Block(block)
                &&& log[3].query == ChainQuery::Unspent(point) && log[3].reply == ReplyView::Unspent(
                    Some(lock_output(response.lock)),
                )
                &&& log[4].query == ChainQuery::Tip && log[4].reply == ReplyView::Tip(tip)
            };
            told ==> (state_window(network, state, log) is Pass <==> 0 < request.safety_margin_blocks && 0
                < request.minimum_funding_confirmations && request.refund_height < 500_000_000 && tip.height
                + request.safety_margin_blocks < request.refund_height && block.height <= tip.height && tip.height
                - block.height + 1 >= request.minimum_funding_confirmations)
        }),
        state_window(network, state, log) is Pass ==> exists|at: BlockRef, in_block: BlockRef|
            {
                &&& #[trigger] tip_at(log, 0) == Ok::<BlockRef, CheckStep>(at)
                &&& tip_at(log, 4) == Ok::<BlockRef, CheckStep>(at)
                &&& at.height + state.relay.request.safety_margin_blocks < state.relay.request.refund_height
                &&& #[trigger] status_at(
                    log,
                    1,
                    response_of(network, state.relay)->Ok_0.claim.input[0].previous_output.txid,
                ) == Ok::<TxStatus, CheckStep>(TxStatus::Confirmed(in_block))
                &&& in_block.height <= at.height && at.height - in_block.height + 1
                    >= state.relay.request.minimum_funding_confirmations
            },
{
    law_response_claims_the_lock(network, state.relay);
    let response = response_of(network, state.relay)->Ok_0;
    let request = state.relay.request;
    let point = response.claim.input[0].previous_output;
    if state_window(network, state, log) is Pass {
        law_open_claim_window(
            log,
            point,
            response.lock,
            request.minimum_funding_confirmations,
            request.safety_margin_blocks,
        );
        let (at, in_block) = choose|at: BlockRef, in_block: BlockRef|
            {
                &&& #[trigger] tip_at(log, 0) == Ok::<BlockRef, CheckStep>(at)
                &&& tip_at(log, 4) == Ok::<BlockRef, CheckStep>(at)
                &&& at.height + request.safety_margin_blocks < response.lock.refund_height
                &&& #[trigger] status_at(log, 1, point.txid) == Ok::<TxStatus, CheckStep>(TxStatus::Confirmed(in_block))
                &&& in_block.height <= at.height
                &&& at.height - in_block.height + 1 >= request.minimum_funding_confirmations >= 1
                &&& unspent_at(log, 3, point) == Ok::<Option<TxOutView>, CheckStep>(Some(lock_output(response.lock)))
            };
        assert(tip_at(log, 0) == Ok::<BlockRef, CheckStep>(at));
        assert(status_at(log, 1, point.txid) == Ok::<TxStatus, CheckStep>(TxStatus::Confirmed(in_block)));
    }
}

/// A claim that was signed is not signed again: the flow asks whether the stored one is confirmed.
pub proof fn law_stored_claim_is_looked_for(
    context: FlowContext,
    before: StateView,
    after: StateView,
    next: Result<(ClaimPhase, Action), SwapError>,
)
    requires
        claim_next(context, ClaimPhase::Begin, Reply::Done, before, after, next),
        before.signed_claim_tx_hex is Some,
    ensures
        after == before,
        next is Ok <==> (before.status == SwapStatus::Offered || before.status == SwapStatus::BtcClaimReady || before.status
            == SwapStatus::BtcClaimed) && before.ark_recovery_input_ids.len() == 0 && response_of(
            context.network,
            before.relay,
        ) is Ok && tx_of_hex(before.signed_claim_tx_hex->0) is Some,
        next matches Ok((to, action)) ==> (to matches ClaimPhase::Confirming { claim } && tx_of_hex(
            before.signed_claim_tx_hex->0,
        ) == Some(claim@) && action == Action::Confirmed(txid_of(claim@))),
{
}

/// A claim can be signed wherever the response verifies, the secret and the pre-signature can be read, the latter
/// verifies, and the secret completes it.
pub proof fn law_claim_can_be_signed(network: Network, state: StateView)
    requires
        response_of(network, state.relay) is Ok,
        state.adaptor_secret_hex matches Some(text) && hex_value(text) matches Some(bytes) && bytes.len() == 32 && is_secret(
            bytes,
        ),
        state.relay.btc_claim_adaptor matches Some(text) && package_of_text(text) matches Ok(package) && adaptor_valid(
            package,
        ) && completed(package, hex_value(state.adaptor_secret_hex->0)->0) is Some,
    ensures
        signed_claim_of(network, state) matches Ok(signed) && signed.input[0].witness == seq![
            completed(
                package_of_text(state.relay.btc_claim_adaptor->0)->Ok_0,
                hex_value(state.adaptor_secret_hex->0)->0,
            )->0,
        ] && stripped(signed) == response_of(network, state.relay)->Ok_0.claim,
{
    law_response_claims_the_lock(network, state.relay);
    let claim = response_of(network, state.relay)->Ok_0.claim;
    let signed = signed_claim_of(network, state)->Ok_0;
    assert(stripped(signed).input =~= claim.input);
}

/// The flow of the claim takes no reply but one to what it asked for, and a step that fails changes nothing.
pub proof fn law_claim_takes_its_replies_alone(
    context: FlowContext,
    phase: ClaimPhase,
    reply: Reply,
    before: StateView,
    after: StateView,
    next: Result<(ClaimPhase, Action), SwapError>,
)
    requires
        claim_next(context, phase, reply, before, after, next),
    ensures
        next is Ok ==> match phase {
            ClaimPhase::Begin | ClaimPhase::Sync { .. } | ClaimPhase::Stored { .. }
            | ClaimPhase::ChildStored { .. } | ClaimPhase::Published { .. } | ClaimPhase::Marked { .. }
            | ClaimPhase::Completed { .. } | ClaimPhase::Last => reply is Done,
            ClaimPhase::FirstWindow | ClaimPhase::SecondWindow { .. } => reply is Log,
            ClaimPhase::Fee => reply is FastRate,
            ClaimPhase::Synced { .. } => reply is Child,
            ClaimPhase::Confirming { .. } | ClaimPhase::Depth => reply is Confirmed,
            ClaimPhase::Deep { .. } => reply is Tip,
        },
        next is Err ==> after == before,
{
}

/// The flow of the broadcast takes no reply but one to what it asked for, and a step that fails changes nothing.
pub proof fn law_broadcast_takes_its_replies_alone(
    context: FlowContext,
    phase: BroadcastPhase,
    reply: Reply,
    before: StateView,
    after: StateView,
    next: Result<(BroadcastPhase, Action), SwapError>,
)
    requires
        broadcast_next(context, phase, reply, before, after, next),
    ensures
        next is Ok ==> match phase {
            BroadcastPhase::Begin | BroadcastPhase::Sync { .. } | BroadcastPhase::Stored { .. }
            | BroadcastPhase::ChildStored { .. } | BroadcastPhase::Last => reply is Done,
            BroadcastPhase::Fee => reply is FastRate,
            BroadcastPhase::Child { .. } => reply is Status,
            BroadcastPhase::Mempool { .. } | BroadcastPhase::AnchorAncestors { .. } => reply is Ancestors,
            BroadcastPhase::ChildFee { .. } => reply is Log,
            BroadcastPhase::AnchorTip { .. } => reply is Tip,
            BroadcastPhase::Anchor { .. } => reply is Spends,
            BroadcastPhase::Make => reply is Child,
        },
        next is Err ==> after == before,
{
}

/// The flow of the claim goes on only with what it can read: an agreed response, a stored claim that is a
/// transaction, a rate that is one, and, to complete the Ark transfer, the transfer and the secret.
pub proof fn law_claim_goes_on_with_what_it_reads(
    context: FlowContext,
    phase: ClaimPhase,
    reply: Reply,
    before: StateView,
    after: StateView,
    next: Result<(ClaimPhase, Action), SwapError>,
)
    requires
        claim_next(context, phase, reply, before, after, next),
        next is Ok,
    ensures
        phase is Begin || phase is Sync ==> response_of(context.network, before.relay) is Ok,
        phase is Begin ==> (before.signed_claim_tx_hex matches Some(text) ==> tx_of_hex(text) is Some),
        phase is FirstWindow || phase is SecondWindow ==> state_window(
            context.network,
            before,
            answer_views(reply->Log_0@),
        ) is Pass,
        phase is FirstWindow ==> match context.fee_rate {
            Some(rate) => 0 < rate <= 0xffff_ffff,
            None => 0 < before.relay.request.fee_rate_sat_vb <= 0xffff_ffff,
        },
        phase is Fee ==> 0 < before.relay.request.fee_rate_sat_vb <= 0xffff_ffff,
        phase is SecondWindow ==> signed_claim_of(context.network, before) is Ok,
        phase is Marked ==> before.relay.ark_transfer is Some && (before.adaptor_secret_hex matches Some(text)
            && hex_value(text) matches Some(bytes) && bytes.len() == 32 && is_secret(bytes)),
{
}

/// A claim is broadcast, and its fee raised, only where it is stored as a transaction.
pub proof fn law_broadcast_goes_on_with_what_it_reads(
    context: FlowContext,
    phase: BroadcastPhase,
    reply: Reply,
    before: StateView,
    after: StateView,
    next: Result<(BroadcastPhase, Action), SwapError>,
)
    requires
        broadcast_next(context, phase, reply, before, after, next),
        next is Ok,
    ensures
        phase is Begin || phase is ChildFee || phase is AnchorTip || phase is Anchor || phase is AnchorAncestors
            || phase is ChildStored || (next->Ok_0).1 is MakeChild || (next->Ok_0).1 is BroadcastPackage ==> (
        before.signed_claim_tx_hex matches Some(text) && tx_of_hex(text) is Some),
        phase is Begin ==> match context.fee_rate {
            Some(rate) => 0 < rate <= 0xffff_ffff,
            None => 0 < before.relay.request.fee_rate_sat_vb <= 0xffff_ffff,
        },
        phase is Fee ==> 0 < before.relay.request.fee_rate_sat_vb <= 0xffff_ffff,
        phase is Sync ==> (before.cpfp_tx_hex matches Some(text) ==> tx_of_hex(text) is Some),
{
}

} // verus!
