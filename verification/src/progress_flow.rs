//! Progressing a swap: the chain is observed, and whatever is due is claimed, completed, refunded,
//! aborted or recovered.

use vstd::prelude::*;

use crate::bytes::text_view;
use crate::chain::{answer_views, TxStatus};
use crate::claim_flow::{broadcast_next, claim_next, BroadcastPhase, ClaimPhase};
use crate::error::SwapError;
use crate::flow::{check_error, passed, Action, FlowContext, Next, Reply, SubFlow};
use crate::fund_flow::{check_package, live_package};
use crate::manual_flow::{manual_next, ManualPhase, ManualStep};
use crate::observe_flow::{complete_next, observe_next, receive_next, CompletePhase, ObservePhase, ReceivePhase};
use crate::recovery_flow::{abort_next, exits_next, recover_next, AbortPhase, ExitsPhase, RecoverPhase};
use crate::refund_flow::{refund_next, RefundPhase};
use crate::relay::RelayFile;
use crate::response::{funding_of, funding_tx, request_check, validate_request};
use crate::role::{terminal, SwapRole, SwapStatus};
use crate::state::{is_terminal, StateView, StoredBtcArkSwap};
use crate::tx::{tx_from_hex, tx_of_hex, txid_of, txid_text, txid_to_string, TransactionView};

verus! {

/// Where the progress of a swap is.
#[derive(Clone, Copy, Debug, PartialEq, Eq, Structural)]
pub enum ProgressPhase {
    Begin,
    Indexed,
    Recovered,
    Observed,
    Completed,
    BtcTip,
    Refunded,
    Funding,
    Vanished,
    Recheck,
    RecheckTransfer,
    Rebroadcast,
    /// The claim flow ran; whether the claim was signed before.
    Claimed { again: bool },
    ArkTip,
    Aborted,
    Received { tip: u32 },
    Confirmed { tip: u32 },
    Last,
}

/// Whether a swap has to be recovered.
pub open spec fn recovers(state: StateView) -> bool {
    state.status == SwapStatus::ArkRecovering || (state.role == SwapRole::ArkPayer && state.status
        == SwapStatus::Cancelled)
}

/// What a swap waits for, unless nothing is left to do.
pub open spec fn unless_done(state: StateView, next: Next) -> Next {
    if terminal(state.role, state.status) {
        Next::Done
    } else {
        next
    }
}

/// What a swap waits for, unless nothing is left to do.
pub fn next_unless_done(state: &StoredBtcArkSwap, next: Next) -> (told: Next)
    ensures
        told == unless_done(state@, next),
{
    if is_terminal(state) {
        Next::Done
    } else {
        next
    }
}

/// What follows when nothing is to be recovered.
pub open spec fn progress_role(state: StateView, next: Result<(ProgressPhase, Action), SwapError>) -> bool {
    match state.role {
        SwapRole::BtcPayer => if state.relay.btc_claim_adaptor is None {
            next matches Ok((ProgressPhase::Last, Action::Finish(told))) && told == Next::BtcFund
        } else {
            next matches Ok((ProgressPhase::Observed, Action::Run(SubFlow::ObserveClaim)))
        },
        SwapRole::ArkPayer => if state.signed_claim_tx_hex is Some {
            next matches Ok((ProgressPhase::Claimed { again }, Action::Run(SubFlow::ClaimBtc))) && again
        } else {
            next matches Ok((ProgressPhase::ArkTip, Action::Tip))
        },
    }
}

/// Whether a transaction is too shallow at a tip.
pub open spec fn too_shallow(tip: u32, height: u32, required: u32) -> bool {
    (if tip > height {
        tip - height + 1
    } else {
        1
    }) < required
}

/// Whether a relay file holds the pre-signature of a swap. The file with it is published only when
/// the funding was broadcast, so that the funding was sent before.
pub open spec fn funding_was_sent(state: StateView, relay: Option<RelayFile>) -> bool {
    state.relay.btc_claim_adaptor is Some && (relay matches Some(found) && found@.btc_claim_adaptor
        == state.relay.btc_claim_adaptor)
}

/// Whether a relay file holds the pre-signature of a swap.
fn was_sent(state: &StoredBtcArkSwap, relay: &Option<RelayFile>) -> (sent: bool)
    ensures
        sent == funding_was_sent(state@, *relay),
{
    match (relay, &state.relay.btc_claim_adaptor) {
        (Some(found), Some(own)) => match &found.btc_claim_adaptor {
            Some(published) => published.same(own),
            None => false,
        },
        _ => false,
    }
}

/// What the progress of a swap does next.
pub open spec fn progress_next(
    phase: ProgressPhase,
    reply: Reply,
    state: StateView,
    next: Result<(ProgressPhase, Action), SwapError>,
) -> bool {
    match (phase, reply) {
        (ProgressPhase::Begin, Reply::Done) => if terminal(state.role, state.status) {
            next matches Ok((ProgressPhase::Last, Action::Finish(told))) && told == Next::Done
        } else {
            next matches Ok((ProgressPhase::Indexed, Action::RequireIndex))
        },
        (ProgressPhase::Indexed, Reply::Done) => if recovers(state) {
            next matches Ok((ProgressPhase::Recovered, Action::Run(SubFlow::RecoverArk)))
        } else {
            progress_role(state, next)
        },
        (ProgressPhase::Recovered, Reply::Finished(then_next)) => next matches Ok(
            (ProgressPhase::Last, Action::Finish(told)),
        ) && told == then_next,
        (ProgressPhase::Observed, Reply::Answer(found)) => if found {
            next matches Ok((ProgressPhase::Completed, Action::Run(SubFlow::CompleteArk)))
        } else {
            next matches Ok((ProgressPhase::BtcTip, Action::Tip))
        },
        (ProgressPhase::Completed, Reply::Done) => next matches Ok((ProgressPhase::Last, Action::Finish(told))) && told
            == unless_done(state, Next::AwaitArkExit),
        (ProgressPhase::BtcTip, Reply::Tip(tip)) => if tip >= state.relay.request.refund_height {
            next matches Ok((ProgressPhase::Refunded, Action::Run(SubFlow::RefundBtc)))
        } else {
            match funding_of(state.relay) {
                Err(error) => next == Err::<(ProgressPhase, Action), SwapError>(error),
                Ok(funding) => next matches Ok((ProgressPhase::Funding, Action::Status(txid))) && txid == txid_of(
                    funding,
                ),
            }
        },
        (ProgressPhase::Refunded, Reply::Done) => next matches Ok((ProgressPhase::Last, Action::Finish(told))) && told
            == unless_done(state, Next::AwaitRefundConfirmation),
        (ProgressPhase::Funding, Reply::Status(TxStatus::NotFound)) => next matches Ok(
            (ProgressPhase::Vanished, Action::TryLoadRelay),
        ),
        (ProgressPhase::Vanished, Reply::MaybeRelay(relay)) => if funding_was_sent(state, relay) {
            match funding_of(state.relay) {
                Err(error) => next == Err::<(ProgressPhase, Action), SwapError>(error),
                Ok(funding) => next matches Ok((ProgressPhase::Rebroadcast, Action::Broadcast(tx))) && tx@ == funding,
            }
        } else {
            next matches Ok((ProgressPhase::Recheck, Action::CheckRequest(request))) && request@ == state.relay.request
        },
        (ProgressPhase::Recheck, Reply::Log(log)) => if !(request_check(
            answer_views(log@),
            state.relay.request,
        ) is Pass) {
            next == Err::<(ProgressPhase, Action), SwapError>(
                check_error(request_check(answer_views(log@), state.relay.request)),
            )
        } else {
            next matches Ok((ProgressPhase::RecheckTransfer, Action::CheckTransfer(relay))) && relay@ == state.relay
        },
        (ProgressPhase::RecheckTransfer, Reply::Transfer { transfer, server, verdict, log }) => match live_package(
            state.relay,
            transfer@,
            server@,
            verdict,
            answer_views(log@),
        ) {
            Err(error) => next == Err::<(ProgressPhase, Action), SwapError>(error),
            Ok(_) => match funding_of(state.relay) {
                Err(error) => next == Err::<(ProgressPhase, Action), SwapError>(error),
                Ok(funding) => next matches Ok((ProgressPhase::Rebroadcast, Action::Broadcast(tx))) && tx@ == funding,
            },
        },
        (ProgressPhase::Funding, Reply::Status(_)) => next matches Ok((ProgressPhase::Last, Action::Finish(told)))
            && told == Next::AwaitBtcClaim,
        (ProgressPhase::Rebroadcast, Reply::Done) => next matches Ok((ProgressPhase::Last, Action::Finish(told))) && told
            == Next::AwaitBtcClaim,
        (ProgressPhase::Claimed { again }, Reply::Done) => next matches Ok((ProgressPhase::Last, Action::Finish(told)))
            && told == (if again {
            unless_done(state, Next::AwaitClaimConfirmation)
        } else {
            Next::AwaitClaimConfirmation
        }),
        (ProgressPhase::ArkTip, Reply::Tip(tip)) => if tip + state.relay.request.safety_margin_blocks > u32::MAX {
            next == Err::<(ProgressPhase, Action), SwapError>(SwapError::HeightOverflow)
        } else if tip + state.relay.request.safety_margin_blocks >= state.relay.request.refund_height {
            next matches Ok((ProgressPhase::Aborted, Action::Run(SubFlow::AbortArk)))
        } else {
            next matches Ok((ProgressPhase::Received { tip: kept }, Action::Run(SubFlow::ReceiveFunding))) && kept == tip
        },
        (ProgressPhase::Aborted, Reply::Done) => next matches Ok(
            (ProgressPhase::Recovered, Action::Run(SubFlow::RecoverArk)),
        ),
        (ProgressPhase::Received { tip }, Reply::Answer(found)) => if !found {
            next matches Ok((ProgressPhase::Last, Action::Finish(told))) && told == Next::AwaitBtcFunding
        } else {
            match funding_of(state.relay) {
                Err(error) => next == Err::<(ProgressPhase, Action), SwapError>(error),
                Ok(funding) => next matches Ok((ProgressPhase::Confirmed { tip: kept }, Action::Confirmed(txid)))
                    && kept == tip && txid == txid_of(funding),
            }
        },
        (ProgressPhase::Confirmed { tip: _ }, Reply::Confirmed(None)) => next matches Ok(
            (ProgressPhase::Last, Action::Finish(told)),
        ) && told == Next::AwaitFundingConfirmation,
        (ProgressPhase::Confirmed { tip }, Reply::Confirmed(Some(height))) => if too_shallow(
            tip,
            height,
            state.relay.request.minimum_funding_confirmations,
        ) {
            next matches Ok((ProgressPhase::Last, Action::Finish(told))) && told == Next::AwaitFundingConfirmation
        } else {
            next matches Ok((ProgressPhase::Claimed { again }, Action::Run(SubFlow::ClaimBtc))) && !again
        },
        _ => next == Err::<(ProgressPhase, Action), SwapError>(SwapError::UnexpectedReply),
    }
}

/// Goes on when the chain backend is known to index transactions.
fn progress_indexed(state: &StoredBtcArkSwap) -> (next: Result<(ProgressPhase, Action), SwapError>)
    ensures
        progress_next(ProgressPhase::Indexed, Reply::Done, state@, next),
{
    let ark_payer = matches!(state.role, SwapRole::ArkPayer);
    if matches!(state.status, SwapStatus::ArkRecovering) || (ark_payer && matches!(state.status, SwapStatus::Cancelled)) {
        return Ok((ProgressPhase::Recovered, Action::Run(SubFlow::RecoverArk)));
    }
    if ark_payer {
        if state.signed_claim_tx_hex.is_some() {
            Ok((ProgressPhase::Claimed { again: true }, Action::Run(SubFlow::ClaimBtc)))
        } else {
            Ok((ProgressPhase::ArkTip, Action::Tip))
        }
    } else if state.relay.btc_claim_adaptor.is_none() {
        Ok((ProgressPhase::Last, Action::Finish(Next::BtcFund)))
    } else {
        Ok((ProgressPhase::Observed, Action::Run(SubFlow::ObserveClaim)))
    }
}

/// One step of the progress of a swap. It changes nothing itself; the flows that it runs do.
#[verifier::rlimit(40)]
pub fn progress_swap(phase: ProgressPhase, reply: Reply, state: &StoredBtcArkSwap) -> (next: Result<
    (ProgressPhase, Action),
    SwapError,
>)
    ensures
        progress_next(phase, reply, state@, next),
{
    match (phase, reply) {
        (ProgressPhase::Begin, Reply::Done) => {
            if is_terminal(state) {
                Ok((ProgressPhase::Last, Action::Finish(Next::Done)))
            } else {
                Ok((ProgressPhase::Indexed, Action::RequireIndex))
            }
        },
        (ProgressPhase::Indexed, Reply::Done) => progress_indexed(state),
        (ProgressPhase::Recovered, Reply::Finished(next)) => Ok((ProgressPhase::Last, Action::Finish(next))),
        (ProgressPhase::Observed, Reply::Answer(true)) => Ok(
            (ProgressPhase::Completed, Action::Run(SubFlow::CompleteArk)),
        ),
        (ProgressPhase::Observed, Reply::Answer(false)) => Ok((ProgressPhase::BtcTip, Action::Tip)),
        (ProgressPhase::Completed, Reply::Done) => Ok(
            (ProgressPhase::Last, Action::Finish(next_unless_done(state, Next::AwaitArkExit))),
        ),
        (ProgressPhase::BtcTip, Reply::Tip(tip)) => {
            if tip >= state.relay.request.refund_height {
                return Ok((ProgressPhase::Refunded, Action::Run(SubFlow::RefundBtc)));
            }
            match funding_tx(&state.relay) {
                Ok(funding) => Ok((ProgressPhase::Funding, Action::Status(funding.txid()))),
                Err(error) => Err(error),
            }
        },
        (ProgressPhase::Refunded, Reply::Done) => Ok(
            (ProgressPhase::Last, Action::Finish(next_unless_done(state, Next::AwaitRefundConfirmation))),
        ),
        (ProgressPhase::Funding, Reply::Status(TxStatus::NotFound)) => Ok(
            (ProgressPhase::Vanished, Action::TryLoadRelay),
        ),
        (ProgressPhase::Vanished, Reply::MaybeRelay(relay)) => {
            if !was_sent(state, &relay) {
                return Ok((ProgressPhase::Recheck, Action::CheckRequest(state.relay.request.clone())));
            }
            match funding_tx(&state.relay) {
                Ok(funding) => Ok((ProgressPhase::Rebroadcast, Action::Broadcast(funding))),
                Err(error) => Err(error),
            }
        },
        (ProgressPhase::Recheck, Reply::Log(log)) => match passed(validate_request(&log, &state.relay.request)) {
            Ok(()) => Ok((ProgressPhase::RecheckTransfer, Action::CheckTransfer(state.relay.clone()))),
            Err(error) => Err(error),
        },
        (ProgressPhase::RecheckTransfer, Reply::Transfer { transfer, server, verdict, log }) => match check_package(
            &state.relay,
            &transfer,
            server,
            &verdict,
            &log,
        ) {
            Ok(_) => match funding_tx(&state.relay) {
                Ok(funding) => Ok((ProgressPhase::Rebroadcast, Action::Broadcast(funding))),
                Err(error) => Err(error),
            },
            Err(error) => Err(error),
        },
        (ProgressPhase::Funding, Reply::Status(_)) => Ok((ProgressPhase::Last, Action::Finish(Next::AwaitBtcClaim))),
        (ProgressPhase::Rebroadcast, Reply::Done) => Ok((ProgressPhase::Last, Action::Finish(Next::AwaitBtcClaim))),
        (ProgressPhase::Claimed { again }, Reply::Done) => {
            let told = if again {
                next_unless_done(state, Next::AwaitClaimConfirmation)
            } else {
                Next::AwaitClaimConfirmation
            };
            Ok((ProgressPhase::Last, Action::Finish(told)))
        },
        (ProgressPhase::ArkTip, Reply::Tip(tip)) => match tip.checked_add(state.relay.request.safety_margin_blocks) {
            Some(height) => if height >= state.relay.request.refund_height {
                Ok((ProgressPhase::Aborted, Action::Run(SubFlow::AbortArk)))
            } else {
                Ok((ProgressPhase::Received { tip }, Action::Run(SubFlow::ReceiveFunding)))
            },
            None => Err(SwapError::HeightOverflow),
        },
        (ProgressPhase::Aborted, Reply::Done) => Ok((ProgressPhase::Recovered, Action::Run(SubFlow::RecoverArk))),
        (ProgressPhase::Received { tip: _ }, Reply::Answer(false)) => Ok(
            (ProgressPhase::Last, Action::Finish(Next::AwaitBtcFunding)),
        ),
        (ProgressPhase::Received { tip }, Reply::Answer(true)) => match funding_tx(&state.relay) {
            Ok(funding) => Ok((ProgressPhase::Confirmed { tip }, Action::Confirmed(funding.txid()))),
            Err(error) => Err(error),
        },
        (ProgressPhase::Confirmed { tip: _ }, Reply::Confirmed(None)) => Ok(
            (ProgressPhase::Last, Action::Finish(Next::AwaitFundingConfirmation)),
        ),
        (ProgressPhase::Confirmed { tip }, Reply::Confirmed(Some(height))) => {
            if tip.saturating_sub(height).saturating_add(1) < state.relay.request.minimum_funding_confirmations {
                Ok((ProgressPhase::Last, Action::Finish(Next::AwaitFundingConfirmation)))
            } else {
                Ok((ProgressPhase::Claimed { again: false }, Action::Run(SubFlow::ClaimBtc)))
            }
        },
        _ => Err(SwapError::UnexpectedReply),
    }
}

/// Whether some step of settlement or recovery asks for an action: of progress, of the claim and its
/// payment, of the funding message, of the observation and completion, of the refund, of the abort,
/// of the recovery, or of a command by hand.
pub open spec fn settlement_asks(action: Action) -> bool {
    ||| exists|phase: ProgressPhase, reply: Reply, state: StateView, to: ProgressPhase| #[trigger]
        progress_next(phase, reply, state, Ok((to, action)))
    ||| exists|c: FlowContext, phase: ClaimPhase, reply: Reply, s: StateView, t: StateView, to: ClaimPhase| #[trigger]
        claim_next(c, phase, reply, s, t, Ok((to, action)))
    ||| exists|c: FlowContext, phase: BroadcastPhase, reply: Reply, s: StateView, t: StateView, to: BroadcastPhase|
         #[trigger]
        broadcast_next(c, phase, reply, s, t, Ok((to, action)))
    ||| exists|c: FlowContext, phase: ReceivePhase, reply: Reply, s: StateView, t: StateView, to: ReceivePhase| #[trigger]
        receive_next(c, phase, reply, s, t, Ok((to, action)))
    ||| exists|phase: ObservePhase, reply: Reply, s: StateView, t: StateView, to: ObservePhase| #[trigger]
        observe_next(phase, reply, s, t, Ok((to, action)))
    ||| exists|phase: CompletePhase, reply: Reply, s: StateView, t: StateView, to: CompletePhase| #[trigger]
        complete_next(phase, reply, s, t, Ok((to, action)))
    ||| exists|c: FlowContext, phase: RefundPhase, reply: Reply, s: StateView, t: StateView, to: RefundPhase| #[trigger]
        refund_next(c, phase, reply, s, t, Ok((to, action)))
    ||| exists|phase: AbortPhase, reply: Reply, s: StateView, t: StateView, to: AbortPhase| #[trigger]
        abort_next(phase, reply, s, t, Ok((to, action)))
    ||| exists|c: FlowContext, phase: RecoverPhase, reply: Reply, s: StateView, t: StateView, to: RecoverPhase| #[trigger]
        recover_next(c, phase, reply, s, t, Ok((to, action)))
    ||| exists|step: ManualStep, phase: ManualPhase, reply: Reply, state: StateView, to: ManualPhase| #[trigger]
        manual_next(step, phase, reply, state, Ok((to, action)))
    ||| exists|target: u64, phase: ExitsPhase, reply: Reply, to: ExitsPhase| #[trigger]
        exits_next(target, phase, reply, Ok((to, action)))
}

/// Settlement and recovery send no message: no step of them publishes a relay file, so that a swap
/// takes the three messages of its request, its offer and its funding.
#[verifier::rlimit(100)]
#[verifier::spinoff_prover]
pub proof fn law_settlement_publishes_nothing(action: Action)
    requires
        settlement_asks(action),
    ensures
        !(action is StoreRelay),
{
}

/// Progress broadcasts nothing but the stored funding, and only where the chain does not know it.
/// A funding that was sent before is sent again as it is. One that may never have been sent is
/// broadcast only where the request still leaves its time, and the Ark transfer is still accepted and
/// live.
pub proof fn law_progress_checks_the_first_broadcast(
    phase: ProgressPhase,
    reply: Reply,
    state: StateView,
    next: Result<(ProgressPhase, Action), SwapError>,
)
    requires
        progress_next(phase, reply, state, next),
    ensures
        next matches Ok((_, Action::Broadcast(tx))) ==> funding_of(state.relay) == Ok::<TransactionView, SwapError>(tx@)
            && match reply {
            Reply::MaybeRelay(relay) => phase is Vanished && funding_was_sent(state, relay),
            Reply::Transfer { transfer, server, verdict, log } => phase is RecheckTransfer && live_package(
                state.relay,
                transfer@,
                server@,
                verdict,
                answer_views(log@),
            ) is Ok,
            _ => false,
        },
        next matches Ok((ProgressPhase::RecheckTransfer, _)) ==> phase is Recheck && (reply matches Reply::Log(log)
            && request_check(answer_views(log@), state.relay.request) is Pass),
        next matches Ok((ProgressPhase::Recheck, _)) ==> phase is Vanished,
        next matches Ok((ProgressPhase::Vanished, _)) ==> phase is Funding && reply == Reply::Status(TxStatus::NotFound),
        phase is Vanished ==> (reply matches Reply::MaybeRelay(relay) ==> (funding_was_sent(state, relay)
            && funding_of(state.relay) is Ok ==> (next matches Ok((_, Action::Broadcast(_)))))),
        next matches Ok((_, action)) ==> !(action is BroadcastPackage),
{
}

/// A settled swap is left alone: its progress ends at once.
pub proof fn law_settled_swap_is_left_alone(
    reply: Reply,
    state: StateView,
    next: Result<(ProgressPhase, Action), SwapError>,
)
    requires
        progress_next(ProgressPhase::Begin, reply, state, next),
        terminal(state.role, state.status),
    ensures
        next matches Ok((_, action)) ==> action == Action::Finish(Next::Done),
{
}

/// A swap that comes too close to its refund height is aborted before its secret is revealed: where
/// no claim is signed yet, the claim flow runs only for a funding that is deep enough, and is not
/// reached from a tip within the margin.
pub proof fn law_late_swap_is_aborted(
    phase: ProgressPhase,
    reply: Reply,
    state: StateView,
    next: Result<(ProgressPhase, Action), SwapError>,
)
    requires
        progress_next(phase, reply, state, next),
        state.role == SwapRole::ArkPayer,
    ensures
        next matches Ok((_, Action::Run(SubFlow::ClaimBtc))) ==> (phase is Indexed && state.signed_claim_tx_hex is Some)
            || (phase matches ProgressPhase::Confirmed { tip } && reply matches Reply::Confirmed(Some(height))
            && !too_shallow(tip, height, state.relay.request.minimum_funding_confirmations)),
        phase is ArkTip ==> (reply matches Reply::Tip(tip) ==> (tip + state.relay.request.safety_margin_blocks
            >= state.relay.request.refund_height ==> (next matches Ok((_, action)) ==> action == Action::Run(
            SubFlow::AbortArk,
        )))),
        next matches Ok((ProgressPhase::Received { tip }, _)) ==> tip + state.relay.request.safety_margin_blocks
            < state.relay.request.refund_height,
        next matches Ok((ProgressPhase::Confirmed { tip }, _)) ==> phase == (ProgressPhase::Received { tip }),
{
}

/// The identifiers that are shown of a swap: of its agreed claim and of its refund, where they can
/// be told.
pub open spec fn shown_txid(text: Option<Seq<char>>) -> Option<Seq<char>> {
    match text {
        Some(hex) => match tx_of_hex(hex) {
            Some(tx) => Some(txid_text(txid_of(tx))),
            None => None,
        },
        None => None,
    }
}

/// The identifier of a transaction text, where it can be told.
fn show_txid(text: Option<&String>) -> (shown: Option<String>)
    ensures
        text_view(shown) == shown_txid(
            match text {
                Some(hex) => Some(hex@),
                None => None,
            },
        ),
{
    match text {
        Some(hex) => match tx_from_hex(hex.as_str()) {
            Ok(tx) => Some(txid_to_string(&tx.txid())),
            Err(_) => None,
        },
        None => None,
    }
}

/// The identifier of the agreed claim of a swap, where it can be told.
pub fn claim_txid(state: &StoredBtcArkSwap) -> (shown: Option<String>)
    ensures
        text_view(shown) == shown_txid(
            match state@.relay.claim_request {
                Some(request) => Some(request.claim_tx_hex),
                None => None,
            },
        ),
{
    match &state.relay.claim_request {
        Some(request) => show_txid(Some(&request.claim_tx_hex)),
        None => None,
    }
}

/// The identifier of the refund of a swap, where it can be told.
pub fn refund_txid(state: &StoredBtcArkSwap) -> (shown: Option<String>)
    ensures
        text_view(shown) == shown_txid(state@.signed_refund_tx_hex),
{
    match &state.signed_refund_tx_hex {
        Some(text) => show_txid(Some(text)),
        None => None,
    }
}

/// The Ark payer uses an open window: where the tip and the margin lie below the refund height, and no
/// claim is signed yet, the funding message is read, and the BTC are claimed as soon as the funding has
/// the confirmations of the request. The swap is aborted only where they do not lie below it.
pub proof fn law_open_window_is_used(
    phase: ProgressPhase,
    reply: Reply,
    state: StateView,
    next: Result<(ProgressPhase, Action), SwapError>,
)
    requires
        progress_next(phase, reply, state, next),
    ensures
        phase is ArkTip ==> (reply matches Reply::Tip(tip) ==> {
            let end = tip + state.relay.request.safety_margin_blocks;
            if end > 0xffff_ffff {
                next == Err::<(ProgressPhase, Action), SwapError>(SwapError::HeightOverflow)
            } else if end < state.relay.request.refund_height {
                next == Ok::<(ProgressPhase, Action), SwapError>(
                    (ProgressPhase::Received { tip }, Action::Run(SubFlow::ReceiveFunding)),
                )
            } else {
                next == Ok::<(ProgressPhase, Action), SwapError>(
                    (ProgressPhase::Aborted, Action::Run(SubFlow::AbortArk)),
                )
            }
        }),
        next matches Ok((_, Action::Run(SubFlow::AbortArk))) ==> phase is ArkTip && (reply matches Reply::Tip(tip) && tip
            + state.relay.request.safety_margin_blocks >= state.relay.request.refund_height),
        phase matches ProgressPhase::Received { tip } ==> match reply {
            Reply::Answer(false) => next matches Ok((_, Action::Finish(Next::AwaitBtcFunding))),
            Reply::Answer(true) => state.relay.btc_funding matches Some(funding) ==> (tx_of_hex(
                funding.funding_tx_hex,
            ) matches Some(tx) ==> (next matches Ok((ProgressPhase::Confirmed { tip: kept }, Action::Confirmed(txid)))
                && kept == tip && txid == txid_of(tx))),
            _ => next is Err,
        },
        phase matches ProgressPhase::Confirmed { tip } ==> match reply {
            Reply::Confirmed(None) => next matches Ok((_, Action::Finish(Next::AwaitFundingConfirmation))),
            Reply::Confirmed(Some(height)) => {
                let required = state.relay.request.minimum_funding_confirmations;
                if required <= 1 || tip + 1 >= height + required {
                    next == Ok::<(ProgressPhase, Action), SwapError>(
                        (ProgressPhase::Claimed { again: false }, Action::Run(SubFlow::ClaimBtc)),
                    )
                } else {
                    next matches Ok((_, Action::Finish(Next::AwaitFundingConfirmation)))
                }
            },
            _ => next is Err,
        },
        phase is Aborted && reply is Done ==> (next matches Ok(
            (ProgressPhase::Recovered, Action::Run(SubFlow::RecoverArk)),
        )),
{
}

/// The BTC payer completes the Ark as soon as a claim is visible; while none is, it takes the refund from
/// the refund height on, and looks after its funding before that.
pub proof fn law_btc_payer_completes_or_refunds(
    phase: ProgressPhase,
    reply: Reply,
    state: StateView,
    next: Result<(ProgressPhase, Action), SwapError>,
)
    requires
        progress_next(phase, reply, state, next),
    ensures
        phase is Observed ==> match reply {
            Reply::Answer(true) => next matches Ok((ProgressPhase::Completed, Action::Run(SubFlow::CompleteArk))),
            Reply::Answer(false) => next matches Ok((ProgressPhase::BtcTip, Action::Tip)),
            _ => next is Err,
        },
        phase is BtcTip ==> (reply matches Reply::Tip(tip) ==> if state.relay.request.refund_height <= tip {
            next matches Ok((ProgressPhase::Refunded, Action::Run(SubFlow::RefundBtc)))
        } else {
            state.relay.btc_funding matches Some(funding) ==> (tx_of_hex(funding.funding_tx_hex) matches Some(tx) ==> (
            next matches Ok((ProgressPhase::Funding, Action::Status(txid))) && txid == txid_of(tx)))
        }),
        next matches Ok((_, Action::Run(SubFlow::RefundBtc))) ==> phase is BtcTip && (reply matches Reply::Tip(tip) && tip
            >= state.relay.request.refund_height),
        next matches Ok((_, Action::Run(SubFlow::CompleteArk))) ==> phase is Observed && reply == Reply::Answer(true),
        phase is Funding ==> match reply {
            Reply::Status(TxStatus::NotFound) => next matches Ok((ProgressPhase::Vanished, Action::TryLoadRelay)),
            Reply::Status(_) => next matches Ok((_, Action::Finish(Next::AwaitBtcClaim))),
            _ => next is Err,
        },
        phase is Rebroadcast && reply is Done ==> (next matches Ok((_, Action::Finish(Next::AwaitBtcClaim)))),
{
}

/// What progress begins with: nothing for a settled swap; the recovery of an Ark that is taken back;
/// else the claim of an Ark payer who has signed it, the tip for one who has not, and the search for
/// the claim for a BTC payer who has funded.
pub proof fn law_progress_goes_where_the_swap_stands(
    phase: ProgressPhase,
    reply: Reply,
    state: StateView,
    next: Result<(ProgressPhase, Action), SwapError>,
)
    requires
        progress_next(phase, reply, state, next),
        reply is Done,
    ensures
        phase is Begin ==> {
            let settled = state.status == SwapStatus::BtcClaimed || state.status == SwapStatus::ArkCompleted
                || state.status == SwapStatus::Refunded || state.status == SwapStatus::ArkReclaimed || (state.status
                == SwapStatus::Cancelled && state.role == SwapRole::BtcPayer);
            if settled {
                next matches Ok((_, Action::Finish(Next::Done)))
            } else {
                next matches Ok((ProgressPhase::Indexed, Action::RequireIndex))
            }
        },
        phase is Indexed ==> if state.status == SwapStatus::ArkRecovering || (state.status == SwapStatus::Cancelled
            && state.role == SwapRole::ArkPayer) {
            next matches Ok((ProgressPhase::Recovered, Action::Run(SubFlow::RecoverArk)))
        } else {
            match state.role {
                SwapRole::BtcPayer => if state.relay.btc_claim_adaptor is None {
                    next matches Ok((_, Action::Finish(Next::BtcFund)))
                } else {
                    next matches Ok((ProgressPhase::Observed, Action::Run(SubFlow::ObserveClaim)))
                },
                SwapRole::ArkPayer => if state.signed_claim_tx_hex is None {
                    next matches Ok((ProgressPhase::ArkTip, Action::Tip))
                } else {
                    next == Ok::<(ProgressPhase, Action), SwapError>(
                        (ProgressPhase::Claimed { again: true }, Action::Run(SubFlow::ClaimBtc)),
                    )
                },
            }
        },
{
}

/// What progress tells when a flow has run: that the swap is done where its status is settled by then,
/// and else what is awaited of that flow.
pub proof fn law_progress_tells_what_is_awaited(
    phase: ProgressPhase,
    reply: Reply,
    state: StateView,
    next: Result<(ProgressPhase, Action), SwapError>,
)
    requires
        progress_next(phase, reply, state, next),
    ensures
        ({
            let settled = state.status == SwapStatus::BtcClaimed || state.status == SwapStatus::ArkCompleted
                || state.status == SwapStatus::Refunded || state.status == SwapStatus::ArkReclaimed || (state.status
                == SwapStatus::Cancelled && state.role == SwapRole::BtcPayer);
            &&& phase is Completed && reply is Done ==> (next matches Ok((_, Action::Finish(told))) && told == (if settled {
                Next::Done
            } else {
                Next::AwaitArkExit
            }))
            &&& phase is Refunded && reply is Done ==> (next matches Ok((_, Action::Finish(told))) && told == (if settled {
                Next::Done
            } else {
                Next::AwaitRefundConfirmation
            }))
            &&& phase == (ProgressPhase::Claimed { again: true }) && reply is Done ==> (next matches Ok(
                (_, Action::Finish(told)),
            ) && told == (if settled {
                Next::Done
            } else {
                Next::AwaitClaimConfirmation
            }))
            &&& phase == (ProgressPhase::Claimed { again: false }) && reply is Done ==> (next matches Ok(
                (_, Action::Finish(Next::AwaitClaimConfirmation)),
            ))
        }),
        phase is Recovered ==> (reply matches Reply::Finished(told) ==> next == Ok::<(ProgressPhase, Action), SwapError>(
            (ProgressPhase::Last, Action::Finish(told)),
        )),
{
}

/// A relay file tells that the funding was sent exactly where it holds a pre-signature, and that is the
/// swap's own.
pub proof fn law_funding_was_sent_with_its_own_adaptor(state: StateView, relay: Option<RelayFile>)
    ensures
        funding_was_sent(state, relay) <==> (relay matches Some(found) && found@.btc_claim_adaptor is Some
            && state.relay.btc_claim_adaptor is Some && found@.btc_claim_adaptor->0 == state.relay.btc_claim_adaptor->0),
{
}

/// A funding that may never have been sent is checked, and then sent: the request first, then the transfer, and
/// it goes out wherever both pass.
pub proof fn law_unsent_funding_is_checked_and_sent(
    phase: ProgressPhase,
    reply: Reply,
    state: StateView,
    next: Result<(ProgressPhase, Action), SwapError>,
)
    requires
        progress_next(phase, reply, state, next),
    ensures
        phase is Vanished ==> (reply matches Reply::MaybeRelay(relay) ==> {
            let sent = relay matches Some(found) && found@.btc_claim_adaptor is Some && found@.btc_claim_adaptor
                == state.relay.btc_claim_adaptor;
            &&& !sent ==> (next matches Ok((ProgressPhase::Recheck, Action::CheckRequest(request))) && request@
                == state.relay.request)
            &&& sent ==> (funding_of(state.relay) matches Ok(funding) ==> (next matches Ok(
                (ProgressPhase::Rebroadcast, Action::Broadcast(tx)),
            ) && tx@ == funding))
        }),
        phase is Recheck ==> (reply matches Reply::Log(log) ==> if request_check(answer_views(log@), state.relay.request)
            is Pass {
            next matches Ok((ProgressPhase::RecheckTransfer, Action::CheckTransfer(relay))) && relay@ == state.relay
        } else {
            next is Err
        }),
        phase is RecheckTransfer ==> (reply matches Reply::Transfer { transfer, server, verdict, log } ==> if live_package(
            state.relay,
            transfer@,
            server@,
            verdict,
            answer_views(log@),
        ) is Ok {
            funding_of(state.relay) matches Ok(funding) ==> (next matches Ok(
                (ProgressPhase::Rebroadcast, Action::Broadcast(tx)),
            ) && tx@ == funding)
        } else {
            next is Err
        }),
{
}

/// The flow of the progress of a swap takes no reply but one to what it asked for.
pub proof fn law_progress_takes_its_replies_alone(
    phase: ProgressPhase,
    reply: Reply,
    state: StateView,
    next: Result<(ProgressPhase, Action), SwapError>,
)
    requires
        progress_next(phase, reply, state, next),
    ensures
        next is Ok ==> match phase {
            ProgressPhase::Begin | ProgressPhase::Indexed | ProgressPhase::Completed | ProgressPhase::Refunded
            | ProgressPhase::Rebroadcast | ProgressPhase::Claimed { .. } | ProgressPhase::Aborted => reply is Done,
            ProgressPhase::Recovered => reply is Finished,
            ProgressPhase::Observed | ProgressPhase::Received { .. } => reply is Answer,
            ProgressPhase::BtcTip | ProgressPhase::ArkTip => reply is Tip,
            ProgressPhase::Funding => reply is Status,
            ProgressPhase::Vanished => reply is MaybeRelay,
            ProgressPhase::Recheck => reply is Log,
            ProgressPhase::RecheckTransfer => reply is Transfer,
            ProgressPhase::Confirmed { .. } => reply is Confirmed,
            _ => false,
        },
{
}

} // verus!
