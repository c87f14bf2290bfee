//! Recovering the Ark: frozen VTXOs are exited on-chain and claimed there, at a fee that is raised
//! until the claim is confirmed.

use vstd::prelude::*;

use crate::ark_types::{contains_id, id_texts, ids_of_texts, parse_ids, vtxo_id_text, vtxo_id_texts, VtxoId};
use crate::bytes::{byte_list_copy, byte_views};
use crate::chain::{answer_views, AnswerView, ChainAnswer, CheckStep, TxStatus};
use crate::error::SwapError;
use crate::fee::{checked_fee, fee_at};
use crate::flow::{
    check_error, deep_enough, estimate_of, estimated_fee, has_confirmations, target_fee, target_of, Action, CpfpFees,
    ExitRequest, FlowContext, Next, Reply, Target,
};
use crate::observe_flow::expected_claim_tx;
use crate::refund_flow::{lemma_with_id, recovery_txid, set_first_value, with_first_value, with_id, INCREMENT};
use crate::role::SwapStatus;
use crate::script::{clears_dust, minimal_non_dust};
use crate::state::{accepted_ids, StateView, StoredBtcArkSwap};
use crate::tx::{
    hex_of_tx, id_listed, same_id, tx_from_hex, tx_of_hex, txid_of, weight_of, Transaction, TransactionView, TxIn,
    TxInView, TxOut,
};
use crate::txfee::{fee_told, transaction_fee};

verus! {

/// Where the flow is that aborts the swap.
pub enum AbortPhase {
    Begin,
    Fetched,
    Stored { ids: Vec<VtxoId> },
    Last,
}

/// What follows when no claim is visible: the decision not to reveal the secret is stored with the
/// frozen inputs, before any exit begins.
pub open spec fn abort_freezes(
    before: StateView,
    after: StateView,
    next: Result<(AbortPhase, Action), SwapError>,
) -> bool {
    match accepted_ids(before) {
        Err(error) => after == before && next == Err::<(AbortPhase, Action), SwapError>(error),
        Ok(frozen) => {
            &&& after == (StateView {
                status: SwapStatus::Cancelled,
                ark_recovery_input_ids: vtxo_id_texts(frozen),
                ..before
            })
            &&& next matches Ok((AbortPhase::Stored { ids }, Action::StoreState)) && ids@ == frozen
        },
    }
}

/// What the flow does next that aborts the swap.
pub open spec fn abort_next(
    phase: AbortPhase,
    reply: Reply,
    before: StateView,
    after: StateView,
    next: Result<(AbortPhase, Action), SwapError>,
) -> bool {
    match (phase, reply) {
        (AbortPhase::Begin, Reply::Done) => if before.signed_claim_tx_hex is Some || before.status
            == SwapStatus::BtcClaimed {
            after == before && next == Err::<(AbortPhase, Action), SwapError>(SwapError::SecretMayBePublic)
        } else if before.status == SwapStatus::ArkReclaimed {
            after == before && next matches Ok((AbortPhase::Last, Action::End))
        } else {
            match expected_claim_tx(before) {
                None => abort_freezes(before, after, next),
                Some(Err(error)) => after == before && next == Err::<(AbortPhase, Action), SwapError>(error),
                Some(Ok(claim)) => after == before && (next matches Ok((AbortPhase::Fetched, Action::FetchTx(txid)))
                    && txid == txid_of(claim)),
            }
        },
        (AbortPhase::Fetched, Reply::Tx(Some(_))) => after == before && next == Err::<(AbortPhase, Action), SwapError>(
            SwapError::ClaimVisible,
        ),
        (AbortPhase::Fetched, Reply::Tx(None)) => abort_freezes(before, after, next),
        (AbortPhase::Stored { ids }, Reply::Done) => after == before && (next matches Ok(
            (AbortPhase::Last, Action::StartExits(started)),
        ) && started@ == ids@),
        (AbortPhase::Last, Reply::Done) => after == before && next matches Ok((AbortPhase::Last, Action::End)),
        _ => after == before && next == Err::<(AbortPhase, Action), SwapError>(SwapError::UnexpectedReply),
    }
}

/// Freezes the accepted inputs.
fn freeze_inputs(state: &mut StoredBtcArkSwap) -> (next: Result<(AbortPhase, Action), SwapError>)
    ensures
        abort_freezes(old(state)@, final(state)@, next),
{
    match state.accepted_ark_input_ids() {
        Ok(ids) => {
            state.ark_recovery_input_ids = id_texts(&ids);
            state.status = SwapStatus::Cancelled;
            assert(state@ =~= (StateView {
                status: SwapStatus::Cancelled,
                ark_recovery_input_ids: vtxo_id_texts(ids@),
                ..old(state)@
            }));
            Ok((AbortPhase::Stored { ids }, Action::StoreState))
        },
        Err(error) => Err(error),
    }
}

/// One step of the flow in which the Ark payer aborts the swap before the secret is revealed.
pub fn abort_ark(phase: AbortPhase, reply: Reply, state: &mut StoredBtcArkSwap) -> (next: Result<
    (AbortPhase, Action),
    SwapError,
>)
    ensures
        abort_next(phase, reply, old(state)@, final(state)@, next),
{
    match (phase, reply) {
        (AbortPhase::Begin, Reply::Done) => {
            if state.signed_claim_tx_hex.is_some() || matches!(state.status, SwapStatus::BtcClaimed) {
                return Err(SwapError::SecretMayBePublic);
            }
            if matches!(state.status, SwapStatus::ArkReclaimed) {
                return Ok((AbortPhase::Last, Action::End));
            }
            match &state.relay.claim_request {
                Some(request) => match tx_from_hex(request.claim_tx_hex.as_str()) {
                    Ok(claim) => Ok((AbortPhase::Fetched, Action::FetchTx(claim.txid()))),
                    Err(error) => Err(error),
                },
                None => freeze_inputs(state),
            }
        },
        (AbortPhase::Fetched, Reply::Tx(Some(_))) => Err(SwapError::ClaimVisible),
        (AbortPhase::Fetched, Reply::Tx(None)) => freeze_inputs(state),
        (AbortPhase::Stored { ids }, Reply::Done) => Ok((AbortPhase::Last, Action::StartExits(ids))),
        (AbortPhase::Last, Reply::Done) => Ok((AbortPhase::Last, Action::End)),
        _ => Err(SwapError::UnexpectedReply),
    }
}

/// A swap cannot be aborted once the secret may be public: with a signed claim, or a claim that is
/// visible, nothing changes. An abort stores the frozen inputs before any exit begins, and the
/// secret can then never be revealed.
pub proof fn law_abort_excludes_disclosure(
    phase: AbortPhase,
    reply: Reply,
    before: StateView,
    after: StateView,
    next: Result<(AbortPhase, Action), SwapError>,
)
    requires
        abort_next(phase, reply, before, after, next),
    ensures
        phase is Begin && before.signed_claim_tx_hex is Some ==> next is Err && after == before,
        reply matches Reply::Tx(Some(_)) ==> next is Err && after == before,
        after != before ==> (next matches Ok((_, Action::StoreState))) && after.status == SwapStatus::Cancelled && (
        accepted_ids(before) matches Ok(ids) && after.ark_recovery_input_ids == vtxo_id_texts(ids)),
        after != before ==> !crate::claim_flow::may_reveal(after),
        after.signed_claim_tx_hex == before.signed_claim_tx_hex,
        next matches Ok((_, Action::StartExits(_))) ==> phase is Stored,
{
}

/// What an exit request is.
pub struct ExitRequestView {
    pub exit_tx: TransactionView,
    pub rbf: Option<(u64, u64)>,
}

impl View for ExitRequest {
    type V = ExitRequestView;

    open spec fn view(&self) -> ExitRequestView {
        ExitRequestView { exit_tx: self.exit_tx@, rbf: self.rbf }
    }
}

/// What some exit requests are.
pub open spec fn exit_request_views(requests: Seq<ExitRequest>) -> Seq<ExitRequestView> {
    requests.map_values(|request: ExitRequest| request@)
}

/// The fees of the child of an exit at a target, or nothing where the exit pays enough already.
pub open spec fn exit_fees_of(rbf: Option<(u64, u64)>, target: u64) -> Option<CpfpFees> {
    match rbf {
        None => Some(CpfpFees::Effective(target)),
        Some((min_fee_rate, current_package_fee)) => if target <= min_fee_rate {
            None
        } else {
            Some(CpfpFees::Rbf { min_effective_fee_rate: target, current_package_fee })
        },
    }
}

/// The fees of the child of an exit at a target, or nothing where the exit pays enough already.
pub fn exit_fees(rbf: Option<(u64, u64)>, target: u64) -> (fees: Option<CpfpFees>)
    ensures
        fees == exit_fees_of(rbf, target),
{
    match rbf {
        None => Some(CpfpFees::Effective(target)),
        Some((min_fee_rate, current_package_fee)) => if target <= min_fee_rate {
            None
        } else {
            Some(CpfpFees::Rbf { min_effective_fee_rate: target, current_package_fee })
        },
    }
}

/// The first exit, from one on, that needs a child at a target.
pub open spec fn first_unpaid(requests: Seq<ExitRequestView>, target: u64, at: nat) -> Option<nat>
    decreases requests.len() - at,
{
    if at >= requests.len() {
        None
    } else if exit_fees_of(requests[at as int].rbf, target) is Some {
        Some(at)
    } else {
        first_unpaid(requests, target, at + 1)
    }
}

/// Where the flow is that pays for exits.
pub enum ExitsPhase {
    Begin,
    Advanced,
    Child { requests: Vec<ExitRequest>, at: usize },
    ChildStored { requests: Vec<ExitRequest>, at: usize, child: Transaction },
    Provided { requests: Vec<ExitRequest>, at: usize },
    Last,
}

/// What follows from one exit on: a child of the next one that needs it.
pub open spec fn exits_pay(
    requests: Seq<ExitRequestView>,
    target: u64,
    at: nat,
    next: Result<(ExitsPhase, Action), SwapError>,
) -> bool {
    match first_unpaid(requests, target, at) {
        None => next matches Ok((ExitsPhase::Last, Action::End)),
        Some(found) => next matches Ok(
            (ExitsPhase::Child { requests: kept, at: then_at }, Action::MakeChild { parent, fees }),
        ) && exit_request_views(kept@) == requests && then_at == found && parent@ == requests[found as int].exit_tx
            && Some(fees) == exit_fees_of(requests[found as int].rbf, target),
    }
}

/// What the flow does next that pays for exits.
pub open spec fn exits_next(
    target: u64,
    phase: ExitsPhase,
    reply: Reply,
    next: Result<(ExitsPhase, Action), SwapError>,
) -> bool {
    match (phase, reply) {
        (ExitsPhase::Begin, Reply::Done) => next matches Ok((ExitsPhase::Advanced, Action::AdvanceExits)),
        (ExitsPhase::Advanced, Reply::ExitRequests(requests)) => exits_pay(
            exit_request_views(requests@),
            target,
            0,
            next,
        ),
        (ExitsPhase::Child { requests, at }, Reply::Child(child)) => next matches Ok(
            (ExitsPhase::ChildStored { requests: kept, at: then_at, child: kept_child }, Action::StoreChild(stored)),
        ) && exit_request_views(kept@) == exit_request_views(requests@) && then_at == at && kept_child@ == child@
            && stored@ == child@,
        (ExitsPhase::ChildStored { requests, at, child }, Reply::Done) => if at < requests@.len() {
            next matches Ok(
                (ExitsPhase::Provided { requests: kept, at: then_at }, Action::ProvideChild { exit_txid, child: given }),
            ) && exit_request_views(kept@) == exit_request_views(requests@) && then_at == at + 1 && exit_txid == txid_of(
                requests@[at as int].exit_tx@,
            ) && given@ == child@
        } else {
            next == Err::<(ExitsPhase, Action), SwapError>(SwapError::UnexpectedReply)
        },
        (ExitsPhase::Provided { requests, at }, Reply::Done) => exits_pay(
            exit_request_views(requests@),
            target,
            at as nat,
            next,
        ),
        (ExitsPhase::Last, Reply::Done) => next matches Ok((ExitsPhase::Last, Action::End)),
        _ => next == Err::<(ExitsPhase, Action), SwapError>(SwapError::UnexpectedReply),
    }
}

/// Goes on from one exit on.
fn pay_from(requests: Vec<ExitRequest>, target: u64, at: usize) -> (next: Result<(ExitsPhase, Action), SwapError>)
    ensures
        exits_pay(exit_request_views(requests@), target, at as nat, next),
{
    let ghost views = exit_request_views(requests@);
    assert(views.len() == requests@.len());
    let mut i: usize = at;
    while i < requests.len()
        invariant
            views == exit_request_views(requests@),
            views.len() == requests@.len(),
            at <= i,
            first_unpaid(views, target, i as nat) == first_unpaid(views, target, at as nat),
        decreases requests.len() - i,
    {
        assert(views[i as int] == requests[i as int]@);
        match exit_fees(requests[i].rbf, target) {
            Some(fees) => {
                let parent = requests[i].exit_tx.clone();
                return Ok((ExitsPhase::Child { requests, at: i }, Action::MakeChild { parent, fees }));
            },
            None => {},
        }
        i += 1;
    }
    Ok((ExitsPhase::Last, Action::End))
}

/// One step of the flow that progresses all exits, and pays for those that need it with children
/// of the on-chain wallet.
pub fn progress_exits_with_held_onchain(target: u64, phase: ExitsPhase, reply: Reply) -> (next: Result<
    (ExitsPhase, Action),
    SwapError,
>)
    ensures
        exits_next(target, phase, reply, next),
{
    match (phase, reply) {
        (ExitsPhase::Begin, Reply::Done) => Ok((ExitsPhase::Advanced, Action::AdvanceExits)),
        (ExitsPhase::Advanced, Reply::ExitRequests(requests)) => pay_from(requests, target, 0),
        (ExitsPhase::Child { requests, at }, Reply::Child(child)) => {
            let stored = child.clone();
            Ok((ExitsPhase::ChildStored { requests, at, child }, Action::StoreChild(stored)))
        },
        (ExitsPhase::ChildStored { requests, at, child }, Reply::Done) => {
            if at < requests.len() {
                let exit_txid = requests[at].exit_tx.txid();
                Ok((ExitsPhase::Provided { requests, at: at + 1 }, Action::ProvideChild { exit_txid, child }))
            } else {
                Err(SwapError::UnexpectedReply)
            }
        },
        (ExitsPhase::Provided { requests, at }, Reply::Done) => pay_from(requests, target, at),
        (ExitsPhase::Last, Reply::Done) => Ok((ExitsPhase::Last, Action::End)),
        _ => Err(SwapError::UnexpectedReply),
    }
}

/// The next exit that gets a child is never an earlier one, and every exit in between pays at
/// least the target already.
pub proof fn law_every_exit_is_paid(requests: Seq<ExitRequestView>, target: u64, at: nat)
    ensures
        ({
            let end = match first_unpaid(requests, target, at) {
                Some(found) => found,
                None => requests.len(),
            };
            &&& first_unpaid(requests, target, at) matches Some(found) ==> at <= found < requests.len()
            &&& forall|i: int|
                at <= i < end ==> ((#[trigger] requests[i]).rbf matches Some((rate, _)) && target <= rate)
        }),
    decreases requests.len() - at,
{
    if at < requests.len() && exit_fees_of(requests[at as int].rbf, target) is None {
        law_every_exit_is_paid(requests, target, at + 1);
    }
}

/// The frozen VTXOs of a state, or why there are none.
pub open spec fn frozen_ids(state: StateView) -> Result<Seq<VtxoId>, SwapError> {
    match ids_of_texts(state.ark_recovery_input_ids) {
        None => Err(SwapError::InvalidVtxoId),
        Some(ids) => if ids.len() == 0 {
            Err(SwapError::RecoveryInputsMissing)
        } else {
            Ok(ids)
        },
    }
}

/// The frozen VTXOs of a state.
fn load_frozen(state: &StoredBtcArkSwap) -> (ids: Result<Vec<VtxoId>, SwapError>)
    ensures
        match ids {
            Ok(found) => frozen_ids(state@) == Ok::<Seq<VtxoId>, SwapError>(found@),
            Err(error) => frozen_ids(state@) == Err::<Seq<VtxoId>, SwapError>(error),
        },
{
    match parse_ids(&state.ark_recovery_input_ids) {
        Ok(ids) => if ids.len() == 0 {
            Err(SwapError::RecoveryInputsMissing)
        } else {
            Ok(ids)
        },
        Err(error) => Err(error),
    }
}

/// Those of some identifiers that are, or are not, in a list.
pub open spec fn chosen(ids: Seq<VtxoId>, list: Seq<VtxoId>, inside: bool) -> Seq<VtxoId>
    decreases ids.len(),
{
    if ids.len() == 0 {
        Seq::empty()
    } else if list.contains(ids.last()) == inside {
        chosen(ids.drop_last(), list, inside).push(ids.last())
    } else {
        chosen(ids.drop_last(), list, inside)
    }
}

/// Those of some identifiers that are, or are not, in a list.
fn choose_ids(ids: &Vec<VtxoId>, list: &Vec<VtxoId>, inside: bool) -> (found: Vec<VtxoId>)
    ensures
        found@ == chosen(ids@, list@, inside),
{
    let mut found: Vec<VtxoId> = Vec::new();
    let mut i: usize = 0;
    assert(ids@.take(0) =~= Seq::<VtxoId>::empty());
    while i < ids.len()
        invariant
            i <= ids.len(),
            found@ == chosen(ids@.take(i as int), list@, inside),
        decreases ids.len() - i,
    {
        assert(ids@.take(i + 1).drop_last() =~= ids@.take(i as int));
        assert(ids@.take(i + 1).last() == ids@[i as int]);
        if contains_id(list, &ids[i]) == inside {
            found.push(ids[i]);
        }
        i += 1;
    }
    assert(ids@.take(ids@.len() as int) =~= ids@);
    found
}

/// What was chosen of a list is in it, or is not.
proof fn lemma_chosen(ids: Seq<VtxoId>, list: Seq<VtxoId>, inside: bool)
    ensures
        forall|i: int|
            0 <= i < chosen(ids, list, inside).len() ==> list.contains(#[trigger] chosen(ids, list, inside)[i]) == inside,
    decreases ids.len(),
{
    if ids.len() > 0 {
        let shorter = chosen(ids.drop_last(), list, inside);
        lemma_chosen(ids.drop_last(), list, inside);
        assert forall|i: int| 0 <= i < chosen(ids, list, inside).len() implies list.contains(
            #[trigger] chosen(ids, list, inside)[i],
        ) == inside by {
            if i < shorter.len() {
                assert(chosen(ids, list, inside)[i] == shorter[i]);
            }
        }
    }
}

/// The transaction that claims the exited VTXOs, or why there is none.
pub open spec fn stored_reclaim(state: StateView) -> Result<TransactionView, SwapError> {
    match state.ark_exit_claim_tx_hex {
        None => Err(SwapError::ReclaimMissing),
        Some(text) => match tx_of_hex(text) {
            None => Err(SwapError::InvalidTransaction),
            Some(tx) => Ok(tx),
        },
    }
}

/// The transaction that claims the exited VTXOs.
fn load_reclaim(state: &StoredBtcArkSwap) -> (tx: Result<Transaction, SwapError>)
    ensures
        match tx {
            Ok(found) => stored_reclaim(state@) == Ok::<TransactionView, SwapError>(found@),
            Err(error) => stored_reclaim(state@) == Err::<TransactionView, SwapError>(error),
        },
{
    match &state.ark_exit_claim_tx_hex {
        Some(text) => tx_from_hex(text.as_str()),
        None => Err(SwapError::ReclaimMissing),
    }
}

/// The VTXOs that a transaction spends.
pub open spec fn spent_ids(tx: TransactionView) -> Seq<VtxoId> {
    tx.input.map_values(|input: TxInView| VtxoId { point: input.previous_output })
}

/// What a reclaim pays out after it was repriced, nothing where it pays enough, or why it cannot be
/// repriced.
pub open spec fn reclaim_price(tx: TransactionView, old_fee: u64, target: u64) -> Result<Option<u64>, SwapError> {
    let weight = weight_of(tx);
    let wanted = fee_at(target as int, weight as int);
    let minimum = old_fee + fee_at(INCREMENT as int, weight as int);
    let fee = if minimum > wanted {
        minimum
    } else {
        wanted
    };
    if target * weight + 999 > u64::MAX {
        Err(SwapError::FeeOverflow)
    } else if old_fee >= wanted {
        Ok(None)
    } else if INCREMENT * weight + 999 > u64::MAX || minimum > u64::MAX {
        Err(SwapError::FeeOverflow)
    } else if tx.output.len() != 1 {
        Err(SwapError::ReclaimOutputCount)
    } else if fee - old_fee > tx.output[0].value {
        Err(SwapError::ReclaimFeeExceedsOutput)
    } else if tx.output[0].value - (fee - old_fee) < minimal_non_dust(tx.output[0].script_pubkey) {
        Err(SwapError::ReclaimDust)
    } else {
        Ok(Some((tx.output[0].value - (fee - old_fee)) as u64))
    }
}

/// What a reclaim pays out after it was repriced, nothing where it pays enough.
fn price_reclaim(tx: &Transaction, old_fee: u64, target: u64) -> (value: Result<Option<u64>, SwapError>)
    ensures
        value == reclaim_price(tx@, old_fee, target),
{
    let weight: u64 = tx.weight_units();
    let wanted: u64 = match checked_fee(target, weight) {
        Some(fee) => fee,
        None => return Err(SwapError::FeeOverflow),
    };
    if old_fee >= wanted {
        return Ok(None);
    }
    let minimum: u64 = match checked_fee(INCREMENT, weight) {
        Some(increment) => match old_fee.checked_add(increment) {
            Some(fee) => fee,
            None => return Err(SwapError::FeeOverflow),
        },
        None => return Err(SwapError::FeeOverflow),
    };
    let fee: u64 = if minimum > wanted {
        minimum
    } else {
        wanted
    };
    assert(tx@.output.len() == tx.output@.len());
    if tx.output.len() != 1 {
        return Err(SwapError::ReclaimOutputCount);
    }
    assert(tx@.output[0] == tx.output[0]@);
    assert(fee >= old_fee);
    let value: u64 = match tx.output[0].value.checked_sub(fee - old_fee) {
        Some(value) => value,
        None => return Err(SwapError::ReclaimFeeExceedsOutput),
    };
    let output = TxOut { value, script_pubkey: tx.output[0].script_pubkey.clone() };
    if clears_dust(&output) {
        Ok(Some(value))
    } else {
        Err(SwapError::ReclaimDust)
    }
}

/// A reclaim that is repriced pays the target, at least one satoshi per virtual byte more than
/// before, and still no dust.
pub proof fn law_repriced_reclaim_pays_enough(tx: TransactionView, old_fee: u64, target: u64)
    requires
        reclaim_price(tx, old_fee, target) matches Ok(Some(_)),
    ensures
        ({
            let value = reclaim_price(tx, old_fee, target)->Ok_0->0;
            let new_fee = old_fee + tx.output[0].value - value;
            &&& new_fee >= fee_at(target as int, weight_of(tx) as int)
            &&& new_fee >= old_fee + fee_at(INCREMENT as int, weight_of(tx) as int)
            &&& value <= tx.output[0].value
            &&& value >= minimal_non_dust(tx.output[0].script_pubkey)
        }),
{
    assert(fee_at(INCREMENT as int, weight_of(tx) as int) >= 0);
}

/// Why a reclaim may not be signed again, if it may not.
pub open spec fn reclaim_refusal(tx: TransactionView, frozen: Seq<VtxoId>) -> Option<SwapError> {
    if exists|i: int| 0 <= i < tx.input.len() && !frozen.contains(#[trigger] spent_ids(tx)[i]) {
        Some(SwapError::ReclaimForeignInput)
    } else if tx.input.len() != frozen.len() {
        Some(SwapError::ReclaimIncomplete)
    } else {
        None
    }
}

/// Checks that a reclaim spends what is frozen, and tells it.
fn check_reclaim(tx: &Transaction, frozen: &Vec<VtxoId>) -> (ids: Result<Vec<VtxoId>, SwapError>)
    ensures
        match ids {
            Ok(found) => reclaim_refusal(tx@, frozen@) is None && found@ == spent_ids(tx@),
            Err(error) => reclaim_refusal(tx@, frozen@) == Some(error),
        },
{
    let mut ids: Vec<VtxoId> = Vec::new();
    let mut i: usize = 0;
    assert(tx@.input.len() == tx.input@.len());
    while i < tx.input.len()
        invariant
            i <= tx.input.len(),
            tx@.input.len() == tx.input@.len(),
            ids.len() == i,
            forall|k: int| 0 <= k < i ==> ids@[k] == #[trigger] spent_ids(tx@)[k],
            forall|k: int| 0 <= k < i ==> frozen@.contains(#[trigger] spent_ids(tx@)[k]),
        decreases tx.input.len() - i,
    {
        assert(tx@.input[i as int] == tx.input[i as int]@);
        let id = VtxoId { point: tx.input[i].previous_output };
        assert(id == spent_ids(tx@)[i as int]);
        if !contains_id(frozen, &id) {
            return Err(SwapError::ReclaimForeignInput);
        }
        ids.push(id);
        i += 1;
    }
    if ids.len() != frozen.len() {
        return Err(SwapError::ReclaimIncomplete);
    }
    assert(ids@ =~= spent_ids(tx@));
    Ok(ids)
}

/// The witnesses of the inputs of a transaction.
pub open spec fn witness_views(witnesses: Seq<Vec<Vec<u8>>>) -> Seq<Seq<Seq<u8>>> {
    witnesses.map_values(|witness: Vec<Vec<u8>>| byte_views(witness@))
}

/// A transaction with other witnesses.
pub open spec fn with_witnesses(tx: TransactionView, witnesses: Seq<Seq<Seq<u8>>>) -> TransactionView {
    TransactionView {
        input: Seq::new(tx.input.len(), |i: int| TxInView { witness: witnesses[i], ..tx.input[i] }),
        ..tx
    }
}

/// Puts a witness on every input.
fn set_witnesses(tx: Transaction, witnesses: Vec<Vec<Vec<u8>>>) -> (signed: Transaction)
    requires
        witnesses@.len() == tx@.input.len(),
    ensures
        signed@ == with_witnesses(tx@, witness_views(witnesses@)),
{
    let ghost views = witness_views(witnesses@);
    let mut input: Vec<TxIn> = Vec::new();
    let mut i: usize = 0;
    while i < tx.input.len()
        invariant
            i <= tx.input.len(),
            witnesses@.len() == tx.input@.len(),
            views == witness_views(witnesses@),
            input.len() == i,
            forall|k: int|
                0 <= k < i ==> (#[trigger] input[k])@ == (TxInView { witness: views[k], ..tx@.input[k] }),
        decreases tx.input.len() - i,
    {
        assert(tx@.input[i as int] == tx.input[i as int]@);
        assert(views[i as int] == byte_views(witnesses[i as int]@));
        let from = &tx.input[i];
        input.push(
            TxIn {
                previous_output: from.previous_output,
                script_sig: from.script_sig.clone(),
                sequence: from.sequence,
                witness: byte_list_copy(&witnesses[i]),
            },
        );
        assert(input[i as int]@ =~= (TxInView { witness: views[i as int], ..tx@.input[i as int] }));
        i += 1;
    }
    let signed = Transaction { version: tx.version, lock_time: tx.lock_time, input, output: tx.output };
    assert(signed@.input =~= with_witnesses(tx@, views).input);
    signed
}

/// Where the recovery flow is.
pub enum RecoverPhase {
    Begin,
    Synced,
    Listed,
    Started,
    Fee,
    Recovery { target: u64, at: usize },
    Depth { txid: [u8; 32] },
    Deep { txid: [u8; 32], height: u32 },
    Replaced { stable: bool },
    Reported { stable: bool },
    OldFee { target: u64 },
    Rebroadcast,
    Sign { tx: Transaction },
    Exits { target: u64 },
    Claimable { target: u64 },
    Drain { target: u64, ids: Vec<VtxoId> },
    Drained,
    Stored,
    Waiting,
    Last,
}

/// A state whose reclaim is confirmed, and deep enough or not.
pub open spec fn reclaimed(state: StateView, stable: bool) -> StateView {
    if stable {
        StateView { status: SwapStatus::ArkReclaimed, ..state }
    } else {
        state
    }
}

/// What follows a confirmed reclaim.
pub open spec fn reclaim_found(
    state: StateView,
    txid: [u8; 32],
    stable: bool,
    after: StateView,
    next: Result<(RecoverPhase, Action), SwapError>,
) -> bool {
    match stored_reclaim(state) {
        Err(error) => after == state && next == Err::<(RecoverPhase, Action), SwapError>(error),
        Ok(tx) => if txid != txid_of(tx) {
            after == state && (next matches Ok((RecoverPhase::Replaced { stable: kept }, Action::FetchTx(asked))) && kept
                == stable && asked == txid)
        } else {
            after == reclaimed(state, stable) && (next matches Ok(
                (RecoverPhase::Reported { stable: kept }, Action::StoreState),
            ) && kept == stable)
        },
    }
}

/// What follows when the rate is known: the stored reclaim is looked for, or the exits progressed.
pub open spec fn recover_goes_on(state: StateView, target: u64, next: Result<(RecoverPhase, Action), SwapError>) -> bool {
    match state.ark_exit_claim_tx_hex {
        None => next matches Ok((RecoverPhase::Exits { target: kept }, Action::ProgressExits { target: asked })) && kept
            == target && asked == target,
        Some(text) => match tx_of_hex(text) {
            None => next == Err::<(RecoverPhase, Action), SwapError>(SwapError::InvalidTransaction),
            Some(tx) => next matches Ok((RecoverPhase::Recovery { target: kept, at }, Action::Confirmed(txid))) && kept
                == target && at == 0 && txid == txid_of(tx),
        },
    }
}

/// What follows when the fee of the stored reclaim is told: it is kept, or repriced.
pub open spec fn recover_prices(
    state: StateView,
    target: u64,
    log: Seq<AnswerView>,
    next: Result<(RecoverPhase, Action), SwapError>,
) -> bool {
    match frozen_ids(state) {
        Err(error) => next == Err::<(RecoverPhase, Action), SwapError>(error),
        Ok(frozen) => match stored_reclaim(state) {
            Err(error) => next == Err::<(RecoverPhase, Action), SwapError>(error),
            Ok(tx) => match fee_told(log, tx, None) {
                Err(step) => next == Err::<(RecoverPhase, Action), SwapError>(check_error(step)),
                Ok(old_fee) => match reclaim_price(tx, old_fee, target) {
                    Err(error) => next == Err::<(RecoverPhase, Action), SwapError>(error),
                    Ok(None) => next matches Ok((RecoverPhase::Rebroadcast, Action::Status(txid))) && txid == txid_of(tx),
                    Ok(Some(value)) => match reclaim_refusal(tx, frozen) {
                        Some(error) => next == Err::<(RecoverPhase, Action), SwapError>(error),
                        None => next matches Ok(
                            (RecoverPhase::Sign { tx: kept }, Action::SignReclaim { tx: asked, ids }),
                        ) && kept@ == with_first_value(tx, value) && asked@ == kept@ && ids@ == spent_ids(tx),
                    },
                },
            },
        },
    }
}

/// What follows when the reclaim is signed again: it is stored before it is broadcast.
pub open spec fn recover_resigns(
    before: StateView,
    tx: TransactionView,
    witnesses: Seq<Seq<Seq<u8>>>,
    after: StateView,
    next: Result<(RecoverPhase, Action), SwapError>,
) -> bool {
    if witnesses.len() != tx.input.len() {
        after == before && next == Err::<(RecoverPhase, Action), SwapError>(SwapError::UnexpectedReply)
    } else {
        match stored_reclaim(before) {
            Err(error) => after == before && next == Err::<(RecoverPhase, Action), SwapError>(error),
            Ok(previous) => {
                &&& after == (StateView {
                    ark_exit_claim_tx_hex: Some(hex_of_tx(with_witnesses(tx, witnesses))),
                    previous_ark_exit_claim_txids: with_id(before.previous_ark_exit_claim_txids, txid_of(previous)),
                    ..before
                })
                &&& next matches Ok((RecoverPhase::Stored, Action::StoreState))
            },
        }
    }
}

/// What the recovery flow does next.
pub open spec fn recover_next(
    context: FlowContext,
    phase: RecoverPhase,
    reply: Reply,
    before: StateView,
    after: StateView,
    next: Result<(RecoverPhase, Action), SwapError>,
) -> bool {
    match (phase, reply) {
        (RecoverPhase::Begin, Reply::Done) => after == before && match frozen_ids(before) {
            Err(error) => next == Err::<(RecoverPhase, Action), SwapError>(error),
            Ok(_) => next matches Ok((RecoverPhase::Synced, Action::SyncOnchain)),
        },
        (RecoverPhase::Synced, Reply::Done) => after == before && next matches Ok(
            (RecoverPhase::Listed, Action::TrackedExits),
        ),
        (RecoverPhase::Listed, Reply::Ids(known)) => after == before && match frozen_ids(before) {
            Err(error) => next == Err::<(RecoverPhase, Action), SwapError>(error),
            Ok(frozen) => next matches Ok((RecoverPhase::Started, Action::StartExits(missing))) && missing@ == chosen(
                frozen,
                known@,
                false,
            ),
        },
        (RecoverPhase::Started, Reply::Done) => after == before && match target_of(
            context.fee_rate,
            before.relay.request,
        ) {
            Err(error) => next == Err::<(RecoverPhase, Action), SwapError>(error),
            Ok(Target::Known(rate)) => recover_goes_on(before, rate, next),
            Ok(Target::Ask { floor }) => next matches Ok((RecoverPhase::Fee, Action::FeeEstimate { floor: asked }))
                && asked == floor,
        },
        (RecoverPhase::Fee, Reply::FastRate(fast)) => after == before && match estimate_of(fast, before.relay.request) {
            Err(error) => next == Err::<(RecoverPhase, Action), SwapError>(error),
            Ok(rate) => recover_goes_on(before, rate, next),
        },
        (RecoverPhase::Recovery { target, at }, Reply::Confirmed(None)) => after == before && (if at
            < before.previous_ark_exit_claim_txids.len() {
            next matches Ok((RecoverPhase::Recovery { target: kept, at: then_at }, Action::Confirmed(txid))) && kept
                == target && then_at == at + 1 && txid == before.previous_ark_exit_claim_txids[at as int]
        } else {
            match stored_reclaim(before) {
                Err(error) => next == Err::<(RecoverPhase, Action), SwapError>(error),
                Ok(reclaim) => next matches Ok(
                    (RecoverPhase::OldFee { target: kept }, Action::GatherFee { tx, parent: None }),
                ) && kept == target && tx@ == reclaim,
            }
        }),
        (RecoverPhase::Recovery { target: _, at }, Reply::Confirmed(Some(_))) => after == before && match stored_reclaim(
            before,
        ) {
            Err(error) => next == Err::<(RecoverPhase, Action), SwapError>(error),
            Ok(tx) => if at > before.previous_ark_exit_claim_txids.len() {
                next == Err::<(RecoverPhase, Action), SwapError>(SwapError::UnexpectedReply)
            } else {
                next matches Ok((RecoverPhase::Depth { txid }, Action::Confirmed(asked))) && asked == txid && txid
                    == recovery_txid(txid_of(tx), before.previous_ark_exit_claim_txids, at as nat)
            },
        },
        (RecoverPhase::Depth { txid }, Reply::Confirmed(None)) => reclaim_found(before, txid, false, after, next),
        (RecoverPhase::Depth { txid }, Reply::Confirmed(Some(height))) => after == before && (next matches Ok(
            (RecoverPhase::Deep { txid: kept, height: told }, Action::Tip),
        ) && kept == txid && told == height),
        (RecoverPhase::Deep { txid, height }, Reply::Tip(tip)) => reclaim_found(
            before,
            txid,
            deep_enough(tip, height, before.relay.request.minimum_funding_confirmations),
            after,
            next,
        ),
        (RecoverPhase::Replaced { stable: _ }, Reply::Tx(None)) => after == before && next == Err::<
            (RecoverPhase, Action),
            SwapError,
        >(SwapError::ReclaimDisappeared),
        (RecoverPhase::Replaced { stable }, Reply::Tx(Some(tx))) => {
            &&& after == reclaimed(StateView { ark_exit_claim_tx_hex: Some(hex_of_tx(tx@)), ..before }, stable)
            &&& next matches Ok((RecoverPhase::Reported { stable: kept }, Action::StoreState)) && kept == stable
        },
        (RecoverPhase::Reported { stable }, Reply::Done) => after == before && (next matches Ok(
            (RecoverPhase::Last, Action::Finish(told)),
        ) && told == (if stable { Next::Done } else { Next::AwaitArkReclaimConfirmation })),
        (RecoverPhase::OldFee { target }, Reply::Log(log)) => after == before && recover_prices(
            before,
            target,
            answer_views(log@),
            next,
        ),
        (RecoverPhase::Rebroadcast, Reply::Status(TxStatus::NotFound)) => after == before && match stored_reclaim(before) {
            Err(error) => next == Err::<(RecoverPhase, Action), SwapError>(error),
            Ok(reclaim) => next matches Ok((RecoverPhase::Waiting, Action::Broadcast(tx))) && tx@ == reclaim,
        },
        (RecoverPhase::Rebroadcast, Reply::Status(_)) => after == before && (next matches Ok(
            (RecoverPhase::Last, Action::Finish(told)),
        ) && told == Next::AwaitArkReclaimConfirmation),
        (RecoverPhase::Sign { tx }, Reply::Witnesses(witnesses)) => recover_resigns(
            before,
            tx@,
            witness_views(witnesses@),
            after,
            next,
        ),
        (RecoverPhase::Exits { target }, Reply::Done) => after == before && (next matches Ok(
            (RecoverPhase::Claimable { target: kept }, Action::ClaimableExits),
        ) && kept == target),
        (RecoverPhase::Claimable { target }, Reply::Ids(claimable)) => after == before && match frozen_ids(before) {
            Err(error) => next == Err::<(RecoverPhase, Action), SwapError>(error),
            Ok(frozen) => if chosen(claimable@, frozen, true).len() != frozen.len() {
                next matches Ok((RecoverPhase::Last, Action::Finish(told))) && told == Next::AwaitArkExit
            } else {
                next matches Ok((RecoverPhase::Drain { target: kept, ids }, Action::NewScript)) && kept == target && ids@
                    == chosen(claimable@, frozen, true)
            },
        },
        (RecoverPhase::Drain { target, ids }, Reply::Script(script)) => after == before && (next matches Ok(
            (RecoverPhase::Drained, Action::DrainExits { ids: drained, script: paid, target: asked }),
        ) && drained@ == ids@ && paid@ == script@ && asked == target),
        (RecoverPhase::Drained, Reply::Transaction(tx)) => {
            &&& after == (StateView { ark_exit_claim_tx_hex: Some(hex_of_tx(tx@)), ..before })
            &&& next matches Ok((RecoverPhase::Stored, Action::StoreState))
        },
        (RecoverPhase::Stored, Reply::Done) => after == before && match stored_reclaim(before) {
            Err(error) => next == Err::<(RecoverPhase, Action), SwapError>(error),
            Ok(reclaim) => next matches Ok((RecoverPhase::Waiting, Action::Broadcast(tx))) && tx@ == reclaim,
        },
        (RecoverPhase::Waiting, Reply::Done) => after == before && (next matches Ok(
            (RecoverPhase::Last, Action::Finish(told)),
        ) && told == Next::AwaitArkReclaimConfirmation),
        _ => after == before && next == Err::<(RecoverPhase, Action), SwapError>(SwapError::UnexpectedReply),
    }
}

/// Settles a state whose reclaim is confirmed.
fn settle_reclaim(state: &mut StoredBtcArkSwap, stable: bool)
    ensures
        final(state)@ == reclaimed(old(state)@, stable),
{
    if stable {
        state.status = SwapStatus::ArkReclaimed;
        assert(state@ =~= reclaimed(old(state)@, stable));
    }
}

/// Goes on after a confirmed reclaim was found.
fn found_reclaim(state: &mut StoredBtcArkSwap, txid: [u8; 32], stable: bool) -> (next: Result<
    (RecoverPhase, Action),
    SwapError,
>)
    ensures
        reclaim_found(old(state)@, txid, stable, final(state)@, next),
{
    match load_reclaim(state) {
        Ok(tx) => {
            if same_id(&txid, &tx.txid()) {
                settle_reclaim(state, stable);
                Ok((RecoverPhase::Reported { stable }, Action::StoreState))
            } else {
                Ok((RecoverPhase::Replaced { stable }, Action::FetchTx(txid)))
            }
        },
        Err(error) => Err(error),
    }
}

/// Goes on when the rate is known.
fn go_on(state: &StoredBtcArkSwap, target: u64) -> (next: Result<(RecoverPhase, Action), SwapError>)
    ensures
        recover_goes_on(state@, target, next),
{
    match &state.ark_exit_claim_tx_hex {
        None => Ok((RecoverPhase::Exits { target }, Action::ProgressExits { target })),
        Some(text) => match tx_from_hex(text.as_str()) {
            Ok(tx) => Ok((RecoverPhase::Recovery { target, at: 0 }, Action::Confirmed(tx.txid()))),
            Err(error) => Err(error),
        },
    }
}

/// Goes on when the fee of the stored reclaim is told.
fn reprice_reclaim(state: &StoredBtcArkSwap, target: u64, log: &Vec<ChainAnswer>) -> (next: Result<
    (RecoverPhase, Action),
    SwapError,
>)
    ensures
        recover_prices(state@, target, answer_views(log@), next),
{
    let frozen = match load_frozen(state) {
        Ok(ids) => ids,
        Err(error) => return Err(error),
    };
    let tx = match load_reclaim(state) {
        Ok(tx) => tx,
        Err(error) => return Err(error),
    };
    let old_fee: u64 = match transaction_fee(log, &tx, None) {
        Ok(fee) => fee,
        Err(CheckStep::Fail(error)) => return Err(error),
        Err(_) => return Err(SwapError::UnexpectedReply),
    };
    let value: u64 = match price_reclaim(&tx, old_fee, target) {
        Ok(Some(value)) => value,
        Ok(None) => return Ok((RecoverPhase::Rebroadcast, Action::Status(tx.txid()))),
        Err(error) => return Err(error),
    };
    let ids = match check_reclaim(&tx, &frozen) {
        Ok(ids) => ids,
        Err(error) => return Err(error),
    };
    let repriced = set_first_value(tx, value);
    let asked = repriced.clone();
    Ok((RecoverPhase::Sign { tx: repriced }, Action::SignReclaim { tx: asked, ids }))
}

/// Goes on when the reclaim is signed again.
fn store_reclaim(state: &mut StoredBtcArkSwap, tx: Transaction, witnesses: Vec<Vec<Vec<u8>>>) -> (next: Result<
    (RecoverPhase, Action),
    SwapError,
>)
    ensures
        recover_resigns(old(state)@, tx@, witness_views(witnesses@), final(state)@, next),
{
    assert(tx@.input.len() == tx.input@.len());
    assert(witness_views(witnesses@).len() == witnesses@.len());
    if witnesses.len() != tx.input.len() {
        return Err(SwapError::UnexpectedReply);
    }
    let previous = match load_reclaim(state) {
        Ok(previous) => previous.txid(),
        Err(error) => return Err(error),
    };
    let signed = set_witnesses(tx, witnesses);
    if !id_listed(&state.previous_ark_exit_claim_txids, &previous) {
        state.previous_ark_exit_claim_txids.push(previous);
    }
    state.ark_exit_claim_tx_hex = Some(signed.to_hex());
    assert(state@ =~= (StateView {
        ark_exit_claim_tx_hex: Some(hex_of_tx(signed@)),
        previous_ark_exit_claim_txids: with_id(old(state)@.previous_ark_exit_claim_txids, previous),
        ..old(state)@
    }));
    Ok((RecoverPhase::Stored, Action::StoreState))
}

/// One step of the flow that recovers frozen VTXOs on-chain.
#[verifier::rlimit(40)]
pub fn progress_ark_recovery(context: FlowContext, phase: RecoverPhase, reply: Reply, state: &mut StoredBtcArkSwap) -> (next:
    Result<(RecoverPhase, Action), SwapError>)
    ensures
        recover_next(context, phase, reply, old(state)@, final(state)@, next),
{
    match (phase, reply) {
        (RecoverPhase::Begin, Reply::Done) => match load_frozen(state) {
            Ok(_) => Ok((RecoverPhase::Synced, Action::SyncOnchain)),
            Err(error) => Err(error),
        },
        (RecoverPhase::Synced, Reply::Done) => Ok((RecoverPhase::Listed, Action::TrackedExits)),
        (RecoverPhase::Listed, Reply::Ids(known)) => match load_frozen(state) {
            Ok(frozen) => Ok((RecoverPhase::Started, Action::StartExits(choose_ids(&frozen, &known, false)))),
            Err(error) => Err(error),
        },
        (RecoverPhase::Started, Reply::Done) => match target_fee(context.fee_rate, &state.relay) {
            Ok(Target::Known(target)) => go_on(state, target),
            Ok(Target::Ask { floor }) => Ok((RecoverPhase::Fee, Action::FeeEstimate { floor })),
            Err(error) => Err(error),
        },
        (RecoverPhase::Fee, Reply::FastRate(fast)) => match estimated_fee(fast, &state.relay) {
            Ok(target) => go_on(state, target),
            Err(error) => Err(error),
        },
        (RecoverPhase::Recovery { target, at }, Reply::Confirmed(None)) => {
            if at < state.previous_ark_exit_claim_txids.len() {
                let txid = state.previous_ark_exit_claim_txids[at];
                return Ok((RecoverPhase::Recovery { target, at: at + 1 }, Action::Confirmed(txid)));
            }
            match load_reclaim(state) {
                Ok(tx) => Ok((RecoverPhase::OldFee { target }, Action::GatherFee { tx, parent: None })),
                Err(error) => Err(error),
            }
        },
        (RecoverPhase::Recovery { target: _, at }, Reply::Confirmed(Some(_))) => match load_reclaim(state) {
            Ok(tx) => {
                if at > state.previous_ark_exit_claim_txids.len() {
                    return Err(SwapError::UnexpectedReply);
                }
                let txid = if at == 0 {
                    tx.txid()
                } else {
                    state.previous_ark_exit_claim_txids[at - 1]
                };
                Ok((RecoverPhase::Depth { txid }, Action::Confirmed(txid)))
            },
            Err(error) => Err(error),
        },
        (RecoverPhase::Depth { txid }, Reply::Confirmed(None)) => found_reclaim(state, txid, false),
        (RecoverPhase::Depth { txid }, Reply::Confirmed(Some(height))) => Ok(
            (RecoverPhase::Deep { txid, height }, Action::Tip),
        ),
        (RecoverPhase::Deep { txid, height }, Reply::Tip(tip)) => {
            let stable = has_confirmations(tip, height, state.relay.request.minimum_funding_confirmations);
            found_reclaim(state, txid, stable)
        },
        (RecoverPhase::Replaced { stable: _ }, Reply::Tx(None)) => Err(SwapError::ReclaimDisappeared),
        (RecoverPhase::Replaced { stable }, Reply::Tx(Some(tx))) => {
            state.ark_exit_claim_tx_hex = Some(tx.to_hex());
            assert(state@ =~= (StateView { ark_exit_claim_tx_hex: Some(hex_of_tx(tx@)), ..old(state)@ }));
            settle_reclaim(state, stable);
            Ok((RecoverPhase::Reported { stable }, Action::StoreState))
        },
        (RecoverPhase::Reported { stable }, Reply::Done) => {
            let told = if stable {
                Next::Done
            } else {
                Next::AwaitArkReclaimConfirmation
            };
            Ok((RecoverPhase::Last, Action::Finish(told)))
        },
        (RecoverPhase::OldFee { target }, Reply::Log(log)) => reprice_reclaim(state, target, &log),
        (RecoverPhase::Rebroadcast, Reply::Status(TxStatus::NotFound)) => match load_reclaim(state) {
            Ok(tx) => Ok((RecoverPhase::Waiting, Action::Broadcast(tx))),
            Err(error) => Err(error),
        },
        (RecoverPhase::Rebroadcast, Reply::Status(_)) => Ok(
            (RecoverPhase::Last, Action::Finish(Next::AwaitArkReclaimConfirmation)),
        ),
        (RecoverPhase::Sign { tx }, Reply::Witnesses(witnesses)) => store_reclaim(state, tx, witnesses),
        (RecoverPhase::Exits { target }, Reply::Done) => Ok((RecoverPhase::Claimable { target }, Action::ClaimableExits)),
        (RecoverPhase::Claimable { target }, Reply::Ids(claimable)) => match load_frozen(state) {
            Ok(frozen) => {
                let ids = choose_ids(&claimable, &frozen, true);
                if ids.len() != frozen.len() {
                    return Ok((RecoverPhase::Last, Action::Finish(Next::AwaitArkExit)));
                }
                Ok((RecoverPhase::Drain { target, ids }, Action::NewScript))
            },
            Err(error) => Err(error),
        },
        (RecoverPhase::Drain { target, ids }, Reply::Script(script)) => Ok(
            (RecoverPhase::Drained, Action::DrainExits { ids, script, target }),
        ),
        (RecoverPhase::Drained, Reply::Transaction(tx)) => {
            state.ark_exit_claim_tx_hex = Some(tx.to_hex());
            assert(state@ =~= (StateView { ark_exit_claim_tx_hex: Some(hex_of_tx(tx@)), ..old(state)@ }));
            Ok((RecoverPhase::Stored, Action::StoreState))
        },
        (RecoverPhase::Stored, Reply::Done) => match load_reclaim(state) {
            Ok(tx) => Ok((RecoverPhase::Waiting, Action::Broadcast(tx))),
            Err(error) => Err(error),
        },
        (RecoverPhase::Waiting, Reply::Done) => Ok(
            (RecoverPhase::Last, Action::Finish(Next::AwaitArkReclaimConfirmation)),
        ),
        _ => Err(SwapError::UnexpectedReply),
    }
}

/// The recovery touches only what is frozen: exits are started and drained, and reclaims signed
/// again, for frozen VTXOs only; the frozen set itself never changes.
pub proof fn law_recovery_keeps_to_the_frozen_set(
    context: FlowContext,
    phase: RecoverPhase,
    reply: Reply,
    before: StateView,
    after: StateView,
    next: Result<(RecoverPhase, Action), SwapError>,
)
    requires
        recover_next(context, phase, reply, before, after, next),
    ensures
        after.ark_recovery_input_ids == before.ark_recovery_input_ids,
        after.relay == before.relay,
        next matches Ok((_, Action::SignReclaim { tx, ids })) ==> (frozen_ids(before) matches Ok(frozen) && ids@.len()
            == frozen.len() && ids@ == spent_ids(tx@) && forall|i: int|
            0 <= i < ids@.len() ==> frozen.contains(#[trigger] ids@[i])),
        next matches Ok((RecoverPhase::Drain { ids, .. }, _)) ==> (frozen_ids(before) matches Ok(frozen) && ids@.len()
            == frozen.len() && forall|i: int| 0 <= i < ids@.len() ==> frozen.contains(#[trigger] ids@[i])),
{
    match (phase, reply) {
        (RecoverPhase::Claimable { .. }, Reply::Ids(claimable)) => {
            if frozen_ids(before) is Ok {
                lemma_chosen(claimable@, frozen_ids(before)->Ok_0, true);
            }
        },
        (RecoverPhase::OldFee { .. }, Reply::Log(_)) => {
            if next is Ok && stored_reclaim(before) is Ok {
                let tx = stored_reclaim(before)->Ok_0;
                if next->Ok_0.1 is SignReclaim {
                    let asked = next->Ok_0.1->SignReclaim_tx@;
                    assert(spent_ids(asked) =~= spent_ids(tx));
                }
            }
        },
        _ => {},
    }
}

/// What is broadcast is the stored reclaim, a changed state is stored before anything else, and no
/// reclaim that was ever signed is forgotten.
pub proof fn law_reclaim_is_stored_before_broadcast(
    context: FlowContext,
    phase: RecoverPhase,
    reply: Reply,
    before: StateView,
    after: StateView,
    next: Result<(RecoverPhase, Action), SwapError>,
)
    requires
        recover_next(context, phase, reply, before, after, next),
    ensures
        after != before ==> next matches Ok((_, Action::StoreState)),
        next matches Ok((_, Action::Broadcast(tx))) ==> stored_reclaim(before) == Ok::<TransactionView, SwapError>(tx@),
        next matches Ok((_, action)) ==> !(action is BroadcastPackage),
        after.status != before.status ==> after.status == SwapStatus::ArkReclaimed,
        phase is Sign && after != before ==> (stored_reclaim(before) matches Ok(previous)
            && after.previous_ark_exit_claim_txids.contains(txid_of(previous))),
        forall|id: [u8; 32]|
            before.previous_ark_exit_claim_txids.contains(id)
                ==> #[trigger] after.previous_ark_exit_claim_txids.contains(id),
{
    if phase is Sign && next is Ok {
        lemma_with_id(before.previous_ark_exit_claim_txids, txid_of(stored_reclaim(before)->Ok_0));
    }
}

/// The Ark is reclaimed only where the reclaim, or one that it replaced, is confirmed as deep as the
/// request demands: being broadcast settles nothing.
pub proof fn law_reclaimed_only_at_depth(
    context: FlowContext,
    phase: RecoverPhase,
    reply: Reply,
    before: StateView,
    after: StateView,
    next: Result<(RecoverPhase, Action), SwapError>,
)
    requires
        recover_next(context, phase, reply, before, after, next),
    ensures
        after.status == SwapStatus::ArkReclaimed && before.status != SwapStatus::ArkReclaimed ==> match phase {
            RecoverPhase::Deep { height, .. } => reply matches Reply::Tip(tip) && deep_enough(
                tip,
                height,
                before.relay.request.minimum_funding_confirmations,
            ),
            RecoverPhase::Replaced { stable } => stable,
            _ => false,
        },
        next matches Ok((RecoverPhase::Replaced { stable }, _)) && stable ==> (phase matches RecoverPhase::Deep { height, .. }
            && (reply matches Reply::Tip(tip) && deep_enough(
            tip,
            height,
            before.relay.request.minimum_funding_confirmations,
        ))),
        next matches Ok((RecoverPhase::Deep { txid, height }, _)) ==> (phase matches RecoverPhase::Depth { txid: asked } && asked
            == txid && reply == Reply::Confirmed(Some(height))),
        next matches Ok((RecoverPhase::Depth { txid }, action)) ==> action == Action::Confirmed(txid),
{
}

/// An abort freezes all Ark inputs of the swap, and starts the exit of each; it goes on exactly where no
/// claim was signed or is visible. A swap that was reclaimed is left alone.
pub proof fn law_abort_frees_every_input(
    phase: AbortPhase,
    reply: Reply,
    before: StateView,
    after: StateView,
    next: Result<(AbortPhase, Action), SwapError>,
)
    requires
        abort_next(phase, reply, before, after, next),
        accepted_ids(before) is Ok,
    ensures
        ({
            let ids = accepted_ids(before)->Ok_0;
            let freezes = {
                &&& after == (StateView {
                    status: SwapStatus::Cancelled,
                    ark_recovery_input_ids: after.ark_recovery_input_ids,
                    ..before
                })
                &&& after.ark_recovery_input_ids.len() == ids.len()
                &&& forall|i: int|
                    0 <= i < ids.len() ==> #[trigger] after.ark_recovery_input_ids[i] == vtxo_id_text(ids[i])
                &&& next matches Ok((AbortPhase::Stored { ids: kept }, Action::StoreState)) && kept@ == ids
            };
            &&& phase is Begin && reply is Done ==> if before.signed_claim_tx_hex is Some || before.status
                == SwapStatus::BtcClaimed {
                after == before && next is Err
            } else if before.status == SwapStatus::ArkReclaimed {
                after == before && (next matches Ok((_, Action::End)))
            } else {
                match before.relay.claim_request {
                    None => freezes,
                    Some(request) => tx_of_hex(request.claim_tx_hex) matches Some(claim) ==> after == before && (
                    next matches Ok((AbortPhase::Fetched, Action::FetchTx(txid))) && txid == txid_of(claim)),
                }
            }
            &&& phase is Fetched ==> match reply {
                Reply::Tx(None) => freezes,
                _ => after == before && next is Err,
            }
            &&& phase matches AbortPhase::Stored { ids: kept } ==> (reply is Done ==> (next matches Ok(
                (AbortPhase::Last, Action::StartExits(started)),
            ) && started@ == kept@))
        }),
{
}

/// The exits that are gone through, as they were told or as a phase keeps them.
pub open spec fn open_requests(phase: ExitsPhase, reply: Reply) -> Seq<ExitRequest> {
    match (phase, reply) {
        (ExitsPhase::Advanced, Reply::ExitRequests(told)) => told@,
        (ExitsPhase::Provided { requests, .. }, _) => requests@,
        _ => Seq::empty(),
    }
}

/// An exit that no package pays for yet gets a child at the rate; one that a package pays for gets a
/// better one exactly where the rate is above the rate that this package has to beat. Every exit is
/// gone through, in turn, and gets the child that was made for it.
pub proof fn law_exits_are_paid_at_the_rate(
    target: u64,
    phase: ExitsPhase,
    reply: Reply,
    next: Result<(ExitsPhase, Action), SwapError>,
)
    requires
        exits_next(target, phase, reply, next),
        phase is Advanced || phase is Provided || phase is Child || phase is ChildStored,
        next is Ok,
    ensures
        ({
            let requests = open_requests(phase, reply);
            let from = match phase {
                ExitsPhase::Provided { at, .. } => at as int,
                _ => 0,
            };
            &&& phase is Advanced || phase is Provided ==> match next {
                Ok((ExitsPhase::Child { requests: kept, at }, Action::MakeChild { parent, fees })) => {
                    &&& from <= at < requests.len() && exit_request_views(kept@) == exit_request_views(requests)
                    &&& parent@ == requests[at as int].exit_tx@
                    &&& match requests[at as int].rbf {
                        None => fees == CpfpFees::Effective(target),
                        Some((rate, fee)) => rate < target && fees == (CpfpFees::Rbf {
                            min_effective_fee_rate: target,
                            current_package_fee: fee,
                        }),
                    }
                    &&& forall|i: int|
                        from <= i < at ==> ((#[trigger] requests[i]).rbf matches Some((rate, _)) && target <= rate)
                },
                Ok((ExitsPhase::Last, Action::End)) => forall|i: int|
                    from <= i < requests.len() ==> ((#[trigger] requests[i]).rbf matches Some((rate, _)) && target <= rate),
                _ => false,
            }
            &&& phase matches ExitsPhase::Child { requests, at } ==> (reply matches Reply::Child(child) && next matches Ok(
                (ExitsPhase::ChildStored { requests: kept, at: then_at, child: kept_child }, Action::StoreChild(stored)),
            ) && exit_request_views(kept@) == exit_request_views(requests@) && then_at == at && kept_child@ == child@
                && stored@ == child@)
            &&& phase matches ExitsPhase::ChildStored { requests, at, child } ==> (next matches Ok(
                (ExitsPhase::Provided { requests: kept, at: then_at }, Action::ProvideChild { exit_txid, child: given }),
            ) && exit_request_views(kept@) == exit_request_views(requests@) && then_at == at + 1 && exit_txid == txid_of(
                requests@[at as int].exit_tx@,
            ) && given@ == child@)
        }),
{
    if phase is Advanced || phase is Provided {
        let requests = open_requests(phase, reply);
        let from = match phase {
            ExitsPhase::Provided { at, .. } => at as int,
            _ => 0,
        };
        let views = exit_request_views(requests);
        law_every_exit_is_paid(views, target, from as nat);
        lemma_unpaid_is_unpaid(views, target, from as nat);
        assert forall|i: int| 0 <= i < requests.len() implies #[trigger] requests[i].rbf == views[i].rbf by {}
    }
}

/// The exit that is found needs a child.
proof fn lemma_unpaid_is_unpaid(requests: Seq<ExitRequestView>, target: u64, at: nat)
    ensures
        first_unpaid(requests, target, at) matches Some(found) ==> exit_fees_of(requests[found as int].rbf, target) is Some,
    decreases requests.len() - at,
{
    if at < requests.len() && exit_fees_of(requests[at as int].rbf, target) is None {
        lemma_unpaid_is_unpaid(requests, target, at + 1);
    }
}

/// What is chosen of a list is what is in the other list, or what is not, in its order.
proof fn lemma_chosen_in_order(ids: Seq<VtxoId>, list: Seq<VtxoId>, inside: bool)
    ensures
        chosen(ids, list, inside) == ids.filter(|id: VtxoId| list.contains(id) == inside),
        forall|i: int|
            0 <= i < ids.len() && list.contains(#[trigger] ids[i]) == inside ==> chosen(ids, list, inside).contains(ids[i]),
        forall|id: VtxoId| #[trigger]
            chosen(ids, list, inside).contains(id) ==> ids.contains(id) && list.contains(id) == inside,
    decreases ids.len(),
{
    reveal(Seq::filter);
    let all = chosen(ids, list, inside);
    if ids.len() > 0 {
        let front = ids.drop_last();
        let rest = chosen(front, list, inside);
        lemma_chosen_in_order(front, list, inside);
        assert forall|i: int| 0 <= i < ids.len() && list.contains(#[trigger] ids[i]) == inside implies all.contains(
            ids[i],
        ) by {
            if i < front.len() {
                assert(front[i] == ids[i]);
                let k = choose|k: int| 0 <= k < rest.len() && rest[k] == ids[i];
                assert(all[k] == ids[i]);
            } else {
                assert(all[rest.len() as int] == ids[i]);
            }
        }
        assert forall|id: VtxoId| #[trigger] all.contains(id) implies ids.contains(id) && list.contains(id) == inside by {
            let k = choose|k: int| 0 <= k < all.len() && all[k] == id;
            if k < rest.len() {
                assert(rest[k] == id);
                assert(rest.contains(id));
                let i = choose|i: int| 0 <= i < front.len() && front[i] == id;
                assert(ids[i] == id);
            } else {
                assert(ids[ids.len() - 1] == id);
            }
        }
    }
}

/// Recovery starts the exit of every frozen VTXO whose exit is not known yet, and claims the exits only
/// together: as soon as as many of them can be claimed as are frozen, to one script, at the rate.
pub proof fn law_recovery_exits_the_frozen_set(
    context: FlowContext,
    phase: RecoverPhase,
    reply: Reply,
    before: StateView,
    after: StateView,
    next: Result<(RecoverPhase, Action), SwapError>,
)
    requires
        recover_next(context, phase, reply, before, after, next),
        ids_of_texts(before.ark_recovery_input_ids) is Some,
        before.ark_recovery_input_ids.len() > 0,
    ensures
        ({
            let frozen = ids_of_texts(before.ark_recovery_input_ids)->0;
            &&& phase is Begin && reply is Done ==> (next matches Ok((RecoverPhase::Synced, Action::SyncOnchain)))
            &&& phase is Synced && reply is Done ==> (next matches Ok((RecoverPhase::Listed, Action::TrackedExits)))
            &&& phase is Listed ==> (reply matches Reply::Ids(known) ==> (next matches Ok(
                (RecoverPhase::Started, Action::StartExits(missing)),
            ) && missing@ == frozen.filter(|id: VtxoId| known@.contains(id) == false) && (forall|i: int|
                0 <= i < frozen.len() && !known@.contains(#[trigger] frozen[i]) ==> missing@.contains(frozen[i])) && (forall|
                i: int,
            |
                0 <= i < missing@.len() ==> frozen.contains(#[trigger] missing@[i]) && !known@.contains(missing@[i]))))
            &&& phase matches RecoverPhase::Exits { target } ==> (reply is Done ==> (next matches Ok(
                (RecoverPhase::Claimable { target: kept }, Action::ClaimableExits),
            ) && kept == target))
            &&& phase matches RecoverPhase::Claimable { target } ==> (reply matches Reply::Ids(claimable) ==> {
                let ours = claimable@.filter(|id: VtxoId| frozen.contains(id) == true);
                if ours.len() == frozen.len() {
                    next matches Ok((RecoverPhase::Drain { target: kept, ids }, Action::NewScript)) && kept == target && ids@
                        == ours
                } else {
                    next matches Ok((_, Action::Finish(Next::AwaitArkExit)))
                }
            })
            &&& phase matches RecoverPhase::Drain { target, ids } ==> (reply matches Reply::Script(script) ==> (
            next matches Ok((RecoverPhase::Drained, Action::DrainExits { ids: drained, script: paid, target: asked }))
                && drained@ == ids@ && paid@ == script@ && asked == target))
            &&& phase is Drained ==> (reply matches Reply::Transaction(tx) ==> after == (StateView {
                ark_exit_claim_tx_hex: Some(hex_of_tx(tx@)),
                ..before
            }) && (next matches Ok((RecoverPhase::Stored, Action::StoreState))))
            &&& phase is Stored && reply is Done ==> (before.ark_exit_claim_tx_hex matches Some(text) ==> (tx_of_hex(
                text,
            ) matches Some(reclaim) ==> (next matches Ok((RecoverPhase::Waiting, Action::Broadcast(tx))) && tx@
                == reclaim)))
            &&& phase is Waiting && reply is Done ==> (next matches Ok(
                (_, Action::Finish(Next::AwaitArkReclaimConfirmation)),
            ))
        }),
{
    let frozen = ids_of_texts(before.ark_recovery_input_ids)->0;
    assert(frozen_ids(before) == Ok::<Seq<VtxoId>, SwapError>(frozen));
    if phase is Listed && reply is Ids {
        let known = reply->Ids_0@;
        lemma_chosen_in_order(frozen, known, false);
        let missing = chosen(frozen, known, false);
        assert forall|i: int| 0 <= i < missing.len() implies frozen.contains(#[trigger] missing[i]) && !known.contains(
            missing[i],
        ) by {
            assert(missing.contains(missing[i]));
        }
    }
    if phase is Claimable && reply is Ids {
        lemma_chosen_in_order(reply->Ids_0@, frozen, true);
    }
}

/// The recovery pays at 250 times the override, or else at the estimate where that is above 250 times
/// the rate of the request; it looks for the stored claim of the exits first, then for every one that
/// this replaced, in turn, and progresses the exits where there is none yet.
pub proof fn law_recovery_goes_on_at_the_rate(
    context: FlowContext,
    phase: RecoverPhase,
    reply: Reply,
    before: StateView,
    after: StateView,
    next: Result<(RecoverPhase, Action), SwapError>,
)
    requires
        recover_next(context, phase, reply, before, after, next),
        context.fee_rate matches Some(rate) ==> 0 < rate <= u32::MAX,
        0 < before.relay.request.fee_rate_sat_vb <= u32::MAX,
        before.ark_exit_claim_tx_hex matches Some(text) ==> tx_of_hex(text) is Some,
    ensures
        ({
            let floor = 250 * before.relay.request.fee_rate_sat_vb;
            let previous = before.previous_ark_exit_claim_txids;
            &&& phase is Started && reply is Done && context.fee_rate is None ==> (next matches Ok(
                (RecoverPhase::Fee, Action::FeeEstimate { floor: asked }),
            ) && asked == floor)
            &&& (phase is Started && reply is Done && context.fee_rate is Some) || (phase is Fee && reply is FastRate) ==> {
                let rate = match (context.fee_rate, reply) {
                    (_, Reply::FastRate(fast)) => if fast > floor {
                        fast as int
                    } else {
                        floor
                    },
                    (Some(rate), _) => 250 * rate,
                    _ => 0,
                };
                match before.ark_exit_claim_tx_hex {
                    None => next matches Ok(
                        (RecoverPhase::Exits { target: kept }, Action::ProgressExits { target }),
                    ) && kept == rate && target == rate,
                    Some(text) => next matches Ok((RecoverPhase::Recovery { target, at }, Action::Confirmed(txid)))
                        && target == rate && at == 0 && txid == txid_of(tx_of_hex(text)->0),
                }
            }
            &&& phase matches RecoverPhase::Recovery { target, at } ==> (before.ark_exit_claim_tx_hex matches Some(text)
                ==> match reply {
                Reply::Confirmed(None) => if at < previous.len() {
                    next matches Ok((RecoverPhase::Recovery { target: kept, at: then_at }, Action::Confirmed(txid)))
                        && kept == target && then_at == at + 1 && txid == previous[at as int]
                } else {
                    next matches Ok((RecoverPhase::OldFee { target: kept }, Action::GatherFee { tx, parent })) && kept
                        == target && tx@ == tx_of_hex(text)->0 && parent is None
                },
                Reply::Confirmed(Some(_)) => at <= previous.len() ==> (next matches Ok(
                    (RecoverPhase::Depth { txid }, Action::Confirmed(asked)),
                ) && asked == txid && txid == (if at == 0 {
                    txid_of(tx_of_hex(text)->0)
                } else {
                    previous[at - 1]
                })),
                _ => next is Err,
            })
        }),
{
}

/// The Ark is reclaimed exactly where the claim of its exits has the confirmations of the request: its
/// own block and those up to the tip are as many. An earlier one that was found is stored in place of
/// the current one, and what is told follows.
pub proof fn law_reclaimed_exactly_at_depth(
    context: FlowContext,
    phase: RecoverPhase,
    reply: Reply,
    before: StateView,
    after: StateView,
    next: Result<(RecoverPhase, Action), SwapError>,
)
    requires
        recover_next(context, phase, reply, before, after, next),
        before.status != SwapStatus::ArkReclaimed,
        stored_reclaim(before) is Ok,
    ensures
        phase matches RecoverPhase::Deep { txid, height } ==> (reply matches Reply::Tip(tip) ==> {
            let deep = height <= tip && before.relay.request.minimum_funding_confirmations <= tip - height + 1;
            if txid == txid_of(stored_reclaim(before)->Ok_0) {
                &&& after == (StateView { status: after.status, ..before })
                &&& after.status == (if deep {
                    SwapStatus::ArkReclaimed
                } else {
                    before.status
                })
                &&& next matches Ok((RecoverPhase::Reported { stable }, Action::StoreState)) && stable == deep
            } else {
                &&& after == before
                &&& next matches Ok((RecoverPhase::Replaced { stable }, Action::FetchTx(asked))) && stable == deep && asked
                    == txid
            }
        }),
        phase matches RecoverPhase::Depth { txid } ==> match reply {
            Reply::Confirmed(Some(height)) => after == before && (next matches Ok(
                (RecoverPhase::Deep { txid: kept, height: told }, Action::Tip),
            ) && kept == txid && told == height),
            _ => after == before && (next matches Ok((RecoverPhase::Replaced { stable }, _)) ==> !stable) && (
            next matches Ok((RecoverPhase::Reported { stable }, _)) ==> !stable),
        },
        phase matches RecoverPhase::Replaced { stable } ==> match reply {
            Reply::Tx(Some(tx)) => {
                &&& after == (StateView {
                    ark_exit_claim_tx_hex: Some(hex_of_tx(tx@)),
                    status: after.status,
                    ..before
                })
                &&& after.status == (if stable {
                    SwapStatus::ArkReclaimed
                } else {
                    before.status
                })
                &&& next matches Ok((RecoverPhase::Reported { stable: kept }, Action::StoreState)) && kept == stable
            },
            _ => after == before && next is Err,
        },
        phase matches RecoverPhase::Reported { stable } ==> (reply is Done ==> (next matches Ok(
            (_, Action::Finish(told)),
        ) && told == (if stable {
            Next::Done
        } else {
            Next::AwaitArkReclaimConfirmation
        }))),
        after.status != before.status ==> after.status == SwapStatus::ArkReclaimed && (phase is Deep || phase is Replaced),
{
}

/// The claim of exits is left as it is exactly where it pays the rate already; one that is replaced pays
/// exactly the rate, or one satoshi per virtual byte more than before where that is more, out of its
/// only output. It is replaced wherever that output can pay this and stays above the dust.
pub proof fn law_reclaim_is_repriced_exactly_where_needed(tx: TransactionView, old_fee: u64, target: u64)
    requires
        target * weight_of(tx) + 999 <= u64::MAX,
    ensures
        ({
            let wanted = (target * weight_of(tx) + 999) / 1000;
            let least = old_fee + (250 * weight_of(tx) + 999) / 1000;
            let fee = if wanted > least {
                wanted
            } else {
                least
            };
            let price = reclaim_price(tx, old_fee, target);
            &&& price == Ok::<Option<u64>, SwapError>(None) <==> wanted <= old_fee
            &&& price matches Ok(Some(value)) ==> wanted > old_fee && tx.output.len() == 1 && value + fee
                == tx.output[0].value + old_fee
            &&& wanted > old_fee && 250 * weight_of(tx) + 999 <= u64::MAX && least <= u64::MAX && tx.output.len() == 1
                && tx.output[0].value + old_fee - fee >= minimal_non_dust(tx.output[0].script_pubkey) && tx.output[0].value
                + old_fee >= fee ==> price == Ok::<Option<u64>, SwapError>(
                Some((tx.output[0].value + old_fee - fee) as u64),
            )
        }),
{
}

/// A claim of exits that pays the rate is broadcast again only where the chain does not know it. One that
/// pays too little is signed anew with the new value, for exactly what it spends, where that is all of
/// the frozen set; with its witnesses it is stored, and the one that it replaces is remembered.
pub proof fn law_repriced_reclaim_is_signed_and_stored(
    context: FlowContext,
    phase: RecoverPhase,
    reply: Reply,
    before: StateView,
    after: StateView,
    next: Result<(RecoverPhase, Action), SwapError>,
)
    requires
        recover_next(context, phase, reply, before, after, next),
        stored_reclaim(before) is Ok,
        frozen_ids(before) is Ok,
    ensures
        ({
            let reclaim = stored_reclaim(before)->Ok_0;
            let frozen = frozen_ids(before)->Ok_0;
            &&& phase matches RecoverPhase::OldFee { target } ==> (reply matches Reply::Log(log) ==> (fee_told(
                answer_views(log@),
                reclaim,
                None,
            ) matches Ok(old_fee) ==> (target * weight_of(reclaim) + 999 <= u64::MAX ==> {
                let wanted = (target * weight_of(reclaim) + 999) / 1000;
                let whole = reclaim.input.len() == frozen.len() && forall|i: int|
                    0 <= i < reclaim.input.len() ==> frozen.contains(
                        VtxoId { point: (#[trigger] reclaim.input[i]).previous_output },
                    );
                &&& wanted <= old_fee ==> (next matches Ok((RecoverPhase::Rebroadcast, Action::Status(txid))) && txid
                    == txid_of(reclaim))
                &&& wanted > old_fee ==> (next matches Ok((to, action)) ==> whole && (to matches RecoverPhase::Sign { tx }
                    && action matches Action::SignReclaim { tx: asked, ids } && asked@ == tx@ && {
                    &&& tx@.input == reclaim.input && tx@.output.len() == 1 && tx@.lock_time == reclaim.lock_time
                    &&& tx@.output[0].script_pubkey == reclaim.output[0].script_pubkey
                    &&& old_fee + reclaim.output[0].value - tx@.output[0].value >= wanted
                    &&& ids@.len() == reclaim.input.len()
                    &&& forall|i: int|
                        0 <= i < ids@.len() ==> (#[trigger] ids@[i]).point == reclaim.input[i].previous_output
                }))
                &&& wanted > old_fee && !whole ==> next is Err
            })))
            &&& phase is Rebroadcast ==> match reply {
                Reply::Status(TxStatus::NotFound) => next matches Ok((RecoverPhase::Waiting, Action::Broadcast(tx))) && tx@
                    == reclaim,
                Reply::Status(_) => next matches Ok((_, Action::Finish(Next::AwaitArkReclaimConfirmation))),
                _ => next is Err,
            }
            &&& phase matches RecoverPhase::Sign { tx } ==> (reply matches Reply::Witnesses(witnesses) ==> (
            witnesses@.len() == tx@.input.len() ==> (next matches Ok((RecoverPhase::Stored, Action::StoreState)))
                && after.previous_ark_exit_claim_txids.contains(txid_of(reclaim)) && exists|signed: TransactionView|
                #![trigger hex_of_tx(signed)]
                {
                    &&& after.ark_exit_claim_tx_hex == Some(hex_of_tx(signed))
                    &&& signed.output == tx@.output && signed.lock_time == tx@.lock_time && signed.version == tx@.version
                    &&& signed.input.len() == tx@.input.len()
                    &&& forall|i: int|
                        0 <= i < tx@.input.len() ==> (#[trigger] signed.input[i]).previous_output
                            == tx@.input[i].previous_output && signed.input[i].witness == byte_views(witnesses@[i]@)
                }))
        }),
{
    let reclaim = stored_reclaim(before)->Ok_0;
    let frozen = frozen_ids(before)->Ok_0;
    if phase is OldFee && reply is Log && reclaim_refusal(reclaim, frozen) is None {
        assert forall|i: int| 0 <= i < reclaim.input.len() implies frozen.contains(
            VtxoId { point: (#[trigger] reclaim.input[i]).previous_output },
        ) by {
            assert(spent_ids(reclaim)[i] == VtxoId { point: reclaim.input[i].previous_output });
        }
    }
    if phase is OldFee && reply is Log && reclaim_refusal(reclaim, frozen) == Some(SwapError::ReclaimForeignInput) {
        let i = choose|i: int| 0 <= i < reclaim.input.len() && !frozen.contains(#[trigger] spent_ids(reclaim)[i]);
        assert(!frozen.contains(VtxoId { point: reclaim.input[i].previous_output }));
    }
    if phase is Sign && reply is Witnesses {
        lemma_with_id(before.previous_ark_exit_claim_txids, txid_of(reclaim));
        let tx = phase->Sign_tx@;
        let witnesses = witness_views(reply->Witnesses_0@);
        if witnesses.len() == tx.input.len() {
            let signed = with_witnesses(tx, witnesses);
            assert(after.ark_exit_claim_tx_hex == Some(hex_of_tx(signed)));
        }
    }
}

/// A claim of exits that pays too little is signed anew wherever it spends all of the frozen set and its output
/// can pay what is missing.
pub proof fn law_underpaid_reclaim_is_replaced(
    context: FlowContext,
    target: u64,
    log: Vec<ChainAnswer>,
    before: StateView,
    after: StateView,
    next: Result<(RecoverPhase, Action), SwapError>,
    old_fee: u64,
)
    requires
        recover_next(context, RecoverPhase::OldFee { target }, Reply::Log(log), before, after, next),
        stored_reclaim(before) is Ok,
        frozen_ids(before) is Ok,
        fee_told(answer_views(log@), stored_reclaim(before)->Ok_0, None) == Ok::<u64, CheckStep>(old_fee),
        ({
            let reclaim = stored_reclaim(before)->Ok_0;
            let frozen = frozen_ids(before)->Ok_0;
            &&& reclaim_price(reclaim, old_fee, target) matches Ok(Some(_))
            &&& reclaim.input.len() == frozen.len()
            &&& forall|i: int|
                0 <= i < reclaim.input.len() ==> frozen.contains(
                    VtxoId { point: (#[trigger] reclaim.input[i]).previous_output },
                )
        }),
    ensures
        ({
            let reclaim = stored_reclaim(before)->Ok_0;
            next matches Ok((RecoverPhase::Sign { tx }, Action::SignReclaim { .. })) && Some(tx@.output[0].value)
                == reclaim_price(reclaim, old_fee, target)->Ok_0
        }),
{
    let reclaim = stored_reclaim(before)->Ok_0;
    let frozen = frozen_ids(before)->Ok_0;
    assert forall|i: int| 0 <= i < reclaim.input.len() implies frozen.contains(#[trigger] spent_ids(reclaim)[i]) by {
        assert(spent_ids(reclaim)[i] == VtxoId { point: reclaim.input[i].previous_output });
    }
    assert(reclaim_refusal(reclaim, frozen) is None);
}

/// The flow of the abort takes no reply but one to what it asked for, and a step that fails changes nothing.
pub proof fn law_abort_takes_its_replies_alone(
    phase: AbortPhase,
    reply: Reply,
    before: StateView,
    after: StateView,
    next: Result<(AbortPhase, Action), SwapError>,
)
    requires
        abort_next(phase, reply, before, after, next),
    ensures
        next is Ok ==> match phase {
            AbortPhase::Begin | AbortPhase::Stored { .. } | AbortPhase::Last => reply is Done,
            AbortPhase::Fetched => reply is Tx,
        },
        next is Err ==> after == before,
{
}

/// The flow of the exits takes no reply but one to what it asked for.
pub proof fn law_exits_takes_its_replies_alone(
    target: u64,
    phase: ExitsPhase,
    reply: Reply,
    next: Result<(ExitsPhase, Action), SwapError>,
)
    requires
        exits_next(target, phase, reply, next),
    ensures
        next is Ok ==> match phase {
            ExitsPhase::Begin | ExitsPhase::ChildStored { .. } | ExitsPhase::Provided { .. }
            | ExitsPhase::Last => reply is Done,
            ExitsPhase::Advanced => reply is ExitRequests,
            ExitsPhase::Child { .. } => reply is Child,
        },
{
}

/// The flow of the recovery takes no reply but one to what it asked for, and a step that fails changes nothing.
pub proof fn law_recovery_takes_its_replies_alone(
    context: FlowContext,
    phase: RecoverPhase,
    reply: Reply,
    before: StateView,
    after: StateView,
    next: Result<(RecoverPhase, Action), SwapError>,
)
    requires
        recover_next(context, phase, reply, before, after, next),
    ensures
        next is Ok ==> match phase {
            RecoverPhase::Begin | RecoverPhase::Synced | RecoverPhase::Started | RecoverPhase::Reported { .. }
            | RecoverPhase::Exits { .. } | RecoverPhase::Stored | RecoverPhase::Waiting => reply is Done,
            RecoverPhase::Listed | RecoverPhase::Claimable { .. } => reply is Ids,
            RecoverPhase::Fee => reply is FastRate,
            RecoverPhase::Recovery { .. } | RecoverPhase::Depth { .. } => reply is Confirmed,
            RecoverPhase::Deep { .. } => reply is Tip,
            RecoverPhase::Replaced { .. } => reply is Tx,
            RecoverPhase::OldFee { .. } => reply is Log,
            RecoverPhase::Rebroadcast => reply is Status,
            RecoverPhase::Sign { .. } => reply is Witnesses,
            RecoverPhase::Drain { .. } => reply is Script,
            RecoverPhase::Drained => reply is Transaction,
            _ => false,
        },
        next is Err ==> after == before,
{
}

/// The recovery goes on only with what it can read: the frozen set, the claim of the exits that is stored, its fee,
/// and a price that its output can pay.
pub proof fn law_recovery_goes_on_with_what_it_reads(
    context: FlowContext,
    phase: RecoverPhase,
    reply: Reply,
    before: StateView,
    after: StateView,
    next: Result<(RecoverPhase, Action), SwapError>,
)
    requires
        recover_next(context, phase, reply, before, after, next),
        next is Ok,
    ensures
        phase is Listed || phase is Claimable || phase is OldFee ==> frozen_ids(before) is Ok,
        phase is OldFee || phase is Sign || phase is Stored || (phase is Recovery && !(reply == Reply::Confirmed(None)))
            ==> stored_reclaim(before) is Ok,
        phase matches RecoverPhase::OldFee { target } ==> {
            let told = fee_told(answer_views(reply->Log_0@), stored_reclaim(before)->Ok_0, None);
            told is Ok && reclaim_price(stored_reclaim(before)->Ok_0, told->Ok_0, target) is Ok
        },
        phase matches RecoverPhase::Sign { tx } ==> reply->Witnesses_0@.len() == tx@.input.len(),
        phase is Fee ==> 0 < before.relay.request.fee_rate_sat_vb <= 0xffff_ffff,
        phase is Replaced ==> !(reply == Reply::Tx(None)),
{
}

} // verus!
