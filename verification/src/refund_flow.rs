//! Refunding the BTC: from the refund height on, and while no claim is visible, the BTC payer
//! takes the lock back alone, and raises the fee of the refund until it is confirmed.

use vstd::prelude::*;

use crate::address::Network;
use crate::chain::{tip_at, AnswerView, BlockRef, TxStatus};
use crate::claim_flow::state_window;
use crate::error::SwapError;
use crate::fee::{checked_fee, fee_at};
use crate::flow::{
    deep_enough, estimate_of, estimated_fee, has_confirmations, target_fee, target_of, Action, FlowContext, Reply,
    SubFlow, Target,
};
use crate::keys::SecretKey;
use crate::lock::{BtcLockContract, LockView};
use crate::refund::{refund_witness, sign_refund_tx, signs_refund, with_first_witness};
use crate::response::{funding_template, law_response_claims_the_lock, response_of, template_of, verify_response};
use crate::role::SwapStatus;
use crate::script::{is_standard, standard};
use crate::state::{StateView, StoredBtcArkSwap};
use crate::tx::{
    hex_of_tx, id_listed, output_views, same_id, stripped, sum_outputs, total_value, tx_from_hex, tx_of_hex, txid_of,
    weight_of, OutPoint, Transaction, TransactionView, TxInView, TxOut, TxOutView,
};

verus! {

/// The rate of one satoshi per virtual byte, by which a replacement has to pay more.
pub const INCREMENT: u64 = 250;

/// The transaction that is looked for at a place: the current one first, then the earlier ones.
pub open spec fn recovery_txid(current: [u8; 32], previous: Seq<[u8; 32]>, at: nat) -> [u8; 32] {
    if at == 0 {
        current
    } else {
        previous[at - 1]
    }
}

/// The signed refund that is stored, or why there is none.
pub open spec fn stored_refund(state: StateView) -> Result<TransactionView, SwapError> {
    match state.signed_refund_tx_hex {
        None => Err(SwapError::RefundMissing),
        Some(text) => match tx_of_hex(text) {
            None => Err(SwapError::InvalidTransaction),
            Some(tx) => Ok(tx),
        },
    }
}

/// The signed refund that is stored.
fn load_refund(state: &StoredBtcArkSwap) -> (refund: Result<Transaction, SwapError>)
    ensures
        match refund {
            Ok(found) => stored_refund(state@) == Ok::<TransactionView, SwapError>(found@),
            Err(error) => stored_refund(state@) == Err::<TransactionView, SwapError>(error),
        },
{
    match &state.signed_refund_tx_hex {
        Some(text) => tx_from_hex(text.as_str()),
        None => Err(SwapError::RefundMissing),
    }
}

/// The fee that the refund has to pay at a target: alone where the funding is confirmed, else with
/// the funding, less what the funding pays itself.
pub open spec fn needed_fee(target: u64, confirmed: bool, funding_weight: nat, refund_weight: nat, parent_fee: u64) -> int {
    if confirmed {
        fee_at(target as int, refund_weight as int)
    } else {
        let fee = fee_at(target as int, (funding_weight + refund_weight) as int);
        if fee > parent_fee {
            fee - parent_fee
        } else {
            0
        }
    }
}

/// Whether the fees of a refund at a target can be computed within 64 bits.
pub open spec fn fees_fit(target: u64, confirmed: bool, funding_weight: nat, refund_weight: nat) -> bool {
    if confirmed {
        target * refund_weight + 999 <= u64::MAX
    } else {
        funding_weight + refund_weight <= u64::MAX && target * (funding_weight + refund_weight) + 999 <= u64::MAX
    }
}

/// The fee of the refund that replaces one which pays too little.
pub open spec fn replacement_fee(needed: int, old_fee: int, refund_weight: nat) -> int {
    let least = old_fee + fee_at(INCREMENT as int, refund_weight as int);
    if needed > least {
        needed
    } else {
        least
    }
}

/// What the refund pays out after it was repriced, nothing where it need not be, or why it cannot
/// be.
pub open spec fn refund_price(
    lock: LockView,
    funding: TransactionView,
    prevouts: Seq<TxOutView>,
    refund: TransactionView,
    target: u64,
    confirmed: bool,
) -> Result<Option<u64>, SwapError> {
    let parent_fee = total_value(prevouts) - total_value(funding.output);
    let old_fee = lock.amount - total_value(refund.output);
    let (parent_weight, weight) = (weight_of(funding), weight_of(refund));
    let needed = needed_fee(target, confirmed, parent_weight, weight, parent_fee as u64);
    let fee = replacement_fee(needed, old_fee, weight);
    if total_value(prevouts) > u64::MAX || total_value(funding.output) > u64::MAX {
        Err(SwapError::AmountOverflow)
    } else if parent_fee < 0 {
        Err(SwapError::InvalidFundingFee)
    } else if total_value(refund.output) > u64::MAX {
        Err(SwapError::AmountOverflow)
    } else if old_fee < 0 {
        Err(SwapError::InvalidRefundFee)
    } else if !fees_fit(target, confirmed, parent_weight, weight) {
        Err(SwapError::FeeOverflow)
    } else if needed <= old_fee {
        Ok(None)
    } else if INCREMENT * weight + 999 > u64::MAX || old_fee + fee_at(INCREMENT as int, weight as int) > u64::MAX {
        Err(SwapError::FeeOverflow)
    } else if fee > lock.amount {
        Err(SwapError::RefundFeeExceedsAmount)
    } else if refund.output.len() == 0 {
        Err(SwapError::RefundOutputMissing)
    } else if !standard(TxOutView { value: (lock.amount - fee) as u64, ..refund.output[0] }) {
        Err(SwapError::RefundOutputNonStandard)
    } else {
        Ok(Some((lock.amount - fee) as u64))
    }
}

/// A refund that is repriced pays what is needed, and at least one satoshi per virtual byte more
/// than before.
pub proof fn law_repriced_refund_pays_enough(
    lock: LockView,
    funding: TransactionView,
    prevouts: Seq<TxOutView>,
    refund: TransactionView,
    target: u64,
    confirmed: bool,
)
    requires
        refund_price(lock, funding, prevouts, refund, target, confirmed) matches Ok(Some(_)),
    ensures
        ({
            let value = refund_price(lock, funding, prevouts, refund, target, confirmed)->Ok_0->0;
            let old_fee = lock.amount - total_value(refund.output);
            let new_fee = lock.amount - value;
            let parent_fee = (total_value(prevouts) - total_value(funding.output)) as u64;
            &&& 0 <= old_fee < new_fee <= lock.amount
            &&& new_fee >= old_fee + fee_at(INCREMENT as int, weight_of(refund) as int)
            &&& new_fee >= needed_fee(target, confirmed, weight_of(funding), weight_of(refund), parent_fee)
            &&& standard(TxOutView { value, ..refund.output[0] })
        }),
{
    assert(fee_at(INCREMENT as int, weight_of(refund) as int) >= 0);
}

/// What the refund pays out after it was repriced, nothing where it need not be.
fn price_refund(
    lock: &BtcLockContract,
    funding: &Transaction,
    prevouts: &Vec<TxOut>,
    refund: &Transaction,
    target: u64,
    confirmed: bool,
) -> (value: Result<Option<u64>, SwapError>)
    ensures
        value == refund_price(lock@, funding@, output_views(prevouts@), refund@, target, confirmed),
{
    let incoming: u64 = match sum_outputs(prevouts) {
        Ok(sum) => sum,
        Err(error) => return Err(error),
    };
    let outgoing: u64 = match sum_outputs(&funding.output) {
        Ok(sum) => sum,
        Err(error) => return Err(error),
    };
    let parent_fee: u64 = match incoming.checked_sub(outgoing) {
        Some(fee) => fee,
        None => return Err(SwapError::InvalidFundingFee),
    };
    let paid_out: u64 = match sum_outputs(&refund.output) {
        Ok(sum) => sum,
        Err(error) => return Err(error),
    };
    let old_fee: u64 = match lock.amount.checked_sub(paid_out) {
        Some(fee) => fee,
        None => return Err(SwapError::InvalidRefundFee),
    };
    let weight: u64 = refund.weight_units();
    let units: u64 = if confirmed {
        weight
    } else {
        match funding.weight_units().checked_add(weight) {
            Some(units) => units,
            None => return Err(SwapError::FeeOverflow),
        }
    };
    let fee: u64 = match checked_fee(target, units) {
        Some(fee) => fee,
        None => return Err(SwapError::FeeOverflow),
    };
    let needed: u64 = if confirmed {
        fee
    } else {
        fee.saturating_sub(parent_fee)
    };
    if needed <= old_fee {
        return Ok(None);
    }
    let least: u64 = match checked_fee(INCREMENT, weight) {
        Some(increment) => match old_fee.checked_add(increment) {
            Some(least) => least,
            None => return Err(SwapError::FeeOverflow),
        },
        None => return Err(SwapError::FeeOverflow),
    };
    let replacement: u64 = if needed > least {
        needed
    } else {
        least
    };
    let value: u64 = match lock.amount.checked_sub(replacement) {
        Some(value) => value,
        None => return Err(SwapError::RefundFeeExceedsAmount),
    };
    assert(refund@.output.len() == refund.output@.len());
    if refund.output.len() == 0 {
        return Err(SwapError::RefundOutputMissing);
    }
    assert(refund@.output[0] == refund.output[0]@);
    let output = TxOut { value, script_pubkey: refund.output[0].script_pubkey.clone() };
    assert(output@ =~= (TxOutView { value, ..refund@.output[0] }));
    if is_standard(&output) {
        Ok(Some(value))
    } else {
        Err(SwapError::RefundOutputNonStandard)
    }
}

/// A transaction whose first output is worth another value.
pub open spec fn with_first_value(tx: TransactionView, value: u64) -> TransactionView {
    TransactionView { output: tx.output.update(0, TxOutView { value, ..tx.output[0] }), ..tx }
}

/// Gives the first output another value.
pub fn set_first_value(tx: Transaction, value: u64) -> (changed: Transaction)
    requires
        tx@.output.len() > 0,
    ensures
        changed@ == with_first_value(tx@, value),
{
    let ghost before = tx@;
    let mut changed = tx;
    let first = TxOut { value, script_pubkey: changed.output[0].script_pubkey.clone() };
    assert(first@ =~= (TxOutView { value, ..before.output[0] })) by {
        assert(before.output[0] == tx.output[0]@);
    }
    changed.output.set(0, first);
    assert(changed@.output =~= with_first_value(before, value).output);
    changed
}

/// Whether some spends tell of another transaction that spends an input of the funding and is deep
/// enough at a tip.
pub open spec fn conflicts(
    spends: Seq<(OutPoint, [u8; 32], TxStatus)>,
    funding: [u8; 32],
    tip: u32,
    required: u32,
) -> bool {
    exists|i: int| 0 <= i < spends.len() && #[trigger] conflicting(spends[i], funding, tip, required)
}

/// Whether a spend is by another transaction that is deep enough at a tip.
pub open spec fn conflicting(spend: (OutPoint, [u8; 32], TxStatus), funding: [u8; 32], tip: u32, required: u32) -> bool {
    spend.1 != funding && (spend.2 matches TxStatus::Confirmed(block) && (if tip > block.height {
        tip - block.height + 1
    } else {
        1
    }) >= required)
}

/// Whether some spends tell of a deep conflict with the funding.
fn has_conflict(spends: &Vec<(OutPoint, [u8; 32], TxStatus)>, funding: [u8; 32], tip: u32, required: u32) -> (found: bool)
    ensures
        found == conflicts(spends@, funding, tip, required),
{
    let mut i: usize = 0;
    while i < spends.len()
        invariant
            i <= spends.len(),
            forall|k: int| 0 <= k < i ==> !#[trigger] conflicting(spends@[k], funding, tip, required),
        decreases spends.len() - i,
    {
        let other = !same_id(&spends[i].1, &funding);
        let deep = match spends[i].2 {
            TxStatus::Confirmed(block) => tip.saturating_sub(block.height).saturating_add(1) >= required,
            _ => false,
        };
        if other && deep {
            assert(conflicting(spends@[i as int], funding, tip, required));
            return true;
        }
        i += 1;
    }
    false
}

/// The outputs that a transaction spends.
pub open spec fn spent_points(tx: TransactionView) -> Seq<OutPoint> {
    tx.input.map_values(|input: TxInView| input.previous_output)
}

/// The outputs that a transaction spends.
fn list_spent(tx: &Transaction) -> (points: Vec<OutPoint>)
    ensures
        points@ == spent_points(tx@),
{
    let mut points: Vec<OutPoint> = Vec::new();
    let mut i: usize = 0;
    while i < tx.input.len()
        invariant
            i <= tx.input.len(),
            points.len() == i,
            forall|k: int| 0 <= k < i ==> #[trigger] points[k] == tx@.input[k].previous_output,
        decreases tx.input.len() - i,
    {
        assert(tx@.input[i as int] == tx.input[i as int]@);
        points.push(tx.input[i].previous_output);
        i += 1;
    }
    assert(points@ =~= spent_points(tx@));
    points
}

/// The height from which conflicts are looked for: a margin before the last tip that was scanned,
/// or before the request, but not behind the tip.
pub open spec fn scan_from(state: StateView, tip: u32) -> u32 {
    let base = match state.funding_conflict_scan_tip {
        Some(last) => last.height,
        None => state.relay.request.created_height,
    };
    let margin = state.relay.request.safety_margin_blocks;
    let from = if base > margin {
        (base - margin) as u32
    } else {
        0
    };
    if from < tip {
        from
    } else {
        tip
    }
}

/// Where the refund flow is.
pub enum RefundPhase {
    Begin,
    Observed,
    Mature,
    Recovery { at: usize },
    Depth { txid: [u8; 32] },
    Deep { txid: [u8; 32], height: u32 },
    Replaced { stable: bool },
    Funding,
    ScanTip,
    Scan { tip: BlockRef },
    Scanned,
    Fee { status: TxStatus },
    Resign { status: TxStatus, value: u64 },
    Repriced { status: TxStatus },
    Last,
}

/// What follows a confirmed refund: it is stored where it is an earlier one, and the swap is
/// refunded where it is deep enough.
pub open spec fn refund_found(
    state: StateView,
    txid: [u8; 32],
    stable: bool,
    after: StateView,
    next: Result<(RefundPhase, Action), SwapError>,
) -> bool {
    match stored_refund(state) {
        Err(error) => after == state && next == Err::<(RefundPhase, Action), SwapError>(error),
        Ok(refund) => if txid != txid_of(refund) {
            after == state && (next matches Ok((RefundPhase::Replaced { stable: kept }, Action::FetchTx(asked))) && kept
                == stable && asked == txid)
        } else {
            after == settled(state, stable) && next matches Ok((RefundPhase::Last, Action::StoreState))
        },
    }
}

/// A state whose refund is confirmed, and deep enough or not.
pub open spec fn settled(state: StateView, stable: bool) -> StateView {
    if stable {
        StateView { status: SwapStatus::Refunded, ..state }
    } else {
        state
    }
}

/// How the stored refund is broadcast: alone where its parent is there, else with it.
pub open spec fn refund_broadcasts(
    network: Network,
    state: StateView,
    status: TxStatus,
    next: Result<(RefundPhase, Action), SwapError>,
) -> bool {
    match response_of(network, state.relay) {
        Err(error) => next == Err::<(RefundPhase, Action), SwapError>(error),
        Ok(response) => match stored_refund(state) {
            Err(error) => next == Err::<(RefundPhase, Action), SwapError>(error),
            Ok(refund) => if status is NotFound {
                next matches Ok((RefundPhase::Last, Action::BroadcastPackage(parent, child))) && parent@
                    == response.funding && child@ == refund
            } else {
                next matches Ok((RefundPhase::Last, Action::Broadcast(tx))) && tx@ == refund
            },
        },
    }
}

/// What follows when the rate is known: the refund is repriced, or broadcast as it is.
pub open spec fn refund_prices(
    network: Network,
    state: StateView,
    status: TxStatus,
    target: u64,
    next: Result<(RefundPhase, Action), SwapError>,
) -> bool {
    match response_of(network, state.relay) {
        Err(error) => next == Err::<(RefundPhase, Action), SwapError>(error),
        Ok(response) => match template_of(state.relay.request) {
            Err(error) => next == Err::<(RefundPhase, Action), SwapError>(error),
            Ok((_, prevouts)) => match stored_refund(state) {
                Err(error) => next == Err::<(RefundPhase, Action), SwapError>(error),
                Ok(refund) => match refund_price(
                    response.lock,
                    response.funding,
                    prevouts,
                    refund,
                    target,
                    status is Confirmed,
                ) {
                    Err(error) => next == Err::<(RefundPhase, Action), SwapError>(error),
                    Ok(None) => refund_broadcasts(network, state, status, next),
                    Ok(Some(paid)) => next matches Ok(
                        (RefundPhase::Resign { status: kept, value }, Action::Key(index)),
                    ) && kept == status && value == paid && index == state.claim_key_index,
                },
            },
        },
    }
}

/// What follows when it is known where the funding is: the rate is told.
pub open spec fn refund_asks_fee(
    context: FlowContext,
    state: StateView,
    status: TxStatus,
    next: Result<(RefundPhase, Action), SwapError>,
) -> bool {
    match target_of(context.fee_rate, state.relay.request) {
        Err(error) => next == Err::<(RefundPhase, Action), SwapError>(error),
        Ok(Target::Known(rate)) => refund_prices(context.network, state, status, rate, next),
        Ok(Target::Ask { floor }) => next matches Ok(
            (RefundPhase::Fee { status: kept }, Action::FeeEstimate { floor: asked }),
        ) && kept == status && asked == floor,
    }
}

/// The transactions that were replaced, with one more.
pub open spec fn with_id(ids: Seq<[u8; 32]>, id: [u8; 32]) -> Seq<[u8; 32]> {
    if ids.contains(id) {
        ids
    } else {
        ids.push(id)
    }
}

/// With one more, the identifiers hold it and all that they held.
pub(crate) proof fn lemma_with_id(ids: Seq<[u8; 32]>, id: [u8; 32])
    ensures
        with_id(ids, id).contains(id),
        forall|other: [u8; 32]| ids.contains(other) ==> #[trigger] with_id(ids, id).contains(other),
{
    assert(with_id(ids, id).contains(id)) by {
        if !ids.contains(id) {
            assert(ids.push(id)[ids.len() as int] == id);
        }
    }
    assert forall|other: [u8; 32]| ids.contains(other) implies #[trigger] with_id(ids, id).contains(other) by {
        let k = choose|k: int| 0 <= k < ids.len() && ids[k] == other;
        assert(ids.push(id)[k] == other);
    }
}

/// What follows when the key is there: the refund is signed at its new price, and stored before it
/// is broadcast.
pub open spec fn refund_resigns(
    network: Network,
    before: StateView,
    status: TxStatus,
    value: u64,
    secret: Seq<u8>,
    after: StateView,
    next: Result<(RefundPhase, Action), SwapError>,
) -> bool {
    match response_of(network, before.relay) {
        Err(error) => after == before && next == Err::<(RefundPhase, Action), SwapError>(error),
        Ok(response) => match stored_refund(before) {
            Err(error) => after == before && next == Err::<(RefundPhase, Action), SwapError>(error),
            Ok(refund) => if refund.output.len() == 0 {
                after == before && next == Err::<(RefundPhase, Action), SwapError>(SwapError::RefundOutputMissing)
            } else {
                let unsigned = with_first_value(refund, value);
                match next {
                    Ok((phase, action)) => {
                        &&& phase matches RefundPhase::Repriced { status: kept } && kept == status
                        &&& action is StoreState
                        &&& refund.input.len() == 1
                        &&& exists|signature: Seq<u8>|
                            #![trigger signs_refund(signature, unsigned, response.lock, secret)]
                            signs_refund(signature, unsigned, response.lock, secret) && after == (StateView {
                                signed_refund_tx_hex: Some(
                                    hex_of_tx(with_first_witness(unsigned, refund_witness(signature, response.lock))),
                                ),
                                previous_refund_txids: with_id(before.previous_refund_txids, txid_of(refund)),
                                ..before
                            })
                    },
                    Err(error) => after == before && error == SwapError::SighashFailed && refund.input.len() != 1,
                }
            },
        },
    }
}

/// What the refund flow does next.
pub open spec fn refund_next(
    context: FlowContext,
    phase: RefundPhase,
    reply: Reply,
    before: StateView,
    after: StateView,
    next: Result<(RefundPhase, Action), SwapError>,
) -> bool {
    match (phase, reply) {
        (RefundPhase::Begin, Reply::Done) => after == before && (if before.status == SwapStatus::ArkCompleted
            || before.status == SwapStatus::ArkRecovering || before.status == SwapStatus::ArkReclaimed {
            next == Err::<(RefundPhase, Action), SwapError>(SwapError::ArkAlreadyReceived)
        } else {
            next matches Ok((RefundPhase::Observed, Action::Run(SubFlow::ObserveClaim)))
        }),
        (RefundPhase::Observed, Reply::Answer(found)) => after == before && (if found {
            next == Err::<(RefundPhase, Action), SwapError>(SwapError::ClaimVisible)
        } else {
            match response_of(context.network, before.relay) {
                Err(error) => next == Err::<(RefundPhase, Action), SwapError>(error),
                Ok(_) => next matches Ok((RefundPhase::Mature, Action::Tip)),
            }
        }),
        (RefundPhase::Mature, Reply::Tip(tip)) => after == before && match response_of(context.network, before.relay) {
            Err(error) => next == Err::<(RefundPhase, Action), SwapError>(error),
            Ok(response) => if tip < response.lock.refund_height {
                next == Err::<(RefundPhase, Action), SwapError>(SwapError::RefundImmature)
            } else {
                match stored_refund(before) {
                    Err(error) => next == Err::<(RefundPhase, Action), SwapError>(error),
                    Ok(refund) => next matches Ok((RefundPhase::Recovery { at }, Action::Confirmed(txid))) && at == 0
                        && txid == txid_of(refund),
                }
            },
        },
        (RefundPhase::Recovery { at }, Reply::Confirmed(None)) => after == before && (if at
            < before.previous_refund_txids.len() {
            next matches Ok((RefundPhase::Recovery { at: then_at }, Action::Confirmed(txid))) && then_at == at + 1 && txid
                == before.previous_refund_txids[at as int]
        } else {
            match response_of(context.network, before.relay) {
                Err(error) => next == Err::<(RefundPhase, Action), SwapError>(error),
                Ok(response) => next matches Ok((RefundPhase::Funding, Action::Status(txid))) && txid == txid_of(
                    response.funding,
                ),
            }
        }),
        (RefundPhase::Recovery { at }, Reply::Confirmed(Some(_))) => after == before && match stored_refund(before) {
            Err(error) => next == Err::<(RefundPhase, Action), SwapError>(error),
            Ok(refund) => if at > before.previous_refund_txids.len() {
                next == Err::<(RefundPhase, Action), SwapError>(SwapError::UnexpectedReply)
            } else {
                next matches Ok((RefundPhase::Depth { txid }, Action::Confirmed(asked))) && asked == txid && txid
                    == recovery_txid(txid_of(refund), before.previous_refund_txids, at as nat)
            },
        },
        (RefundPhase::Depth { txid }, Reply::Confirmed(None)) => refund_found(before, txid, false, after, next),
        (RefundPhase::Depth { txid }, Reply::Confirmed(Some(height))) => after == before && (next matches Ok(
            (RefundPhase::Deep { txid: kept, height: told }, Action::Tip),
        ) && kept == txid && told == height),
        (RefundPhase::Deep { txid, height }, Reply::Tip(tip)) => refund_found(
            before,
            txid,
            deep_enough(tip, height, before.relay.request.minimum_funding_confirmations),
            after,
            next,
        ),
        (RefundPhase::Replaced { stable: _ }, Reply::Tx(None)) => after == before && next == Err::<
            (RefundPhase, Action),
            SwapError,
        >(SwapError::RefundDisappeared),
        (RefundPhase::Replaced { stable }, Reply::Tx(Some(tx))) => {
            &&& after == settled(StateView { signed_refund_tx_hex: Some(hex_of_tx(tx@)), ..before }, stable)
            &&& next matches Ok((RefundPhase::Last, Action::StoreState))
        },
        (RefundPhase::Funding, Reply::Status(status)) => after == before && (if status is NotFound {
            next matches Ok((RefundPhase::ScanTip, Action::TipRef))
        } else {
            refund_asks_fee(context, before, status, next)
        }),
        (RefundPhase::ScanTip, Reply::TipRef(tip)) => after == before && (if before.funding_conflict_scan_tip == Some(
            tip,
        ) {
            refund_asks_fee(context, before, TxStatus::NotFound, next)
        } else {
            match response_of(context.network, before.relay) {
                Err(error) => next == Err::<(RefundPhase, Action), SwapError>(error),
                Ok(response) => next matches Ok(
                    (RefundPhase::Scan { tip: kept }, Action::Spends { points, from_height }),
                ) && kept == tip && points@ == spent_points(response.funding) && from_height == scan_from(
                    before,
                    tip.height,
                ),
            }
        }),
        (RefundPhase::Scan { tip }, Reply::Spends(spends)) => match response_of(context.network, before.relay) {
            Err(error) => after == before && next == Err::<(RefundPhase, Action), SwapError>(error),
            Ok(response) => {
                &&& after == (StateView {
                    status: if conflicts(
                        spends@,
                        txid_of(response.funding),
                        tip.height,
                        before.relay.request.minimum_funding_confirmations,
                    ) {
                        SwapStatus::Cancelled
                    } else {
                        before.status
                    },
                    funding_conflict_scan_tip: Some(tip),
                    ..before
                })
                &&& next matches Ok((RefundPhase::Scanned, Action::StoreState))
            },
        },
        (RefundPhase::Scanned, Reply::Done) => after == before && (if before.status == SwapStatus::Cancelled {
            next matches Ok((RefundPhase::Last, Action::End))
        } else {
            refund_asks_fee(context, before, TxStatus::NotFound, next)
        }),
        (RefundPhase::Fee { status }, Reply::FastRate(fast)) => after == before && match estimate_of(
            fast,
            before.relay.request,
        ) {
            Err(error) => next == Err::<(RefundPhase, Action), SwapError>(error),
            Ok(rate) => refund_prices(context.network, before, status, rate, next),
        },
        (RefundPhase::Resign { status, value }, Reply::Key(secret)) => refund_resigns(
            context.network,
            before,
            status,
            value,
            secret@,
            after,
            next,
        ),
        (RefundPhase::Repriced { status }, Reply::Done) => after == before && refund_broadcasts(
            context.network,
            before,
            status,
            next,
        ),
        (RefundPhase::Last, Reply::Done) => after == before && next matches Ok((RefundPhase::Last, Action::End)),
        _ => after == before && next == Err::<(RefundPhase, Action), SwapError>(SwapError::UnexpectedReply),
    }
}

/// Settles a state whose refund is confirmed.
fn settle(state: &mut StoredBtcArkSwap, stable: bool)
    ensures
        final(state)@ == settled(old(state)@, stable),
{
    if stable {
        state.status = SwapStatus::Refunded;
        assert(state@ =~= settled(old(state)@, stable));
    }
}

/// Goes on after a confirmed refund was found.
fn found_refund(state: &mut StoredBtcArkSwap, txid: [u8; 32], stable: bool) -> (next: Result<
    (RefundPhase, Action),
    SwapError,
>)
    ensures
        refund_found(old(state)@, txid, stable, final(state)@, next),
{
    match load_refund(state) {
        Ok(refund) => {
            if same_id(&txid, &refund.txid()) {
                settle(state, stable);
                Ok((RefundPhase::Last, Action::StoreState))
            } else {
                Ok((RefundPhase::Replaced { stable }, Action::FetchTx(txid)))
            }
        },
        Err(error) => Err(error),
    }
}

/// Broadcasts the stored refund.
fn broadcast_refund(network: Network, state: &StoredBtcArkSwap, status: TxStatus) -> (next: Result<
    (RefundPhase, Action),
    SwapError,
>)
    ensures
        refund_broadcasts(network, state@, status, next),
{
    let funding = match verify_response(network, &state.relay) {
        Ok((_, funding, _)) => funding,
        Err(error) => return Err(error),
    };
    let refund = match load_refund(state) {
        Ok(refund) => refund,
        Err(error) => return Err(error),
    };
    match status {
        TxStatus::NotFound => Ok((RefundPhase::Last, Action::BroadcastPackage(funding, refund))),
        _ => Ok((RefundPhase::Last, Action::Broadcast(refund))),
    }
}

/// Goes on when the rate is known.
fn reprice_refund(network: Network, state: &StoredBtcArkSwap, status: TxStatus, target: u64) -> (next: Result<
    (RefundPhase, Action),
    SwapError,
>)
    ensures
        refund_prices(network, state@, status, target, next),
{
    let (lock, funding, _) = match verify_response(network, &state.relay) {
        Ok(response) => response,
        Err(error) => return Err(error),
    };
    let prevouts = match funding_template(&state.relay.request) {
        Ok((_, prevouts)) => prevouts,
        Err(error) => return Err(error),
    };
    let refund = match load_refund(state) {
        Ok(refund) => refund,
        Err(error) => return Err(error),
    };
    let confirmed = matches!(status, TxStatus::Confirmed(_));
    match price_refund(&lock, &funding, &prevouts, &refund, target, confirmed) {
        Ok(Some(value)) => Ok((RefundPhase::Resign { status, value }, Action::Key(state.claim_key_index))),
        Ok(None) => broadcast_refund(network, state, status),
        Err(error) => Err(error),
    }
}

/// Goes on when it is known where the funding is.
fn ask_refund_fee(context: FlowContext, state: &StoredBtcArkSwap, status: TxStatus) -> (next: Result<
    (RefundPhase, Action),
    SwapError,
>)
    ensures
        refund_asks_fee(context, state@, status, next),
{
    match target_fee(context.fee_rate, &state.relay) {
        Ok(Target::Known(target)) => reprice_refund(context.network, state, status, target),
        Ok(Target::Ask { floor }) => Ok((RefundPhase::Fee { status }, Action::FeeEstimate { floor })),
        Err(error) => Err(error),
    }
}

/// Goes on when the key is there.
fn resign_refund(
    network: Network,
    state: &mut StoredBtcArkSwap,
    status: TxStatus,
    value: u64,
    secret: &SecretKey,
) -> (next: Result<(RefundPhase, Action), SwapError>)
    ensures
        refund_resigns(network, old(state)@, status, value, secret@, final(state)@, next),
{
    let lock = match verify_response(network, &state.relay) {
        Ok((lock, _, _)) => lock,
        Err(error) => return Err(error),
    };
    let refund = match load_refund(state) {
        Ok(refund) => refund,
        Err(error) => return Err(error),
    };
    assert(refund@.output.len() == refund.output@.len());
    if refund.output.len() == 0 {
        return Err(SwapError::RefundOutputMissing);
    }
    let previous = refund.txid();
    let unsigned = set_first_value(refund, value);
    match sign_refund_tx(unsigned, &lock, secret) {
        Ok(signed) => {
            if !id_listed(&state.previous_refund_txids, &previous) {
                state.previous_refund_txids.push(previous);
            }
            state.signed_refund_tx_hex = Some(signed.to_hex());
            proof {
                let signature = choose|signature: Seq<u8>|
                    #![trigger signs_refund(signature, unsigned@, lock@, secret@)]
                    signs_refund(signature, unsigned@, lock@, secret@) && signed@ == with_first_witness(
                        unsigned@,
                        refund_witness(signature, lock@),
                    );
                assert(signs_refund(signature, unsigned@, lock@, secret@));
                assert(state@ =~= (StateView {
                    signed_refund_tx_hex: Some(
                        hex_of_tx(with_first_witness(unsigned@, refund_witness(signature, lock@))),
                    ),
                    previous_refund_txids: with_id(old(state)@.previous_refund_txids, previous),
                    ..old(state)@
                }));
            }
            Ok((RefundPhase::Repriced { status }, Action::StoreState))
        },
        Err(error) => Err(error),
    }
}

/// Goes on when the tip is known: the refund has to be mature.
fn look_for_refund(network: Network, state: &StoredBtcArkSwap, tip: u32) -> (next: Result<
    (RefundPhase, Action),
    SwapError,
>)
    ensures
        refund_next(
            FlowContext { network, fee_rate: None },
            RefundPhase::Mature,
            Reply::Tip(tip),
            state@,
            state@,
            next,
        ),
{
    match verify_response(network, &state.relay) {
        Ok((lock, _, _)) => {
            if !lock.refund_is_mature(tip) {
                return Err(SwapError::RefundImmature);
            }
            match load_refund(state) {
                Ok(refund) => Ok((RefundPhase::Recovery { at: 0 }, Action::Confirmed(refund.txid()))),
                Err(error) => Err(error),
            }
        },
        Err(error) => Err(error),
    }
}

/// Whether two optional blocks are the same.
fn is_scanned(last: Option<BlockRef>, tip: BlockRef) -> (same: bool)
    ensures
        same == (last == Some(tip)),
{
    match last {
        Some(block) => block.same(&tip),
        None => false,
    }
}

/// The height from which conflicts are looked for.
fn scan_start(state: &StoredBtcArkSwap, tip: u32) -> (from: u32)
    ensures
        from == scan_from(state@, tip),
{
    let base: u32 = match state.funding_conflict_scan_tip {
        Some(last) => last.height,
        None => state.relay.request.created_height,
    };
    let from: u32 = base.saturating_sub(state.relay.request.safety_margin_blocks);
    if from < tip {
        from
    } else {
        tip
    }
}

/// One step of the flow in which the BTC payer takes the lock back.
#[verifier::rlimit(40)]
pub fn refund_btc(context: FlowContext, phase: RefundPhase, reply: Reply, state: &mut StoredBtcArkSwap) -> (next: Result<
    (RefundPhase, Action),
    SwapError,
>)
    ensures
        refund_next(context, phase, reply, old(state)@, final(state)@, next),
{
    assert(state@.previous_refund_txids.len() == state.previous_refund_txids@.len());
    match (phase, reply) {
        (RefundPhase::Begin, Reply::Done) => {
            if matches!(
                state.status,
                SwapStatus::ArkCompleted | SwapStatus::ArkRecovering | SwapStatus::ArkReclaimed
            ) {
                Err(SwapError::ArkAlreadyReceived)
            } else {
                Ok((RefundPhase::Observed, Action::Run(SubFlow::ObserveClaim)))
            }
        },
        (RefundPhase::Observed, Reply::Answer(true)) => Err(SwapError::ClaimVisible),
        (RefundPhase::Observed, Reply::Answer(false)) => match verify_response(context.network, &state.relay) {
            Ok(_) => Ok((RefundPhase::Mature, Action::Tip)),
            Err(error) => Err(error),
        },
        (RefundPhase::Mature, Reply::Tip(tip)) => look_for_refund(context.network, state, tip),
        (RefundPhase::Recovery { at }, Reply::Confirmed(None)) => {
            if at < state.previous_refund_txids.len() {
                let txid = state.previous_refund_txids[at];
                return Ok((RefundPhase::Recovery { at: at + 1 }, Action::Confirmed(txid)));
            }
            match verify_response(context.network, &state.relay) {
                Ok((_, funding, _)) => Ok((RefundPhase::Funding, Action::Status(funding.txid()))),
                Err(error) => Err(error),
            }
        },
        (RefundPhase::Recovery { at }, Reply::Confirmed(Some(_))) => match load_refund(state) {
            Ok(refund) => {
                if at > state.previous_refund_txids.len() {
                    return Err(SwapError::UnexpectedReply);
                }
                let txid = if at == 0 {
                    refund.txid()
                } else {
                    state.previous_refund_txids[at - 1]
                };
                Ok((RefundPhase::Depth { txid }, Action::Confirmed(txid)))
            },
            Err(error) => Err(error),
        },
        (RefundPhase::Depth { txid }, Reply::Confirmed(None)) => found_refund(state, txid, false),
        (RefundPhase::Depth { txid }, Reply::Confirmed(Some(height))) => Ok(
            (RefundPhase::Deep { txid, height }, Action::Tip),
        ),
        (RefundPhase::Deep { txid, height }, Reply::Tip(tip)) => {
            let stable = has_confirmations(tip, height, state.relay.request.minimum_funding_confirmations);
            found_refund(state, txid, stable)
        },
        (RefundPhase::Replaced { stable: _ }, Reply::Tx(None)) => Err(SwapError::RefundDisappeared),
        (RefundPhase::Replaced { stable }, Reply::Tx(Some(tx))) => {
            state.signed_refund_tx_hex = Some(tx.to_hex());
            assert(state@ =~= (StateView { signed_refund_tx_hex: Some(hex_of_tx(tx@)), ..old(state)@ }));
            settle(state, stable);
            Ok((RefundPhase::Last, Action::StoreState))
        },
        (RefundPhase::Funding, Reply::Status(status)) => match status {
            TxStatus::NotFound => Ok((RefundPhase::ScanTip, Action::TipRef)),
            _ => ask_refund_fee(context, state, status),
        },
        (RefundPhase::ScanTip, Reply::TipRef(tip)) => {
            if is_scanned(state.funding_conflict_scan_tip, tip) {
                return ask_refund_fee(context, state, TxStatus::NotFound);
            }
            match verify_response(context.network, &state.relay) {
                Ok((_, funding, _)) => Ok(
                    (
                        RefundPhase::Scan { tip },
                        Action::Spends { points: list_spent(&funding), from_height: scan_start(state, tip.height) },
                    ),
                ),
                Err(error) => Err(error),
            }
        },
        (RefundPhase::Scan { tip }, Reply::Spends(spends)) => match verify_response(context.network, &state.relay) {
            Ok((_, funding, _)) => {
                if has_conflict(
                    &spends,
                    funding.txid(),
                    tip.height,
                    state.relay.request.minimum_funding_confirmations,
                ) {
                    state.status = SwapStatus::Cancelled;
                }
                state.funding_conflict_scan_tip = Some(tip);
                assert(state@ =~= (StateView {
                    status: state.status,
                    funding_conflict_scan_tip: Some(tip),
                    ..old(state)@
                }));
                Ok((RefundPhase::Scanned, Action::StoreState))
            },
            Err(error) => Err(error),
        },
        (RefundPhase::Scanned, Reply::Done) => {
            if matches!(state.status, SwapStatus::Cancelled) {
                Ok((RefundPhase::Last, Action::End))
            } else {
                ask_refund_fee(context, state, TxStatus::NotFound)
            }
        },
        (RefundPhase::Fee { status }, Reply::FastRate(fast)) => match estimated_fee(fast, &state.relay) {
            Ok(target) => reprice_refund(context.network, state, status, target),
            Err(error) => Err(error),
        },
        (RefundPhase::Resign { status, value }, Reply::Key(secret)) => resign_refund(
            context.network,
            state,
            status,
            value,
            &secret,
        ),
        (RefundPhase::Repriced { status }, Reply::Done) => broadcast_refund(context.network, state, status),
        (RefundPhase::Last, Reply::Done) => Ok((RefundPhase::Last, Action::End)),
        _ => Err(SwapError::UnexpectedReply),
    }
}

/// Raising the fee never moves the refund height: the flow keeps the relay file, and a refund that
/// is repriced spends the same inputs at the same lock time to the same script.
pub proof fn law_repricing_keeps_the_refund_height(
    context: FlowContext,
    phase: RefundPhase,
    reply: Reply,
    before: StateView,
    after: StateView,
    next: Result<(RefundPhase, Action), SwapError>,
)
    requires
        refund_next(context, phase, reply, before, after, next),
    ensures
        after.relay == before.relay,
        phase is Resign && after != before ==> (stored_refund(before) matches Ok(refund) && exists|repriced: TransactionView|
            #![trigger hex_of_tx(repriced)]
            {
                &&& after.signed_refund_tx_hex == Some(hex_of_tx(repriced))
                &&& repriced.lock_time == refund.lock_time && repriced.version == refund.version
                &&& stripped(repriced).input == stripped(refund).input
                &&& repriced.output.len() == refund.output.len()
                &&& repriced.output[0].script_pubkey == refund.output[0].script_pubkey
            }),
{
    if phase is Resign && after != before {
        let refund = stored_refund(before)->Ok_0;
        let lock = response_of(context.network, before.relay)->Ok_0.lock;
        let secret = reply->Key_0@;
        let unsigned = with_first_value(refund, phase->Resign_value);
        let signature = choose|signature: Seq<u8>|
            #![trigger signs_refund(signature, unsigned, lock, secret)]
            signs_refund(signature, unsigned, lock, secret) && after == (StateView {
                signed_refund_tx_hex: Some(hex_of_tx(with_first_witness(unsigned, refund_witness(signature, lock)))),
                previous_refund_txids: with_id(before.previous_refund_txids, txid_of(refund)),
                ..before
            });
        let repriced = with_first_witness(unsigned, refund_witness(signature, lock));
        assert(after.signed_refund_tx_hex == Some(hex_of_tx(repriced)));
        assert(stripped(repriced).input =~= stripped(refund).input);
    }
}

/// The refund goes on only while no claim is visible and from the refund height on, and never
/// after the Ark was received.
pub proof fn law_refund_needs_maturity(
    context: FlowContext,
    phase: RefundPhase,
    reply: Reply,
    before: StateView,
    after: StateView,
    next: Result<(RefundPhase, Action), SwapError>,
)
    requires
        refund_next(context, phase, reply, before, after, next),
        next is Ok,
    ensures
        phase is Begin ==> before.status != SwapStatus::ArkCompleted && before.status != SwapStatus::ArkRecovering
            && before.status != SwapStatus::ArkReclaimed,
        phase is Observed ==> reply == Reply::Answer(false),
        phase is Mature ==> (reply matches Reply::Tip(tip) && response_of(context.network, before.relay) matches Ok(
            response,
        ) && tip >= response.lock.refund_height),
{
}

/// The claim is signed only before the refund height, and the refund goes on only from it on: a tip
/// at which the claim window of a request is open lies more than the margin below every tip at which
/// its refund is mature.
pub proof fn law_disclosure_precedes_refund(
    context: FlowContext,
    ark_payer: StateView,
    log: Seq<AnswerView>,
    btc_payer: StateView,
    tip: u32,
    after: StateView,
    next: Result<(RefundPhase, Action), SwapError>,
)
    requires
        state_window(context.network, ark_payer, log) is Pass,
        refund_next(context, RefundPhase::Mature, Reply::Tip(tip), btc_payer, after, next),
        next is Ok,
        ark_payer.relay.request.refund_height == btc_payer.relay.request.refund_height,
    ensures
        tip_at(log, 0) matches Ok(open) && open.height + ark_payer.relay.request.safety_margin_blocks < tip,
{
    law_response_claims_the_lock(context.network, ark_payer.relay);
    law_response_claims_the_lock(context.network, btc_payer.relay);
    law_refund_needs_maturity(context, RefundPhase::Mature, Reply::Tip(tip), btc_payer, after, next);
}

/// What is broadcast is the stored refund, a changed state is stored before anything else, and no
/// refund that was ever signed is forgotten.
pub proof fn law_refund_is_stored_before_broadcast(
    context: FlowContext,
    phase: RefundPhase,
    reply: Reply,
    before: StateView,
    after: StateView,
    next: Result<(RefundPhase, Action), SwapError>,
)
    requires
        refund_next(context, phase, reply, before, after, next),
    ensures
        after != before ==> next matches Ok((_, Action::StoreState)),
        next matches Ok((_, Action::Broadcast(refund))) ==> stored_refund(before) == Ok::<TransactionView, SwapError>(
            refund@,
        ),
        next matches Ok((_, Action::BroadcastPackage(funding, refund))) ==> stored_refund(before) == Ok::<
            TransactionView,
            SwapError,
        >(refund@) && (response_of(context.network, before.relay) matches Ok(response) && funding@ == response.funding),
        after.signed_refund_tx_hex != before.signed_refund_tx_hex && phase is Resign ==> (stored_refund(before) matches Ok(
            refund,
        ) && after.previous_refund_txids.contains(txid_of(refund))),
        forall|id: [u8; 32]| before.previous_refund_txids.contains(id) ==> #[trigger] after.previous_refund_txids.contains(id),
{
    if phase is Resign && next is Ok {
        lemma_with_id(before.previous_refund_txids, txid_of(stored_refund(before)->Ok_0));
    }
}

/// A swap is refunded only where the refund, or one that it replaced, is confirmed as deep as the
/// request demands: being broadcast settles nothing.
pub proof fn law_refunded_only_at_depth(
    context: FlowContext,
    phase: RefundPhase,
    reply: Reply,
    before: StateView,
    after: StateView,
    next: Result<(RefundPhase, Action), SwapError>,
)
    requires
        refund_next(context, phase, reply, before, after, next),
    ensures
        after.status == SwapStatus::Refunded && before.status != SwapStatus::Refunded ==> match phase {
            RefundPhase::Deep { height, .. } => reply matches Reply::Tip(tip) && deep_enough(
                tip,
                height,
                before.relay.request.minimum_funding_confirmations,
            ),
            RefundPhase::Replaced { stable } => stable,
            _ => false,
        },
        next matches Ok((RefundPhase::Replaced { stable }, _)) && stable ==> (phase matches RefundPhase::Deep { height, .. }
            && (reply matches Reply::Tip(tip) && deep_enough(
            tip,
            height,
            before.relay.request.minimum_funding_confirmations,
        ))),
        next matches Ok((RefundPhase::Deep { txid, height }, _)) ==> (phase matches RefundPhase::Depth { txid: asked } && asked
            == txid && reply == Reply::Confirmed(Some(height))),
        next matches Ok((RefundPhase::Depth { txid }, action)) ==> action == Action::Confirmed(txid),
{
}

/// A refund is left as it is exactly where it pays the rate already: what the rate asks for its own
/// weight where the funding is confirmed, and else for both, less what the funding pays. One that is
/// replaced pays exactly that, or one satoshi per virtual byte more than before where that is more; it
/// is replaced wherever the lock can pay this and leave a standard output.
pub proof fn law_refund_is_repriced_exactly_where_needed(
    lock: LockView,
    funding: TransactionView,
    prevouts: Seq<TxOutView>,
    refund: TransactionView,
    target: u64,
    confirmed: bool,
)
    requires
        total_value(funding.output) <= total_value(prevouts) <= u64::MAX,
        0 <= total_value(funding.output),
        total_value(refund.output) <= lock.amount,
        weight_of(funding) + weight_of(refund) <= u64::MAX,
        target * (weight_of(funding) + weight_of(refund)) + 999 <= u64::MAX,
    ensures
        ({
            let parent_fee = total_value(prevouts) - total_value(funding.output);
            let old_fee = lock.amount - total_value(refund.output);
            let alone = (target * weight_of(refund) + 999) / 1000;
            let both = (target * (weight_of(funding) + weight_of(refund)) + 999) / 1000;
            let needed = if confirmed {
                alone
            } else if both > parent_fee {
                both - parent_fee
            } else {
                0
            };
            let least = old_fee + (250 * weight_of(refund) + 999) / 1000;
            let fee = if needed > least {
                needed
            } else {
                least
            };
            let price = refund_price(lock, funding, prevouts, refund, target, confirmed);
            &&& price == Ok::<Option<u64>, SwapError>(None) <==> needed <= old_fee
            &&& price matches Ok(Some(value)) ==> needed > old_fee && value == lock.amount - fee
            &&& needed > old_fee && 250 * weight_of(refund) + 999 <= u64::MAX && fee <= lock.amount
                && refund.output.len() > 0 && standard(
                TxOutView { value: (lock.amount - fee) as u64, ..refund.output[0] },
            ) ==> price == Ok::<Option<u64>, SwapError>(Some((lock.amount - fee) as u64))
        }),
{
    let (parent, own) = (weight_of(funding) as int, weight_of(refund) as int);
    assert(target * own <= target * (parent + own)) by (nonlinear_arith)
        requires
            0 <= parent,
            0 <= own,
            0 <= target,
    ;
}

/// What the refund of a state has to pay at a target: for its own weight where the funding is confirmed,
/// and else for the weight of both, less the fee of the funding.
pub open spec fn refund_fee_due(network: Network, state: StateView, status: TxStatus, target: int) -> int {
    let funding = response_of(network, state.relay)->Ok_0.funding;
    let weight = weight_of(stored_refund(state)->Ok_0);
    let parent_fee = total_value((template_of(state.relay.request)->Ok_0).1) - total_value(funding.output);
    match status {
        TxStatus::Confirmed(_) => (target * weight + 999) / 1000,
        _ => (target * (weight_of(funding) + weight) + 999) / 1000 - parent_fee,
    }
}

/// The rate that a refund pays: 250 times the override, or else the estimate where that is above 250
/// times the rate of the request.
pub open spec fn refund_rate_due(context: FlowContext, state: StateView, fast: u64) -> int {
    match context.fee_rate {
        Some(rate) => 250 * rate,
        None => if fast > 250 * state.relay.request.fee_rate_sat_vb {
            fast as int
        } else {
            250 * state.relay.request.fee_rate_sat_vb
        },
    }
}

/// Whatever refund goes out, or is signed anew, pays at least what is due at the rate.
pub proof fn law_refund_pays_the_rate(
    context: FlowContext,
    phase: RefundPhase,
    reply: Reply,
    before: StateView,
    after: StateView,
    next: Result<(RefundPhase, Action), SwapError>,
)
    requires
        refund_next(context, phase, reply, before, after, next),
        phase is Funding || phase is ScanTip || phase is Scanned || (phase is Fee && context.fee_rate is None),
        next is Ok,
    ensures
        ({
            let amount = response_of(context.network, before.relay)->Ok_0.lock.amount;
            let fast = match reply {
                Reply::FastRate(fast) => fast,
                _ => 0,
            };
            let status = match (phase, reply) {
                (RefundPhase::Funding, Reply::Status(told)) => told,
                (RefundPhase::Fee { status: kept }, _) => kept,
                _ => TxStatus::NotFound,
            };
            let due = refund_fee_due(context.network, before, status, refund_rate_due(context, before, fast));
            &&& next matches Ok((_, Action::Broadcast(refund))) ==> amount - total_value(refund@.output) >= due
            &&& next matches Ok((_, Action::BroadcastPackage(_, refund))) ==> amount - total_value(refund@.output) >= due
            &&& next matches Ok((RefundPhase::Resign { status: kept, value }, action)) ==> {
                &&& amount - value >= due && kept == status
                &&& amount - value > amount - total_value(stored_refund(before)->Ok_0.output)
                &&& action == Action::Key(before.claim_key_index)
            }
            &&& next matches Ok((RefundPhase::Fee { status: kept }, action)) ==> {
                &&& kept == status && context.fee_rate is None && !(phase is Fee)
                &&& action matches Action::FeeEstimate { floor } && floor == 250 * before.relay.request.fee_rate_sat_vb
            }
        }),
{
    assert(fee_at(INCREMENT as int, weight_of(stored_refund(before)->Ok_0) as int) >= 0);
}

/// A refund that is signed anew pays the value that was found, to the same script, and is signed for the
/// lock; the one that it replaces is remembered. The stored refund is then broadcast: alone where the
/// chain knows its parent, and else with it.
pub proof fn law_repriced_refund_is_signed_and_sent(
    context: FlowContext,
    phase: RefundPhase,
    reply: Reply,
    before: StateView,
    after: StateView,
    next: Result<(RefundPhase, Action), SwapError>,
)
    requires
        refund_next(context, phase, reply, before, after, next),
        response_of(context.network, before.relay) is Ok,
        stored_refund(before) is Ok,
    ensures
        ({
            let response = response_of(context.network, before.relay)->Ok_0;
            let refund = stored_refund(before)->Ok_0;
            &&& phase matches RefundPhase::Resign { status, value } ==> (reply matches Reply::Key(secret) ==> (
            refund.input.len() == 1 && refund.output.len() > 0 ==> {
                &&& next matches Ok((RefundPhase::Repriced { status: kept }, Action::StoreState)) && kept == status
                &&& after == (StateView {
                    signed_refund_tx_hex: after.signed_refund_tx_hex,
                    previous_refund_txids: after.previous_refund_txids,
                    ..before
                })
                &&& exists|repriced: TransactionView|
                    #![trigger hex_of_tx(repriced)]
                    {
                        &&& after.signed_refund_tx_hex == Some(hex_of_tx(repriced))
                        &&& repriced.output.len() == refund.output.len()
                        &&& repriced.output[0].value == value
                        &&& repriced.output[0].script_pubkey == refund.output[0].script_pubkey
                        &&& forall|i: int| 1 <= i < refund.output.len() ==> repriced.output[i] == refund.output[i]
                        &&& repriced.lock_time == refund.lock_time
                        &&& repriced.input.len() == 1 && repriced.input[0].previous_output
                            == refund.input[0].previous_output && repriced.input[0].witness.len() == 3
                        &&& repriced.input[0].witness[1] == response.lock.refund_script
                        &&& signs_refund(
                            repriced.input[0].witness[0],
                            with_first_value(refund, value),
                            response.lock,
                            secret@,
                        )
                    }
                &&& after.previous_refund_txids.contains(txid_of(refund))
            }))
            &&& phase matches RefundPhase::Repriced { status } ==> (reply is Done ==> after == before && match status {
                TxStatus::NotFound => next matches Ok((_, Action::BroadcastPackage(parent, child))) && parent@
                    == response.funding && child@ == refund,
                _ => next matches Ok((_, Action::Broadcast(tx))) && tx@ == refund,
            })
        }),
{
    if phase is Resign && reply is Key && next is Ok {
        let refund = stored_refund(before)->Ok_0;
        let lock = response_of(context.network, before.relay)->Ok_0.lock;
        let secret = reply->Key_0@;
        let unsigned = with_first_value(refund, phase->Resign_value);
        let signature = choose|signature: Seq<u8>|
            #![trigger signs_refund(signature, unsigned, lock, secret)]
            signs_refund(signature, unsigned, lock, secret) && after == (StateView {
                signed_refund_tx_hex: Some(hex_of_tx(with_first_witness(unsigned, refund_witness(signature, lock)))),
                previous_refund_txids: with_id(before.previous_refund_txids, txid_of(refund)),
                ..before
            });
        let repriced = with_first_witness(unsigned, refund_witness(signature, lock));
        assert(after.signed_refund_tx_hex == Some(hex_of_tx(repriced)));
        lemma_with_id(before.previous_refund_txids, txid_of(refund));
    }
}

/// A refund is looked for from the refund height on: the stored one first, then every one that it
/// replaced, in turn, and only when none of them is confirmed is the funding looked for.
pub proof fn law_every_refund_is_looked_for(
    context: FlowContext,
    phase: RefundPhase,
    reply: Reply,
    before: StateView,
    after: StateView,
    next: Result<(RefundPhase, Action), SwapError>,
)
    requires
        refund_next(context, phase, reply, before, after, next),
        response_of(context.network, before.relay) is Ok,
        stored_refund(before) is Ok,
    ensures
        phase is Begin && reply is Done ==> after == before && if before.status == SwapStatus::ArkCompleted || before.status
            == SwapStatus::ArkRecovering || before.status == SwapStatus::ArkReclaimed {
            next is Err
        } else {
            next matches Ok((RefundPhase::Observed, Action::Run(SubFlow::ObserveClaim)))
        },
        phase is Observed ==> match reply {
            Reply::Answer(false) => next matches Ok((RefundPhase::Mature, Action::Tip)),
            _ => next is Err,
        },
        phase is Mature ==> (reply matches Reply::Tip(tip) ==> if before.relay.request.refund_height <= tip {
            next matches Ok((RefundPhase::Recovery { at }, Action::Confirmed(txid))) && at == 0 && txid == txid_of(
                stored_refund(before)->Ok_0,
            )
        } else {
            next == Err::<(RefundPhase, Action), SwapError>(SwapError::RefundImmature)
        }),
        phase matches RefundPhase::Recovery { at } ==> match reply {
            Reply::Confirmed(None) => if at < before.previous_refund_txids.len() {
                next matches Ok((RefundPhase::Recovery { at: then_at }, Action::Confirmed(txid))) && then_at == at + 1
                    && txid == before.previous_refund_txids[at as int]
            } else {
                next matches Ok((RefundPhase::Funding, Action::Status(txid))) && txid == txid_of(
                    response_of(context.network, before.relay)->Ok_0.funding,
                )
            },
            Reply::Confirmed(Some(_)) => at <= before.previous_refund_txids.len() ==> (next matches Ok(
                (RefundPhase::Depth { txid }, Action::Confirmed(asked)),
            ) && asked == txid && txid == (if at == 0 {
                txid_of(stored_refund(before)->Ok_0)
            } else {
                before.previous_refund_txids[at - 1]
            })),
            _ => next is Err,
        },
{
    law_response_claims_the_lock(context.network, before.relay);
}

/// The swap is refunded exactly where the refund that was found has the confirmations of the request:
/// its own block and those up to the tip are as many. An earlier refund that was found is stored in
/// place of the current one.
pub proof fn law_refunded_exactly_at_depth(
    context: FlowContext,
    phase: RefundPhase,
    reply: Reply,
    before: StateView,
    after: StateView,
    next: Result<(RefundPhase, Action), SwapError>,
)
    requires
        refund_next(context, phase, reply, before, after, next),
        before.status != SwapStatus::Refunded,
        stored_refund(before) is Ok,
    ensures
        phase matches RefundPhase::Deep { txid, height } ==> (reply matches Reply::Tip(tip) ==> {
            let deep = height <= tip && before.relay.request.minimum_funding_confirmations <= tip - height + 1;
            if txid == txid_of(stored_refund(before)->Ok_0) {
                &&& after == (StateView { status: after.status, ..before })
                &&& after.status == (if deep {
                    SwapStatus::Refunded
                } else {
                    before.status
                })
                &&& next matches Ok((_, Action::StoreState))
            } else {
                &&& after == before
                &&& next matches Ok((RefundPhase::Replaced { stable }, Action::FetchTx(asked))) && stable == deep && asked
                    == txid
            }
        }),
        phase matches RefundPhase::Depth { txid } ==> match reply {
            Reply::Confirmed(Some(height)) => after == before && (next matches Ok(
                (RefundPhase::Deep { txid: kept, height: told }, Action::Tip),
            ) && kept == txid && told == height),
            Reply::Confirmed(None) => after == before && (next matches Ok((RefundPhase::Replaced { stable }, _))
                ==> !stable),
            _ => after == before,
        },
        phase matches RefundPhase::Replaced { stable } ==> match reply {
            Reply::Tx(Some(tx)) => {
                &&& after == (StateView {
                    signed_refund_tx_hex: Some(hex_of_tx(tx@)),
                    status: after.status,
                    ..before
                })
                &&& after.status == (if stable {
                    SwapStatus::Refunded
                } else {
                    before.status
                })
                &&& next matches Ok((_, Action::StoreState))
            },
            _ => after == before && next is Err,
        },
        after.status == SwapStatus::Refunded ==> phase is Deep || phase is Replaced,
{
}

/// A funding that the chain does not know is looked for among the spends of its inputs, from a margin
/// before the last scan, or before the request, but not behind the tip. The swap is cancelled exactly
/// where another transaction spends one of them and has the confirmations of the request, counting its
/// own block; the tip that was scanned is remembered.
pub proof fn law_conflict_cancels(
    context: FlowContext,
    phase: RefundPhase,
    reply: Reply,
    before: StateView,
    after: StateView,
    next: Result<(RefundPhase, Action), SwapError>,
)
    requires
        refund_next(context, phase, reply, before, after, next),
        response_of(context.network, before.relay) is Ok,
        before.status != SwapStatus::Cancelled,
    ensures
        ({
            let funding = response_of(context.network, before.relay)->Ok_0.funding;
            let required = before.relay.request.minimum_funding_confirmations;
            &&& phase is Funding && reply == Reply::Status(TxStatus::NotFound) ==> (next matches Ok(
                (RefundPhase::ScanTip, Action::TipRef),
            ))
            &&& phase is ScanTip ==> (reply matches Reply::TipRef(tip) ==> (before.funding_conflict_scan_tip != Some(tip)
                ==> (next matches Ok((RefundPhase::Scan { tip: kept }, Action::Spends { points, from_height })) && {
                let base = match before.funding_conflict_scan_tip {
                    Some(last) => last.height,
                    None => before.relay.request.created_height,
                };
                &&& kept == tip
                &&& points@.len() == funding.input.len()
                &&& forall|i: int|
                    0 <= i < funding.input.len() ==> #[trigger] points@[i] == funding.input[i].previous_output
                &&& from_height <= tip.height
                &&& from_height + before.relay.request.safety_margin_blocks <= base || from_height == 0
                &&& from_height == tip.height || from_height + before.relay.request.safety_margin_blocks >= base
            })))
            &&& phase matches RefundPhase::Scan { tip } ==> (reply matches Reply::Spends(spends) ==> {
                let conflict = exists|i: int|
                    0 <= i < spends@.len() && (#[trigger] spends@[i]).1 != txid_of(funding) && (
                    spends@[i].2 matches TxStatus::Confirmed(block) && (required <= 1 || block.height + required <= tip.height
                        + 1));
                &&& after == (StateView {
                    status: after.status,
                    funding_conflict_scan_tip: Some(tip),
                    ..before
                })
                &&& after.status == (if conflict {
                    SwapStatus::Cancelled
                } else {
                    before.status
                })
                &&& next matches Ok((RefundPhase::Scanned, Action::StoreState))
            })
            &&& after.status == SwapStatus::Cancelled ==> phase is Scan
        }),
{
    if phase is Scan && reply is Spends {
        let funding = txid_of(response_of(context.network, before.relay)->Ok_0.funding);
        let required = before.relay.request.minimum_funding_confirmations;
        let tip = phase->Scan_tip;
        let spends = reply->Spends_0@;
        assert forall|i: int| 0 <= i < spends.len() implies (conflicting(#[trigger] spends[i], funding, tip.height, required)
            <==> spends[i].1 != funding && (spends[i].2 matches TxStatus::Confirmed(block) && (required <= 1
            || block.height + required <= tip.height + 1))) by {}
        if conflicts(spends, funding, tip.height, required) {
            let i = choose|i: int| 0 <= i < spends.len() && #[trigger] conflicting(spends[i], funding, tip.height, required);
            assert(spends[i].1 != funding);
        }
    }
}

/// A mature refund goes out: when the rate is known, it is broadcast at once where it need not be repriced, and
/// else the key is asked for to sign it anew. A scan that found a conflict ends the flow, and a tip that was
/// scanned is not scanned again.
pub proof fn law_mature_refund_goes_out(
    context: FlowContext,
    phase: RefundPhase,
    reply: Reply,
    before: StateView,
    after: StateView,
    next: Result<(RefundPhase, Action), SwapError>,
    rate: u64,
    status: TxStatus,
)
    requires
        refund_next(context, phase, reply, before, after, next),
        response_of(context.network, before.relay) is Ok,
        template_of(before.relay.request) is Ok,
        stored_refund(before) is Ok,
        0 < before.relay.request.fee_rate_sat_vb <= u32::MAX,
        match (phase, reply) {
            (RefundPhase::Funding, Reply::Status(told)) => told == status && !(status is NotFound),
            (RefundPhase::ScanTip, Reply::TipRef(tip)) => before.funding_conflict_scan_tip == Some(tip) && status
                == TxStatus::NotFound,
            (RefundPhase::Scanned, Reply::Done) => before.status != SwapStatus::Cancelled && status
                == TxStatus::NotFound,
            (RefundPhase::Fee { status: kept }, Reply::FastRate(_)) => kept == status,
            _ => false,
        },
        match (phase, reply, context.fee_rate) {
            (RefundPhase::Fee { .. }, Reply::FastRate(fast), _) => rate >= fast && rate >= 250
                * before.relay.request.fee_rate_sat_vb && (rate == fast || rate == 250
                * before.relay.request.fee_rate_sat_vb),
            (_, _, Some(over)) => 0 < over <= u32::MAX && rate == 250 * over,
            (_, _, None) => true,
        },
    ensures
        ({
            let response = response_of(context.network, before.relay)->Ok_0;
            let refund = stored_refund(before)->Ok_0;
            let price = refund_price(
                response.lock,
                response.funding,
                (template_of(before.relay.request)->Ok_0).1,
                refund,
                rate,
                status is Confirmed,
            );
            &&& after == before
            &&& !(phase is Fee) && context.fee_rate is None ==> (next matches Ok(
                (RefundPhase::Fee { status: kept }, Action::FeeEstimate { floor }),
            ) && kept == status && floor == 250 * before.relay.request.fee_rate_sat_vb)
            &&& phase is Fee || context.fee_rate is Some ==> match price {
                Ok(None) => match status {
                    TxStatus::NotFound => next matches Ok((_, Action::BroadcastPackage(parent, child))) && parent@
                        == response.funding && child@ == refund,
                    _ => next matches Ok((_, Action::Broadcast(tx))) && tx@ == refund,
                },
                Ok(Some(paid)) => next matches Ok((RefundPhase::Resign { status: kept, value }, Action::Key(index)))
                    && kept == status && value == paid && index == before.claim_key_index,
                Err(_) => next is Err,
            }
        }),
{
}

/// A conflict that was found ends the flow.
pub proof fn law_cancelled_refund_ends(
    context: FlowContext,
    before: StateView,
    after: StateView,
    next: Result<(RefundPhase, Action), SwapError>,
)
    requires
        refund_next(context, RefundPhase::Scanned, Reply::Done, before, after, next),
        before.status == SwapStatus::Cancelled,
    ensures
        after == before,
        next matches Ok((RefundPhase::Last, Action::End)),
{
}

/// The flow of the refund takes no reply but one to what it asked for, and a step that fails changes nothing.
pub proof fn law_refund_takes_its_replies_alone(
    context: FlowContext,
    phase: RefundPhase,
    reply: Reply,
    before: StateView,
    after: StateView,
    next: Result<(RefundPhase, Action), SwapError>,
)
    requires
        refund_next(context, phase, reply, before, after, next),
    ensures
        next is Ok ==> match phase {
            RefundPhase::Begin | RefundPhase::Scanned | RefundPhase::Repriced { .. } | RefundPhase::Last
            => reply is Done,
            RefundPhase::Observed => reply is Answer,
            RefundPhase::Mature | RefundPhase::Deep { .. } => reply is Tip,
            RefundPhase::Recovery { .. } | RefundPhase::Depth { .. } => reply is Confirmed,
            RefundPhase::Replaced { .. } => reply is Tx,
            RefundPhase::Funding => reply is Status,
            RefundPhase::ScanTip => reply is TipRef,
            RefundPhase::Scan { .. } => reply is Spends,
            RefundPhase::Fee { .. } => reply is FastRate,
            RefundPhase::Resign { .. } => reply is Key,
        },
        next is Err ==> after == before,
{
}

/// The flow of the refund goes on only with what it can read: an agreed response, a stored refund, a rate that is
/// one, and, where the refund is priced, a price.
pub proof fn law_refund_goes_on_with_what_it_reads(
    context: FlowContext,
    phase: RefundPhase,
    reply: Reply,
    before: StateView,
    after: StateView,
    next: Result<(RefundPhase, Action), SwapError>,
)
    requires
        refund_next(context, phase, reply, before, after, next),
        next is Ok,
    ensures
        ({
            let action = (next->Ok_0).1;
            let sent = action is Broadcast || action is BroadcastPackage || action is Key;
            &&& phase is Begin ==> before.status != SwapStatus::ArkCompleted && before.status
                != SwapStatus::ArkRecovering && before.status != SwapStatus::ArkReclaimed
            &&& phase is Observed ==> reply == Reply::Answer(false)
            &&& phase is Observed || phase is Mature || phase is Scan || phase is Resign || phase is Repriced || sent
                || action is Spends || action is Status ==> response_of(context.network, before.relay) is Ok
            &&& phase is Mature || phase is Resign || phase is Repriced || sent || (phase is Depth && reply == Reply::Confirmed(
                None,
            )) || phase is Deep ==> stored_refund(before) is Ok
            &&& phase is Replaced ==> !(reply == Reply::Tx(None))
            &&& phase is Funding && !(action is TipRef) ==> match context.fee_rate {
                Some(rate) => 0 < rate <= 0xffff_ffff,
                None => 0 < before.relay.request.fee_rate_sat_vb <= 0xffff_ffff,
            }
            &&& phase is Fee ==> 0 < before.relay.request.fee_rate_sat_vb <= 0xffff_ffff
            &&& sent && !(phase is Repriced) ==> template_of(before.relay.request) is Ok
            &&& phase is Resign ==> stored_refund(before)->Ok_0.output.len() > 0 && stored_refund(before)->Ok_0.input.len()
                == 1
        }),
{
}

} // verus!
