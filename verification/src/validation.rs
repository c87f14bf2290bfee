//! Checks against the live chain, made from the answers that the chain backend gave so far.

use vstd::prelude::*;

use crate::chain::{
    answer_views, block_at, read_block, read_status, read_tip, read_unspent, status_at, tip_at, unspent_at, AnswerView,
    BlockRef, ChainAnswer, ChainQuery, CheckStep, ReplyView, TxStatus,
};
use crate::error::SwapError;
use crate::lock::{lock_output, BtcLockContract, LockView};
use crate::script::{is_native_segwit, native_segwit, LOCK_TIME_THRESHOLD};
use crate::tx::{output_views, same_id, OutPoint, Transaction, TxInView, TxOut, TxOutView};

verus! {

/// Why there is not enough time before a refund height, if there is not.
pub open spec fn window_refusal(tip_height: u32, refund_height: u32, safety_margin_blocks: u32) -> Option<SwapError> {
    if safety_margin_blocks == 0 {
        Some(SwapError::MarginZero)
    } else if refund_height >= LOCK_TIME_THRESHOLD {
        Some(SwapError::InvalidRefundHeight)
    } else if tip_height + safety_margin_blocks > u32::MAX {
        Some(SwapError::HeightOverflow)
    } else if tip_height + safety_margin_blocks >= refund_height {
        Some(SwapError::WindowTooShort)
    } else {
        None
    }
}

/// Checks that the margin fits between the tip and the refund height.
pub fn verify_refund_window(tip_height: u32, refund_height: u32, safety_margin_blocks: u32) -> (result: Result<
    (),
    SwapError,
>)
    ensures
        match result {
            Ok(()) => window_refusal(tip_height, refund_height, safety_margin_blocks) is None,
            Err(error) => window_refusal(tip_height, refund_height, safety_margin_blocks) == Some(error),
        },
{
    if safety_margin_blocks == 0 {
        return Err(SwapError::MarginZero);
    }
    if refund_height >= LOCK_TIME_THRESHOLD {
        return Err(SwapError::InvalidRefundHeight);
    }
    match tip_height.checked_add(safety_margin_blocks) {
        Some(deadline) => if deadline >= refund_height {
            Err(SwapError::WindowTooShort)
        } else {
            Ok(())
        },
        None => Err(SwapError::HeightOverflow),
    }
}

/// The block in which a transaction is confirmed in the current chain, by the answers at two
/// places.
pub open spec fn confirmed_at(log: Seq<AnswerView>, at: nat, txid: [u8; 32], tip: BlockRef) -> Result<
    BlockRef,
    CheckStep,
> {
    match status_at(log, at, txid) {
        Err(step) => Err(step),
        Ok(TxStatus::Confirmed(block)) => if block.height > tip.height {
            Err(CheckStep::Fail(SwapError::NotInCurrentChain))
        } else {
            match block_at(log, at + 1, block.height) {
                Err(step) => Err(step),
                Ok(found) => if found == block {
                    Ok(block)
                } else {
                    Err(CheckStep::Fail(SwapError::NotInCurrentChain))
                },
            }
        },
        Ok(_) => Err(CheckStep::Fail(SwapError::NotConfirmed)),
    }
}

/// The block in which a transaction is confirmed in the current chain.
pub fn confirmed_block(log: &Vec<ChainAnswer>, at: usize, txid: [u8; 32], tip: BlockRef) -> (block: Result<
    BlockRef,
    CheckStep,
>)
    ensures
        block == confirmed_at(answer_views(log@), at as nat, txid, tip),
        block is Ok ==> at + 1 < log@.len(),
{
    match read_status(log, at, txid) {
        Ok(TxStatus::Confirmed(block)) => {
            if block.height > tip.height {
                return Err(CheckStep::Fail(SwapError::NotInCurrentChain));
            }
            let total: usize = log.len();
            assert(answer_views(log@).len() == total && at < total);
            match read_block(log, at + 1, block.height) {
                Ok(found) => if found.same(&block) {
                    Ok(block)
                } else {
                    Err(CheckStep::Fail(SwapError::NotInCurrentChain))
                },
                Err(step) => Err(step),
            }
        },
        Ok(_) => Err(CheckStep::Fail(SwapError::NotConfirmed)),
        Err(step) => Err(step),
    }
}

/// Whether the tip is still the same, by the answer at a place.
pub open spec fn unchanged_tip_at(log: Seq<AnswerView>, at: nat, tip: BlockRef) -> CheckStep {
    match tip_at(log, at) {
        Err(step) => step,
        Ok(found) => if found == tip {
            CheckStep::Pass
        } else {
            CheckStep::Fail(SwapError::TipChanged)
        },
    }
}

/// Checks that the tip is still the same.
pub fn ensure_unchanged_tip(log: &Vec<ChainAnswer>, at: usize, tip: BlockRef) -> (step: CheckStep)
    ensures
        step == unchanged_tip_at(answer_views(log@), at as nat, tip),
{
    match read_tip(log, at) {
        Ok(found) => if found.same(&tip) {
            CheckStep::Pass
        } else {
            CheckStep::Fail(SwapError::TipChanged)
        },
        Err(step) => step,
    }
}

/// How far the check of a claim window has come.
pub open spec fn claim_window(
    log: Seq<AnswerView>,
    funding_outpoint: OutPoint,
    lock: LockView,
    minimum_funding_confirmations: u32,
    safety_margin_blocks: u32,
) -> CheckStep {
    if minimum_funding_confirmations == 0 {
        CheckStep::Fail(SwapError::ConfirmationsZero)
    } else {
        match tip_at(log, 0) {
            Err(step) => step,
            Ok(tip) => match window_refusal(tip.height, lock.refund_height, safety_margin_blocks) {
                Some(error) => CheckStep::Fail(error),
                None => match confirmed_at(log, 1, funding_outpoint.txid, tip) {
                    Err(step) => step,
                    Ok(block) => if tip.height - block.height + 1 < minimum_funding_confirmations {
                        CheckStep::Fail(SwapError::FundingTooShallow)
                    } else {
                        match unspent_at(log, 3, funding_outpoint) {
                            Err(step) => step,
                            Ok(None) => CheckStep::Fail(SwapError::FundingSpent),
                            Ok(Some(output)) => if output != lock_output(lock) {
                                CheckStep::Fail(SwapError::FundingMismatch)
                            } else {
                                unchanged_tip_at(log, 4, tip)
                            },
                        }
                    },
                },
            },
        }
    }
}

/// Checks that the adaptor secret may be released: the funding is sufficiently deep, the exact
/// lock is unspent, and enough time remains before the refund.
pub fn verify_claim_window(
    log: &Vec<ChainAnswer>,
    funding_outpoint: OutPoint,
    lock: &BtcLockContract,
    minimum_funding_confirmations: u32,
    safety_margin_blocks: u32,
) -> (step: CheckStep)
    ensures
        step == claim_window(
            answer_views(log@),
            funding_outpoint,
            lock@,
            minimum_funding_confirmations,
            safety_margin_blocks,
        ),
{
    if minimum_funding_confirmations == 0 {
        return CheckStep::Fail(SwapError::ConfirmationsZero);
    }
    let tip = match read_tip(log, 0) {
        Ok(tip) => tip,
        Err(step) => return step,
    };
    match verify_refund_window(tip.height, lock.refund_height, safety_margin_blocks) {
        Ok(()) => {},
        Err(error) => return CheckStep::Fail(error),
    }
    let block = match confirmed_block(log, 1, funding_outpoint.txid, tip) {
        Ok(block) => block,
        Err(step) => return step,
    };
    let depth: u32 = tip.height - block.height;
    if depth.saturating_add(1) < minimum_funding_confirmations {
        return CheckStep::Fail(SwapError::FundingTooShallow);
    }
    match read_unspent(log, 3, funding_outpoint) {
        Ok(Some(output)) => if output.same(&lock.txout()) {
            ensure_unchanged_tip(log, 4, tip)
        } else {
            CheckStep::Fail(SwapError::FundingMismatch)
        },
        Ok(None) => CheckStep::Fail(SwapError::FundingSpent),
        Err(step) => step,
    }
}

/// Where the claim window is open, the log tells that the funding is confirmed in the current
/// chain at the required depth, that the exact lock output is unspent, and that the margin fits
/// between the tip and the refund height.
pub proof fn law_open_claim_window(
    log: Seq<AnswerView>,
    funding_outpoint: OutPoint,
    lock: LockView,
    minimum_funding_confirmations: u32,
    safety_margin_blocks: u32,
)
    requires
        claim_window(log, funding_outpoint, lock, minimum_funding_confirmations, safety_margin_blocks) is Pass,
    ensures
        exists|tip: BlockRef, block: BlockRef|
            {
                &&& #[trigger] tip_at(log, 0) == Ok::<BlockRef, CheckStep>(tip)
                &&& tip_at(log, 4) == Ok::<BlockRef, CheckStep>(tip)
                &&& tip.height + safety_margin_blocks < lock.refund_height
                &&& #[trigger] status_at(log, 1, funding_outpoint.txid) == Ok::<TxStatus, CheckStep>(
                    TxStatus::Confirmed(block),
                )
                &&& block.height <= tip.height
                &&& tip.height - block.height + 1 >= minimum_funding_confirmations >= 1
                &&& unspent_at(log, 3, funding_outpoint) == Ok::<Option<TxOutView>, CheckStep>(Some(lock_output(lock)))
            },
{
    let tip = tip_at(log, 0)->Ok_0;
    let block = confirmed_at(log, 1, funding_outpoint.txid, tip)->Ok_0;
    assert(tip_at(log, 0) == Ok::<BlockRef, CheckStep>(tip));
    assert(status_at(log, 1, funding_outpoint.txid) == Ok::<TxStatus, CheckStep>(TxStatus::Confirmed(block)));
}

/// Whether an earlier input spends the same outpoint.
pub open spec fn point_seen(inputs: Seq<TxInView>, i: int) -> bool {
    exists|k: int| 0 <= k < i && (#[trigger] inputs[k]).previous_output == inputs[i].previous_output
}

/// Whether an earlier input spends an output of the same transaction.
pub open spec fn txid_seen(inputs: Seq<TxInView>, i: int) -> bool {
    exists|k: int| 0 <= k < i && (#[trigger] inputs[k]).previous_output.txid == inputs[i].previous_output.txid
}

/// How far the check of funding inputs has come, from one input on.
pub open spec fn funding_inputs_from(
    log: Seq<AnswerView>,
    at: nat,
    tip: BlockRef,
    inputs: Seq<TxInView>,
    prevouts: Seq<TxOutView>,
    i: nat,
) -> CheckStep
    decreases inputs.len() - i,
{
    if i >= inputs.len() {
        unchanged_tip_at(log, at, tip)
    } else {
        let input = inputs[i as int];
        let point = input.previous_output;
        if point_seen(inputs, i as int) {
            CheckStep::Fail(SwapError::DuplicateFundingInput)
        } else if input.script_sig.len() > 0 {
            CheckStep::Fail(SwapError::FundingScriptSig)
        } else if !native_segwit(prevouts[i as int].script_pubkey) {
            CheckStep::Fail(SwapError::FundingNotSegwit)
        } else if !txid_seen(inputs, i as int) && confirmed_at(log, at, point.txid, tip) is Err {
            confirmed_at(log, at, point.txid, tip)->Err_0
        } else {
            let next: nat = if txid_seen(inputs, i as int) { at } else { at + 2 };
            match unspent_at(log, next, point) {
                Err(step) => step,
                Ok(None) => CheckStep::Fail(SwapError::FundingInputSpent),
                Ok(Some(output)) => if output != prevouts[i as int] {
                    CheckStep::Fail(SwapError::FundingPrevoutMismatch)
                } else {
                    funding_inputs_from(log, next + 1, tip, inputs, prevouts, i + 1)
                },
            }
        }
    }
}

/// How far the check of funding inputs has come, by the answers of a log from one place on.
pub open spec fn funding_inputs(
    log: Seq<AnswerView>,
    from: nat,
    inputs: Seq<TxInView>,
    prevouts: Seq<TxOutView>,
) -> CheckStep {
    if inputs.len() == 0 || inputs.len() != prevouts.len() {
        CheckStep::Fail(SwapError::FundingPrevoutCount)
    } else {
        match tip_at(log, from) {
            Err(step) => step,
            Ok(tip) => funding_inputs_from(log, from + 1, tip, inputs, prevouts, 0),
        }
    }
}

/// Whether an earlier input spends the same outpoint.
fn is_point_seen(tx: &Transaction, i: usize) -> (found: bool)
    requires
        i < tx.input@.len(),
    ensures
        found == point_seen(tx@.input, i as int),
{
    let mut k: usize = 0;
    while k < i
        invariant
            k <= i < tx.input@.len(),
            forall|j: int| 0 <= j < k ==> (#[trigger] tx@.input[j]).previous_output != tx@.input[i as int].previous_output,
        decreases i - k,
    {
        assert(tx@.input[k as int] == tx.input[k as int]@);
        assert(tx@.input[i as int] == tx.input[i as int]@);
        if tx.input[k].previous_output.same(&tx.input[i].previous_output) {
            return true;
        }
        k += 1;
    }
    false
}

/// Whether an earlier input spends an output of the same transaction.
fn is_txid_seen(tx: &Transaction, i: usize) -> (found: bool)
    requires
        i < tx.input@.len(),
    ensures
        found == txid_seen(tx@.input, i as int),
{
    let mut k: usize = 0;
    while k < i
        invariant
            k <= i < tx.input@.len(),
            forall|j: int|
                0 <= j < k ==> (#[trigger] tx@.input[j]).previous_output.txid != tx@.input[i as int].previous_output.txid,
        decreases i - k,
    {
        assert(tx@.input[k as int] == tx.input[k as int]@);
        assert(tx@.input[i as int] == tx.input[i as int]@);
        if same_id(&tx.input[k].previous_output.txid, &tx.input[i].previous_output.txid) {
            return true;
        }
        k += 1;
    }
    false
}

/// Checks the public funding template against live outputs: distinct, native-SegWit, confirmed
/// and unspent as declared. Witnesses need not be there. The answers are read from one place of
/// the log on.
pub fn verify_funding_inputs(log: &Vec<ChainAnswer>, from: usize, tx: &Transaction, prevouts: &Vec<TxOut>) -> (step:
    CheckStep)
    ensures
        step == funding_inputs(answer_views(log@), from as nat, tx@.input, output_views(prevouts@)),
{
    let ghost answers = answer_views(log@);
    let ghost expected = output_views(prevouts@);
    assert(answers.len() == log@.len());
    assert(tx@.input.len() == tx.input@.len());
    assert(expected.len() == prevouts@.len());
    if tx.input.len() == 0 || tx.input.len() != prevouts.len() {
        return CheckStep::Fail(SwapError::FundingPrevoutCount);
    }
    let tip = match read_tip(log, from) {
        Ok(tip) => tip,
        Err(step) => return step,
    };
    let total: usize = log.len();
    let mut at: usize = from + 1;
    let mut i: usize = 0;
    while i < tx.input.len()
        invariant
            i <= tx.input.len(),
            answers == answer_views(log@),
            answers.len() == log@.len(),
            total == log@.len(),
            expected == output_views(prevouts@),
            tx.input.len() == prevouts.len(),
            tx.input.len() > 0,
            tip_at(answers, from as nat) == Ok::<BlockRef, CheckStep>(tip),
            at <= log@.len(),
            funding_inputs(answers, from as nat, tx@.input, expected) == funding_inputs_from(
                answers,
                at as nat,
                tip,
                tx@.input,
                expected,
                i as nat,
            ),
        decreases tx.input.len() - i,
    {
        let input = &tx.input[i];
        assert(tx@.input[i as int] == input@);
        assert(expected[i as int] == prevouts[i as int]@);
        if is_point_seen(tx, i) {
            return CheckStep::Fail(SwapError::DuplicateFundingInput);
        }
        if input.script_sig.len() > 0 {
            return CheckStep::Fail(SwapError::FundingScriptSig);
        }
        if !is_native_segwit(prevouts[i].script_pubkey.as_slice()) {
            return CheckStep::Fail(SwapError::FundingNotSegwit);
        }
        if !is_txid_seen(tx, i) {
            match confirmed_block(log, at, input.previous_output.txid, tip) {
                Ok(_) => {
                    at += 2;
                },
                Err(step) => return step,
            }
        }
        match read_unspent(log, at, input.previous_output) {
            Ok(Some(output)) => {
                if !output.same(&prevouts[i]) {
                    return CheckStep::Fail(SwapError::FundingPrevoutMismatch);
                }
            },
            Ok(None) => return CheckStep::Fail(SwapError::FundingInputSpent),
            Err(step) => return step,
        }
        at += 1;
        i += 1;
    }
    ensure_unchanged_tip(log, at, tip)
}

/// Where the check of funding inputs passes from one input on, the rest is distinct, bare and
/// native SegWit.
proof fn lemma_funding_inputs(
    log: Seq<AnswerView>,
    at: nat,
    tip: BlockRef,
    inputs: Seq<TxInView>,
    prevouts: Seq<TxOutView>,
    i: nat,
)
    requires
        funding_inputs_from(log, at, tip, inputs, prevouts, i) is Pass,
    ensures
        forall|k: int| i <= k < inputs.len() ==> #[trigger] funding_input_good(log, tip, inputs, prevouts, k),
    decreases inputs.len() - i,
{
    if i < inputs.len() {
        let next: nat = if txid_seen(inputs, i as int) { at } else { at + 2 };
        lemma_funding_inputs(log, next + 1, tip, inputs, prevouts, i + 1);
        if !txid_seen(inputs, i as int) {
            lemma_told_confirmed(log, at, inputs[i as int].previous_output.txid, tip);
        }
        assert(log[next as int].query == ChainQuery::Unspent(inputs[i as int].previous_output));
        assert(answered(log, ChainQuery::Unspent(inputs[i as int].previous_output), ReplyView::Unspent(Some(prevouts[i as int]))));
    }
}

/// Whether a log holds an answer to a question.
pub open spec fn answered(log: Seq<AnswerView>, query: ChainQuery, reply: ReplyView) -> bool {
    exists|k: int| 0 <= k < log.len() && (#[trigger] log[k]).query == query && log[k].reply == reply
}

/// Whether a log tells that a transaction is confirmed in a block of the current chain, not above a
/// tip.
pub open spec fn told_confirmed(log: Seq<AnswerView>, txid: [u8; 32], tip: BlockRef) -> bool {
    exists|block: BlockRef|
        #![trigger answered(log, ChainQuery::TxStatus(txid), ReplyView::TxStatus(TxStatus::Confirmed(block)))]
        answered(log, ChainQuery::TxStatus(txid), ReplyView::TxStatus(TxStatus::Confirmed(block))) && answered(
            log,
            ChainQuery::Block(block.height),
            ReplyView::Block(block),
        ) && block.height <= tip.height
}

/// A transaction that is confirmed by the answers at two places is told to be.
pub proof fn lemma_told_confirmed(log: Seq<AnswerView>, at: nat, txid: [u8; 32], tip: BlockRef)
    requires
        confirmed_at(log, at, txid, tip) is Ok,
    ensures
        told_confirmed(log, txid, tip),
{
    let block = confirmed_at(log, at, txid, tip)->Ok_0;
    assert(log[at as int].query == ChainQuery::TxStatus(txid));
    assert(log[(at + 1) as int].query == ChainQuery::Block(block.height));
    assert(answered(log, ChainQuery::TxStatus(txid), ReplyView::TxStatus(TxStatus::Confirmed(block))));
}

/// Every input's transaction is told to be confirmed, where each first one is.
proof fn lemma_all_confirmed(
    log: Seq<AnswerView>,
    tip: BlockRef,
    inputs: Seq<TxInView>,
    prevouts: Seq<TxOutView>,
    k: int,
)
    requires
        0 <= k < inputs.len(),
        forall|j: int| 0 <= j < inputs.len() ==> #[trigger] funding_input_good(log, tip, inputs, prevouts, j),
    ensures
        told_confirmed(log, inputs[k].previous_output.txid, tip),
    decreases k,
{
    assert(funding_input_good(log, tip, inputs, prevouts, k));
    if txid_seen(inputs, k) {
        let j = choose|j: int|
            0 <= j < k && (#[trigger] inputs[j]).previous_output.txid == inputs[k].previous_output.txid;
        lemma_all_confirmed(log, tip, inputs, prevouts, j);
    }
}

/// Whether a funding input is new, bare, native SegWit, and told to be unspent as declared.
pub open spec fn funding_input_good(
    log: Seq<AnswerView>,
    tip: BlockRef,
    inputs: Seq<TxInView>,
    prevouts: Seq<TxOutView>,
    k: int,
) -> bool {
    &&& !point_seen(inputs, k)
    &&& inputs[k].script_sig.len() == 0
    &&& native_segwit(prevouts[k].script_pubkey)
    &&& txid_seen(inputs, k) || told_confirmed(log, inputs[k].previous_output.txid, tip)
    &&& answered(log, ChainQuery::Unspent(inputs[k].previous_output), ReplyView::Unspent(Some(prevouts[k])))
}

/// Funding inputs that pass the check are distinct, have no `scriptSig`, are native SegWit, and
/// are each told to be confirmed, and unspent with the declared prevout.
pub proof fn law_funding_inputs_are_live(
    log: Seq<AnswerView>,
    from: nat,
    inputs: Seq<TxInView>,
    prevouts: Seq<TxOutView>,
)
    requires
        funding_inputs(log, from, inputs, prevouts) is Pass,
    ensures
        inputs.len() == prevouts.len() > 0,
        tip_at(log, from) matches Ok(tip) && forall|k: int|
            0 <= k < inputs.len() ==> #[trigger] funding_input_good(log, tip, inputs, prevouts, k) && told_confirmed(
                log,
                inputs[k].previous_output.txid,
                tip,
            ),
{
    let tip = tip_at(log, from)->Ok_0;
    assert(tip_at(log, from) == Ok::<BlockRef, CheckStep>(tip));
    lemma_funding_inputs(log, from + 1, tip, inputs, prevouts, 0);
    assert forall|k: int| 0 <= k < inputs.len() implies #[trigger] funding_input_good(log, tip, inputs, prevouts, k)
        && told_confirmed(log, inputs[k].previous_output.txid, tip) by {
        lemma_all_confirmed(log, tip, inputs, prevouts, k);
    }
}

/// The window before a refund is open exactly where the margin is positive, the refund height is one of
/// blocks, and the tip and the margin lie below it.
pub proof fn law_window_is_open_before_the_margin(tip_height: u32, refund_height: u32, safety_margin_blocks: u32)
    ensures
        window_refusal(tip_height, refund_height, safety_margin_blocks) is None <==> 0 < safety_margin_blocks
            && refund_height < 500_000_000 && tip_height + safety_margin_blocks < refund_height,
{
}

/// A claim window is open wherever the chain tells a tip that leaves the margin, the funding in a block of
/// the chain with enough confirmations, the lock unspent, and then the same tip again.
pub proof fn law_claim_window_opens(
    log: Seq<AnswerView>,
    funding_outpoint: OutPoint,
    lock: LockView,
    minimum_funding_confirmations: u32,
    safety_margin_blocks: u32,
    tip: BlockRef,
    block: BlockRef,
)
    requires
        log.len() >= 5,
        log[0] == (AnswerView { query: ChainQuery::Tip, reply: ReplyView::Tip(tip) }),
        log[1] == (AnswerView {
            query: ChainQuery::TxStatus(funding_outpoint.txid),
            reply: ReplyView::TxStatus(TxStatus::Confirmed(block)),
        }),
        log[2] == (AnswerView { query: ChainQuery::Block(block.height), reply: ReplyView::Block(block) }),
        log[3] == (AnswerView {
            query: ChainQuery::Unspent(funding_outpoint),
            reply: ReplyView::Unspent(Some(lock_output(lock))),
        }),
        log[4] == (AnswerView { query: ChainQuery::Tip, reply: ReplyView::Tip(tip) }),
        0 < safety_margin_blocks && 0 < minimum_funding_confirmations,
        lock.refund_height < 500_000_000,
        tip.height + safety_margin_blocks < lock.refund_height,
        block.height <= tip.height,
        tip.height - block.height + 1 >= minimum_funding_confirmations,
    ensures
        claim_window(log, funding_outpoint, lock, minimum_funding_confirmations, safety_margin_blocks) is Pass,
{
}

/// Whether the chain told something on a transaction that speaks against its confirmation at a tip.
pub open spec fn told_unconfirmed(log: Seq<AnswerView>, txid: [u8; 32], tip: BlockRef, error: SwapError) -> bool {
    exists|k: int|
        0 <= k < log.len() && (#[trigger] log[k]).query == ChainQuery::TxStatus(txid) && match log[k].reply {
            ReplyView::TxStatus(TxStatus::Confirmed(block)) => error == SwapError::NotInCurrentChain && (block.height
                > tip.height || exists|l: int|
                0 <= l < log.len() && (#[trigger] log[l]).query == ChainQuery::Block(block.height) && log[l].reply
                    != ReplyView::Block(block)),
            ReplyView::TxStatus(_) => error == SwapError::NotConfirmed,
            _ => false,
        }
}

/// Whether an error tells what is wrong with an input of a funding.
pub open spec fn funding_fault(
    log: Seq<AnswerView>,
    tip: BlockRef,
    inputs: Seq<TxInView>,
    prevouts: Seq<TxOutView>,
    i: int,
    error: SwapError,
) -> bool {
    match error {
        SwapError::DuplicateFundingInput => exists|k: int|
            0 <= k < i && (#[trigger] inputs[k]).previous_output == inputs[i].previous_output,
        SwapError::FundingScriptSig => inputs[i].script_sig.len() > 0,
        SwapError::FundingNotSegwit => !native_segwit(prevouts[i].script_pubkey),
        SwapError::FundingInputSpent => answered(
            log,
            ChainQuery::Unspent(inputs[i].previous_output),
            ReplyView::Unspent(None),
        ),
        SwapError::FundingPrevoutMismatch => exists|k: int|
            0 <= k < log.len() && (#[trigger] log[k]).query == ChainQuery::Unspent(inputs[i].previous_output) && (
            log[k].reply matches ReplyView::Unspent(Some(output)) && output != prevouts[i]),
        _ => told_unconfirmed(log, inputs[i].previous_output.txid, tip, error),
    }
}

/// A transaction is refused for what the chain told.
pub(crate) proof fn lemma_told_unconfirmed(log: Seq<AnswerView>, at: nat, txid: [u8; 32], tip: BlockRef)
    ensures
        confirmed_at(log, at, txid, tip) matches Err(CheckStep::Fail(error)) ==> error == SwapError::UnexpectedReply
            || told_unconfirmed(log, txid, tip, error),
{
    if let Err(CheckStep::Fail(error)) = confirmed_at(log, at, txid, tip) {
        if error != SwapError::UnexpectedReply {
            assert(log[at as int].query == ChainQuery::TxStatus(txid));
            if let ReplyView::TxStatus(TxStatus::Confirmed(block)) = log[at as int].reply {
                if block.height <= tip.height {
                    assert(log[at as int + 1].query == ChainQuery::Block(block.height));
                }
            }
        }
    }
}

/// The inputs of a funding are refused for a fault of one of them.
proof fn lemma_funding_faults(
    log: Seq<AnswerView>,
    at: nat,
    tip: BlockRef,
    inputs: Seq<TxInView>,
    prevouts: Seq<TxOutView>,
    i: nat,
)
    ensures
        funding_inputs_from(log, at, tip, inputs, prevouts, i) matches CheckStep::Fail(error) ==> match error {
            SwapError::UnexpectedReply => true,
            SwapError::TipChanged => exists|k: int|
                0 <= k < log.len() && (#[trigger] log[k]).query == ChainQuery::Tip && log[k].reply != ReplyView::Tip(tip),
            _ => exists|k: int| 0 <= k < inputs.len() && #[trigger] funding_fault(log, tip, inputs, prevouts, k, error),
        },
    decreases inputs.len() - i,
{
    if i >= inputs.len() {
        if funding_inputs_from(log, at, tip, inputs, prevouts, i) == CheckStep::Fail(SwapError::TipChanged) {
            assert(log[at as int].query == ChainQuery::Tip);
        }
    } else {
        let point = inputs[i as int].previous_output;
        let next: nat = if txid_seen(inputs, i as int) {
            at
        } else {
            at + 2
        };
        lemma_told_unconfirmed(log, at, point.txid, tip);
        lemma_funding_faults(log, next + 1, tip, inputs, prevouts, i + 1);
        if let CheckStep::Fail(error) = funding_inputs_from(log, at, tip, inputs, prevouts, i) {
            if error == SwapError::FundingInputSpent && unspent_at(log, next, point) == Ok::<
                Option<TxOutView>,
                CheckStep,
            >(None) {
                assert(log[next as int].query == ChainQuery::Unspent(point));
                assert(funding_fault(log, tip, inputs, prevouts, i as int, error));
            } else if error == SwapError::FundingPrevoutMismatch && funding_inputs_from(
                log,
                next + 1,
                tip,
                inputs,
                prevouts,
                i + 1,
            ) != CheckStep::Fail(error) {
                assert(log[next as int].query == ChainQuery::Unspent(point));
                assert(funding_fault(log, tip, inputs, prevouts, i as int, error));
            } else if error != SwapError::UnexpectedReply && error != SwapError::TipChanged && funding_inputs_from(
                log,
                next + 1,
                tip,
                inputs,
                prevouts,
                i + 1,
            ) != CheckStep::Fail(error) {
                assert(funding_fault(log, tip, inputs, prevouts, i as int, error));
            }
        }
    }
}

/// The inputs of a funding are refused only for a reason: they are not as many as their prevouts, the
/// chain changed its tip or answered something else, or one of them occurs twice, has a script, spends
/// what is not native SegWit, is not confirmed, is spent, or differs from its prevout.
pub proof fn law_funding_inputs_are_refused_for_a_fault(
    log: Seq<AnswerView>,
    from: nat,
    inputs: Seq<TxInView>,
    prevouts: Seq<TxOutView>,
)
    ensures
        funding_inputs(log, from, inputs, prevouts) matches CheckStep::Fail(error) ==> match error {
            SwapError::FundingPrevoutCount => inputs.len() == 0 || inputs.len() != prevouts.len(),
            SwapError::UnexpectedReply => true,
            SwapError::TipChanged => tip_at(log, from) matches Ok(tip) && exists|k: int|
                0 <= k < log.len() && (#[trigger] log[k]).query == ChainQuery::Tip && log[k].reply != ReplyView::Tip(tip),
            _ => tip_at(log, from) matches Ok(tip) && exists|k: int|
                0 <= k < inputs.len() && #[trigger] funding_fault(log, tip, inputs, prevouts, k, error),
        },
        funding_inputs(log, from, inputs, prevouts) matches CheckStep::Need(_) ==> log.len() <= from + 2 + 3
            * inputs.len(),
{
    if let Ok(tip) = tip_at(log, from) {
        if inputs.len() == prevouts.len() {
            lemma_funding_faults(log, from + 1, tip, inputs, prevouts, 0);
            lemma_funding_needs(log, from + 1, tip, inputs, prevouts, 0);
        }
    }
}

/// Every input of a funding needs at most three answers.
proof fn lemma_funding_needs(
    log: Seq<AnswerView>,
    at: nat,
    tip: BlockRef,
    inputs: Seq<TxInView>,
    prevouts: Seq<TxOutView>,
    i: nat,
)
    requires
        i <= inputs.len(),
    ensures
        funding_inputs_from(log, at, tip, inputs, prevouts, i) matches CheckStep::Need(_) ==> log.len() <= at + 1 + 3 * (
        inputs.len() - i),
    decreases inputs.len() - i,
{
    if i < inputs.len() {
        let next: nat = if txid_seen(inputs, i as int) {
            at
        } else {
            at + 2
        };
        lemma_funding_needs(log, next + 1, tip, inputs, prevouts, i + 1);
    }
}

/// Whether a claim window is open is told of one chain: the block in which the funding is confirmed is the one
/// of the chain at its height, and the tip is the same before and after.
pub proof fn law_open_window_is_of_one_chain(
    log: Seq<AnswerView>,
    funding_outpoint: OutPoint,
    lock: LockView,
    minimum_funding_confirmations: u32,
    safety_margin_blocks: u32,
)
    requires
        claim_window(log, funding_outpoint, lock, minimum_funding_confirmations, safety_margin_blocks) is Pass,
    ensures
        log.len() >= 5,
        log[0].query == ChainQuery::Tip && log[4].query == ChainQuery::Tip && log[0].reply == log[4].reply,
        log[0].reply is Tip,
        log[1].query == ChainQuery::TxStatus(funding_outpoint.txid),
        log[1].reply matches ReplyView::TxStatus(TxStatus::Confirmed(block)) && log[2].query == ChainQuery::Block(
            block.height,
        ) && log[2].reply == ReplyView::Block(block),
        log[3].query == ChainQuery::Unspent(funding_outpoint),
        log[3].reply == ReplyView::Unspent(Some(lock_output(lock))),
        0 < safety_margin_blocks && lock.refund_height < 500_000_000,
{
}

/// The check of the inputs ends with the tip with which it began.
proof fn lemma_funding_tip_stays(
    log: Seq<AnswerView>,
    at: nat,
    tip: BlockRef,
    inputs: Seq<TxInView>,
    prevouts: Seq<TxOutView>,
    i: nat,
)
    requires
        funding_inputs_from(log, at, tip, inputs, prevouts, i) is Pass,
    ensures
        exists|k: nat| at <= k && #[trigger] tip_at(log, k) == Ok::<BlockRef, CheckStep>(tip),
    decreases inputs.len() - i,
{
    if i < inputs.len() {
        let next: nat = if txid_seen(inputs, i as int) {
            at
        } else {
            at + 2
        };
        lemma_funding_tip_stays(log, next + 1, tip, inputs, prevouts, i + 1);
    } else {
        assert(tip_at(log, at) == Ok::<BlockRef, CheckStep>(tip));
    }
}

/// Funding inputs that pass are told of at one tip: the one that is told first is told again at the end.
pub proof fn law_funding_inputs_are_told_at_one_tip(
    log: Seq<AnswerView>,
    from: nat,
    inputs: Seq<TxInView>,
    prevouts: Seq<TxOutView>,
)
    requires
        funding_inputs(log, from, inputs, prevouts) is Pass,
    ensures
        tip_at(log, from) matches Ok(tip) && exists|k: nat|
            from < k && #[trigger] tip_at(log, k) == Ok::<BlockRef, CheckStep>(tip),
        forall|i: int, k: int|
            0 <= i < k < inputs.len() ==> (#[trigger] inputs[i]).previous_output != (#[trigger] inputs[k]).previous_output,
        forall|i: int|
            0 <= i < inputs.len() ==> {
                &&& (#[trigger] inputs[i]).script_sig.len() == 0
                &&& native_segwit(prevouts[i].script_pubkey)
                &&& exists|k: int|
                    0 <= k < log.len() && (#[trigger] log[k]).query == ChainQuery::Unspent(inputs[i].previous_output)
                        && log[k].reply == ReplyView::Unspent(Some(prevouts[i]))
            },
{
    let tip = tip_at(log, from)->Ok_0;
    lemma_funding_tip_stays(log, from + 1, tip, inputs, prevouts, 0);
    law_funding_inputs_are_live(log, from, inputs, prevouts);
    assert forall|i: int, k: int| 0 <= i < k < inputs.len() implies (#[trigger] inputs[i]).previous_output != (
    #[trigger] inputs[k]).previous_output by {
        assert(funding_input_good(log, tip, inputs, prevouts, k));
    }
    assert forall|i: int| 0 <= i < inputs.len() implies {
        &&& (#[trigger] inputs[i]).script_sig.len() == 0
        &&& native_segwit(prevouts[i].script_pubkey)
        &&& exists|k: int|
            0 <= k < log.len() && (#[trigger] log[k]).query == ChainQuery::Unspent(inputs[i].previous_output)
                && log[k].reply == ReplyView::Unspent(Some(prevouts[i]))
    } by {
        assert(funding_input_good(log, tip, inputs, prevouts, i));
    }
}

} // verus!
