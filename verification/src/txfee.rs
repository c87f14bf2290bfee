//! What a transaction pays, told from the transactions that its inputs spend.

use vstd::prelude::*;

use crate::chain::{answer_views, read_tx, tx_at, AnswerView, ChainAnswer, ChainQuery, CheckStep, ReplyView};
use crate::error::SwapError;
use crate::tx::{
    law_total_value_adds_up, same_id, sum_outputs, total_value, txid_of, OutPoint, Transaction, TransactionView, TxInView,
    TxOutView,
};

verus! {

/// Whether an output is one of a known transaction.
pub open spec fn is_of(point: OutPoint, known: Option<TransactionView>) -> bool {
    known matches Some(tx) && txid_of(tx) == point.txid
}

/// What an output is worth, by a known transaction or by the answer at a place.
pub open spec fn worth_at(log: Seq<AnswerView>, at: nat, point: OutPoint, known: Option<TransactionView>) -> Result<
    u64,
    CheckStep,
> {
    let parent = if is_of(point, known) {
        Ok(known)
    } else {
        tx_at(log, at, point.txid)
    };
    match parent {
        Err(step) => Err(step),
        Ok(None) => Err(CheckStep::Fail(SwapError::FeeInputMissing)),
        Ok(Some(tx)) => if point.vout < tx.output.len() {
            Ok(tx.output[point.vout as int].value)
        } else {
            Err(CheckStep::Fail(SwapError::ParentOutputMissing))
        },
    }
}

/// What some inputs are worth, from one of them on and with what the earlier ones are worth.
pub open spec fn incoming_from(
    log: Seq<AnswerView>,
    at: nat,
    inputs: Seq<TxInView>,
    known: Option<TransactionView>,
    i: nat,
    incoming: int,
) -> Result<int, CheckStep>
    decreases inputs.len() - i,
{
    if i >= inputs.len() {
        Ok(incoming)
    } else {
        let point = inputs[i as int].previous_output;
        match worth_at(log, at, point, known) {
            Err(step) => Err(step),
            Ok(value) => if incoming + value > u64::MAX {
                Err(CheckStep::Fail(SwapError::AmountOverflow))
            } else {
                incoming_from(
                    log,
                    if is_of(point, known) { at } else { at + 1 },
                    inputs,
                    known,
                    i + 1,
                    incoming + value,
                )
            },
        }
    }
}

/// What a transaction pays, or how far the answers of a log tell it.
pub open spec fn fee_told(log: Seq<AnswerView>, tx: TransactionView, known: Option<TransactionView>) -> Result<
    u64,
    CheckStep,
> {
    match incoming_from(log, 0, tx.input, known, 0, 0) {
        Err(step) => Err(step),
        Ok(incoming) => if total_value(tx.output) > u64::MAX {
            Err(CheckStep::Fail(SwapError::AmountOverflow))
        } else if total_value(tx.output) > incoming {
            Err(CheckStep::Fail(SwapError::InvalidTransactionFee))
        } else {
            Ok((incoming - total_value(tx.output)) as u64)
        },
    }
}

/// What an optional transaction is.
pub open spec fn known_view(known: Option<&Transaction>) -> Option<TransactionView> {
    match known {
        Some(tx) => Some(tx@),
        None => None,
    }
}

/// The value of an output of a transaction.
fn output_value(tx: &Transaction, vout: u32) -> (value: Result<u64, CheckStep>)
    ensures
        value == (if vout < tx@.output.len() {
            Ok(tx@.output[vout as int].value)
        } else {
            Err(CheckStep::Fail(SwapError::ParentOutputMissing))
        }),
{
    assert(tx@.output.len() == tx.output@.len());
    if (vout as usize) < tx.output.len() {
        assert(tx@.output[vout as int] == tx.output[vout as int]@);
        Ok(tx.output[vout as usize].value)
    } else {
        Err(CheckStep::Fail(SwapError::ParentOutputMissing))
    }
}

/// What a transaction pays. The parents that are not known are fetched, one after the other.
pub fn transaction_fee(log: &Vec<ChainAnswer>, tx: &Transaction, known: Option<&Transaction>) -> (fee: Result<
    u64,
    CheckStep,
>)
    ensures
        fee == fee_told(answer_views(log@), tx@, known_view(known)),
{
    let ghost answers = answer_views(log@);
    let ghost parent = known_view(known);
    let total: usize = log.len();
    assert(answers.len() == total);
    assert(tx@.input.len() == tx.input@.len());
    let mut incoming: u64 = 0;
    let mut at: usize = 0;
    let mut i: usize = 0;
    while i < tx.input.len()
        invariant
            i <= tx.input.len(),
            tx@.input.len() == tx.input@.len(),
            answers == answer_views(log@),
            answers.len() == total,
            parent == known_view(known),
            at <= total,
            incoming_from(answers, 0, tx@.input, parent, 0, 0) == incoming_from(
                answers,
                at as nat,
                tx@.input,
                parent,
                i as nat,
                incoming as int,
            ),
        decreases tx.input.len() - i,
    {
        assert(tx@.input[i as int] == tx.input[i as int]@);
        let point = tx.input[i].previous_output;
        let own: Option<&Transaction> = match known {
            Some(found) => if same_id(&found.txid(), &point.txid) {
                Some(found)
            } else {
                None
            },
            None => None,
        };
        let worth = match own {
            Some(found) => output_value(found, point.vout),
            None => match read_tx(log, at, point.txid) {
                Ok(Some(found)) => {
                    at += 1;
                    output_value(found, point.vout)
                },
                Ok(None) => Err(CheckStep::Fail(SwapError::FeeInputMissing)),
                Err(step) => Err(step),
            },
        };
        match worth {
            Ok(value) => match incoming.checked_add(value) {
                Some(sum) => {
                    incoming = sum;
                },
                None => return Err(CheckStep::Fail(SwapError::AmountOverflow)),
            },
            Err(step) => return Err(step),
        }
        i += 1;
    }
    let outgoing: u64 = match sum_outputs(&tx.output) {
        Ok(sum) => sum,
        Err(error) => return Err(CheckStep::Fail(error)),
    };
    match incoming.checked_sub(outgoing) {
        Some(fee) => Ok(fee),
        None => Err(CheckStep::Fail(SwapError::InvalidTransactionFee)),
    }
}

/// Whether an output is told: by the parent that is known, or else by the answer on its transaction.
pub open spec fn told_output(
    log: Seq<AnswerView>,
    point: OutPoint,
    known: Option<TransactionView>,
    output: TxOutView,
) -> bool {
    ||| known matches Some(tx) && txid_of(tx) == point.txid && point.vout < tx.output.len() && tx.output[point.vout as int]
        == output
    ||| exists|k: int|
        0 <= k < log.len() && (#[trigger] log[k]).query == ChainQuery::Tx(point.txid) && (
        log[k].reply matches ReplyView::Tx(Some(tx)) && point.vout < tx.output.len() && tx.output[point.vout as int]
            == output)
}

/// What comes in is what the spent outputs are worth together.
proof fn lemma_incoming_is_the_sum(
    log: Seq<AnswerView>,
    at: nat,
    inputs: Seq<TxInView>,
    known: Option<TransactionView>,
    i: nat,
    incoming: int,
) -> (spent: Seq<TxOutView>)
    requires
        i <= inputs.len(),
        incoming_from(log, at, inputs, known, i, incoming) is Ok,
    ensures
        spent.len() == inputs.len() - i,
        forall|k: int|
            0 <= k < spent.len() ==> told_output(log, inputs[i + k].previous_output, known, #[trigger] spent[k]),
        incoming_from(log, at, inputs, known, i, incoming)->Ok_0 == incoming + total_value(spent),
        incoming <= u64::MAX ==> incoming_from(log, at, inputs, known, i, incoming)->Ok_0 <= u64::MAX,
    decreases inputs.len() - i,
{
    if i >= inputs.len() {
        Seq::empty()
    } else {
        let point = inputs[i as int].previous_output;
        let next: nat = if is_of(point, known) {
            at
        } else {
            at + 1
        };
        let value = worth_at(log, at, point, known)->Ok_0;
        let rest = lemma_incoming_is_the_sum(log, next, inputs, known, i + 1, incoming + value);
        let parent = if is_of(point, known) {
            known->0
        } else {
            (tx_at(log, at, point.txid)->Ok_0)->0
        };
        let output = parent.output[point.vout as int];
        if !is_of(point, known) {
            assert(log[at as int].query == ChainQuery::Tx(point.txid));
        }
        assert(told_output(log, point, known, output));
        let spent = seq![output] + rest;
        law_total_value_adds_up(seq![output], rest, output);
        assert forall|k: int| 0 <= k < spent.len() implies told_output(
            log,
            inputs[i + k].previous_output,
            known,
            #[trigger] spent[k],
        ) by {
            if k > 0 {
                assert(spent[k] == rest[k - 1]);
                assert(inputs[i + 1 + (k - 1)] == inputs[i + k]);
            }
        }
        spent
    }
}

/// Outputs are worth nothing or more.
proof fn lemma_total_is_not_negative(outputs: Seq<TxOutView>)
    ensures
        total_value(outputs) >= 0,
    decreases outputs.len(),
{
    if outputs.len() > 0 {
        lemma_total_is_not_negative(outputs.drop_last());
    }
}

/// The fee of a transaction is what the outputs that it spends are worth together, less what its own
/// outputs are worth: of every input, the output was told.
pub proof fn law_fee_is_what_is_left_over(log: Seq<AnswerView>, tx: TransactionView, known: Option<TransactionView>)
    requires
        fee_told(log, tx, known) is Ok,
    ensures
        exists|spent: Seq<TxOutView>|
            #![trigger total_value(spent)]
            {
                &&& spent.len() == tx.input.len()
                &&& forall|k: int|
                    0 <= k < spent.len() ==> told_output(log, tx.input[k].previous_output, known, #[trigger] spent[k])
                &&& fee_told(log, tx, known)->Ok_0 == total_value(spent) - total_value(tx.output)
            },
{
    let spent = lemma_incoming_is_the_sum(log, 0, tx.input, known, 0, 0);
    lemma_total_is_not_negative(tx.output);
    assert(fee_told(log, tx, known)->Ok_0 == total_value(spent) - total_value(tx.output));
    assert forall|k: int| 0 <= k < spent.len() implies told_output(
        log,
        tx.input[k].previous_output,
        known,
        #[trigger] spent[k],
    ) by {
        assert(tx.input[0 + k] == tx.input[k]);
    }
}

/// What comes in cannot be told only for a reason.
proof fn lemma_incoming_faults(
    log: Seq<AnswerView>,
    at: nat,
    inputs: Seq<TxInView>,
    known: Option<TransactionView>,
    i: nat,
    incoming: int,
)
    ensures
        incoming_from(log, at, inputs, known, i, incoming) matches Err(CheckStep::Fail(error)) ==> match error {
            SwapError::UnexpectedReply => true,
            SwapError::AmountOverflow => true,
            SwapError::FeeInputMissing => exists|a: int, k: int|
                0 <= a < inputs.len() && 0 <= k < log.len() && (#[trigger] log[k]).query == ChainQuery::Tx(
                    (#[trigger] inputs[a]).previous_output.txid,
                ) && log[k].reply == ReplyView::Tx(None),
            SwapError::ParentOutputMissing => exists|a: int| 0 <= a < inputs.len() && #[trigger] lacks_output(log, inputs[a], known),
            _ => false,
        },
    decreases inputs.len() - i,
{
    if i < inputs.len() {
        let point = inputs[i as int].previous_output;
        let next: nat = if is_of(point, known) {
            at
        } else {
            at + 1
        };
        match worth_at(log, at, point, known) {
            Ok(value) => lemma_incoming_faults(log, next, inputs, known, i + 1, incoming + value),
            Err(step) => {
                if step == CheckStep::Fail(SwapError::FeeInputMissing) {
                    assert(log[at as int].query == ChainQuery::Tx(inputs[i as int].previous_output.txid));
                }
                if step == CheckStep::Fail(SwapError::ParentOutputMissing) {
                    if !is_of(point, known) {
                        assert(log[at as int].query == ChainQuery::Tx(inputs[i as int].previous_output.txid));
                    }
                    assert(lacks_output(log, inputs[i as int], known));
                }
            },
        }
    }
}

/// What comes in exceeds 64 bits only where the outputs that were told so far do.
proof fn lemma_incoming_overflows(
    log: Seq<AnswerView>,
    at: nat,
    inputs: Seq<TxInView>,
    known: Option<TransactionView>,
    i: nat,
    incoming: int,
) -> (spent: Seq<TxOutView>)
    requires
        incoming_from(log, at, inputs, known, i, incoming) == Err::<int, CheckStep>(
            CheckStep::Fail(SwapError::AmountOverflow),
        ),
    ensures
        i + spent.len() <= inputs.len(),
        forall|k: int|
            0 <= k < spent.len() ==> told_output(log, inputs[i + k].previous_output, known, #[trigger] spent[k]),
        incoming + total_value(spent) > u64::MAX,
    decreases inputs.len() - i,
{
    let point = inputs[i as int].previous_output;
    let next: nat = if is_of(point, known) {
        at
    } else {
        at + 1
    };
    let value = worth_at(log, at, point, known)->Ok_0;
    let parent = if is_of(point, known) {
        known->0
    } else {
        (tx_at(log, at, point.txid)->Ok_0)->0
    };
    let output = parent.output[point.vout as int];
    if !is_of(point, known) {
        assert(log[at as int].query == ChainQuery::Tx(point.txid));
    }
    assert(told_output(log, point, known, output));
    let rest = if incoming + value > u64::MAX {
        Seq::empty()
    } else {
        lemma_incoming_overflows(log, next, inputs, known, i + 1, incoming + value)
    };
    let spent = seq![output] + rest;
    law_total_value_adds_up(seq![output], rest, output);
    assert forall|k: int| 0 <= k < spent.len() implies told_output(
        log,
        inputs[i + k].previous_output,
        known,
        #[trigger] spent[k],
    ) by {
        if k > 0 {
            assert(spent[k] == rest[k - 1]);
            assert(inputs[i + 1 + (k - 1)] == inputs[i + k]);
        }
    }
    spent
}

/// Whether the parent of an input, as it is known or told, lacks the output that is spent.
pub open spec fn lacks_output(log: Seq<AnswerView>, input: TxInView, known: Option<TransactionView>) -> bool {
    let point = input.previous_output;
    ||| known matches Some(tx) && txid_of(tx) == point.txid && point.vout >= tx.output.len()
    ||| exists|k: int|
        0 <= k < log.len() && (#[trigger] log[k]).query == ChainQuery::Tx(point.txid) && (
        log[k].reply matches ReplyView::Tx(Some(tx)) && point.vout >= tx.output.len())
}

/// A fee cannot be told only for a reason: an answer is something else, a parent is unknown or lacks the output,
/// the amounts do not fit into 64 bits, or more is paid out than is spent.
pub proof fn law_fee_is_refused_for_a_fault(log: Seq<AnswerView>, tx: TransactionView, known: Option<TransactionView>)
    ensures
        fee_told(log, tx, known) matches Err(CheckStep::Fail(error)) ==> match error {
            SwapError::UnexpectedReply => true,
            SwapError::AmountOverflow => total_value(tx.output) > u64::MAX || exists|spent: Seq<TxOutView>|
                #![trigger total_value(spent)]
                spent.len() <= tx.input.len() && total_value(spent) > u64::MAX && forall|k: int|
                    0 <= k < spent.len() ==> told_output(log, tx.input[k].previous_output, known, #[trigger] spent[k]),
            SwapError::InvalidTransactionFee => incoming_from(log, 0, tx.input, known, 0, 0) matches Ok(incoming) && incoming
                < total_value(tx.output),
            SwapError::FeeInputMissing => exists|a: int, k: int|
                0 <= a < tx.input.len() && 0 <= k < log.len() && (#[trigger] log[k]).query == ChainQuery::Tx(
                    (#[trigger] tx.input[a]).previous_output.txid,
                ) && log[k].reply == ReplyView::Tx(None),
            SwapError::ParentOutputMissing => exists|a: int|
                0 <= a < tx.input.len() && #[trigger] lacks_output(log, tx.input[a], known),
            _ => false,
        },
{
    lemma_incoming_faults(log, 0, tx.input, known, 0, 0);
    if incoming_from(log, 0, tx.input, known, 0, 0) == Err::<int, CheckStep>(CheckStep::Fail(SwapError::AmountOverflow)) {
        let spent = lemma_incoming_overflows(log, 0, tx.input, known, 0, 0);
        assert(total_value(spent) > u64::MAX);
        assert forall|k: int| 0 <= k < spent.len() implies told_output(
            log,
            tx.input[k].previous_output,
            known,
            #[trigger] spent[k],
        ) by {
            assert(tx.input[0 + k] == tx.input[k]);
        }
    }
}

} // verus!
