//! The check that Ark inputs are live: valid, unpublished, and safe for the whole refund window.

use vstd::prelude::*;

use crate::ark_types::{vtxo_exits, vtxo_output, vtxo_valid, vtxo_views, ArkVtxo, VtxoId, VtxoView};
use crate::chain::{
    answer_views, read_status, read_tip, read_tx, read_unspent, status_at, tip_at, tx_at, unspent_at, AnswerView,
    BlockRef, ChainAnswer, ChainQuery, CheckStep, ReplyView, TxStatus,
};
use crate::error::SwapError;
use crate::offer::{ArkOffer, ArkTransfer, OfferView, TransferView};
use crate::script::LOCK_TIME_THRESHOLD;
use crate::tx::{compute_txid, same_id, txid_of, OutPoint, Transaction, TransactionView, TxInView, TxOut, TxOutView};
use crate::validation::{
    answered, confirmed_at, confirmed_block, ensure_unchanged_tip, lemma_told_confirmed, lemma_told_unconfirmed,
    told_confirmed, told_unconfirmed, unchanged_tip_at, verify_refund_window, window_refusal,
};

verus! {

/// What the check has gathered of the inputs so far.
struct LiveState {
    points: Vec<OutPoint>,
    anchors: Vec<([u8; 32], Transaction)>,
    outputs: Vec<(OutPoint, TxOut)>,
    spends: Vec<(OutPoint, [u8; 32])>,
    txids: Vec<[u8; 32]>,
}

/// What the check has gathered: the inputs, the anchor transactions, the anchor outputs, which
/// transaction of the exits spends what, and the exit transactions.
#[verifier::ext_equal]
pub struct LiveView {
    pub points: Seq<OutPoint>,
    pub anchors: Seq<([u8; 32], TransactionView)>,
    pub outputs: Seq<(OutPoint, TxOutView)>,
    pub spends: Seq<(OutPoint, [u8; 32])>,
    pub txids: Seq<[u8; 32]>,
}

/// The views of anchor transactions.
pub open spec fn anchor_views(items: Seq<([u8; 32], Transaction)>) -> Seq<([u8; 32], TransactionView)> {
    items.map_values(|item: ([u8; 32], Transaction)| (item.0, item.1@))
}

/// The views of anchor outputs.
pub open spec fn anchor_output_views(items: Seq<(OutPoint, TxOut)>) -> Seq<(OutPoint, TxOutView)> {
    items.map_values(|item: (OutPoint, TxOut)| (item.0, item.1@))
}

impl View for LiveState {
    type V = LiveView;

    closed spec fn view(&self) -> LiveView {
        LiveView {
            points: self.points@,
            anchors: anchor_views(self.anchors@),
            outputs: anchor_output_views(self.outputs@),
            spends: self.spends@,
            txids: self.txids@,
        }
    }
}

/// The exit transaction that spends an outpoint, if one does.
pub open spec fn spent_by(spends: Seq<(OutPoint, [u8; 32])>, point: OutPoint) -> Option<[u8; 32]>
    decreases spends.len(),
{
    if spends.len() == 0 {
        None
    } else if spends.last().0 == point {
        Some(spends.last().1)
    } else {
        spent_by(spends.drop_last(), point)
    }
}

/// The anchor transaction of an identifier, if it was gathered.
pub open spec fn anchor_of(anchors: Seq<([u8; 32], TransactionView)>, txid: [u8; 32]) -> Option<TransactionView>
    decreases anchors.len(),
{
    if anchors.len() == 0 {
        None
    } else if anchors.last().0 == txid {
        Some(anchors.last().1)
    } else {
        anchor_of(anchors.drop_last(), txid)
    }
}

/// Whether the anchor output was gathered.
pub open spec fn has_output(outputs: Seq<(OutPoint, TxOutView)>, point: OutPoint) -> bool {
    exists|i: int| 0 <= i < outputs.len() && (#[trigger] outputs[i]).0 == point
}

/// The outputs with one more, unless it is there already.
pub open spec fn with_output(outputs: Seq<(OutPoint, TxOutView)>, point: OutPoint, output: TxOutView) -> Seq<
    (OutPoint, TxOutView),
> {
    if has_output(outputs, point) {
        outputs
    } else {
        outputs.push((point, output))
    }
}

/// The spends with those of a transaction from one input on, unless they conflict.
pub open spec fn with_spends(spends: Seq<(OutPoint, [u8; 32])>, inputs: Seq<TxInView>, txid: [u8; 32], k: nat) -> Option<
    Seq<(OutPoint, [u8; 32])>,
>
    decreases inputs.len() - k,
{
    if k >= inputs.len() {
        Some(spends)
    } else {
        let point = inputs[k as int].previous_output;
        if spent_by(spends, point) matches Some(other) && other != txid {
            None
        } else {
            with_spends(spends.push((point, txid)), inputs, txid, k + 1)
        }
    }
}

/// The check of the exits of an input from one on.
pub open spec fn exits_from(
    log: Seq<AnswerView>,
    at: nat,
    vtxo: VtxoView,
    exits: Seq<(TransactionView, nat)>,
    j: nat,
    state: LiveView,
) -> Result<(nat, LiveView), CheckStep>
    decreases exits.len() - j,
{
    if j >= exits.len() {
        Ok((at, state))
    } else {
        let (tx, index) = exits[j as int];
        let txid = txid_of(tx);
        if index >= tx.output.len() {
            Err(CheckStep::Fail(SwapError::GenesisOutputMissing))
        } else if (OutPoint { txid, vout: index as u32 }) == vtxo.point && tx.output[index as int] != vtxo_output(
            vtxo.encoded,
        ) {
            Err(CheckStep::Fail(SwapError::GenesisOutputMismatch))
        } else {
            match with_spends(state.spends, tx.input, txid, 0) {
                None => Err(CheckStep::Fail(SwapError::ConflictingAncestry)),
                Some(spends) => {
                    let spent = LiveView { spends, ..state };
                    if state.txids.contains(txid) {
                        exits_from(log, at, vtxo, exits, j + 1, spent)
                    } else {
                        match status_at(log, at, txid) {
                            Err(step) => Err(step),
                            Ok(TxStatus::NotFound) => exits_from(
                                log,
                                at + 1,
                                vtxo,
                                exits,
                                j + 1,
                                LiveView { txids: state.txids.push(txid), ..spent },
                            ),
                            Ok(_) => Err(CheckStep::Fail(SwapError::ExitPublished)),
                        }
                    }
                },
            }
        }
    }
}

/// The check of the anchor transaction of an input.
pub open spec fn anchor_step(log: Seq<AnswerView>, at: nat, tip: BlockRef, anchor: OutPoint, state: LiveView) -> Result<
    (nat, TransactionView, LiveView),
    CheckStep,
> {
    match anchor_of(state.anchors, anchor.txid) {
        Some(tx) => Ok((at, tx, state)),
        None => match confirmed_at(log, at, anchor.txid, tip) {
            Err(step) => Err(step),
            Ok(_) => match tx_at(log, at + 2, anchor.txid) {
                Err(step) => Err(step),
                Ok(None) => Err(CheckStep::Fail(SwapError::AnchorUnknown)),
                Ok(Some(tx)) => if txid_of(tx) != anchor.txid {
                    Err(CheckStep::Fail(SwapError::AnchorMismatch))
                } else {
                    Ok((at + 3, tx, LiveView { anchors: state.anchors.push((anchor.txid, tx)), ..state }))
                },
            },
        },
    }
}

/// Why an input is refused at a tip by itself, if it is.
pub open spec fn input_refusal(tip: BlockRef, refund_safe_height: u32, vtxo: VtxoView) -> Option<SwapError> {
    if !vtxo.pubkey_policy {
        Some(SwapError::ArkInputPolicy)
    } else if vtxo.expiry_height <= refund_safe_height {
        Some(SwapError::ArkInputExpires)
    } else if tip.height + vtxo.exit_delta > u32::MAX {
        Some(SwapError::HeightOverflow)
    } else if refund_safe_height >= tip.height + vtxo.exit_delta {
        Some(SwapError::ArkExitTooSoon)
    } else if vtxo.point == vtxo.chain_anchor {
        Some(SwapError::ArkInputOnChain)
    } else {
        None
    }
}

/// The check of one input.
pub open spec fn input_step(
    log: Seq<AnswerView>,
    at: nat,
    tip: BlockRef,
    refund_safe_height: u32,
    vtxo: VtxoView,
    state: LiveView,
) -> Result<(nat, LiveView), CheckStep> {
    let pointed = LiveView { points: state.points.push(vtxo.point), ..state };
    if state.points.contains(vtxo.point) {
        Err(CheckStep::Fail(SwapError::DuplicateArkInput))
    } else if input_refusal(tip, refund_safe_height, vtxo) is Some {
        Err(CheckStep::Fail(input_refusal(tip, refund_safe_height, vtxo)->0))
    } else {
        match anchor_step(log, at, tip, vtxo.chain_anchor, pointed) {
            Err(step) => Err(step),
            Ok((next, tx, anchored)) => if !vtxo_valid(vtxo.encoded, tx) {
                Err(CheckStep::Fail(SwapError::InvalidGenesis))
            } else if vtxo.chain_anchor.vout >= tx.output.len() {
                Err(CheckStep::Fail(SwapError::AnchorOutputMissing))
            } else {
                exits_from(
                    log,
                    next,
                    vtxo,
                    vtxo_exits(vtxo.encoded),
                    0,
                    LiveView {
                        outputs: with_output(
                            anchored.outputs,
                            vtxo.chain_anchor,
                            tx.output[vtxo.chain_anchor.vout as int],
                        ),
                        ..anchored
                    },
                )
            },
        }
    }
}

/// The check that the anchor outputs from one on are unspent, and that the tip is still the same.
pub open spec fn anchors_from(
    log: Seq<AnswerView>,
    at: nat,
    tip: BlockRef,
    outputs: Seq<(OutPoint, TxOutView)>,
    k: nat,
) -> CheckStep
    decreases outputs.len() - k,
{
    if k >= outputs.len() {
        unchanged_tip_at(log, at, tip)
    } else {
        match unspent_at(log, at, outputs[k as int].0) {
            Err(step) => step,
            Ok(None) => CheckStep::Fail(SwapError::AnchorSpent),
            Ok(Some(output)) => if output != outputs[k as int].1 {
                CheckStep::Fail(SwapError::AnchorOutputMismatch)
            } else {
                anchors_from(log, at + 1, tip, outputs, k + 1)
            },
        }
    }
}

/// Whether an input is spent by an exit of another.
pub open spec fn overlaps(state: LiveView) -> bool {
    exists|i: int| 0 <= i < state.points.len() && spent_by(state.spends, #[trigger] state.points[i]) is Some
}

/// The check of the inputs from one on.
pub open spec fn inputs_from(
    log: Seq<AnswerView>,
    at: nat,
    tip: BlockRef,
    refund_safe_height: u32,
    inputs: Seq<VtxoView>,
    i: nat,
    state: LiveView,
) -> CheckStep
    decreases inputs.len() - i,
{
    if i >= inputs.len() {
        if state.points.len() == 0 {
            CheckStep::Fail(SwapError::NoArkInputs)
        } else if overlaps(state) {
            CheckStep::Fail(SwapError::InputIsAncestor)
        } else {
            anchors_from(log, at, tip, state.outputs, 0)
        }
    } else {
        match input_step(log, at, tip, refund_safe_height, inputs[i as int], state) {
            Err(step) => step,
            Ok((next, after)) => inputs_from(log, next, tip, refund_safe_height, inputs, i + 1, after),
        }
    }
}

/// Nothing gathered.
pub open spec fn nothing_gathered() -> LiveView {
    LiveView {
        points: Seq::empty(),
        anchors: Seq::empty(),
        outputs: Seq::empty(),
        spends: Seq::empty(),
        txids: Seq::empty(),
    }
}

/// How far the check of Ark inputs has come.
pub open spec fn live_inputs(
    log: Seq<AnswerView>,
    inputs: Seq<VtxoView>,
    refund_height: u32,
    safety_margin_blocks: u32,
) -> CheckStep {
    match tip_at(log, 0) {
        Err(step) => step,
        Ok(tip) => match window_refusal(tip.height, refund_height, safety_margin_blocks) {
            Some(error) => CheckStep::Fail(error),
            None => if refund_height + safety_margin_blocks > u32::MAX {
                CheckStep::Fail(SwapError::HeightOverflow)
            } else {
                inputs_from(
                    log,
                    1,
                    tip,
                    (refund_height + safety_margin_blocks) as u32,
                    inputs,
                    0,
                    nothing_gathered(),
                )
            },
        },
    }
}

impl LiveState {
    /// Nothing gathered.
    fn new() -> (state: LiveState)
        ensures
            state@ == nothing_gathered(),
    {
        let state = LiveState {
            points: Vec::new(),
            anchors: Vec::new(),
            outputs: Vec::new(),
            spends: Vec::new(),
            txids: Vec::new(),
        };
        assert(state@ =~= nothing_gathered());
        state
    }

    /// Whether an input was gathered.
    fn has_point(&self, point: OutPoint) -> (found: bool)
        ensures
            found == self@.points.contains(point),
    {
        let mut i: usize = 0;
        while i < self.points.len()
            invariant
                i <= self.points.len(),
                forall|k: int| 0 <= k < i ==> self.points@[k] != point,
            decreases self.points.len() - i,
        {
            if self.points[i].same(&point) {
                assert(self.points@[i as int] == point);
                return true;
            }
            i += 1;
        }
        false
    }

    /// Whether an exit transaction was gathered.
    fn has_txid(&self, txid: &[u8; 32]) -> (found: bool)
        ensures
            found == self@.txids.contains(*txid),
    {
        let mut i: usize = 0;
        while i < self.txids.len()
            invariant
                i <= self.txids.len(),
                forall|k: int| 0 <= k < i ==> self.txids@[k] != *txid,
            decreases self.txids.len() - i,
        {
            if same_id(&self.txids[i], txid) {
                assert(self.txids@[i as int] == *txid);
                return true;
            }
            i += 1;
        }
        false
    }

    /// The exit transaction that spends an outpoint, if one does.
    fn find_spend(&self, point: OutPoint) -> (found: Option<[u8; 32]>)
        ensures
            found == spent_by(self@.spends, point),
    {
        let mut i: usize = self.spends.len();
        assert(self.spends@.take(i as int) =~= self.spends@);
        while i > 0
            invariant
                i <= self.spends.len(),
                spent_by(self.spends@, point) == spent_by(self.spends@.take(i as int), point),
            decreases i,
        {
            i -= 1;
            assert(self.spends@.take(i + 1).drop_last() =~= self.spends@.take(i as int));
            if self.spends[i].0.same(&point) {
                return Some(self.spends[i].1);
            }
        }
        None
    }

    /// The place of the anchor transaction of an identifier, if it was gathered.
    fn find_anchor(&self, txid: &[u8; 32]) -> (found: Option<usize>)
        ensures
            match found {
                Some(i) => i < self.anchors@.len() && anchor_of(self@.anchors, *txid) == Some(self.anchors@[i as int].1@),
                None => anchor_of(self@.anchors, *txid) is None,
            },
    {
        let ghost views = anchor_views(self.anchors@);
        let mut i: usize = self.anchors.len();
        assert(views.take(i as int) =~= views);
        while i > 0
            invariant
                i <= self.anchors.len(),
                views == anchor_views(self.anchors@),
                anchor_of(views, *txid) == anchor_of(views.take(i as int), *txid),
            decreases i,
        {
            i -= 1;
            assert(views.take(i + 1).drop_last() =~= views.take(i as int));
            assert(views[i as int] == (self.anchors@[i as int].0, self.anchors@[i as int].1@));
            if same_id(&self.anchors[i].0, txid) {
                return Some(i);
            }
        }
        None
    }

    /// Whether the anchor output was gathered.
    fn has_anchor_output(&self, point: OutPoint) -> (found: bool)
        ensures
            found == has_output(self@.outputs, point),
    {
        let ghost views = anchor_output_views(self.outputs@);
        let mut i: usize = 0;
        while i < self.outputs.len()
            invariant
                i <= self.outputs.len(),
                views == anchor_output_views(self.outputs@),
                forall|k: int| 0 <= k < i ==> (#[trigger] views[k]).0 != point,
            decreases self.outputs.len() - i,
        {
            assert(views[i as int] == (self.outputs@[i as int].0, self.outputs@[i as int].1@));
            if self.outputs[i].0.same(&point) {
                return true;
            }
            i += 1;
        }
        false
    }

    /// Gathers the spends of a transaction, unless they conflict.
    fn add_spends(&mut self, tx: &Transaction, txid: [u8; 32]) -> (fine: bool)
        ensures
            match with_spends(old(self)@.spends, tx@.input, txid, 0) {
                Some(spends) => fine && final(self)@ == (LiveView { spends, ..old(self)@ }),
                None => !fine,
            },
    {
        let ghost before = self@;
        let mut k: usize = 0;
        while k < tx.input.len()
            invariant
                k <= tx.input.len(),
                before == old(self)@,
                with_spends(before.spends, tx@.input, txid, 0) == with_spends(
                    self@.spends,
                    tx@.input,
                    txid,
                    k as nat,
                ),
                self@ == (LiveView { spends: self@.spends, ..before }),
            decreases tx.input.len() - k,
        {
            assert(tx@.input[k as int] == tx.input[k as int]@);
            let point = tx.input[k].previous_output;
            match self.find_spend(point) {
                Some(other) => {
                    if !same_id(&other, &txid) {
                        return false;
                    }
                },
                None => {},
            }
            self.spends.push((point, txid));
            k += 1;
        }
        true
    }

    /// Checks the exits of an input.
    fn check_exits(
        &mut self,
        log: &Vec<ChainAnswer>,
        from: usize,
        vtxo: &ArkVtxo,
        exits: &Vec<(Transaction, usize)>,
    ) -> (result: Result<usize, CheckStep>)
        requires
            from <= log@.len(),
        ensures
            match result {
                Ok(next) => exits_from(
                    answer_views(log@),
                    from as nat,
                    vtxo@,
                    crate::ark_types::exit_views(exits@),
                    0,
                    old(self)@,
                ) == Ok::<(nat, LiveView), CheckStep>((next as nat, final(self)@)) && next <= log@.len(),
                Err(step) => exits_from(
                    answer_views(log@),
                    from as nat,
                    vtxo@,
                    crate::ark_types::exit_views(exits@),
                    0,
                    old(self)@,
                ) == Err::<(nat, LiveView), CheckStep>(step),
            },
    {
        let ghost before = self@;
        let ghost answers = answer_views(log@);
        let ghost views = crate::ark_types::exit_views(exits@);
        let total: usize = log.len();
        let mut at: usize = from;
        let mut j: usize = 0;
        while j < exits.len()
            invariant
                j <= exits.len(),
                answers == answer_views(log@),
                answers.len() == total,
                total == log@.len(),
                views == crate::ark_types::exit_views(exits@),
                at <= total,
                before == old(self)@,
                exits_from(answers, from as nat, vtxo@, views, 0, before) == exits_from(
                    answers,
                    at as nat,
                    vtxo@,
                    views,
                    j as nat,
                    self@,
                ),
            decreases exits.len() - j,
        {
            let tx = &exits[j].0;
            let index: usize = exits[j].1;
            assert(views[j as int] == (tx@, index as nat));
            assert(tx@.output.len() == tx.output@.len());
            let txid = compute_txid(tx);
            if index >= tx.output.len() {
                return Err(CheckStep::Fail(SwapError::GenesisOutputMissing));
            }
            assert(tx@.output[index as int] == tx.output[index as int]@);
            let point = OutPoint { txid, vout: index as u32 };
            if point.same(&vtxo.point()) && !tx.output[index].same(&vtxo.txout()) {
                return Err(CheckStep::Fail(SwapError::GenesisOutputMismatch));
            }
            if !self.add_spends(tx, txid) {
                return Err(CheckStep::Fail(SwapError::ConflictingAncestry));
            }
            if !self.has_txid(&txid) {
                match read_status(log, at, txid) {
                    Ok(TxStatus::NotFound) => {},
                    Ok(_) => return Err(CheckStep::Fail(SwapError::ExitPublished)),
                    Err(step) => return Err(step),
                }
                let ghost spent = self@;
                self.txids.push(txid);
                assert(self@ =~= (LiveView { txids: spent.txids.push(txid), ..spent }));
                at += 1;
            }
            j += 1;
        }
        Ok(at)
    }

    /// Checks one input.
    fn check_input(
        &mut self,
        log: &Vec<ChainAnswer>,
        at: usize,
        tip: BlockRef,
        refund_safe_height: u32,
        vtxo: &ArkVtxo,
    ) -> (result: Result<usize, CheckStep>)
        requires
            at <= log@.len(),
        ensures
            match result {
                Ok(next) => input_step(answer_views(log@), at as nat, tip, refund_safe_height, vtxo@, old(self)@)
                    == Ok::<(nat, LiveView), CheckStep>((next as nat, final(self)@)) && next <= log@.len(),
                Err(step) => input_step(answer_views(log@), at as nat, tip, refund_safe_height, vtxo@, old(self)@)
                    == Err::<(nat, LiveView), CheckStep>(step),
            },
    {
        let ghost before = self@;
        let total: usize = log.len();
        assert(answer_views(log@).len() == total);
        if self.has_point(vtxo.point()) {
            return Err(CheckStep::Fail(SwapError::DuplicateArkInput));
        }
        self.points.push(vtxo.point());
        let ghost pointed = LiveView { points: before.points.push(vtxo@.point), ..before };
        assert(self@ =~= pointed);
        if !vtxo.has_pubkey_policy() {
            return Err(CheckStep::Fail(SwapError::ArkInputPolicy));
        }
        if vtxo.expiry_height() <= refund_safe_height {
            return Err(CheckStep::Fail(SwapError::ArkInputExpires));
        }
        match tip.height.checked_add(vtxo.exit_delta()) {
            Some(earliest) => {
                if refund_safe_height >= earliest {
                    return Err(CheckStep::Fail(SwapError::ArkExitTooSoon));
                }
            },
            None => return Err(CheckStep::Fail(SwapError::HeightOverflow)),
        }
        let anchor = vtxo.chain_anchor();
        if vtxo.point().same(&anchor) {
            return Err(CheckStep::Fail(SwapError::ArkInputOnChain));
        }
        let mut next: usize = at;
        let place: usize = match self.find_anchor(&anchor.txid) {
            Some(place) => place,
            None => {
                match confirmed_block(log, at, anchor.txid, tip) {
                    Ok(_) => {},
                    Err(step) => return Err(step),
                }
                match read_tx(log, at + 2, anchor.txid) {
                    Ok(Some(tx)) => {
                        if !same_id(&compute_txid(tx), &anchor.txid) {
                            return Err(CheckStep::Fail(SwapError::AnchorMismatch));
                        }
                        let copy = tx.clone();
                        let ghost seen = self.anchors@;
                        self.anchors.push((anchor.txid, copy));
                        assert(anchor_views(self.anchors@) =~= anchor_views(seen).push((anchor.txid, copy@)));
                        assert(self@ =~= (LiveView {
                            anchors: pointed.anchors.push((anchor.txid, copy@)),
                            ..pointed
                        }));
                    },
                    Ok(None) => return Err(CheckStep::Fail(SwapError::AnchorUnknown)),
                    Err(step) => return Err(step),
                }
                next = at + 3;
                self.anchors.len() - 1
            },
        };
        let ghost anchored = self@;
        let ghost tx = self.anchors@[place as int].1@;
        assert(anchor_step(answer_views(log@), at as nat, tip, anchor, pointed)
            == Ok::<(nat, TransactionView, LiveView), CheckStep>((next as nat, tx, anchored)));
        let exits = match vtxo.valid_exits(&self.anchors[place].1) {
            Some(exits) => exits,
            None => return Err(CheckStep::Fail(SwapError::InvalidGenesis)),
        };
        assert(tx.output.len() == self.anchors@[place as int].1.output@.len());
        if anchor.vout as usize >= self.anchors[place].1.output.len() {
            return Err(CheckStep::Fail(SwapError::AnchorOutputMissing));
        }
        let output = self.anchors[place].1.output[anchor.vout as usize].clone();
        assert(output@ == tx.output[anchor.vout as int]);
        if !self.has_anchor_output(anchor) {
            let ghost seen = self.outputs@;
            self.outputs.push((anchor, output));
            assert(anchor_output_views(self.outputs@) =~= anchor_output_views(seen).push((anchor, output@)));
        }
        assert(self@ =~= (LiveView { outputs: with_output(anchored.outputs, anchor, output@), ..anchored }));
        self.check_exits(log, next, vtxo, &exits)
    }

    /// Whether an input is spent by an exit of another.
    fn has_overlap(&self) -> (found: bool)
        ensures
            found == overlaps(self@),
    {
        let mut i: usize = 0;
        while i < self.points.len()
            invariant
                i <= self.points.len(),
                forall|k: int| 0 <= k < i ==> spent_by(self@.spends, #[trigger] self@.points[k]) is None,
            decreases self.points.len() - i,
        {
            assert(self@.points[i as int] == self.points[i as int]);
            if self.find_spend(self.points[i]).is_some() {
                return true;
            }
            i += 1;
        }
        false
    }

    /// Checks that the anchor outputs are unspent, and that the tip is still the same.
    fn check_anchors(&self, log: &Vec<ChainAnswer>, from: usize, tip: BlockRef) -> (step: CheckStep)
        requires
            from <= log@.len(),
        ensures
            step == anchors_from(answer_views(log@), from as nat, tip, self@.outputs, 0),
    {
        let ghost answers = answer_views(log@);
        let ghost views = self@.outputs;
        let total: usize = log.len();
        let mut at: usize = from;
        let mut k: usize = 0;
        while k < self.outputs.len()
            invariant
                k <= self.outputs.len(),
                answers == answer_views(log@),
                answers.len() == total,
                total == log@.len(),
                at <= total,
                views == anchor_output_views(self.outputs@),
                views == self@.outputs,
                anchors_from(answers, from as nat, tip, views, 0) == anchors_from(answers, at as nat, tip, views, k as nat),
            decreases self.outputs.len() - k,
        {
            assert(views[k as int] == (self.outputs@[k as int].0, self.outputs@[k as int].1@));
            match read_unspent(log, at, self.outputs[k].0) {
                Ok(Some(output)) => {
                    if !output.same(&self.outputs[k].1) {
                        return CheckStep::Fail(SwapError::AnchorOutputMismatch);
                    }
                },
                Ok(None) => return CheckStep::Fail(SwapError::AnchorSpent),
                Err(step) => return step,
            }
            at += 1;
            k += 1;
        }
        ensure_unchanged_tip(log, at, tip)
    }
}

/// Checks selected inputs before cosigning, and again before releasing BTC funding.
///
/// An ordinary honest operator's valid policy issuance, a current trusted chain backend, bounded
/// inclusion and reorganisations, and continuous refund monitoring are still required. Historical
/// arkoor tweaks do not disclose their entire script trees. This check does not promise safety
/// while the BTC payer remains offline.
pub fn verify_live_ark_inputs(
    log: &Vec<ChainAnswer>,
    inputs: &Vec<ArkVtxo>,
    refund_height: u32,
    safety_margin_blocks: u32,
) -> (step: CheckStep)
    ensures
        step == live_inputs(answer_views(log@), vtxo_views(inputs@), refund_height, safety_margin_blocks),
{
    let ghost answers = answer_views(log@);
    let ghost views = vtxo_views(inputs@);
    let tip = match read_tip(log, 0) {
        Ok(tip) => tip,
        Err(step) => return step,
    };
    match verify_refund_window(tip.height, refund_height, safety_margin_blocks) {
        Ok(()) => {},
        Err(error) => return CheckStep::Fail(error),
    }
    let refund_safe_height: u32 = match refund_height.checked_add(safety_margin_blocks) {
        Some(height) => height,
        None => return CheckStep::Fail(SwapError::HeightOverflow),
    };
    let mut state = LiveState::new();
    let mut at: usize = 1;
    let mut i: usize = 0;
    assert(answers.len() == log@.len());
    while i < inputs.len()
        invariant
            i <= inputs.len(),
            answers == answer_views(log@),
            views == vtxo_views(inputs@),
            at <= log@.len(),
            live_inputs(answers, views, refund_height, safety_margin_blocks) == inputs_from(
                answers,
                at as nat,
                tip,
                refund_safe_height,
                views,
                i as nat,
                state@,
            ),
        decreases inputs.len() - i,
    {
        assert(views[i as int] == inputs[i as int]@);
        match state.check_input(log, at, tip, refund_safe_height, &inputs[i]) {
            Ok(next) => {
                at = next;
            },
            Err(step) => return step,
        }
        i += 1;
    }
    assert(state@.points.len() == state.points@.len());
    if state.points.len() == 0 {
        return CheckStep::Fail(SwapError::NoArkInputs);
    }
    if state.has_overlap() {
        return CheckStep::Fail(SwapError::InputIsAncestor);
    }
    state.check_anchors(log, at, tip)
}

/// Why an Ark transfer does not fit an offer, if it does not.
pub open spec fn transfer_refusal(offer: OfferView, transfer: TransferView) -> Option<SwapError> {
    if transfer.inputs.len() == 0 || transfer.inputs.map_values(|input: VtxoView| VtxoId { point: input.point })
        != offer.ark_input_ids {
        Some(SwapError::TransferInputMismatch)
    } else if exists|i: int|
        0 <= i < transfer.inputs.len() && (#[trigger] transfer.inputs[i]).server_pubkey != offer.ark_server_pubkey {
        Some(SwapError::TransferServerMismatch)
    } else {
        None
    }
}

/// How far the check of an Ark transfer has come.
pub open spec fn live_transfer(
    log: Seq<AnswerView>,
    offer: OfferView,
    transfer: TransferView,
    refund_height: u32,
    safety_margin_blocks: u32,
) -> CheckStep {
    match transfer_refusal(offer, transfer) {
        Some(error) => CheckStep::Fail(error),
        None => live_inputs(log, transfer.inputs, refund_height, safety_margin_blocks),
    }
}

/// Checks the promised inputs and their live ancestry after public verification.
pub fn verify_live_ark_transfer(
    log: &Vec<ChainAnswer>,
    offer: &ArkOffer,
    transfer: &ArkTransfer,
    refund_height: u32,
    safety_margin_blocks: u32,
) -> (step: CheckStep)
    ensures
        step == live_transfer(answer_views(log@), offer@, transfer@, refund_height, safety_margin_blocks),
{
    let ghost ids = transfer@.inputs.map_values(|input: VtxoView| VtxoId { point: input.point });
    assert(transfer@.inputs.len() == transfer.inputs@.len());
    if transfer.inputs.len() == 0 || transfer.inputs.len() != offer.ark_input_ids.len() {
        assert(ids.len() == transfer.inputs@.len());
        return CheckStep::Fail(SwapError::TransferInputMismatch);
    }
    let mut i: usize = 0;
    while i < transfer.inputs.len()
        invariant
            i <= transfer.inputs.len(),
            transfer.inputs.len() == offer.ark_input_ids.len(),
            ids == transfer@.inputs.map_values(|input: VtxoView| VtxoId { point: input.point }),
            forall|k: int| 0 <= k < i ==> #[trigger] ids[k] == offer@.ark_input_ids[k],
        decreases transfer.inputs.len() - i,
    {
        assert(transfer@.inputs[i as int] == transfer.inputs[i as int]@);
        assert(ids[i as int].point == transfer.inputs[i as int]@.point);
        if !transfer.inputs[i].id().same(&offer.ark_input_ids[i]) {
            return CheckStep::Fail(SwapError::TransferInputMismatch);
        }
        i += 1;
    }
    assert(ids =~= offer@.ark_input_ids);
    let mut k: usize = 0;
    while k < transfer.inputs.len()
        invariant
            k <= transfer.inputs.len(),
            transfer.inputs@.len() > 0,
            transfer@.inputs.map_values(|input: VtxoView| VtxoId { point: input.point }) == offer@.ark_input_ids,
            forall|j: int| 0 <= j < k ==> (#[trigger] transfer@.inputs[j]).server_pubkey == offer@.ark_server_pubkey,
        decreases transfer.inputs.len() - k,
    {
        assert(transfer@.inputs[k as int] == transfer.inputs[k as int]@);
        if !transfer.inputs[k].server_pubkey().same(&offer.ark_server_pubkey) {
            return CheckStep::Fail(SwapError::TransferServerMismatch);
        }
        k += 1;
    }
    verify_live_ark_inputs(log, &transfer.inputs, refund_height, safety_margin_blocks)
}

/// Whether the log tells of each exit transaction that it is not published.
pub open spec fn exits_unpublished(log: Seq<AnswerView>, exits: Seq<(TransactionView, nat)>) -> bool {
    forall|j: int|
        0 <= j < exits.len() ==> answered(
            log,
            ChainQuery::TxStatus(txid_of((#[trigger] exits[j]).0)),
            ReplyView::TxStatus(TxStatus::NotFound),
        )
}

/// Whether no exit transaction spends an outpoint.
pub open spec fn exits_leave(exits: Seq<(TransactionView, nat)>, point: OutPoint) -> bool {
    forall|j: int, k: int|
        0 <= j < exits.len() && 0 <= k < (#[trigger] exits[j]).0.input.len() ==> (#[trigger] exits[j].0.input[k]).previous_output
            != point
}

/// Whether an input has a genesis that is valid on the transaction of its chain anchor, and the log
/// tells that this transaction is confirmed in the current chain, that the anchor is unspent and is
/// the transaction's very output, and that no exit is published.
pub open spec fn input_is_live(log: Seq<AnswerView>, tip: BlockRef, vtxo: VtxoView) -> bool {
    &&& told_confirmed(log, vtxo.chain_anchor.txid, tip)
    &&& exists|tx: TransactionView|
        #![trigger vtxo_valid(vtxo.encoded, tx)]
        {
            &&& vtxo_valid(vtxo.encoded, tx)
            &&& txid_of(tx) == vtxo.chain_anchor.txid
            &&& vtxo.chain_anchor.vout < tx.output.len()
            &&& answered(
                log,
                ChainQuery::Unspent(vtxo.chain_anchor),
                ReplyView::Unspent(Some(tx.output[vtxo.chain_anchor.vout as int])),
            )
        }
    &&& exits_unpublished(log, vtxo_exits(vtxo.encoded))
}

/// Whether everything that was gathered is told by the log.
spec fn told(log: Seq<AnswerView>, tip: BlockRef, state: LiveView) -> bool {
    &&& forall|k: int|
        0 <= k < state.txids.len() ==> answered(
            log,
            ChainQuery::TxStatus(#[trigger] state.txids[k]),
            ReplyView::TxStatus(TxStatus::NotFound),
        )
    &&& forall|k: int|
        0 <= k < state.anchors.len() ==> txid_of((#[trigger] state.anchors[k]).1) == state.anchors[k].0 && told_confirmed(
            log,
            state.anchors[k].0,
            tip,
        )
    &&& forall|k: int| 0 <= k < state.outputs.len() ==> anchors_hold(state.anchors, #[trigger] state.outputs[k])
}

/// Whether an output is the one of a gathered anchor transaction.
spec fn anchors_hold(anchors: Seq<([u8; 32], TransactionView)>, output: (OutPoint, TxOutView)) -> bool {
    anchor_of(anchors, output.0.txid) matches Some(tx) && output.0.vout < tx.output.len() && tx.output[output.0.vout as int]
        == output.1
}

/// Whether no outpoint is spent by two transactions.
spec fn consistent(spends: Seq<(OutPoint, [u8; 32])>) -> bool {
    forall|e: int, f: int|
        0 <= e < spends.len() && 0 <= f < spends.len() && (#[trigger] spends[e]).0 == (#[trigger] spends[f]).0 ==> spends[e].1
            == spends[f].1
}

/// The transaction that is told to spend an outpoint is listed with it.
proof fn lemma_spent_is_listed(spends: Seq<(OutPoint, [u8; 32])>, point: OutPoint)
    requires
        spent_by(spends, point) is Some,
    ensures
        lists(spends, point, spent_by(spends, point)->0),
    decreases spends.len(),
{
    if spends.last().0 == point {
        assert(spends[spends.len() - 1] == spends.last());
    } else {
        lemma_spent_is_listed(spends.drop_last(), point);
        let found = spent_by(spends, point)->0;
        let k = choose|k: int|
            0 <= k < spends.len() - 1 && (#[trigger] spends.drop_last()[k]).0 == point && spends.drop_last()[k].1 == found;
        assert(spends[k] == spends.drop_last()[k]);
    }
}

/// Gathering the spends of a transaction keeps them consistent.
proof fn lemma_spends_stay_consistent(spends: Seq<(OutPoint, [u8; 32])>, inputs: Seq<TxInView>, txid: [u8; 32], k: nat)
    requires
        consistent(spends),
        with_spends(spends, inputs, txid, k) is Some,
    ensures
        consistent(with_spends(spends, inputs, txid, k)->0),
    decreases inputs.len() - k,
{
    if k < inputs.len() {
        let point = inputs[k as int].previous_output;
        let more = spends.push((point, txid));
        assert forall|e: int| 0 <= e < spends.len() && (#[trigger] spends[e]).0 == point implies spends[e].1 == txid by {
            lemma_listed_is_spent(spends, e);
            lemma_spent_is_listed(spends, point);
            let found = spent_by(spends, point)->0;
            let f = choose|f: int| 0 <= f < spends.len() && (#[trigger] spends[f]).0 == point && spends[f].1 == found;
            assert(spends[f].1 == spends[e].1);
        }
        assert(consistent(more)) by {
            assert forall|e: int, f: int|
                0 <= e < more.len() && 0 <= f < more.len() && (#[trigger] more[e]).0 == (#[trigger] more[f]).0 implies more[e].1
                == more[f].1 by {
                if e < spends.len() {
                    assert(more[e] == spends[e]);
                }
                if f < spends.len() {
                    assert(more[f] == spends[f]);
                }
            }
        }
        lemma_spends_stay_consistent(more, inputs, txid, k + 1);
    }
}

/// Checking exits keeps the spends consistent.
proof fn lemma_exits_stay_consistent(
    log: Seq<AnswerView>,
    at: nat,
    vtxo: VtxoView,
    exits: Seq<(TransactionView, nat)>,
    j: nat,
    state: LiveView,
)
    requires
        exits_from(log, at, vtxo, exits, j, state) is Ok,
        consistent(state.spends),
    ensures
        consistent((exits_from(log, at, vtxo, exits, j, state)->Ok_0).1.spends),
    decreases exits.len() - j,
{
    if j < exits.len() {
        let (tx, index) = exits[j as int];
        let txid = txid_of(tx);
        lemma_spends_stay_consistent(state.spends, tx.input, txid, 0);
        let spends = with_spends(state.spends, tx.input, txid, 0)->0;
        let spent = LiveView { spends, ..state };
        if state.txids.contains(txid) {
            lemma_exits_stay_consistent(log, at, vtxo, exits, j + 1, spent);
        } else {
            lemma_exits_stay_consistent(
                log,
                at + 1,
                vtxo,
                exits,
                j + 1,
                LiveView { txids: state.txids.push(txid), ..spent },
            );
        }
    }
}

/// Whether two transactions of two exits that spend one outpoint have one identifier.
pub open spec fn exits_agree(a: Seq<(TransactionView, nat)>, b: Seq<(TransactionView, nat)>) -> bool {
    forall|i: int, j: int, k: int, l: int|
        #![trigger a[i].0.input[k], b[j].0.input[l]]
        0 <= i < a.len() && 0 <= j < b.len() && 0 <= k < a[i].0.input.len() && 0 <= l < b[j].0.input.len()
            && a[i].0.input[k].previous_output == b[j].0.input[l].previous_output ==> txid_of(a[i].0) == txid_of(b[j].0)
}

/// Exits whose spends are listed consistently agree.
proof fn lemma_listed_agree(
    spends: Seq<(OutPoint, [u8; 32])>,
    a: Seq<(TransactionView, nat)>,
    b: Seq<(TransactionView, nat)>,
)
    requires
        consistent(spends),
        lists_exits(spends, a, 0),
        lists_exits(spends, b, 0),
    ensures
        exits_agree(a, b),
{
    assert forall|i: int, j: int, k: int, l: int|
        #![trigger a[i].0.input[k], b[j].0.input[l]]
        0 <= i < a.len() && 0 <= j < b.len() && 0 <= k < a[i].0.input.len() && 0 <= l < b[j].0.input.len()
            && a[i].0.input[k].previous_output == b[j].0.input[l].previous_output implies txid_of(a[i].0) == txid_of(
        b[j].0,
    ) by {
        let point = a[i].0.input[k].previous_output;
        assert(lists(spends, point, txid_of(a[i].0)));
        assert(lists(spends, b[j].0.input[l].previous_output, txid_of(b[j].0)));
        let e = choose|e: int|
            0 <= e < spends.len() && (#[trigger] spends[e]).0 == point && spends[e].1 == txid_of(a[i].0);
        let f = choose|f: int|
            0 <= f < spends.len() && (#[trigger] spends[f]).0 == point && spends[f].1 == txid_of(b[j].0);
        assert(spends[e].1 == spends[f].1);
    }
}

/// Whether some spends are consistent, begin with those that were gathered, and list the exits of
/// the inputs from one on.
spec fn spends_all(
    gathered: Seq<(OutPoint, [u8; 32])>,
    inputs: Seq<VtxoView>,
    i: int,
    spends: Seq<(OutPoint, [u8; 32])>,
) -> bool {
    &&& consistent(spends)
    &&& gathered.is_prefix_of(spends)
    &&& forall|a: int| i <= a < inputs.len() ==> lists_exits(spends, vtxo_exits((#[trigger] inputs[a]).encoded), 0)
}

/// Exits that are listed stay listed when spends are added.
proof fn lemma_exits_stay_listed(
    spends: Seq<(OutPoint, [u8; 32])>,
    after: Seq<(OutPoint, [u8; 32])>,
    exits: Seq<(TransactionView, nat)>,
)
    requires
        spends.is_prefix_of(after),
        lists_exits(spends, exits, 0),
    ensures
        lists_exits(after, exits, 0),
{
    assert forall|i: int, k: int| 0 <= i < exits.len() && 0 <= k < (#[trigger] exits[i]).0.input.len() implies lists(
        after,
        (#[trigger] exits[i].0.input[k]).previous_output,
        txid_of(exits[i].0),
    ) by {
        lemma_lists_grow(spends, after, exits[i].0.input[k].previous_output, txid_of(exits[i].0));
    }
}

/// The spends of inputs that pass are consistent.
proof fn lemma_inputs_consistent(
    log: Seq<AnswerView>,
    at: nat,
    tip: BlockRef,
    refund_safe_height: u32,
    inputs: Seq<VtxoView>,
    i: nat,
    state: LiveView,
) -> (spends: Seq<(OutPoint, [u8; 32])>)
    requires
        inputs_from(log, at, tip, refund_safe_height, inputs, i, state) is Pass,
        told(log, tip, state),
        consistent(state.spends),
    ensures
        spends_all(state.spends, inputs, i as int, spends),
    decreases inputs.len() - i,
{
    if i >= inputs.len() {
        assert(state.spends =~= state.spends.take(state.spends.len() as int));
        state.spends
    } else {
        let vtxo = inputs[i as int];
        let exits = vtxo_exits(vtxo.encoded);
        let (next, tx, started) = lemma_input_begins(log, at, tip, refund_safe_height, inputs, i, state);
        lemma_exits(log, next, tip, vtxo, exits, 0, started);
        lemma_exits_stay_consistent(log, next, vtxo, exits, 0, started);
        let (last, after) = exits_from(log, next, vtxo, exits, 0, started)->Ok_0;
        let spends = lemma_inputs_consistent(log, last, tip, refund_safe_height, inputs, i + 1, after);
        lemma_exits_stay_listed(after.spends, spends, exits);
        assert(state.spends =~= spends.take(state.spends.len() as int)) by {
            assert(after.spends =~= spends.take(after.spends.len() as int));
            assert(state.spends =~= after.spends.take(state.spends.len() as int));
        }
        spends
    }
}

/// Whether the log tells a tip at a place or later.
spec fn tip_told_from(log: Seq<AnswerView>, at: int, tip: BlockRef) -> bool {
    exists|k: nat| at <= k && #[trigger] tip_at(log, k) == Ok::<BlockRef, CheckStep>(tip)
}

/// The check of an input that passes begins with a confirmed anchor, whose output is gathered, and
/// goes on to the exits.
proof fn lemma_input_begins(
    log: Seq<AnswerView>,
    at: nat,
    tip: BlockRef,
    refund_safe_height: u32,
    inputs: Seq<VtxoView>,
    i: nat,
    state: LiveView,
) -> (begun: (nat, TransactionView, LiveView))
    requires
        i < inputs.len(),
        inputs_from(log, at, tip, refund_safe_height, inputs, i, state) is Pass,
        told(log, tip, state),
    ensures
        ({
            let vtxo = inputs[i as int];
            let (next, tx, started) = begun;
            &&& told(log, tip, started)
            &&& at <= next
            &&& txid_of(tx) == vtxo.chain_anchor.txid && told_confirmed(log, vtxo.chain_anchor.txid, tip)
            &&& vtxo_valid(vtxo.encoded, tx) && vtxo.chain_anchor.vout < tx.output.len()
            &&& has_output(started.outputs, vtxo.chain_anchor)
            &&& anchor_of(started.anchors, vtxo.chain_anchor.txid) == Some(tx)
            &&& started.outputs == with_output(
                state.outputs,
                vtxo.chain_anchor,
                tx.output[vtxo.chain_anchor.vout as int],
            )
            &&& started.points == state.points.push(vtxo.point) && started.spends == state.spends
            &&& input_step(log, at, tip, refund_safe_height, vtxo, state) == exits_from(
                log,
                next,
                vtxo,
                vtxo_exits(vtxo.encoded),
                0,
                started,
            )
            &&& input_step(log, at, tip, refund_safe_height, vtxo, state) is Ok
        }),
{
    let vtxo = inputs[i as int];
    let anchor = vtxo.chain_anchor;
    let pointed = LiveView { points: state.points.push(vtxo.point), ..state };
    assert(told(log, tip, pointed));
    lemma_anchor_of(log, tip, pointed.anchors, anchor.txid);
    lemma_input_stops(log, at, tip, refund_safe_height, vtxo, state);
    assert(anchor_step(log, at, tip, anchor, pointed) is Ok);
    let (next, tx, anchored) = anchor_step(log, at, tip, anchor, pointed)->Ok_0;
    if anchor_of(pointed.anchors, anchor.txid) is None {
        lemma_told_confirmed(log, at, anchor.txid, tip);
        let more = pointed.anchors.push((anchor.txid, tx));
        assert(more.drop_last() =~= pointed.anchors);
        assert forall|k: int| 0 <= k < anchored.outputs.len() implies anchors_hold(
            anchored.anchors,
            #[trigger] anchored.outputs[k],
        ) by {
            assert(anchors_hold(pointed.anchors, pointed.outputs[k]));
        }
        assert(told(log, tip, anchored)) by {
            assert forall|k: int| 0 <= k < more.len() implies txid_of((#[trigger] more[k]).1) == more[k].0
                && told_confirmed(log, more[k].0, tip) by {
                if k < pointed.anchors.len() {
                    assert(more[k] == pointed.anchors[k]);
                }
            }
        }
    }
    assert(told(log, tip, anchored));
    assert(anchor_of(anchored.anchors, anchor.txid) == Some(tx));
    let output = tx.output[anchor.vout as int];
    let started = LiveView { outputs: with_output(anchored.outputs, anchor, output), ..anchored };
    assert(anchor.vout < tx.output.len() && vtxo_valid(vtxo.encoded, tx));
    assert(told(log, tip, started)) by {
        assert forall|k: int| 0 <= k < started.outputs.len() implies anchors_hold(
            started.anchors,
            #[trigger] started.outputs[k],
        ) by {
            if k < anchored.outputs.len() {
                assert(started.outputs[k] == anchored.outputs[k]);
            }
        }
    }
    assert(has_output(started.outputs, anchor)) by {
        if !has_output(anchored.outputs, anchor) {
            assert(started.outputs[anchored.outputs.len() as int].0 == anchor);
        }
    }
    (next, tx, started)
}

/// An outpoint that occurs among the spends is spent.
proof fn lemma_listed_is_spent(spends: Seq<(OutPoint, [u8; 32])>, k: int)
    requires
        0 <= k < spends.len(),
    ensures
        spent_by(spends, spends[k].0) is Some,
    decreases spends.len(),
{
    if spends.last().0 != spends[k].0 {
        lemma_listed_is_spent(spends.drop_last(), k);
    }
}

/// A gathered anchor transaction has the identifier that it is asked for by, and is confirmed.
proof fn lemma_anchor_of(log: Seq<AnswerView>, tip: BlockRef, anchors: Seq<([u8; 32], TransactionView)>, txid: [u8; 32])
    requires
        forall|k: int|
            0 <= k < anchors.len() ==> txid_of((#[trigger] anchors[k]).1) == anchors[k].0 && told_confirmed(
                log,
                anchors[k].0,
                tip,
            ),
    ensures
        anchor_of(anchors, txid) matches Some(tx) ==> txid_of(tx) == txid && told_confirmed(log, txid, tip),
    decreases anchors.len(),
{
    if anchors.len() > 0 {
        assert(anchors[anchors.len() - 1] == anchors.last());
        if anchors.last().0 != txid {
            let rest = anchors.drop_last();
            assert forall|k: int| 0 <= k < rest.len() implies txid_of((#[trigger] rest[k]).1) == rest[k].0
                && told_confirmed(log, rest[k].0, tip) by {
                assert(rest[k] == anchors[k]);
            }
            lemma_anchor_of(log, tip, rest, txid);
        }
    }
}

/// Gathering spends keeps the earlier ones and adds those of the transaction.
proof fn lemma_with_spends(spends: Seq<(OutPoint, [u8; 32])>, inputs: Seq<TxInView>, txid: [u8; 32], k: nat)
    requires
        with_spends(spends, inputs, txid, k) is Some,
    ensures
        ({
            let after = with_spends(spends, inputs, txid, k)->0;
            &&& spends.is_prefix_of(after)
            &&& forall|j: int|
                k <= j < inputs.len() ==> lists(after, (#[trigger] inputs[j]).previous_output, txid)
        }),
    decreases inputs.len() - k,
{
    if k < inputs.len() {
        let point = inputs[k as int].previous_output;
        let more = spends.push((point, txid));
        lemma_with_spends(more, inputs, txid, k + 1);
        let after = with_spends(spends, inputs, txid, k)->0;
        assert(more.is_prefix_of(after));
        assert(after[spends.len() as int] == more[spends.len() as int]);
        assert(lists(after, point, txid));
        assert(spends =~= after.take(spends.len() as int));
    } else {
        assert(spends =~= spends.take(spends.len() as int));
    }
}

/// Whether an outpoint is listed among the spends as spent by a transaction.
spec fn lists(spends: Seq<(OutPoint, [u8; 32])>, point: OutPoint, txid: [u8; 32]) -> bool {
    exists|k: int| 0 <= k < spends.len() && (#[trigger] spends[k]).0 == point && spends[k].1 == txid
}

/// What is listed among spends stays listed when spends are added.
proof fn lemma_lists_grow(
    spends: Seq<(OutPoint, [u8; 32])>,
    after: Seq<(OutPoint, [u8; 32])>,
    point: OutPoint,
    txid: [u8; 32],
)
    requires
        spends.is_prefix_of(after),
        lists(spends, point, txid),
    ensures
        lists(after, point, txid),
{
    let k = choose|k: int| 0 <= k < spends.len() && (#[trigger] spends[k]).0 == point && spends[k].1 == txid;
    assert(after[k] == spends[k]);
}

/// Whether the spends list everything that exits from one on spend.
spec fn lists_exits(spends: Seq<(OutPoint, [u8; 32])>, exits: Seq<(TransactionView, nat)>, j: int) -> bool {
    forall|i: int, k: int|
        j <= i < exits.len() && 0 <= k < (#[trigger] exits[i]).0.input.len() ==> lists(
            spends,
            (#[trigger] exits[i].0.input[k]).previous_output,
            txid_of(exits[i].0),
        )
}

/// The check of exits gathers only spends and identifiers, of which the log tells that they are
/// not published.
proof fn lemma_exits(
    log: Seq<AnswerView>,
    at: nat,
    tip: BlockRef,
    vtxo: VtxoView,
    exits: Seq<(TransactionView, nat)>,
    j: nat,
    state: LiveView,
)
    requires
        exits_from(log, at, vtxo, exits, j, state) is Ok,
        told(log, tip, state),
    ensures
        ({
            let after = exits_from(log, at, vtxo, exits, j, state)->Ok_0.1;
            &&& told(log, tip, after)
            &&& at <= (exits_from(log, at, vtxo, exits, j, state)->Ok_0).0
            &&& after.points == state.points && after.anchors == state.anchors && after.outputs == state.outputs
            &&& state.spends.is_prefix_of(after.spends)
            &&& lists_exits(after.spends, exits, j as int)
            &&& forall|i: int|
                j <= i < exits.len() ==> answered(
                    log,
                    ChainQuery::TxStatus(txid_of((#[trigger] exits[i]).0)),
                    ReplyView::TxStatus(TxStatus::NotFound),
                )
        }),
    decreases exits.len() - j,
{
    if j < exits.len() {
        let (tx, index) = exits[j as int];
        let txid = txid_of(tx);
        lemma_with_spends(state.spends, tx.input, txid, 0);
        let spends = with_spends(state.spends, tx.input, txid, 0)->0;
        let spent = LiveView { spends, ..state };
        assert(told(log, tip, spent));
        let listed = state.txids.contains(txid);
        let next = if listed { spent } else { LiveView { txids: state.txids.push(txid), ..spent } };
        if listed {
            let k = choose|k: int| 0 <= k < state.txids.len() && state.txids[k] == txid;
            assert(answered(log, ChainQuery::TxStatus(state.txids[k]), ReplyView::TxStatus(TxStatus::NotFound)));
        } else {
            assert(log[at as int].query == ChainQuery::TxStatus(txid));
            assert(answered(log, ChainQuery::TxStatus(txid), ReplyView::TxStatus(TxStatus::NotFound)));
            assert(told(log, tip, next)) by {
                assert forall|k: int| 0 <= k < next.txids.len() implies answered(
                    log,
                    ChainQuery::TxStatus(#[trigger] next.txids[k]),
                    ReplyView::TxStatus(TxStatus::NotFound),
                ) by {
                    if k < state.txids.len() {
                        assert(next.txids[k] == state.txids[k]);
                    }
                }
            }
        }
        let after_at: nat = if listed { at } else { at + 1 };
        lemma_exits(log, after_at, tip, vtxo, exits, j + 1, next);
        let after = exits_from(log, at, vtxo, exits, j, state)->Ok_0.1;
        assert forall|i: int, k: int|
            j <= i < exits.len() && 0 <= k < (#[trigger] exits[i]).0.input.len() implies lists(
            after.spends,
            (#[trigger] exits[i].0.input[k]).previous_output,
            txid_of(exits[i].0),
        ) by {
            if i == j {
                assert(lists(spends, tx.input[k].previous_output, txid));
                lemma_lists_grow(spends, after.spends, tx.input[k].previous_output, txid);
            }
        }
        assert(state.spends =~= after.spends.take(state.spends.len() as int));
    } else {
        assert(state.spends =~= state.spends.take(state.spends.len() as int));
    }
}

/// A check of exits that stops does not pass.
proof fn lemma_exits_stop(
    log: Seq<AnswerView>,
    at: nat,
    vtxo: VtxoView,
    exits: Seq<(TransactionView, nat)>,
    j: nat,
    state: LiveView,
)
    ensures
        exits_from(log, at, vtxo, exits, j, state) matches Err(step) ==> !(step is Pass),
    decreases exits.len() - j,
{
    if j < exits.len() {
        let (tx, index) = exits[j as int];
        let txid = txid_of(tx);
        match with_spends(state.spends, tx.input, txid, 0) {
            None => {},
            Some(spends) => {
                let spent = LiveView { spends, ..state };
                lemma_exits_stop(log, at, vtxo, exits, j + 1, spent);
                lemma_exits_stop(
                    log,
                    at + 1,
                    vtxo,
                    exits,
                    j + 1,
                    LiveView { txids: state.txids.push(txid), ..spent },
                );
            },
        }
    }
}

/// A check of an input that stops does not pass.
proof fn lemma_input_stops(
    log: Seq<AnswerView>,
    at: nat,
    tip: BlockRef,
    refund_safe_height: u32,
    vtxo: VtxoView,
    state: LiveView,
)
    ensures
        input_step(log, at, tip, refund_safe_height, vtxo, state) matches Err(step) ==> !(step is Pass),
{
    let pointed = LiveView { points: state.points.push(vtxo.point), ..state };
    match anchor_step(log, at, tip, vtxo.chain_anchor, pointed) {
        Err(_) => {},
        Ok((next, tx, anchored)) => {
            lemma_exits_stop(
                log,
                next,
                vtxo,
                vtxo_exits(vtxo.encoded),
                0,
                LiveView {
                    outputs: with_output(
                        anchored.outputs,
                        vtxo.chain_anchor,
                        tx.output[vtxo.chain_anchor.vout as int],
                    ),
                    ..anchored
                },
            );
        },
    }
}

/// Anchor outputs that pass the check are told to be unspent, and the tip is told again.
proof fn lemma_anchors(log: Seq<AnswerView>, at: nat, tip: BlockRef, outputs: Seq<(OutPoint, TxOutView)>, k: nat)
    requires
        anchors_from(log, at, tip, outputs, k) is Pass,
    ensures
        forall|i: int|
            k <= i < outputs.len() ==> answered(
                log,
                ChainQuery::Unspent((#[trigger] outputs[i]).0),
                ReplyView::Unspent(Some(outputs[i].1)),
            ),
        tip_told_from(log, at as int, tip),
    decreases outputs.len() - k,
{
    if k < outputs.len() {
        lemma_anchors(log, at + 1, tip, outputs, k + 1);
        assert(log[at as int].query == ChainQuery::Unspent(outputs[k as int].0));
    } else {
        assert(tip_at(log, at) == Ok::<BlockRef, CheckStep>(tip));
    }
}

/// What passing from one input on says of the rest and of what was gathered before.
spec fn rest_is_safe(
    log: Seq<AnswerView>,
    tip: BlockRef,
    refund_safe_height: u32,
    inputs: Seq<VtxoView>,
    i: int,
    state: LiveView,
) -> bool {
    &&& forall|k: int|
        i <= k < inputs.len() ==> input_refusal(tip, refund_safe_height, #[trigger] inputs[k]) is None && input_is_live(
            log,
            tip,
            inputs[k],
        ) && !state.points.contains(inputs[k].point)
    &&& forall|k: int, l: int|
        i <= k < l < inputs.len() ==> (#[trigger] inputs[k]).point != (#[trigger] inputs[l]).point
    &&& forall|e: int|
        0 <= e < state.outputs.len() ==> answered(
            log,
            ChainQuery::Unspent((#[trigger] state.outputs[e]).0),
            ReplyView::Unspent(Some(state.outputs[e].1)),
        )
    &&& forall|e: int, k: int|
        0 <= e < state.spends.len() && i <= k < inputs.len() ==> (#[trigger] state.spends[e]).0
            != (#[trigger] inputs[k]).point
    &&& forall|e: int, k: int|
        0 <= e < state.spends.len() && 0 <= k < state.points.len() ==> (#[trigger] state.spends[e]).0
            != #[trigger] state.points[k]
    &&& forall|a: int, b: int|
        i <= a < inputs.len() && i <= b < inputs.len() ==> exits_leave(
            vtxo_exits((#[trigger] inputs[a]).encoded),
            (#[trigger] inputs[b]).point,
        )
    &&& forall|a: int, b: int|
        i <= a < inputs.len() && 0 <= b < state.points.len() ==> exits_leave(
            vtxo_exits((#[trigger] inputs[a]).encoded),
            #[trigger] state.points[b],
        )
}

/// Inputs that pass from one on are safe.
#[verifier::rlimit(60)]
proof fn lemma_inputs(
    log: Seq<AnswerView>,
    at: nat,
    tip: BlockRef,
    refund_safe_height: u32,
    inputs: Seq<VtxoView>,
    i: nat,
    state: LiveView,
)
    requires
        inputs_from(log, at, tip, refund_safe_height, inputs, i, state) is Pass,
        told(log, tip, state),
    ensures
        rest_is_safe(log, tip, refund_safe_height, inputs, i as int, state),
        state.points.len() + (inputs.len() - i) > 0 || i > inputs.len(),
        tip_told_from(log, at as int, tip),
    decreases inputs.len() - i,
{
    if i >= inputs.len() {
        lemma_anchors(log, at, tip, state.outputs, 0);
        assert forall|e: int, k: int| 0 <= e < state.spends.len() && 0 <= k < state.points.len() implies (
        #[trigger] state.spends[e]).0 != #[trigger] state.points[k] by {
            lemma_listed_is_spent(state.spends, e);
        }
    } else {
        let vtxo = inputs[i as int];
        let (next, tx, started) = lemma_input_begins(log, at, tip, refund_safe_height, inputs, i, state);
        lemma_input_stops(log, at, tip, refund_safe_height, vtxo, state);
        let output = tx.output[vtxo.chain_anchor.vout as int];
        lemma_exits(log, next, tip, vtxo, vtxo_exits(vtxo.encoded), 0, started);
        let (last, after) = exits_from(log, next, vtxo, vtxo_exits(vtxo.encoded), 0, started)->Ok_0;
        lemma_inputs(log, last, tip, refund_safe_height, inputs, i + 1, after);
        assert(anchors_hold(after.anchors, (vtxo.chain_anchor, output)));
        lemma_step_is_safe(log, tip, refund_safe_height, inputs, i as int, state, after, tx, output);
    }
}

/// One more input that passes is safe with the rest.
#[verifier::rlimit(60)]
proof fn lemma_step_is_safe(
    log: Seq<AnswerView>,
    tip: BlockRef,
    refund_safe_height: u32,
    inputs: Seq<VtxoView>,
    i: int,
    state: LiveView,
    after: LiveView,
    tx: TransactionView,
    output: TxOutView,
)
    requires
        0 <= i < inputs.len(),
        rest_is_safe(log, tip, refund_safe_height, inputs, i + 1, after),
        !state.points.contains(inputs[i].point),
        after.points == state.points.push(inputs[i].point),
        after.outputs == with_output(state.outputs, inputs[i].chain_anchor, output),
        state.spends.is_prefix_of(after.spends),
        lists_exits(after.spends, vtxo_exits(inputs[i].encoded), 0),
        input_refusal(tip, refund_safe_height, inputs[i]) is None,
        vtxo_valid(inputs[i].encoded, tx),
        txid_of(tx) == inputs[i].chain_anchor.txid,
        told(log, tip, after),
        told_confirmed(log, inputs[i].chain_anchor.txid, tip),
        anchor_of(after.anchors, inputs[i].chain_anchor.txid) == Some(tx),
        inputs[i].chain_anchor.vout < tx.output.len(),
        output == tx.output[inputs[i].chain_anchor.vout as int],
        exits_unpublished(log, vtxo_exits(inputs[i].encoded)),
    ensures
        rest_is_safe(log, tip, refund_safe_height, inputs, i, state),
{
    let vtxo = inputs[i];
    let n = state.points.len() as int;
    assert(after.points[n] == vtxo.point);
    assert(forall|k: int| 0 <= k < n ==> after.points[k] == #[trigger] state.points[k]);
    assert(has_output(after.outputs, vtxo.chain_anchor)) by {
        if !has_output(state.outputs, vtxo.chain_anchor) {
            assert(after.outputs[state.outputs.len() as int].0 == vtxo.chain_anchor);
        }
    }
    let e = choose|e: int| 0 <= e < after.outputs.len() && (#[trigger] after.outputs[e]).0 == vtxo.chain_anchor;
    assert(answered(log, ChainQuery::Unspent(after.outputs[e].0), ReplyView::Unspent(Some(after.outputs[e].1))));
    assert(anchors_hold(after.anchors, after.outputs[e]));
    assert(after.outputs[e].1 == output);
    assert(input_is_live(log, tip, vtxo));
    assert forall|k: int| i <= k < inputs.len() implies input_refusal(tip, refund_safe_height, #[trigger] inputs[k]) is None
        && input_is_live(log, tip, inputs[k]) && !state.points.contains(inputs[k].point) by {
        if k > i && state.points.contains(inputs[k].point) {
            let m = choose|m: int| 0 <= m < n && state.points[m] == inputs[k].point;
            assert(after.points[m] == inputs[k].point);
            assert(after.points.contains(inputs[k].point));
        }
    }
    assert forall|k: int, l: int| i <= k < l < inputs.len() implies (#[trigger] inputs[k]).point != (
    #[trigger] inputs[l]).point by {
        if k == i && inputs[l].point == vtxo.point {
            assert(after.points.contains(inputs[l].point));
        }
    }
    assert forall|o: int| 0 <= o < state.outputs.len() implies answered(
        log,
        ChainQuery::Unspent((#[trigger] state.outputs[o]).0),
        ReplyView::Unspent(Some(state.outputs[o].1)),
    ) by {
        assert(after.outputs[o] == state.outputs[o]);
    }
    assert forall|s: int, k: int| 0 <= s < state.spends.len() && i <= k < inputs.len() implies (
    #[trigger] state.spends[s]).0 != (#[trigger] inputs[k]).point by {
        assert(after.spends[s] == state.spends[s]);
        if k == i {
            assert(after.spends[s].0 != after.points[n]);
        }
    }
    assert forall|s: int, k: int| 0 <= s < state.spends.len() && 0 <= k < state.points.len() implies (
    #[trigger] state.spends[s]).0 != #[trigger] state.points[k] by {
        assert(after.spends[s] == state.spends[s]);
        assert(after.points[k] == state.points[k]);
    }
    assert forall|a: int, b: int| i <= a < inputs.len() && i <= b < inputs.len() implies exits_leave(
        vtxo_exits((#[trigger] inputs[a]).encoded),
        (#[trigger] inputs[b]).point,
    ) by {
        if a == i {
            if b == i {
                lemma_listed_leave(after, vtxo_exits(vtxo.encoded), after.points[n]);
            } else {
                lemma_listed_leave(after, vtxo_exits(vtxo.encoded), inputs[b].point);
            }
        } else if b == i {
            assert(exits_leave(vtxo_exits(inputs[a].encoded), after.points[n]));
        }
    }
    assert forall|a: int, b: int| i <= a < inputs.len() && 0 <= b < state.points.len() implies exits_leave(
        vtxo_exits((#[trigger] inputs[a]).encoded),
        #[trigger] state.points[b],
    ) by {
        assert(after.points[b] == state.points[b]);
        if a == i {
            lemma_listed_leave(after, vtxo_exits(vtxo.encoded), after.points[b]);
        } else {
            assert(exits_leave(vtxo_exits(inputs[a].encoded), after.points[b]));
        }
    }
}

/// Exits whose spends are listed leave an outpoint that is not.
proof fn lemma_listed_leave(state: LiveView, exits: Seq<(TransactionView, nat)>, point: OutPoint)
    requires
        lists_exits(state.spends, exits, 0),
        forall|e: int| 0 <= e < state.spends.len() ==> (#[trigger] state.spends[e]).0 != point,
    ensures
        exits_leave(exits, point),
{
    assert forall|j: int, k: int|
        0 <= j < exits.len() && 0 <= k < (#[trigger] exits[j]).0.input.len() implies (
    #[trigger] exits[j].0.input[k]).previous_output != point by {
        assert(lists(state.spends, exits[j].0.input[k].previous_output, txid_of(exits[j].0)));
    }
}

/// Ark inputs that pass the check at a tip of height `h` with refund height `R` and margin `m`:
/// `h + m < R`, the margin is positive, and `R` is a block height; for every input, `R + m < h + exit_delta` and `expiry > R + m`, an ordinary
/// public-key policy, an off-chain position, a genesis that is valid on its anchor, an anchor that
/// is told confirmed in a block not above the tip, and unspent with the output that it has, and exits that are each told
/// unpublished; no input occurs twice, no exit spends an input, and exits that spend one outpoint are
/// one transaction. The tip is told again in the end, and is the same.
pub proof fn law_live_inputs_are_safe(
    log: Seq<AnswerView>,
    inputs: Seq<VtxoView>,
    refund_height: u32,
    safety_margin_blocks: u32,
)
    requires
        live_inputs(log, inputs, refund_height, safety_margin_blocks) is Pass,
    ensures
        inputs.len() > 0,
        exists|tip: BlockRef|
            {
                &&& #[trigger] tip_at(log, 0) == Ok::<BlockRef, CheckStep>(tip)
                &&& tip.height + safety_margin_blocks < refund_height
                &&& 0 < safety_margin_blocks && refund_height < LOCK_TIME_THRESHOLD
                &&& forall|i: int|
                    0 <= i < inputs.len() ==> {
                        &&& refund_height + safety_margin_blocks < tip.height + (#[trigger] inputs[i]).exit_delta
                        &&& inputs[i].expiry_height > refund_height + safety_margin_blocks
                        &&& inputs[i].pubkey_policy
                        &&& inputs[i].point != inputs[i].chain_anchor
                        &&& input_is_live(log, tip, inputs[i])
                    }
                &&& exists|end: nat| 0 < end && #[trigger] tip_at(log, end) == Ok::<BlockRef, CheckStep>(tip)
            },
        forall|i: int, k: int|
            0 <= i < inputs.len() && 0 <= k < inputs.len() ==> exits_agree(
                vtxo_exits((#[trigger] inputs[i]).encoded),
                vtxo_exits((#[trigger] inputs[k]).encoded),
            ),
        forall|i: int, k: int|
            0 <= i < k < inputs.len() ==> (#[trigger] inputs[i]).point != (#[trigger] inputs[k]).point,
        forall|i: int, k: int|
            0 <= i < inputs.len() && 0 <= k < inputs.len() ==> exits_leave(
                vtxo_exits((#[trigger] inputs[i]).encoded),
                (#[trigger] inputs[k]).point,
            ),
{
    let tip = tip_at(log, 0)->Ok_0;
    let safe = (refund_height + safety_margin_blocks) as u32;
    assert(told(log, tip, nothing_gathered()));
    lemma_inputs(log, 1, tip, safe, inputs, 0, nothing_gathered());
    let spends = lemma_inputs_consistent(log, 1, tip, safe, inputs, 0, nothing_gathered());
    assert forall|i: int, k: int| 0 <= i < inputs.len() && 0 <= k < inputs.len() implies exits_agree(
        vtxo_exits((#[trigger] inputs[i]).encoded),
        vtxo_exits((#[trigger] inputs[k]).encoded),
    ) by {
        lemma_listed_agree(spends, vtxo_exits(inputs[i].encoded), vtxo_exits(inputs[k].encoded));
    }
    let end = choose|end: nat| 1 <= end && #[trigger] tip_at(log, end) == Ok::<BlockRef, CheckStep>(tip);
    assert(0 < end && tip_at(log, end) == Ok::<BlockRef, CheckStep>(tip));
    assert(tip_at(log, 0) == Ok::<BlockRef, CheckStep>(tip));
    assert forall|i: int| 0 <= i < inputs.len() implies {
        &&& refund_height + safety_margin_blocks < tip.height + (#[trigger] inputs[i]).exit_delta
        &&& inputs[i].expiry_height > refund_height + safety_margin_blocks
        &&& inputs[i].pubkey_policy
        &&& inputs[i].point != inputs[i].chain_anchor
        &&& input_is_live(log, tip, inputs[i])
    } by {
        assert(input_refusal(tip, safe, inputs[i]) is None);
    }
}

/// Whether an exit of one of the inputs spends an output, by a transaction of this identifier.
pub open spec fn exit_spends(inputs: Seq<VtxoView>, point: OutPoint, txid: [u8; 32]) -> bool {
    exists|a: int, j: int, l: int|
        #![trigger vtxo_exits(inputs[a].encoded)[j].0.input[l]]
        {
            &&& 0 <= a < inputs.len() && 0 <= j < vtxo_exits(inputs[a].encoded).len()
            &&& 0 <= l < vtxo_exits(inputs[a].encoded)[j].0.input.len()
            &&& vtxo_exits(inputs[a].encoded)[j].0.input[l].previous_output == point
            &&& txid_of(vtxo_exits(inputs[a].encoded)[j].0) == txid
        }
}

/// Whether the chain told a transaction by its identifier.
pub open spec fn told_tx(log: Seq<AnswerView>, txid: [u8; 32], tx: TransactionView) -> bool {
    answered(log, ChainQuery::Tx(txid), ReplyView::Tx(Some(tx)))
}

/// Whether an error tells what is wrong with an Ark input.
pub open spec fn ark_input_fault(
    log: Seq<AnswerView>,
    tip: BlockRef,
    end: int,
    inputs: Seq<VtxoView>,
    a: int,
    error: SwapError,
) -> bool {
    let vtxo = inputs[a];
    let exits = vtxo_exits(vtxo.encoded);
    let anchor = vtxo.chain_anchor;
    match error {
        SwapError::DuplicateArkInput => exists|b: int| 0 <= b < a && (#[trigger] inputs[b]).point == vtxo.point,
        SwapError::ArkInputPolicy => !vtxo.pubkey_policy,
        SwapError::ArkInputExpires => vtxo.expiry_height <= end,
        SwapError::HeightOverflow => tip.height + vtxo.exit_delta > u32::MAX,
        SwapError::ArkExitTooSoon => tip.height + vtxo.exit_delta <= end,
        SwapError::ArkInputOnChain => vtxo.point == anchor,
        SwapError::AnchorUnknown => answered(log, ChainQuery::Tx(anchor.txid), ReplyView::Tx(None)),
        SwapError::AnchorMismatch => exists|tx: TransactionView| #[trigger]
            told_tx(log, anchor.txid, tx) && txid_of(tx) != anchor.txid,
        SwapError::InvalidGenesis => exists|tx: TransactionView| #[trigger]
            told_tx(log, anchor.txid, tx) && !vtxo_valid(vtxo.encoded, tx),
        SwapError::AnchorOutputMissing => exists|tx: TransactionView| #[trigger]
            told_tx(log, anchor.txid, tx) && anchor.vout >= tx.output.len(),
        SwapError::GenesisOutputMissing => exists|j: int|
            0 <= j < exits.len() && (#[trigger] exits[j]).1 >= exits[j].0.output.len(),
        SwapError::GenesisOutputMismatch => exists|j: int|
            0 <= j < exits.len() && (#[trigger] exits[j]).0.output[exits[j].1 as int] != vtxo_output(vtxo.encoded)
                && vtxo.point.txid == txid_of(exits[j].0),
        SwapError::ExitPublished => exists|j: int, k: int|
            0 <= j < exits.len() && 0 <= k < log.len() && (#[trigger] log[k]).query == ChainQuery::TxStatus(
                txid_of((#[trigger] exits[j]).0),
            ) && (log[k].reply matches ReplyView::TxStatus(status) && status != TxStatus::NotFound),
        SwapError::ConflictingAncestry => exists|point: OutPoint, one: [u8; 32], other: [u8; 32]|
            #![trigger exit_spends(inputs, point, one), exit_spends(inputs, point, other)]
            one != other && exit_spends(inputs, point, one) && exit_spends(inputs, point, other),
        SwapError::InputIsAncestor => exists|txid: [u8; 32]| #[trigger] exit_spends(inputs, vtxo.point, txid),
        SwapError::AnchorSpent => answered(log, ChainQuery::Unspent(anchor), ReplyView::Unspent(None)),
        SwapError::AnchorOutputMismatch => exists|tx: TransactionView, output: TxOutView|
            #![trigger told_tx(log, anchor.txid, tx), answered(
                log,
                ChainQuery::Unspent(anchor),
                ReplyView::Unspent(Some(output)),
            )]
            told_tx(log, anchor.txid, tx) && tx.output[anchor.vout as int] != output && answered(
                log,
                ChainQuery::Unspent(anchor),
                ReplyView::Unspent(Some(output)),
            ),
        _ => told_unconfirmed(log, anchor.txid, tip, error),
    }
}

/// Whether all that is gathered stems from the inputs and the answers.
spec fn traced(log: Seq<AnswerView>, inputs: Seq<VtxoView>, i: int, state: LiveView) -> bool {
    &&& forall|k: int|
        0 <= k < state.points.len() ==> exists|a: int|
            0 <= a < i && a < inputs.len() && (#[trigger] inputs[a]).point == #[trigger] state.points[k]
    &&& forall|k: int|
        0 <= k < state.anchors.len() ==> told_tx(log, (#[trigger] state.anchors[k]).0, state.anchors[k].1)
    &&& forall|k: int| 0 <= k < state.outputs.len() ==> #[trigger] output_traced(log, inputs, state.outputs[k])
    &&& spends_traced(inputs, state.spends)
}

/// Whether an output is the anchor of an input, as the chain told it.
spec fn output_traced(log: Seq<AnswerView>, inputs: Seq<VtxoView>, item: (OutPoint, TxOutView)) -> bool {
    exists|a: int, tx: TransactionView|
        #![trigger inputs[a], told_tx(log, item.0.txid, tx)]
        0 <= a < inputs.len() && inputs[a].chain_anchor == item.0 && told_tx(log, item.0.txid, tx)
            && tx.output[item.0.vout as int] == item.1
}

/// Whether every spend is of an exit of the inputs.
spec fn spends_traced(inputs: Seq<VtxoView>, spends: Seq<(OutPoint, [u8; 32])>) -> bool {
    forall|k: int| 0 <= k < spends.len() ==> exit_spends(inputs, (#[trigger] spends[k]).0, spends[k].1)
}

/// The spends of an exit are traced, and conflict only where two exits do.
proof fn lemma_spends_are_traced(
    inputs: Seq<VtxoView>,
    a: int,
    j: int,
    spends: Seq<(OutPoint, [u8; 32])>,
    k: nat,
)
    requires
        0 <= a < inputs.len(),
        0 <= j < vtxo_exits(inputs[a].encoded).len(),
        spends_traced(inputs, spends),
    ensures
        ({
            let tx = vtxo_exits(inputs[a].encoded)[j].0;
            match with_spends(spends, tx.input, txid_of(tx), k) {
                Some(after) => spends_traced(inputs, after),
                None => exists|point: OutPoint, one: [u8; 32], other: [u8; 32]|
                    #![trigger exit_spends(inputs, point, one), exit_spends(inputs, point, other)]
                    one != other && exit_spends(inputs, point, one) && exit_spends(inputs, point, other),
            }
        }),
    decreases vtxo_exits(inputs[a].encoded)[j].0.input.len() - k,
{
    let tx = vtxo_exits(inputs[a].encoded)[j].0;
    let txid = txid_of(tx);
    if k < tx.input.len() {
        let point = tx.input[k as int].previous_output;
        assert(vtxo_exits(inputs[a].encoded)[j].0.input[k as int].previous_output == point);
        assert(exit_spends(inputs, point, txid));
        if spent_by(spends, point) is Some {
            lemma_spent_is_listed(spends, point);
        }
        let pushed = spends.push((point, txid));
        assert forall|e: int| 0 <= e < pushed.len() implies exit_spends(inputs, (#[trigger] pushed[e]).0, pushed[e].1) by {
            if e < spends.len() {
                assert(pushed[e] == spends[e]);
            }
        }
        lemma_spends_are_traced(inputs, a, j, pushed, k + 1);
    }
}

/// The exits of an input are refused for a fault.
proof fn lemma_exit_faults(
    log: Seq<AnswerView>,
    at: nat,
    tip: BlockRef,
    end: int,
    inputs: Seq<VtxoView>,
    a: int,
    j: nat,
    state: LiveView,
)
    requires
        0 <= a < inputs.len(),
        traced(log, inputs, a + 1, state),
    ensures
        match exits_from(log, at, inputs[a], vtxo_exits(inputs[a].encoded), j, state) {
            Ok((_, after)) => traced(log, inputs, a + 1, after),
            Err(CheckStep::Fail(error)) => error == SwapError::UnexpectedReply || ark_input_fault(
                log,
                tip,
                end,
                inputs,
                a,
                error,
            ),
            _ => true,
        },
    decreases vtxo_exits(inputs[a].encoded).len() - j,
{
    let exits = vtxo_exits(inputs[a].encoded);
    if j < exits.len() {
        let (tx, index) = exits[j as int];
        let txid = txid_of(tx);
        lemma_spends_are_traced(inputs, a, j as int, state.spends, 0);
        if index >= tx.output.len() {
            assert(exits[j as int].1 >= exits[j as int].0.output.len());
        } else if (OutPoint { txid, vout: index as u32 }) == inputs[a].point && tx.output[index as int] != vtxo_output(
            inputs[a].encoded,
        ) {
            assert(exits[j as int].0.output[exits[j as int].1 as int] != vtxo_output(inputs[a].encoded));
        } else if with_spends(state.spends, tx.input, txid, 0) is Some {
            let spent = LiveView { spends: with_spends(state.spends, tx.input, txid, 0)->0, ..state };
            assert(traced(log, inputs, a + 1, spent));
            if state.txids.contains(txid) {
                lemma_exit_faults(log, at, tip, end, inputs, a, j + 1, spent);
            } else {
                let seen = LiveView { txids: state.txids.push(txid), ..spent };
                assert(traced(log, inputs, a + 1, seen));
                lemma_exit_faults(log, at + 1, tip, end, inputs, a, j + 1, seen);
                if let Ok(status) = status_at(log, at, txid) {
                    if status != TxStatus::NotFound {
                        assert(log[at as int].query == ChainQuery::TxStatus(txid_of(exits[j as int].0)));
                    }
                }
            }
        }
    }
}

/// The anchor that is found was told.
proof fn lemma_anchor_was_told(log: Seq<AnswerView>, anchors: Seq<([u8; 32], TransactionView)>, txid: [u8; 32])
    requires
        forall|k: int| 0 <= k < anchors.len() ==> told_tx(log, (#[trigger] anchors[k]).0, anchors[k].1),
    ensures
        anchor_of(anchors, txid) matches Some(tx) ==> told_tx(log, txid, tx),
    decreases anchors.len(),
{
    if anchors.len() > 0 {
        assert(told_tx(log, anchors[anchors.len() - 1].0, anchors[anchors.len() - 1].1));
        if anchors.last().0 != txid {
            let front = anchors.drop_last();
            assert forall|k: int| 0 <= k < front.len() implies told_tx(log, (#[trigger] front[k]).0, front[k].1) by {
                assert(front[k] == anchors[k]);
            }
            lemma_anchor_was_told(log, front, txid);
        }
    }
}

/// An input is refused for a fault.
proof fn lemma_input_faults(
    log: Seq<AnswerView>,
    at: nat,
    tip: BlockRef,
    end: u32,
    inputs: Seq<VtxoView>,
    a: int,
    state: LiveView,
)
    requires
        0 <= a < inputs.len(),
        traced(log, inputs, a, state),
    ensures
        match input_step(log, at, tip, end, inputs[a], state) {
            Ok((_, after)) => traced(log, inputs, a + 1, after),
            Err(CheckStep::Fail(error)) => error == SwapError::UnexpectedReply || ark_input_fault(
                log,
                tip,
                end as int,
                inputs,
                a,
                error,
            ),
            _ => true,
        },
{
    let vtxo = inputs[a];
    let anchor = vtxo.chain_anchor;
    let pointed = LiveView { points: state.points.push(vtxo.point), ..state };
    if state.points.contains(vtxo.point) {
        let k = choose|k: int| 0 <= k < state.points.len() && state.points[k] == vtxo.point;
        assert(state.points[k] == vtxo.point);
    } else if input_refusal(tip, end, vtxo) is None {
        assert forall|k: int| 0 <= k < pointed.points.len() implies exists|b: int|
            0 <= b < a + 1 && b < inputs.len() && (#[trigger] inputs[b]).point == #[trigger] pointed.points[k] by {
            if k < state.points.len() {
                assert(pointed.points[k] == state.points[k]);
                let b = choose|b: int|
                    0 <= b < a && b < inputs.len() && (#[trigger] inputs[b]).point == state.points[k];
                assert(inputs[b].point == pointed.points[k]);
            } else {
                assert(inputs[a].point == pointed.points[k]);
            }
        }
        lemma_told_unconfirmed(log, at, anchor.txid, tip);
        lemma_anchor_was_told(log, state.anchors, anchor.txid);
        if let Ok(found) = tx_at(log, at + 2, anchor.txid) {
            assert(log[at as int + 2].query == ChainQuery::Tx(anchor.txid));
            if let Some(tx) = found {
                assert(told_tx(log, anchor.txid, tx));
            }
        }
        if let Ok((next, tx, anchored)) = anchor_step(log, at, tip, anchor, pointed) {
            assert(told_tx(log, anchor.txid, tx));
            assert(traced(log, inputs, a + 1, anchored)) by {
                assert forall|k: int| 0 <= k < anchored.anchors.len() implies told_tx(
                    log,
                    (#[trigger] anchored.anchors[k]).0,
                    anchored.anchors[k].1,
                ) by {
                    if k < state.anchors.len() {
                        assert(anchored.anchors[k] == state.anchors[k]);
                    }
                }
            }
            if vtxo_valid(vtxo.encoded, tx) && anchor.vout < tx.output.len() {
                let output = tx.output[anchor.vout as int];
                let begun = LiveView { outputs: with_output(anchored.outputs, anchor, output), ..anchored };
                assert(traced(log, inputs, a + 1, begun)) by {
                    assert forall|k: int| 0 <= k < begun.outputs.len() implies #[trigger] output_traced(
                        log,
                        inputs,
                        begun.outputs[k],
                    ) by {
                        if k < anchored.outputs.len() {
                            assert(begun.outputs[k] == anchored.outputs[k]);
                        } else {
                            assert(inputs[a].chain_anchor == begun.outputs[k].0);
                        }
                    }
                }
                lemma_exit_faults(log, next, tip, end as int, inputs, a, 0, begun);
            }
        }
    }
}

/// The anchors are refused for a fault.
proof fn lemma_anchor_faults(
    log: Seq<AnswerView>,
    at: nat,
    tip: BlockRef,
    end: int,
    inputs: Seq<VtxoView>,
    state: LiveView,
    k: nat,
)
    requires
        traced(log, inputs, inputs.len() as int, state),
    ensures
        anchors_from(log, at, tip, state.outputs, k) matches CheckStep::Fail(error) ==> match error {
            SwapError::UnexpectedReply => true,
            SwapError::TipChanged => exists|l: int|
                0 <= l < log.len() && (#[trigger] log[l]).query == ChainQuery::Tip && log[l].reply != ReplyView::Tip(tip),
            _ => exists|a: int| 0 <= a < inputs.len() && #[trigger] ark_input_fault(log, tip, end, inputs, a, error),
        },
    decreases state.outputs.len() - k,
{
    if k >= state.outputs.len() {
        if anchors_from(log, at, tip, state.outputs, k) == CheckStep::Fail(SwapError::TipChanged) {
            assert(log[at as int].query == ChainQuery::Tip);
        }
    } else {
        let item = state.outputs[k as int];
        assert(output_traced(log, inputs, state.outputs[k as int]));
        let (a, tx) = choose|a: int, tx: TransactionView|
            #![trigger inputs[a], told_tx(log, item.0.txid, tx)]
            0 <= a < inputs.len() && inputs[a].chain_anchor == item.0 && told_tx(log, item.0.txid, tx)
                && tx.output[item.0.vout as int] == item.1;
        lemma_anchor_faults(log, at + 1, tip, end, inputs, state, k + 1);
        if let Ok(found) = unspent_at(log, at, item.0) {
            assert(log[at as int].query == ChainQuery::Unspent(item.0));
            if let Some(output) = found {
                assert(answered(log, ChainQuery::Unspent(item.0), ReplyView::Unspent(Some(output))));
                if output != item.1 {
                    assert(ark_input_fault(log, tip, end, inputs, a, SwapError::AnchorOutputMismatch));
                }
            } else {
                assert(answered(log, ChainQuery::Unspent(item.0), ReplyView::Unspent(None)));
                assert(ark_input_fault(log, tip, end, inputs, a, SwapError::AnchorSpent));
            }
        }
    }
}

/// The inputs are refused for a fault of one of them.
proof fn lemma_inputs_faults(
    log: Seq<AnswerView>,
    at: nat,
    tip: BlockRef,
    end: u32,
    inputs: Seq<VtxoView>,
    i: nat,
    state: LiveView,
)
    requires
        i <= inputs.len(),
        traced(log, inputs, i as int, state),
        state.points.len() == i,
    ensures
        inputs_from(log, at, tip, end, inputs, i, state) matches CheckStep::Fail(error) ==> match error {
            SwapError::UnexpectedReply => true,
            SwapError::NoArkInputs => inputs.len() == 0,
            SwapError::TipChanged => exists|l: int|
                0 <= l < log.len() && (#[trigger] log[l]).query == ChainQuery::Tip && log[l].reply != ReplyView::Tip(tip),
            _ => exists|a: int| 0 <= a < inputs.len() && #[trigger] ark_input_fault(log, tip, end as int, inputs, a, error),
        },
    decreases inputs.len() - i,
{
    if i >= inputs.len() {
        lemma_anchor_faults(log, at, tip, end as int, inputs, state, 0);
        if overlaps(state) {
            let k = choose|k: int| 0 <= k < state.points.len() && spent_by(state.spends, #[trigger] state.points[k]) is Some;
            let point = state.points[k];
            lemma_spent_is_listed(state.spends, point);
            let a = choose|a: int| 0 <= a < i && a < inputs.len() && (#[trigger] inputs[a]).point == state.points[k];
            let e = choose|e: int|
                0 <= e < state.spends.len() && (#[trigger] state.spends[e]).0 == point && state.spends[e].1 == spent_by(
                    state.spends,
                    point,
                )->0;
            assert(exit_spends(inputs, state.spends[e].0, state.spends[e].1));
            assert(ark_input_fault(log, tip, end as int, inputs, a, SwapError::InputIsAncestor));
        }
    } else {
        lemma_input_faults(log, at, tip, end, inputs, i as int, state);
        match input_step(log, at, tip, end, inputs[i as int], state) {
            Ok((next, after)) => {
                lemma_points_grow(log, at, tip, end, inputs[i as int], state);
                lemma_inputs_faults(log, next, tip, end, inputs, i + 1, after);
            },
            Err(CheckStep::Fail(error)) => {
                if error != SwapError::UnexpectedReply {
                    assert(ark_input_fault(log, tip, end as int, inputs, i as int, error));
                    assert(error != SwapError::NoArkInputs && error != SwapError::TipChanged) by {
                        lemma_fault_is_of_an_input(log, tip, end as int, inputs, i as int, error);
                    }
                }
            },
            _ => {},
        }
    }
}

/// A fault of an input is not that there is none, or that the tip changed.
proof fn lemma_fault_is_of_an_input(
    log: Seq<AnswerView>,
    tip: BlockRef,
    end: int,
    inputs: Seq<VtxoView>,
    a: int,
    error: SwapError,
)
    requires
        ark_input_fault(log, tip, end, inputs, a, error),
    ensures
        error != SwapError::NoArkInputs && error != SwapError::TipChanged,
{
}

/// The exits leave the points as they are.
proof fn lemma_exits_keep_the_points(
    log: Seq<AnswerView>,
    at: nat,
    vtxo: VtxoView,
    exits: Seq<(TransactionView, nat)>,
    j: nat,
    state: LiveView,
)
    ensures
        exits_from(log, at, vtxo, exits, j, state) matches Ok((_, after)) ==> after.points == state.points,
    decreases exits.len() - j,
{
    if j < exits.len() {
        let (tx, index) = exits[j as int];
        let txid = txid_of(tx);
        if with_spends(state.spends, tx.input, txid, 0) is Some {
            let spent = LiveView { spends: with_spends(state.spends, tx.input, txid, 0)->0, ..state };
            lemma_exits_keep_the_points(log, at, vtxo, exits, j + 1, spent);
            lemma_exits_keep_the_points(
                log,
                at + 1,
                vtxo,
                exits,
                j + 1,
                LiveView { txids: state.txids.push(txid), ..spent },
            );
        }
    }
}

/// Every input adds its point.
proof fn lemma_points_grow(log: Seq<AnswerView>, at: nat, tip: BlockRef, end: u32, vtxo: VtxoView, state: LiveView)
    ensures
        input_step(log, at, tip, end, vtxo, state) matches Ok((_, after)) ==> after.points == state.points.push(vtxo.point),
{
    let pointed = LiveView { points: state.points.push(vtxo.point), ..state };
    if let Ok((next, tx, anchored)) = anchor_step(log, at, tip, vtxo.chain_anchor, pointed) {
        if vtxo.chain_anchor.vout < tx.output.len() {
            lemma_exits_keep_the_points(
                log,
                next,
                vtxo,
                vtxo_exits(vtxo.encoded),
                0,
                LiveView {
                    outputs: with_output(
                        anchored.outputs,
                        vtxo.chain_anchor,
                        tx.output[vtxo.chain_anchor.vout as int],
                    ),
                    ..anchored
                },
            );
        }
    }
}

/// Ark inputs are refused only for a reason: the window before the refund is not open, there are none, the
/// chain changed its tip or answered something else, or one of them has a fault, such as that it expires
/// before the end of the margin after the refund, or could be exited before it.
pub proof fn law_live_inputs_are_refused_for_a_fault(
    log: Seq<AnswerView>,
    inputs: Seq<VtxoView>,
    refund_height: u32,
    safety_margin_blocks: u32,
)
    ensures
        live_inputs(log, inputs, refund_height, safety_margin_blocks) matches CheckStep::Fail(error) ==> ({
            let end = refund_height + safety_margin_blocks;
            ||| error == SwapError::UnexpectedReply
            ||| tip_at(log, 0) matches Ok(tip) && match error {
                SwapError::MarginZero => safety_margin_blocks == 0,
                SwapError::InvalidRefundHeight => refund_height >= 500_000_000,
                SwapError::WindowTooShort => tip.height + safety_margin_blocks >= refund_height,
                SwapError::NoArkInputs => inputs.len() == 0,
                SwapError::TipChanged => exists|l: int|
                    0 <= l < log.len() && (#[trigger] log[l]).query == ChainQuery::Tip && log[l].reply != ReplyView::Tip(
                        tip,
                    ),
                SwapError::HeightOverflow => tip.height + safety_margin_blocks > u32::MAX || end > u32::MAX || exists|
                    a: int,
                |
                    0 <= a < inputs.len() && tip.height + (#[trigger] inputs[a]).exit_delta > u32::MAX,
                _ => exists|a: int| 0 <= a < inputs.len() && #[trigger] ark_input_fault(log, tip, end, inputs, a, error),
            }
        }),
{
    if let Ok(tip) = tip_at(log, 0) {
        let end = refund_height + safety_margin_blocks;
        if window_refusal(tip.height, refund_height, safety_margin_blocks) is None && end <= u32::MAX {
            lemma_inputs_faults(log, 1, tip, end as u32, inputs, 0, nothing_gathered());
            if let CheckStep::Fail(error) = live_inputs(log, inputs, refund_height, safety_margin_blocks) {
                if error == SwapError::HeightOverflow {
                    let a = choose|a: int|
                        0 <= a < inputs.len() && #[trigger] ark_input_fault(log, tip, end, inputs, a, error);
                    assert(tip.height + inputs[a].exit_delta > u32::MAX);
                }
                if error == SwapError::MarginZero || error == SwapError::InvalidRefundHeight || error
                    == SwapError::WindowTooShort {
                    let a = choose|a: int|
                        0 <= a < inputs.len() && #[trigger] ark_input_fault(log, tip, end, inputs, a, error);
                    assert(told_unconfirmed(log, inputs[a].chain_anchor.txid, tip, error));
                }
            }
        }
    }
}

/// How many answers the check of inputs needs at most: the tip before and after, three on the anchor of an input
/// and one on its output, and one on each of its exits.
pub open spec fn answers_needed(inputs: Seq<VtxoView>, i: int) -> int
    decreases inputs.len() - i,
{
    if i >= inputs.len() || i < 0 {
        1
    } else {
        4 + vtxo_exits(inputs[i].encoded).len() + answers_needed(inputs, i + 1)
    }
}

/// Every exit needs at most one answer, and leaves the outputs as they are.
proof fn lemma_exits_need(
    log: Seq<AnswerView>,
    at: nat,
    vtxo: VtxoView,
    exits: Seq<(TransactionView, nat)>,
    j: nat,
    state: LiveView,
)
    requires
        j <= exits.len(),
    ensures
        match exits_from(log, at, vtxo, exits, j, state) {
            Ok((next, after)) => next <= at + exits.len() - j && after.outputs == state.outputs,
            Err(CheckStep::Need(_)) => log.len() < at + exits.len() - j,
            _ => true,
        },
    decreases exits.len() - j,
{
    if j < exits.len() {
        let (tx, index) = exits[j as int];
        let txid = txid_of(tx);
        if with_spends(state.spends, tx.input, txid, 0) is Some {
            let spent = LiveView { spends: with_spends(state.spends, tx.input, txid, 0)->0, ..state };
            lemma_exits_need(log, at, vtxo, exits, j + 1, spent);
            lemma_exits_need(
                log,
                at + 1,
                vtxo,
                exits,
                j + 1,
                LiveView { txids: state.txids.push(txid), ..spent },
            );
        }
    }
}

/// Every anchor output needs one answer, and the tip another one.
proof fn lemma_anchors_need(log: Seq<AnswerView>, at: nat, tip: BlockRef, outputs: Seq<(OutPoint, TxOutView)>, k: nat)
    requires
        k <= outputs.len(),
    ensures
        anchors_from(log, at, tip, outputs, k) is Need ==> log.len() < at + outputs.len() - k + 1,
    decreases outputs.len() - k,
{
    if k < outputs.len() {
        lemma_anchors_need(log, at + 1, tip, outputs, k + 1);
    }
}

/// The inputs that are left need at most so many answers.
proof fn lemma_inputs_need(
    log: Seq<AnswerView>,
    at: nat,
    tip: BlockRef,
    end: u32,
    inputs: Seq<VtxoView>,
    i: nat,
    state: LiveView,
)
    requires
        i <= inputs.len(),
    ensures
        inputs_from(log, at, tip, end, inputs, i, state) is Need ==> log.len() < at + answers_needed(inputs, i as int)
            + state.outputs.len(),
        answers_needed(inputs, i as int) >= 1,
    decreases inputs.len() - i,
{
    if i >= inputs.len() {
        lemma_anchors_need(log, at, tip, state.outputs, 0);
    } else {
        let vtxo = inputs[i as int];
        let pointed = LiveView { points: state.points.push(vtxo.point), ..state };
        if let Ok((next, tx, anchored)) = anchor_step(log, at, tip, vtxo.chain_anchor, pointed) {
            assert(next <= at + 3 && anchored.outputs == state.outputs);
            if vtxo.chain_anchor.vout < tx.output.len() {
                let begun = LiveView {
                    outputs: with_output(
                        anchored.outputs,
                        vtxo.chain_anchor,
                        tx.output[vtxo.chain_anchor.vout as int],
                    ),
                    ..anchored
                };
                assert(begun.outputs.len() <= state.outputs.len() + 1);
                lemma_exits_need(log, next, vtxo, vtxo_exits(vtxo.encoded), 0, begun);
            }
        }
        if let Ok((next, after)) = input_step(log, at, tip, end, vtxo, state) {
            lemma_inputs_need(log, next, tip, end, inputs, i + 1, after);
        } else {
            lemma_inputs_need(log, at, tip, end, inputs, i + 1, state);
        }
    }
}

/// At least the tip is asked for in the end.
proof fn lemma_some_answer_is_needed(inputs: Seq<VtxoView>, i: int)
    ensures
        answers_needed(inputs, i) >= 1,
    decreases inputs.len() - i,
{
    if 0 <= i < inputs.len() {
        lemma_some_answer_is_needed(inputs, i + 1);
    }
}

/// The check of Ark inputs comes to an end: it asks for no more than the tip twice, four answers on each input, and
/// one on each of its exits; where it then does not fail for a fault, it passes.
pub proof fn law_live_check_comes_to_an_end(
    log: Seq<AnswerView>,
    inputs: Seq<VtxoView>,
    refund_height: u32,
    safety_margin_blocks: u32,
)
    requires
        log.len() >= 1 + answers_needed(inputs, 0),
    ensures
        !(live_inputs(log, inputs, refund_height, safety_margin_blocks) is Need),
{
    if let Ok(tip) = tip_at(log, 0) {
        let end = refund_height + safety_margin_blocks;
        if end <= u32::MAX {
            lemma_inputs_need(log, 1, tip, end as u32, inputs, 0, nothing_gathered());
        }
    } else {
        lemma_some_answer_is_needed(inputs, 0);
    }
}

} // verus!
