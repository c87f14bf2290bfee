//! What a chain backend is asked, and what it answers.

use vstd::prelude::*;

use crate::error::SwapError;
use crate::tx::{same_id, OutPoint, Transaction, TransactionView, TxOut, TxOutView};

verus! {

/// A block of the chain.
#[derive(Clone, Copy, Debug, PartialEq, Eq)]
pub struct BlockRef {
    pub height: u32,
    pub hash: [u8; 32],
}

impl BlockRef {
    /// Whether two blocks are the same.
    pub fn same(&self, other: &BlockRef) -> (same: bool)
        ensures
            same == (*self == *other),
    {
        self.height == other.height && same_id(&self.hash, &other.hash)
    }
}

/// Where a transaction is.
#[derive(Clone, Copy, Debug, PartialEq, Eq)]
pub enum TxStatus {
    Confirmed(BlockRef),
    Mempool,
    NotFound,
}

/// A question to the chain backend.
#[derive(Clone, Copy, Debug, PartialEq, Eq)]
pub enum ChainQuery {
    /// The tip of the chain.
    Tip,
    /// Where a transaction is.
    TxStatus([u8; 32]),
    /// The block at a height.
    Block(u32),
    /// A transaction.
    Tx([u8; 32]),
    /// An output that is not spent.
    Unspent(OutPoint),
}

/// An answer of the chain backend.
#[derive(Debug, PartialEq, Eq)]
pub enum ChainReply {
    Tip(BlockRef),
    TxStatus(TxStatus),
    Block(BlockRef),
    Tx(Option<Transaction>),
    Unspent(Option<TxOut>),
}

/// What an answer says.
pub enum ReplyView {
    Tip(BlockRef),
    TxStatus(TxStatus),
    Block(BlockRef),
    Tx(Option<TransactionView>),
    Unspent(Option<TxOutView>),
}

impl View for ChainReply {
    type V = ReplyView;

    open spec fn view(&self) -> ReplyView {
        match *self {
            ChainReply::Tip(block) => ReplyView::Tip(block),
            ChainReply::TxStatus(status) => ReplyView::TxStatus(status),
            ChainReply::Block(block) => ReplyView::Block(block),
            ChainReply::Tx(Some(tx)) => ReplyView::Tx(Some(tx@)),
            ChainReply::Tx(None) => ReplyView::Tx(None),
            ChainReply::Unspent(Some(output)) => ReplyView::Unspent(Some(output@)),
            ChainReply::Unspent(None) => ReplyView::Unspent(None),
        }
    }
}

/// A question with its answer.
#[derive(Debug, PartialEq, Eq)]
pub struct ChainAnswer {
    pub query: ChainQuery,
    pub reply: ChainReply,
}

/// A question with what its answer says.
pub struct AnswerView {
    pub query: ChainQuery,
    pub reply: ReplyView,
}

impl View for ChainAnswer {
    type V = AnswerView;

    open spec fn view(&self) -> AnswerView {
        AnswerView { query: self.query, reply: self.reply@ }
    }
}

/// What a list of answers says.
pub open spec fn answer_views(answers: Seq<ChainAnswer>) -> Seq<AnswerView> {
    answers.map_values(|answer: ChainAnswer| answer@)
}

/// How far a check has come.
#[derive(Clone, Copy, Debug, PartialEq, Eq)]
pub enum CheckStep {
    /// An answer is needed to go on.
    Need(ChainQuery),
    /// The check fails.
    Fail(SwapError),
    /// The check passes.
    Pass,
}

impl ChainQuery {
    /// Whether two questions are the same.
    pub fn same(&self, other: &ChainQuery) -> (same: bool)
        ensures
            same == (*self == *other),
    {
        match (self, other) {
            (ChainQuery::Tip, ChainQuery::Tip) => true,
            (ChainQuery::TxStatus(a), ChainQuery::TxStatus(b)) => same_id(a, b),
            (ChainQuery::Block(a), ChainQuery::Block(b)) => *a == *b,
            (ChainQuery::Tx(a), ChainQuery::Tx(b)) => same_id(a, b),
            (ChainQuery::Unspent(a), ChainQuery::Unspent(b)) => a.same(b),
            _ => false,
        }
    }
}

/// The answer at a place of a log, where it is an answer to the question.
pub open spec fn answer_at(log: Seq<AnswerView>, at: nat, query: ChainQuery) -> Result<ReplyView, CheckStep> {
    if at >= log.len() {
        Err(CheckStep::Need(query))
    } else if log[at as int].query != query {
        Err(CheckStep::Fail(SwapError::UnexpectedReply))
    } else {
        Ok(log[at as int].reply)
    }
}

/// The tip that the answer at a place tells.
pub open spec fn tip_at(log: Seq<AnswerView>, at: nat) -> Result<BlockRef, CheckStep> {
    match answer_at(log, at, ChainQuery::Tip) {
        Ok(ReplyView::Tip(block)) => Ok(block),
        Ok(_) => Err(CheckStep::Fail(SwapError::UnexpectedReply)),
        Err(step) => Err(step),
    }
}

/// The status that the answer at a place tells.
pub open spec fn status_at(log: Seq<AnswerView>, at: nat, txid: [u8; 32]) -> Result<TxStatus, CheckStep> {
    match answer_at(log, at, ChainQuery::TxStatus(txid)) {
        Ok(ReplyView::TxStatus(status)) => Ok(status),
        Ok(_) => Err(CheckStep::Fail(SwapError::UnexpectedReply)),
        Err(step) => Err(step),
    }
}

/// The block that the answer at a place tells.
pub open spec fn block_at(log: Seq<AnswerView>, at: nat, height: u32) -> Result<BlockRef, CheckStep> {
    match answer_at(log, at, ChainQuery::Block(height)) {
        Ok(ReplyView::Block(block)) => Ok(block),
        Ok(_) => Err(CheckStep::Fail(SwapError::UnexpectedReply)),
        Err(step) => Err(step),
    }
}

/// The transaction that the answer at a place tells.
pub open spec fn tx_at(log: Seq<AnswerView>, at: nat, txid: [u8; 32]) -> Result<Option<TransactionView>, CheckStep> {
    match answer_at(log, at, ChainQuery::Tx(txid)) {
        Ok(ReplyView::Tx(tx)) => Ok(tx),
        Ok(_) => Err(CheckStep::Fail(SwapError::UnexpectedReply)),
        Err(step) => Err(step),
    }
}

/// The unspent output that the answer at a place tells.
pub open spec fn unspent_at(log: Seq<AnswerView>, at: nat, point: OutPoint) -> Result<Option<TxOutView>, CheckStep> {
    match answer_at(log, at, ChainQuery::Unspent(point)) {
        Ok(ReplyView::Unspent(output)) => Ok(output),
        Ok(_) => Err(CheckStep::Fail(SwapError::UnexpectedReply)),
        Err(step) => Err(step),
    }
}

/// The answer at a place of a log, where it is an answer to the question.
fn read_answer(log: &Vec<ChainAnswer>, at: usize, query: ChainQuery) -> (reply: Result<&ChainReply, CheckStep>)
    ensures
        match reply {
            Ok(found) => answer_at(answer_views(log@), at as nat, query) == Ok::<ReplyView, CheckStep>(found@),
            Err(step) => answer_at(answer_views(log@), at as nat, query) == Err::<ReplyView, CheckStep>(step),
        },
{
    if at >= log.len() {
        return Err(CheckStep::Need(query));
    }
    let answer = &log[at];
    assert(answer_views(log@)[at as int] == answer@);
    if answer.query.same(&query) {
        Ok(&answer.reply)
    } else {
        Err(CheckStep::Fail(SwapError::UnexpectedReply))
    }
}

/// The tip that the answer at a place tells.
pub fn read_tip(log: &Vec<ChainAnswer>, at: usize) -> (tip: Result<BlockRef, CheckStep>)
    ensures
        tip == tip_at(answer_views(log@), at as nat),
{
    match read_answer(log, at, ChainQuery::Tip) {
        Ok(ChainReply::Tip(block)) => Ok(*block),
        Ok(_) => Err(CheckStep::Fail(SwapError::UnexpectedReply)),
        Err(step) => Err(step),
    }
}

/// The status that the answer at a place tells.
pub fn read_status(log: &Vec<ChainAnswer>, at: usize, txid: [u8; 32]) -> (status: Result<TxStatus, CheckStep>)
    ensures
        status == status_at(answer_views(log@), at as nat, txid),
{
    match read_answer(log, at, ChainQuery::TxStatus(txid)) {
        Ok(ChainReply::TxStatus(status)) => Ok(*status),
        Ok(_) => Err(CheckStep::Fail(SwapError::UnexpectedReply)),
        Err(step) => Err(step),
    }
}

/// The block that the answer at a place tells.
pub fn read_block(log: &Vec<ChainAnswer>, at: usize, height: u32) -> (block: Result<BlockRef, CheckStep>)
    ensures
        block == block_at(answer_views(log@), at as nat, height),
{
    match read_answer(log, at, ChainQuery::Block(height)) {
        Ok(ChainReply::Block(block)) => Ok(*block),
        Ok(_) => Err(CheckStep::Fail(SwapError::UnexpectedReply)),
        Err(step) => Err(step),
    }
}

/// The transaction that the answer at a place tells.
pub fn read_tx(log: &Vec<ChainAnswer>, at: usize, txid: [u8; 32]) -> (tx: Result<Option<&Transaction>, CheckStep>)
    ensures
        match tx {
            Ok(Some(found)) => tx_at(answer_views(log@), at as nat, txid)
                == Ok::<Option<TransactionView>, CheckStep>(Some(found@)),
            Ok(None) => tx_at(answer_views(log@), at as nat, txid) == Ok::<Option<TransactionView>, CheckStep>(None),
            Err(step) => tx_at(answer_views(log@), at as nat, txid) == Err::<Option<TransactionView>, CheckStep>(step),
        },
{
    match read_answer(log, at, ChainQuery::Tx(txid)) {
        Ok(ChainReply::Tx(Some(tx))) => Ok(Some(tx)),
        Ok(ChainReply::Tx(None)) => Ok(None),
        Ok(_) => Err(CheckStep::Fail(SwapError::UnexpectedReply)),
        Err(step) => Err(step),
    }
}

/// The unspent output that the answer at a place tells.
pub fn read_unspent(log: &Vec<ChainAnswer>, at: usize, point: OutPoint) -> (output: Result<Option<&TxOut>, CheckStep>)
    ensures
        match output {
            Ok(Some(found)) => unspent_at(answer_views(log@), at as nat, point)
                == Ok::<Option<TxOutView>, CheckStep>(Some(found@)),
            Ok(None) => unspent_at(answer_views(log@), at as nat, point) == Ok::<Option<TxOutView>, CheckStep>(None),
            Err(step) => unspent_at(answer_views(log@), at as nat, point) == Err::<Option<TxOutView>, CheckStep>(step),
        },
{
    match read_answer(log, at, ChainQuery::Unspent(point)) {
        Ok(ChainReply::Unspent(Some(output))) => Ok(Some(output)),
        Ok(ChainReply::Unspent(None)) => Ok(None),
        Ok(_) => Err(CheckStep::Fail(SwapError::UnexpectedReply)),
        Err(step) => Err(step),
    }
}

} // verus!
