//! The words in which the flows of a swap speak with the wallet that runs them.
//!
//! A flow is a function from a phase, the reply to its last action and the state of the swap to
//! the next phase and the next action. The wallet performs each action, in order, and hands back
//! the reply; where an action fails the flow is abandoned, and begun anew from the stored state.

use vstd::prelude::*;

use crate::address::Network;
use crate::adaptor::AdaptorSecret;
use crate::ark_types::{ArkVtxo, VtxoId, VtxoPolicy};
use crate::artifacts::{BtcArkRequestArtifact, RequestView};
use crate::chain::{BlockRef, ChainAnswer, CheckStep, TxStatus};
use crate::error::SwapError;
use crate::fee::fee_rate_from_sat_vb;
use crate::keys::{PublicKey, SecretKey};
use crate::offer::{ArkOffer, ArkOutput, ArkTransfer, TransferVerdict};
use crate::relay::RelayFile;
use crate::response::{fee_of_request, request_fee};
use crate::role::SwapRole;
use crate::state::StoredBtcArkSwap;
use crate::swap_id::SwapId;
use crate::tx::{OutPoint, Transaction, TxOut};

verus! {

/// What a flow knows of the wallet that runs it.
#[derive(Clone, Copy, Debug, PartialEq, Eq)]
pub struct FlowContext {
    pub network: Network,
    /// A fee rate in satoshis per virtual byte that replaces the estimate.
    pub fee_rate: Option<u64>,
}

/// What a swap waits for.
#[derive(Clone, Copy, Debug, PartialEq, Eq, Structural)]
pub enum Next {
    Done,
    ArkOffer,
    BtcFund,
    Progress,
    AwaitBtcClaim,
    AwaitBtcFunding,
    AwaitFundingConfirmation,
    AwaitClaimConfirmation,
    AwaitRefundConfirmation,
    AwaitArkExit,
    AwaitArkReclaimConfirmation,
}

/// The text by which it is shown what a swap waits for.
pub open spec fn next_text(next: Next) -> Seq<char> {
    match next {
        Next::Done => "done"@,
        Next::ArkOffer => "ark-offer"@,
        Next::BtcFund => "btc-fund"@,
        Next::Progress => "progress"@,
        Next::AwaitBtcClaim => "await-btc-claim"@,
        Next::AwaitBtcFunding => "await-btc-funding"@,
        Next::AwaitFundingConfirmation => "await-funding-confirmation"@,
        Next::AwaitClaimConfirmation => "await-claim-confirmation"@,
        Next::AwaitRefundConfirmation => "await-refund-confirmation"@,
        Next::AwaitArkExit => "await-ark-exit"@,
        Next::AwaitArkReclaimConfirmation => "await-ark-reclaim-confirmation"@,
    }
}

impl Next {
    /// The text by which it is shown what a swap waits for.
    pub fn text(&self) -> (text: &'static str)
        ensures
            text@ == next_text(*self),
    {
        match self {
            Next::Done => "done",
            Next::ArkOffer => "ark-offer",
            Next::BtcFund => "btc-fund",
            Next::Progress => "progress",
            Next::AwaitBtcClaim => "await-btc-claim",
            Next::AwaitBtcFunding => "await-btc-funding",
            Next::AwaitFundingConfirmation => "await-funding-confirmation",
            Next::AwaitClaimConfirmation => "await-claim-confirmation",
            Next::AwaitRefundConfirmation => "await-refund-confirmation",
            Next::AwaitArkExit => "await-ark-exit",
            Next::AwaitArkReclaimConfirmation => "await-ark-reclaim-confirmation",
        }
    }
}

/// How the fee of a child that pays for its parent is chosen; rates are in satoshis per thousand
/// weight units.
#[derive(Clone, Copy, Debug, PartialEq, Eq, Structural)]
pub enum CpfpFees {
    /// Parent and child together pay this rate.
    Effective(u64),
    /// They replace a package that paid `current_package_fee`.
    Rbf { min_effective_fee_rate: u64, current_package_fee: u64 },
}

/// A flow that another one runs, on the same state.
#[derive(Clone, Copy, Debug, PartialEq, Eq, Structural)]
pub enum SubFlow {
    ReceiveFunding,
    ObserveClaim,
    CompleteArk,
    ClaimBtc,
    BroadcastClaim,
    RefundBtc,
    AbortArk,
    RecoverArk,
    /// `RecoverArk` without an overriding fee rate.
    RecoverArkAtEstimate,
}

/// An exit transaction that needs a child to pay for it.
#[derive(Debug, PartialEq, Eq)]
pub struct ExitRequest {
    pub exit_tx: Transaction,
    /// The rate and the fee of the package that has to be replaced, if there is one.
    pub rbf: Option<(u64, u64)>,
}

/// What a flow asks of the wallet.
#[allow(inconsistent_fields)]
pub enum Action {
    /// Store the state durably.
    StoreState,
    /// Publish the relay file of the state.
    StoreRelay,
    /// Load the published relay file.
    LoadRelay,
    /// Load the published relay file, where that is possible.
    TryLoadRelay,
    /// Load the published relay file, if there is one.
    FindRelay,
    /// Load the stored state of a swap and a role.
    LoadState { swap_id: SwapId, role: SwapRole },
    /// Gather the chain's answers on a request.
    CheckRequest(BtcArkRequestArtifact),
    /// Gather the chain's answers on the inputs of a funding.
    CheckFundingInputs { tx: Transaction, prevouts: Vec<TxOut> },
    /// Gather the chain's answers on the claim window of the state's lock.
    CheckClaimWindow,
    /// Load these VTXOs, and gather the chain's answers on them.
    CheckArkInputs(Vec<VtxoId>),
    /// Have the wallet check that the Ark address of a relay file can be paid, decode its Ark
    /// transfer, have that verified publicly, and gather the chain's answers on its inputs.
    CheckTransfer(RelayFile),
    /// Have the wallet check that an Ark address can be paid.
    ValidateArkAddress(String),
    /// Check that the chain backend indexes transactions.
    RequireIndex,
    /// Tell the height of the tip.
    Tip,
    /// Tell the tip.
    TipRef,
    /// Tell the height at which a transaction is confirmed.
    Confirmed([u8; 32]),
    /// Tell where a transaction is.
    Status([u8; 32]),
    /// Fetch a transaction.
    FetchTx([u8; 32]),
    /// Gather the chain's answers on the fee of a transaction, whose parent may be known.
    GatherFee { tx: Transaction, parent: Option<Transaction> },
    /// Tell the fees of a transaction in the mempool with its ancestors.
    Ancestors([u8; 32]),
    /// Tell the transactions that spend some outputs, looking from a height on.
    Spends { points: Vec<OutPoint>, from_height: u32 },
    /// Estimate a fast rate, not below a floor.
    FeeEstimate { floor: u64 },
    /// Synchronise the on-chain wallet.
    SyncOnchain,
    /// Make a signed child that pays for a parent by its anchor.
    MakeChild { parent: Transaction, fees: CpfpFees },
    /// Store a signed child in the on-chain wallet.
    StoreChild(Transaction),
    /// Broadcast a transaction.
    Broadcast(Transaction),
    /// Broadcast a parent and a child as a package.
    BroadcastPackage(Transaction, Transaction),
    /// Derive the key of an index.
    Key(u32),
    /// Derive and store the next key.
    NewKey,
    /// Lock some VTXOs, so that nothing else spends them.
    LockVtxos(Vec<VtxoId>),
    /// Select VTXOs that are worth an amount together, and gather the chain's answers on them for a
    /// refund height and a margin.
    SelectInputs { amount: u64, refund_height: u32, safety_margin_blocks: u32 },
    /// Run the flow that has the Ark server sign a transfer, adapted to a point.
    PrepareTransfer { destination: String, amount: u64, payout: Vec<u8>, point: PublicKey, inputs: Vec<VtxoId> },
    /// Tell the key of the Ark server.
    ServerKey,
    /// Register the transactions of some VTXOs with the Ark server.
    RegisterInputs(Vec<VtxoId>),
    /// Tell the next key, without storing it.
    PeekKey,
    /// Store the public key of an index.
    StoreKey { index: u32, key: PublicKey },
    /// Have the Ark server cosign a transfer of some inputs, adapted to a point.
    Cosign { inputs: Vec<VtxoId>, policy: VtxoPolicy, amount: u64, change: VtxoPolicy, point: PublicKey },
    /// Tell whether this wallet can sign for an output of the completed transfer.
    IsOurs(VtxoId),
    /// Mark some VTXOs as spent.
    MarkSpent(Vec<VtxoId>),
    /// Run the flow that completes an Ark transfer with the secret, and registers and imports what
    /// is ours.
    CompleteTransfer { transfer_hex: String, secret: AdaptorSecret },
    /// Complete an Ark transfer with the secret, and tell its outputs.
    FinalizeTransfer { transfer_hex: String, secret: AdaptorSecret },
    /// Import the output of the completed transfer that has this identifier.
    ImportVtxo(VtxoId),
    /// Register the completed transfer with the Ark server.
    RegisterTransfer,
    /// Tell the VTXOs whose exit is tracked.
    TrackedExits,
    /// Start the exit of some VTXOs.
    StartExits(Vec<VtxoId>),
    /// Progress all exits, paying for them at a rate.
    ProgressExits { target: u64 },
    /// Progress all exits, and tell which need a child.
    AdvanceExits,
    /// Hand a child to the exit of a transaction.
    ProvideChild { exit_txid: [u8; 32], child: Transaction },
    /// Tell the VTXOs that are exited and can be claimed.
    ClaimableExits,
    /// Tell a fresh script of the on-chain wallet.
    NewScript,
    /// Claim some exited VTXOs to a script at a rate.
    DrainExits { ids: Vec<VtxoId>, script: Vec<u8>, target: u64 },
    /// Sign every input of a transaction that claims exited VTXOs.
    SignReclaim { tx: Transaction, ids: Vec<VtxoId> },
    /// Prepare, without signing, a funding that pays an amount to a script at a rate.
    PrepareFunding { script: Vec<u8>, amount: u64, rate: u64 },
    /// Check a funding against every stored swap in which this wallet pays BTC, at a height.
    CheckReservations { tx: Transaction, height: u32 },
    /// Sign a partially signed transaction, and extract the transaction.
    SignFunding { psbt_hex: String },
    /// Run another flow to its end.
    Run(SubFlow),
    /// The flow is at its end.
    End,
    /// The flow is at its end, with an answer.
    Answer(bool),
    /// The flow is at its end, and tells what the swap waits for.
    Finish(Next),
}

/// What the wallet replies to an action.
#[allow(inconsistent_fields)]
pub enum Reply {
    /// The flow begins, or the action is done.
    Done,
    Answer(bool),
    Finished(Next),
    Tip(u32),
    TipRef(BlockRef),
    Confirmed(Option<u32>),
    Status(TxStatus),
    Tx(Option<Transaction>),
    Ancestors { total_fee: u64, effective_rate: Option<u64> },
    Spends(Vec<(OutPoint, [u8; 32], TxStatus)>),
    FastRate(u64),
    Child(Transaction),
    Key(SecretKey),
    NewKey(SecretKey, u32),
    Relay(RelayFile),
    MaybeRelay(Option<RelayFile>),
    State(StoredBtcArkSwap),
    Log(Vec<ChainAnswer>),
    Inputs { inputs: Vec<ArkVtxo>, log: Vec<ChainAnswer> },
    Transfer { transfer: ArkTransfer, server: PublicKey, verdict: TransferVerdict, log: Vec<ChainAnswer> },
    Prepared { offer: ArkOffer, transfer_hex: String },
    Outputs(Vec<ArkOutput>),
    Registered(bool),
    Ids(Vec<VtxoId>),
    Server(PublicKey),
    Cosigned { outputs: Vec<ArkOutput>, transfer_hex: String },
    ExitRequests(Vec<ExitRequest>),
    Script(Vec<u8>),
    Transaction(Transaction),
    Witnesses(Vec<Vec<Vec<u8>>>),
    Funding { tx: Transaction, prevouts: Vec<Option<TxOut>>, psbt_hex: String },
}

/// The rate at which a flow pays: it is known, or an estimate is asked for.
#[derive(Clone, Copy, Debug, PartialEq, Eq, Structural)]
pub enum Target {
    Known(u64),
    Ask { floor: u64 },
}

/// The rate of an override, or the floor of the estimate.
pub open spec fn target_of(fee_rate: Option<u64>, request: RequestView) -> Result<Target, SwapError> {
    match fee_rate {
        Some(rate) => if rate == 0 {
            Err(SwapError::FeeRateZero)
        } else if rate > u32::MAX {
            Err(SwapError::FeeRateTooLarge)
        } else {
            Ok(Target::Known((250 * rate) as u64))
        },
        None => match fee_of_request(request) {
            Ok(floor) => Ok(Target::Ask { floor }),
            Err(error) => Err(error),
        },
    }
}

/// The rate of an override, or the floor of the estimate.
pub fn target_fee(fee_rate: Option<u64>, relay: &RelayFile) -> (target: Result<Target, SwapError>)
    ensures
        target == target_of(fee_rate, relay@.request),
{
    match fee_rate {
        Some(rate) => match fee_rate_from_sat_vb(rate) {
            Ok(known) => Ok(Target::Known(known)),
            Err(error) => Err(error),
        },
        None => match request_fee(relay) {
            Ok(floor) => Ok(Target::Ask { floor }),
            Err(error) => Err(error),
        },
    }
}

/// The estimate, or the rate of the request where that is higher.
pub open spec fn estimate_of(fast: u64, request: RequestView) -> Result<u64, SwapError> {
    match fee_of_request(request) {
        Ok(floor) => Ok(if fast > floor { fast } else { floor }),
        Err(error) => Err(error),
    }
}

/// The estimate, or the rate of the request where that is higher.
pub fn estimated_fee(fast: u64, relay: &RelayFile) -> (rate: Result<u64, SwapError>)
    ensures
        rate == estimate_of(fast, relay@.request),
{
    match request_fee(relay) {
        Ok(floor) => if fast > floor {
            Ok(fast)
        } else {
            Ok(floor)
        },
        Err(error) => Err(error),
    }
}

/// No target is below the rate of the request, unless it is overridden.
pub proof fn law_target_keeps_the_floor(request: RequestView, fast: u64)
    requires
        target_of(None, request) is Ok,
    ensures
        target_of(None, request) matches Ok(Target::Ask { floor }) && estimate_of(fast, request) matches Ok(rate) && rate
            >= floor && rate >= fast && (rate == floor || rate == fast) && floor == 250 * request.fee_rate_sat_vb,
{
}

/// Whether a transaction is deep enough at a tip.
pub open spec fn deep_enough(tip: u32, height: u32, required: u32) -> bool {
    tip >= height && tip - height + 1 >= required
}

/// Whether a transaction that is confirmed at a height has the required confirmations at a tip.
pub fn has_confirmations(tip: u32, height: u32, required: u32) -> (deep: bool)
    ensures
        deep == deep_enough(tip, height, required),
{
    match tip.checked_sub(height) {
        Some(depth) => depth.saturating_add(1) >= required,
        None => false,
    }
}

/// Why a check that was gathered does not pass.
pub open spec fn check_error(step: CheckStep) -> SwapError {
    match step {
        CheckStep::Fail(error) => error,
        _ => SwapError::UnexpectedReply,
    }
}

/// Whether a check that was gathered passes.
pub fn passed(step: CheckStep) -> (result: Result<(), SwapError>)
    ensures
        match result {
            Ok(()) => step is Pass,
            Err(error) => !(step is Pass) && error == check_error(step),
        },
{
    match step {
        CheckStep::Pass => Ok(()),
        CheckStep::Fail(error) => Err(error),
        CheckStep::Need(_) => Err(SwapError::UnexpectedReply),
    }
}

/// A transaction is deep enough where the blocks from its own to the tip, both counted, are as many as
/// required.
pub proof fn law_depth_counts_the_blocks(tip: u32, height: u32, required: u32)
    ensures
        deep_enough(tip, height, required) <==> height <= tip && required <= tip - height + 1,
{
}

/// A rate in satoshis per virtual byte that overrides the estimate is taken as it is, 250 times in
/// satoshis per thousand weight units; without one, an estimate is asked for that is not below the
/// rate of the request. A rate that is zero or has more than 32 bits is refused.
pub proof fn law_override_is_the_target(fee_rate: Option<u64>, request: RequestView)
    ensures
        fee_rate matches Some(rate) ==> match target_of(fee_rate, request) {
            Ok(target) => 0 < rate <= 0xffff_ffff && target == Target::Known((250 * rate) as u64),
            Err(error) => (rate == 0 && error == SwapError::FeeRateZero) || (rate > 0xffff_ffff && error
                == SwapError::FeeRateTooLarge),
        },
        fee_rate is None ==> match target_of(fee_rate, request) {
            Ok(target) => 0 < request.fee_rate_sat_vb <= 0xffff_ffff && target == (Target::Ask {
                floor: (250 * request.fee_rate_sat_vb) as u64,
            }),
            Err(error) => (request.fee_rate_sat_vb == 0 && error == SwapError::FeeRateZero) || (request.fee_rate_sat_vb
                > 0xffff_ffff && error == SwapError::FeeRateTooLarge),
        },
{
}

/// Whatever a swap waits for is shown by a text of its own.
pub proof fn law_texts_tell_what_is_awaited(a: Next, b: Next)
    requires
        next_text(a) == next_text(b),
    ensures
        a == b,
{
    reveal_strlit("done");
    reveal_strlit("ark-offer");
    reveal_strlit("btc-fund");
    reveal_strlit("progress");
    reveal_strlit("await-btc-claim");
    reveal_strlit("await-btc-funding");
    reveal_strlit("await-funding-confirmation");
    reveal_strlit("await-claim-confirmation");
    reveal_strlit("await-refund-confirmation");
    reveal_strlit("await-ark-exit");
    reveal_strlit("await-ark-reclaim-confirmation");
    let text = next_text(a);
    assert(text.len() == next_text(b).len());
    assert(text[0] == next_text(b)[0]);
    if text.len() == 8 {
        assert("btc-fund"@[0] == 'b' && "progress"@[0] == 'p');
    }
}

} // verus!
