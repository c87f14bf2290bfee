//! What a swap operation is refused for.

use vstd::prelude::*;

verus! {

/// The reason for which a swap operation fails.
#[derive(Clone, Copy, Debug, PartialEq, Eq, Structural, Hash)]
pub enum SwapError {
    /// A text is not an even number of hexadecimal digits.
    InvalidHex,
    /// A hexadecimal text does not write exactly 32 bytes.
    ExpectedThirtyTwoBytes,
    /// A text does not encode a transaction.
    InvalidTransaction,
    /// A text does not encode a transaction output.
    InvalidOutput,
    /// A sum of amounts cannot be held.
    AmountOverflow,
    /// A text does not write a public key.
    InvalidPublicKey,
    /// Thirty-two bytes are no secret key.
    InvalidSecretKey,
    /// A text does not write a signature.
    InvalidSignature,
    /// Bytes are no public nonce of 66 bytes.
    InvalidPublicNonce,
    /// Bytes are no partial signature of 32 bytes.
    InvalidPartialSignature,
    /// Bytes are no secret nonce.
    InvalidSecretNonce,
    /// A tweak of the aggregate key is out of range, or cancels the key.
    InvalidTweak,
    /// The first nonce and the adaptor point cancel out.
    AdaptorNonceCancels,
    /// The pre-signature of a claim does not verify against the adaptor point.
    AdaptorMismatch,
    /// The adaptor secret does not complete the pre-signature of a claim.
    AdaptorSecretMismatch,
    /// The final signature of a claim does not verify.
    ClaimSignatureInvalid,
    /// The final signature of a claim does not reveal the adaptor secret.
    SecretNotRevealed,
    /// A text is no address of the network.
    InvalidAddress,
    /// A refund height is not a block height.
    InvalidRefundHeight,
    /// The fee of a claim cannot be computed.
    ClaimFeeOverflow,
    /// The fee and the anchor of a claim exceed the locked amount.
    ClaimFeeExceedsAmount,
    /// What a claim leaves for the payout is not relayed.
    ClaimOutputNonStandard,
    /// The hash to sign cannot be computed.
    SighashFailed,
    /// The refund script is not the leaf of the lock.
    RefundScriptMissing,
    /// The fee of a refund cannot be computed.
    RefundFeeOverflow,
    /// The fee of a refund exceeds the locked amount.
    RefundFeeExceedsAmount,
    /// What a refund leaves for the destination is not relayed.
    RefundOutputNonStandard,
    /// A text is no VTXO identifier.
    InvalidVtxoId,
    /// A text does not encode a VTXO policy.
    InvalidPolicy,
    /// A text is no Ark address.
    InvalidArkAddress,
    /// Bytes do not encode a VTXO.
    InvalidVtxo,
    /// A relay file is of another protocol or version.
    UnsupportedRelay,
    /// A text is no swap identity.
    InvalidSwapId,
    /// A relay file is about another swap.
    SwapMismatch,
    /// A relay file is no text.
    RelayNotText,
    /// A relay file holds a label of secret material.
    RelayHoldsSecret,
    /// The Ark payer's terms are missing.
    TermsMissing,
    /// The Ark transfer is missing.
    ArkTransferMissing,
    /// The funding is missing.
    FundingMissing,
    /// The claim request is missing.
    ClaimRequestMissing,
    /// The Ark payer's share of the claim signature is missing.
    ClaimPartialMissing,
    /// A reply does not answer what was asked.
    UnexpectedReply,
    /// The safety margin is zero.
    MarginZero,
    /// A height exceeds 32 bits.
    HeightOverflow,
    /// Not enough time is left before the refund height.
    WindowTooShort,
    /// A transaction is not confirmed.
    NotConfirmed,
    /// A transaction is not confirmed in the current chain.
    NotInCurrentChain,
    /// The tip changed during a check.
    TipChanged,
    /// The required confirmations are zero.
    ConfirmationsZero,
    /// The funding has fewer confirmations than required.
    FundingTooShallow,
    /// The funding output is spent or unknown.
    FundingSpent,
    /// The funding output is not the agreed lock.
    FundingMismatch,
    /// The funding has no inputs, or not one prevout for each.
    FundingPrevoutCount,
    /// Two funding inputs spend the same output.
    DuplicateFundingInput,
    /// A funding input has a `scriptSig`.
    FundingScriptSig,
    /// A funding input is not native SegWit.
    FundingNotSegwit,
    /// A funding input is spent or unknown.
    FundingInputSpent,
    /// A funding input does not match its declared prevout.
    FundingPrevoutMismatch,
    /// An Ark input occurs twice.
    DuplicateArkInput,
    /// An Ark input has another policy than an ordinary public key.
    ArkInputPolicy,
    /// An Ark input expires before the refund is safe.
    ArkInputExpires,
    /// An old exit of an Ark input can mature before the refund is safe.
    ArkExitTooSoon,
    /// An Ark input is already on chain.
    ArkInputOnChain,
    /// The chain anchor of an Ark input is unknown.
    AnchorUnknown,
    /// The chain anchor of an Ark input is another transaction.
    AnchorMismatch,
    /// The genesis of an Ark input is not valid.
    InvalidGenesis,
    /// The chain anchor of an Ark input has no such output.
    AnchorOutputMissing,
    /// An exit transaction of an Ark input has no such output.
    GenesisOutputMissing,
    /// The last exit output of an Ark input is not its output.
    GenesisOutputMismatch,
    /// Exits of Ark inputs conflict.
    ConflictingAncestry,
    /// An exit of an Ark input is already published.
    ExitPublished,
    /// There is no Ark input.
    NoArkInputs,
    /// An Ark input is an ancestor of another.
    InputIsAncestor,
    /// The chain anchor of an Ark input is spent or unknown.
    AnchorSpent,
    /// The chain anchor of an Ark input does not match its confirmed transaction.
    AnchorOutputMismatch,
    /// The inputs of an Ark transfer are not those of the offer.
    TransferInputMismatch,
    /// An Ark input has another server key than the offer.
    TransferServerMismatch,
    /// A stored swap is of another version.
    UnsupportedState,
    /// The frozen Ark inputs are missing.
    ArkInputsMissing,
    /// The Ark transfer is not of the frozen Ark inputs.
    ArkInputsChanged,
    /// The stored response is not the accepted one.
    TranscriptMismatch,
    /// A stored swap is of another swap or role.
    StateMismatch,
    /// The funding inputs are promised to an open swap.
    FundingInputsReserved,
    /// The funding template is timelocked beyond the request height.
    TemplateTimelocked,
    /// The funding template has no inputs, or a signed one.
    TemplateSigned,
    /// The funding template has no output at the funding slot.
    TemplateSlot,
    /// The placeholder of the funding template has another amount, or is not taproot.
    TemplatePlaceholder,
    /// The funding template pays no fee.
    TemplateFeeMissing,
    /// The amount, the confirmations or the margin of a request are zero.
    InvalidSafetyParameters,
    /// The margin does not cover the required confirmations.
    MarginBelowConfirmations,
    /// A request is from the future, or its refund height is a time.
    InvalidRequestHeight,
    /// The terms offer another amount than the request.
    AmountDiffers,
    /// The funding differs from the template outside its lock output.
    FundingChanged,
    /// The funding is described otherwise than it is.
    FundingContractMismatch,
    /// The payout address and its script differ.
    PayoutMismatch,
    /// The claim is another transaction than the agreed one.
    ClaimChanged,
    /// The claim is to be signed otherwise than agreed.
    ClaimContextChanged,
    /// The pre-signature is for another claim, point or key.
    AdaptorContextMismatch,
    /// The offer is not the agreed one.
    OfferMismatch,
    /// The Ark transfer is not verified, or an output expires too soon.
    TransferNotAccepted,
    /// The swap was aborted, so that its secret must not be revealed.
    SwapAborted,
    /// The adaptor secret is missing.
    AdaptorSecretMissing,
    /// The pre-signature of the BTC claim is missing.
    AdaptorMissing,
    /// The outputs of the claim are worth more than the lock.
    InvalidClaimFee,
    /// A fee cannot be held.
    FeeOverflow,
    /// A transaction spends an output that its parent does not have.
    ParentOutputMissing,
    /// A transaction that an input spends is missing.
    FeeInputMissing,
    /// The outputs of a transaction are worth more than its inputs.
    InvalidTransactionFee,
    /// The signed claim is missing.
    SignedClaimMissing,
    /// The observed claim is another transaction than the agreed one.
    ClaimDiffers,
    /// The observed claim carries no signature.
    ClaimSignatureMissing,
    /// The observed claim is not the agreed key spend.
    ClaimNotKeySpend,
    /// The peer changed what was accepted.
    TranscriptChanged,
    /// The peer's funding is not signed.
    FundingUnsigned,
    /// The Ark was received, so that the BTC must not be refunded.
    ArkAlreadyReceived,
    /// The claim is visible, so that the Ark transfer has to be completed.
    ClaimVisible,
    /// The BTC claim is not visible yet.
    ClaimNotVisible,
    /// The refund height is not reached.
    RefundImmature,
    /// The signed refund is missing.
    RefundMissing,
    /// A confirmed refund cannot be fetched any more.
    RefundDisappeared,
    /// The outputs of the funding are worth more than its inputs.
    InvalidFundingFee,
    /// The outputs of the refund are worth more than the lock.
    InvalidRefundFee,
    /// The refund has no output.
    RefundOutputMissing,
    /// The secret may be public, so that the swap cannot be aborted.
    SecretMayBePublic,
    /// The frozen recovery inputs are missing.
    RecoveryInputsMissing,
    /// A confirmed reclaim cannot be fetched any more.
    ReclaimDisappeared,
    /// The reclaim has not exactly one output.
    ReclaimOutputCount,
    /// The fee of the reclaim exceeds its output.
    ReclaimFeeExceedsOutput,
    /// The fee of the reclaim leaves dust.
    ReclaimDust,
    /// The reclaim spends something that is not frozen for recovery.
    ReclaimForeignInput,
    /// The reclaim does not cover what is frozen for recovery.
    ReclaimIncomplete,
    /// The reclaim is missing.
    ReclaimMissing,
    /// The Ark transfer would pay the change key.
    TransferToChange,
    /// The Ark server did not register a transfer.
    RegistrationFailed,
    /// A partially signed transaction cannot be read.
    InvalidPsbt,
    /// The stored partially signed transaction is missing.
    PsbtMissing,
    /// The stored partially signed transaction is of another template.
    PsbtMismatch,
    /// The swap is settled or cancelled.
    AlreadySettled,
    /// The peer changed the request.
    RequestChanged,
    /// The local claim key is not the one of the request.
    ClaimKeyMismatch,
    /// The secret nonce was used.
    NonceConsumed,
    /// Signing the funding changed its identifier.
    FundingTxidChanged,
    /// The arguments of a repeated request changed.
    ArgumentsChanged,
    /// The funding template has no placeholder of the lock.
    PlaceholderMissing,
    /// A prevout of the funding is not known.
    PrevoutMissing,
    /// The payout address is another one than the accepted one.
    PayoutChanged,
    /// The swap does not wait for its funding.
    NotAwaitingFunding,
    /// The request was answered before.
    RequestAnswered,
    /// A fee rate is zero.
    FeeRateZero,
    /// A fee rate exceeds 32 bits.
    FeeRateTooLarge,
}

} // verus!
