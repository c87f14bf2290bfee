//! The Ark payer's offer, and the checks of the Ark transfer before it is accepted.

use vstd::prelude::*;

use crate::ark_types::{same_ids, vtxo_views, ArkVtxo, VtxoId, VtxoPolicy, VtxoView};
use crate::bytes::bytes_eq;
use crate::keys::PublicKey;
use crate::swap_id::SwapId;

verus! {

/// What the Ark payer offers.
#[derive(Debug)]
pub struct ArkOffer {
    pub id: SwapId,
    pub amount: u64,
    pub btc_payout_script: Vec<u8>,
    pub ark_input_ids: Vec<VtxoId>,
    pub ark_receive_policy: VtxoPolicy,
    pub ark_server_pubkey: PublicKey,
    pub adaptor_point: PublicKey,
}

/// What an offer is.
#[verifier::ext_equal]
pub struct OfferView {
    pub id: Seq<u8>,
    pub amount: u64,
    pub btc_payout_script: Seq<u8>,
    pub ark_input_ids: Seq<VtxoId>,
    pub ark_receive_policy: Seq<u8>,
    pub ark_server_pubkey: Seq<u8>,
    pub adaptor_point: Seq<u8>,
}

impl View for ArkOffer {
    type V = OfferView;

    open spec fn view(&self) -> OfferView {
        OfferView {
            id: self.id@,
            amount: self.amount,
            btc_payout_script: self.btc_payout_script@,
            ark_input_ids: self.ark_input_ids@,
            ark_receive_policy: self.ark_receive_policy@,
            ark_server_pubkey: self.ark_server_pubkey@,
            adaptor_point: self.adaptor_point@,
        }
    }
}

/// A VTXO that an Ark transfer makes.
#[derive(Debug, PartialEq, Eq)]
pub struct ArkOutput {
    pub id: VtxoId,
    pub policy: VtxoPolicy,
    pub expiry_height: u32,
}

/// What a VTXO that an Ark transfer makes is.
#[verifier::ext_equal]
pub struct ArkOutputView {
    pub id: VtxoId,
    pub policy: Seq<u8>,
    pub expiry_height: u32,
}

impl View for ArkOutput {
    type V = ArkOutputView;

    open spec fn view(&self) -> ArkOutputView {
        ArkOutputView { id: self.id, policy: self.policy@, expiry_height: self.expiry_height }
    }
}

/// The views of the VTXOs that an Ark transfer makes.
pub open spec fn ark_output_views(items: Seq<ArkOutput>) -> Seq<ArkOutputView> {
    items.map_values(|item: ArkOutput| item@)
}

/// A cosigned Ark transfer that lacks the adaptor secret: the VTXOs that it spends, one for each
/// of its packages, and the VTXOs that it makes.
#[derive(Debug, PartialEq, Eq)]
pub struct ArkTransfer {
    pub inputs: Vec<ArkVtxo>,
    pub outputs: Vec<ArkOutput>,
}

/// What an Ark transfer spends and makes.
#[verifier::ext_equal]
pub struct TransferView {
    pub inputs: Seq<VtxoView>,
    pub outputs: Seq<ArkOutputView>,
}

impl View for ArkTransfer {
    type V = TransferView;

    open spec fn view(&self) -> TransferView {
        TransferView { inputs: vtxo_views(self.inputs@), outputs: ark_output_views(self.outputs@) }
    }
}

/// An offer with the Ark transfer that backs it.
#[derive(Debug)]
pub struct PreparedArkSwapPackage {
    pub offer: ArkOffer,
    pub transfer: ArkTransfer,
}

/// What an Ark transfer is verified against publicly.
#[derive(Debug, PartialEq, Eq)]
pub struct PublicTransferTerms {
    pub input_ids: Vec<VtxoId>,
    pub receive_policy: VtxoPolicy,
    pub amount: u64,
    pub server_pubkey: PublicKey,
    pub adaptor_point: PublicKey,
}

/// Whether an Ark transfer verified publicly against some terms.
#[derive(Debug, PartialEq, Eq)]
pub struct TransferVerdict {
    pub terms: PublicTransferTerms,
    pub verified: bool,
}

/// What an Ark transfer is verified against publicly.
#[verifier::ext_equal]
pub struct TermsView {
    pub input_ids: Seq<VtxoId>,
    pub receive_policy: Seq<u8>,
    pub amount: u64,
    pub server_pubkey: Seq<u8>,
    pub adaptor_point: Seq<u8>,
}

impl View for PublicTransferTerms {
    type V = TermsView;

    open spec fn view(&self) -> TermsView {
        TermsView {
            input_ids: self.input_ids@,
            receive_policy: self.receive_policy@,
            amount: self.amount,
            server_pubkey: self.server_pubkey@,
            adaptor_point: self.adaptor_point@,
        }
    }
}

/// The terms of an offer that its Ark transfer has to meet.
pub open spec fn terms_of(offer: OfferView) -> TermsView {
    TermsView {
        input_ids: offer.ark_input_ids,
        receive_policy: offer.ark_receive_policy,
        amount: offer.amount,
        server_pubkey: offer.ark_server_pubkey,
        adaptor_point: offer.adaptor_point,
    }
}

/// Whether a verdict is that the terms of an offer are met.
pub open spec fn vouches_for(verdict: TransferVerdict, offer: OfferView) -> bool {
    verdict.verified && verdict.terms@ == terms_of(offer)
}

/// The terms of an offer that its Ark transfer has to meet.
pub fn public_transfer_terms(offer: &ArkOffer) -> (terms: PublicTransferTerms)
    ensures
        terms@ == terms_of(offer@),
{
    PublicTransferTerms {
        input_ids: offer.ark_input_ids.clone(),
        receive_policy: offer.ark_receive_policy.clone(),
        amount: offer.amount,
        server_pubkey: offer.ark_server_pubkey,
        adaptor_point: offer.adaptor_point,
    }
}

/// Whether a verdict is that the terms of an offer are met.
fn vouches(verdict: &TransferVerdict, offer: &ArkOffer) -> (found: bool)
    ensures
        found == vouches_for(*verdict, offer@),
{
    verdict.verified && same_ids(&verdict.terms.input_ids, &offer.ark_input_ids) && verdict.terms.receive_policy.same(
        &offer.ark_receive_policy,
    ) && verdict.terms.amount == offer.amount && verdict.terms.server_pubkey.same(&offer.ark_server_pubkey)
        && verdict.terms.adaptor_point.same(&offer.adaptor_point)
}

/// Where an offer differs from what was agreed.
#[allow(inconsistent_fields)]
#[derive(Clone, Copy, Debug, PartialEq, Eq)]
pub enum ArkTransferOfferError {
    SwapIdMismatch { expected: SwapId, got: SwapId },
    AmountMismatch { expected: u64, got: u64 },
    BtcPayoutScriptMismatch,
    ArkReceivePolicyMismatch,
    ServerPubkeyMismatch { expected: PublicKey, got: PublicKey },
    AdaptorPointMismatch { expected: PublicKey, got: PublicKey },
}

/// Why an Ark transfer is not accepted.
#[derive(Clone, Copy, Debug, PartialEq, Eq)]
pub enum TransferPackageVerificationError {
    /// The transfer does not verify publicly against the offer.
    NotVerified,
    /// An output expires no later than the minimum height.
    OutputExpiryTooSoon { vtxo_id: VtxoId, expiry_height: u32, minimum_expiry_height: u32 },
}

/// How an Ark transfer may be accepted.
#[derive(Clone, Copy, Debug, PartialEq, Eq, Structural)]
pub struct ArkTransferAcceptanceOptions {
    pub allow_short_output_expiry: bool,
}

impl Default for ArkTransferAcceptanceOptions {
    fn default() -> (options: ArkTransferAcceptanceOptions)
        ensures
            !options.allow_short_output_expiry,
    {
        ArkTransferAcceptanceOptions { allow_short_output_expiry: false }
    }
}

/// Checks that an offer is what was agreed; the first difference is reported.
pub fn verify_ark_transfer_offer(
    offer: &ArkOffer,
    expected_id: SwapId,
    expected_amount: u64,
    expected_btc_payout_script: &Vec<u8>,
    expected_receive_policy: &VtxoPolicy,
    expected_server_pubkey: PublicKey,
    expected_adaptor_point: PublicKey,
) -> (result: Result<(), ArkTransferOfferError>)
    ensures
        match result {
            Ok(()) => offer@ == (OfferView {
                id: expected_id@,
                amount: expected_amount,
                btc_payout_script: expected_btc_payout_script@,
                ark_input_ids: offer@.ark_input_ids,
                ark_receive_policy: expected_receive_policy@,
                ark_server_pubkey: expected_server_pubkey@,
                adaptor_point: expected_adaptor_point@,
            }),
            Err(error) => match error {
                ArkTransferOfferError::SwapIdMismatch { expected, got } => offer@.id != expected_id@ && expected@
                    == expected_id@ && got@ == offer@.id,
                ArkTransferOfferError::AmountMismatch { expected, got } => offer@.id == expected_id@ && offer@.amount
                    != expected_amount && expected == expected_amount && got == offer@.amount,
                ArkTransferOfferError::BtcPayoutScriptMismatch => offer@.id == expected_id@ && offer@.amount
                    == expected_amount && offer@.btc_payout_script != expected_btc_payout_script@,
                ArkTransferOfferError::ArkReceivePolicyMismatch => offer@.id == expected_id@ && offer@.amount
                    == expected_amount && offer@.btc_payout_script == expected_btc_payout_script@
                    && offer@.ark_receive_policy != expected_receive_policy@,
                ArkTransferOfferError::ServerPubkeyMismatch { expected, got } => offer@.id == expected_id@
                    && offer@.amount == expected_amount && offer@.btc_payout_script == expected_btc_payout_script@
                    && offer@.ark_receive_policy == expected_receive_policy@ && offer@.ark_server_pubkey
                    != expected_server_pubkey@ && expected@ == expected_server_pubkey@ && got@
                    == offer@.ark_server_pubkey,
                ArkTransferOfferError::AdaptorPointMismatch { expected, got } => offer@.id == expected_id@
                    && offer@.amount == expected_amount && offer@.btc_payout_script == expected_btc_payout_script@
                    && offer@.ark_receive_policy == expected_receive_policy@ && offer@.ark_server_pubkey
                    == expected_server_pubkey@ && offer@.adaptor_point != expected_adaptor_point@ && expected@
                    == expected_adaptor_point@ && got@ == offer@.adaptor_point,
            },
        },
{
    if !offer.id.same(&expected_id) {
        return Err(ArkTransferOfferError::SwapIdMismatch { expected: expected_id, got: offer.id });
    }
    if offer.amount != expected_amount {
        return Err(ArkTransferOfferError::AmountMismatch { expected: expected_amount, got: offer.amount });
    }
    if !bytes_eq(offer.btc_payout_script.as_slice(), expected_btc_payout_script.as_slice()) {
        return Err(ArkTransferOfferError::BtcPayoutScriptMismatch);
    }
    if !offer.ark_receive_policy.same(expected_receive_policy) {
        return Err(ArkTransferOfferError::ArkReceivePolicyMismatch);
    }
    if !offer.ark_server_pubkey.same(&expected_server_pubkey) {
        return Err(
            ArkTransferOfferError::ServerPubkeyMismatch {
                expected: expected_server_pubkey,
                got: offer.ark_server_pubkey,
            },
        );
    }
    if !offer.adaptor_point.same(&expected_adaptor_point) {
        return Err(
            ArkTransferOfferError::AdaptorPointMismatch {
                expected: expected_adaptor_point,
                got: offer.adaptor_point,
            },
        );
    }
    Ok(())
}

/// Whether an output may be accepted at a minimum expiry height.
pub open spec fn lives_long_enough(output: ArkOutputView, minimum: u32, options: ArkTransferAcceptanceOptions) -> bool {
    options.allow_short_output_expiry || output.expiry_height > minimum
}

/// The first output that may not be accepted, if there is one.
pub open spec fn first_short_output(
    outputs: Seq<ArkOutputView>,
    minimum: u32,
    options: ArkTransferAcceptanceOptions,
) -> Option<ArkOutputView>
    decreases outputs.len(),
{
    if outputs.len() == 0 {
        None
    } else if !lives_long_enough(outputs[0], minimum, options) {
        Some(outputs[0])
    } else {
        first_short_output(outputs.skip(1), minimum, options)
    }
}

/// What becomes of an Ark transfer of which it is known whether it verifies publicly.
pub open spec fn acceptance(
    verified: bool,
    outputs: Seq<ArkOutputView>,
    minimum: u32,
    options: ArkTransferAcceptanceOptions,
) -> Result<(), TransferPackageVerificationError> {
    if !verified {
        Err(TransferPackageVerificationError::NotVerified)
    } else {
        match first_short_output(outputs, minimum, options) {
            Some(output) => Err(
                TransferPackageVerificationError::OutputExpiryTooSoon {
                    vtxo_id: output.id,
                    expiry_height: output.expiry_height,
                    minimum_expiry_height: minimum,
                },
            ),
            None => Ok(()),
        }
    }
}

/// Checks an Ark transfer against an offer, given the verdict of its public verification, with the
/// default options.
pub fn verify_ark_transfer_before_acceptance(
    offer: &ArkOffer,
    transfer: &ArkTransfer,
    verdict: &TransferVerdict,
    minimum_output_expiry_height: u32,
) -> (result: Result<(), TransferPackageVerificationError>)
    ensures
        result == acceptance(
            vouches_for(*verdict, offer@),
            transfer@.outputs,
            minimum_output_expiry_height,
            ArkTransferAcceptanceOptions { allow_short_output_expiry: false },
        ),
{
    verify_ark_transfer_before_acceptance_with_options(
        offer,
        transfer,
        verdict,
        minimum_output_expiry_height,
        ArkTransferAcceptanceOptions::default(),
    )
}

/// Checks an Ark transfer against an offer, given the verdict of its public verification.
pub fn verify_ark_transfer_before_acceptance_with_options(
    offer: &ArkOffer,
    transfer: &ArkTransfer,
    verdict: &TransferVerdict,
    minimum_output_expiry_height: u32,
    options: ArkTransferAcceptanceOptions,
) -> (result: Result<(), TransferPackageVerificationError>)
    ensures
        result == acceptance(
            vouches_for(*verdict, offer@),
            transfer@.outputs,
            minimum_output_expiry_height,
            options,
        ),
{
    if !vouches(verdict, offer) {
        return Err(TransferPackageVerificationError::NotVerified);
    }
    let ghost outputs = transfer@.outputs;
    let mut i: usize = 0;
    assert(outputs.skip(0) =~= outputs);
    while i < transfer.outputs.len()
        invariant
            i <= transfer.outputs.len(),
            vouches_for(*verdict, offer@),
            outputs == transfer@.outputs,
            first_short_output(outputs.skip(i as int), minimum_output_expiry_height, options) == first_short_output(
                outputs,
                minimum_output_expiry_height,
                options,
            ),
        decreases transfer.outputs.len() - i,
    {
        let output = &transfer.outputs[i];
        assert(outputs.skip(i as int)[0] == output@);
        assert(outputs.skip(i as int).skip(1) =~= outputs.skip(i + 1));
        if !options.allow_short_output_expiry && output.expiry_height <= minimum_output_expiry_height {
            return Err(
                TransferPackageVerificationError::OutputExpiryTooSoon {
                    vtxo_id: output.id,
                    expiry_height: output.expiry_height,
                    minimum_expiry_height: minimum_output_expiry_height,
                },
            );
        }
        i += 1;
    }
    Ok(())
}

/// An accepted Ark transfer verifies publicly, and every output outlives the minimum height.
pub proof fn law_accepted_outputs_outlive_the_minimum(verified: bool, outputs: Seq<ArkOutputView>, minimum: u32)
    requires
        acceptance(
            verified,
            outputs,
            minimum,
            ArkTransferAcceptanceOptions { allow_short_output_expiry: false },
        ) is Ok,
    ensures
        verified,
        forall|i: int| 0 <= i < outputs.len() ==> (#[trigger] outputs[i]).expiry_height > minimum,
{
    lemma_none_short(outputs, minimum, ArkTransferAcceptanceOptions { allow_short_output_expiry: false });
}

/// Where no output is too short, each lives long enough.
proof fn lemma_none_short(outputs: Seq<ArkOutputView>, minimum: u32, options: ArkTransferAcceptanceOptions)
    requires
        first_short_output(outputs, minimum, options) is None,
    ensures
        forall|i: int| 0 <= i < outputs.len() ==> lives_long_enough(#[trigger] outputs[i], minimum, options),
    decreases outputs.len(),
{
    if outputs.len() > 0 {
        lemma_none_short(outputs.skip(1), minimum, options);
        assert forall|i: int| 0 <= i < outputs.len() implies lives_long_enough(
            #[trigger] outputs[i],
            minimum,
            options,
        ) by {
            if i > 0 {
                assert(outputs.skip(1)[i - 1] == outputs[i]);
            }
        }
    }
}

/// A transfer is accepted exactly where it is verified and every output expires above the minimum, or
/// short expiries are allowed; what is refused names the first output that does not.
pub proof fn law_acceptance_is_exact(
    verified: bool,
    outputs: Seq<ArkOutputView>,
    minimum: u32,
    options: ArkTransferAcceptanceOptions,
)
    ensures
        acceptance(verified, outputs, minimum, options) is Ok <==> verified && (options.allow_short_output_expiry || forall|
            i: int,
        |
            0 <= i < outputs.len() ==> (#[trigger] outputs[i]).expiry_height > minimum),
        acceptance(verified, outputs, minimum, options) matches Err(
            TransferPackageVerificationError::OutputExpiryTooSoon { vtxo_id, expiry_height, minimum_expiry_height },
        ) ==> verified && !options.allow_short_output_expiry && minimum_expiry_height == minimum && expiry_height
            <= minimum && exists|i: int|
            0 <= i < outputs.len() && (#[trigger] outputs[i]).id == vtxo_id && outputs[i].expiry_height == expiry_height
                && forall|k: int| 0 <= k < i ==> (#[trigger] outputs[k]).expiry_height > minimum,
    decreases outputs.len(),
{
    if outputs.len() > 0 {
        let rest = outputs.skip(1);
        law_acceptance_is_exact(verified, rest, minimum, options);
        if verified && lives_long_enough(outputs[0], minimum, options) {
            assert(acceptance(verified, outputs, minimum, options) == acceptance(verified, rest, minimum, options));
            if acceptance(verified, rest, minimum, options) is Ok {
                assert forall|i: int| 0 <= i < outputs.len() && !options.allow_short_output_expiry implies (
                #[trigger] outputs[i]).expiry_height > minimum by {
                    if i > 0 {
                        assert(rest[i - 1] == outputs[i]);
                    }
                }
            } else {
                let i = choose|i: int|
                    0 <= i < rest.len() && (#[trigger] rest[i]).id == acceptance(
                        verified,
                        rest,
                        minimum,
                        options,
                    )->Err_0->vtxo_id && rest[i].expiry_height == acceptance(
                        verified,
                        rest,
                        minimum,
                        options,
                    )->Err_0->expiry_height && forall|k: int|
                        0 <= k < i ==> (#[trigger] rest[k]).expiry_height > minimum;
                assert(outputs[i + 1] == rest[i]);
                assert forall|k: int| 0 <= k < i + 1 implies (#[trigger] outputs[k]).expiry_height > minimum by {
                    if k > 0 {
                        assert(rest[k - 1] == outputs[k]);
                    }
                }
            }
        }
    }
}

} // verus!
