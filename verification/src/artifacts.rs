//! The public messages of a swap, as they travel between the parties.

use vstd::prelude::*;

use crate::bytes::{text_list_copy, text_lists_eq, text_views};

verus! {

/// The Ark payer's terms.
#[derive(Debug, PartialEq, Eq)]
pub struct OfferTerms {
    pub amount_sat: u64,
    pub btc_payout_address: String,
    pub btc_payout_script_hex: String,
    pub adaptor_point: String,
    pub ark_payer_claim_pubkey: String,
}

/// The contents of `OfferTerms`.
#[verifier::ext_equal]
pub struct TermsTextView {
    pub amount_sat: u64,
    pub btc_payout_address: Seq<char>,
    pub btc_payout_script_hex: Seq<char>,
    pub adaptor_point: Seq<char>,
    pub ark_payer_claim_pubkey: Seq<char>,
}

impl View for OfferTerms {
    type V = TermsTextView;

    open spec fn view(&self) -> TermsTextView {
        TermsTextView {
            amount_sat: self.amount_sat,
            btc_payout_address: self.btc_payout_address@,
            btc_payout_script_hex: self.btc_payout_script_hex@,
            adaptor_point: self.adaptor_point@,
            ark_payer_claim_pubkey: self.ark_payer_claim_pubkey@,
        }
    }
}

impl Clone for OfferTerms {
    fn clone(&self) -> (copy: OfferTerms)
        ensures
            copy@ == self@,
    {
        OfferTerms {
            amount_sat: self.amount_sat,
            btc_payout_address: self.btc_payout_address.clone(),
            btc_payout_script_hex: self.btc_payout_script_hex.clone(),
            adaptor_point: self.adaptor_point.clone(),
            ark_payer_claim_pubkey: self.ark_payer_claim_pubkey.clone(),
        }
    }
}

/// What the BTC payer requests: the terms, the funding template and a one-use public nonce.
#[derive(Debug, PartialEq, Eq)]
pub struct BtcArkRequestArtifact {
    pub amount_sat: u64,
    pub ark_receive: String,
    pub btc_payer_claim_pubkey: String,
    pub btc_refund_pubkey: String,
    pub fee_rate_sat_vb: u64,
    pub created_height: u32,
    pub refund_height: u32,
    pub minimum_funding_confirmations: u32,
    pub safety_margin_blocks: u32,
    pub funding_template_hex: String,
    pub funding_output_index: u32,
    pub funding_prevouts_hex: Vec<String>,
    pub btc_payer_public_nonce_hex: String,
}

/// The contents of `BtcArkRequestArtifact`.
#[verifier::ext_equal]
pub struct RequestView {
    pub amount_sat: u64,
    pub ark_receive: Seq<char>,
    pub btc_payer_claim_pubkey: Seq<char>,
    pub btc_refund_pubkey: Seq<char>,
    pub fee_rate_sat_vb: u64,
    pub created_height: u32,
    pub refund_height: u32,
    pub minimum_funding_confirmations: u32,
    pub safety_margin_blocks: u32,
    pub funding_template_hex: Seq<char>,
    pub funding_output_index: u32,
    pub funding_prevouts_hex: Seq<Seq<char>>,
    pub btc_payer_public_nonce_hex: Seq<char>,
}

impl View for BtcArkRequestArtifact {
    type V = RequestView;

    open spec fn view(&self) -> RequestView {
        RequestView {
            amount_sat: self.amount_sat,
            ark_receive: self.ark_receive@,
            btc_payer_claim_pubkey: self.btc_payer_claim_pubkey@,
            btc_refund_pubkey: self.btc_refund_pubkey@,
            fee_rate_sat_vb: self.fee_rate_sat_vb,
            created_height: self.created_height,
            refund_height: self.refund_height,
            minimum_funding_confirmations: self.minimum_funding_confirmations,
            safety_margin_blocks: self.safety_margin_blocks,
            funding_template_hex: self.funding_template_hex@,
            funding_output_index: self.funding_output_index,
            funding_prevouts_hex: text_views(self.funding_prevouts_hex@),
            btc_payer_public_nonce_hex: self.btc_payer_public_nonce_hex@,
        }
    }
}

impl Clone for BtcArkRequestArtifact {
    fn clone(&self) -> (copy: BtcArkRequestArtifact)
        ensures
            copy@ == self@,
    {
        BtcArkRequestArtifact {
            amount_sat: self.amount_sat,
            ark_receive: self.ark_receive.clone(),
            btc_payer_claim_pubkey: self.btc_payer_claim_pubkey.clone(),
            btc_refund_pubkey: self.btc_refund_pubkey.clone(),
            fee_rate_sat_vb: self.fee_rate_sat_vb,
            created_height: self.created_height,
            refund_height: self.refund_height,
            minimum_funding_confirmations: self.minimum_funding_confirmations,
            safety_margin_blocks: self.safety_margin_blocks,
            funding_template_hex: self.funding_template_hex.clone(),
            funding_output_index: self.funding_output_index,
            funding_prevouts_hex: text_list_copy(&self.funding_prevouts_hex),
            btc_payer_public_nonce_hex: self.btc_payer_public_nonce_hex.clone(),
        }
    }
}

impl BtcArkRequestArtifact {
    /// Whether two messages say the same.
    pub fn same(&self, other: &BtcArkRequestArtifact) -> (same: bool)
        ensures
            same == (self@ == other@),
    {
        self.amount_sat == other.amount_sat
            && self.ark_receive == other.ark_receive
            && self.btc_payer_claim_pubkey == other.btc_payer_claim_pubkey
            && self.btc_refund_pubkey == other.btc_refund_pubkey
            && self.fee_rate_sat_vb == other.fee_rate_sat_vb
            && self.created_height == other.created_height
            && self.refund_height == other.refund_height
            && self.minimum_funding_confirmations == other.minimum_funding_confirmations
            && self.safety_margin_blocks == other.safety_margin_blocks
            && self.funding_template_hex == other.funding_template_hex
            && self.funding_output_index == other.funding_output_index
            && text_lists_eq(&self.funding_prevouts_hex, &other.funding_prevouts_hex)
            && self.btc_payer_public_nonce_hex == other.btc_payer_public_nonce_hex
    }
}

/// The Ark payer's offer, as it travels.
#[derive(Debug, PartialEq, Eq)]
pub struct ArkOfferArtifact {
    pub id: String,
    pub amount_sat: u64,
    pub btc_payout_script_hex: String,
    pub ark_input_ids: Vec<String>,
    pub ark_receive_policy_hex: String,
    pub ark_server_pubkey: String,
    pub adaptor_point: String,
}

/// The contents of `ArkOfferArtifact`.
#[verifier::ext_equal]
pub struct OfferTextView {
    pub id: Seq<char>,
    pub amount_sat: u64,
    pub btc_payout_script_hex: Seq<char>,
    pub ark_input_ids: Seq<Seq<char>>,
    pub ark_receive_policy_hex: Seq<char>,
    pub ark_server_pubkey: Seq<char>,
    pub adaptor_point: Seq<char>,
}

impl View for ArkOfferArtifact {
    type V = OfferTextView;

    open spec fn view(&self) -> OfferTextView {
        OfferTextView {
            id: self.id@,
            amount_sat: self.amount_sat,
            btc_payout_script_hex: self.btc_payout_script_hex@,
            ark_input_ids: text_views(self.ark_input_ids@),
            ark_receive_policy_hex: self.ark_receive_policy_hex@,
            ark_server_pubkey: self.ark_server_pubkey@,
            adaptor_point: self.adaptor_point@,
        }
    }
}

impl Clone for ArkOfferArtifact {
    fn clone(&self) -> (copy: ArkOfferArtifact)
        ensures
            copy@ == self@,
    {
        ArkOfferArtifact {
            id: self.id.clone(),
            amount_sat: self.amount_sat,
            btc_payout_script_hex: self.btc_payout_script_hex.clone(),
            ark_input_ids: text_list_copy(&self.ark_input_ids),
            ark_receive_policy_hex: self.ark_receive_policy_hex.clone(),
            ark_server_pubkey: self.ark_server_pubkey.clone(),
            adaptor_point: self.adaptor_point.clone(),
        }
    }
}

/// The offer with the Ark transfer that backs it.
#[derive(Debug, PartialEq, Eq)]
pub struct ArkTransferArtifact {
    pub offer: ArkOfferArtifact,
    pub transfer_package_hex: String,
}

/// The contents of `ArkTransferArtifact`.
#[verifier::ext_equal]
pub struct TransferTextView {
    pub offer: OfferTextView,
    pub transfer_package_hex: Seq<char>,
}

impl View for ArkTransferArtifact {
    type V = TransferTextView;

    open spec fn view(&self) -> TransferTextView {
        TransferTextView {
            offer: self.offer@,
            transfer_package_hex: self.transfer_package_hex@,
        }
    }
}

impl Clone for ArkTransferArtifact {
    fn clone(&self) -> (copy: ArkTransferArtifact)
        ensures
            copy@ == self@,
    {
        ArkTransferArtifact {
            offer: self.offer.clone(),
            transfer_package_hex: self.transfer_package_hex.clone(),
        }
    }
}

/// The funding transaction and its lock output.
#[derive(Debug, PartialEq, Eq)]
pub struct BtcFundingArtifact {
    pub funding_txid: String,
    pub funding_vout: u32,
    pub funding_tx_hex: String,
    pub lock_address: String,
    pub lock_amount_sat: u64,
}

/// The contents of `BtcFundingArtifact`.
#[verifier::ext_equal]
pub struct FundingView {
    pub funding_txid: Seq<char>,
    pub funding_vout: u32,
    pub funding_tx_hex: Seq<char>,
    pub lock_address: Seq<char>,
    pub lock_amount_sat: u64,
}

impl View for BtcFundingArtifact {
    type V = FundingView;

    open spec fn view(&self) -> FundingView {
        FundingView {
            funding_txid: self.funding_txid@,
            funding_vout: self.funding_vout,
            funding_tx_hex: self.funding_tx_hex@,
            lock_address: self.lock_address@,
            lock_amount_sat: self.lock_amount_sat,
        }
    }
}

impl Clone for BtcFundingArtifact {
    fn clone(&self) -> (copy: BtcFundingArtifact)
        ensures
            copy@ == self@,
    {
        BtcFundingArtifact {
            funding_txid: self.funding_txid.clone(),
            funding_vout: self.funding_vout,
            funding_tx_hex: self.funding_tx_hex.clone(),
            lock_address: self.lock_address.clone(),
            lock_amount_sat: self.lock_amount_sat,
        }
    }
}

/// The BTC claim and what is signed of it.
#[derive(Debug, PartialEq, Eq)]
pub struct BtcClaimRequestArtifact {
    pub claim_tx_hex: String,
    pub claim_sighash_hex: String,
    pub tap_tweak_hex: String,
    pub btc_payer_public_nonce_hex: String,
    pub claim_amount_sat: u64,
}

/// The contents of `BtcClaimRequestArtifact`.
#[verifier::ext_equal]
pub struct ClaimRequestView {
    pub claim_tx_hex: Seq<char>,
    pub claim_sighash_hex: Seq<char>,
    pub tap_tweak_hex: Seq<char>,
    pub btc_payer_public_nonce_hex: Seq<char>,
    pub claim_amount_sat: u64,
}

impl View for BtcClaimRequestArtifact {
    type V = ClaimRequestView;

    open spec fn view(&self) -> ClaimRequestView {
        ClaimRequestView {
            claim_tx_hex: self.claim_tx_hex@,
            claim_sighash_hex: self.claim_sighash_hex@,
            tap_tweak_hex: self.tap_tweak_hex@,
            btc_payer_public_nonce_hex: self.btc_payer_public_nonce_hex@,
            claim_amount_sat: self.claim_amount_sat,
        }
    }
}

impl Clone for BtcClaimRequestArtifact {
    fn clone(&self) -> (copy: BtcClaimRequestArtifact)
        ensures
            copy@ == self@,
    {
        BtcClaimRequestArtifact {
            claim_tx_hex: self.claim_tx_hex.clone(),
            claim_sighash_hex: self.claim_sighash_hex.clone(),
            tap_tweak_hex: self.tap_tweak_hex.clone(),
            btc_payer_public_nonce_hex: self.btc_payer_public_nonce_hex.clone(),
            claim_amount_sat: self.claim_amount_sat,
        }
    }
}

/// The Ark payer's share of the claim signature.
#[derive(Debug, PartialEq, Eq)]
pub struct ArkClaimPartialArtifact {
    pub ark_public_nonce_hex: String,
    pub ark_partial_sig_hex: String,
}

/// The contents of `ArkClaimPartialArtifact`.
#[verifier::ext_equal]
pub struct ClaimPartialView {
    pub ark_public_nonce_hex: Seq<char>,
    pub ark_partial_sig_hex: Seq<char>,
}

impl View for ArkClaimPartialArtifact {
    type V = ClaimPartialView;

    open spec fn view(&self) -> ClaimPartialView {
        ClaimPartialView {
            ark_public_nonce_hex: self.ark_public_nonce_hex@,
            ark_partial_sig_hex: self.ark_partial_sig_hex@,
        }
    }
}

impl Clone for ArkClaimPartialArtifact {
    fn clone(&self) -> (copy: ArkClaimPartialArtifact)
        ensures
            copy@ == self@,
    {
        ArkClaimPartialArtifact {
            ark_public_nonce_hex: self.ark_public_nonce_hex.clone(),
            ark_partial_sig_hex: self.ark_partial_sig_hex.clone(),
        }
    }
}

/// The pre-signature of the claim.
#[derive(Debug, PartialEq, Eq)]
pub struct BtcClaimAdaptorArtifact {
    pub adaptor_point: String,
    pub aggregate_key: String,
    pub sighash_hex: String,
    pub pre_signature_hex: String,
}

/// The contents of `BtcClaimAdaptorArtifact`.
#[verifier::ext_equal]
pub struct ClaimAdaptorView {
    pub adaptor_point: Seq<char>,
    pub aggregate_key: Seq<char>,
    pub sighash_hex: Seq<char>,
    pub pre_signature_hex: Seq<char>,
}

impl View for BtcClaimAdaptorArtifact {
    type V = ClaimAdaptorView;

    open spec fn view(&self) -> ClaimAdaptorView {
        ClaimAdaptorView {
            adaptor_point: self.adaptor_point@,
            aggregate_key: self.aggregate_key@,
            sighash_hex: self.sighash_hex@,
            pre_signature_hex: self.pre_signature_hex@,
        }
    }
}

impl BtcClaimAdaptorArtifact {
    /// Whether two pre-signatures are the same.
    pub fn same(&self, other: &BtcClaimAdaptorArtifact) -> (same: bool)
        ensures
            same == (self@ == other@),
    {
        self.adaptor_point == other.adaptor_point
            && self.aggregate_key == other.aggregate_key
            && self.sighash_hex == other.sighash_hex
            && self.pre_signature_hex == other.pre_signature_hex
    }
}

impl Clone for BtcClaimAdaptorArtifact {
    fn clone(&self) -> (copy: BtcClaimAdaptorArtifact)
        ensures
            copy@ == self@,
    {
        BtcClaimAdaptorArtifact {
            adaptor_point: self.adaptor_point.clone(),
            aggregate_key: self.aggregate_key.clone(),
            sighash_hex: self.sighash_hex.clone(),
            pre_signature_hex: self.pre_signature_hex.clone(),
        }
    }
}

} // verus!
