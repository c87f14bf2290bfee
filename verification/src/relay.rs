//! The relay file: the public snapshot that the parties hand to each other.

use vstd::prelude::*;
use vstd::utf8::{encode_utf8, valid_utf8};

use crate::adaptor::{AdaptorPreSignature, AdaptorView, BtcClaimAdaptorPackage};
use crate::ark_types::{
    id_texts, ids_of_texts, outpoint_of_text, parse_ids, policy_of_hex, vtxo_id_text, vtxo_id_texts, VtxoPolicy,
};
use crate::artifacts::{
    ArkClaimPartialArtifact, ArkOfferArtifact, ArkTransferArtifact, BtcArkRequestArtifact, BtcClaimAdaptorArtifact,
    BtcClaimRequestArtifact, BtcFundingArtifact, ClaimAdaptorView, ClaimPartialView, ClaimRequestView, FundingView,
    OfferTerms, OfferTextView, RequestView, TermsTextView, TransferTextView,
};
use crate::bytes::bytes_eq;
use crate::commitment::{commitment_text, write_commitment, CommitmentView};
use crate::error::SwapError;
use crate::hex::{bytes32_from_hex, bytes_hex, hex_text, hex_value, law_hex_round_trip, script_from_hex};
use crate::keys::{is_xonly_key, public_key_of_text, sha256, sha256_of, signature_from_hex, PublicKey, XOnlyPublicKey};
use crate::offer::{ArkOffer, OfferView};
use crate::role::SwapStatus;
use crate::swap_id::{swap_id_value, SwapId};
use crate::tx::{encode_tx, hex_of_tx, stripped, tx_from_hex, tx_of_hex, without_witness};

verus! {

/// The version of relay files and of stored swaps.
pub const VERSION: u16 = 3;

/// The public snapshot of a swap.
#[derive(Debug, PartialEq, Eq)]
pub struct RelayFile {
    pub protocol: String,
    pub version: u16,
    pub swap_id: String,
    pub status: SwapStatus,
    pub request: BtcArkRequestArtifact,
    pub terms: Option<OfferTerms>,
    pub ark_transfer: Option<ArkTransferArtifact>,
    pub btc_funding: Option<BtcFundingArtifact>,
    pub claim_request: Option<BtcClaimRequestArtifact>,
    pub ark_claim_partial: Option<ArkClaimPartialArtifact>,
    pub btc_claim_adaptor: Option<BtcClaimAdaptorArtifact>,
}

/// The contents of a relay file.
#[verifier::ext_equal]
pub struct RelayView {
    pub protocol: Seq<char>,
    pub version: u16,
    pub swap_id: Seq<char>,
    pub status: SwapStatus,
    pub request: RequestView,
    pub terms: Option<TermsTextView>,
    pub ark_transfer: Option<TransferTextView>,
    pub btc_funding: Option<FundingView>,
    pub claim_request: Option<ClaimRequestView>,
    pub ark_claim_partial: Option<ClaimPartialView>,
    pub btc_claim_adaptor: Option<ClaimAdaptorView>,
}

/// The contents of something that may be missing.
pub open spec fn option_view<T: View>(item: Option<T>) -> Option<T::V> {
    match item {
        Some(found) => Some(found@),
        None => None,
    }
}

impl View for RelayFile {
    type V = RelayView;

    open spec fn view(&self) -> RelayView {
        RelayView {
            protocol: self.protocol@,
            version: self.version,
            swap_id: self.swap_id@,
            status: self.status,
            request: self.request@,
            terms: option_view(self.terms),
            ark_transfer: option_view(self.ark_transfer),
            btc_funding: option_view(self.btc_funding),
            claim_request: option_view(self.claim_request),
            ark_claim_partial: option_view(self.ark_claim_partial),
            btc_claim_adaptor: option_view(self.btc_claim_adaptor),
        }
    }
}

impl Clone for RelayFile {
    fn clone(&self) -> (copy: RelayFile)
        ensures
            copy@ == self@,
    {
        RelayFile {
            protocol: self.protocol.clone(),
            version: self.version,
            swap_id: self.swap_id.clone(),
            status: self.status,
            request: self.request.clone(),
            terms: match &self.terms {
                Some(item) => Some(item.clone()),
                None => None,
            },
            ark_transfer: match &self.ark_transfer {
                Some(item) => Some(item.clone()),
                None => None,
            },
            btc_funding: match &self.btc_funding {
                Some(item) => Some(item.clone()),
                None => None,
            },
            claim_request: match &self.claim_request {
                Some(item) => Some(item.clone()),
                None => None,
            },
            ark_claim_partial: match &self.ark_claim_partial {
                Some(item) => Some(item.clone()),
                None => None,
            },
            btc_claim_adaptor: match &self.btc_claim_adaptor {
                Some(item) => Some(item.clone()),
                None => None,
            },
        }
    }
}

/// A relay file that only requests a swap.
pub open spec fn request_relay(swap_id: Seq<u8>, request: RequestView) -> RelayView {
    RelayView {
        protocol: "btc-ark"@,
        version: VERSION,
        swap_id: hex_text(swap_id),
        status: SwapStatus::Requested,
        request,
        terms: None,
        ark_transfer: None,
        btc_funding: None,
        claim_request: None,
        ark_claim_partial: None,
        btc_claim_adaptor: None,
    }
}

/// Why a relay file is not taken, if it is not.
pub open spec fn relay_refusal(relay: RelayView) -> Option<SwapError> {
    if relay.protocol != "btc-ark"@ || relay.version != VERSION {
        Some(SwapError::UnsupportedRelay)
    } else if swap_id_value(relay.swap_id) is None {
        Some(SwapError::InvalidSwapId)
    } else {
        None
    }
}

/// Why a relay file is not taken for a swap, if it is not.
pub open spec fn swap_refusal(relay: RelayView, expected: Seq<u8>) -> Option<SwapError> {
    match relay_refusal(relay) {
        Some(error) => Some(error),
        None => if swap_id_value(relay.swap_id) == Some(expected) {
            None
        } else {
            Some(SwapError::SwapMismatch)
        },
    }
}

/// Why a response cannot be committed to, if it cannot.
pub open spec fn commitment_refusal(relay: RelayView) -> Option<SwapError> {
    if relay_refusal(relay) is Some {
        relay_refusal(relay)
    } else if relay.btc_funding is None {
        Some(SwapError::FundingMissing)
    } else if tx_of_hex(relay.btc_funding->0.funding_tx_hex) is None {
        Some(SwapError::InvalidTransaction)
    } else if relay.terms is None {
        Some(SwapError::TermsMissing)
    } else if relay.ark_transfer is None {
        Some(SwapError::ArkTransferMissing)
    } else if relay.claim_request is None {
        Some(SwapError::ClaimRequestMissing)
    } else if relay.ark_claim_partial is None {
        Some(SwapError::ClaimPartialMissing)
    } else {
        None
    }
}

/// What a complete response commits to: everything but the status and the pre-signature, and the
/// funding transaction without its witnesses.
pub open spec fn committed(relay: RelayView) -> CommitmentView {
    CommitmentView {
        protocol: relay.protocol,
        version: relay.version,
        swap_id: relay.swap_id,
        request: relay.request,
        terms: relay.terms->0,
        ark_transfer: relay.ark_transfer->0,
        btc_funding: FundingView {
            funding_tx_hex: hex_of_tx(stripped(tx_of_hex(relay.btc_funding->0.funding_tx_hex)->0)),
            ..relay.btc_funding->0
        },
        claim_request: relay.claim_request->0,
        ark_claim_partial: relay.ark_claim_partial->0,
    }
}

/// The hexadecimal digest of a commitment.
pub open spec fn commitment_digest(item: CommitmentView) -> Seq<char> {
    hex_text(sha256_of(encode_utf8(commitment_text(item))))
}

/// The commitment to a response, or why there is none.
pub open spec fn response_commitment(relay: RelayView) -> Result<Seq<char>, SwapError> {
    match commitment_refusal(relay) {
        Some(error) => Err(error),
        None => Ok(commitment_digest(committed(relay))),
    }
}

impl RelayFile {
    /// The relay file that requests a swap.
    pub fn new_request(swap_id: SwapId, request: BtcArkRequestArtifact) -> (relay: RelayFile)
        ensures
            relay@ == request_relay(swap_id@, request@),
    {
        RelayFile {
            protocol: "btc-ark".to_owned(),
            version: VERSION,
            swap_id: swap_id.to_string(),
            status: SwapStatus::Requested,
            request,
            terms: None,
            ark_transfer: None,
            btc_funding: None,
            claim_request: None,
            ark_claim_partial: None,
            btc_claim_adaptor: None,
        }
    }

    /// Checks protocol, version and swap identity.
    pub fn validate(&self) -> (result: Result<(), SwapError>)
        ensures
            match result {
                Ok(()) => relay_refusal(self@) is None,
                Err(error) => relay_refusal(self@) == Some(error),
            },
    {
        if self.protocol != "btc-ark".to_owned() || self.version != VERSION {
            return Err(SwapError::UnsupportedRelay);
        }
        match self.swap_id() {
            Ok(_) => Ok(()),
            Err(error) => Err(error),
        }
    }

    /// The swap that this relay file is about.
    pub fn swap_id(&self) -> (id: Result<SwapId, SwapError>)
        ensures
            match id {
                Ok(found) => swap_id_value(self@.swap_id) == Some(found@),
                Err(error) => swap_id_value(self@.swap_id) is None && error == SwapError::InvalidSwapId,
            },
    {
        match SwapId::from_str(self.swap_id.as_str()) {
            Ok(id) => Ok(id),
            Err(_) => Err(SwapError::InvalidSwapId),
        }
    }

    /// Checks that this relay file is a valid one of the expected swap.
    pub fn require_swap(&self, expected: SwapId) -> (result: Result<(), SwapError>)
        ensures
            match result {
                Ok(()) => swap_refusal(self@, expected@) is None,
                Err(error) => swap_refusal(self@, expected@) == Some(error),
            },
    {
        match self.validate() {
            Ok(()) => {},
            Err(error) => return Err(error),
        }
        match self.swap_id() {
            Ok(id) => if id.same(&expected) {
                Ok(())
            } else {
                Err(SwapError::SwapMismatch)
            },
            Err(error) => Err(error),
        }
    }

    /// The Ark payer's terms.
    pub fn terms(&self) -> (terms: Result<&OfferTerms, SwapError>)
        ensures
            match terms {
                Ok(found) => self@.terms == Some(found@),
                Err(error) => self@.terms is None && error == SwapError::TermsMissing,
            },
    {
        match &self.terms {
            Some(terms) => Ok(terms),
            None => Err(SwapError::TermsMissing),
        }
    }

    /// Where the BTC payer receives Ark.
    pub fn payer_ark_receive(&self) -> (address: Result<&str, SwapError>)
        ensures
            address matches Ok(found) && found@ == self@.request.ark_receive,
    {
        Ok(self.request.ark_receive.as_str())
    }

    /// The BTC payer's claim key.
    pub fn btc_payer_claim_pubkey(&self) -> (key: Result<&str, SwapError>)
        ensures
            key matches Ok(found) && found@ == self@.request.btc_payer_claim_pubkey,
    {
        Ok(self.request.btc_payer_claim_pubkey.as_str())
    }

    /// Commits to the complete signing context of a response.
    ///
    /// Funding witnesses are the only transaction data that may change when the BTC payer funds.
    /// The progress status and the resulting pre-signature do not alter the commitment.
    pub fn response_commitment_hash_hex(&self) -> (digest: Result<String, SwapError>)
        ensures
            match digest {
                Ok(found) => response_commitment(self@) == Ok::<Seq<char>, SwapError>(found@),
                Err(error) => response_commitment(self@) == Err::<Seq<char>, SwapError>(error),
            },
            digest matches Ok(found) ==> found@.len() == 64,
    {
        match self.validate() {
            Ok(()) => {},
            Err(error) => return Err(error),
        }
        let funding = match &self.btc_funding {
            Some(funding) => funding,
            None => return Err(SwapError::FundingMissing),
        };
        let transaction = match tx_from_hex(funding.funding_tx_hex.as_str()) {
            Ok(tx) => without_witness(&tx),
            Err(error) => return Err(error),
        };
        let terms = match self.terms() {
            Ok(terms) => terms,
            Err(error) => return Err(error),
        };
        let ark_transfer = match &self.ark_transfer {
            Some(item) => item,
            None => return Err(SwapError::ArkTransferMissing),
        };
        let claim_request = match &self.claim_request {
            Some(item) => item,
            None => return Err(SwapError::ClaimRequestMissing),
        };
        let ark_claim_partial = match &self.ark_claim_partial {
            Some(item) => item,
            None => return Err(SwapError::ClaimPartialMissing),
        };
        let text = write_commitment(
            &self.protocol,
            self.version,
            &self.swap_id,
            &self.request,
            terms,
            ark_transfer,
            funding,
            &encode_tx(&transaction),
            claim_request,
            ark_claim_partial,
        );
        Ok(bytes_hex(sha256(text.as_str().as_bytes()).as_slice()))
    }
}

/// The text of an offer.
pub open spec fn offer_text(offer: OfferView) -> OfferTextView {
    OfferTextView {
        id: hex_text(offer.id),
        amount_sat: offer.amount,
        btc_payout_script_hex: hex_text(offer.btc_payout_script),
        ark_input_ids: vtxo_id_texts(offer.ark_input_ids),
        ark_receive_policy_hex: hex_text(offer.ark_receive_policy),
        ark_server_pubkey: hex_text(offer.ark_server_pubkey),
        adaptor_point: hex_text(offer.adaptor_point),
    }
}

/// The offer that a text writes, or why it writes none.
pub open spec fn offer_of_text(text: OfferTextView) -> Result<OfferView, SwapError> {
    if swap_id_value(text.id) is None {
        Err(SwapError::InvalidSwapId)
    } else if hex_value(text.btc_payout_script_hex) is None {
        Err(SwapError::InvalidHex)
    } else if ids_of_texts(text.ark_input_ids) is None {
        Err(SwapError::InvalidVtxoId)
    } else if policy_of_hex(text.ark_receive_policy_hex) is None {
        Err(SwapError::InvalidPolicy)
    } else if public_key_of_text(text.ark_server_pubkey) is None || public_key_of_text(text.adaptor_point) is None {
        Err(SwapError::InvalidPublicKey)
    } else {
        Ok(
            OfferView {
                id: swap_id_value(text.id)->0,
                amount: text.amount_sat,
                btc_payout_script: hex_value(text.btc_payout_script_hex)->0,
                ark_input_ids: ids_of_texts(text.ark_input_ids)->0,
                ark_receive_policy: policy_of_hex(text.ark_receive_policy_hex)->0,
                ark_server_pubkey: public_key_of_text(text.ark_server_pubkey)->0,
                adaptor_point: public_key_of_text(text.adaptor_point)->0,
            },
        )
    }
}

impl ArkOfferArtifact {
    /// The text of an offer.
    pub fn from_offer(offer: &ArkOffer) -> (artifact: ArkOfferArtifact)
        ensures
            artifact@ == offer_text(offer@),
    {
        ArkOfferArtifact {
            id: offer.id.to_string(),
            amount_sat: offer.amount,
            btc_payout_script_hex: bytes_hex(offer.btc_payout_script.as_slice()),
            ark_input_ids: id_texts(&offer.ark_input_ids),
            ark_receive_policy_hex: offer.ark_receive_policy.serialize_hex(),
            ark_server_pubkey: offer.ark_server_pubkey.to_string(),
            adaptor_point: offer.adaptor_point.to_string(),
        }
    }

    /// The offer that this text writes.
    pub fn to_offer(&self) -> (offer: Result<ArkOffer, SwapError>)
        ensures
            match offer {
                Ok(found) => offer_of_text(self@) == Ok::<OfferView, SwapError>(found@),
                Err(error) => offer_of_text(self@) == Err::<OfferView, SwapError>(error),
            },
    {
        let id = match SwapId::from_str(self.id.as_str()) {
            Ok(id) => id,
            Err(_) => return Err(SwapError::InvalidSwapId),
        };
        let btc_payout_script = match script_from_hex(self.btc_payout_script_hex.as_str()) {
            Ok(script) => script,
            Err(error) => return Err(error),
        };
        let ark_input_ids = match parse_ids(&self.ark_input_ids) {
            Ok(ids) => ids,
            Err(error) => return Err(error),
        };
        let ark_receive_policy = match VtxoPolicy::deserialize_hex(self.ark_receive_policy_hex.as_str()) {
            Ok(policy) => policy,
            Err(error) => return Err(error),
        };
        let ark_server_pubkey = match PublicKey::from_str(self.ark_server_pubkey.as_str()) {
            Ok(key) => key,
            Err(error) => return Err(error),
        };
        let adaptor_point = match PublicKey::from_str(self.adaptor_point.as_str()) {
            Ok(key) => key,
            Err(error) => return Err(error),
        };
        Ok(
            ArkOffer {
                id,
                amount: self.amount_sat,
                btc_payout_script,
                ark_input_ids,
                ark_receive_policy,
                ark_server_pubkey,
                adaptor_point,
            },
        )
    }
}

/// The text of a pre-signature.
pub open spec fn package_text(package: AdaptorView) -> ClaimAdaptorView {
    ClaimAdaptorView {
        adaptor_point: hex_text(package.adaptor_point),
        aggregate_key: hex_text(package.aggregate_key),
        sighash_hex: hex_text(package.sighash),
        pre_signature_hex: hex_text(package.pre_signature),
    }
}

/// The pre-signature that a text writes, or why it writes none.
pub open spec fn package_of_text(text: ClaimAdaptorView) -> Result<AdaptorView, SwapError> {
    if hex_value(text.pre_signature_hex) is None {
        Err(SwapError::InvalidHex)
    } else if hex_value(text.pre_signature_hex)->0.len() != 64 {
        Err(SwapError::InvalidSignature)
    } else if public_key_of_text(text.adaptor_point) is None {
        Err(SwapError::InvalidPublicKey)
    } else if !(hex_value(text.aggregate_key) matches Some(bytes) && bytes.len() == 32 && is_xonly_key(bytes)) {
        Err(SwapError::InvalidPublicKey)
    } else if hex_value(text.sighash_hex) is None {
        Err(SwapError::InvalidHex)
    } else if hex_value(text.sighash_hex)->0.len() != 32 {
        Err(SwapError::ExpectedThirtyTwoBytes)
    } else {
        Ok(
            AdaptorView {
                adaptor_point: public_key_of_text(text.adaptor_point)->0,
                aggregate_key: hex_value(text.aggregate_key)->0,
                sighash: hex_value(text.sighash_hex)->0,
                pre_signature: hex_value(text.pre_signature_hex)->0,
            },
        )
    }
}

impl BtcClaimAdaptorArtifact {
    /// The text of a pre-signature.
    pub fn from_package(package: &BtcClaimAdaptorPackage) -> (artifact: BtcClaimAdaptorArtifact)
        ensures
            artifact@ == package_text(package@),
    {
        BtcClaimAdaptorArtifact {
            adaptor_point: package.adaptor_point.to_string(),
            aggregate_key: package.aggregate_key.to_string(),
            sighash_hex: bytes_hex(package.sighash.as_slice()),
            pre_signature_hex: bytes_hex(package.pre_signature.as_pre_signature().as_slice()),
        }
    }

    /// The pre-signature that this text writes.
    pub fn to_package(&self) -> (package: Result<BtcClaimAdaptorPackage, SwapError>)
        ensures
            match package {
                Ok(found) => package_of_text(self@) == Ok::<AdaptorView, SwapError>(found@),
                Err(error) => package_of_text(self@) == Err::<AdaptorView, SwapError>(error),
            },
    {
        let pre_signature = match signature_from_hex(self.pre_signature_hex.as_str()) {
            Ok(signature) => signature,
            Err(error) => return Err(error),
        };
        let adaptor_point = match PublicKey::from_str(self.adaptor_point.as_str()) {
            Ok(key) => key,
            Err(error) => return Err(error),
        };
        let aggregate_key = match XOnlyPublicKey::from_str(self.aggregate_key.as_str()) {
            Ok(key) => key,
            Err(error) => return Err(error),
        };
        let sighash = match bytes32_from_hex(self.sighash_hex.as_str()) {
            Ok(bytes) => bytes,
            Err(error) => return Err(error),
        };
        Ok(
            BtcClaimAdaptorPackage {
                adaptor_point,
                aggregate_key,
                sighash,
                pre_signature: AdaptorPreSignature::new(pre_signature),
            },
        )
    }
}

/// `str::strip_prefix` of std: what follows the prefix, where the text starts with it.
#[verifier::external_body]
pub(crate) fn after_prefix<'a>(text: &'a str, prefix: &str) -> (rest: Option<&'a str>)
    ensures
        match rest {
            Some(found) => text@ == prefix@ + found@,
            None => !prefix@.is_prefix_of(text@),
        },
{
    text.strip_prefix(prefix)
}

/// The path of a coordinator, without a leading `file://`.
pub open spec fn coordinator_file(coordinator: Seq<char>) -> Seq<char> {
    if "file://"@.is_prefix_of(coordinator) {
        coordinator.skip("file://"@.len() as int)
    } else {
        coordinator
    }
}

/// The path of a coordinator, without a leading `file://`.
pub fn coordinator_path(coordinator: &str) -> (path: &str)
    ensures
        path@ == coordinator_file(coordinator@),
{
    match after_prefix(coordinator, "file://") {
        Some(rest) => {
            assert(coordinator@.skip("file://"@.len() as int) =~= rest@);
            assert(coordinator@.take("file://"@.len() as int) =~= "file://"@);
            rest
        },
        None => coordinator,
    }
}

/// `std::str::from_utf8`, which takes the bytes that encode a text.
#[verifier::external_body]
fn is_utf8(bytes: &[u8]) -> (found: bool)
    ensures
        found == valid_utf8(bytes@),
{
    std::str::from_utf8(bytes).is_ok()
}

/// Whether a word occurs in bytes.
pub open spec fn occurs(word: Seq<u8>, bytes: Seq<u8>) -> bool {
    exists|i: int|
        0 <= i && i + word.len() <= bytes.len() && #[trigger] bytes.subrange(i, i + word.len()) == word
}

/// Whether a word occurs in bytes.
fn finds(word: &[u8], bytes: &[u8]) -> (found: bool)
    ensures
        found == occurs(word@, bytes@),
{
    if word.len() == 0 {
        assert(bytes@.subrange(0, 0int + word@.len()) =~= word@);
        return true;
    }
    let mut i: usize = 0;
    while bytes.len() - i >= word.len()
        invariant
            i <= bytes@.len(),
            word@.len() > 0,
            forall|k: int|
                0 <= k < i && k + word@.len() <= bytes@.len() ==> #[trigger] bytes@.subrange(k, k + word@.len())
                    != word@,
        decreases bytes@.len() - i,
    {
        if bytes_eq(vstd::slice::slice_subrange(bytes, i, i + word.len()), word) {
            assert(bytes@.subrange(i as int, i + word@.len()) == word@);
            return true;
        }
        i += 1;
    }
    false
}

/// Whether bytes hold one of the labels of secret material.
pub open spec fn holds_secret_label(bytes: Seq<u8>) -> bool {
    occurs(encode_utf8("mnemonic"@), bytes) || occurs(encode_utf8("adaptor_secret"@), bytes) || occurs(
        encode_utf8("secret_nonce"@),
        bytes,
    ) || occurs(encode_utf8("funding_psbt"@), bytes)
}

/// Refuses bytes that are no text or hold a label of secret material.
///
/// The closed, public-only types of relay files are the primary boundary. This also refuses
/// secret-bearing labels inside otherwise public strings.
pub fn ensure_relay_secret_free(bytes: &[u8]) -> (result: Result<(), SwapError>)
    ensures
        match result {
            Ok(()) => valid_utf8(bytes@) && !holds_secret_label(bytes@),
            Err(error) => {
                ||| !valid_utf8(bytes@) && error == SwapError::RelayNotText
                ||| valid_utf8(bytes@) && holds_secret_label(bytes@) && error == SwapError::RelayHoldsSecret
            },
        },
{
    if !is_utf8(bytes) {
        return Err(SwapError::RelayNotText);
    }
    if finds("mnemonic".as_bytes(), bytes) || finds("adaptor_secret".as_bytes(), bytes) || finds(
        "secret_nonce".as_bytes(),
        bytes,
    ) || finds("funding_psbt".as_bytes(), bytes) {
        return Err(SwapError::RelayHoldsSecret);
    }
    Ok(())
}

/// Whether two relay files differ in progress at most: in the status, the pre-signature, and the
/// witnesses of the funding transaction.
pub open spec fn same_but_progress(a: RelayView, b: RelayView) -> bool {
    &&& a.protocol == b.protocol && a.version == b.version && a.swap_id == b.swap_id && a.request == b.request
    &&& a.terms == b.terms && a.ark_transfer == b.ark_transfer && a.claim_request == b.claim_request
    &&& a.ark_claim_partial == b.ark_claim_partial
    &&& match (a.btc_funding, b.btc_funding) {
        (Some(x), Some(y)) => {
            &&& x.funding_txid == y.funding_txid && x.funding_vout == y.funding_vout
            &&& x.lock_address == y.lock_address && x.lock_amount_sat == y.lock_amount_sat
            &&& match (tx_of_hex(x.funding_tx_hex), tx_of_hex(y.funding_tx_hex)) {
                (Some(p), Some(q)) => stripped(p) == stripped(q),
                (None, None) => true,
                _ => false,
            }
        },
        (None, None) => true,
        _ => false,
    }
}

/// Progress does not alter the commitment: neither the status, nor the pre-signature, nor funding
/// witnesses.
pub proof fn law_commitment_ignores_progress(a: RelayView, b: RelayView)
    requires
        same_but_progress(a, b),
    ensures
        response_commitment(a) == response_commitment(b),
{
    if commitment_refusal(a) is None {
        assert(committed(a) =~~= committed(b));
    }
}

/// Two complete responses with the same committed text differ in progress at most, where the
/// encoding of transactions tells them apart.
pub proof fn law_commitment_tells_the_response(a: RelayView, b: RelayView)
    requires
        commitment_refusal(a) is None,
        commitment_refusal(b) is None,
        commitment_text(committed(a)) == commitment_text(committed(b)),
    ensures
        a.swap_id == b.swap_id,
        a.request == b.request,
        a.terms == b.terms,
        a.ark_transfer == b.ark_transfer,
        a.claim_request == b.claim_request,
        a.ark_claim_partial == b.ark_claim_partial,
        a.btc_funding->0.funding_txid == b.btc_funding->0.funding_txid,
        a.btc_funding->0.funding_vout == b.btc_funding->0.funding_vout,
        a.btc_funding->0.lock_address == b.btc_funding->0.lock_address,
        a.btc_funding->0.lock_amount_sat == b.btc_funding->0.lock_amount_sat,
        ({
            let first = stripped(tx_of_hex(a.btc_funding->0.funding_tx_hex)->0);
            let second = stripped(tx_of_hex(b.btc_funding->0.funding_tx_hex)->0);
            &&& hex_of_tx(first) == hex_of_tx(second)
            &&& tx_of_hex(hex_of_tx(first)) == Some(first) && tx_of_hex(hex_of_tx(second)) == Some(second) ==> first
                == second
        }),
{
    crate::commitment::law_commitment_binds(committed(a), committed(b));
}

/// A relay file is for a swap exactly where it has the protocol and the version of this format, and the
/// identifier of the swap.
pub proof fn law_relay_is_for_its_swap(relay: RelayView, id: Seq<u8>)
    ensures
        swap_refusal(relay, id) is None <==> relay.protocol == "btc-ark"@ && relay.version == 3 && swap_id_value(
            relay.swap_id,
        ) == Some(id),
{
}

/// A response can be committed to exactly where its relay file has this format, and the terms, the Ark
/// transfer, a funding that can be read, the claim request and the share are all there.
pub proof fn law_whole_response_is_committed(relay: RelayView)
    ensures
        response_commitment(relay) is Ok <==> ({
            &&& relay.protocol == "btc-ark"@ && relay.version == 3 && swap_id_value(relay.swap_id) is Some
            &&& relay.terms is Some && relay.ark_transfer is Some && relay.claim_request is Some
            &&& relay.ark_claim_partial is Some
            &&& relay.btc_funding matches Some(funding) && tx_of_hex(funding.funding_tx_hex) is Some
        }),
{
}

/// What a new request publishes: the request, under the identifier of its swap, and nothing of an answer.
pub proof fn law_request_publishes_itself(id: Seq<u8>, request: RequestView)
    requires
        id.len() == 32,
    ensures
        ({
            let relay = request_relay(id, request);
            &&& relay.request == request && relay.status == SwapStatus::Requested
            &&& swap_refusal(relay, id) is None
            &&& relay.terms is None && relay.ark_transfer is None && relay.btc_funding is None
            &&& relay.claim_request is None && relay.ark_claim_partial is None && relay.btc_claim_adaptor is None
        }),
{
    law_hex_round_trip(id);
}

/// An offer reads back as it was written, where its keys, its policy and the identifiers of its inputs do.
pub proof fn law_offer_reads_back(offer: OfferView)
    requires
        offer.id.len() == 32,
        public_key_of_text(hex_text(offer.ark_server_pubkey)) == Some(offer.ark_server_pubkey),
        public_key_of_text(hex_text(offer.adaptor_point)) == Some(offer.adaptor_point),
        policy_of_hex(hex_text(offer.ark_receive_policy)) == Some(offer.ark_receive_policy),
        forall|i: int|
            0 <= i < offer.ark_input_ids.len() ==> outpoint_of_text(vtxo_id_text(#[trigger] offer.ark_input_ids[i]))
                == Some(offer.ark_input_ids[i].point),
    ensures
        offer_of_text(offer_text(offer)) == Ok::<OfferView, SwapError>(offer),
{
    law_hex_round_trip(offer.id);
    law_hex_round_trip(offer.btc_payout_script);
    let texts = offer_text(offer).ark_input_ids;
    assert forall|i: int| 0 <= i < texts.len() implies outpoint_of_text(#[trigger] texts[i]) == Some(
        offer.ark_input_ids[i].point,
    ) by {
        assert(texts[i] == vtxo_id_text(offer.ark_input_ids[i]));
    }
    assert(ids_of_texts(texts)->0 =~= offer.ark_input_ids);
}

/// A pre-signature reads back as it was written, where its point does.
pub proof fn law_package_reads_back(package: AdaptorView)
    requires
        public_key_of_text(hex_text(package.adaptor_point)) == Some(package.adaptor_point),
        package.aggregate_key.len() == 32 && is_xonly_key(package.aggregate_key),
        package.sighash.len() == 32,
        package.pre_signature.len() == 64,
    ensures
        package_of_text(package_text(package)) == Ok::<AdaptorView, SwapError>(package),
{
    law_hex_round_trip(package.aggregate_key);
    law_hex_round_trip(package.sighash);
    law_hex_round_trip(package.pre_signature);
}

/// A coordinator is a path, with or without the scheme of files before it.
pub proof fn law_coordinator_is_a_path(path: Seq<char>)
    ensures
        coordinator_file("file://"@ + path) == path,
        (path.len() == 0 || path[0] != 'f') ==> coordinator_file(path) == path,
{
    reveal_strlit("file://");
    let whole = "file://"@ + path;
    assert(whole.take("file://"@.len() as int) =~= "file://"@);
    assert(whole.skip("file://"@.len() as int) =~= path);
    if "file://"@.is_prefix_of(path) {
        assert(path.subrange(0, "file://"@.len() as int)[0] == "file://"@[0]);
    }
}

/// Bytes with a label of secret material in them, wherever it stands, are told to hold one.
pub proof fn law_secret_label_is_found(before: Seq<u8>, after: Seq<u8>)
    ensures
        holds_secret_label(before + encode_utf8("mnemonic"@) + after),
        holds_secret_label(before + encode_utf8("adaptor_secret"@) + after),
        holds_secret_label(before + encode_utf8("secret_nonce"@) + after),
        holds_secret_label(before + encode_utf8("funding_psbt"@) + after),
{
    lemma_word_occurs(encode_utf8("mnemonic"@), before, after);
    lemma_word_occurs(encode_utf8("adaptor_secret"@), before, after);
    lemma_word_occurs(encode_utf8("secret_nonce"@), before, after);
    lemma_word_occurs(encode_utf8("funding_psbt"@), before, after);
}

/// A word occurs between what stands before and after it.
proof fn lemma_word_occurs(word: Seq<u8>, before: Seq<u8>, after: Seq<u8>)
    ensures
        occurs(word, before + word + after),
{
    let bytes = before + word + after;
    let i = before.len() as int;
    assert(bytes.subrange(i, i + word.len()) =~= word);
}

/// Bytes are refused for a secret label only where one of the labels stands in them.
pub proof fn law_refused_bytes_hold_a_label(bytes: Seq<u8>)
    requires
        holds_secret_label(bytes),
    ensures
        exists|before: Seq<u8>, word: Seq<char>, after: Seq<u8>|
            bytes == #[trigger] (before + encode_utf8(word) + after) && (word == "mnemonic"@ || word == "adaptor_secret"@
                || word == "secret_nonce"@ || word == "funding_psbt"@),
{
    let word = if occurs(encode_utf8("mnemonic"@), bytes) {
        "mnemonic"@
    } else if occurs(encode_utf8("adaptor_secret"@), bytes) {
        "adaptor_secret"@
    } else if occurs(encode_utf8("secret_nonce"@), bytes) {
        "secret_nonce"@
    } else {
        "funding_psbt"@
    };
    let label = encode_utf8(word);
    let i = choose|i: int|
        0 <= i && i + label.len() <= bytes.len() && #[trigger] bytes.subrange(i, i + label.len()) == label;
    let before = bytes.take(i);
    let after = bytes.skip(i + label.len());
    assert(bytes =~= before + bytes.subrange(i, i + label.len()) + after);
    assert(bytes == before + encode_utf8(word) + after);
}

} // verus!
