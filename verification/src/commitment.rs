//! The commitment to the complete signing context that the Ark payer responds with.

use vstd::prelude::*;

use crate::artifacts::{
    ArkClaimPartialArtifact, ArkOfferArtifact, ArkTransferArtifact, BtcArkRequestArtifact, BtcClaimRequestArtifact,
    BtcFundingArtifact, ClaimPartialView, ClaimRequestView, FundingView, OfferTerms, OfferTextView, RequestView,
    TermsTextView, TransferTextView,
};
use crate::json::{
    lemma_pieces_prefix, lemma_shape_concat, readable, rendered, same_shape, JsonWriter, Piece,
};

verus! {

/// The pieces of the terms.
pub open spec fn terms_pieces(item: TermsTextView) -> Seq<Piece> {
    seq![
        Piece::Literal("{\"amount_sat\":"@),
        Piece::Number(item.amount_sat as nat),
        Piece::Literal(",\"btc_payout_address\":"@),
        Piece::Text(item.btc_payout_address),
        Piece::Literal(",\"btc_payout_script_hex\":"@),
        Piece::Text(item.btc_payout_script_hex),
        Piece::Literal(",\"adaptor_point\":"@),
        Piece::Text(item.adaptor_point),
        Piece::Literal(",\"ark_payer_claim_pubkey\":"@),
        Piece::Text(item.ark_payer_claim_pubkey),
        Piece::Literal("}"@),
    ]
}

/// Writes the pieces of the terms.
fn write_terms(writer: &mut JsonWriter, item: &OfferTerms)
    requires
        old(writer).wf(),
    ensures
        final(writer).wf(),
        final(writer)@ == old(writer)@ + terms_pieces(item@),
{
    writer.literal("{\"amount_sat\":");
    writer.number(item.amount_sat);
    writer.literal(",\"btc_payout_address\":");
    writer.text(item.btc_payout_address.as_str());
    writer.literal(",\"btc_payout_script_hex\":");
    writer.text(item.btc_payout_script_hex.as_str());
    writer.literal(",\"adaptor_point\":");
    writer.text(item.adaptor_point.as_str());
    writer.literal(",\"ark_payer_claim_pubkey\":");
    writer.text(item.ark_payer_claim_pubkey.as_str());
    writer.literal("}");
    assert(writer@ =~= old(writer)@ + terms_pieces(item@));
}

/// The pieces of termss have the same shape, can be read back, and tell the terms.
proof fn lemma_terms_pieces(a: TermsTextView, b: TermsTextView)
    ensures
        same_shape(terms_pieces(a), terms_pieces(b)),
        readable(terms_pieces(a)),
        terms_pieces(a).len() == 11,
        terms_pieces(a) == terms_pieces(b) ==> a == b,
{
    reveal_strlit(",\"btc_payout_address\":");
    reveal_strlit(",\"btc_payout_script_hex\":");
    reveal_strlit(",\"adaptor_point\":");
    reveal_strlit(",\"ark_payer_claim_pubkey\":");
    reveal_strlit("}");
    let (p, q) = (terms_pieces(a), terms_pieces(b));
    assert(p[1] == Piece::Number(a.amount_sat as nat) && q[1] == Piece::Number(b.amount_sat as nat));
    assert(p[3] == Piece::Text(a.btc_payout_address) && q[3] == Piece::Text(b.btc_payout_address));
    assert(p[5] == Piece::Text(a.btc_payout_script_hex) && q[5] == Piece::Text(b.btc_payout_script_hex));
    assert(p[7] == Piece::Text(a.adaptor_point) && q[7] == Piece::Text(b.adaptor_point));
    assert(p[9] == Piece::Text(a.ark_payer_claim_pubkey) && q[9] == Piece::Text(b.ark_payer_claim_pubkey));
    if p == q {
        assert(a =~~= b);
    }
}

/// The pieces of the request.
pub open spec fn request_pieces(item: RequestView) -> Seq<Piece> {
    seq![
        Piece::Literal("{\"amount_sat\":"@),
        Piece::Number(item.amount_sat as nat),
        Piece::Literal(",\"ark_receive\":"@),
        Piece::Text(item.ark_receive),
        Piece::Literal(",\"btc_payer_claim_pubkey\":"@),
        Piece::Text(item.btc_payer_claim_pubkey),
        Piece::Literal(",\"btc_refund_pubkey\":"@),
        Piece::Text(item.btc_refund_pubkey),
        Piece::Literal(",\"fee_rate_sat_vb\":"@),
        Piece::Number(item.fee_rate_sat_vb as nat),
        Piece::Literal(",\"created_height\":"@),
        Piece::Number(item.created_height as nat),
        Piece::Literal(",\"refund_height\":"@),
        Piece::Number(item.refund_height as nat),
        Piece::Literal(",\"minimum_funding_confirmations\":"@),
        Piece::Number(item.minimum_funding_confirmations as nat),
        Piece::Literal(",\"safety_margin_blocks\":"@),
        Piece::Number(item.safety_margin_blocks as nat),
        Piece::Literal(",\"funding_template_hex\":"@),
        Piece::Text(item.funding_template_hex),
        Piece::Literal(",\"funding_output_index\":"@),
        Piece::Number(item.funding_output_index as nat),
        Piece::Literal(",\"funding_prevouts_hex\":"@),
        Piece::Texts(item.funding_prevouts_hex),
        Piece::Literal(",\"btc_payer_public_nonce_hex\":"@),
        Piece::Text(item.btc_payer_public_nonce_hex),
        Piece::Literal("}"@),
    ]
}

/// Writes the pieces of the request.
fn write_request(writer: &mut JsonWriter, item: &BtcArkRequestArtifact)
    requires
        old(writer).wf(),
    ensures
        final(writer).wf(),
        final(writer)@ == old(writer)@ + request_pieces(item@),
{
    writer.literal("{\"amount_sat\":");
    writer.number(item.amount_sat);
    writer.literal(",\"ark_receive\":");
    writer.text(item.ark_receive.as_str());
    writer.literal(",\"btc_payer_claim_pubkey\":");
    writer.text(item.btc_payer_claim_pubkey.as_str());
    writer.literal(",\"btc_refund_pubkey\":");
    writer.text(item.btc_refund_pubkey.as_str());
    writer.literal(",\"fee_rate_sat_vb\":");
    writer.number(item.fee_rate_sat_vb);
    writer.literal(",\"created_height\":");
    writer.number(item.created_height as u64);
    writer.literal(",\"refund_height\":");
    writer.number(item.refund_height as u64);
    writer.literal(",\"minimum_funding_confirmations\":");
    writer.number(item.minimum_funding_confirmations as u64);
    writer.literal(",\"safety_margin_blocks\":");
    writer.number(item.safety_margin_blocks as u64);
    writer.literal(",\"funding_template_hex\":");
    writer.text(item.funding_template_hex.as_str());
    writer.literal(",\"funding_output_index\":");
    writer.number(item.funding_output_index as u64);
    writer.literal(",\"funding_prevouts_hex\":");
    writer.texts(&item.funding_prevouts_hex);
    writer.literal(",\"btc_payer_public_nonce_hex\":");
    writer.text(item.btc_payer_public_nonce_hex.as_str());
    writer.literal("}");
    assert(writer@ =~= old(writer)@ + request_pieces(item@));
}

/// The pieces of requests have the same shape, can be read back, and tell the request.
proof fn lemma_request_pieces(a: RequestView, b: RequestView)
    ensures
        same_shape(request_pieces(a), request_pieces(b)),
        readable(request_pieces(a)),
        request_pieces(a).len() == 27,
        request_pieces(a) == request_pieces(b) ==> a == b,
{
    reveal_strlit(",\"ark_receive\":");
    reveal_strlit(",\"btc_payer_claim_pubkey\":");
    reveal_strlit(",\"btc_refund_pubkey\":");
    reveal_strlit(",\"fee_rate_sat_vb\":");
    reveal_strlit(",\"created_height\":");
    reveal_strlit(",\"refund_height\":");
    reveal_strlit(",\"minimum_funding_confirmations\":");
    reveal_strlit(",\"safety_margin_blocks\":");
    reveal_strlit(",\"funding_template_hex\":");
    reveal_strlit(",\"funding_output_index\":");
    reveal_strlit(",\"funding_prevouts_hex\":");
    reveal_strlit(",\"btc_payer_public_nonce_hex\":");
    reveal_strlit("}");
    let (p, q) = (request_pieces(a), request_pieces(b));
    assert(p[1] == Piece::Number(a.amount_sat as nat) && q[1] == Piece::Number(b.amount_sat as nat));
    assert(p[3] == Piece::Text(a.ark_receive) && q[3] == Piece::Text(b.ark_receive));
    assert(p[5] == Piece::Text(a.btc_payer_claim_pubkey) && q[5] == Piece::Text(b.btc_payer_claim_pubkey));
    assert(p[7] == Piece::Text(a.btc_refund_pubkey) && q[7] == Piece::Text(b.btc_refund_pubkey));
    assert(p[9] == Piece::Number(a.fee_rate_sat_vb as nat) && q[9] == Piece::Number(b.fee_rate_sat_vb as nat));
    assert(p[11] == Piece::Number(a.created_height as nat) && q[11] == Piece::Number(b.created_height as nat));
    assert(p[13] == Piece::Number(a.refund_height as nat) && q[13] == Piece::Number(b.refund_height as nat));
    assert(p[15] == Piece::Number(a.minimum_funding_confirmations as nat) && q[15] == Piece::Number(b.minimum_funding_confirmations as nat));
    assert(p[17] == Piece::Number(a.safety_margin_blocks as nat) && q[17] == Piece::Number(b.safety_margin_blocks as nat));
    assert(p[19] == Piece::Text(a.funding_template_hex) && q[19] == Piece::Text(b.funding_template_hex));
    assert(p[21] == Piece::Number(a.funding_output_index as nat) && q[21] == Piece::Number(b.funding_output_index as nat));
    assert(p[23] == Piece::Texts(a.funding_prevouts_hex) && q[23] == Piece::Texts(b.funding_prevouts_hex));
    assert(p[25] == Piece::Text(a.btc_payer_public_nonce_hex) && q[25] == Piece::Text(b.btc_payer_public_nonce_hex));
    if p == q {
        assert(a =~~= b);
    }
}

/// The pieces of the offer.
pub open spec fn offer_pieces(item: OfferTextView) -> Seq<Piece> {
    seq![
        Piece::Literal("{\"id\":"@),
        Piece::Text(item.id),
        Piece::Literal(",\"amount_sat\":"@),
        Piece::Number(item.amount_sat as nat),
        Piece::Literal(",\"btc_payout_script_hex\":"@),
        Piece::Text(item.btc_payout_script_hex),
        Piece::Literal(",\"ark_input_ids\":"@),
        Piece::Texts(item.ark_input_ids),
        Piece::Literal(",\"ark_receive_policy_hex\":"@),
        Piece::Text(item.ark_receive_policy_hex),
        Piece::Literal(",\"ark_server_pubkey\":"@),
        Piece::Text(item.ark_server_pubkey),
        Piece::Literal(",\"adaptor_point\":"@),
        Piece::Text(item.adaptor_point),
        Piece::Literal("}"@),
    ]
}

/// Writes the pieces of the offer.
fn write_offer(writer: &mut JsonWriter, item: &ArkOfferArtifact)
    requires
        old(writer).wf(),
    ensures
        final(writer).wf(),
        final(writer)@ == old(writer)@ + offer_pieces(item@),
{
    writer.literal("{\"id\":");
    writer.text(item.id.as_str());
    writer.literal(",\"amount_sat\":");
    writer.number(item.amount_sat);
    writer.literal(",\"btc_payout_script_hex\":");
    writer.text(item.btc_payout_script_hex.as_str());
    writer.literal(",\"ark_input_ids\":");
    writer.texts(&item.ark_input_ids);
    writer.literal(",\"ark_receive_policy_hex\":");
    writer.text(item.ark_receive_policy_hex.as_str());
    writer.literal(",\"ark_server_pubkey\":");
    writer.text(item.ark_server_pubkey.as_str());
    writer.literal(",\"adaptor_point\":");
    writer.text(item.adaptor_point.as_str());
    writer.literal("}");
    assert(writer@ =~= old(writer)@ + offer_pieces(item@));
}

/// The pieces of offers have the same shape, can be read back, and tell the offer.
proof fn lemma_offer_pieces(a: OfferTextView, b: OfferTextView)
    ensures
        same_shape(offer_pieces(a), offer_pieces(b)),
        readable(offer_pieces(a)),
        offer_pieces(a).len() == 15,
        offer_pieces(a) == offer_pieces(b) ==> a == b,
{
    reveal_strlit(",\"amount_sat\":");
    reveal_strlit(",\"btc_payout_script_hex\":");
    reveal_strlit(",\"ark_input_ids\":");
    reveal_strlit(",\"ark_receive_policy_hex\":");
    reveal_strlit(",\"ark_server_pubkey\":");
    reveal_strlit(",\"adaptor_point\":");
    reveal_strlit("}");
    let (p, q) = (offer_pieces(a), offer_pieces(b));
    assert(p[1] == Piece::Text(a.id) && q[1] == Piece::Text(b.id));
    assert(p[3] == Piece::Number(a.amount_sat as nat) && q[3] == Piece::Number(b.amount_sat as nat));
    assert(p[5] == Piece::Text(a.btc_payout_script_hex) && q[5] == Piece::Text(b.btc_payout_script_hex));
    assert(p[7] == Piece::Texts(a.ark_input_ids) && q[7] == Piece::Texts(b.ark_input_ids));
    assert(p[9] == Piece::Text(a.ark_receive_policy_hex) && q[9] == Piece::Text(b.ark_receive_policy_hex));
    assert(p[11] == Piece::Text(a.ark_server_pubkey) && q[11] == Piece::Text(b.ark_server_pubkey));
    assert(p[13] == Piece::Text(a.adaptor_point) && q[13] == Piece::Text(b.adaptor_point));
    if p == q {
        assert(a =~~= b);
    }
}

/// The pieces of the claim request.
pub open spec fn claim_request_pieces(item: ClaimRequestView) -> Seq<Piece> {
    seq![
        Piece::Literal("{\"claim_tx_hex\":"@),
        Piece::Text(item.claim_tx_hex),
        Piece::Literal(",\"claim_sighash_hex\":"@),
        Piece::Text(item.claim_sighash_hex),
        Piece::Literal(",\"tap_tweak_hex\":"@),
        Piece::Text(item.tap_tweak_hex),
        Piece::Literal(",\"btc_payer_public_nonce_hex\":"@),
        Piece::Text(item.btc_payer_public_nonce_hex),
        Piece::Literal(",\"claim_amount_sat\":"@),
        Piece::Number(item.claim_amount_sat as nat),
        Piece::Literal("}"@),
    ]
}

/// Writes the pieces of the claim request.
fn write_claim_request(writer: &mut JsonWriter, item: &BtcClaimRequestArtifact)
    requires
        old(writer).wf(),
    ensures
        final(writer).wf(),
        final(writer)@ == old(writer)@ + claim_request_pieces(item@),
{
    writer.literal("{\"claim_tx_hex\":");
    writer.text(item.claim_tx_hex.as_str());
    writer.literal(",\"claim_sighash_hex\":");
    writer.text(item.claim_sighash_hex.as_str());
    writer.literal(",\"tap_tweak_hex\":");
    writer.text(item.tap_tweak_hex.as_str());
    writer.literal(",\"btc_payer_public_nonce_hex\":");
    writer.text(item.btc_payer_public_nonce_hex.as_str());
    writer.literal(",\"claim_amount_sat\":");
    writer.number(item.claim_amount_sat);
    writer.literal("}");
    assert(writer@ =~= old(writer)@ + claim_request_pieces(item@));
}

/// The pieces of claim requests have the same shape, can be read back, and tell the claim request.
proof fn lemma_claim_request_pieces(a: ClaimRequestView, b: ClaimRequestView)
    ensures
        same_shape(claim_request_pieces(a), claim_request_pieces(b)),
        readable(claim_request_pieces(a)),
        claim_request_pieces(a).len() == 11,
        claim_request_pieces(a) == claim_request_pieces(b) ==> a == b,
{
    reveal_strlit(",\"claim_sighash_hex\":");
    reveal_strlit(",\"tap_tweak_hex\":");
    reveal_strlit(",\"btc_payer_public_nonce_hex\":");
    reveal_strlit(",\"claim_amount_sat\":");
    reveal_strlit("}");
    let (p, q) = (claim_request_pieces(a), claim_request_pieces(b));
    assert(p[1] == Piece::Text(a.claim_tx_hex) && q[1] == Piece::Text(b.claim_tx_hex));
    assert(p[3] == Piece::Text(a.claim_sighash_hex) && q[3] == Piece::Text(b.claim_sighash_hex));
    assert(p[5] == Piece::Text(a.tap_tweak_hex) && q[5] == Piece::Text(b.tap_tweak_hex));
    assert(p[7] == Piece::Text(a.btc_payer_public_nonce_hex) && q[7] == Piece::Text(b.btc_payer_public_nonce_hex));
    assert(p[9] == Piece::Number(a.claim_amount_sat as nat) && q[9] == Piece::Number(b.claim_amount_sat as nat));
    if p == q {
        assert(a =~~= b);
    }
}

/// The pieces of the claim partial.
pub open spec fn claim_partial_pieces(item: ClaimPartialView) -> Seq<Piece> {
    seq![
        Piece::Literal("{\"ark_public_nonce_hex\":"@),
        Piece::Text(item.ark_public_nonce_hex),
        Piece::Literal(",\"ark_partial_sig_hex\":"@),
        Piece::Text(item.ark_partial_sig_hex),
        Piece::Literal("}"@),
    ]
}

/// Writes the pieces of the claim partial.
fn write_claim_partial(writer: &mut JsonWriter, item: &ArkClaimPartialArtifact)
    requires
        old(writer).wf(),
    ensures
        final(writer).wf(),
        final(writer)@ == old(writer)@ + claim_partial_pieces(item@),
{
    writer.literal("{\"ark_public_nonce_hex\":");
    writer.text(item.ark_public_nonce_hex.as_str());
    writer.literal(",\"ark_partial_sig_hex\":");
    writer.text(item.ark_partial_sig_hex.as_str());
    writer.literal("}");
    assert(writer@ =~= old(writer)@ + claim_partial_pieces(item@));
}

/// The pieces of claim partials have the same shape, can be read back, and tell the claim partial.
proof fn lemma_claim_partial_pieces(a: ClaimPartialView, b: ClaimPartialView)
    ensures
        same_shape(claim_partial_pieces(a), claim_partial_pieces(b)),
        readable(claim_partial_pieces(a)),
        claim_partial_pieces(a).len() == 5,
        claim_partial_pieces(a) == claim_partial_pieces(b) ==> a == b,
{
    reveal_strlit(",\"ark_partial_sig_hex\":");
    reveal_strlit("}");
    let (p, q) = (claim_partial_pieces(a), claim_partial_pieces(b));
    assert(p[1] == Piece::Text(a.ark_public_nonce_hex) && q[1] == Piece::Text(b.ark_public_nonce_hex));
    assert(p[3] == Piece::Text(a.ark_partial_sig_hex) && q[3] == Piece::Text(b.ark_partial_sig_hex));
    if p == q {
        assert(a =~~= b);
    }
}

/// The pieces of the funding.
pub open spec fn funding_pieces(item: FundingView) -> Seq<Piece> {
    seq![
        Piece::Literal("{\"funding_txid\":"@),
        Piece::Text(item.funding_txid),
        Piece::Literal(",\"funding_vout\":"@),
        Piece::Number(item.funding_vout as nat),
        Piece::Literal(",\"funding_tx_hex\":"@),
        Piece::Text(item.funding_tx_hex),
        Piece::Literal(",\"lock_address\":"@),
        Piece::Text(item.lock_address),
        Piece::Literal(",\"lock_amount_sat\":"@),
        Piece::Number(item.lock_amount_sat as nat),
        Piece::Literal("}"@),
    ]
}

/// The pieces of fundings have the same shape, can be read back, and tell the funding.
proof fn lemma_funding_pieces(a: FundingView, b: FundingView)
    ensures
        same_shape(funding_pieces(a), funding_pieces(b)),
        readable(funding_pieces(a)),
        funding_pieces(a).len() == 11,
        funding_pieces(a) == funding_pieces(b) ==> a == b,
{
    reveal_strlit(",\"funding_vout\":");
    reveal_strlit(",\"funding_tx_hex\":");
    reveal_strlit(",\"lock_address\":");
    reveal_strlit(",\"lock_amount_sat\":");
    reveal_strlit("}");
    let (p, q) = (funding_pieces(a), funding_pieces(b));
    assert(p[1] == Piece::Text(a.funding_txid) && q[1] == Piece::Text(b.funding_txid));
    assert(p[3] == Piece::Number(a.funding_vout as nat) && q[3] == Piece::Number(b.funding_vout as nat));
    assert(p[5] == Piece::Text(a.funding_tx_hex) && q[5] == Piece::Text(b.funding_tx_hex));
    assert(p[7] == Piece::Text(a.lock_address) && q[7] == Piece::Text(b.lock_address));
    assert(p[9] == Piece::Number(a.lock_amount_sat as nat) && q[9] == Piece::Number(b.lock_amount_sat as nat));
    if p == q {
        assert(a =~~= b);
    }
}

/// What a response commits to.
#[verifier::ext_equal]
pub struct CommitmentView {
    pub protocol: Seq<char>,
    pub version: u16,
    pub swap_id: Seq<char>,
    pub request: RequestView,
    pub terms: TermsTextView,
    pub ark_transfer: TransferTextView,
    pub btc_funding: FundingView,
    pub claim_request: ClaimRequestView,
    pub ark_claim_partial: ClaimPartialView,
}

/// The pieces before the request.
pub open spec fn header_pieces(protocol: Seq<char>, version: u16, swap_id: Seq<char>) -> Seq<Piece> {
    seq![
        Piece::Literal("{\"protocol\":"@),
        Piece::Text(protocol),
        Piece::Literal(",\"version\":"@),
        Piece::Number(version as nat),
        Piece::Literal(",\"swap_id\":"@),
        Piece::Text(swap_id),
        Piece::Literal(",\"request\":"@),
    ]
}

/// The pieces between the offer and the funding.
pub open spec fn package_pieces(transfer_package_hex: Seq<char>) -> Seq<Piece> {
    seq![
        Piece::Literal(",\"transfer_package_hex\":"@),
        Piece::Text(transfer_package_hex),
        Piece::Literal("},\"btc_funding\":"@),
    ]
}

/// A single literal.
pub open spec fn literal_piece(text: Seq<char>) -> Seq<Piece> {
    seq![Piece::Literal(text)]
}

/// The pieces of a commitment.
pub open spec fn commitment_pieces(item: CommitmentView) -> Seq<Piece> {
    header_pieces(item.protocol, item.version, item.swap_id) + request_pieces(item.request) + literal_piece(
        ",\"terms\":"@,
    ) + terms_pieces(item.terms) + literal_piece(",\"ark_transfer\":{\"offer\":"@) + offer_pieces(
        item.ark_transfer.offer,
    ) + package_pieces(item.ark_transfer.transfer_package_hex) + funding_pieces(item.btc_funding) + literal_piece(
        ",\"claim_request\":"@,
    ) + claim_request_pieces(item.claim_request) + literal_piece(",\"ark_claim_partial\":"@) + claim_partial_pieces(
        item.ark_claim_partial,
    ) + literal_piece("}"@)
}

/// The compact JSON text that a commitment hashes.
pub open spec fn commitment_text(item: CommitmentView) -> Seq<char> {
    rendered(commitment_pieces(item))
}

/// Writes the compact JSON text that a commitment hashes.
pub fn write_commitment(
    protocol: &String,
    version: u16,
    swap_id: &String,
    request: &BtcArkRequestArtifact,
    terms: &OfferTerms,
    ark_transfer: &ArkTransferArtifact,
    funding: &BtcFundingArtifact,
    funding_tx_hex: &String,
    claim_request: &BtcClaimRequestArtifact,
    ark_claim_partial: &ArkClaimPartialArtifact,
) -> (text: String)
    ensures
        text@ == commitment_text(
            CommitmentView {
                protocol: protocol@,
                version,
                swap_id: swap_id@,
                request: request@,
                terms: terms@,
                ark_transfer: ark_transfer@,
                btc_funding: (FundingView { funding_tx_hex: funding_tx_hex@, ..funding@ }),
                claim_request: claim_request@,
                ark_claim_partial: ark_claim_partial@,
            },
        ),
{
    let mut writer = JsonWriter::new();
    writer.literal("{\"protocol\":");
    writer.text(protocol.as_str());
    writer.literal(",\"version\":");
    writer.number(version as u64);
    writer.literal(",\"swap_id\":");
    writer.text(swap_id.as_str());
    writer.literal(",\"request\":");
    assert(writer@ =~= header_pieces(protocol@, version, swap_id@));
    write_request(&mut writer, request);
    append_literal(&mut writer, ",\"terms\":");
    write_terms(&mut writer, terms);
    append_literal(&mut writer, ",\"ark_transfer\":{\"offer\":");
    write_offer(&mut writer, &ark_transfer.offer);
    write_package(&mut writer, &ark_transfer.transfer_package_hex);
    write_funding(&mut writer, funding, funding_tx_hex);
    append_literal(&mut writer, ",\"claim_request\":");
    write_claim_request(&mut writer, claim_request);
    append_literal(&mut writer, ",\"ark_claim_partial\":");
    write_claim_partial(&mut writer, ark_claim_partial);
    append_literal(&mut writer, "}");
    writer.finish()
}

/// Writes a single literal.
fn append_literal(writer: &mut JsonWriter, text: &str)
    requires
        old(writer).wf(),
    ensures
        final(writer).wf(),
        final(writer)@ == old(writer)@ + literal_piece(text@),
{
    writer.literal(text);
    assert(writer@ =~= old(writer)@ + literal_piece(text@));
}

/// Writes the pieces between the offer and the funding.
fn write_package(writer: &mut JsonWriter, transfer_package_hex: &String)
    requires
        old(writer).wf(),
    ensures
        final(writer).wf(),
        final(writer)@ == old(writer)@ + package_pieces(transfer_package_hex@),
{
    writer.literal(",\"transfer_package_hex\":");
    writer.text(transfer_package_hex.as_str());
    writer.literal("},\"btc_funding\":");
    assert(writer@ =~= old(writer)@ + package_pieces(transfer_package_hex@));
}

/// Writes the pieces of the funding, with its transaction as `funding_tx_hex`.
fn write_funding(writer: &mut JsonWriter, item: &BtcFundingArtifact, funding_tx_hex: &String)
    requires
        old(writer).wf(),
    ensures
        final(writer).wf(),
        final(writer)@ == old(writer)@ + funding_pieces(FundingView { funding_tx_hex: funding_tx_hex@, ..item@ }),
{
    writer.literal("{\"funding_txid\":");
    writer.text(item.funding_txid.as_str());
    writer.literal(",\"funding_vout\":");
    writer.number(item.funding_vout as u64);
    writer.literal(",\"funding_tx_hex\":");
    writer.text(funding_tx_hex.as_str());
    writer.literal(",\"lock_address\":");
    writer.text(item.lock_address.as_str());
    writer.literal(",\"lock_amount_sat\":");
    writer.number(item.lock_amount_sat);
    writer.literal("}");
    assert(writer@ =~= old(writer)@ + funding_pieces(FundingView { funding_tx_hex: funding_tx_hex@, ..item@ }));
}

/// A literal has the shape of itself, and can be read back.
proof fn lemma_literal_piece(text: Seq<char>)
    ensures
        same_shape(literal_piece(text), literal_piece(text)),
        readable(literal_piece(text)),
{
}

/// The committed text tells everything that is committed to: protocol, version and swap, both
/// claim keys and the refund key, all nonces and the share, the adaptor point, the amounts, fee
/// rate, heights and margins, the funding and claim transactions, and the Ark package.
pub proof fn law_commitment_binds(a: CommitmentView, b: CommitmentView)
    requires
        commitment_text(a) == commitment_text(b),
    ensures
        a == b,
{
    lemma_header_pieces(a, b);
    lemma_header_pieces(b, a);
    lemma_request_pieces(a.request, b.request);
    lemma_request_pieces(b.request, a.request);
    lemma_terms_pieces(a.terms, b.terms);
    lemma_terms_pieces(b.terms, a.terms);
    lemma_offer_pieces(a.ark_transfer.offer, b.ark_transfer.offer);
    lemma_offer_pieces(b.ark_transfer.offer, a.ark_transfer.offer);
    lemma_package_pieces(a.ark_transfer.transfer_package_hex, b.ark_transfer.transfer_package_hex);
    lemma_package_pieces(b.ark_transfer.transfer_package_hex, a.ark_transfer.transfer_package_hex);
    lemma_funding_pieces(a.btc_funding, b.btc_funding);
    lemma_funding_pieces(b.btc_funding, a.btc_funding);
    lemma_claim_request_pieces(a.claim_request, b.claim_request);
    lemma_claim_request_pieces(b.claim_request, a.claim_request);
    lemma_claim_partial_pieces(a.ark_claim_partial, b.ark_claim_partial);
    lemma_claim_partial_pieces(b.ark_claim_partial, a.ark_claim_partial);
    lemma_parts(
        header_pieces(a.protocol, a.version, a.swap_id),
        request_pieces(a.request),
        ",\"terms\":"@,
        header_pieces(b.protocol, b.version, b.swap_id),
        request_pieces(b.request),
    );
    let a1 = header_pieces(a.protocol, a.version, a.swap_id) + request_pieces(a.request) + literal_piece(
        ",\"terms\":"@,
    );
    let b1 = header_pieces(b.protocol, b.version, b.swap_id) + request_pieces(b.request) + literal_piece(
        ",\"terms\":"@,
    );
    lemma_parts(a1, terms_pieces(a.terms), ",\"ark_transfer\":{\"offer\":"@, b1, terms_pieces(b.terms));
    let a2 = a1 + terms_pieces(a.terms) + literal_piece(",\"ark_transfer\":{\"offer\":"@);
    let b2 = b1 + terms_pieces(b.terms) + literal_piece(",\"ark_transfer\":{\"offer\":"@);
    lemma_shape_concat(a2, b2, offer_pieces(a.ark_transfer.offer), offer_pieces(b.ark_transfer.offer));
    lemma_shape_concat(b2, a2, offer_pieces(b.ark_transfer.offer), offer_pieces(a.ark_transfer.offer));
    let a3 = a2 + offer_pieces(a.ark_transfer.offer);
    let b3 = b2 + offer_pieces(b.ark_transfer.offer);
    let a4 = package_pieces(a.ark_transfer.transfer_package_hex);
    let b4 = package_pieces(b.ark_transfer.transfer_package_hex);
    lemma_shape_concat(a3, b3, a4, b4);
    lemma_shape_concat(b3, a3, b4, a4);
    lemma_parts(a3 + a4, funding_pieces(a.btc_funding), ",\"claim_request\":"@, b3 + b4, funding_pieces(b.btc_funding));
    let a5 = a3 + a4 + funding_pieces(a.btc_funding) + literal_piece(",\"claim_request\":"@);
    let b5 = b3 + b4 + funding_pieces(b.btc_funding) + literal_piece(",\"claim_request\":"@);
    lemma_parts(
        a5,
        claim_request_pieces(a.claim_request),
        ",\"ark_claim_partial\":"@,
        b5,
        claim_request_pieces(b.claim_request),
    );
    let a6 = a5 + claim_request_pieces(a.claim_request) + literal_piece(",\"ark_claim_partial\":"@);
    let b6 = b5 + claim_request_pieces(b.claim_request) + literal_piece(",\"ark_claim_partial\":"@);
    lemma_parts(
        a6,
        claim_partial_pieces(a.ark_claim_partial),
        "}"@,
        b6,
        claim_partial_pieces(b.ark_claim_partial),
    );
    let (p, q) = (commitment_pieces(a), commitment_pieces(b));
    assert(rendered(p) + Seq::<char>::empty() =~= rendered(p));
    assert(rendered(q) + Seq::<char>::empty() =~= rendered(q));
    lemma_pieces_prefix(p, q, Seq::empty(), Seq::empty());
    assert(a.ark_transfer =~= b.ark_transfer);
    assert(a =~= b);
}

/// Pieces of the same shape with a literal behind them.
proof fn lemma_parts(a: Seq<Piece>, x: Seq<Piece>, text: Seq<char>, b: Seq<Piece>, y: Seq<Piece>)
    requires
        same_shape(a, b),
        same_shape(b, a),
        same_shape(x, y),
        same_shape(y, x),
        readable(a),
        readable(b),
        readable(x),
        readable(y),
    ensures
        same_shape(a + x + literal_piece(text), b + y + literal_piece(text)),
        same_shape(b + y + literal_piece(text), a + x + literal_piece(text)),
        readable(a + x + literal_piece(text)),
        readable(b + y + literal_piece(text)),
        a + x + literal_piece(text) == b + y + literal_piece(text) ==> a == b && x == y,
{
    lemma_literal_piece(text);
    lemma_shape_concat(a, b, x, y);
    lemma_shape_concat(b, a, y, x);
    lemma_shape_concat(a + x, b + y, literal_piece(text), literal_piece(text));
    lemma_shape_concat(b + y, a + x, literal_piece(text), literal_piece(text));
}

/// The pieces before the request have the same shape, can be read back, and tell what they hold.
proof fn lemma_header_pieces(a: CommitmentView, b: CommitmentView)
    ensures
        same_shape(
            header_pieces(a.protocol, a.version, a.swap_id),
            header_pieces(b.protocol, b.version, b.swap_id),
        ),
        readable(header_pieces(a.protocol, a.version, a.swap_id)),
        header_pieces(a.protocol, a.version, a.swap_id) == header_pieces(b.protocol, b.version, b.swap_id)
            ==> a.protocol == b.protocol && a.version == b.version && a.swap_id == b.swap_id,
{
    reveal_strlit(",\"swap_id\":");
    let p = header_pieces(a.protocol, a.version, a.swap_id);
    let q = header_pieces(b.protocol, b.version, b.swap_id);
    assert(p[1] == Piece::Text(a.protocol) && q[1] == Piece::Text(b.protocol));
    assert(p[3] == Piece::Number(a.version as nat) && q[3] == Piece::Number(b.version as nat));
    assert(p[5] == Piece::Text(a.swap_id) && q[5] == Piece::Text(b.swap_id));
}

/// The pieces between offer and funding have the same shape, can be read back, and tell the package.
proof fn lemma_package_pieces(a: Seq<char>, b: Seq<char>)
    ensures
        same_shape(package_pieces(a), package_pieces(b)),
        readable(package_pieces(a)),
        package_pieces(a) == package_pieces(b) ==> a == b,
{
    let (p, q) = (package_pieces(a), package_pieces(b));
    assert(p[1] == Piece::Text(a) && q[1] == Piece::Text(b));
}

} // verus!
