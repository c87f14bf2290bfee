//! The private state of a swap.

use btc_ark_swap::artifacts::{
    ArkClaimPartialArtifact, ArkOfferArtifact, ArkTransferArtifact, BtcArkRequestArtifact, BtcClaimAdaptorArtifact,
    BtcClaimRequestArtifact, BtcFundingArtifact, OfferTerms,
};
use btc_ark_swap::ark_types::VtxoId;
use btc_ark_swap::error::SwapError;
use btc_ark_swap::relay::RelayFile;
use btc_ark_swap::role::{SwapRole, SwapStatus};
use btc_ark_swap::state::{
    btc_payer_swap_of, directory_or_current, ensure_funding_inputs_available, is_terminal, parent_directory,
    swap_state_path, StoredBtcArkSwap,
};
use btc_ark_swap::swap_id::SwapId;
use btc_ark_swap::tx::{txid_to_string, OutPoint, Transaction, TxIn, TxOut};

fn vtxo_id(byte: u8) -> VtxoId {
    VtxoId { point: OutPoint { txid: [byte; 32], vout: u32::from_le_bytes([byte; 4]) } }
}

fn sample_tx() -> Transaction {
    Transaction {
        version: 2,
        lock_time: 0,
        input: vec![TxIn {
            previous_output: OutPoint { txid: [0; 32], vout: u32::MAX },
            script_sig: vec![],
            sequence: 0xffff_fffd,
            witness: vec![],
        }],
        output: vec![TxOut { value: 80_000, script_pubkey: vec![] }],
    }
}

fn sample_response() -> RelayFile {
    let id = SwapId::from_bytes([1; 32]);
    let transaction = sample_tx();
    let transaction_hex = transaction.to_hex();
    let mut relay = RelayFile::new_request(id, BtcArkRequestArtifact {
        amount_sat: 80_000,
        ark_receive: "ark-receive".to_owned(),
        btc_payer_claim_pubkey: "bob-claim-key".to_owned(),
        btc_refund_pubkey: "bob-refund-key".to_owned(),
        fee_rate_sat_vb: 1,
        created_height: 100,
        refund_height: 124,
        minimum_funding_confirmations: 6,
        safety_margin_blocks: 6,
        funding_template_hex: transaction_hex.clone(),
        funding_output_index: 0,
        funding_prevouts_hex: vec![transaction.output[0].to_hex()],
        btc_payer_public_nonce_hex: "11".repeat(66),
    });
    relay.status = SwapStatus::Offered;
    relay.terms = Some(OfferTerms {
        amount_sat: 80_000,
        btc_payout_address: "alice-payout".to_owned(),
        btc_payout_script_hex: "51".to_owned(),
        adaptor_point: "alice-adaptor-point".to_owned(),
        ark_payer_claim_pubkey: "alice-claim-key".to_owned(),
    });
    relay.ark_transfer = Some(ArkTransferArtifact {
        offer: ArkOfferArtifact {
            id: id.to_string(),
            amount_sat: 80_000,
            btc_payout_script_hex: "51".to_owned(),
            ark_input_ids: vec![vtxo_id(7).to_string()],
            ark_receive_policy_hex: "00".to_owned(),
            ark_server_pubkey: "ark-server-key".to_owned(),
            adaptor_point: "alice-adaptor-point".to_owned(),
        },
        transfer_package_hex: "deadbeef".to_owned(),
    });
    relay.btc_funding = Some(BtcFundingArtifact {
        funding_txid: txid_to_string(&transaction.txid()),
        funding_vout: 0,
        funding_tx_hex: transaction_hex.clone(),
        lock_address: "swap-lock".to_owned(),
        lock_amount_sat: 80_000,
    });
    relay.claim_request = Some(BtcClaimRequestArtifact {
        claim_tx_hex: transaction_hex,
        claim_sighash_hex: "22".repeat(32),
        tap_tweak_hex: "33".repeat(32),
        btc_payer_public_nonce_hex: relay.request.btc_payer_public_nonce_hex.clone(),
        claim_amount_sat: 79_000,
    });
    relay.ark_claim_partial = Some(ArkClaimPartialArtifact {
        ark_public_nonce_hex: "44".repeat(66),
        ark_partial_sig_hex: "55".repeat(32),
    });
    relay
}

fn signed_state() -> StoredBtcArkSwap {
    let relay = sample_response();
    let mut state =
        StoredBtcArkSwap::new(relay.swap_id().unwrap(), SwapRole::BtcPayer, "relay.json".to_owned(), 0, relay);
    state.ark_input_ids = state.relay.ark_transfer.as_ref().unwrap().offer.ark_input_ids.clone();
    state.adaptor_secret_hex = Some("11".repeat(32));
    state.funding_psbt_hex = Some("70736274ff".to_owned());
    state.peer_transcript_hash_hex = Some(state.relay.response_commitment_hash_hex().unwrap());
    state.signed_claim_tx_hex = Some("claim-signing-result".to_owned());
    state.signed_refund_tx_hex = Some("refund-signing-result".to_owned());
    state
}

#[test]
fn debug_does_not_disclose_private_signing_material() {
    let state = signed_state();
    let formatted = state.debug_text();
    assert!(!formatted.contains(state.adaptor_secret_hex.as_ref().unwrap()));
    assert!(!formatted.contains(state.funding_psbt_hex.as_ref().unwrap()));
    assert!(!formatted.contains(state.signed_claim_tx_hex.as_ref().unwrap()));
    let id = "01".repeat(32);
    assert_eq!(
        formatted,
        format!("StoredBtcArkSwap {{ swap_id: \"{id}\", role: BtcPayer, status: Offered, .. }}")
    );
}

#[test]
fn debug_quotes_the_identifier() {
    let mut state = signed_state();
    for id in ["a\"b", "a\\b", "a\nb", "", "\u{e9}\u{7f}"] {
        state.swap_id = id.to_owned();
        assert_eq!(
            state.debug_text(),
            format!("StoredBtcArkSwap {{ swap_id: {id:?}, role: BtcPayer, status: Offered, .. }}")
        );
    }
    state.swap_id = "a\"b".to_owned();
    assert_eq!(
        state.debug_text(),
        "StoredBtcArkSwap { swap_id: \"a\\\"b\", role: BtcPayer, status: Offered, .. }"
    );
}

#[test]
fn selected_inputs_are_those_of_the_transfer() {
    let mut state = signed_state();
    assert_eq!(state.accepted_ark_input_ids(), Ok(vec![vtxo_id(7)]));
    let mut transfer = state.relay.ark_transfer.take().unwrap();
    assert_eq!(state.accepted_ark_input_ids(), Ok(vec![vtxo_id(7)]));
    transfer.offer.ark_input_ids = vec![vtxo_id(8).to_string()];
    state.relay.ark_transfer = Some(transfer);
    assert_eq!(state.accepted_ark_input_ids(), Err(SwapError::ArkInputsChanged));
    state.peer_transcript_hash_hex = None;
    assert_eq!(state.validate(), Err(SwapError::ArkInputsChanged));
    state.ark_input_ids = vec![];
    assert_eq!(state.accepted_ark_input_ids(), Err(SwapError::ArkInputsMissing));
    assert_eq!(state.validate(), Ok(SwapId::from_bytes([1; 32])));
    state.relay.ark_transfer = None;
    state.ark_input_ids = vec!["input".to_owned()];
    assert_eq!(state.accepted_ark_input_ids(), Err(SwapError::InvalidVtxoId));
}

#[test]
fn stored_states_are_checked_whole() {
    let id = SwapId::from_bytes([1; 32]);
    let state = signed_state();
    assert_eq!(state.validate(), Ok(id));
    assert_eq!(state.require(id, SwapRole::BtcPayer), Ok(()));
    assert_eq!(state.require(id, SwapRole::ArkPayer), Err(SwapError::StateMismatch));
    assert_eq!(state.require(SwapId::from_bytes([2; 32]), SwapRole::BtcPayer), Err(SwapError::StateMismatch));
    let broken: &[(fn(&mut StoredBtcArkSwap), SwapError)] = &[
        (|s| s.version = 2, SwapError::UnsupportedState),
        (|s| s.swap_id = "legacy".to_owned(), SwapError::InvalidSwapId),
        (|s| s.swap_id = "02".repeat(32), SwapError::SwapMismatch),
        (|s| s.relay.version = 2, SwapError::UnsupportedRelay),
        (|s| s.relay.request.amount_sat += 1, SwapError::TranscriptMismatch),
        (|s| s.relay.terms = None, SwapError::TermsMissing),
    ];
    for (change, error) in broken {
        let mut changed = signed_state();
        change(&mut changed);
        assert_eq!(changed.validate(), Err(*error));
        assert_eq!(changed.require(id, SwapRole::BtcPayer), Err(*error));
    }
}

#[test]
fn new_states_hold_nothing_yet() {
    let relay = sample_response();
    let state = StoredBtcArkSwap::new(SwapId::from_bytes([1; 32]), SwapRole::ArkPayer, "r".to_owned(), 4, relay);
    assert_eq!(state.version, 3);
    assert_eq!(state.status, SwapStatus::Offered);
    assert_eq!(state.claim_key_index, 4);
    assert!(state.ark_input_ids.is_empty() && state.ark_recovery_input_ids.is_empty());
    assert!(state.adaptor_secret_hex.is_none() && state.btc_secret_nonce.is_none());
    assert!(state.funding_conflict_scan_tip.is_none() && state.signed_claim_tx_hex.is_none());
    assert!(!is_terminal(&state));
}

#[test]
fn state_files_are_named_by_swap_and_role() {
    let id = "01".repeat(32);
    assert_eq!(
        swap_state_path("/data", &id, SwapRole::BtcPayer),
        format!("/data/swap/btc-ark-{id}-btc-payer.json")
    );
    assert_eq!(
        swap_state_path("data/", &id, SwapRole::ArkPayer),
        format!("data/swap/btc-ark-{id}-ark-payer.json")
    );
    assert_eq!(swap_state_path("", &id, SwapRole::ArkPayer), format!("swap/btc-ark-{id}-ark-payer.json"));
    for datadir in ["/data", "data/", "", "."] {
        let path = std::path::Path::new(datadir).join("swap").join(format!("btc-ark-{id}-ark-payer.json"));
        assert_eq!(swap_state_path(datadir, &id, SwapRole::ArkPayer), path.to_str().unwrap());
    }
    assert_eq!(btc_payer_swap_of(&format!("btc-ark-{id}-btc-payer.json")), Some(id.as_str()));
    assert_eq!(btc_payer_swap_of(&format!("btc-ark-{id}-ark-payer.json")), None);
    assert_eq!(btc_payer_swap_of(".lock"), None);
    assert_eq!(btc_payer_swap_of("btc-ark--btc-payer.json"), Some(""));
    assert_eq!(btc_payer_swap_of("btc-ark-btc-payer.json"), None);
}

#[test]
fn parents_fall_back_to_the_current_directory() {
    assert_eq!(parent_directory("/data/swap/x.json"), "/data/swap");
    assert_eq!(parent_directory("x.json"), ".");
    assert_eq!(parent_directory(""), ".");
    assert_eq!(parent_directory("/"), ".");
    assert_eq!(directory_or_current(Some("a".to_owned())), "a");
    assert_eq!(directory_or_current(Some(String::new())), ".");
    assert_eq!(directory_or_current(None), ".");
}

#[test]
fn open_swaps_reserve_their_funding_inputs() {
    let funding = sample_tx();
    let mut other = sample_tx();
    other.input[0].previous_output.vout = 0;
    let mut state = signed_state();
    state.relay.btc_claim_adaptor = None;
    let check = |state: &StoredBtcArkSwap, funding: &Transaction, tip| ensure_funding_inputs_available(funding, state, tip);
    assert_eq!(check(&state, &funding, 123), Err(SwapError::FundingInputsReserved));
    assert_eq!(check(&state, &other, 123), Ok(()));
    assert_eq!(check(&state, &funding, 124), Ok(()));
    state.relay.btc_claim_adaptor = Some(BtcClaimAdaptorArtifact {
        adaptor_point: String::new(),
        aggregate_key: String::new(),
        sighash_hex: String::new(),
        pre_signature_hex: String::new(),
    });
    assert_eq!(check(&state, &funding, 124), Err(SwapError::FundingInputsReserved));
    for status in [SwapStatus::ArkCompleted, SwapStatus::ArkReclaimed, SwapStatus::Refunded, SwapStatus::Cancelled] {
        state.status = status;
        assert_eq!(check(&state, &funding, 1), Ok(()));
    }
    state.status = SwapStatus::ArkRecovering;
    assert_eq!(check(&state, &funding, 124), Err(SwapError::FundingInputsReserved));
    state.relay.request.funding_template_hex.push('0');
    assert_eq!(check(&state, &funding, 124), Err(SwapError::InvalidTransaction));
}
