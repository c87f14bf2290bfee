//! Relay files: what a response commits to, and what is refused.

use bitcoin::hashes::{sha256, Hash as _};
use btc_ark_swap::artifacts::{
    ArkClaimPartialArtifact, ArkOfferArtifact, ArkTransferArtifact, BtcArkRequestArtifact, BtcClaimAdaptorArtifact,
    BtcClaimRequestArtifact, BtcFundingArtifact, OfferTerms,
};
use btc_ark_swap::adaptor::{build_cooperative_claim_adaptor_package, AdaptorSecret};
use btc_ark_swap::ark_types::{VtxoId, VtxoPolicy};
use btc_ark_swap::error::SwapError;
use btc_ark_swap::hex::bytes_from_hex;
use btc_ark_swap::keys::SecretKey;
use btc_ark_swap::offer::ArkOffer;
use btc_ark_swap::relay::{coordinator_path, ensure_relay_secret_free, RelayFile};
use btc_ark_swap::role::SwapStatus;
use btc_ark_swap::swap_id::SwapId;
use btc_ark_swap::tx::{tx_from_hex, txid_to_string, OutPoint, Transaction, TxIn, TxOut};

fn vtxo_id(byte: u8) -> VtxoId {
    VtxoId { point: OutPoint { txid: [byte; 32], vout: u32::from_le_bytes([byte; 4]) } }
}

fn sample_response() -> RelayFile {
    let id = SwapId::from_bytes([1; 32]);
    let transaction = Transaction {
        version: 2,
        lock_time: 0,
        input: vec![TxIn {
            previous_output: OutPoint { txid: [0; 32], vout: u32::MAX },
            script_sig: vec![],
            sequence: 0xffff_fffd,
            witness: vec![],
        }],
        output: vec![TxOut { value: 80_000, script_pubkey: vec![] }],
    };
    let transaction_hex = transaction.to_hex();
    let mut relay = RelayFile::new_request(id, BtcArkRequestArtifact {
        amount_sat: 80_000,
        ark_receive: "ark-receive".to_owned(),
        btc_payer_claim_pubkey: "bob-claim-key".to_owned(),
        btc_refund_pubkey: "bob-refund-key".to_owned(),
        fee_rate_sat_vb: 1,
        created_height: 100,
        refund_height: 124,
        minimum_funding_confirmations: 6,
        safety_margin_blocks: 6,
        funding_template_hex: transaction_hex.clone(),
        funding_output_index: 0,
        funding_prevouts_hex: vec![transaction.output[0].to_hex()],
        btc_payer_public_nonce_hex: "11".repeat(66),
    });
    relay.status = SwapStatus::Offered;
    relay.terms = Some(OfferTerms {
        amount_sat: 80_000,
        btc_payout_address: "alice-payout".to_owned(),
        btc_payout_script_hex: "51".to_owned(),
        adaptor_point: "alice-adaptor-point".to_owned(),
        ark_payer_claim_pubkey: "alice-claim-key".to_owned(),
    });
    relay.ark_transfer = Some(ArkTransferArtifact {
        offer: ArkOfferArtifact {
            id: id.to_string(),
            amount_sat: 80_000,
            btc_payout_script_hex: "51".to_owned(),
            ark_input_ids: vec![vtxo_id(7).to_string()],
            ark_receive_policy_hex: "00".to_owned(),
            ark_server_pubkey: "ark-server-key".to_owned(),
            adaptor_point: "alice-adaptor-point".to_owned(),
        },
        transfer_package_hex: "deadbeef".to_owned(),
    });
    relay.btc_funding = Some(BtcFundingArtifact {
        funding_txid: txid_to_string(&transaction.txid()),
        funding_vout: 0,
        funding_tx_hex: transaction_hex.clone(),
        lock_address: "swap-lock".to_owned(),
        lock_amount_sat: 80_000,
    });
    relay.claim_request = Some(BtcClaimRequestArtifact {
        claim_tx_hex: transaction_hex,
        claim_sighash_hex: "22".repeat(32),
        tap_tweak_hex: "33".repeat(32),
        btc_payer_public_nonce_hex: relay.request.btc_payer_public_nonce_hex.clone(),
        claim_amount_sat: 79_000,
    });
    relay.ark_claim_partial = Some(ArkClaimPartialArtifact {
        ark_public_nonce_hex: "44".repeat(66),
        ark_partial_sig_hex: "55".repeat(32),
    });
    relay
}

#[test]
fn response_commitment_accepts_funding_witnesses_but_not_transaction_changes() {
    let mut relay = sample_response();
    let expected = relay.response_commitment_hash_hex().unwrap();
    let funding = relay.btc_funding.as_mut().unwrap();
    let mut transaction = tx_from_hex(&funding.funding_tx_hex).unwrap();
    transaction.input[0].witness.push(vec![1; 64]);
    funding.funding_tx_hex = transaction.to_hex();
    relay.status = SwapStatus::BtcClaimReady;
    relay.btc_claim_adaptor = Some(BtcClaimAdaptorArtifact {
        adaptor_point: "adaptor-point".to_owned(),
        aggregate_key: "key".to_owned(),
        sighash_hex: "sighash".to_owned(),
        pre_signature_hex: "presignature".to_owned(),
    });
    assert_eq!(relay.response_commitment_hash_hex().unwrap(), expected);
    transaction.output[0].value += 1;
    relay.btc_funding.as_mut().unwrap().funding_tx_hex = transaction.to_hex();
    assert_ne!(relay.response_commitment_hash_hex().unwrap(), expected);
    transaction.output[0].value -= 1;
    transaction.input[0].script_sig = vec![0x51];
    relay.btc_funding.as_mut().unwrap().funding_tx_hex = transaction.to_hex();
    assert_ne!(relay.response_commitment_hash_hex().unwrap(), expected);
}

#[test]
fn response_commitment_binds_nonces_keys_economics_and_ark_package() {
    let original = sample_response();
    let expected = original.response_commitment_hash_hex().unwrap();
    let mutations: &[(&str, fn(&mut RelayFile))] = &[
        ("swap identity", |r| r.swap_id = SwapId::from_bytes([2; 32]).to_string()),
        ("request nonce", |r| r.request.btc_payer_public_nonce_hex = "66".repeat(66)),
        ("claim nonce", |r| r.claim_request.as_mut().unwrap().btc_payer_public_nonce_hex = "66".repeat(66)),
        ("Alice nonce", |r| r.ark_claim_partial.as_mut().unwrap().ark_public_nonce_hex = "66".repeat(66)),
        ("Alice partial", |r| r.ark_claim_partial.as_mut().unwrap().ark_partial_sig_hex = "66".repeat(32)),
        ("Bob key", |r| r.request.btc_payer_claim_pubkey.push('x')),
        ("refund key", |r| r.request.btc_refund_pubkey.push('x')),
        ("Alice key", |r| r.terms.as_mut().unwrap().ark_payer_claim_pubkey.push('x')),
        ("adaptor point", |r| r.terms.as_mut().unwrap().adaptor_point.push('x')),
        ("payout", |r| r.terms.as_mut().unwrap().btc_payout_script_hex.push_str("51")),
        ("Ark destination", |r| r.request.ark_receive.push('x')),
        ("request amount", |r| r.request.amount_sat += 1),
        ("offered amount", |r| r.terms.as_mut().unwrap().amount_sat += 1),
        ("claim amount", |r| r.claim_request.as_mut().unwrap().claim_amount_sat += 1),
        ("fee rate", |r| r.request.fee_rate_sat_vb += 1),
        ("creation height", |r| r.request.created_height += 1),
        ("refund height", |r| r.request.refund_height += 1),
        ("confirmations", |r| r.request.minimum_funding_confirmations += 1),
        ("margin", |r| r.request.safety_margin_blocks += 1),
        ("funding template", |r| r.request.funding_template_hex.push_str("00")),
        ("funding output index", |r| r.request.funding_output_index += 1),
        ("funding prevout", |r| r.request.funding_prevouts_hex[0].push_str("00")),
        ("funding amount", |r| r.btc_funding.as_mut().unwrap().lock_amount_sat += 1),
        ("funding txid", |r| r.btc_funding.as_mut().unwrap().funding_txid.push('0')),
        ("funding vout", |r| r.btc_funding.as_mut().unwrap().funding_vout += 1),
        ("claim transaction", |r| r.claim_request.as_mut().unwrap().claim_tx_hex.push_str("00")),
        ("claim sighash", |r| r.claim_request.as_mut().unwrap().claim_sighash_hex = "66".repeat(32)),
        ("claim tweak", |r| r.claim_request.as_mut().unwrap().tap_tweak_hex = "66".repeat(32)),
        ("Ark package", |r| r.ark_transfer.as_mut().unwrap().transfer_package_hex.push_str("00")),
        ("Ark inputs", |r| r.ark_transfer.as_mut().unwrap().offer.ark_input_ids.push("another-input".to_owned())),
    ];
    for (name, mutate) in mutations {
        let mut changed = original.clone();
        mutate(&mut changed);
        assert_ne!(changed.response_commitment_hash_hex().unwrap(), expected, "unbound {name}");
    }
}

#[test]
fn legacy_wire_unknown_fields_and_secret_material_are_rejected() {
    let mut legacy = sample_response();
    legacy.version = 2;
    assert_eq!(legacy.validate(), Err(SwapError::UnsupportedRelay));
    let mut foreign = sample_response();
    foreign.protocol = "other".to_owned();
    assert_eq!(foreign.validate(), Err(SwapError::UnsupportedRelay));
    assert!(ensure_relay_secret_free(br#"{"btc_secret_nonce":"deadbeef"}"#).is_err());
    let mut incomplete = sample_response();
    incomplete.ark_claim_partial = None;
    assert!(incomplete.response_commitment_hash_hex().is_err());
}

#[test]
fn commitment_is_the_digest_of_the_written_response() {
    let mut relay = sample_response();
    relay.request.ark_receive = "quote \" slash \\ tab \t control \u{1} umlaut \u{fc}".to_owned();
    let template = relay.request.funding_template_hex.clone();
    let mut signed = tx_from_hex(&template).unwrap();
    signed.input[0].witness.push(vec![1; 64]);
    relay.btc_funding.as_mut().unwrap().funding_tx_hex = signed.to_hex();
    let funding = relay.btc_funding.as_ref().unwrap();
    let text = [
        r#"{"protocol":"btc-ark","version":3,"swap_id":"ID","request":{"amount_sat":80000,"#,
        r#""ark_receive":"quote \" slash \\ tab \t control \u0001 umlaut UMLAUT","#,
        r#""btc_payer_claim_pubkey":"bob-claim-key","btc_refund_pubkey":"bob-refund-key","fee_rate_sat_vb":1,"#,
        r#""created_height":100,"refund_height":124,"minimum_funding_confirmations":6,"safety_margin_blocks":6,"#,
        r#""funding_template_hex":"TX","funding_output_index":0,"funding_prevouts_hex":["803801000000000000"],"#,
        r#""btc_payer_public_nonce_hex":"BTCNONCE"},"terms":{"amount_sat":80000,"#,
        r#""btc_payout_address":"alice-payout","btc_payout_script_hex":"51","#,
        r#""adaptor_point":"alice-adaptor-point","ark_payer_claim_pubkey":"alice-claim-key"},"#,
        r#""ark_transfer":{"offer":{"id":"ID","amount_sat":80000,"btc_payout_script_hex":"51","#,
        r#""ark_input_ids":["INPUT"],"ark_receive_policy_hex":"00","ark_server_pubkey":"ark-server-key","#,
        r#""adaptor_point":"alice-adaptor-point"},"transfer_package_hex":"deadbeef"},"#,
        r#""btc_funding":{"funding_txid":"FUNDINGID","funding_vout":0,"funding_tx_hex":"TX","#,
        r#""lock_address":"swap-lock","lock_amount_sat":80000},"claim_request":{"claim_tx_hex":"TX","#,
        r#""claim_sighash_hex":"SIGHASH","tap_tweak_hex":"TWEAK","btc_payer_public_nonce_hex":"BTCNONCE","#,
        r#""claim_amount_sat":79000},"ark_claim_partial":{"ark_public_nonce_hex":"ARKNONCE","#,
        r#""ark_partial_sig_hex":"SHARE"}}"#,
    ].concat()
        .replace("FUNDINGID", &funding.funding_txid)
        .replace("ID", &"01".repeat(32))
        .replace("UMLAUT", "\u{fc}")
        .replace("TX", &template)
        .replace("BTCNONCE", &"11".repeat(66))
        .replace("INPUT", &format!("{}:{}", "07".repeat(32), 0x0707_0707))
        .replace("SIGHASH", &"22".repeat(32))
        .replace("TWEAK", &"33".repeat(32))
        .replace("ARKNONCE", &"44".repeat(66))
        .replace("SHARE", &"55".repeat(32));
    assert!(serde_json::from_str::<serde_json::Value>(&text).is_ok());
    let digest = sha256::Hash::hash(text.as_bytes());
    assert_eq!(relay.response_commitment_hash_hex().unwrap(), digest.to_string());
}

#[test]
fn incomplete_responses_have_no_commitment() {
    let missing: &[(fn(&mut RelayFile), SwapError)] = &[
        (|r| r.version = 4, SwapError::UnsupportedRelay),
        (|r| r.swap_id = "01".to_owned(), SwapError::InvalidSwapId),
        (|r| r.btc_funding = None, SwapError::FundingMissing),
        (|r| r.btc_funding.as_mut().unwrap().funding_tx_hex.push_str("00"), SwapError::InvalidTransaction),
        (|r| r.terms = None, SwapError::TermsMissing),
        (|r| r.ark_transfer = None, SwapError::ArkTransferMissing),
        (|r| r.claim_request = None, SwapError::ClaimRequestMissing),
        (|r| r.ark_claim_partial = None, SwapError::ClaimPartialMissing),
    ];
    for (remove, error) in missing {
        let mut relay = sample_response();
        remove(&mut relay);
        assert_eq!(relay.response_commitment_hash_hex(), Err(*error));
    }
}

#[test]
fn relay_is_of_one_swap() {
    let relay = sample_response();
    assert_eq!(relay.validate(), Ok(()));
    assert_eq!(relay.swap_id(), Ok(SwapId::from_bytes([1; 32])));
    assert_eq!(relay.require_swap(SwapId::from_bytes([1; 32])), Ok(()));
    assert_eq!(relay.require_swap(SwapId::from_bytes([2; 32])), Err(SwapError::SwapMismatch));
    assert_eq!(relay.payer_ark_receive(), Ok("ark-receive"));
    assert_eq!(relay.btc_payer_claim_pubkey(), Ok("bob-claim-key"));
    assert_eq!(relay.terms().unwrap().amount_sat, 80_000);
    let fresh = RelayFile::new_request(SwapId::from_bytes([3; 32]), relay.request.clone());
    assert_eq!(fresh.status, SwapStatus::Requested);
    assert_eq!(fresh.terms(), Err(SwapError::TermsMissing));
    assert_eq!(fresh.swap_id, "03".repeat(32));
}

#[test]
fn coordinator_paths_drop_the_file_scheme() {
    assert_eq!(coordinator_path("file:///tmp/relay.json"), "/tmp/relay.json");
    assert_eq!(coordinator_path("/tmp/relay.json"), "/tmp/relay.json");
    assert_eq!(coordinator_path("file:/x"), "file:/x");
    assert_eq!(coordinator_path(""), "");
}

#[test]
fn secret_labels_are_refused_anywhere() {
    assert_eq!(ensure_relay_secret_free(b"{}"), Ok(()));
    assert_eq!(ensure_relay_secret_free(b"secret-nonce, adaptor-secret"), Ok(()));
    for label in ["mnemonic", "adaptor_secret", "secret_nonce", "funding_psbt"] {
        let text = format!("{{\"note\":\"my {label}!\"}}");
        assert_eq!(ensure_relay_secret_free(text.as_bytes()), Err(SwapError::RelayHoldsSecret));
    }
    assert_eq!(ensure_relay_secret_free(&[0xff, 0xfe]), Err(SwapError::RelayNotText));
    assert_eq!(ensure_relay_secret_free(b""), Ok(()));
}

#[test]
fn offers_survive_their_text() {
    let key = SecretKey::random().public_key();
    let offer = ArkOffer {
        id: SwapId::random(),
        amount: 12_345,
        btc_payout_script: vec![0x51, 0x20, 0x07],
        ark_input_ids: vec![vtxo_id(7), vtxo_id(9)],
        ark_receive_policy: VtxoPolicy::new_pubkey(&key),
        ark_server_pubkey: SecretKey::random().public_key(),
        adaptor_point: SecretKey::random().public_key(),
    };
    let text = ArkOfferArtifact::from_offer(&offer);
    assert_eq!(text.btc_payout_script_hex, "512007");
    assert_eq!(text.ark_input_ids[0], format!("{}:{}", "07".repeat(32), 0x0707_0707));
    let back = text.to_offer().unwrap();
    assert_eq!(back.id, offer.id);
    assert_eq!(back.amount, 12_345);
    assert_eq!(back.btc_payout_script, offer.btc_payout_script);
    assert_eq!(back.ark_input_ids, offer.ark_input_ids);
    assert!(back.ark_receive_policy.same(&offer.ark_receive_policy));
    assert_eq!(back.ark_server_pubkey, offer.ark_server_pubkey);
    assert_eq!(back.adaptor_point, offer.adaptor_point);
    let broken: &[(fn(&mut ArkOfferArtifact), SwapError)] = &[
        (|t| t.id.push('0'), SwapError::InvalidSwapId),
        (|t| t.btc_payout_script_hex.push('0'), SwapError::InvalidHex),
        (|t| t.ark_input_ids[1].push('x'), SwapError::InvalidVtxoId),
        (|t| t.ark_receive_policy_hex = "ffff".to_owned(), SwapError::InvalidPolicy),
        (|t| t.ark_server_pubkey.push('0'), SwapError::InvalidPublicKey),
        (|t| t.adaptor_point.push('0'), SwapError::InvalidPublicKey),
    ];
    for (change, error) in broken {
        let mut changed = text.clone();
        change(&mut changed);
        assert_eq!(changed.to_offer().err(), Some(*error));
    }
}

#[test]
fn adaptor_packages_survive_their_text() {
    let secret = AdaptorSecret::new(SecretKey::random());
    let package = build_cooperative_claim_adaptor_package(
        &SecretKey::random(), &SecretKey::random(), [9; 32], Some([7; 32]), &secret.point(),
    ).unwrap();
    let text = BtcClaimAdaptorArtifact::from_package(&package);
    assert_eq!(bytes_from_hex(&text.pre_signature_hex).unwrap(), package.pre_signature.as_pre_signature());
    assert_eq!(text.sighash_hex, "09".repeat(32));
    let back = text.to_package().unwrap();
    assert!(back.verify().is_ok());
    assert!(back.adaptor_point.same(&package.adaptor_point));
    assert!(back.aggregate_key.same(&package.aggregate_key));
    let broken: &[(fn(&mut BtcClaimAdaptorArtifact), SwapError)] = &[
        (|t| t.pre_signature_hex.push('0'), SwapError::InvalidHex),
        (|t| t.pre_signature_hex.push_str("00"), SwapError::InvalidSignature),
        (|t| t.adaptor_point.push('0'), SwapError::InvalidPublicKey),
        (|t| t.aggregate_key.push('0'), SwapError::InvalidPublicKey),
        (|t| t.sighash_hex.push('0'), SwapError::InvalidHex),
        (|t| t.sighash_hex.push_str("00"), SwapError::ExpectedThirtyTwoBytes),
    ];
    for (change, error) in broken {
        let mut changed = text.clone();
        change(&mut changed);
        assert_eq!(changed.to_package().err(), Some(*error));
    }
}
