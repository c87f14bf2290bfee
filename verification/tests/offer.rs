//! Ark offers and the acceptance of their transfers.

use ark::arkoor::package::ArkoorPackageBuilder;
use ark::arkoor::ArkoorDestination;
use ark::test_util::dummy::DummyTestVtxoSpec;
use ark::ProtocolEncoding as _;
use bitcoin::secp256k1::Keypair;
use bitcoin::Amount;
use btc_ark_swap::adaptor::AdaptorSecret;
use btc_ark_swap::ark_types::{
    contains_id, id_texts, parse_ark_address, parse_ids, same_ids, ArkVtxo, VtxoId, VtxoPolicy,
};
use btc_ark_swap::error::SwapError;
use btc_ark_swap::keys::{PublicKey, SecretKey};
use btc_ark_swap::lock::key_path_script;
use btc_ark_swap::offer::{
    public_transfer_terms, verify_ark_transfer_before_acceptance, verify_ark_transfer_before_acceptance_with_options,
    verify_ark_transfer_offer, ArkOffer, ArkOutput, ArkTransfer, ArkTransferAcceptanceOptions, ArkTransferOfferError,
    TransferPackageVerificationError, TransferVerdict,
};
use btc_ark_swap::swap_id::SwapId;

fn keypair_of(secret: &SecretKey) -> Keypair {
    Keypair::from_seckey_slice(&ark::SECP, &secret.secret_bytes()).unwrap()
}

fn outside_policy(key: &PublicKey) -> ark::VtxoPolicy {
    ark::VtxoPolicy::new_pubkey(bitcoin::secp256k1::PublicKey::from_slice(&key.serialize()).unwrap())
}

fn spec_of(user: &SecretKey, server: &SecretKey) -> DummyTestVtxoSpec {
    DummyTestVtxoSpec {
        amount: Amount::from_sat(10_000),
        fee: Amount::ZERO,
        expiry_height: 100.into(),
        exit_delta: 12.into(),
        user_keypair: keypair_of(user),
        server_keypair: keypair_of(server),
    }
}

fn sample_offer() -> ArkOffer {
    ArkOffer {
        id: SwapId::random(),
        amount: 10_000,
        btc_payout_script: key_path_script(&SecretKey::random().public_key().x_only_public_key()).unwrap(),
        ark_input_ids: vec![],
        ark_receive_policy: VtxoPolicy::new_pubkey(&SecretKey::random().public_key()),
        ark_server_pubkey: SecretKey::random().public_key(),
        adaptor_point: AdaptorSecret::new(SecretKey::random()).point(),
    }
}

#[test]
fn verify_ark_transfer_offer_rejects_wrong_receive_policy() {
    let expected_policy = VtxoPolicy::new_pubkey(&SecretKey::random().public_key());
    let offer = sample_offer();

    let err = verify_ark_transfer_offer(
        &offer,
        offer.id,
        offer.amount,
        &offer.btc_payout_script,
        &expected_policy,
        offer.ark_server_pubkey,
        offer.adaptor_point,
    )
    .expect_err("wrong receive policy must be rejected");
    assert_eq!(ArkTransferOfferError::ArkReceivePolicyMismatch, err);
}

#[test]
fn every_term_of_an_offer_is_compared() {
    let offer = sample_offer();
    let check = |offer: &ArkOffer, id, amount, script: &Vec<u8>, policy: &VtxoPolicy, server, point| {
        verify_ark_transfer_offer(offer, id, amount, script, policy, server, point)
    };
    let (id, amount, server, point) = (offer.id, offer.amount, offer.ark_server_pubkey, offer.adaptor_point);
    let script = offer.btc_payout_script.clone();
    let policy = offer.ark_receive_policy.clone();
    assert_eq!(check(&offer, id, amount, &script, &policy, server, point), Ok(()));
    let other = SwapId::random();
    assert_eq!(
        check(&offer, other, 1, &script, &policy, server, point),
        Err(ArkTransferOfferError::SwapIdMismatch { expected: other, got: id })
    );
    assert_eq!(
        check(&offer, id, 9_999, &script, &policy, server, point),
        Err(ArkTransferOfferError::AmountMismatch { expected: 9_999, got: 10_000 })
    );
    assert_eq!(
        check(&offer, id, amount, &vec![0x51], &policy, server, point),
        Err(ArkTransferOfferError::BtcPayoutScriptMismatch)
    );
    let key = SecretKey::random().public_key();
    assert_eq!(
        check(&offer, id, amount, &script, &policy, key, point),
        Err(ArkTransferOfferError::ServerPubkeyMismatch { expected: key, got: server })
    );
    assert_eq!(
        check(&offer, id, amount, &script, &policy, server, key),
        Err(ArkTransferOfferError::AdaptorPointMismatch { expected: key, got: point })
    );
}

#[test]
fn verify_ark_transfer_before_acceptance_rejects_expired_outputs() {
    let user = SecretKey::random();
    let server = SecretKey::random();
    let (_funding_tx, input) = spec_of(&user, &server).build();
    let amount = input.amount();
    let receive_key = SecretKey::random().public_key();
    let vtxo = ArkVtxo::deserialize(input.serialize()).unwrap();
    let builder = ArkoorPackageBuilder::new_single_output_with_checkpoints(
        [input],
        ArkoorDestination { total_amount: amount, policy: outside_policy(&receive_key) },
        outside_policy(&SecretKey::random().public_key()),
    )
    .expect("valid arkoor package");
    let outputs: Vec<ArkOutput> = builder
        .build_unsigned_vtxos()
        .map(|output| ArkOutput {
            id: VtxoId::from_str(&output.id().to_string()).unwrap(),
            policy: VtxoPolicy::deserialize_hex(&output.policy().serialize_hex()).unwrap(),
            expiry_height: output.expiry_height().to_u32(),
        })
        .collect();
    let output_id = outputs[0].id;
    let offer = ArkOffer {
        id: SwapId::random(),
        amount: amount.to_sat(),
        btc_payout_script: vec![],
        ark_input_ids: vec![vtxo.id()],
        ark_receive_policy: VtxoPolicy::new_pubkey(&receive_key),
        ark_server_pubkey: server.public_key(),
        adaptor_point: AdaptorSecret::new(SecretKey::random()).point(),
    };
    assert!(outputs[0].policy.same(&offer.ark_receive_policy));
    let transfer = ArkTransfer { inputs: vec![vtxo], outputs };
    let verdict = TransferVerdict { terms: public_transfer_terms(&offer), verified: true };

    let err = verify_ark_transfer_before_acceptance(&offer, &transfer, &verdict, 100)
        .expect_err("expired outputs must be rejected");
    assert_eq!(
        err,
        TransferPackageVerificationError::OutputExpiryTooSoon {
            vtxo_id: output_id,
            expiry_height: 100,
            minimum_expiry_height: 100,
        }
    );
    assert_eq!(verify_ark_transfer_before_acceptance(&offer, &transfer, &verdict, 99), Ok(()));
    verify_ark_transfer_before_acceptance_with_options(
        &offer,
        &transfer,
        &verdict,
        100,
        ArkTransferAcceptanceOptions { allow_short_output_expiry: true },
    )
    .expect("short output expiry can be accepted explicitly for testing");
}

#[test]
fn unverified_transfers_are_refused() {
    let offer = sample_offer();
    let transfer = ArkTransfer { inputs: vec![], outputs: vec![] };
    let lax = ArkTransferAcceptanceOptions { allow_short_output_expiry: true };
    let refused = TransferVerdict { terms: public_transfer_terms(&offer), verified: false };
    let foreign = TransferVerdict { terms: public_transfer_terms(&sample_offer()), verified: true };
    let fine = TransferVerdict { terms: public_transfer_terms(&offer), verified: true };
    let check = |verdict| verify_ark_transfer_before_acceptance_with_options(&offer, &transfer, verdict, 0, lax);
    assert_eq!(check(&refused), Err(TransferPackageVerificationError::NotVerified));
    assert_eq!(check(&foreign), Err(TransferPackageVerificationError::NotVerified));
    assert_eq!(check(&fine), Ok(()));
    assert_eq!(ArkTransferAcceptanceOptions::default(), ArkTransferAcceptanceOptions { allow_short_output_expiry: false });
}

#[test]
fn vtxos_read_as_their_encoding_says() {
    let user = SecretKey::random();
    let server = SecretKey::random();
    let (funding, input) = spec_of(&user, &server).build();
    let vtxo = ArkVtxo::deserialize(input.serialize()).unwrap();
    assert_eq!(vtxo.id().to_string(), input.id().to_string());
    assert!(vtxo.point().same(&vtxo.id().point));
    assert_eq!(vtxo.chain_anchor().txid, bitcoin::hashes::Hash::to_byte_array(funding.compute_txid()));
    assert_eq!(vtxo.chain_anchor().vout, 0);
    assert!(vtxo.has_pubkey_policy());
    assert!(vtxo.policy().same(&VtxoPolicy::new_pubkey(&user.public_key())));
    assert_eq!(vtxo.expiry_height(), 100);
    assert_eq!(vtxo.exit_delta(), 12);
    assert!(vtxo.server_pubkey().same(&server.public_key()));
    assert_eq!(vtxo.txout().value, 10_000);
    assert_eq!(vtxo.txout().script_pubkey, input.txout().script_pubkey.into_bytes());
    assert_eq!(ArkVtxo::deserialize(vec![1, 2, 3]).err(), Some(SwapError::InvalidVtxo));
}

#[test]
fn exits_need_their_anchor() {
    let user = SecretKey::random();
    let (funding, input) = spec_of(&user, &SecretKey::random()).build();
    let vtxo = ArkVtxo::deserialize(input.serialize()).unwrap();
    let anchor =
        btc_ark_swap::tx::tx_from_hex(&bitcoin::consensus::encode::serialize_hex(&funding)).unwrap();
    let exits = vtxo.valid_exits(&anchor).unwrap();
    let outside: Vec<_> = input.transactions().collect();
    assert_eq!(exits.len(), outside.len());
    for (exit, expected) in exits.iter().zip(outside) {
        assert_eq!(exit.0.to_hex(), bitcoin::consensus::encode::serialize_hex(&expected.tx));
        assert_eq!(exit.1, expected.output_idx);
    }
    let mut other = anchor.clone();
    other.output[0].value += 1;
    assert!(vtxo.valid_exits(&other).is_none());
}

#[test]
fn policies_and_addresses_keep_their_text() {
    let key = SecretKey::random().public_key();
    let policy = VtxoPolicy::new_pubkey(&key);
    assert_eq!(policy.serialize_hex(), outside_policy(&key).serialize_hex());
    assert_eq!(policy.user_pubkey(), Some(key));
    assert_eq!(VtxoPolicy::deserialize_hex(&policy.serialize_hex()), Ok(policy.clone()));
    assert_eq!(VtxoPolicy::deserialize_hex("zz").err(), Some(SwapError::InvalidPolicy));
    let server = keypair_of(&SecretKey::random()).public_key();
    let address =
        ark::Address::builder().testnet(true).server_pubkey(server).policy(outside_policy(&key))
            .delivery(ark::address::VtxoDelivery::Unknown { delivery_type: 0x7f, data: vec![1] }).into_address().unwrap();
    let (text, found) = parse_ark_address(&address.to_string()).unwrap();
    assert_eq!(text, address.to_string());
    assert!(found.same(&policy));
    assert_eq!(parse_ark_address("nowhere").err(), Some(SwapError::InvalidArkAddress));
}

#[test]
fn identifiers_are_outpoints() {
    let text = [&"00".repeat(31), "ff:258"].concat();
    let id = VtxoId::from_str(&text).unwrap();
    assert_eq!(id.point.txid[0], 0xff);
    assert_eq!(id.point.vout, 258);
    assert_eq!(id.to_string(), text);
    assert_eq!(VtxoId::from_str("00:0"), Err(SwapError::InvalidVtxoId));
    let other = VtxoId::from_str(&[&"00".repeat(31), "ff:259"].concat()).unwrap();
    assert!(!id.same(&other));
    assert!(same_ids(&vec![id, other], &vec![id, other]));
    assert!(!same_ids(&vec![id, other], &vec![other, id]));
    assert!(contains_id(&vec![other, id], &id));
    assert!(!contains_id(&vec![other], &id));
    let texts = id_texts(&vec![id, other]);
    assert_eq!(texts, vec![id.to_string(), other.to_string()]);
    assert_eq!(parse_ids(&texts), Ok(vec![id, other]));
    assert_eq!(parse_ids(&vec!["x".to_owned()]), Err(SwapError::InvalidVtxoId));
}
