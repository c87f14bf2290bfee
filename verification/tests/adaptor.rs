//! Adaptor signatures of the BTC claim.

use bitcoin::secp256k1::{Keypair, Message};
use btc_ark_swap::adaptor::{
    build_cooperative_claim_adaptor_package, build_cooperative_claim_adaptor_package_from_parts,
    sign_adaptor_partial_with_nonce, sign_cooperative_claim_adaptor_partial, AdaptorPreSignature, AdaptorSecret,
};
use btc_ark_swap::address::Network;
use btc_ark_swap::claim::{build_cooperative_claim_tx, cooperative_claim_sighash};
use btc_ark_swap::error::SwapError;
use btc_ark_swap::fee::fee_rate_from_sat_vb;
use btc_ark_swap::keys::{PublicKey, SecretKey};
use btc_ark_swap::lock::{key_path_script, BtcLockContract};
use btc_ark_swap::musig::{
    combine_keys, nonce_pair, nonce_pair_with_msg, partial_sign, partial_sign_and_join, public_nonce_from_hex,
    signing_key_of, SecretNonce,
};
use btc_ark_swap::tx::OutPoint;

fn null_point() -> OutPoint {
    OutPoint { txid: [0; 32], vout: u32::MAX }
}

fn keypair_of(secret: &SecretKey) -> Keypair {
    Keypair::from_seckey_slice(&ark::SECP, &secret.secret_bytes()).unwrap()
}

#[test]
fn final_btc_claim_signature_reveals_t() {
    let secret = AdaptorSecret::new(SecretKey::random());
    let claim = build_cooperative_claim_adaptor_package(
        &SecretKey::random(), &SecretKey::random(), [9u8; 32], Some([7u8; 32]), &secret.point(),
    )
    .expect("claim adaptor package");

    let final_sig = claim.finalize_with_secret(secret).expect("final claim signature");
    let recovered = claim.recover_secret(final_sig).ok().expect("revealed secret");

    assert_eq!(recovered.secret_key().secret_bytes(), secret.secret_key().secret_bytes());
}

#[test]
fn recover_secret_rejects_invalid_final_signature() {
    let secret = AdaptorSecret::new(SecretKey::random());
    let claim = build_cooperative_claim_adaptor_package(
        &SecretKey::random(), &SecretKey::random(), [9u8; 32], Some([7u8; 32]), &secret.point(),
    )
    .expect("claim adaptor package");

    let final_sig = claim.finalize_with_secret(secret).expect("final claim signature");
    let mut invalid_sig = final_sig;
    invalid_sig[0] ^= 1;

    claim.pre_signature.recover_secret(&invalid_sig, &claim.adaptor_point).ok()
        .expect("tampered signature still reveals same scalar delta");
    assert_eq!(claim.recover_secret(invalid_sig).err(), Some(SwapError::ClaimSignatureInvalid));
}

#[test]
fn alice_adapted_partial_binds_funding_and_both_claim_outputs() {
    let bob = SecretKey::random();
    // Bob commits his ordinary nonce before knowing Alice or the claim.
    let (stored_nonce, bob_nonce) = nonce_pair(&bob);
    let alice = SecretKey::random();
    let secret = AdaptorSecret::new(SecretKey::random());
    let lock = BtcLockContract::new(
        50_000, Network::Regtest, &bob.public_key(), &alice.public_key(), &bob.public_key().x_only_public_key(), 100,
    )
    .unwrap();
    let claim = build_cooperative_claim_tx(
        null_point(),
        &lock,
        key_path_script(&alice.public_key().x_only_public_key()).unwrap(),
        fee_rate_from_sat_vb(1).unwrap(),
    )
    .unwrap();
    let sighash = cooperative_claim_sighash(&claim, &lock).unwrap();
    let tweak = Some(lock.taproot.tap_tweak());
    let (alice_nonce, alice_partial) = sign_cooperative_claim_adaptor_partial(
        &alice, &bob.public_key(), &bob_nonce, sighash, tweak, &secret.point(),
    )
    .unwrap();
    let adaptor = build_cooperative_claim_adaptor_package_from_parts(
        &bob,
        SecretNonce::from_stored(&stored_nonce).ok().unwrap(),
        &bob_nonce,
        &alice.public_key(),
        &alice_nonce,
        &alice_partial,
        sighash,
        tweak,
        &secret.point(),
    )
    .unwrap();
    assert!(!adaptor.aggregate_key.verifies(&adaptor.pre_signature.as_pre_signature(), &sighash));
    let signature = adaptor.finalize_with_secret(secret).unwrap();
    assert_eq!(
        adaptor.recover_secret(signature).ok().unwrap().secret_key().secret_bytes(),
        secret.secret_key().secret_bytes()
    );
    assert!(adaptor.aggregate_key.verifies(&signature, &sighash));
    assert!(adaptor.aggregate_key.same(&lock.taproot.output_key()));

    let mut other_funding = claim.clone();
    other_funding.input[0].previous_output.vout = 0;
    let mut other_payout = claim.clone();
    other_payout.output[0].value -= 1;
    let mut other_anchor = claim.clone();
    other_anchor.output[1].value += 1;
    for changed in [other_funding, other_payout, other_anchor] {
        let changed_sighash = cooperative_claim_sighash(&changed, &lock).unwrap();
        assert!(!adaptor.aggregate_key.verifies(&signature, &changed_sighash));
    }
    let mut other_amount = lock.clone();
    other_amount.amount += 1;
    assert!(!adaptor.aggregate_key.verifies(&signature, &cooperative_claim_sighash(&claim, &other_amount).unwrap()));
}

#[test]
fn completed_signatures_pass_the_curve_library() {
    for tweak in [None, Some([7u8; 32])] {
        for _ in 0..8 {
            let secret = AdaptorSecret::new(SecretKey::random());
            let package = build_cooperative_claim_adaptor_package(
                &SecretKey::random(), &SecretKey::random(), [3; 32], tweak, &secret.point(),
            )
            .unwrap();
            assert_eq!(package.verify(), Ok(()));
            let signature = package.finalize_with_secret(secret).unwrap();
            let key = bitcoin::secp256k1::XOnlyPublicKey::from_slice(&package.aggregate_key.serialize()).unwrap();
            let signature = bitcoin::secp256k1::schnorr::Signature::from_slice(&signature).unwrap();
            ark::SECP.verify_schnorr(&signature, &Message::from_digest([3; 32]), &key).unwrap();
        }
    }
}

#[test]
fn changed_adaptor_packages_do_not_verify() {
    let secret = AdaptorSecret::new(SecretKey::random());
    let package = build_cooperative_claim_adaptor_package(
        &SecretKey::random(), &SecretKey::random(), [3; 32], None, &secret.point(),
    )
    .unwrap();
    let mut other_point = package;
    other_point.adaptor_point = SecretKey::random().public_key();
    let mut other_key = package;
    other_key.aggregate_key = SecretKey::random().public_key().x_only_public_key();
    let mut other_message = package;
    other_message.sighash[31] ^= 1;
    let mut other_scalar = package;
    let mut bytes = package.pre_signature.as_pre_signature();
    bytes[63] ^= 1;
    other_scalar.pre_signature = AdaptorPreSignature::new(bytes);
    let mut no_nonce = package;
    no_nonce.pre_signature = AdaptorPreSignature::new([0xff; 64]);
    let mut no_scalar = package;
    let mut bytes = package.pre_signature.as_pre_signature();
    bytes[32..].fill(0);
    no_scalar.pre_signature = AdaptorPreSignature::new(bytes);
    for changed in [other_point, other_key, other_message, other_scalar, no_nonce, no_scalar] {
        assert_eq!(changed.verify(), Err(SwapError::AdaptorMismatch));
        assert_eq!(changed.finalize_with_secret(secret), Err(SwapError::AdaptorMismatch));
    }
}

#[test]
fn only_the_secret_of_the_point_completes() {
    let secret = AdaptorSecret::new(SecretKey::random());
    let alice = SecretKey::random();
    let package = build_cooperative_claim_adaptor_package(
        &SecretKey::random(), &alice, [3; 32], None, &secret.point(),
    )
    .unwrap();
    let wrong = AdaptorSecret::new(SecretKey::random());
    assert_eq!(package.finalize_with_secret(wrong), Err(SwapError::AdaptorSecretMismatch));
    let mut ours = package;
    ours.aggregate_key = alice.public_key().x_only_public_key();
    let foreign = alice.sign(&[3; 32]);
    assert_eq!(ours.recover_secret(foreign).err(), Some(SwapError::SecretNotRevealed));
}

#[test]
fn shares_follow_the_signing_library() {
    let bob = SecretKey::random();
    let alice = SecretKey::random();
    let keys = [keypair_of(&bob).public_key(), keypair_of(&alice).public_key()];
    assert_eq!(
        combine_keys(&bob.public_key(), &alice.public_key()).serialize(),
        ark::musig::combine_keys(keys).serialize()
    );
    assert!(combine_keys(&alice.public_key(), &bob.public_key()).same(&combine_keys(&bob.public_key(), &alice.public_key())));
    let tweaked = signing_key_of(&bob.public_key(), &alice.public_key(), Some([7; 32])).unwrap();
    assert_eq!(tweaked.serialize(), ark::musig::tweaked_key_agg(keys, [7; 32]).1.serialize());
    let plain = signing_key_of(&bob.public_key(), &alice.public_key(), None).unwrap();
    assert_eq!(plain.serialize(), ark::musig::combine_keys(keys).serialize());

    let (bob_stored, bob_nonce) = nonce_pair(&bob);
    let (alice_stored, alice_nonce) = nonce_pair_with_msg(&alice, &[5; 32]);
    let share = partial_sign(
        &alice,
        &bob.public_key(),
        &bob_nonce,
        &alice_nonce,
        SecretNonce::from_stored(&alice_stored).ok().unwrap(),
        &[5; 32],
        Some([7; 32]),
    )
    .unwrap();
    let (signature, key) = partial_sign_and_join(
        &bob,
        &alice.public_key(),
        &bob_nonce,
        &alice_nonce,
        SecretNonce::from_stored(&bob_stored).ok().unwrap(),
        &[5; 32],
        Some([7; 32]),
        &share,
    )
    .unwrap();
    assert!(key.same(&tweaked));
    assert!(key.x_only_public_key().verifies(&signature, &[5; 32]));
    assert_eq!(public_nonce_from_hex(&bob_nonce.to_hex()), Ok(bob_nonce));
    assert_ne!(share.to_hex(), "00".repeat(32));
}

#[test]
fn nonces_are_fresh_and_adapted_by_the_point() {
    let alice = SecretKey::random();
    let (first, nonce) = nonce_pair(&alice);
    let (second, other) = nonce_pair(&alice);
    assert_ne!(first, second);
    assert_ne!(nonce, other);
    let point = SecretKey::random().public_key();
    let adapted = nonce.adapted(&point).unwrap();
    let mut half = [0u8; 33];
    half.copy_from_slice(&nonce.serialize()[..33]);
    let sum = PublicKey::from_bytes(half).unwrap().combine(&point).unwrap();
    assert_eq!(adapted.serialize()[..33], sum.serialize());
    assert_eq!(adapted.serialize()[33..], nonce.serialize()[33..]);
}

#[test]
fn unusable_nonces_and_tweaks_are_refused() {
    let alice = SecretKey::random();
    let bob = SecretKey::random();
    let (_, bob_nonce) = nonce_pair(&bob);
    let (stored, nonce) = nonce_pair_with_msg(&alice, &[5; 32]);
    let point = SecretKey::random().public_key();
    let sign = |stored: &[u8], tweak, point: &PublicKey| {
        sign_adaptor_partial_with_nonce(&alice, &bob.public_key(), &bob_nonce, [5; 32], tweak, point, stored, &nonce)
    };
    assert!(sign(&stored, None, &point).is_ok());
    assert_eq!(sign(&stored[1..], None, &point).err(), Some(SwapError::InvalidSecretNonce));
    assert_eq!(sign(&[0; 132], None, &point).err(), Some(SwapError::InvalidSecretNonce));
    assert_eq!(sign(&stored, Some([0xff; 32]), &point).err(), Some(SwapError::InvalidTweak));
    let mut half = [0u8; 33];
    half.copy_from_slice(&nonce.serialize()[..33]);
    let cancelling = PublicKey::from_bytes(half).unwrap().negate();
    assert_eq!(sign(&stored, None, &cancelling).err(), Some(SwapError::AdaptorNonceCancels));
    assert_eq!(
        signing_key_of(&bob.public_key(), &alice.public_key(), Some([0xff; 32])).err(),
        Some(SwapError::InvalidTweak)
    );
}

#[test]
fn unrelated_shares_make_no_package() {
    let bob = SecretKey::random();
    let alice = SecretKey::random();
    let (stored, bob_nonce) = nonce_pair(&bob);
    let secret = AdaptorSecret::new(SecretKey::random());
    let (alice_nonce, alice_partial) = sign_cooperative_claim_adaptor_partial(
        &alice, &bob.public_key(), &bob_nonce, [4; 32], None, &secret.point(),
    )
    .unwrap();
    let built = build_cooperative_claim_adaptor_package_from_parts(
        &bob,
        SecretNonce::from_stored(&stored).ok().unwrap(),
        &bob_nonce,
        &alice.public_key(),
        &alice_nonce,
        &alice_partial,
        [5; 32],
        None,
        &secret.point(),
    );
    assert_eq!(built.err(), Some(SwapError::AdaptorMismatch));
}

#[test]
fn stored_nonces_belong_to_their_public_nonce() {
    let secret = SecretKey::random();
    for (stored, public) in [nonce_pair(&secret), nonce_pair_with_msg(&secret, &[5u8; 32])] {
        let point = |from: usize| {
            let mut bytes = [0u8; 32];
            bytes.copy_from_slice(&stored[from..from + 32]);
            SecretKey::from_bytes(bytes).unwrap().public_key().serialize()
        };
        let bytes = public.serialize();
        assert_eq!(bytes[..33], point(4));
        assert_eq!(bytes[33..], point(36));
    }
}

#[test]
fn packages_need_a_tweak_that_fits() {
    let point = SecretKey::random().public_key();
    let (bob, alice) = (SecretKey::random(), SecretKey::random());
    let package = build_cooperative_claim_adaptor_package(&bob, &alice, [9u8; 32], Some([0xff; 32]), &point);
    assert_eq!(package.err(), Some(SwapError::InvalidTweak));
    let package = build_cooperative_claim_adaptor_package(&bob, &alice, [9u8; 32], None, &point).unwrap();
    let key = signing_key_of(&alice.public_key(), &bob.public_key(), None).unwrap();
    assert_eq!(package.aggregate_key, key.x_only_public_key());
}
