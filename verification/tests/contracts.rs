//! The BTC lock and the two transactions that spend it.

use bitcoin::hashes::Hash as _;
use bitcoin::secp256k1::{schnorr, Keypair, Message};
use bitcoin::taproot::{LeafVersion, TapLeafHash, TaprootBuilder};
use bitcoin::{sighash, Address, Amount, ScriptBuf};
use bitcoin_ext::TaprootSpendInfoExt as _;
use btc_ark_swap::address::Network;
use btc_ark_swap::claim::{build_cooperative_claim_tx, cooperative_claim_sighash};
use btc_ark_swap::error::SwapError;
use btc_ark_swap::fee::{checked_fee, fee_rate_from_sat_vb};
use btc_ark_swap::hex::bytes_hex;
use btc_ark_swap::keys::SecretKey;
use btc_ark_swap::lock::{key_path_script, BtcLockContract};
use btc_ark_swap::refund::{build_refund_tx, sign_refund_tx};
use btc_ark_swap::refund_flow::set_first_value;
use btc_ark_swap::script::{clears_dust, fee_anchor_with_amount, timelock_sign, P2TR_DUST};
use btc_ark_swap::tx::{tx_from_hex, OutPoint, Transaction, TxIn, TxOut};

fn null_point() -> OutPoint {
    OutPoint { txid: [0; 32], vout: u32::MAX }
}

fn keypair_of(secret: &SecretKey) -> Keypair {
    Keypair::from_seckey_slice(&ark::SECP, &secret.secret_bytes()).unwrap()
}

fn outside(tx: &Transaction) -> bitcoin::Transaction {
    bitcoin::consensus::encode::deserialize_hex(&tx.to_hex()).unwrap()
}

fn lock_between(bob: &SecretKey, alice: &SecretKey, height: u32) -> Result<BtcLockContract, SwapError> {
    BtcLockContract::new(
        50_000,
        Network::Regtest,
        &bob.public_key(),
        &alice.public_key(),
        &bob.public_key().x_only_public_key(),
        height,
    )
}

#[test]
fn cooperative_claim_accounts_for_anchor_fee_and_dust_boundary() {
    let bob = SecretKey::random();
    let alice = SecretKey::random();
    let payout = key_path_script(&alice.public_key().x_only_public_key()).unwrap();
    let mut lock = lock_between(&bob, &alice, 100).unwrap();
    let fee_rate = fee_rate_from_sat_vb(1).unwrap();
    let mut claim = build_cooperative_claim_tx(null_point(), &lock, payout.clone(), fee_rate).unwrap();
    claim.input[0].witness.push(vec![0u8; 64]);
    let fee = checked_fee(fee_rate, claim.weight_units()).unwrap();
    assert_eq!(claim.version, 3);
    assert_eq!(claim.output[1], fee_anchor_with_amount(330));
    assert!(clears_dust(&claim.output[1]));
    assert_eq!(claim.output[0].value + claim.output[1].value + fee, lock.amount);

    lock.amount = P2TR_DUST + claim.output[1].value + fee;
    let minimum = build_cooperative_claim_tx(null_point(), &lock, payout.clone(), fee_rate).unwrap();
    assert_eq!(minimum.output[0].value, P2TR_DUST);
    lock.amount -= 1;
    assert_eq!(
        build_cooperative_claim_tx(null_point(), &lock, payout.clone(), fee_rate),
        Err(SwapError::ClaimOutputNonStandard)
    );
    lock.amount = 0;
    assert_eq!(
        build_cooperative_claim_tx(null_point(), &lock, payout.clone(), fee_rate),
        Err(SwapError::ClaimFeeExceedsAmount)
    );
    lock.amount = Amount::MAX.to_sat();
    assert_eq!(
        build_cooperative_claim_tx(null_point(), &lock, payout, u64::MAX),
        Err(SwapError::ClaimFeeOverflow)
    );
}

#[test]
fn refund_height_is_absolute_and_rejects_timestamp_locktimes() {
    let bob = SecretKey::random();
    let alice = SecretKey::random();
    let lock = lock_between(&bob, &alice, 499_999_999).unwrap();
    assert!(!lock.refund_is_mature(499_999_998));
    assert!(lock.refund_is_mature(499_999_999));
    assert_eq!(lock_between(&bob, &alice, 500_000_000), Err(SwapError::InvalidRefundHeight));
}

#[test]
fn refund_can_be_repriced_and_signed_by_bob_alone() {
    let bob = SecretKey::random();
    let alice = SecretKey::random();
    let lock = lock_between(&bob, &alice, 100).unwrap();
    let destination = key_path_script(&bob.public_key().x_only_public_key()).unwrap();
    let original =
        build_refund_tx(null_point(), &lock, destination.clone(), fee_rate_from_sat_vb(1).unwrap()).unwrap();
    let replacement = build_refund_tx(null_point(), &lock, destination, fee_rate_from_sat_vb(10).unwrap()).unwrap();
    assert!(replacement.output[0].value < original.output[0].value);
    assert_ne!(replacement.txid(), original.txid());
    for refund in [original, replacement] {
        assert_eq!(refund.version, 2);
        assert_eq!(refund.lock_time, 100);
        assert_eq!(refund.input[0].sequence, 0xffff_fffd);
        let signed = sign_refund_tx(refund, &lock, &bob).unwrap();
        let witness = signed.input[0].witness.clone();
        assert_eq!(witness.len(), 3);
        assert_eq!(
            witness[1],
            ark::scripts::timelock_sign(100.into(), keypair_of(&bob).x_only_public_key().0).into_bytes()
        );
        let signature = schnorr::Signature::from_slice(&witness[0]).unwrap();
        let leaf = TapLeafHash::from_script(&ScriptBuf::from_bytes(lock.refund_script.clone()), LeafVersion::TapScript);
        let output = bitcoin::TxOut {
            value: Amount::from_sat(lock.txout().value),
            script_pubkey: ScriptBuf::from_bytes(lock.txout().script_pubkey),
        };
        let hash = sighash::SighashCache::new(&outside(&signed))
            .taproot_script_spend_signature_hash(
                0,
                &sighash::Prevouts::All(&[output]),
                leaf,
                sighash::TapSighashType::Default,
            )
            .unwrap();
        ark::SECP
            .verify_schnorr(
                &signature,
                &Message::from_digest(hash.to_byte_array()),
                &keypair_of(&bob).x_only_public_key().0,
            )
            .unwrap();
    }
}

#[test]
fn lock_is_the_taproot_of_both_keys_and_the_refund_leaf() {
    let bob = SecretKey::random();
    let alice = SecretKey::random();
    let lock = lock_between(&bob, &alice, 100).unwrap();
    let keys = [keypair_of(&bob).public_key(), keypair_of(&alice).public_key()];
    let internal = ark::musig::combine_keys(keys).x_only_public_key().0;
    let script = ark::scripts::timelock_sign(100.into(), keypair_of(&bob).x_only_public_key().0);
    let spend = TaprootBuilder::new().add_leaf(0, script.clone()).unwrap().finalize(&ark::SECP, internal).unwrap();
    assert_eq!(lock.refund_script, script.to_bytes());
    assert_eq!(lock.taproot.output_key().serialize(), spend.output_key().to_x_only_public_key().serialize());
    assert_eq!(lock.taproot.tap_tweak(), spend.tap_tweak().to_byte_array());
    assert_eq!(
        lock.taproot.control_block(&lock.refund_script),
        Some(spend.control_block(&(script, LeafVersion::TapScript)).unwrap().serialize())
    );
    assert_eq!(lock.taproot.control_block(&vec![0x51]), None);
    let address = Address::from_script(&spend.script_pubkey(), bitcoin::Network::Regtest).unwrap();
    assert_eq!(lock.address, address.to_string());
    assert_eq!(lock.funding_destination(), (address.to_string(), 50_000));
    assert_eq!(lock.txout().script_pubkey, spend.script_pubkey().to_bytes());
    assert_eq!(lock.txout().value, 50_000);
    assert_eq!(lock.refund_sequence(), 0xffff_fffd);
}

#[test]
fn claim_hash_is_the_key_spend_hash() {
    let bob = SecretKey::random();
    let alice = SecretKey::random();
    let lock = lock_between(&bob, &alice, 100).unwrap();
    let payout = key_path_script(&alice.public_key().x_only_public_key()).unwrap();
    let mut claim = build_cooperative_claim_tx(null_point(), &lock, payout, 250).unwrap();
    let output = bitcoin::TxOut {
        value: Amount::from_sat(50_000),
        script_pubkey: ScriptBuf::from_bytes(lock.txout().script_pubkey),
    };
    let expected = sighash::SighashCache::new(&outside(&claim))
        .taproot_key_spend_signature_hash(0, &sighash::Prevouts::All(&[output]), sighash::TapSighashType::Default)
        .unwrap()
        .to_byte_array();
    assert_eq!(cooperative_claim_sighash(&claim, &lock), Ok(expected));
    claim.input[0].witness.push(vec![1; 64]);
    assert_eq!(cooperative_claim_sighash(&claim, &lock), Ok(expected));
    claim.input.clear();
    assert_eq!(cooperative_claim_sighash(&claim, &lock), Err(SwapError::SighashFailed));
}

#[test]
fn weights_count_every_length() {
    let tx = |scripts: &[usize], items: &[usize], outputs: &[usize]| Transaction {
        version: 3,
        lock_time: 0,
        input: scripts
            .iter()
            .map(|length| TxIn {
                previous_output: null_point(),
                script_sig: vec![0; *length],
                sequence: 0,
                witness: items.iter().map(|length| vec![0; *length]).collect(),
            })
            .collect(),
        output: outputs.iter().map(|length| TxOut { value: 0, script_pubkey: vec![0; *length] }).collect(),
    };
    assert_eq!(tx(&[], &[], &[]).weight_units(), 4 * 10 + 2);
    assert_eq!(tx(&[0], &[], &[]).weight_units(), 4 * (10 + 41));
    assert_eq!(tx(&[0], &[0], &[]).weight_units(), 4 * (10 + 41) + 2 + 2);
    assert_eq!(tx(&[0xfc, 0xfd], &[], &[]).weight_units(), 4 * (10 + 80 + 0xfd + 0x100));
    assert_eq!(tx(&[0], &[0xffff, 0x1_0000], &[]).weight_units(), 4 * (10 + 41) + 2 + 1 + 0x1_0002 + 0x1_0005);
    assert_eq!(tx(&[0], &[], &[0; 0xfd]).weight_units(), 4 * (10 + 41 + 2 + 9 * 0xfd));
    assert_eq!(tx(&[0, 0], &[64], &[34]).weight_units(), 4 * (10 + 82 + 43) + 2 + 2 * 66);
}

#[test]
fn claim_of_a_fixed_lock_is_exact() {
    let bob = SecretKey::from_bytes([1; 32]).unwrap();
    let alice = SecretKey::from_bytes([2; 32]).unwrap();
    let lock = lock_between(&bob, &alice, 100).unwrap();
    let payout = key_path_script(&alice.public_key().x_only_public_key()).unwrap();
    let claim = build_cooperative_claim_tx(null_point(), &lock, payout.clone(), 250).unwrap();
    let mut probe = claim.clone();
    probe.input[0].witness.push(vec![0; 64]);
    assert_eq!(probe.weight_units(), 496);
    assert_eq!(claim.weight_units(), 4 * (8 + 1 + 41 + 1 + 43 + 13));
    // 124 virtual bytes at one satoshi each, beside the anchor.
    assert_eq!(claim.output[0].value, 50_000 - 330 - 124);
    let expected = [
        "0300000001",
        &"00".repeat(32),
        "ffffffff00ffffffff02",
        "8ac1000000000000",
        "22",
        &bytes_hex(&payout),
        "4a01000000000000",
        "0451024e73",
        "00000000",
    ]
    .concat();
    assert_eq!(claim.to_hex(), expected);
    assert_eq!(tx_from_hex(&expected), Ok(claim));
}

#[test]
fn refunds_refuse_what_cannot_be_paid() {
    let bob = SecretKey::random();
    let alice = SecretKey::random();
    let lock = lock_between(&bob, &alice, 100).unwrap();
    let destination = key_path_script(&bob.public_key().x_only_public_key()).unwrap();
    let build = |lock: &BtcLockContract, rate| build_refund_tx(null_point(), lock, destination.clone(), rate).err();
    assert_eq!(build(&lock, 250), None);
    let mut late = lock.clone();
    late.refund_height = 500_000_000;
    assert_eq!(build(&late, 250), Some(SwapError::InvalidRefundHeight));
    let mut foreign = lock.clone();
    foreign.refund_script.push(0x51);
    assert_eq!(build(&foreign, 250), Some(SwapError::RefundScriptMissing));
    let refund = build_refund_tx(null_point(), &lock, destination.clone(), 250).unwrap();
    assert_eq!(sign_refund_tx(refund, &foreign, &bob).err(), Some(SwapError::RefundScriptMissing));
    assert_eq!(build(&lock, u64::MAX), Some(SwapError::RefundFeeOverflow));
    assert_eq!(build(&lock, 10_000_000), Some(SwapError::RefundFeeExceedsAmount));
    let mut poor = lock.clone();
    poor.amount = 400;
    assert_eq!(build(&poor, 250), Some(SwapError::RefundOutputNonStandard));
}

#[test]
fn repricing_changes_only_the_value() {
    let bob = SecretKey::random();
    let lock = lock_between(&bob, &SecretKey::random(), 100).unwrap();
    let destination = key_path_script(&bob.public_key().x_only_public_key()).unwrap();
    let refund = build_refund_tx(null_point(), &lock, destination.clone(), 250).unwrap();
    let changed = set_first_value(refund.clone(), 7);
    assert_eq!(changed.output[0].value, 7);
    assert_eq!(changed.output[0].script_pubkey, destination);
    assert_eq!(changed.lock_time, 100);
    assert_eq!(changed.input, refund.input);
}

#[test]
fn refund_leaf_is_the_height_then_the_key() {
    let bob = SecretKey::from_bytes([1; 32]).unwrap();
    let key = bob.public_key().x_only_public_key().serialize();
    for height in [0u32, 1, 16, 17, 127, 128, 255, 256, 32_767, 32_768, 8_388_607, 8_388_608, 499_999_999] {
        let outside = ark::scripts::timelock_sign(height.into(), keypair_of(&bob).x_only_public_key().0);
        assert_eq!(timelock_sign(height, &key), outside.to_bytes(), "{height}");
    }
    assert_eq!(bytes_hex(&timelock_sign(100, &key)), ["0164b17520", &bytes_hex(&key), "ac"].concat());
}

#[test]
fn claim_hashes_cover_the_claim_but_not_its_witness() {
    let (bob, alice) = (SecretKey::random(), SecretKey::random());
    let payout = key_path_script(&alice.public_key().x_only_public_key()).unwrap();
    let mut lock = lock_between(&bob, &alice, 100).unwrap();
    let mut claim = build_cooperative_claim_tx(null_point(), &lock, payout, fee_rate_from_sat_vb(1).unwrap()).unwrap();
    let hash = cooperative_claim_sighash(&claim, &lock).unwrap();
    claim.input[0].witness.push(vec![1u8; 64]);
    assert_eq!(cooperative_claim_sighash(&claim, &lock), Ok(hash));
    let changes: &[fn(&mut Transaction)] = &[
        |tx| tx.input[0].previous_output.vout = 0,
        |tx| tx.output[0].value -= 1,
        |tx| tx.output[1].value -= 1,
    ];
    for change in changes {
        let mut changed = claim.clone();
        change(&mut changed);
        assert_ne!(cooperative_claim_sighash(&changed, &lock), Ok(hash));
    }
    lock.amount -= 1;
    assert_ne!(cooperative_claim_sighash(&claim, &lock), Ok(hash));
}

#[test]
fn fees_are_those_of_the_signed_transactions() {
    let (bob, alice) = (SecretKey::random(), SecretKey::random());
    let lock = lock_between(&bob, &alice, 100).unwrap();
    let destination = key_path_script(&bob.public_key().x_only_public_key()).unwrap();
    for rate in [1, 7] {
        let rate = fee_rate_from_sat_vb(rate).unwrap();
        let refund = build_refund_tx(null_point(), &lock, destination.clone(), rate).unwrap();
        let paid = lock.amount - refund.output[0].value;
        let signed = sign_refund_tx(refund, &lock, &bob).unwrap();
        assert_eq!(checked_fee(rate, signed.weight_units()), Some(paid));
        assert_eq!(signed.weight_units(), outside(&signed).weight().to_wu());
    }
}
