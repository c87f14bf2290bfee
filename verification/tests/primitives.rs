//! Texts, numbers, keys, scripts and transactions.

use bitcoin::hashes::Hash as _;
use bitcoin::{Amount, ScriptBuf};
use bitcoin_ext::TxOutExt as _;
use btc_ark_swap::address::{parse_address, taproot_address, Network};
use btc_ark_swap::ark_types::VtxoPolicy;
use btc_ark_swap::bytes::{array32, byte_list_copy, byte_lists_eq, bytes_eq, text_list_copy, text_lists_eq};
use btc_ark_swap::error::SwapError;
use btc_ark_swap::fee::{checked_fee, fee_rate_from_sat_vb};
use btc_ark_swap::hex::{bytes32_from_hex, bytes_from_hex, bytes_hex, script_from_hex};
use btc_ark_swap::keys::{
    secret_key_from_hex, secret_key_hex, signature_from_hex, signature_nonce, signature_scalar, PublicKey, SecretKey,
    XOnlyPublicKey,
};
use btc_ark_swap::lock::key_path_script;
use btc_ark_swap::musig::{partial_sig_from_hex, public_nonce_from_hex};
use btc_ark_swap::psbt::put_funding;
use btc_ark_swap::role::{is_terminal_status, role_slug, ProgressRole, SwapRole, SwapStatus};
use btc_ark_swap::scalar::{below, curve_order_bytes, minus, reduced};
use btc_ark_swap::script::{clears_dust, fee_anchor_with_amount, is_native_segwit, is_p2tr, is_standard};
use btc_ark_swap::swap_id::{SwapId, SwapIdParseError};
use btc_ark_swap::text::push_decimal;
use btc_ark_swap::tx::{
    id_listed, is_fully_signed, same_id, sum_outputs, tx_from_hex, txid_to_string, txout_from_hex, without_witness,
    OutPoint, Transaction, TxIn, TxOut,
};

const GENERATOR: &str = "0279be667ef9dcbbac55a06295ce870b07029bfcdb2dce28d959f2815b16f81798";

fn one() -> SecretKey {
    let mut bytes = [0; 32];
    bytes[31] = 1;
    SecretKey::from_bytes(bytes).unwrap()
}

fn sample_tx() -> Transaction {
    Transaction {
        version: 2,
        lock_time: 7,
        input: vec![
            TxIn {
                previous_output: OutPoint { txid: [3; 32], vout: 1 },
                script_sig: vec![0x51],
                sequence: 0xffff_fffd,
                witness: vec![vec![1, 2], vec![]],
            },
            TxIn {
                previous_output: OutPoint { txid: [4; 32], vout: 0 },
                script_sig: vec![],
                sequence: 5,
                witness: vec![],
            },
        ],
        output: vec![TxOut { value: 1_000, script_pubkey: vec![0x51] }, TxOut { value: 5, script_pubkey: vec![] }],
    }
}

#[test]
fn hex_is_lower_case_and_read_in_both() {
    assert_eq!(bytes_hex(&[0x00, 0x0f, 0xa0, 0xff]), "000fa0ff");
    assert_eq!(bytes_hex(&[]), "");
    assert_eq!(bytes_from_hex("000Fa0fF"), Ok(vec![0x00, 0x0f, 0xa0, 0xff]));
    assert_eq!(bytes_from_hex(""), Ok(vec![]));
    for wrong in ["0", "0g", " 00", "0x00", "\u{fc}"] {
        assert_eq!(bytes_from_hex(wrong), Err(SwapError::InvalidHex));
    }
    assert_eq!(bytes32_from_hex(&"0a".repeat(32)), Ok([10; 32]));
    assert_eq!(bytes32_from_hex(&"0a".repeat(31)), Err(SwapError::ExpectedThirtyTwoBytes));
    assert_eq!(bytes32_from_hex("zz"), Err(SwapError::InvalidHex));
    assert_eq!(script_from_hex("5120"), Ok(vec![0x51, 0x20]));
    assert_eq!(script_from_hex("512"), Err(SwapError::InvalidHex));
}

#[test]
fn swap_ids_survive_their_text() {
    let id = SwapId::from_bytes([0xa1; 32]);
    assert_eq!(id.to_string(), "a1".repeat(32));
    assert_eq!(id.as_bytes(), &[0xa1; 32]);
    assert_eq!(SwapId::from_str(&"A1".repeat(32)), Ok(id));
    for wrong in ["", "a1", &"g1".repeat(32), &"a1".repeat(33), &"\u{fc}".repeat(32)] {
        assert_eq!(SwapId::from_str(wrong), Err(SwapIdParseError));
    }
    assert_eq!(SwapIdParseError.to_string(), "invalid swap id");
    let (first, second) = (SwapId::random(), SwapId::random());
    assert!(!first.same(&second));
    assert_eq!(SwapId::from_str(&first.to_string()), Ok(first));
}

#[test]
fn roles_have_slugs_and_ends() {
    assert_eq!(role_slug(SwapRole::BtcPayer), "btc-payer");
    assert_eq!(role_slug(SwapRole::ArkPayer), "ark-payer");
    assert_eq!(SwapRole::from(ProgressRole::BtcPayer), SwapRole::BtcPayer);
    assert_eq!(SwapRole::from(ProgressRole::ArkPayer), SwapRole::ArkPayer);
    let statuses = [
        (SwapStatus::Requested, false),
        (SwapStatus::Offered, false),
        (SwapStatus::BtcClaimReady, false),
        (SwapStatus::BtcClaimed, true),
        (SwapStatus::ArkCompleted, true),
        (SwapStatus::Refunded, true),
        (SwapStatus::ArkRecovering, false),
        (SwapStatus::ArkReclaimed, true),
    ];
    for (status, done) in statuses {
        assert_eq!(is_terminal_status(SwapRole::BtcPayer, status), done);
        assert_eq!(is_terminal_status(SwapRole::ArkPayer, status), done);
    }
    assert!(is_terminal_status(SwapRole::BtcPayer, SwapStatus::Cancelled));
    assert!(!is_terminal_status(SwapRole::ArkPayer, SwapStatus::Cancelled));
}

#[test]
fn fees_round_up() {
    assert_eq!(fee_rate_from_sat_vb(1), Ok(250));
    assert_eq!(fee_rate_from_sat_vb(4_294_967_295), Ok(1_073_741_823_750));
    assert_eq!(fee_rate_from_sat_vb(0), Err(SwapError::FeeRateZero));
    assert_eq!(fee_rate_from_sat_vb(4_294_967_296), Err(SwapError::FeeRateTooLarge));
    assert_eq!(checked_fee(250, 400), Some(100));
    assert_eq!(checked_fee(250, 401), Some(101));
    assert_eq!(checked_fee(0, 401), Some(0));
    assert_eq!(checked_fee(u64::MAX, 1), None);
    assert_eq!(checked_fee(u64::MAX - 999, 1), Some(18_446_744_073_709_551));
    for (rate, weight) in [(250u64, 496u64), (251, 497), (1, 1), (999, 3)] {
        let outside = bitcoin::FeeRate::from_sat_per_kwu(rate) * bitcoin::Weight::from_wu(weight);
        assert_eq!(checked_fee(rate, weight), Some(outside.to_sat()));
    }
}

#[test]
fn decimals_have_no_leading_zeros() {
    let mut text = String::from("n");
    push_decimal(&mut text, 0);
    push_decimal(&mut text, 907);
    push_decimal(&mut text, u64::MAX);
    assert_eq!(text, "n090718446744073709551615");
}

#[test]
fn lists_compare_by_content() {
    assert!(bytes_eq(&[1, 2], &[1, 2]));
    assert!(!bytes_eq(&[1, 2], &[1]));
    let items = vec![vec![1], vec![]];
    assert!(byte_lists_eq(&items, &byte_list_copy(&items)));
    assert!(!byte_lists_eq(&items, &vec![vec![1]]));
    let texts = vec!["a".to_owned(), "b".to_owned()];
    assert!(text_lists_eq(&texts, &text_list_copy(&texts)));
    assert!(!text_lists_eq(&texts, &vec!["a".to_owned(), "c".to_owned()]));
    assert_eq!(array32(&[7; 32]), [7; 32]);
}

#[test]
fn scalars_live_below_the_curve_order() {
    let order = curve_order_bytes();
    assert_eq!(bytes_hex(&order), "fffffffffffffffffffffffffffffffebaaedce6af48a03bbfd25e8cd0364141");
    assert!(below(&[0; 32], &order));
    assert!(!below(&order, &order));
    assert_eq!(reduced(&order), [0; 32]);
    assert_eq!(reduced(&[5; 32]), [5; 32]);
    let mut last = order;
    last[31] -= 1;
    assert_eq!(minus(&order, &last)[31], 1);
    assert!(SecretKey::from_bytes(last).is_some());
    assert!(SecretKey::from_bytes(order).is_none());
    assert!(SecretKey::from_bytes([0; 32]).is_none());
}

#[test]
fn keys_follow_the_curve() {
    let key = one().public_key();
    assert_eq!(key.to_string(), GENERATOR);
    assert_eq!(PublicKey::from_str(GENERATOR), Ok(key));
    assert_eq!(PublicKey::from_bytes(key.serialize()), Some(key));
    assert_eq!(PublicKey::from_bytes([5; 33]), None);
    assert_eq!(key.x_only_public_key().to_string(), GENERATOR[2..]);
    assert_eq!(XOnlyPublicKey::from_str(&GENERATOR[2..]), Ok(key.x_only_public_key()));
    assert_eq!(XOnlyPublicKey::from_bytes([0xff; 32]), None);
    assert!(key.x_only_public_key().even().same(&key));
    assert!(!key.negate().same(&key));
    assert!(key.negate().negate().same(&key));
    assert!(key.combine(&key.negate()).is_none());
    let two = one().plus(&one()).unwrap();
    assert_eq!(two.secret_bytes()[31], 2);
    assert!(two.public_key().same(&key.combine(&key).unwrap()));
    assert!(one().plus(&one().negate()).is_none());
    assert!(one().negate().public_key().same(&key.negate()));
    for wrong in ["", "02", &GENERATOR[2..], &["04", &GENERATOR[2..]].concat()] {
        assert_eq!(PublicKey::from_str(wrong), Err(SwapError::InvalidPublicKey));
    }
    assert_eq!(XOnlyPublicKey::from_str("zz"), Err(SwapError::InvalidPublicKey));
    assert_eq!(XOnlyPublicKey::from_str(GENERATOR), Err(SwapError::InvalidPublicKey));
}

#[test]
fn signatures_verify_for_one_key_and_message() {
    let secret = SecretKey::random();
    let key = secret.public_key().x_only_public_key();
    let signature = secret.sign(&[8; 32]);
    assert!(key.verifies(&signature, &[8; 32]));
    assert!(!key.verifies(&signature, &[9; 32]));
    assert!(!SecretKey::random().public_key().x_only_public_key().verifies(&signature, &[8; 32]));
    assert_eq!(signature_nonce(&signature), signature[..32]);
    assert_eq!(signature_scalar(&signature), signature[32..]);
    assert_eq!(signature_from_hex(&bytes_hex(&signature)), Ok(signature));
    assert_eq!(signature_from_hex("00"), Err(SwapError::InvalidSignature));
    assert_eq!(signature_from_hex("0"), Err(SwapError::InvalidHex));
}

#[test]
fn secrets_survive_their_text() {
    let secret = SecretKey::random();
    let back = secret_key_from_hex(&secret_key_hex(&secret)).ok().unwrap();
    assert_eq!(back.secret_bytes(), secret.secret_bytes());
    assert_eq!(secret_key_hex(&one()), ["00".repeat(31), "01".to_owned()].concat());
    assert_eq!(secret_key_from_hex(&"00".repeat(32)).err(), Some(SwapError::InvalidSecretKey));
    assert_eq!(secret_key_from_hex("01").err(), Some(SwapError::ExpectedThirtyTwoBytes));
    assert_eq!(secret_key_from_hex("1").err(), Some(SwapError::InvalidHex));
    assert_ne!(SecretKey::random().secret_bytes(), SecretKey::random().secret_bytes());
}

#[test]
fn malformed_shares_are_refused() {
    assert_eq!(public_nonce_from_hex("00"), Err(SwapError::InvalidPublicNonce));
    assert_eq!(public_nonce_from_hex(&"11".repeat(66)), Err(SwapError::InvalidPublicNonce));
    assert_eq!(public_nonce_from_hex("x"), Err(SwapError::InvalidHex));
    assert_eq!(partial_sig_from_hex("00"), Err(SwapError::InvalidPartialSignature));
    assert_eq!(partial_sig_from_hex(&"ff".repeat(32)), Err(SwapError::InvalidPartialSignature));
    assert_eq!(partial_sig_from_hex("x"), Err(SwapError::InvalidHex));
    assert_eq!(partial_sig_from_hex(&"01".repeat(32)).unwrap().to_hex(), "01".repeat(32));
}

#[test]
fn transactions_survive_their_text() {
    let tx = sample_tx();
    let outside: bitcoin::Transaction = bitcoin::consensus::encode::deserialize_hex(&tx.to_hex()).unwrap();
    assert_eq!(outside.version.0, 2);
    assert_eq!(outside.lock_time.to_consensus_u32(), 7);
    assert_eq!(outside.input[0].previous_output.txid.to_byte_array(), [3; 32]);
    assert_eq!(outside.input[0].previous_output.vout, 1);
    assert_eq!(outside.input[0].script_sig.as_bytes(), &[0x51]);
    assert_eq!(outside.input[0].witness.to_vec(), vec![vec![1, 2], vec![]]);
    assert_eq!(outside.input[1].sequence.0, 5);
    assert_eq!(outside.output[0].value, Amount::from_sat(1_000));
    assert_eq!(tx.txid(), outside.compute_txid().to_byte_array());
    assert_eq!(txid_to_string(&tx.txid()), outside.compute_txid().to_string());
    assert_eq!(tx.weight_units(), outside.weight().to_wu());
    assert_eq!(tx_from_hex(&tx.to_hex()), Ok(tx));
    assert_eq!(tx_from_hex("00"), Err(SwapError::InvalidTransaction));
    let output = TxOut { value: 80_000, script_pubkey: vec![] };
    assert_eq!(output.to_hex(), "803801000000000000");
    assert_eq!(txout_from_hex("803801000000000000"), Ok(output));
    assert_eq!(txout_from_hex("8038"), Err(SwapError::InvalidOutput));
}

#[test]
fn witnesses_do_not_name_transactions() {
    let tx = sample_tx();
    let bare = without_witness(&tx);
    assert!(bare.input.iter().all(|input| input.witness.is_empty()));
    assert_eq!(bare.txid(), tx.txid());
    assert!(!bare.same(&tx));
    assert!(bare.same(&without_witness(&bare)));
    assert!(!is_fully_signed(&tx));
    let mut signed = tx.clone();
    signed.input[1].witness.push(vec![9]);
    assert!(is_fully_signed(&signed));
    let mut other = tx.clone();
    other.output[1].value = 6;
    assert_ne!(other.txid(), tx.txid());
}

#[test]
fn sums_refuse_to_overflow() {
    assert_eq!(sum_outputs(&sample_tx().output), Ok(1_005));
    assert_eq!(sum_outputs(&vec![]), Ok(0));
    let huge = TxOut { value: u64::MAX, script_pubkey: vec![] };
    assert_eq!(sum_outputs(&vec![huge.clone()]), Ok(u64::MAX));
    assert_eq!(sum_outputs(&vec![huge, TxOut { value: 1, script_pubkey: vec![] }]), Err(SwapError::AmountOverflow));
}

#[test]
fn identifiers_compare_by_bytes() {
    assert!(same_id(&[1; 32], &[1; 32]));
    assert!(!same_id(&[1; 32], &[2; 32]));
    assert!(id_listed(&vec![[1; 32], [2; 32]], &[2; 32]));
    assert!(!id_listed(&vec![[1; 32]], &[2; 32]));
    let point = OutPoint { txid: [1; 32], vout: 3 };
    assert!(point.same(&OutPoint { txid: [1; 32], vout: 3 }));
    assert!(!point.same(&OutPoint { txid: [1; 32], vout: 4 }));
}

#[test]
fn scripts_are_told_apart_as_bitcoin_does() {
    let wpkh = [vec![0x00, 0x14], vec![7; 20]].concat();
    let wsh = [vec![0x00, 0x20], vec![7; 32]].concat();
    let tr = [vec![0x51, 0x20], vec![7; 32]].concat();
    let pkh = [vec![0x76, 0xa9, 0x14], vec![7; 20], vec![0x88, 0xac]].concat();
    let sh = [vec![0xa9, 0x14], vec![7; 20], vec![0x87]].concat();
    let anchor = vec![0x51, 0x02, 0x4e, 0x73];
    let note = [vec![0x6a, 0x04], vec![7; 4]].concat();
    for script in [wpkh, wsh, tr, pkh, sh, anchor, note, vec![], vec![0x51], [vec![0x6a], vec![1; 90]].concat()] {
        let outside = ScriptBuf::from_bytes(script.clone());
        assert_eq!(is_p2tr(&script), outside.is_p2tr());
        assert_eq!(is_native_segwit(&script), outside.is_p2wpkh() || outside.is_p2wsh() || outside.is_p2tr());
        for value in [0, 1, 239, 240, 293, 294, 329, 330, 545, 546, 1_000_000] {
            let output = TxOut { value, script_pubkey: script.clone() };
            let copy = bitcoin::TxOut { value: Amount::from_sat(value), script_pubkey: outside.clone() };
            assert_eq!(is_standard(&output), copy.is_standard(), "{script:?} {value}");
            assert_eq!(clears_dust(&output), copy.value >= copy.script_pubkey.minimal_non_dust(), "{script:?} {value}");
        }
    }
    let fee = bitcoin_ext::fee::fee_anchor_with_amount(Amount::from_sat(330));
    assert_eq!(fee_anchor_with_amount(330).value, fee.value.to_sat());
    assert_eq!(fee_anchor_with_amount(330).script_pubkey, fee.script_pubkey.into_bytes());
}

#[test]
fn addresses_belong_to_a_network() {
    let script = key_path_script(&one().public_key().x_only_public_key()).unwrap();
    let key = bitcoin::secp256k1::XOnlyPublicKey::from_slice(&one().public_key().x_only_public_key().serialize()).unwrap();
    assert_eq!(script, ScriptBuf::new_p2tr(&ark::SECP, key, None).into_bytes());
    let text = taproot_address(&script, Network::Regtest);
    assert!(text.starts_with("bcrt1p"));
    assert_eq!(parse_address(&text, Network::Regtest), Ok((text.clone(), script.clone())));
    assert_eq!(parse_address(&text.to_uppercase(), Network::Regtest), Ok((text.clone(), script.clone())));
    assert_eq!(parse_address(&text, Network::Bitcoin), Err(SwapError::InvalidAddress));
    assert_eq!(parse_address("bcrt1", Network::Regtest), Err(SwapError::InvalidAddress));
    assert!(taproot_address(&script, Network::Bitcoin).starts_with("bc1p"));
    for network in [Network::Testnet, Network::Testnet4, Network::Signet] {
        assert!(taproot_address(&script, network).starts_with("tb1p"));
    }
}

#[test]
fn key_policies_are_a_zero_byte_and_the_key() {
    let key = SecretKey::from_bytes([3; 32]).unwrap().public_key();
    let policy = VtxoPolicy::new_pubkey(&key);
    assert_eq!(policy.serialize_hex(), format!("00{}", bytes_hex(&key.serialize())));
    assert_eq!(policy.user_pubkey(), Some(key));
}

#[test]
fn psbts_take_the_funding_of_their_template() {
    let template = without_witness(&sample_tx());
    let mut template = Transaction { input: vec![template.input[1].clone()], ..template };
    template.lock_time = 0;
    let outside: bitcoin::Transaction = bitcoin::consensus::encode::deserialize_hex(&template.to_hex()).unwrap();
    let mut psbt = bitcoin::Psbt::from_unsigned_tx(outside).unwrap();
    psbt.outputs[1].witness_script = Some(ScriptBuf::from_bytes(vec![0x51]));
    let psbt_hex = bytes_hex(&psbt.serialize());
    let mut funding = template.clone();
    funding.output[1] = TxOut { value: 5, script_pubkey: vec![0x51, 0x20] };
    let changed = put_funding(&psbt_hex, &template.to_hex(), &funding.to_hex(), 1).unwrap();
    let back = bitcoin::Psbt::deserialize(&bytes_from_hex(&changed).unwrap()).unwrap();
    assert_eq!(bitcoin::consensus::encode::serialize_hex(&back.unsigned_tx), funding.to_hex());
    assert_eq!(back.outputs[1], Default::default());
    let put = |psbt: &str, template: &Transaction, funding: &str, slot| {
        put_funding(psbt, &template.to_hex(), funding, slot).err()
    };
    assert_eq!(put("x", &template, &funding.to_hex(), 1), Some(SwapError::InvalidHex));
    assert_eq!(put("00", &template, &funding.to_hex(), 1), Some(SwapError::InvalidPsbt));
    assert_eq!(put(&psbt_hex, &funding, &funding.to_hex(), 1), Some(SwapError::PsbtMismatch));
    assert_eq!(put(&psbt_hex, &template, &funding.to_hex(), 2), Some(SwapError::PsbtMismatch));
    assert_eq!(put(&psbt_hex, &template, "00", 1), Some(SwapError::InvalidTransaction));
}
