//! The genesis of encoded VTXOs.

use ark::test_util::dummy::DummyTestVtxoSpec;
use ark::test_util::VTXO_VECTORS;
use ark::ProtocolEncoding as _;
use bitcoin::hashes::{sha256, Hash as _};
use bitcoin::secp256k1::{Keypair, PublicKey as OutsideKey, Scalar, SecretKey as OutsideSecret};
use bitcoin::Amount;
use btc_ark_swap::ark_types::ArkVtxo;
use btc_ark_swap::genesis::takes_tweaks;
use btc_ark_swap::keys::SecretKey;
use btc_ark_swap::tx::tx_from_hex;

fn tagged(tag: &str, message: &[u8]) -> [u8; 32] {
    let tag = sha256::Hash::hash(tag.as_bytes()).to_byte_array();
    sha256::Hash::hash(&[&tag[..], &tag[..], message].concat()).to_byte_array()
}

/// The tweak that cancels the aggregate of a single key.
fn cancelling_tweak(secret: &OutsideSecret) -> [u8; 32] {
    let key = OutsideKey::from_secret_key(&ark::SECP, secret);
    let list = tagged("KeyAgg list", &key.serialize());
    let factor = tagged("KeyAgg coefficient", &[&list[..], &key.serialize()[..]].concat());
    let whole = secret.mul_tweak(&Scalar::from_be_bytes(factor).unwrap()).unwrap();
    let aggregate = OutsideKey::from_secret_key(&ark::SECP, &whole);
    assert_eq!(aggregate, ark::musig::combine_keys([key]));
    if aggregate.serialize()[0] == 2 {
        whole.negate().secret_bytes()
    } else {
        whole.secret_bytes()
    }
}

/// An encoded VTXO whose only step has the server's key alone, under a tweak.
fn tweaked_vtxo(server: &OutsideSecret, tweak: [u8; 32]) -> (ArkVtxo, Vec<u8>, bitcoin::Transaction) {
    let spec = DummyTestVtxoSpec {
        amount: Amount::from_sat(10_000),
        fee: Amount::ZERO,
        expiry_height: 1_000.into(),
        exit_delta: 144.into(),
        user_keypair: Keypair::from_seckey_slice(&ark::SECP, &SecretKey::random().secret_bytes()).unwrap(),
        server_keypair: Keypair::from_secret_key(&ark::SECP, server),
    };
    let (funding, vtxo) = spec.build();
    let bytes = vtxo.serialize();
    assert!(takes_tweaks(&bytes));
    assert_eq!(bytes[85..88], [1, 1, 2]);
    let behind = 88 + 2 * 33 + 64;
    let changed = [&bytes[..86], &[2, 0], &tweak, &[0; 64], &bytes[behind..]].concat();
    (ArkVtxo::deserialize(changed.clone()).unwrap(), changed, funding)
}

#[test]
fn cancelled_keys_make_an_invalid_genesis() {
    for _ in 0..8 {
        let server = OutsideSecret::new(&mut bitcoin::secp256k1::rand::thread_rng());
        let (vtxo, bytes, funding) = tweaked_vtxo(&server, cancelling_tweak(&server));
        let anchor = tx_from_hex(&bitcoin::consensus::encode::serialize_hex(&funding)).unwrap();
        assert!(!takes_tweaks(&bytes));
        assert!(vtxo.valid_exits(&anchor).is_none());

        let mut tweak = cancelling_tweak(&server);
        tweak[31] ^= 1;
        let (vtxo, bytes, funding) = tweaked_vtxo(&server, tweak);
        let anchor = tx_from_hex(&bitcoin::consensus::encode::serialize_hex(&funding)).unwrap();
        assert!(takes_tweaks(&bytes));
        assert!(vtxo.valid_exits(&anchor).is_none());
    }
}

#[test]
fn every_kind_of_step_is_read() {
    let vectors = &*VTXO_VECTORS;
    let anchored = [
        (&vectors.board_vtxo, &vectors.anchor_tx),
        (&vectors.arkoor_htlc_out_vtxo, &vectors.anchor_tx),
        (&vectors.arkoor2_vtxo, &vectors.anchor_tx),
        (&vectors.round1_vtxo, &vectors.round_tx),
        (&vectors.round2_vtxo, &vectors.round_tx),
        (&vectors.arkoor3_vtxo, &vectors.round_tx),
    ];
    for (vtxo, anchor) in anchored {
        let bytes = vtxo.serialize();
        assert!(takes_tweaks(&bytes));
        let anchor = tx_from_hex(&bitcoin::consensus::encode::serialize_hex(anchor)).unwrap();
        let exits = ArkVtxo::deserialize(bytes.clone()).unwrap().valid_exits(&anchor).unwrap();
        assert_eq!(exits.len(), vtxo.transactions().count());
    }
    let bytes = vectors.arkoor2_vtxo.serialize();
    assert!(!takes_tweaks(&bytes[..84]));
    assert!(!takes_tweaks(&bytes[..86]));
    assert!(!takes_tweaks(&[]));
}
