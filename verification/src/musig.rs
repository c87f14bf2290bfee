//! Two-party MuSig2: aggregate keys, nonces and partial signatures.

use ark::musig::secpm;
use bitcoin::secp256k1::Keypair;
use vstd::prelude::*;

use crate::adaptor::{adaptor_valid, lacking_view, nonce_part, scalar_part};
use crate::bytes::{array32, array33};
use crate::error::SwapError;
use crate::hex::{bytes_from_hex, bytes_hex, hex_text, hex_value};
use crate::keys::{is_public_key, point_of, point_sum, signature_point, PublicKey, SecretKey};
use crate::scalar::{curve_order, is_secret, lemma_zero_number, number, scalar};
use vstd::multiset::Multiset;

verus! {

/// The aggregate of two public keys, in any order.
pub uninterp spec fn aggregate_key(a: Seq<u8>, b: Seq<u8>) -> Seq<u8>;

/// Whether the aggregate of some public keys takes a tweak: the tweak is below the order of the
/// curve and does not cancel the key.
pub uninterp spec fn tweak_accepted(keys: Multiset<Seq<u8>>, tweak: Seq<u8>) -> bool;

/// The tweaked aggregate of two public keys, in any order.
pub uninterp spec fn tweaked_key(a: Seq<u8>, b: Seq<u8>, tweak: Seq<u8>) -> Seq<u8>;

/// The aggregate of two public nonces.
pub uninterp spec fn aggregate_nonce(a: Seq<u8>, b: Seq<u8>) -> Seq<u8>;

/// Whether `AggregatedNonce::from_byte_array` takes 66 bytes.
pub uninterp spec fn is_aggregate_nonce(bytes: Seq<u8>) -> bool;

/// The share of `secret` in a signature with the holder of `other`.
pub uninterp spec fn share_of(
    secret: Seq<u8>,
    other: Seq<u8>,
    aggregate: Seq<u8>,
    nonce: Seq<u8>,
    message: Seq<u8>,
    tweak: Option<Seq<u8>>,
) -> Seq<u8>;

/// The signature of the share of `secret` and a share of the holder of `other`.
pub uninterp spec fn joined_shares(
    secret: Seq<u8>,
    other: Seq<u8>,
    aggregate: Seq<u8>,
    nonce: Seq<u8>,
    message: Seq<u8>,
    tweak: Option<Seq<u8>>,
    share: Seq<u8>,
) -> Seq<u8>;

/// Whether 66 bytes are a public nonce: two compressed points.
pub open spec fn is_public_nonce(bytes: Seq<u8>) -> bool {
    bytes.len() == 66 && is_public_key(bytes.subrange(0, 33)) && is_public_key(bytes.subrange(33, 66))
}

/// Whether 32 bytes are a partial signature: a number below the order of the curve.
pub open spec fn is_partial_signature(bytes: Seq<u8>) -> bool {
    bytes.len() == 32 && number(bytes) < curve_order()
}

/// Whether some byte is not zero.
pub open spec fn not_all_zero(bytes: Seq<u8>) -> bool {
    exists|i: int| 0 <= i < bytes.len() && #[trigger] bytes[i] != 0
}

/// The bytes of an optional tweak.
pub open spec fn tweak_view(tweak: Option<[u8; 32]>) -> Option<Seq<u8>> {
    match tweak {
        Some(bytes) => Some(bytes@),
        None => None,
    }
}

/// The views of some keys.
pub open spec fn key_views(keys: Seq<[u8; 33]>) -> Seq<Seq<u8>> {
    keys.map_values(|key: [u8; 33]| key@)
}

/// Two keys, in no order.
pub open spec fn two_keys(a: Seq<u8>, b: Seq<u8>) -> Multiset<Seq<u8>> {
    Multiset::empty().insert(a).insert(b)
}

/// Whether the aggregate of two keys takes an optional tweak.
pub open spec fn tweak_fits(a: Seq<u8>, b: Seq<u8>, tweak: Option<Seq<u8>>) -> bool {
    match tweak {
        Some(bytes) => tweak_accepted(two_keys(a, b), bytes),
        None => true,
    }
}

/// The order of two keys does not matter to a tweak.
pub proof fn lemma_tweak_fits_either_way(a: Seq<u8>, b: Seq<u8>, tweak: Option<Seq<u8>>)
    ensures
        tweak_fits(a, b, tweak) == tweak_fits(b, a, tweak),
{
    assert(two_keys(a, b) =~= two_keys(b, a));
}

/// Whether two secret scalars belong to a public nonce: its points are those of the scalars.
pub open spec fn scalars_of_nonce(scalars: Seq<u8>, public: Seq<u8>) -> bool {
    &&& scalars.len() == 64
    &&& is_secret(scalars.subrange(0, 32))
    &&& is_secret(scalars.subrange(32, 64))
    &&& public == point_of(scalars.subrange(0, 32)) + point_of(scalars.subrange(32, 64))
}

/// Whether the 132 stored bytes of a secret nonce belong to a public nonce.
pub open spec fn stored_for(stored: Seq<u8>, public: Seq<u8>) -> bool {
    stored.len() == 132 && scalars_of_nonce(stored.subrange(4, 68), public)
}

/// What is stored for a public nonce is a secret nonce.
pub proof fn lemma_stored_signs(stored: Seq<u8>, public: Seq<u8>)
    requires
        stored_for(stored, public),
    ensures
        nonce_scalars(stored) == Some(stored.subrange(4, 68)),
{
    let scalars = stored.subrange(4, 68);
    let first = scalars.subrange(0, 32);
    if !not_all_zero(scalars) {
        assert forall|i: int| 0 <= i < first.len() implies first[i] == 0 by {
            assert(first[i] == scalars[i]);
        }
        lemma_zero_number(first);
    }
}

/// Whether a signature of two shares cannot be told from a failed one: its scalar vanishes, its
/// nonce is the generator, which stands in for the point at infinity, or the point that it needs
/// is the one at infinity.
pub open spec fn degenerate(signature: Seq<u8>, key: Seq<u8>, message: Seq<u8>) -> bool {
    ||| !is_secret(scalar_part(signature))
    ||| nonce_part(signature) == point_of(scalar(1)).subrange(1, 33)
    ||| signature_point(nonce_part(signature), key, message) is None
}

/// Whether two parties sign honestly: each with its own secret nonce, the other one with a public
/// nonce that is offset by `point`, and both for the same aggregate nonce.
pub open spec fn honest_session(
    secret: Seq<u8>,
    other: Seq<u8>,
    aggregate: Seq<u8>,
    scalars: Seq<u8>,
    message: Seq<u8>,
    tweak: Option<Seq<u8>>,
    share: Seq<u8>,
    other_secret: Seq<u8>,
    other_scalars: Seq<u8>,
    own_nonce: Seq<u8>,
    plain_nonce: Seq<u8>,
    other_nonce: Seq<u8>,
    point: Seq<u8>,
) -> bool {
    &&& is_secret(other_secret) && other == point_of(other_secret) && is_public_key(point)
    &&& scalars_of_nonce(scalars, own_nonce)
    &&& scalars_of_nonce(other_scalars, plain_nonce)
    &&& adapted_nonce(plain_nonce, point) == Some(other_nonce)
    &&& aggregate == aggregate_nonce(own_nonce, other_nonce)
    &&& share == share_of(other_secret, point_of(secret), aggregate, other_scalars, message, tweak)
}

/// Whether a signature of two shares lacks just the point by which the nonce of the other was
/// offset, wherever both signed honestly and the signature is not degenerate.
pub open spec fn joins_honest_shares(
    secret: Seq<u8>,
    other: Seq<u8>,
    aggregate: Seq<u8>,
    scalars: Seq<u8>,
    message: Seq<u8>,
    tweak: Option<Seq<u8>>,
    share: Seq<u8>,
    signature: Seq<u8>,
) -> bool {
    let key = signing_key(point_of(secret), other, tweak).subrange(1, 33);
    forall|
        other_secret: Seq<u8>,
        other_scalars: Seq<u8>,
        own_nonce: Seq<u8>,
        plain_nonce: Seq<u8>,
        other_nonce: Seq<u8>,
        point: Seq<u8>,
    | #[trigger]
        honest_session(
            secret,
            other,
            aggregate,
            scalars,
            message,
            tweak,
            share,
            other_secret,
            other_scalars,
            own_nonce,
            plain_nonce,
            other_nonce,
            point,
        ) ==> adaptor_valid(lacking_view(point, key, message, signature)) || degenerate(signature, key, message)
}

/// The aggregate of two keys under an optional tweak.
pub open spec fn signing_key(a: Seq<u8>, b: Seq<u8>, tweak: Option<Seq<u8>>) -> Seq<u8> {
    match tweak {
        Some(bytes) => tweaked_key(a, b, bytes),
        None => aggregate_key(a, b),
    }
}

/// The public nonce whose first point is offset by `point`, unless the two cancel out.
pub open spec fn adapted_nonce(nonce: Seq<u8>, point: Seq<u8>) -> Option<Seq<u8>> {
    match point_sum(nonce.subrange(0, 33), point) {
        Some(first) => Some(first + nonce.subrange(33, 66)),
        None => None,
    }
}

/// `ark::musig::combine_keys` of two keys.
#[verifier::external_body]
fn combine_two(a: &[u8; 33], b: &[u8; 33]) -> (key: [u8; 33])
    requires
        is_public_key(a@),
        is_public_key(b@),
    ensures
        key@ == aggregate_key(a@, b@),
        is_public_key(key@),
{
    let a = bitcoin::secp256k1::PublicKey::from_slice(a).unwrap();
    let b = bitcoin::secp256k1::PublicKey::from_slice(b).unwrap();
    ark::musig::combine_keys([a, b]).serialize()
}

/// `KeyAggCache::pubkey_xonly_tweak_add` on `ark::musig::key_agg` of some keys, which it sorts, with
/// a tweak that `Scalar::from_be_bytes` takes.
#[verifier::external_body]
fn tweak_ok(keys: &Vec<[u8; 33]>, tweak: &[u8; 32]) -> (found: bool)
    requires
        keys@.len() > 0,
        forall|i: int| 0 <= i < keys@.len() ==> is_public_key(#[trigger] key_views(keys@)[i]),
    ensures
        found == tweak_accepted(key_views(keys@).to_multiset(), tweak@),
{
    let keys = keys.iter().map(|key| bitcoin::secp256k1::PublicKey::from_slice(key).unwrap());
    let mut keys = ark::musig::key_agg(keys);
    secpm::Scalar::from_be_bytes(*tweak).ok().and_then(|t| keys.pubkey_xonly_tweak_add(&t).ok()).is_some()
}

/// Whether the aggregate of some keys takes a tweak.
pub fn takes_tweak(keys: &Vec<PublicKey>, tweak: &[u8; 32]) -> (found: bool)
    requires
        keys@.len() > 0,
    ensures
        found == tweak_accepted(keys@.map_values(|key: PublicKey| key@).to_multiset(), tweak@),
{
    let mut bytes: Vec<[u8; 33]> = Vec::new();
    let mut i: usize = 0;
    while i < keys.len()
        invariant
            i <= keys.len(),
            bytes.len() == i,
            forall|k: int| 0 <= k < i ==> (#[trigger] bytes[k])@ == keys[k]@ && is_public_key(bytes[k]@),
        decreases keys.len() - i,
    {
        bytes.push(keys[i].serialize());
        i += 1;
    }
    assert(key_views(bytes@) =~= keys@.map_values(|key: PublicKey| key@));
    tweak_ok(&bytes, tweak)
}

/// `ark::musig::tweaked_key_agg` of two keys.
#[verifier::external_body]
fn tweak_two(a: &[u8; 33], b: &[u8; 33], tweak: &[u8; 32]) -> (key: [u8; 33])
    requires
        is_public_key(a@),
        is_public_key(b@),
        tweak_accepted(two_keys(a@, b@), tweak@),
    ensures
        key@ == tweaked_key(a@, b@, tweak@),
        is_public_key(key@),
{
    let a = bitcoin::secp256k1::PublicKey::from_slice(a).unwrap();
    let b = bitcoin::secp256k1::PublicKey::from_slice(b).unwrap();
    ark::musig::tweaked_key_agg([a, b], *tweak).1.serialize()
}

/// `PublicNonce::from_byte_array` of secp256k1, which takes two compressed points.
#[verifier::external_body]
fn public_nonce_ok(bytes: &[u8; 66]) -> (found: bool)
    ensures
        found == is_public_nonce(bytes@),
{
    ark::musig::PublicNonce::from_byte_array(bytes).is_ok()
}

/// `PartialSignature::from_byte_array` of secp256k1, which takes the numbers below the order of
/// the curve.
#[verifier::external_body]
fn partial_signature_ok(bytes: &[u8; 32]) -> (found: bool)
    ensures
        found == is_partial_signature(bytes@),
{
    ark::musig::PartialSignature::from_byte_array(bytes).is_ok()
}

/// `ark::musig::nonce_pair` of a key: a fresh secret nonce, whose two scalars stand in bytes 4 to
/// 67, and its public nonce, the points of the two scalars.
#[verifier::external_body]
fn fresh_nonce(secret: &[u8; 32]) -> (pair: ([u8; 132], [u8; 66]))
    requires
        is_secret(secret@),
    ensures
        is_public_nonce(pair.1@),
        stored_for(pair.0@, pair.1@),
{
    let keypair = Keypair::from_seckey_slice(&ark::SECP, secret).unwrap();
    let (secret_nonce, public_nonce) = ark::musig::nonce_pair(&keypair);
    (secret_nonce.dangerous_into_bytes(), public_nonce.serialize())
}

/// `ark::musig::nonce_pair_with_msg` of a key and a message: a fresh secret nonce, whose two
/// scalars stand in bytes 4 to 67, and its public nonce, the points of the two scalars.
#[verifier::external_body]
fn fresh_nonce_for(secret: &[u8; 32], message: &[u8; 32]) -> (pair: ([u8; 132], [u8; 66]))
    requires
        is_secret(secret@),
    ensures
        is_public_nonce(pair.1@),
        stored_for(pair.0@, pair.1@),
{
    let keypair = Keypair::from_seckey_slice(&ark::SECP, secret).unwrap();
    let (secret_nonce, public_nonce) = ark::musig::nonce_pair_with_msg(&keypair, message);
    (secret_nonce.dangerous_into_bytes(), public_nonce.serialize())
}

/// `ark::musig::nonce_agg` of two nonces.
#[verifier::external_body]
fn aggregate_two(a: &[u8; 66], b: &[u8; 66]) -> (nonce: [u8; 66])
    requires
        is_public_nonce(a@),
        is_public_nonce(b@),
    ensures
        nonce@ == aggregate_nonce(a@, b@),
        is_aggregate_nonce(nonce@),
{
    let a = ark::musig::PublicNonce::from_byte_array(a).unwrap();
    let b = ark::musig::PublicNonce::from_byte_array(b).unwrap();
    ark::musig::nonce_agg(&[&a, &b]).serialize()
}

/// `ark::musig::partial_sign` without shares of others. The secret nonce is put together from its
/// two scalars and what a nonce of the same key holds besides.
#[verifier::external_body]
fn sign_share(
    secret: &[u8; 32],
    other: &[u8; 33],
    aggregate: &[u8; 66],
    nonce: &[u8; 64],
    message: &[u8; 32],
    tweak: Option<[u8; 32]>,
) -> (share: [u8; 32])
    requires
        is_secret(secret@),
        is_public_key(other@),
        is_aggregate_nonce(aggregate@),
        not_all_zero(nonce@),
        tweak_fits(point_of(secret@), other@, tweak_view(tweak)),
    ensures
        share@ == share_of(secret@, other@, aggregate@, nonce@, message@, tweak_view(tweak)),
        is_partial_signature(share@),
{
    let keypair = Keypair::from_seckey_slice(&ark::SECP, secret).unwrap();
    let other = bitcoin::secp256k1::PublicKey::from_slice(other).unwrap();
    let mut bytes = ark::musig::nonce_pair(&keypair).0.dangerous_into_bytes();
    bytes[4..68].copy_from_slice(nonce);
    ark::musig::partial_sign(
        [keypair.public_key(), other], ark::musig::AggregatedNonce::from_byte_array(aggregate).unwrap(),
        &keypair, ark::musig::SecretNonce::dangerous_from_bytes(bytes), *message, tweak, None,
    ).0.serialize()
}

/// `ark::musig::partial_sign` with the share of the other: the signature of both shares. The two
/// first points of the public nonces count once in the final nonce, so that a point by which one of
/// them was offset is all that the signature lacks, of the sign of the final nonce; where that nonce
/// is the point at infinity the generator is taken for it.
#[verifier::external_body]
fn join_shares(
    secret: &[u8; 32],
    other: &[u8; 33],
    aggregate: &[u8; 66],
    nonce: &[u8; 64],
    message: &[u8; 32],
    tweak: Option<[u8; 32]>,
    share: &[u8; 32],
) -> (signature: [u8; 64])
    requires
        is_secret(secret@),
        is_public_key(other@),
        is_aggregate_nonce(aggregate@),
        not_all_zero(nonce@),
        tweak_fits(point_of(secret@), other@, tweak_view(tweak)),
        is_partial_signature(share@),
    ensures
        signature@ == joined_shares(secret@, other@, aggregate@, nonce@, message@, tweak_view(tweak), share@),
        joins_honest_shares(
            secret@,
            other@,
            aggregate@,
            nonce@,
            message@,
            tweak_view(tweak),
            share@,
            signature@,
        ),
{
    let keypair = Keypair::from_seckey_slice(&ark::SECP, secret).unwrap();
    let other = bitcoin::secp256k1::PublicKey::from_slice(other).unwrap();
    let mut bytes = ark::musig::nonce_pair(&keypair).0.dangerous_into_bytes();
    bytes[4..68].copy_from_slice(nonce);
    ark::musig::partial_sign(
        [keypair.public_key(), other], ark::musig::AggregatedNonce::from_byte_array(aggregate).unwrap(),
        &keypair, ark::musig::SecretNonce::dangerous_from_bytes(bytes), *message, tweak,
        Some(&[&ark::musig::PartialSignature::from_byte_array(share).unwrap()]),
    ).1.unwrap().serialize()
}

/// A public nonce: two points.
#[derive(Clone, Copy, Debug, PartialEq, Eq)]
pub struct PublicNonce {
    bytes: [u8; 66],
}

/// The share of one party in a signature.
#[derive(Clone, Copy, Debug, PartialEq, Eq)]
pub struct PartialSignature {
    bytes: [u8; 32],
}

/// The two secret scalars of a nonce. It signs once, and is no copy.
pub struct SecretNonce {
    scalars: [u8; 64],
}

impl View for PublicNonce {
    type V = Seq<u8>;

    closed spec fn view(&self) -> Seq<u8> {
        self.bytes@
    }
}

impl View for PartialSignature {
    type V = Seq<u8>;

    closed spec fn view(&self) -> Seq<u8> {
        self.bytes@
    }
}

impl View for SecretNonce {
    type V = Seq<u8>;

    closed spec fn view(&self) -> Seq<u8> {
        self.scalars@
    }
}

impl PublicNonce {
    #[verifier::type_invariant]
    spec fn valid(self) -> bool {
        is_public_nonce(self.bytes@)
    }

    /// The nonce of 66 bytes.
    pub fn from_bytes(bytes: [u8; 66]) -> (nonce: Option<PublicNonce>)
        ensures
            match nonce {
                Some(found) => found@ == bytes@ && is_public_nonce(bytes@),
                None => !is_public_nonce(bytes@),
            },
    {
        if public_nonce_ok(&bytes) {
            Some(PublicNonce { bytes })
        } else {
            None
        }
    }

    /// The 66 bytes of this nonce.
    pub fn serialize(&self) -> (bytes: [u8; 66])
        ensures
            bytes@ == self@,
            is_public_nonce(bytes@),
    {
        proof {
            use_type_invariant(self);
        }
        self.bytes
    }

    /// The hexadecimal text of this nonce.
    pub fn to_hex(&self) -> (text: String)
        ensures
            text@ == hex_text(self@),
    {
        bytes_hex(self.bytes.as_slice())
    }

    /// This nonce with its first point offset by `point`, unless the two cancel out.
    pub fn adapted(&self, point: &PublicKey) -> (nonce: Option<PublicNonce>)
        ensures
            match nonce {
                Some(found) => adapted_nonce(self@, point@) == Some(found@),
                None => adapted_nonce(self@, point@) is None,
            },
    {
        proof {
            use_type_invariant(self);
        }
        let first_bytes = array33(vstd::slice::slice_subrange(self.bytes.as_slice(), 0, 33));
        match PublicKey::from_valid(first_bytes).combine(point) {
            Some(offset) => {
                let front = offset.serialize();
                let mut bytes = self.bytes;
                let mut i: usize = 0;
                while i < 33
                    invariant
                        i <= 33,
                        forall|k: int| 0 <= k < i ==> bytes[k] == front[k],
                        forall|k: int| i <= k < 66 ==> bytes[k] == self.bytes[k],
                    decreases 33 - i,
                {
                    bytes[i] = front[i];
                    i += 1;
                }
                assert(bytes@ =~= front@ + self.bytes@.subrange(33, 66));
                assert(bytes@.subrange(0, 33) =~= front@);
                assert(bytes@.subrange(33, 66) =~= self.bytes@.subrange(33, 66));
                Some(PublicNonce { bytes })
            },
            None => None,
        }
    }
}

impl PartialSignature {
    #[verifier::type_invariant]
    spec fn valid(self) -> bool {
        is_partial_signature(self.bytes@)
    }

    /// The share of 32 bytes.
    pub fn from_bytes(bytes: [u8; 32]) -> (share: Option<PartialSignature>)
        ensures
            match share {
                Some(found) => found@ == bytes@ && is_partial_signature(bytes@),
                None => !is_partial_signature(bytes@),
            },
    {
        if partial_signature_ok(&bytes) {
            Some(PartialSignature { bytes })
        } else {
            None
        }
    }

    /// The hexadecimal text of this share.
    pub fn to_hex(&self) -> (text: String)
        ensures
            text@ == hex_text(self@),
    {
        bytes_hex(self.bytes.as_slice())
    }
}

/// The scalars that 132 bytes of a secret nonce hold, where they are a secret nonce.
pub open spec fn nonce_scalars(bytes: Seq<u8>) -> Option<Seq<u8>> {
    if bytes.len() == 132 && not_all_zero(bytes.subrange(4, 68)) {
        Some(bytes.subrange(4, 68))
    } else {
        None
    }
}

impl SecretNonce {
    #[verifier::type_invariant]
    spec fn valid(self) -> bool {
        not_all_zero(self.scalars@)
    }

    /// The nonce of 132 stored bytes.
    pub fn from_stored(bytes: &[u8]) -> (nonce: Result<SecretNonce, SwapError>)
        ensures
            match nonce {
                Ok(found) => nonce_scalars(bytes@) == Some(found@),
                Err(error) => nonce_scalars(bytes@) is None && error == SwapError::InvalidSecretNonce,
            },
    {
        if bytes.len() != 132 {
            return Err(SwapError::InvalidSecretNonce);
        }
        let mut scalars = [0u8; 64];
        let mut found = false;
        let ghost mut at: int = 0;
        let mut i: usize = 0;
        while i < 64
            invariant
                i <= 64,
                bytes@.len() == 132,
                forall|k: int| 0 <= k < i ==> scalars[k] == bytes@[k + 4],
                found ==> 0 <= at < i && scalars@[at] != 0,
                !found ==> forall|k: int| 0 <= k < i ==> scalars@[k] == 0,
            decreases 64 - i,
        {
            scalars[i] = bytes[i + 4];
            if bytes[i + 4] != 0 {
                found = true;
                proof {
                    at = i as int;
                }
            }
            i += 1;
        }
        assert(scalars@ =~= bytes@.subrange(4, 68));
        if found {
            Ok(SecretNonce { scalars })
        } else {
            Err(SwapError::InvalidSecretNonce)
        }
    }
}

/// A copy of a slice of exactly 66 bytes.
fn array66(bytes: &[u8]) -> (array: [u8; 66])
    requires
        bytes@.len() == 66,
    ensures
        array@ == bytes@,
{
    let mut array = [0u8; 66];
    let mut i: usize = 0;
    while i < 66
        invariant
            i <= 66,
            bytes@.len() == 66,
            array@.len() == 66,
            forall|k: int| 0 <= k < i ==> array[k] == bytes[k],
        decreases 66 - i,
    {
        array[i] = bytes[i];
        i += 1;
    }
    assert(array@ =~= bytes@);
    array
}

/// The aggregate of two public keys.
pub fn combine_keys(a: &PublicKey, b: &PublicKey) -> (key: PublicKey)
    ensures
        key@ == aggregate_key(a@, b@),
{
    let bytes = combine_two(&a.serialize(), &b.serialize());
    PublicKey::from_valid(bytes)
}

/// A fresh nonce of a key: what is stored of the secret nonce, and the public nonce.
pub fn nonce_pair(secret: &SecretKey) -> (pair: ([u8; 132], PublicNonce))
    ensures
        is_public_nonce(pair.1@),
        stored_for(pair.0@, pair.1@),
{
    let (stored, bytes) = fresh_nonce(&secret.secret_bytes());
    (stored, PublicNonce { bytes })
}

/// A fresh nonce of a key for a message: what is stored of the secret nonce, and the public nonce.
pub fn nonce_pair_with_msg(secret: &SecretKey, message: &[u8; 32]) -> (pair: ([u8; 132], PublicNonce))
    ensures
        is_public_nonce(pair.1@),
        stored_for(pair.0@, pair.1@),
{
    let (stored, bytes) = fresh_nonce_for(&secret.secret_bytes(), message);
    (stored, PublicNonce { bytes })
}

/// The aggregate of two keys under an optional tweak, if the aggregate takes it.
pub fn signing_key_of(a: &PublicKey, b: &PublicKey, tweak: Option<[u8; 32]>) -> (key: Result<PublicKey, SwapError>)
    ensures
        match key {
            Ok(found) => found@ == signing_key(a@, b@, tweak_view(tweak)) && tweak_fits(a@, b@, tweak_view(tweak)),
            Err(error) => !tweak_fits(a@, b@, tweak_view(tweak)) && error == SwapError::InvalidTweak,
        },
{
    match tweak {
        Some(bytes) => {
            let first = a.serialize();
            let second = b.serialize();
            let mut both: Vec<[u8; 33]> = Vec::new();
            both.push(first);
            both.push(second);
            proof {
                let none: Seq<Seq<u8>> = Seq::empty();
                assert(key_views(both@) =~= none.push(a@).push(b@));
                broadcast use vstd::seq_lib::group_to_multiset_ensures;
                assert(none.to_multiset() =~= Multiset::empty());
                assert(key_views(both@).to_multiset() =~= two_keys(a@, b@));
            }
            if tweak_ok(&both, &bytes) {
                let key = tweak_two(&first, &second, &bytes);
                Ok(PublicKey::from_valid(key))
            } else {
                Err(SwapError::InvalidTweak)
            }
        },
        None => Ok(combine_keys(a, b)),
    }
}

/// The share of `secret` in a signature with the holder of `other`, if their key takes the tweak.
pub fn partial_sign(
    secret: &SecretKey,
    other: &PublicKey,
    other_nonce: &PublicNonce,
    own_nonce: &PublicNonce,
    nonce: SecretNonce,
    message: &[u8; 32],
    tweak: Option<[u8; 32]>,
) -> (share: Result<PartialSignature, SwapError>)
    ensures
        match share {
            Ok(found) => found@ == share_of(
                secret@,
                other@,
                aggregate_nonce(other_nonce@, own_nonce@),
                nonce@,
                message@,
                tweak_view(tweak),
            ) && tweak_fits(point_of(secret@), other@, tweak_view(tweak)),
            Err(error) => !tweak_fits(point_of(secret@), other@, tweak_view(tweak)) && error == SwapError::InvalidTweak,
        },
{
    proof {
        use_type_invariant(&nonce);
        use_type_invariant(other_nonce);
        use_type_invariant(own_nonce);
    }
    match signing_key_of(&secret.public_key(), other, tweak) {
        Ok(_) => {
            let aggregate = aggregate_two(&other_nonce.bytes, &own_nonce.bytes);
            let bytes = sign_share(
                &secret.secret_bytes(),
                &other.serialize(),
                &aggregate,
                &nonce.scalars,
                message,
                tweak,
            );
            Ok(PartialSignature { bytes })
        },
        Err(error) => Err(error),
    }
}

/// The signature of the share of `secret` and a share of the holder of `other`, with the key that
/// it is for, if their key takes the tweak.
pub fn partial_sign_and_join(
    secret: &SecretKey,
    other: &PublicKey,
    own_nonce: &PublicNonce,
    other_nonce: &PublicNonce,
    nonce: SecretNonce,
    message: &[u8; 32],
    tweak: Option<[u8; 32]>,
    share: &PartialSignature,
) -> (signed: Result<([u8; 64], PublicKey), SwapError>)
    ensures
        match signed {
            Ok(found) => {
                &&& found.0@ == joined_shares(
                    secret@,
                    other@,
                    aggregate_nonce(own_nonce@, other_nonce@),
                    nonce@,
                    message@,
                    tweak_view(tweak),
                    share@,
                )
                &&& found.1@ == signing_key(point_of(secret@), other@, tweak_view(tweak))
                &&& tweak_fits(point_of(secret@), other@, tweak_view(tweak))
                &&& joins_honest_shares(
                    secret@,
                    other@,
                    aggregate_nonce(own_nonce@, other_nonce@),
                    nonce@,
                    message@,
                    tweak_view(tweak),
                    share@,
                    found.0@,
                )
            },
            Err(error) => !tweak_fits(point_of(secret@), other@, tweak_view(tweak)) && error == SwapError::InvalidTweak,
        },
{
    proof {
        use_type_invariant(&nonce);
        use_type_invariant(other_nonce);
        use_type_invariant(own_nonce);
        use_type_invariant(share);
    }
    match signing_key_of(&secret.public_key(), other, tweak) {
        Ok(key) => {
            let aggregate = aggregate_two(&own_nonce.bytes, &other_nonce.bytes);
            let signature = join_shares(
                &secret.secret_bytes(),
                &other.serialize(),
                &aggregate,
                &nonce.scalars,
                message,
                tweak,
                &share.bytes,
            );
            Ok((signature, key))
        },
        Err(error) => Err(error),
    }
}

/// The public nonce that `hex` writes.
pub fn public_nonce_from_hex(hex: &str) -> (nonce: Result<PublicNonce, SwapError>)
    ensures
        match nonce {
            Ok(found) => hex_value(hex@) == Some(found@) && is_public_nonce(found@),
            Err(error) => match hex_value(hex@) {
                Some(bytes) => !is_public_nonce(bytes) && error == SwapError::InvalidPublicNonce,
                None => error == SwapError::InvalidHex,
            },
        },
{
    match bytes_from_hex(hex) {
        Ok(bytes) => if bytes.len() == 66 {
            match PublicNonce::from_bytes(array66(bytes.as_slice())) {
                Some(nonce) => Ok(nonce),
                None => Err(SwapError::InvalidPublicNonce),
            }
        } else {
            Err(SwapError::InvalidPublicNonce)
        },
        Err(error) => Err(error),
    }
}

/// The partial signature that `hex` writes.
pub fn partial_sig_from_hex(hex: &str) -> (share: Result<PartialSignature, SwapError>)
    ensures
        match share {
            Ok(found) => hex_value(hex@) == Some(found@) && is_partial_signature(found@),
            Err(error) => match hex_value(hex@) {
                Some(bytes) => !is_partial_signature(bytes) && error == SwapError::InvalidPartialSignature,
                None => error == SwapError::InvalidHex,
            },
        },
{
    match bytes_from_hex(hex) {
        Ok(bytes) => if bytes.len() == 32 {
            match PartialSignature::from_bytes(array32(bytes.as_slice())) {
                Some(share) => Ok(share),
                None => Err(SwapError::InvalidPartialSignature),
            }
        } else {
            Err(SwapError::InvalidPartialSignature)
        },
        Err(error) => Err(error),
    }
}

} // verus!
