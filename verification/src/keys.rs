//! Keys, points and signatures of the curve that Bitcoin uses.

use std::str::FromStr as _;

use bitcoin::hashes::Hash as _;
use bitcoin::secp256k1::{schnorr, Keypair, Message, Parity, Scalar};
use vstd::prelude::*;

use crate::bytes::{array32, bytes_eq};
use crate::error::SwapError;
use crate::hex::{bytes32_from_hex, bytes_from_hex, bytes_hex, hex_text, hex_value};
use crate::scalar::{curve_order, is_secret, number, reduced, scalar};

verus! {

/// Whether `PublicKey::from_slice` of secp256k1 takes 33 bytes.
pub uninterp spec fn is_public_key(bytes: Seq<u8>) -> bool;

/// Whether `XOnlyPublicKey::from_slice` of secp256k1 takes 32 bytes.
pub uninterp spec fn is_xonly_key(bytes: Seq<u8>) -> bool;

/// The compressed key that a text writes, as `PublicKey::from_str` of secp256k1 reads it.
pub uninterp spec fn public_key_of_text(text: Seq<char>) -> Option<Seq<u8>>;

/// The point of a secret key: so many times the generator.
pub uninterp spec fn point_of(secret: Seq<u8>) -> Seq<u8>;

/// The sum of two points, unless it is the point at infinity.
pub uninterp spec fn point_sum(a: Seq<u8>, b: Seq<u8>) -> Option<Seq<u8>>;

/// A point taken so many times, unless that is the point at infinity.
pub uninterp spec fn point_product(point: Seq<u8>, times: Seq<u8>) -> Option<Seq<u8>>;

/// The SHA-256 digest of bytes.
pub uninterp spec fn sha256_of(bytes: Seq<u8>) -> Seq<u8>;

/// The point opposite to a point: the same compressed bytes with the other parity.
pub open spec fn negated(point: Seq<u8>) -> Seq<u8> {
    point.update(0, point[0] ^ 1)
}

/// The opposite of the opposite is the point, and no point is its own opposite.
pub proof fn lemma_negated(point: Seq<u8>)
    requires
        point.len() > 0,
    ensures
        negated(negated(point)) == point,
        negated(point) != point,
{
    let first = point[0];
    assert((first ^ 1) ^ 1 == first && first ^ 1 != first) by (bit_vector);
    assert(negated(negated(point)) =~= point);
    assert(negated(point)[0] != point[0]);
}

/// The even point of an x-only key.
pub open spec fn even_point(key: Seq<u8>) -> Seq<u8> {
    seq![2u8] + key
}

/// The tag of the hash that a signature commits to, "BIP0340/challenge".
pub open spec fn challenge_tag() -> Seq<u8> {
    seq![0x42u8, 0x49, 0x50, 0x30, 0x33, 0x34, 0x30, 0x2f, 0x63, 0x68, 0x61, 0x6c, 0x6c, 0x65, 0x6e, 0x67, 0x65]
}

/// What a signature with nonce `nonce` for `key` commits to, modulo the order of the curve.
pub open spec fn challenge(nonce: Seq<u8>, key: Seq<u8>, message: Seq<u8>) -> Seq<u8> {
    let tag = sha256_of(challenge_tag());
    scalar(number(sha256_of(tag + tag + nonce + key + message)) as int)
}

/// The point that the scalar of a signature has to be the secret of: the nonce and so many
/// times the key.
pub open spec fn signature_point(nonce: Seq<u8>, key: Seq<u8>, message: Seq<u8>) -> Option<Seq<u8>> {
    match point_product(even_point(key), challenge(nonce, key, message)) {
        Some(product) => point_sum(even_point(nonce), product),
        None => Some(even_point(nonce)),
    }
}

/// Whether a signature of 64 bytes is valid for a key and a message.
///
/// The nonce is the x coordinate of a point, and the scalar is the secret of `signature_point`.
/// A scalar of zero is valid where the key, so many times, is opposite to the nonce.
pub open spec fn schnorr_valid(signature: Seq<u8>, message: Seq<u8>, key: Seq<u8>) -> bool {
    let nonce = signature.subrange(0, 32);
    let value = signature.subrange(32, 64);
    &&& is_xonly_key(nonce)
    &&& number(value) < curve_order()
    &&& if number(value) == 0 {
        point_product(even_point(key), challenge(nonce, key, message)) == Some(negated(even_point(nonce)))
    } else {
        signature_point(nonce, key, message) == Some(point_of(value))
    }
}

/// `PublicKey::from_slice` of secp256k1.
#[verifier::external_body]
fn public_key_ok(bytes: &[u8; 33]) -> (found: bool)
    ensures
        found == is_public_key(bytes@),
{
    bitcoin::secp256k1::PublicKey::from_slice(bytes).is_ok()
}

/// `XOnlyPublicKey::from_slice` of secp256k1.
#[verifier::external_body]
fn xonly_key_ok(bytes: &[u8; 32]) -> (found: bool)
    ensures
        found == is_xonly_key(bytes@),
{
    bitcoin::secp256k1::XOnlyPublicKey::from_slice(bytes).is_ok()
}

/// `SecretKey::from_slice` of secp256k1, which takes the numbers from one to the order of the
/// curve, excluded.
#[verifier::external_body]
fn secret_key_ok(bytes: &[u8; 32]) -> (found: bool)
    ensures
        found == is_secret(bytes@),
{
    bitcoin::secp256k1::SecretKey::from_slice(bytes).is_ok()
}

/// `PublicKey::from_str` of secp256k1: the key that the text writes, compressed, which is one
/// that `PublicKey::from_slice` takes. The digits of 33 bytes write these bytes, where they are a
/// key, and only the digits of 33 or 65 bytes write one.
#[verifier::external_body]
fn parse_public_key(text: &str) -> (key: Option<[u8; 33]>)
    ensures
        match key {
            Some(found) => public_key_of_text(text@) == Some(found@) && is_public_key(found@),
            None => public_key_of_text(text@) is None,
        },
        match hex_value(text@) {
            None => key is None,
            Some(bytes) => {
                &&& bytes.len() == 33 ==> (key is Some <==> is_public_key(bytes))
                &&& bytes.len() == 33 ==> (key matches Some(found) ==> found@ == bytes)
                &&& key is Some ==> bytes.len() == 33 || bytes.len() == 65
            },
        },
{
    bitcoin::secp256k1::PublicKey::from_str(text).ok().map(|key| key.serialize())
}

/// `PublicKey::x_only_public_key` of secp256k1: the compressed key without its parity byte.
#[verifier::external_body]
fn without_parity(key: &[u8; 33]) -> (found: [u8; 32])
    requires
        is_public_key(key@),
    ensures
        found@ == key@.subrange(1, 33),
        is_xonly_key(found@),
{
    bitcoin::secp256k1::PublicKey::from_slice(key).unwrap().x_only_public_key().0.serialize()
}

/// `XOnlyPublicKey::public_key` of secp256k1 with even parity: a byte two before the key.
#[verifier::external_body]
fn with_even_parity(key: &[u8; 32]) -> (found: [u8; 33])
    requires
        is_xonly_key(key@),
    ensures
        found@ == even_point(key@),
        is_public_key(found@),
{
    bitcoin::secp256k1::XOnlyPublicKey::from_slice(key).unwrap().public_key(Parity::Even).serialize()
}

/// `PublicKey::from_secret_key` of secp256k1.
#[verifier::external_body]
fn secret_point(secret: &[u8; 32]) -> (point: [u8; 33])
    requires
        is_secret(secret@),
    ensures
        point@ == point_of(secret@),
        is_public_key(point@),
{
    let secret = bitcoin::secp256k1::SecretKey::from_slice(secret).unwrap();
    bitcoin::secp256k1::PublicKey::from_secret_key(&ark::SECP, &secret).serialize()
}

/// `SecretKey::add_tweak` of secp256k1: the sum modulo the order of the curve, which it refuses
/// where that is zero. The point of a sum is the sum of the points.
#[verifier::external_body]
fn add_secrets(a: &[u8; 32], b: &[u8; 32]) -> (sum: Option<[u8; 32]>)
    requires
        is_secret(a@),
        is_secret(b@),
    ensures
        match sum {
            Some(found) => {
                &&& is_secret(found@)
                &&& found@ == scalar((number(a@) + number(b@)) as int)
                &&& point_sum(point_of(a@), point_of(b@)) == Some(point_of(found@))
                &&& point_sum(point_of(b@), point_of(a@)) == Some(point_of(found@))
            },
            None => {
                &&& (number(a@) + number(b@)) % curve_order() == 0
                &&& point_sum(point_of(a@), point_of(b@)) is None
                &&& point_sum(point_of(b@), point_of(a@)) is None
            },
        },
{
    let tweak = Scalar::from_be_bytes(*b).unwrap();
    let sum = bitcoin::secp256k1::SecretKey::from_slice(a).unwrap().add_tweak(&tweak);
    sum.ok().map(|found| found.secret_bytes())
}

/// `SecretKey::negate` of secp256k1: the order of the curve less the number. Its point is the
/// opposite one.
#[verifier::external_body]
fn negate_secret(secret: &[u8; 32]) -> (opposite: [u8; 32])
    requires
        is_secret(secret@),
    ensures
        is_secret(opposite@),
        opposite@ == scalar(-number(secret@)),
        point_of(opposite@) == negated(point_of(secret@)),
{
    bitcoin::secp256k1::SecretKey::from_slice(secret).unwrap().negate().secret_bytes()
}

/// `PublicKey::negate` of secp256k1: the compressed key with the other parity.
#[verifier::external_body]
fn negate_point(point: &[u8; 33]) -> (opposite: [u8; 33])
    requires
        is_public_key(point@),
    ensures
        opposite@ == negated(point@),
        is_public_key(opposite@),
{
    bitcoin::secp256k1::PublicKey::from_slice(point).unwrap().negate(&ark::SECP).serialize()
}

/// `PublicKey::combine` of secp256k1, which refuses the point at infinity. Taking the second
/// point off the sum again gives the first.
#[verifier::external_body]
fn add_points(a: &[u8; 33], b: &[u8; 33]) -> (sum: Option<[u8; 33]>)
    requires
        is_public_key(a@),
        is_public_key(b@),
    ensures
        match sum {
            Some(found) => {
                &&& point_sum(a@, b@) == Some(found@)
                &&& point_sum(found@, negated(b@)) == Some(a@)
                &&& is_public_key(found@)
            },
            None => point_sum(a@, b@) is None,
        },
{
    let b = bitcoin::secp256k1::PublicKey::from_slice(b).unwrap();
    bitcoin::secp256k1::PublicKey::from_slice(a).unwrap().combine(&b).ok().map(|sum| sum.serialize())
}

/// `PublicKey::mul_tweak` of secp256k1, which refuses the point at infinity.
#[verifier::external_body]
fn multiply_point(point: &[u8; 33], times: &[u8; 32]) -> (product: Option<[u8; 33]>)
    requires
        is_public_key(point@),
        number(times@) < curve_order(),
    ensures
        match product {
            Some(found) => point_product(point@, times@) == Some(found@) && is_public_key(found@),
            None => point_product(point@, times@) is None,
        },
{
    let times = Scalar::from_be_bytes(*times).unwrap();
    let point = bitcoin::secp256k1::PublicKey::from_slice(point).unwrap();
    point.mul_tweak(&ark::SECP, &times).ok().map(|product| product.serialize())
}

/// `sha256::Hash::hash` of bitcoin's hashes.
#[verifier::external_body]
pub(crate) fn sha256(bytes: &[u8]) -> (digest: [u8; 32])
    ensures
        digest@ == sha256_of(bytes@),
{
    bitcoin::hashes::sha256::Hash::hash(bytes).to_byte_array()
}

/// `Secp256k1::verify_schnorr`: the verification of BIP340.
#[verifier::external_body]
fn check_schnorr(signature: &[u8; 64], message: &[u8; 32], key: &[u8; 32]) -> (valid: bool)
    requires
        is_xonly_key(key@),
    ensures
        valid == schnorr_valid(signature@, message@, key@),
{
    let signature = schnorr::Signature::from_slice(signature).unwrap();
    let key = bitcoin::secp256k1::XOnlyPublicKey::from_slice(key).unwrap();
    ark::SECP.verify_schnorr(&signature, &Message::from_digest(*message), &key).is_ok()
}

/// `Secp256k1::sign_schnorr_with_aux_rand` with fresh randomness: a signature that is valid for
/// the key of the secret.
#[verifier::external_body]
fn sign_schnorr(message: &[u8; 32], secret: &[u8; 32]) -> (signature: [u8; 64])
    requires
        is_secret(secret@),
    ensures
        schnorr_valid(signature@, message@, point_of(secret@).subrange(1, 33)),
{
    let keypair = Keypair::from_seckey_slice(&ark::SECP, secret).unwrap();
    ark::SECP.sign_schnorr_with_aux_rand(&Message::from_digest(*message), &keypair, &rand::random()).serialize()
}

/// `SecretKey::new` of secp256k1 with the thread's random generator: some secret key.
#[verifier::external_body]
fn random_secret() -> (secret: [u8; 32])
    ensures
        is_secret(secret@),
{
    bitcoin::secp256k1::SecretKey::new(&mut bitcoin::secp256k1::rand::thread_rng()).secret_bytes()
}

/// A public key, which is a point of the curve.
#[derive(Clone, Copy, Debug, PartialEq, Eq, Hash)]
pub struct PublicKey {
    bytes: [u8; 33],
}

/// A public key of which only the x coordinate counts.
#[derive(Clone, Copy, Debug, PartialEq, Eq, Hash)]
pub struct XOnlyPublicKey {
    bytes: [u8; 32],
}

/// A secret key, or an adaptor secret.
#[derive(Clone, Copy)]
pub struct SecretKey {
    bytes: [u8; 32],
}

impl View for PublicKey {
    type V = Seq<u8>;

    closed spec fn view(&self) -> Seq<u8> {
        self.bytes@
    }
}

impl View for XOnlyPublicKey {
    type V = Seq<u8>;

    closed spec fn view(&self) -> Seq<u8> {
        self.bytes@
    }
}

impl View for SecretKey {
    type V = Seq<u8>;

    closed spec fn view(&self) -> Seq<u8> {
        self.bytes@
    }
}

impl PublicKey {
    #[verifier::type_invariant]
    spec fn valid(self) -> bool {
        is_public_key(self.bytes@)
    }

    /// The key that a text writes.
    pub fn from_str(text: &str) -> (key: Result<PublicKey, SwapError>)
        ensures
            match key {
                Ok(found) => public_key_of_text(text@) == Some(found@),
                Err(error) => public_key_of_text(text@) is None && error == SwapError::InvalidPublicKey,
            },
            match hex_value(text@) {
                None => key is Err,
                Some(bytes) => {
                    &&& bytes.len() == 33 ==> (key is Ok <==> is_public_key(bytes))
                    &&& bytes.len() == 33 ==> (key matches Ok(found) ==> found@ == bytes)
                    &&& key is Ok ==> bytes.len() == 33 || bytes.len() == 65
                },
            },
    {
        match parse_public_key(text) {
            Some(bytes) => Ok(PublicKey { bytes }),
            None => Err(SwapError::InvalidPublicKey),
        }
    }

    /// The key of 33 compressed bytes.
    pub fn from_bytes(bytes: [u8; 33]) -> (key: Option<PublicKey>)
        ensures
            match key {
                Some(found) => found@ == bytes@ && is_public_key(bytes@),
                None => !is_public_key(bytes@),
            },
    {
        if public_key_ok(&bytes) {
            Some(PublicKey { bytes })
        } else {
            None
        }
    }

    /// The key of 33 compressed bytes that are known to be one.
    pub(crate) fn from_valid(bytes: [u8; 33]) -> (key: PublicKey)
        requires
            is_public_key(bytes@),
        ensures
            key@ == bytes@,
    {
        PublicKey { bytes }
    }

    /// The 33 compressed bytes of this key.
    pub fn serialize(&self) -> (bytes: [u8; 33])
        ensures
            bytes@ == self@,
            is_public_key(bytes@),
    {
        proof {
            use_type_invariant(self);
        }
        self.bytes
    }

    /// The hexadecimal text of the compressed bytes.
    pub fn to_string(&self) -> (text: String)
        ensures
            text@ == hex_text(self@),
    {
        bytes_hex(self.bytes.as_slice())
    }

    /// Whether two keys are the same.
    pub fn same(&self, other: &PublicKey) -> (same: bool)
        ensures
            same == (self@ == other@),
    {
        bytes_eq(self.bytes.as_slice(), other.bytes.as_slice())
    }

    /// This key without its parity.
    pub fn x_only_public_key(&self) -> (key: XOnlyPublicKey)
        ensures
            key@ == self@.subrange(1, 33),
    {
        proof {
            use_type_invariant(self);
        }
        XOnlyPublicKey { bytes: without_parity(&self.bytes) }
    }

    /// The opposite point.
    pub fn negate(&self) -> (opposite: PublicKey)
        ensures
            opposite@ == negated(self@),
    {
        proof {
            use_type_invariant(self);
        }
        PublicKey { bytes: negate_point(&self.bytes) }
    }

    /// The sum of two points, unless it is the point at infinity; taking the second point off
    /// the sum again gives the first.
    pub fn combine(&self, other: &PublicKey) -> (sum: Option<PublicKey>)
        ensures
            match sum {
                Some(found) => point_sum(self@, other@) == Some(found@) && point_sum(found@, negated(other@)) == Some(
                    self@,
                ),
                None => point_sum(self@, other@) is None,
            },
    {
        proof {
            use_type_invariant(self);
            use_type_invariant(other);
        }
        match add_points(&self.bytes, &other.bytes) {
            Some(bytes) => Some(PublicKey { bytes }),
            None => None,
        }
    }
}

impl XOnlyPublicKey {
    #[verifier::type_invariant]
    spec fn valid(self) -> bool {
        is_xonly_key(self.bytes@)
    }

    /// The key that 64 hexadecimal digits write.
    pub fn from_str(text: &str) -> (key: Result<XOnlyPublicKey, SwapError>)
        ensures
            match key {
                Ok(found) => hex_value(text@) == Some(found@) && found@.len() == 32 && is_xonly_key(found@),
                Err(error) => error == SwapError::InvalidPublicKey && !(hex_value(text@) matches Some(bytes)
                    && bytes.len() == 32 && is_xonly_key(bytes)),
            },
    {
        match bytes32_from_hex(text) {
            Ok(bytes) => if xonly_key_ok(&bytes) {
                Ok(XOnlyPublicKey { bytes })
            } else {
                Err(SwapError::InvalidPublicKey)
            },
            Err(_) => Err(SwapError::InvalidPublicKey),
        }
    }

    /// The key of 32 bytes.
    pub fn from_bytes(bytes: [u8; 32]) -> (key: Option<XOnlyPublicKey>)
        ensures
            match key {
                Some(found) => found@ == bytes@ && is_xonly_key(bytes@),
                None => !is_xonly_key(bytes@),
            },
    {
        if xonly_key_ok(&bytes) {
            Some(XOnlyPublicKey { bytes })
        } else {
            None
        }
    }

    /// The key of 32 bytes that are known to be one.
    pub(crate) fn from_valid(bytes: [u8; 32]) -> (key: XOnlyPublicKey)
        requires
            is_xonly_key(bytes@),
        ensures
            key@ == bytes@,
    {
        XOnlyPublicKey { bytes }
    }

    /// The 32 bytes of this key.
    pub fn serialize(&self) -> (bytes: [u8; 32])
        ensures
            bytes@ == self@,
            is_xonly_key(bytes@),
    {
        proof {
            use_type_invariant(self);
        }
        self.bytes
    }

    /// The hexadecimal text of this key.
    pub fn to_string(&self) -> (text: String)
        ensures
            text@ == hex_text(self@),
    {
        bytes_hex(self.bytes.as_slice())
    }

    /// Whether two keys are the same.
    pub fn same(&self, other: &XOnlyPublicKey) -> (same: bool)
        ensures
            same == (self@ == other@),
    {
        bytes_eq(self.bytes.as_slice(), other.bytes.as_slice())
    }

    /// The even point of this key.
    pub fn even(&self) -> (point: PublicKey)
        ensures
            point@ == even_point(self@),
    {
        proof {
            use_type_invariant(self);
        }
        PublicKey { bytes: with_even_parity(&self.bytes) }
    }

    /// Whether a signature is valid for this key and a message.
    pub fn verifies(&self, signature: &[u8; 64], message: &[u8; 32]) -> (valid: bool)
        ensures
            valid == schnorr_valid(signature@, message@, self@),
    {
        proof {
            use_type_invariant(self);
        }
        check_schnorr(signature, message, &self.bytes)
    }
}

impl SecretKey {
    #[verifier::type_invariant]
    spec fn valid(self) -> bool {
        is_secret(self.bytes@)
    }

    /// The secret of 32 bytes.
    pub fn from_bytes(bytes: [u8; 32]) -> (secret: Option<SecretKey>)
        ensures
            match secret {
                Some(found) => found@ == bytes@ && is_secret(bytes@),
                None => !is_secret(bytes@),
            },
    {
        if secret_key_ok(&bytes) {
            Some(SecretKey { bytes })
        } else {
            None
        }
    }

    /// A fresh random secret.
    pub fn random() -> (secret: SecretKey)
        ensures
            is_secret(secret@),
    {
        SecretKey { bytes: random_secret() }
    }

    /// The 32 bytes of this secret.
    pub fn secret_bytes(&self) -> (bytes: [u8; 32])
        ensures
            bytes@ == self@,
            is_secret(bytes@),
    {
        proof {
            use_type_invariant(self);
        }
        self.bytes
    }

    /// The public key of this secret.
    pub fn public_key(&self) -> (key: PublicKey)
        ensures
            key@ == point_of(self@),
            key@.len() == 33,
    {
        proof {
            use_type_invariant(self);
        }
        PublicKey { bytes: secret_point(&self.bytes) }
    }

    /// The sum of two secrets, unless it is zero.
    pub fn plus(&self, other: &SecretKey) -> (sum: Option<SecretKey>)
        ensures
            match sum {
                Some(found) => {
                    &&& is_secret(found@)
                    &&& found@ == scalar((number(self@) + number(other@)) as int)
                    &&& point_sum(point_of(self@), point_of(other@)) == Some(point_of(found@))
                    &&& point_sum(point_of(other@), point_of(self@)) == Some(point_of(found@))
                },
                None => {
                    &&& (number(self@) + number(other@)) % curve_order() == 0
                    &&& point_sum(point_of(self@), point_of(other@)) is None
                    &&& point_sum(point_of(other@), point_of(self@)) is None
                },
            },
    {
        proof {
            use_type_invariant(self);
            use_type_invariant(other);
        }
        match add_secrets(&self.bytes, &other.bytes) {
            Some(bytes) => Some(SecretKey { bytes }),
            None => None,
        }
    }

    /// The opposite secret.
    pub fn negate(&self) -> (opposite: SecretKey)
        ensures
            is_secret(opposite@),
            is_secret(self@),
            opposite@ == scalar(-number(self@)),
            point_of(opposite@) == negated(point_of(self@)),
    {
        proof {
            use_type_invariant(self);
        }
        SecretKey { bytes: negate_secret(&self.bytes) }
    }

    /// A signature by this secret.
    pub fn sign(&self, message: &[u8; 32]) -> (signature: [u8; 64])
        ensures
            schnorr_valid(signature@, message@, point_of(self@).subrange(1, 33)),
    {
        proof {
            use_type_invariant(self);
        }
        sign_schnorr(message, &self.bytes)
    }
}

/// What a signature with nonce `nonce` for `key` commits to.
fn challenge_of(nonce: &XOnlyPublicKey, key: &XOnlyPublicKey, message: &[u8; 32]) -> (found: [u8; 32])
    ensures
        found@ == challenge(nonce@, key@, message@),
        number(found@) < curve_order(),
{
    let name: [u8; 17] = [
        0x42, 0x49, 0x50, 0x30, 0x33, 0x34, 0x30, 0x2f, 0x63, 0x68, 0x61, 0x6c, 0x6c, 0x65, 0x6e, 0x67, 0x65,
    ];
    assert(name@ =~= challenge_tag());
    let tag = sha256(name.as_slice());
    let mut bytes: Vec<u8> = Vec::new();
    bytes.extend_from_slice(tag.as_slice());
    bytes.extend_from_slice(tag.as_slice());
    bytes.extend_from_slice(nonce.bytes.as_slice());
    bytes.extend_from_slice(key.bytes.as_slice());
    bytes.extend_from_slice(message.as_slice());
    assert(bytes@ =~= tag@ + tag@ + nonce@ + key@ + message@);
    reduced(&sha256(bytes.as_slice()))
}

/// The point that the scalar of a signature has to be the secret of, unless it is infinity.
pub fn expected_point(nonce: &XOnlyPublicKey, key: &XOnlyPublicKey, message: &[u8; 32]) -> (point: Option<PublicKey>)
    ensures
        match point {
            Some(found) => signature_point(nonce@, key@, message@) == Some(found@),
            None => signature_point(nonce@, key@, message@) is None,
        },
{
    let times = challenge_of(nonce, key, message);
    let even = key.even();
    proof {
        use_type_invariant(&even);
    }
    match multiply_point(&even.bytes, &times) {
        Some(bytes) => {
            let product = PublicKey { bytes };
            nonce.even().combine(&product)
        },
        None => Some(nonce.even()),
    }
}

/// The hexadecimal text of a secret key.
pub fn secret_key_hex(secret: &SecretKey) -> (text: String)
    ensures
        text@ == hex_text(secret@),
{
    bytes_hex(secret.bytes.as_slice())
}

/// The secret key that `hex` writes.
pub fn secret_key_from_hex(hex: &str) -> (secret: Result<SecretKey, SwapError>)
    ensures
        match secret {
            Ok(found) => hex_value(hex@) == Some(found@) && is_secret(found@),
            Err(error) => match hex_value(hex@) {
                Some(bytes) if bytes.len() == 32 => !is_secret(bytes) && error == SwapError::InvalidSecretKey,
                Some(_) => error == SwapError::ExpectedThirtyTwoBytes,
                None => error == SwapError::InvalidHex,
            },
        },
{
    match bytes32_from_hex(hex) {
        Ok(bytes) => match SecretKey::from_bytes(bytes) {
            Some(secret) => Ok(secret),
            None => Err(SwapError::InvalidSecretKey),
        },
        Err(error) => Err(error),
    }
}

/// A copy of a slice of exactly 64 bytes.
pub fn array64(bytes: &[u8]) -> (array: [u8; 64])
    requires
        bytes@.len() == 64,
    ensures
        array@ == bytes@,
{
    let mut array = [0u8; 64];
    let mut i: usize = 0;
    while i < 64
        invariant
            i <= 64,
            bytes@.len() == 64,
            array@.len() == 64,
            forall|k: int| 0 <= k < i ==> array[k] == bytes[k],
        decreases 64 - i,
    {
        array[i] = bytes[i];
        i += 1;
    }
    assert(array@ =~= bytes@);
    array
}

/// The signature of 64 bytes that `hex` writes.
pub fn signature_from_hex(hex: &str) -> (signature: Result<[u8; 64], SwapError>)
    ensures
        match signature {
            Ok(found) => hex_value(hex@) == Some(found@),
            Err(error) => match hex_value(hex@) {
                Some(bytes) => bytes.len() != 64 && error == SwapError::InvalidSignature,
                None => error == SwapError::InvalidHex,
            },
        },
{
    match bytes_from_hex(hex) {
        Ok(bytes) => if bytes.len() == 64 {
            Ok(array64(bytes.as_slice()))
        } else {
            Err(SwapError::InvalidSignature)
        },
        Err(error) => Err(error),
    }
}

/// The nonce of a signature.
pub fn signature_nonce(signature: &[u8; 64]) -> (nonce: [u8; 32])
    ensures
        nonce@ == signature@.subrange(0, 32),
{
    array32(vstd::slice::slice_subrange(signature.as_slice(), 0, 32))
}

/// The scalar of a signature.
pub fn signature_scalar(signature: &[u8; 64]) -> (value: [u8; 32])
    ensures
        value@ == signature@.subrange(32, 64),
{
    array32(vstd::slice::slice_subrange(signature.as_slice(), 32, 64))
}

} // verus!
